use jekko_jailgun::{identity, PROFILE, REPOSITORY, ROLE};

#[test]
fn identity_is_stable() {
    assert_eq!(identity(), (REPOSITORY, ROLE, PROFILE));
}

#[test]
fn public_identity_contract_is_stable() {
    let (repo, role, profile) = identity();
    assert_eq!(repo, "jekko-jailgun");
    assert_eq!(role, "web");
    assert_eq!(profile, "rust-web");
}
