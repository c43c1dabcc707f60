use vstd::prelude::*;

verus! {

/// Canonical identity for the jekko-jailgun split-family checkout.
pub const REPOSITORY: &'static str = "jekko-jailgun";

/// Role recorded in the split-family manifest.
pub const ROLE: &'static str = "web";

/// Profile recorded in the split-family manifest.
pub const PROFILE: &'static str = "rust-web";

/// Return the repo identity tuple used by the smoke tests.
pub fn identity() -> (r: (&'static str, &'static str, &'static str))
    ensures
        r.0@ == REPOSITORY@,
        r.1@ == ROLE@,
        r.2@ == PROFILE@,
{
    (REPOSITORY, ROLE, PROFILE)
}

} // verus!

pub mod accounts;
pub mod agent;
pub mod auth;
pub mod bridge;
pub mod bus;
pub mod config;
pub mod deploy;
pub mod errors;
pub mod fields;
pub mod flow;
pub mod gate;
pub mod ingress;
pub mod launch;
pub mod lease;
pub mod mcp;
pub mod prepare;
pub mod publish;
pub mod review;
pub mod run_event;
pub mod snapshot;
pub mod supervisor;
pub mod summary;
pub mod support;
pub mod tab;
pub mod text;
pub mod timing;
pub mod tracker;
