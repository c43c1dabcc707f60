use jekko_jailgun::accounts::{
    account_routing, ensure_account_capacity, join_account_profile_pool,
    join_account_profile_ports, join_entries, ready_registry_accounts, AccountRouting,
    BrowserAccount, BrowserAccountStatus,
};
use jekko_jailgun::config::{
    BrowserSettings, DeploySettings, PromptPolicySettings, RunConfig, SourceArchiveSettings,
};
use jekko_jailgun::fields::Fields;
use jekko_jailgun::prepare::{
    apply_profile_env_with, apply_request_config_overrides, browser_lease_ttl_seconds,
    clear_profile_routing_env, deploy_value, prepare_bridge_env, prepared_run_options,
    profile_sources, resolve_repo_url, ConfigOverrides, RequestChoices,
};
use jekko_jailgun::support::EnvValue;

fn config() -> RunConfig {
    RunConfig {
        browser: BrowserSettings {
            chat_url: "https://chatgpt.com/".to_string(),
            model: "gpt".to_string(),
            tabs: 2,
            poll_interval_seconds: 5,
            completion_check_seconds: 30,
            submit_delay_seconds: 60,
            submit_jitter_seconds: 15,
            tar_wait_minutes: 45,
            profile_dir_env: "JAILGUN_CHROME_PROFILE_DIR".to_string(),
            state_dir_env: "JAILGUN_CHROME_STATE_DIR".to_string(),
            profile_registry_env: "JAILGUN_BROWSER_PROFILES".to_string(),
        },
        source_archive: SourceArchiveSettings {
            enabled: true,
            ref_name: "main".to_string(),
            prefix: "repo/".to_string(),
            archive_filename: "source.tar.gz".to_string(),
            delete_after_upload: true,
        },
        deploy: DeploySettings { enabled: false, dry_run: true, remote_strip_components: 1 },
        prompt_policy: PromptPolicySettings {
            deny_github_write_by_default: true,
            allow_write_prompts: false,
            allow_info_prompts: true,
            allowed_repositories: Vec::new(),
        },
    }
}

fn account(id: &str, port: u16, max_tabs: u16, status: BrowserAccountStatus) -> BrowserAccount {
    BrowserAccount {
        id: id.to_string(),
        email_hint: format!("{id}@example.com"),
        profile_dir: format!("/tmp/profiles/{id}"),
        state_dir: format!("/tmp/state/{id}"),
        downloads_dir: format!("/tmp/downloads/{id}"),
        cdp_port: port,
        max_tabs,
        status,
        last_verified_at: None,
    }
}

fn get<'a>(env: &'a Fields, key: &str) -> Option<&'a str> {
    env.get(key).map(|v| v.as_str())
}

#[test]
fn jmcp_run_without_ready_account_fails_closed() {
    let routing = account_routing("jmcp://prompt/1", false, false, false).expect("routing");
    assert_eq!(routing, AccountRouting::Registry);
    let registry = vec![account("acct-a", 9224, 2, BrowserAccountStatus::AuthRequired)];
    let error = ready_registry_accounts(&registry, "/tmp/browser-profiles.json")
        .expect_err("missing ready account rejected");
    assert!(error.contains("ready browser account"));
}

#[test]
fn explicit_account_ids_build_profile_pool_and_port_map() {
    let (pool, requested) = profile_sources(
        true,
        None,
        vec!["/tmp/raw-a".to_string(), "/tmp/raw-b".to_string()],
    );
    assert_eq!(pool, Vec::<String>::new());
    assert_eq!(requested, None);
    let env = prepare_bridge_env(
        Fields::new(),
        &config(),
        "/tmp/downloads",
        "/tmp/artifacts",
        None,
        None,
        true,
        &pool,
        "/tmp/profile",
        None,
        '/',
    )
    .expect("bridge env");
    assert!(get(&env, "JAILGUN_CHROME_PROFILE_POOL").is_none());
    let accounts = vec![
        account("acct-a", 9224, 2, BrowserAccountStatus::Ready),
        account("acct-b", 9301, 2, BrowserAccountStatus::Ready),
    ];
    assert!(ensure_account_capacity(&accounts, 2).is_ok());
    let pool = join_account_profile_pool(&accounts).expect("pool");
    assert!(pool == "acct-a=/tmp/profiles/acct-a:acct-b=/tmp/profiles/acct-b"
        || pool == "acct-a=/tmp/profiles/acct-a;acct-b=/tmp/profiles/acct-b");
    let ports = join_account_profile_ports(&accounts).expect("ports");
    assert!(ports == "acct-a=9224:acct-b=9301" || ports == "acct-a=9224;acct-b=9301");
}

#[test]
fn account_ids_override_request_bridge_profile_env() {
    let mut request_env = Fields::new();
    request_env.insert("JAILGUN_CHROME_PROFILE_POOL".to_string(), "evil=/tmp/evil".to_string());
    request_env.insert("JAILGUN_CHROME_PROFILE_PORTS".to_string(), "evil=6666".to_string());
    request_env.insert("JAILGUN_CDP_URL".to_string(), "http://127.0.0.1:6666".to_string());
    request_env.insert("JAILGUN_CDP_PORT".to_string(), "6666".to_string());
    request_env.insert("JAILGUN_CHROME_PROFILE_DIR".to_string(), "/tmp/evil-profile".to_string());
    let env = prepare_bridge_env(
        request_env,
        &config(),
        "/tmp/downloads",
        "/tmp/artifacts",
        None,
        None,
        true,
        &Vec::new(),
        "/tmp/profile",
        None,
        '/',
    )
    .expect("bridge env");
    for key in [
        "JAILGUN_CHROME_PROFILE_POOL",
        "JAILGUN_CHROME_PROFILE_PORTS",
        "JAILGUN_CDP_URL",
        "JAILGUN_CDP_PORT",
        "JAILGUN_CHROME_PROFILE_DIR",
    ] {
        assert!(get(&env, key).is_none(), "{key} should be scrubbed before lease acquisition");
    }
    assert_eq!(get(&env, "JAILGUN_DOWNLOADS_DIR"), Some("/tmp/downloads"));
}

#[test]
fn jmcp_run_rejects_raw_profile_paths() {
    let error = account_routing("jmcp://prompt/1", false, true, false)
        .expect_err("raw profile path rejected for jmcp");
    assert!(error.contains("raw profile paths"));
}

#[test]
fn account_capacity_counts_each_account_at_least_once() {
    let accounts = vec![
        account("acct-a", 9224, 0, BrowserAccountStatus::Ready),
        account("acct-b", 9301, 2, BrowserAccountStatus::Ready),
    ];
    assert!(ensure_account_capacity(&accounts, 3).is_ok());
    assert_eq!(
        ensure_account_capacity(&accounts, 4),
        Err("requested 4 tab(s), but selected browser accounts allow 3 tab(s)".to_string())
    );
}

#[test]
fn routing_follows_account_ids_and_mcp_prompts() {
    assert_eq!(account_routing("file://p", true, true, false), Ok(AccountRouting::Registry));
    assert_eq!(account_routing("file://p", false, true, false), Ok(AccountRouting::RawProfiles));
    assert_eq!(account_routing("jmcp://p", false, false, true).is_err(), true);
    assert_eq!(account_routing("jmcp://p", true, false, true), Ok(AccountRouting::Registry));
}

#[test]
fn ready_registry_accounts_keeps_ready_ones_in_order() {
    let registry = vec![
        account("a", 1, 1, BrowserAccountStatus::Ready),
        account("b", 2, 1, BrowserAccountStatus::Locked),
        account("c", 3, 1, BrowserAccountStatus::Ready),
    ];
    let ready = ready_registry_accounts(&registry, "/r.json").expect("ready");
    let ids: Vec<&str> = ready.iter().map(|a| a.id.as_str()).collect();
    assert_eq!(ids, vec!["a", "c"]);
}

#[test]
fn join_entries_refuses_an_entry_holding_the_separator() {
    let entries = vec!["a".to_string(), "b:c".to_string(), "d:e".to_string()];
    assert_eq!(
        join_entries(&entries, ':'),
        Err("browser profile pool entry contains path-list separator: b:c".to_string())
    );
    assert_eq!(join_entries(&entries, ';'), Ok("a;b:c;d:e".to_string()));
    assert_eq!(join_entries(&Vec::new(), ':'), Ok(String::new()));
}

#[test]
fn account_profile_env_routes_to_the_first_account() {
    let accounts = vec![
        account("acct-a", 9224, 2, BrowserAccountStatus::Ready),
        account("acct-b", 9301, 2, BrowserAccountStatus::Ready),
    ];
    let mut env = Fields::new();
    apply_profile_env_with(&mut env, &config(), &accounts, &Vec::new(), "/unused", None, '/')
        .expect("env");
    assert_eq!(get(&env, "JAILGUN_CDP_URL"), Some("http://127.0.0.1:9224"));
    assert_eq!(get(&env, "JAILGUN_CDP_PORT"), Some("9224"));
    assert_eq!(get(&env, "GOOGLE_AUTOMATION_REMOTE_DEBUG_PORT"), Some("9224"));
    assert_eq!(get(&env, "JAILGUN_CHROME_PROFILE_DIR"), Some("/tmp/profiles/acct-a"));
    assert_eq!(get(&env, "JAILGUN_CHROME_STATE_DIR"), Some("/tmp/state/acct-a"));
    assert_eq!(
        get(&env, "JAILGUN_CHROME_PROFILE_PORTS"),
        Some("acct-a=9224:acct-b=9301")
    );
}

#[test]
fn default_profile_env_keeps_request_values() {
    let mut env = Fields::new();
    env.insert("JAILGUN_CHROME_PROFILE_DIR".to_string(), "/mine".to_string());
    apply_profile_env_with(
        &mut env,
        &config(),
        &Vec::new(),
        &Vec::new(),
        "/tmp/profile",
        Some("/home/u".to_string()),
        '/',
    )
    .expect("env");
    assert_eq!(get(&env, "JAILGUN_CHROME_PROFILE_DIR"), Some("/mine"));
    assert_eq!(
        get(&env, "JAILGUN_CHROME_STATE_DIR"),
        Some("/home/u/.google-profile-automation-state")
    );
    let mut pooled = Fields::new();
    apply_profile_env_with(
        &mut pooled,
        &config(),
        &Vec::new(),
        &vec!["/p1".to_string(), "/p2".to_string()],
        "/p1",
        None,
        '/',
    )
    .expect("pool env");
    assert_eq!(get(&pooled, "JAILGUN_CHROME_PROFILE_POOL"), Some("/p1:/p2"));
    assert_eq!(get(&pooled, "JAILGUN_CHROME_PROFILE_DIR"), Some("/p1"));
}

#[test]
fn clearing_routing_drops_only_routing_keys() {
    let mut env = Fields::new();
    env.insert("JAILGUN_CDP_HOST".to_string(), "h".to_string());
    env.insert("JAILGUN_CHROME_STATE_DIR".to_string(), "/s".to_string());
    env.insert("OTHER".to_string(), "kept".to_string());
    clear_profile_routing_env(&mut env, &config());
    assert!(get(&env, "JAILGUN_CDP_HOST").is_none());
    assert!(get(&env, "JAILGUN_CHROME_STATE_DIR").is_none());
    assert_eq!(get(&env, "OTHER"), Some("kept"));
}

#[test]
fn run_paths_env_skips_blank_download_target() {
    let env = prepare_bridge_env(
        Fields::new(),
        &config(),
        "/d",
        "/a",
        Some("target.tar.gz".to_string()),
        Some("   ".to_string()),
        true,
        &Vec::new(),
        "/p",
        None,
        '/',
    )
    .expect("env");
    assert_eq!(get(&env, "JAILGUN_ARTIFACTS_DIR"), Some("/a"));
    assert_eq!(get(&env, "JAILGUN_TAR_TARGET_NAME"), Some("target.tar.gz"));
    assert!(get(&env, "JAILGUN_DOWNLOAD_TARGET_NAME").is_none());
}

#[test]
fn request_overrides_adjust_config() {
    let mut c = config();
    apply_request_config_overrides(
        &mut c,
        ConfigOverrides {
            source_archive_enabled: Some(false),
            source_archive_ref_name: None,
            repo_ref_name: Some("release".to_string()),
            deploy_enabled: false,
            deploy_dry_run: false,
            allow_write_prompts: true,
            allow_info_prompts: false,
            allowed_repositories: vec!["org/repo".to_string()],
        },
    );
    assert!(!c.source_archive.enabled);
    assert_eq!(c.source_archive.ref_name, "release");
    assert!(c.deploy.dry_run);
    assert!(!c.prompt_policy.deny_github_write_by_default);
    assert_eq!(c.prompt_policy.allowed_repositories, vec!["org/repo".to_string()]);
}

#[test]
fn deploy_values_and_repo_fallbacks() {
    assert_eq!(deploy_value(false, None, EnvValue::NotPresent, "H", "remote host"), Ok(None));
    assert_eq!(
        deploy_value(true, None, EnvValue::NotPresent, "H", "remote host"),
        Err("remote host must be provided or set in $H".to_string())
    );
    assert_eq!(
        deploy_value(true, None, EnvValue::Present("box".to_string()), "H", "remote host"),
        Ok(Some("box".to_string()))
    );
    assert_eq!(
        resolve_repo_url(None, None, Some("env".to_string()), "project".to_string()),
        "env"
    );
    assert_eq!(resolve_repo_url(None, None, None, "project".to_string()), "project");
    assert_eq!(browser_lease_ttl_seconds(60), 660);
    assert_eq!(browser_lease_ttl_seconds(u64::MAX), u64::MAX);
}

fn open_choices() -> RequestChoices {
    RequestChoices {
        run_id: None,
        deploy_expected_top_level: None,
        source_expected_top_level: None,
        ci_enabled: false,
        ci_repo: None,
        ci_branch: None,
        ci_max_attempts: None,
        ci_poll_seconds: None,
        event_buffer: None,
        deploy_concurrency: None,
    }
}

#[test]
fn prepared_run_options_fill_request_defaults() {
    let opts = prepared_run_options(
        config(),
        "prompt".to_string(),
        3,
        900,
        "/tmp/profile".to_string(),
        Vec::new(),
        "/tmp/downloads".to_string(),
        "/tmp/artifacts".to_string(),
        vec!["bridge".to_string()],
        Fields::new(),
        "https://github.com/example/repo.git".to_string(),
        None,
        None,
        None,
        RequestChoices { source_expected_top_level: Some("repo".to_string()), ..open_choices() },
    );
    assert!(opts.run_id.starts_with("run-"));
    assert_eq!(opts.run_id.len(), 40);
    assert_eq!(opts.tabs_override, Some(3));
    assert!(opts.no_deploy);
    assert!(opts.dry_run);
    assert_eq!(opts.deploy_expected_top_level.as_deref(), Some("repo"));
    assert_eq!(opts.ci_repo.as_deref(), Some("example/repo"));
    assert_eq!(opts.ci_branch, "main");
    assert_eq!(opts.ci_max_attempts, 20);
    assert_eq!(opts.ci_poll_seconds, 30);
    assert_eq!(opts.status_max_minutes, 30);
    assert_eq!(opts.max_runtime_seconds, Some(900));
    assert_eq!(opts.event_buffer, 1024);
    assert_eq!(opts.deploy_concurrency, 1);
    assert!(opts.tab_profile_dirs.is_empty());
    assert_eq!(opts.local_archive_path, None);
}

#[test]
fn prepared_run_options_keep_request_choices() {
    let opts = prepared_run_options(
        config(),
        "prompt".to_string(),
        1,
        60,
        "/tmp/profile".to_string(),
        Vec::new(),
        "/tmp/downloads".to_string(),
        "/tmp/artifacts".to_string(),
        vec!["bridge".to_string()],
        Fields::new(),
        "local://repo".to_string(),
        Some("host".to_string()),
        Some("/srv".to_string()),
        Some("make".to_string()),
        RequestChoices {
            run_id: Some("run-7".to_string()),
            deploy_expected_top_level: Some("deploy".to_string()),
            source_expected_top_level: Some("source".to_string()),
            ci_enabled: true,
            ci_repo: Some("org/ci".to_string()),
            ci_branch: Some("dev".to_string()),
            ci_max_attempts: Some(3),
            ci_poll_seconds: Some(5),
            event_buffer: Some(8),
            deploy_concurrency: Some(2),
        },
    );
    assert_eq!(opts.run_id, "run-7");
    assert_eq!(opts.deploy_expected_top_level.as_deref(), Some("deploy"));
    assert!(opts.ci_tracker_enabled);
    assert_eq!(opts.ci_repo.as_deref(), Some("org/ci"));
    assert_eq!(opts.ci_branch, "dev");
    assert_eq!((opts.ci_max_attempts, opts.ci_poll_seconds), (3, 5));
    assert_eq!((opts.event_buffer, opts.deploy_concurrency), (8, 2));
    assert_eq!(opts.deploy_remote_host.as_deref(), Some("host"));
    let none = prepared_run_options(
        config(),
        "p".to_string(),
        1,
        60,
        "/tmp/profile".to_string(),
        Vec::new(),
        "/d".to_string(),
        "/a".to_string(),
        vec!["bridge".to_string()],
        Fields::new(),
        "local://repo".to_string(),
        None,
        None,
        None,
        open_choices(),
    );
    assert_eq!(none.ci_repo, None);
}

#[test]
fn windows_paths_join_with_backslash_and_lists_with_semicolon() {
    let mut pooled = Fields::new();
    apply_profile_env_with(
        &mut pooled,
        &config(),
        &Vec::new(),
        &vec!["C:\\p1".to_string(), "C:\\p2".to_string()],
        "C:\\p1",
        Some("C:\\Users\\u".to_string()),
        '\\',
    )
    .expect("pool env");
    assert_eq!(get(&pooled, "JAILGUN_CHROME_PROFILE_POOL"), Some("C:\\p1;C:\\p2"));
    assert_eq!(
        get(&pooled, "JAILGUN_CHROME_STATE_DIR"),
        Some("C:\\Users\\u\\.google-profile-automation-state")
    );
}
