//! Decisions taken while preparing an agent run: the configuration the
//! request overrides, the bridge environment, and the browser profile
//! routing that environment carries.
use vstd::prelude::*;
use crate::accounts::{
    account_entries, account_pairs, has_char, join_entries, join_outcome, joined,
    main_separator, pool_separator_for, pool_separator_spec, BrowserAccount,
};
use std::collections::BTreeMap;
use crate::config::{RunConfig, RunOptions};
use crate::fields::Fields;
use crate::support::{
    arg_or_env, arg_or_env_spec, default_managed_chrome_state_dir, default_run_id,
    github_repo_of_url, home_or_current, infer_github_repo, join_path_spec, uuid_v4_text,
    EnvValue,
};
use crate::text::{chars_of, decimal, opt_chars, push_decimal, push_str, string_of, strings_chars, trim, vec_trim};

verus! {

/// Whether no entry holds the separator, so that joining them succeeds.
pub open spec fn clean_entries(entries: Seq<Seq<char>>, sep: char) -> bool {
    forall|i: int| 0 <= i < entries.len() ==> !has_char(#[trigger] entries[i], sep)
}

/// The keys that route the bridge to a browser profile.
pub open spec fn routing_keys(config: RunConfig) -> Set<Seq<char>> {
    set![
        "JAILGUN_CHROME_PROFILE_POOL"@,
        "JAILGUN_CHROME_PROFILE_DIRS"@,
        "JAILGUN_CHROME_PROFILE_PORTS"@,
        "JAILGUN_CDP_URL"@,
        "JAILGUN_CDP_HOST"@,
        "JAILGUN_CDP_PORT"@,
        "GOOGLE_AUTOMATION_REMOTE_DEBUG_HOST"@,
        "GOOGLE_AUTOMATION_REMOTE_DEBUG_PORT"@,
        config.browser.profile_dir_env@,
        config.browser.state_dir_env@,
    ]
}

/// Drops every profile routing key: a leased run gets its profiles from
/// the lease, not from the request.
pub fn clear_profile_routing_env(env: &mut Fields, config: &RunConfig)
    ensures
        final(env)@ == old(env)@.remove_keys(routing_keys(*config)),
{
    env.remove("JAILGUN_CHROME_PROFILE_POOL");
    env.remove("JAILGUN_CHROME_PROFILE_DIRS");
    env.remove("JAILGUN_CHROME_PROFILE_PORTS");
    env.remove("JAILGUN_CDP_URL");
    env.remove("JAILGUN_CDP_HOST");
    env.remove("JAILGUN_CDP_PORT");
    env.remove("GOOGLE_AUTOMATION_REMOTE_DEBUG_HOST");
    env.remove("GOOGLE_AUTOMATION_REMOTE_DEBUG_PORT");
    env.remove(config.browser.profile_dir_env.as_str());
    env.remove(config.browser.state_dir_env.as_str());
    assert(env@ =~= old(env)@.remove_keys(routing_keys(*config)));
}

/// `m` with `k` bound to `v` unless `k` is already bound.
pub open spec fn with_default(
    m: Map<Seq<char>, Seq<char>>,
    k: Seq<char>,
    v: Seq<char>,
) -> Map<Seq<char>, Seq<char>> {
    if m.contains_key(k) {
        m
    } else {
        m.insert(k, v)
    }
}

/// The default profile routing: the profile directory and the managed
/// state directory under `home`, each only where the request set none.
pub open spec fn default_profile_env(
    m: Map<Seq<char>, Seq<char>>,
    config: RunConfig,
    profile_dir: Seq<char>,
    home: Option<Seq<char>>,
    main_sep: char,
) -> Map<Seq<char>, Seq<char>> {
    with_default(
        with_default(m, config.browser.profile_dir_env@, profile_dir),
        config.browser.state_dir_env@,
        join_path_spec(home_or_current(home), ".google-profile-automation-state"@, main_sep),
    )
}

pub fn apply_default_profile_env(
    env: &mut Fields,
    config: &RunConfig,
    profile_dir: &str,
    home: Option<String>,
    main_sep: char,
)
    ensures
        final(env)@ == default_profile_env(
            old(env)@,
            *config,
            profile_dir@,
            opt_chars(home),
            main_sep,
        ),
{
    env.insert_if_absent(config.browser.profile_dir_env.clone(), String::from_str(profile_dir));
    let state_dir = default_managed_chrome_state_dir(home, main_sep);
    env.insert_if_absent(config.browser.state_dir_env.clone(), state_dir);
}

/// The loopback address the bridge reaches Chrome on.
pub open spec fn cdp_host() -> Seq<char> {
    "127.0.0.1"@
}

/// The routing of a run over registered accounts: the pool and ports of
/// all of them, and the CDP endpoint and directories of the first.
pub open spec fn account_profile_env(
    m: Map<Seq<char>, Seq<char>>,
    config: RunConfig,
    accounts: Seq<BrowserAccount>,
    sep: char,
) -> Map<Seq<char>, Seq<char>> {
    let primary = accounts[0];
    let port = decimal(primary.cdp_port as nat);
    m.insert("JAILGUN_CHROME_PROFILE_POOL"@, joined(account_pairs(accounts, false), sep)).insert(
        "JAILGUN_CHROME_PROFILE_PORTS"@,
        joined(account_pairs(accounts, true), sep),
    ).insert("JAILGUN_CDP_URL"@, "http://127.0.0.1:"@ + port).insert(
        "JAILGUN_CDP_HOST"@,
        cdp_host(),
    ).insert("JAILGUN_CDP_PORT"@, port).insert(
        "GOOGLE_AUTOMATION_REMOTE_DEBUG_HOST"@,
        cdp_host(),
    ).insert("GOOGLE_AUTOMATION_REMOTE_DEBUG_PORT"@, port).insert(
        config.browser.profile_dir_env@,
        primary.profile_dir@,
    ).insert(config.browser.state_dir_env@, primary.state_dir@)
}

/// Routes the bridge over registered accounts, joining lists with `sep`.
/// An account whose pair holds the separator is refused; when the pool
/// joined and the ports did not, the pool stays set.
pub fn apply_account_profile_env(
    env: &mut Fields,
    config: &RunConfig,
    accounts: &Vec<BrowserAccount>,
    sep: char,
) -> (r: Result<(), String>)
    requires
        accounts@.len() > 0,
    ensures
        r is Ok <==> clean_entries(account_pairs(accounts@, false), sep) && clean_entries(
            account_pairs(accounts@, true),
            sep,
        ),
        r is Ok ==> final(env)@ == account_profile_env(old(env)@, *config, accounts@, sep),
        r matches Err(m) ==> (!clean_entries(account_pairs(accounts@, false), sep) && join_outcome(
            account_pairs(accounts@, false),
            sep,
            Err(m),
        ) && final(env)@ == old(env)@) || (clean_entries(account_pairs(accounts@, false), sep)
            && join_outcome(account_pairs(accounts@, true), sep, Err(m)) && final(env)@ == old(
            env,
        )@.insert(
            "JAILGUN_CHROME_PROFILE_POOL"@,
            joined(account_pairs(accounts@, false), sep),
        )),
{
    let pool_entries = account_entries(accounts, false);
    let pool = join_entries(&pool_entries, sep);
    let pool = match pool {
        Ok(p) => p,
        Err(m) => {
            return Err(m);
        },
    };
    env.insert(String::from_str("JAILGUN_CHROME_PROFILE_POOL"), pool);
    let port_entries = account_entries(accounts, true);
    let ports = join_entries(&port_entries, sep);
    let ports = match ports {
        Ok(p) => p,
        Err(m) => {
            return Err(m);
        },
    };
    env.insert(String::from_str("JAILGUN_CHROME_PROFILE_PORTS"), ports);
    let primary = &accounts[0];
    let mut port: Vec<char> = Vec::new();
    push_decimal(&mut port, primary.cdp_port as u64);
    let mut url: Vec<char> = Vec::new();
    push_str(&mut url, "http://127.0.0.1:");
    push_decimal(&mut url, primary.cdp_port as u64);
    env.insert(String::from_str("JAILGUN_CDP_URL"), string_of(&url));
    env.insert(String::from_str("JAILGUN_CDP_HOST"), String::from_str("127.0.0.1"));
    env.insert(String::from_str("JAILGUN_CDP_PORT"), string_of(&port));
    env.insert(
        String::from_str("GOOGLE_AUTOMATION_REMOTE_DEBUG_HOST"),
        String::from_str("127.0.0.1"),
    );
    env.insert(String::from_str("GOOGLE_AUTOMATION_REMOTE_DEBUG_PORT"), string_of(&port));
    env.insert(config.browser.profile_dir_env.clone(), primary.profile_dir.clone());
    env.insert(config.browser.state_dir_env.clone(), primary.state_dir.clone());
    Ok(())
}

/// What routing the bridge to its profiles leaves: over the accounts when
/// there are any, else over the explicit pool plus the defaults, else the
/// defaults alone; on a platform whose main path separator is `main_sep`,
/// whose path-list separator joins the lists.
pub open spec fn profile_env_outcome(
    before: Map<Seq<char>, Seq<char>>,
    config: RunConfig,
    accounts: Seq<BrowserAccount>,
    pool: Seq<Seq<char>>,
    profile_dir: Seq<char>,
    home: Option<Seq<char>>,
    main_sep: char,
    r: Result<(), String>,
    after: Map<Seq<char>, Seq<char>>,
) -> bool {
    let sep = pool_separator_spec(main_sep);
    if accounts.len() > 0 {
        let pool_ok = clean_entries(account_pairs(accounts, false), sep);
        let ports_ok = clean_entries(account_pairs(accounts, true), sep);
        match r {
            Ok(_) => pool_ok && ports_ok && after == account_profile_env(
                before,
                config,
                accounts,
                sep,
            ),
            Err(m) => (!pool_ok && join_outcome(account_pairs(accounts, false), sep, Err(m))
                && after == before) || (pool_ok && join_outcome(
                account_pairs(accounts, true),
                sep,
                Err(m),
            ) && after == before.insert("JAILGUN_CHROME_PROFILE_POOL"@, joined(
                account_pairs(accounts, false),
                sep,
            ))),
        }
    } else if pool.len() > 0 {
        match r {
            Ok(_) => clean_entries(pool, sep) && after == default_profile_env(
                before.insert("JAILGUN_CHROME_PROFILE_POOL"@, joined(pool, sep)),
                config,
                profile_dir,
                home,
                main_sep,
            ),
            Err(m) => !clean_entries(pool, sep) && join_outcome(pool, sep, Err(m)) && after
                == before,
        }
    } else {
        r is Ok && after == default_profile_env(before, config, profile_dir, home, main_sep)
    }
}

/// Routes the bridge to its browser profiles on a platform whose main path
/// separator is `main_sep`.
pub fn apply_profile_env_with(
    env: &mut Fields,
    config: &RunConfig,
    accounts: &Vec<BrowserAccount>,
    explicit_profile_pool: &Vec<String>,
    profile_dir: &str,
    home: Option<String>,
    main_sep: char,
) -> (r: Result<(), String>)
    ensures
        profile_env_outcome(
            old(env)@,
            *config,
            accounts@,
            strings_chars(explicit_profile_pool@),
            profile_dir@,
            opt_chars(home),
            main_sep,
            r,
            final(env)@,
        ),
{
    let sep = pool_separator_for(main_sep);
    if accounts.len() > 0 {
        apply_account_profile_env(env, config, accounts, sep)
    } else if explicit_profile_pool.len() > 0 {
        let pool = join_entries(explicit_profile_pool, sep);
        match pool {
            Ok(p) => {
                env.insert(String::from_str("JAILGUN_CHROME_PROFILE_POOL"), p);
                apply_default_profile_env(env, config, profile_dir, home, main_sep);
                Ok(())
            },
            Err(m) => Err(m),
        }
    } else {
        apply_default_profile_env(env, config, profile_dir, home, main_sep);
        Ok(())
    }
}

/// Routes the bridge to its browser profiles on this platform: which one
/// that is comes from `std::path::MAIN_SEPARATOR`; the routing itself is
/// `apply_profile_env_with`.
pub fn apply_profile_env(
    env: &mut Fields,
    config: &RunConfig,
    accounts: &Vec<BrowserAccount>,
    explicit_profile_pool: &Vec<String>,
    profile_dir: &str,
    home: Option<String>,
) -> (r: Result<(), String>)
    ensures
        exists|m: char|
            (m == '/' || m == '\\') && #[trigger] profile_env_outcome(
                old(env)@,
                *config,
                accounts@,
                strings_chars(explicit_profile_pool@),
                profile_dir@,
                opt_chars(home),
                m,
                r,
                final(env)@,
            ),
{
    let m = main_separator();
    let ghost before = env@;
    let r = apply_profile_env_with(env, config, accounts, explicit_profile_pool, profile_dir, home, m);
    assert(profile_env_outcome(
        before,
        *config,
        accounts@,
        strings_chars(explicit_profile_pool@),
        profile_dir@,
        opt_chars(home),
        m,
        r,
        env@,
    ));
    r
}

/// A deploy setting: required (given, else from the environment) when
/// deploys are enabled, absent otherwise.
pub fn deploy_value(
    enabled: bool,
    value: Option<String>,
    env: EnvValue,
    env_name: &str,
    label: &str,
) -> (r: Result<Option<String>, String>)
    ensures
        !enabled ==> r == Ok::<Option<String>, String>(None),
        enabled ==> match arg_or_env_spec(opt_chars(value), env, env_name@, label@) {
            Ok(v) => (r matches Ok(Some(s)) && s@ == v),
            Err(e) => (r matches Err(m) && m@ == e),
        },
{
    if enabled {
        match arg_or_env(value, env, env_name, label) {
            Ok(v) => Ok(Some(v)),
            Err(e) => Err(e),
        }
    } else {
        Ok(None)
    }
}

/// What a run request overrides in the project configuration.
#[derive(Debug, Clone)]
pub struct ConfigOverrides {
    /// Whether to upload a source archive, if the request says.
    pub source_archive_enabled: Option<bool>,
    /// The archive's ref, if the request names one for the archive.
    pub source_archive_ref_name: Option<String>,
    /// The repository ref, if the request names one.
    pub repo_ref_name: Option<String>,
    pub deploy_enabled: bool,
    pub deploy_dry_run: bool,
    pub allow_write_prompts: bool,
    pub allow_info_prompts: bool,
    pub allowed_repositories: Vec<String>,
}

/// The configuration after a request's overrides.
pub open spec fn overridden(c: RunConfig, o: ConfigOverrides) -> RunConfig {
    RunConfig {
        source_archive: crate::config::SourceArchiveSettings {
            enabled: match o.source_archive_enabled {
                Some(e) => e,
                None => c.source_archive.enabled,
            },
            ref_name: match o.source_archive_ref_name {
                Some(r) => r,
                None => match o.repo_ref_name {
                    Some(r) => r,
                    None => c.source_archive.ref_name,
                },
            },
            ..c.source_archive
        },
        deploy: crate::config::DeploySettings {
            enabled: o.deploy_enabled,
            dry_run: !o.deploy_enabled || o.deploy_dry_run,
            ..c.deploy
        },
        prompt_policy: crate::config::PromptPolicySettings {
            deny_github_write_by_default: !o.allow_write_prompts,
            allow_write_prompts: o.allow_write_prompts,
            allow_info_prompts: o.allow_info_prompts,
            allowed_repositories: if o.allowed_repositories@.len() > 0 {
                o.allowed_repositories
            } else {
                c.prompt_policy.allowed_repositories
            },
        },
        ..c
    }
}

/// Applies a request's overrides: the archive switch and ref, the deploy
/// switch (a disabled deploy is always a dry run), and the prompt policy.
pub fn apply_request_config_overrides(config: &mut RunConfig, overrides: ConfigOverrides)
    ensures
        *final(config) == overridden(*old(config), overrides),
{
    if let Some(enabled) = overrides.source_archive_enabled {
        config.source_archive.enabled = enabled;
    }
    match &overrides.source_archive_ref_name {
        Some(r) => {
            config.source_archive.ref_name = r.clone();
        },
        None => match &overrides.repo_ref_name {
            Some(r) => {
                config.source_archive.ref_name = r.clone();
            },
            None => {},
        },
    }
    config.deploy.enabled = overrides.deploy_enabled;
    config.deploy.dry_run = !overrides.deploy_enabled || overrides.deploy_dry_run;
    config.prompt_policy.deny_github_write_by_default = !overrides.allow_write_prompts;
    config.prompt_policy.allow_write_prompts = overrides.allow_write_prompts;
    config.prompt_policy.allow_info_prompts = overrides.allow_info_prompts;
    if overrides.allowed_repositories.len() > 0 {
        config.prompt_policy.allowed_repositories = overrides.allowed_repositories;
    }
}

/// The run's directories and target names handed to the bridge; a blank
/// download target name is not passed on.
pub open spec fn run_paths_env(
    m: Map<Seq<char>, Seq<char>>,
    downloads_dir: Seq<char>,
    artifacts_dir: Seq<char>,
    tar_target_name: Option<Seq<char>>,
    download_target_name: Option<Seq<char>>,
) -> Map<Seq<char>, Seq<char>> {
    let m1 = m.insert("JAILGUN_DOWNLOADS_DIR"@, downloads_dir).insert(
        "JAILGUN_ARTIFACTS_DIR"@,
        artifacts_dir,
    );
    let m2 = match tar_target_name {
        Some(t) => m1.insert("JAILGUN_TAR_TARGET_NAME"@, t),
        None => m1,
    };
    match download_target_name {
        Some(d) => if trim(d).len() > 0 {
            m2.insert("JAILGUN_DOWNLOAD_TARGET_NAME"@, d)
        } else {
            m2
        },
        None => m2,
    }
}

pub fn apply_run_paths_env(
    env: &mut Fields,
    downloads_dir: &str,
    artifacts_dir: &str,
    tar_target_name: Option<String>,
    download_target_name: Option<String>,
)
    ensures
        final(env)@ == run_paths_env(
            old(env)@,
            downloads_dir@,
            artifacts_dir@,
            opt_chars(tar_target_name),
            opt_chars(download_target_name),
        ),
{
    env.insert(String::from_str("JAILGUN_DOWNLOADS_DIR"), String::from_str(downloads_dir));
    env.insert(String::from_str("JAILGUN_ARTIFACTS_DIR"), String::from_str(artifacts_dir));
    if let Some(t) = tar_target_name {
        env.insert(String::from_str("JAILGUN_TAR_TARGET_NAME"), t);
    }
    if let Some(d) = download_target_name {
        let chars = chars_of(d.as_str());
        let trimmed = vec_trim(&chars);
        if trimmed.len() > 0 {
            env.insert(String::from_str("JAILGUN_DOWNLOAD_TARGET_NAME"), d);
        }
    }
}

/// The bridge environment of a run: the request's, plus the run's paths,
/// with the profile routing cleared for a leased run and set otherwise, on
/// a platform whose main path separator is `main_sep`.
pub fn prepare_bridge_env(
    request_env: Fields,
    config: &RunConfig,
    downloads_dir: &str,
    artifacts_dir: &str,
    tar_target_name: Option<String>,
    download_target_name: Option<String>,
    uses_browser_lease: bool,
    explicit_profile_pool: &Vec<String>,
    profile_dir: &str,
    home: Option<String>,
    main_sep: char,
) -> (r: Result<Fields, String>)
    ensures
        uses_browser_lease ==> (r matches Ok(env) && env@ == run_paths_env(
            request_env@,
            downloads_dir@,
            artifacts_dir@,
            opt_chars(tar_target_name),
            opt_chars(download_target_name),
        ).remove_keys(routing_keys(*config))),
        !uses_browser_lease ==> {
            let paths = run_paths_env(
                request_env@,
                downloads_dir@,
                artifacts_dir@,
                opt_chars(tar_target_name),
                opt_chars(download_target_name),
            );
            let pool = strings_chars(explicit_profile_pool@);
            let sep = pool_separator_spec(main_sep);
            match r {
                Ok(env) => profile_env_outcome(
                    paths,
                    *config,
                    Seq::empty(),
                    pool,
                    profile_dir@,
                    opt_chars(home),
                    main_sep,
                    Ok(()),
                    env@,
                ),
                Err(m) => pool.len() > 0 && !clean_entries(pool, sep) && join_outcome(
                    pool,
                    sep,
                    Err(m),
                ),
            }
        },
{
    let mut env = request_env;
    apply_run_paths_env(&mut env, downloads_dir, artifacts_dir, tar_target_name, download_target_name);
    if uses_browser_lease {
        clear_profile_routing_env(&mut env, config);
        Ok(env)
    } else {
        let no_accounts: Vec<BrowserAccount> = Vec::new();
        assert(no_accounts@ =~= Seq::<BrowserAccount>::empty());
        let r = apply_profile_env_with(
            &mut env,
            config,
            &no_accounts,
            explicit_profile_pool,
            profile_dir,
            home,
            main_sep,
        );
        match r {
            Ok(()) => Ok(env),
            Err(m) => Err(m),
        }
    }
}

/// The profile sources of a run: the explicit pool (none for a leased
/// run) and the profile directory asked for, which falls back to the
/// pool's first entry.
pub fn profile_sources(
    uses_browser_lease: bool,
    profile_dir: Option<String>,
    profile_pool: Vec<String>,
) -> (r: (Vec<String>, Option<String>))
    ensures
        r.0@ == if uses_browser_lease { Seq::<String>::empty() } else { profile_pool@ },
        r.1 == if uses_browser_lease {
            None
        } else {
            match profile_dir {
                Some(d) => Some(d),
                None => if profile_pool@.len() > 0 {
                    Some(profile_pool@[0])
                } else {
                    None
                },
            }
        },
{
    if uses_browser_lease {
        return (Vec::new(), None);
    }
    let requested = match profile_dir {
        Some(d) => Some(d),
        None => if profile_pool.len() > 0 {
            Some(profile_pool[0].clone())
        } else {
            None
        },
    };
    (profile_pool, requested)
}

/// The repository a run works on: the archive's URL, else the request's
/// repository, else the environment's (its value is `env_repo_url`), else
/// the project's.
pub fn resolve_repo_url(
    archive_repo_url: Option<String>,
    repository: Option<String>,
    env_repo_url: Option<String>,
    project_repository: String,
) -> (r: String)
    ensures
        r == match archive_repo_url {
            Some(u) => u,
            None => match repository {
                Some(u) => u,
                None => match env_repo_url {
                    Some(u) => u,
                    None => project_repository,
                },
            },
        },
{
    match archive_repo_url {
        Some(u) => u,
        None => match repository {
            Some(u) => u,
            None => match env_repo_url {
                Some(u) => u,
                None => project_repository,
            },
        },
    }
}

/// What a run request may leave open, each filled with its default when
/// the run's options are assembled.
pub struct RequestChoices {
    pub run_id: Option<String>,
    pub deploy_expected_top_level: Option<String>,
    pub source_expected_top_level: Option<String>,
    pub ci_enabled: bool,
    pub ci_repo: Option<String>,
    pub ci_branch: Option<String>,
    pub ci_max_attempts: Option<u32>,
    pub ci_poll_seconds: Option<u16>,
    pub event_buffer: Option<usize>,
    pub deploy_concurrency: Option<u16>,
}

/// The value, else the default.
pub open spec fn or_default<T>(o: Option<T>, d: T) -> T {
    match o {
        Some(v) => v,
        None => d,
    }
}

/// The first of two optional strings that is present.
pub open spec fn either_chars(a: Option<String>, b: Option<String>) -> Option<Seq<char>> {
    match a {
        Some(v) => Some(v@),
        None => opt_chars(b),
    }
}

/// The options of a prepared run: the pieces already resolved, and the
/// request's open choices with their defaults (a fresh run id, the deploy's
/// expected top-level directory else the source archive's, the CI
/// repository else the GitHub repository of `repo_url`, branch `main`, 20
/// CI attempts polled every 30 s, 30 minutes of deploy status, a buffer of
/// 1024 events, one deploy at a time). The run deploys exactly when the
/// configuration enables deploys.
pub fn prepared_run_options(
    config: RunConfig,
    prompt_text: String,
    tabs: u16,
    max_runtime_seconds: u64,
    profile_dir: String,
    profile_pool: Vec<String>,
    downloads_dir: String,
    artifacts_dir: String,
    bridge_cmd: Vec<String>,
    bridge_env: Fields,
    repo_url: String,
    deploy_remote_host: Option<String>,
    deploy_remote_dir: Option<String>,
    deploy_remote_command: Option<String>,
    choices: RequestChoices,
) -> (r: RunOptions)
    ensures
        choices.run_id matches Some(id) ==> r.run_id == id,
        choices.run_id is None ==> r.run_id@.len() == 40 && r.run_id@.take(4) == "run-"@
            && uuid_v4_text(r.run_id@.skip(4)),
        r.config == config,
        r.prompt_text == prompt_text,
        r.tabs_override == Some(tabs),
        r.no_deploy == !config.deploy.enabled,
        r.dry_run == config.deploy.dry_run,
        r.profile_dir == profile_dir,
        r.profile_pool == profile_pool,
        r.tab_profile_dirs@ == Map::<u16, String>::empty(),
        r.downloads_dir == downloads_dir,
        r.artifacts_dir == artifacts_dir,
        r.bridge_cmd == bridge_cmd,
        r.bridge_env == bridge_env,
        r.repo_url == repo_url,
        r.local_archive_path is None,
        r.deploy_remote_host == deploy_remote_host,
        r.deploy_remote_dir == deploy_remote_dir,
        r.deploy_remote_command == deploy_remote_command,
        opt_chars(r.deploy_expected_top_level) == either_chars(
            choices.deploy_expected_top_level,
            choices.source_expected_top_level,
        ),
        r.ci_tracker_enabled == choices.ci_enabled,
        opt_chars(r.ci_repo) == match choices.ci_repo {
            Some(c) => Some(c@),
            None => github_repo_of_url(repo_url@),
        },
        r.ci_branch@ == match choices.ci_branch {
            Some(b) => b@,
            None => "main"@,
        },
        r.ci_max_attempts == or_default(choices.ci_max_attempts, 20u32),
        r.ci_poll_seconds == or_default(choices.ci_poll_seconds, 30u16),
        r.status_max_minutes == 30,
        r.max_runtime_seconds == Some(max_runtime_seconds),
        r.event_buffer == or_default(choices.event_buffer, 1024usize),
        r.deploy_concurrency == or_default(choices.deploy_concurrency, 1u16),
{
    let run_id = match choices.run_id {
        Some(id) => id,
        None => default_run_id(),
    };
    let deploy_expected_top_level = match choices.deploy_expected_top_level {
        Some(v) => Some(v),
        None => choices.source_expected_top_level,
    };
    let ci_repo = match choices.ci_repo {
        Some(c) => Some(c),
        None => infer_github_repo(repo_url.as_str()),
    };
    let ci_branch = match choices.ci_branch {
        Some(b) => b,
        None => String::from_str("main"),
    };
    proof {
        reveal_strlit("main");
    }
    let ci_max_attempts = match choices.ci_max_attempts {
        Some(n) => n,
        None => 20,
    };
    let ci_poll_seconds = match choices.ci_poll_seconds {
        Some(n) => n,
        None => 30,
    };
    let event_buffer = match choices.event_buffer {
        Some(n) => n,
        None => 1024,
    };
    let deploy_concurrency = match choices.deploy_concurrency {
        Some(n) => n,
        None => 1,
    };
    let no_deploy = !config.deploy.enabled;
    let dry_run = config.deploy.dry_run;
    RunOptions {
        run_id,
        config,
        prompt_text,
        tabs_override: Some(tabs),
        no_deploy,
        dry_run,
        profile_dir,
        profile_pool,
        tab_profile_dirs: BTreeMap::new(),
        downloads_dir,
        artifacts_dir,
        bridge_cmd,
        bridge_env,
        repo_url,
        local_archive_path: None,
        deploy_remote_host,
        deploy_remote_dir,
        deploy_remote_command,
        deploy_expected_top_level,
        ci_tracker_enabled: choices.ci_enabled,
        ci_repo,
        ci_branch,
        ci_max_attempts,
        ci_poll_seconds,
        status_max_minutes: 30,
        max_runtime_seconds: Some(max_runtime_seconds),
        event_buffer,
        deploy_concurrency,
    }
}

/// How long a browser lease lives: the run's runtime plus ten minutes.
pub fn browser_lease_ttl_seconds(max_runtime_seconds: u64) -> (r: u64)
    ensures
        r == if max_runtime_seconds + 600 > u64::MAX {
            u64::MAX as int
        } else {
            max_runtime_seconds + 600
        },
{
    max_runtime_seconds.saturating_add(600)
}

/// A leased run's bridge environment routes nowhere of its own: whatever
/// the request set, no profile routing key is left, and every other key
/// holds what the request and the run's paths gave it.
pub proof fn lemma_leased_env_drops_request_routing(
    request_env: Map<Seq<char>, Seq<char>>,
    config: RunConfig,
    downloads_dir: Seq<char>,
    artifacts_dir: Seq<char>,
    tar_target_name: Option<Seq<char>>,
    download_target_name: Option<Seq<char>>,
    key: Seq<char>,
)
    ensures
        ({
            let env = run_paths_env(
                request_env,
                downloads_dir,
                artifacts_dir,
                tar_target_name,
                download_target_name,
            ).remove_keys(routing_keys(config));
            &&& routing_keys(config).contains(key) ==> !env.contains_key(key)
            &&& !routing_keys(config).contains(key) ==> (env.contains_key(key) == run_paths_env(
                request_env,
                downloads_dir,
                artifacts_dir,
                tar_target_name,
                download_target_name,
            ).contains_key(key))
        }),
{
}

} // verus!
