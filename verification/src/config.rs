//! Options of one orchestrated run.
use vstd::prelude::*;
use std::collections::BTreeMap;
use crate::fields::Fields;
use crate::text::{decimal, push_decimal, push_str, string_of};

verus! {

broadcast use vstd::std_specs::btree::group_btree_axioms;

/// Browser settings of the project configuration that the run logic reads.
#[derive(Debug, Clone)]
pub struct BrowserSettings {
    pub chat_url: String,
    pub model: String,
    pub tabs: u16,
    pub poll_interval_seconds: u16,
    pub completion_check_seconds: u16,
    pub submit_delay_seconds: u16,
    pub submit_jitter_seconds: u16,
    pub tar_wait_minutes: u16,
    /// The variable that names a browser profile directory.
    pub profile_dir_env: String,
    /// The variable that names a browser state directory.
    pub state_dir_env: String,
    /// The variable that names the browser profile registry.
    pub profile_registry_env: String,
}

/// Source-archive settings: whether and how the repository is uploaded.
#[derive(Debug, Clone)]
pub struct SourceArchiveSettings {
    pub enabled: bool,
    pub ref_name: String,
    pub prefix: String,
    pub archive_filename: String,
    pub delete_after_upload: bool,
}

/// Deploy settings.
#[derive(Debug, Clone)]
pub struct DeploySettings {
    pub enabled: bool,
    pub dry_run: bool,
    pub remote_strip_components: u16,
}

/// How prompts that ask for GitHub access are answered.
#[derive(Debug, Clone)]
pub struct PromptPolicySettings {
    pub deny_github_write_by_default: bool,
    pub allow_write_prompts: bool,
    pub allow_info_prompts: bool,
    pub allowed_repositories: Vec<String>,
}

/// The parts of the project configuration a run reads.
#[derive(Debug, Clone)]
pub struct RunConfig {
    pub browser: BrowserSettings,
    pub source_archive: SourceArchiveSettings,
    pub deploy: DeploySettings,
    pub prompt_policy: PromptPolicySettings,
}

/// Everything one orchestrated run needs; paths are held as strings.
#[derive(Debug, Clone)]
pub struct RunOptions {
    pub run_id: String,
    pub config: RunConfig,
    pub prompt_text: String,
    pub tabs_override: Option<u16>,
    pub no_deploy: bool,
    pub dry_run: bool,
    pub profile_dir: String,
    pub profile_pool: Vec<String>,
    pub tab_profile_dirs: BTreeMap<u16, String>,
    pub downloads_dir: String,
    pub artifacts_dir: String,
    pub bridge_cmd: Vec<String>,
    pub bridge_env: Fields,
    pub repo_url: String,
    pub local_archive_path: Option<String>,
    pub deploy_remote_host: Option<String>,
    pub deploy_remote_dir: Option<String>,
    pub deploy_remote_command: Option<String>,
    pub deploy_expected_top_level: Option<String>,
    pub ci_tracker_enabled: bool,
    pub ci_repo: Option<String>,
    pub ci_branch: String,
    pub ci_max_attempts: u32,
    pub ci_poll_seconds: u16,
    pub status_max_minutes: u16,
    pub max_runtime_seconds: Option<u64>,
    pub event_buffer: usize,
    pub deploy_concurrency: u16,
}

/// The number of tabs a run opens: the override, else the configured count.
pub open spec fn run_tabs(opts: RunOptions) -> u16 {
    match opts.tabs_override {
        Some(t) => t,
        None => opts.config.browser.tabs,
    }
}

/// The spawn shape of a run: one sub-agent box per browser tab.
#[derive(Debug, Clone, PartialEq, Eq)]
pub struct SpawnCardinality {
    pub runtime: &'static str,
    pub tabs: u16,
}

impl RunOptions {
    pub fn tabs(&self) -> (r: u16)
        ensures
            r == run_tabs(*self),
    {
        match self.tabs_override {
            Some(t) => t,
            None => self.config.browser.tabs,
        }
    }

    pub fn spawn_cardinality(&self) -> (r: SpawnCardinality)
        ensures
            r.runtime@ == "jailgun"@,
            r.tabs == run_tabs(*self),
    {
        SpawnCardinality::for_tabs(self.tabs())
    }
}

impl SpawnCardinality {
    pub fn for_tabs(tabs: u16) -> (r: Self)
        ensures
            r.runtime@ == "jailgun"@,
            r.tabs == tabs,
    {
        SpawnCardinality { runtime: "jailgun", tabs }
    }

    /// Compact `runtime:<runtime>,tabs:<tabs>` value embedded in run metadata.
    pub fn receipt_value(&self) -> (r: String)
        ensures
            r@ == "runtime:"@ + self.runtime@ + ",tabs:"@ + decimal(self.tabs as nat),
    {
        let mut out: Vec<char> = Vec::new();
        push_str(&mut out, "runtime:");
        push_str(&mut out, self.runtime);
        push_str(&mut out, ",tabs:");
        push_decimal(&mut out, self.tabs as u64);
        string_of(&out)
    }
}

/// The profile directory the open-tab command names for `tab_id`: the
/// tab's own directory when one was assigned; none when a pool of several
/// profiles is in use (the bridge picks); else the run's profile directory.
pub open spec fn tab_profile_dir(opts: RunOptions, tab_id: u16) -> Option<Seq<char>> {
    if opts.tab_profile_dirs@.contains_key(tab_id) {
        Some(opts.tab_profile_dirs@[tab_id]@)
    } else if opts.profile_pool.len() > 1 {
        None
    } else {
        Some(opts.profile_dir@)
    }
}

pub fn open_tab_profile_dir(opts: &RunOptions, tab_id: u16) -> (r: Option<String>)
    ensures
        crate::text::opt_chars(r) == tab_profile_dir(*opts, tab_id),
{
    if let Some(path) = opts.tab_profile_dirs.get(&tab_id) {
        return Some(path.clone());
    }
    if opts.profile_pool.len() > 1 {
        None
    } else {
        Some(opts.profile_dir.clone())
    }
}

} // verus!
