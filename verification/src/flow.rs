//! What the orchestrator asks the bridge to do for one tab.
use vstd::prelude::*;
use crate::bridge::command::{
    BridgeCommand, HelloPayload, MonitorTabPayload, OpenTabPayload, SubmitPromptPayload,
    UploadArchivePayload,
};
use crate::bridge::protocol::PROTOCOL_VERSION;
use crate::config::{open_tab_profile_dir, run_tabs, tab_profile_dir, RunOptions};
use crate::text::{opt_chars, strings_chars};
use crate::text::{chars_of, decimal, push_all, push_decimal, push_str, replace_all, replace_chars, string_of};

verus! {

/// The prompt sent to tab `tab` of `total`: a batch header, then the user's
/// prompt with the `{{TAB_INDEX}}`, `{{TAB_NUMBER}}` and `{{TAB_COUNT}}`
/// placeholders filled in.
pub open spec fn tab_prompt(prompt: Seq<char>, tab: nat, total: nat) -> Seq<char> {
    "Batch tab: "@ + decimal(tab) + " of "@ + decimal(total)
        + ".\nIf a tab identifier is relevant, include tab "@ + decimal(tab)
        + " inside the requested artifact or notes only. Do not answer with the tab number by itself.\n\n"@
        + replace_all(
        replace_all(replace_all(prompt, "{{TAB_INDEX}}"@, decimal(tab)), "{{TAB_NUMBER}}"@, decimal(tab)),
        "{{TAB_COUNT}}"@,
        decimal(total),
    )
}

/// The prompt for tab `tab_id` of `total_tabs`.
pub fn prompt_for_tab(prompt: &str, tab_id: u16, total_tabs: u16) -> (r: String)
    ensures
        r@ == tab_prompt(prompt@, tab_id as nat, total_tabs as nat),
{
    proof {
        reveal_strlit("{{TAB_INDEX}}");
        reveal_strlit("{{TAB_NUMBER}}");
        reveal_strlit("{{TAB_COUNT}}");
    }
    let mut tab_digits: Vec<char> = Vec::new();
    push_decimal(&mut tab_digits, tab_id as u64);
    let mut total_digits: Vec<char> = Vec::new();
    push_decimal(&mut total_digits, total_tabs as u64);
    let body = chars_of(prompt);
    let index_pat = chars_of("{{TAB_INDEX}}");
    let number_pat = chars_of("{{TAB_NUMBER}}");
    let count_pat = chars_of("{{TAB_COUNT}}");
    let step1 = replace_chars(&body, &index_pat, &tab_digits);
    let step2 = replace_chars(&step1, &number_pat, &tab_digits);
    let step3 = replace_chars(&step2, &count_pat, &total_digits);

    let mut out: Vec<char> = Vec::new();
    push_str(&mut out, "Batch tab: ");
    push_all(&mut out, &tab_digits);
    push_str(&mut out, " of ");
    push_all(&mut out, &total_digits);
    push_str(&mut out, ".\nIf a tab identifier is relevant, include tab ");
    push_all(&mut out, &tab_digits);
    push_str(
        &mut out,
        " inside the requested artifact or notes only. Do not answer with the tab number by itself.\n\n",
    );
    push_all(&mut out, &step3);
    assert(out@ =~= tab_prompt(prompt@, tab_id as nat, total_tabs as nat));
    string_of(&out)
}

} // verus!

verus! {

/// Whether `cmds` are the commands that open, feed and watch tab `tab_id`:
/// open the tab (with the tab's profile directory), upload the source
/// archive when archives are enabled, submit the tab's prompt, and monitor.
pub open spec fn tab_commands_spec(opts: RunOptions, tab_id: u16, cmds: Seq<BridgeCommand>) -> bool {
    let upload = opts.config.source_archive.enabled;
    let n = if upload { 4int } else { 3int };
    let k = if upload { 2int } else { 1int };
    &&& cmds.len() == n
    &&& cmds[0] matches BridgeCommand::OpenTab(p) && p.chat_url == opts.config.browser.chat_url
        && p.model == opts.config.browser.model && opt_chars(p.profile_dir) == tab_profile_dir(
        opts,
        tab_id,
    )
    &&& upload ==> cmds[1] == BridgeCommand::UploadArchive(
        UploadArchivePayload {
            repo_url: opts.repo_url,
            ref_name: opts.config.source_archive.ref_name,
            prefix: opts.config.source_archive.prefix,
            archive_filename: opts.config.source_archive.archive_filename,
            local_archive_path: opts.local_archive_path,
            tmp_parent: None,
            delete_after_upload: opts.config.source_archive.delete_after_upload,
            confirm_selectors: cmds[1]->UploadArchive_0.confirm_selectors,
            timeout_ms: 45000,
        },
    ) && cmds[1]->UploadArchive_0.confirm_selectors@.len() == 0
    &&& cmds[k] matches BridgeCommand::SubmitPrompt(p) && p.prompt@ == tab_prompt(
        opts.prompt_text@,
        tab_id as nat,
        run_tabs(opts) as nat,
    ) && p.submit_timeout_ms == 45000
    &&& cmds[k + 1] == BridgeCommand::MonitorTab(
        MonitorTabPayload {
            completion_check_ms: (opts.config.browser.completion_check_seconds * 1000) as u64,
            telemetry_tick_ms: (opts.config.browser.poll_interval_seconds * 1000) as u64,
        },
    )
}

/// The commands sent to the bridge for tab `tab_id`, in order.
pub fn tab_commands(opts: &RunOptions, tab_id: u16) -> (r: Vec<BridgeCommand>)
    ensures
        tab_commands_spec(*opts, tab_id, r@),
{
    let mut cmds: Vec<BridgeCommand> = Vec::new();
    cmds.push(
        BridgeCommand::OpenTab(
            OpenTabPayload {
                chat_url: opts.config.browser.chat_url.clone(),
                model: opts.config.browser.model.clone(),
                profile_dir: open_tab_profile_dir(opts, tab_id),
            },
        ),
    );
    if opts.config.source_archive.enabled {
        let local_archive_path = match &opts.local_archive_path {
            Some(p) => Some(p.clone()),
            None => None,
        };
        cmds.push(
            BridgeCommand::UploadArchive(
                UploadArchivePayload {
                    repo_url: opts.repo_url.clone(),
                    ref_name: opts.config.source_archive.ref_name.clone(),
                    prefix: opts.config.source_archive.prefix.clone(),
                    archive_filename: opts.config.source_archive.archive_filename.clone(),
                    local_archive_path,
                    tmp_parent: None,
                    delete_after_upload: opts.config.source_archive.delete_after_upload,
                    confirm_selectors: Vec::new(),
                    timeout_ms: 45_000,
                },
            ),
        );
    }
    cmds.push(
        BridgeCommand::SubmitPrompt(
            SubmitPromptPayload {
                prompt: prompt_for_tab(opts.prompt_text.as_str(), tab_id, opts.tabs()),
                submit_timeout_ms: 45_000,
            },
        ),
    );
    cmds.push(
        BridgeCommand::MonitorTab(
            MonitorTabPayload {
                completion_check_ms: opts.config.browser.completion_check_seconds as u64 * 1_000,
                telemetry_tick_ms: opts.config.browser.poll_interval_seconds as u64 * 1_000,
            },
        ),
    );
    cmds
}

/// The handshake a run opens the bridge with: this orchestrator's version,
/// the protocol version, and what the run will use.
pub fn run_hello(orchestrator_version: String) -> (r: BridgeCommand)
    ensures
        r matches BridgeCommand::Hello(p) && p.orchestrator_version == orchestrator_version
            && p.protocol_version == PROTOCOL_VERSION && strings_chars(p.capabilities@) == seq![
            "source-upload"@,
            "tar-capture"@,
            "rust-deploy"@,
        ],
{
    let capabilities = vec![
        String::from_str("source-upload"),
        String::from_str("tar-capture"),
        String::from_str("rust-deploy"),
    ];
    assert(strings_chars(capabilities@) =~= seq!["source-upload"@, "tar-capture"@, "rust-deploy"@]);
    BridgeCommand::Hello(
        HelloPayload { orchestrator_version, protocol_version: PROTOCOL_VERSION, capabilities },
    )
}

} // verus!
