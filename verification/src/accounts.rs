//! Browser accounts of a run: which profiles it may use, how many tabs
//! they allow, and how they are handed to the bridge.
use vstd::prelude::*;
use crate::text::{
    chars_of, decimal, push_all, push_decimal, push_str, starts_with, string_of,
    strings_chars, vec_starts_with,
};

verus! {

/// Readiness of a registered browser account.
#[derive(Debug, Clone, Copy, PartialEq, Eq, Structural)]
pub enum BrowserAccountStatus {
    Ready,
    AuthRequired,
    ManualBrowserRequired,
    Degraded,
    Locked,
}

/// A registered browser account with its own Chrome profile.
#[derive(Debug, Clone, PartialEq, Eq)]
pub struct BrowserAccount {
    pub id: String,
    pub email_hint: String,
    pub profile_dir: String,
    pub state_dir: String,
    pub downloads_dir: String,
    pub cdp_port: u16,
    pub max_tabs: u16,
    pub status: BrowserAccountStatus,
    pub last_verified_at: Option<String>,
}

/// The tabs an account may hold: its limit, at least one.
pub open spec fn account_tabs(a: BrowserAccount) -> nat {
    if a.max_tabs < 1 { 1 } else { a.max_tabs as nat }
}

/// The total tabs of the accounts `accounts[..n]`, saturating at `u16::MAX`.
pub open spec fn capacity_of(accounts: Seq<BrowserAccount>, n: int) -> nat
    decreases n,
{
    if n <= 0 {
        0
    } else {
        let c = capacity_of(accounts, n - 1) + account_tabs(accounts[n - 1]);
        if c > u16::MAX as nat { u16::MAX as nat } else { c }
    }
}

pub open spec fn capacity_refusal(requested: u16, capacity: nat) -> Seq<char> {
    "requested "@ + decimal(requested as nat) + " tab(s), but selected browser accounts allow "@
        + decimal(capacity) + " tab(s)"@
}

/// Refuses a run asking for more tabs than the selected accounts allow.
pub fn ensure_account_capacity(accounts: &Vec<BrowserAccount>, requested_tabs: u16) -> (r: Result<
    (),
    String,
>)
    ensures
        r is Ok <==> requested_tabs <= capacity_of(accounts@, accounts@.len() as int),
        r matches Err(m) ==> m@ == capacity_refusal(
            requested_tabs,
            capacity_of(accounts@, accounts@.len() as int),
        ),
{
    let mut capacity: u16 = 0;
    let mut i: usize = 0;
    while i < accounts.len()
        invariant
            i <= accounts.len(),
            capacity == capacity_of(accounts@, i as int),
        decreases accounts.len() - i,
    {
        let tabs = if accounts[i].max_tabs < 1 { 1 } else { accounts[i].max_tabs };
        capacity = capacity.saturating_add(tabs);
        i = i + 1;
    }
    if requested_tabs > capacity {
        let mut out: Vec<char> = Vec::new();
        push_str(&mut out, "requested ");
        push_decimal(&mut out, requested_tabs as u64);
        push_str(&mut out, " tab(s), but selected browser accounts allow ");
        push_decimal(&mut out, capacity as u64);
        push_str(&mut out, " tab(s)");
        assert(out@ =~= capacity_refusal(requested_tabs, capacity as nat));
        return Err(string_of(&out));
    }
    Ok(())
}

/// The platform's main path separator (`std::path::MAIN_SEPARATOR`): `/`
/// or `\`.
#[verifier::external_body]
pub(crate) fn main_separator() -> (r: char)
    ensures
        r == '/' || r == '\\',
{
    std::path::MAIN_SEPARATOR
}

/// The separator of path lists on a platform whose paths are separated by
/// `main_sep`: `;` where that is `\` (Windows), `:` elsewhere.
pub open spec fn pool_separator_spec(main_sep: char) -> char {
    if main_sep == '\\' {
        ';'
    } else {
        ':'
    }
}

/// The separator of path lists for the main path separator `main_sep`.
pub fn pool_separator_for(main_sep: char) -> (r: char)
    ensures
        r == pool_separator_spec(main_sep),
{
    if main_sep == '\\' {
        ';'
    } else {
        ':'
    }
}

/// The separator of path lists on this platform. Which platform that is
/// comes from `std::path::MAIN_SEPARATOR`; the choice itself is
/// `pool_separator_for`.
pub fn profile_pool_separator() -> (r: char)
    ensures
        exists|m: char| (m == '/' || m == '\\') && r == #[trigger] pool_separator_spec(m),
{
    let m = main_separator();
    let r = pool_separator_for(m);
    assert(r == pool_separator_spec(m));
    r
}

/// Whether `s` holds the character `c`.
pub open spec fn has_char(s: Seq<char>, c: char) -> bool {
    exists|i: int| 0 <= i < s.len() && s[i] == c
}

/// The entries joined by `sep`.
pub open spec fn joined(entries: Seq<Seq<char>>, sep: char) -> Seq<char>
    decreases entries.len(),
{
    if entries.len() == 0 {
        seq![]
    } else if entries.len() == 1 {
        entries[0]
    } else {
        joined(entries.drop_last(), sep) + seq![sep] + entries.last()
    }
}

fn vec_has_char(v: &Vec<char>, c: char) -> (r: bool)
    ensures
        r == has_char(v@, c),
{
    let mut i: usize = 0;
    while i < v.len()
        invariant
            i <= v.len(),
            forall|j: int| 0 <= j < i ==> v@[j] != c,
        decreases v.len() - i,
    {
        if v[i] == c {
            return true;
        }
        i = i + 1;
    }
    false
}

/// Whether `r` is the outcome of joining `entries` with `sep`.
pub open spec fn join_outcome(entries: Seq<Seq<char>>, sep: char, r: Result<String, String>) -> bool {
    match r {
        Ok(s) => (forall|i: int| 0 <= i < entries.len() ==> !has_char(#[trigger] entries[i], sep))
            && s@ == joined(entries, sep),
        Err(m) => exists|i: int|
            0 <= i < entries.len() && has_char(#[trigger] entries[i], sep) && (forall|j: int|
                0 <= j < i ==> !has_char(#[trigger] entries[j], sep)) && m@
                == "browser profile pool entry contains path-list separator: "@ + entries[i],
    }
}

/// Joins profile pool entries with `sep`; an entry that holds the separator
/// is refused, since the bridge could not split the list back.
pub fn join_entries(entries: &Vec<String>, sep: char) -> (r: Result<String, String>)
    ensures
        join_outcome(strings_chars(entries@), sep, r),
{
    let mut i: usize = 0;
    while i < entries.len()
        invariant
            i <= entries.len(),
            forall|j: int| 0 <= j < i ==> !has_char(#[trigger] entries@[j]@, sep),
        decreases entries.len() - i,
    {
        let e = chars_of(entries[i].as_str());
        if vec_has_char(&e, sep) {
            let mut out: Vec<char> = Vec::new();
            push_str(&mut out, "browser profile pool entry contains path-list separator: ");
            push_all(&mut out, &e);
            proof {
                let t = strings_chars(entries@);
                assert(t[i as int] == entries@[i as int]@);
                assert(forall|j: int| 0 <= j < i ==> t[j] == entries@[j]@);
                assert(has_char(t[i as int], sep));
            }
            return Err(string_of(&out));
        }
        i = i + 1;
    }
    let mut out: Vec<char> = Vec::new();
    let mut k: usize = 0;
    while k < entries.len()
        invariant
            k <= entries.len(),
            out@ == joined(strings_chars(entries@.take(k as int)), sep),
        decreases entries.len() - k,
    {
        let ghost before = out@;
        if k > 0 {
            out.push(sep);
        }
        push_str(&mut out, entries[k].as_str());
        proof {
            let t = strings_chars(entries@.take(k + 1));
            assert(t.drop_last() =~= strings_chars(entries@.take(k as int)));
            assert(t.last() == entries@[k as int]@);
            if k == 0 {
                assert(out@ =~= t[0]);
            } else {
                assert(out@ =~= before + seq![sep] + t.last());
            }
        }
        k = k + 1;
    }
    assert(entries@.take(entries.len() as int) =~= entries@);
    Ok(string_of(&out))
}

/// Joins profile pool entries with the platform's path-list separator.
pub fn join_profile_pool_entries(entries: &Vec<String>) -> (r: Result<String, String>)
    ensures
        join_outcome(strings_chars(entries@), ':', r) || join_outcome(strings_chars(entries@), ';', r),
{
    let sep = profile_pool_separator();
    join_entries(entries, sep)
}

/// The profile pool of explicit profile paths.
pub fn join_path_profile_pool(paths: &Vec<String>) -> (r: Result<String, String>)
    ensures
        join_outcome(strings_chars(paths@), ':', r) || join_outcome(strings_chars(paths@), ';', r),
{
    join_profile_pool_entries(paths)
}

/// `id=value` pairs of the accounts, in order.
pub open spec fn account_pairs(accounts: Seq<BrowserAccount>, ports: bool) -> Seq<Seq<char>> {
    accounts.map_values(
        |a: BrowserAccount|
            a.id@ + seq!['='] + if ports {
                decimal(a.cdp_port as nat)
            } else {
                a.profile_dir@
            },
    )
}

pub(crate) fn account_entries(accounts: &Vec<BrowserAccount>, ports: bool) -> (r: Vec<String>)
    ensures
        strings_chars(r@) == account_pairs(accounts@, ports),
{
    let mut out: Vec<String> = Vec::new();
    let mut i: usize = 0;
    while i < accounts.len()
        invariant
            i <= accounts.len(),
            strings_chars(out@) == account_pairs(accounts@.take(i as int), ports),
        decreases accounts.len() - i,
    {
        let mut e: Vec<char> = Vec::new();
        push_str(&mut e, accounts[i].id.as_str());
        e.push('=');
        if ports {
            push_decimal(&mut e, accounts[i].cdp_port as u64);
        } else {
            push_str(&mut e, accounts[i].profile_dir.as_str());
        }
        assert(e@ =~= accounts@[i as int].id@ + seq!['='] + if ports {
            decimal(accounts@[i as int].cdp_port as nat)
        } else {
            accounts@[i as int].profile_dir@
        });
        let ghost before = out@;
        out.push(string_of(&e));
        proof {
            assert(accounts@.take(i + 1) =~= accounts@.take(i as int).push(accounts@[i as int]));
            assert(strings_chars(out@) =~= strings_chars(before).push(e@));
            assert(account_pairs(accounts@.take(i + 1), ports) =~= account_pairs(
                accounts@.take(i as int),
                ports,
            ).push(e@));
        }
        i = i + 1;
    }
    assert(accounts@.take(accounts.len() as int) =~= accounts@);
    out
}

/// The profile pool of accounts: `id=profile_dir` entries.
pub fn join_account_profile_pool(accounts: &Vec<BrowserAccount>) -> (r: Result<String, String>)
    ensures
        join_outcome(account_pairs(accounts@, false), ':', r) || join_outcome(account_pairs(accounts@, false), ';', r),
{
    let entries = account_entries(accounts, false);
    let r = join_profile_pool_entries(&entries);
    r
}

/// The CDP ports of accounts: `id=port` entries.
pub fn join_account_profile_ports(accounts: &Vec<BrowserAccount>) -> (r: Result<String, String>)
    ensures
        join_outcome(account_pairs(accounts@, true), ':', r) || join_outcome(account_pairs(accounts@, true), ';', r),
{
    let entries = account_entries(accounts, true);
    let r = join_profile_pool_entries(&entries);
    r
}

/// How a run request asks for browser profiles.
#[derive(Debug, Clone, Copy, PartialEq, Eq, Structural)]
pub enum AccountRouting {
    /// Raw profile paths (or the default profile): no registry involved.
    RawProfiles,
    /// Accounts from the browser profile registry.
    Registry,
}

/// Runs started through the MCP interface (prompt refs `jmcp://...`) must
/// route through registered accounts; explicit account ids always do.
pub open spec fn routing_spec(
    prompt_ref: Seq<char>,
    has_account_ids: bool,
    has_profile_dir: bool,
    has_profile_pool: bool,
) -> Result<AccountRouting, Seq<char>> {
    let mcp = starts_with(prompt_ref, "jmcp://"@);
    if mcp && !has_account_ids && (has_profile_dir || has_profile_pool) {
        Err("jmcp:// runs must use ready browser.account_ids instead of raw profile paths"@)
    } else if has_account_ids || (mcp && !has_profile_dir && !has_profile_pool) {
        Ok(AccountRouting::Registry)
    } else {
        Ok(AccountRouting::RawProfiles)
    }
}

/// How a run request is routed to browser profiles (see `routing_spec`).
pub fn account_routing(
    prompt_ref: &str,
    has_account_ids: bool,
    has_profile_dir: bool,
    has_profile_pool: bool,
) -> (r: Result<AccountRouting, String>)
    ensures
        match r {
            Ok(k) => routing_spec(prompt_ref@, has_account_ids, has_profile_dir, has_profile_pool)
                == Ok::<AccountRouting, Seq<char>>(k),
            Err(m) => routing_spec(prompt_ref@, has_account_ids, has_profile_dir, has_profile_pool)
                == Err::<AccountRouting, Seq<char>>(m@),
        },
{
    let p = chars_of(prompt_ref);
    let mcp = vec_starts_with(&p, &chars_of("jmcp://"));
    if mcp && !has_account_ids && (has_profile_dir || has_profile_pool) {
        return Err(
            String::from_str(
                "jmcp:// runs must use ready browser.account_ids instead of raw profile paths",
            ),
        );
    }
    if has_account_ids || (mcp && !has_profile_dir && !has_profile_pool) {
        Ok(AccountRouting::Registry)
    } else {
        Ok(AccountRouting::RawProfiles)
    }
}

/// The browser profile registry of a request: the path its bridge
/// environment names under the registry variable, else the default path.
pub fn browser_registry_path(request_env_value: Option<String>, default_path: String) -> (r: String)
    ensures
        r == match request_env_value {
            Some(p) => p,
            None => default_path,
        },
{
    match request_env_value {
        Some(p) => p,
        None => default_path,
    }
}

/// A copy of an account, field by field.
pub fn copy_account(a: &BrowserAccount) -> (r: BrowserAccount)
    ensures
        r == *a,
{
    BrowserAccount {
        id: a.id.clone(),
        email_hint: a.email_hint.clone(),
        profile_dir: a.profile_dir.clone(),
        state_dir: a.state_dir.clone(),
        downloads_dir: a.downloads_dir.clone(),
        cdp_port: a.cdp_port,
        max_tabs: a.max_tabs,
        status: a.status,
        last_verified_at: match &a.last_verified_at {
            Some(t) => Some(t.clone()),
            None => None,
        },
    }
}

/// Ready accounts of the registry, in order.
pub open spec fn ready_accounts(accounts: Seq<BrowserAccount>) -> Seq<BrowserAccount> {
    accounts.filter(|a: BrowserAccount| a.status == BrowserAccountStatus::Ready)
}

/// The accounts a registry-routed run without explicit ids uses: all ready
/// accounts, which must not be none.
pub fn ready_registry_accounts(accounts: &Vec<BrowserAccount>, registry_path: &str) -> (r: Result<
    Vec<BrowserAccount>,
    String,
>)
    ensures
        match r {
            Ok(v) => v@ == ready_accounts(accounts@) && v@.len() > 0,
            Err(m) => ready_accounts(accounts@).len() == 0 && m@
                == "jmcp:// runs require at least one ready browser account in "@ + registry_path@,
        },
{
    let mut out: Vec<BrowserAccount> = Vec::new();
    let mut i: usize = 0;
    while i < accounts.len()
        invariant
            i <= accounts.len(),
            out@ == ready_accounts(accounts@.take(i as int)),
        decreases accounts.len() - i,
    {
        proof {
            assert(accounts@.take(i + 1).drop_last() =~= accounts@.take(i as int));
            reveal_with_fuel(Seq::<BrowserAccount>::filter, 1);
        }
        if accounts[i].status == BrowserAccountStatus::Ready {
            out.push(copy_account(&accounts[i]));
        }
        i = i + 1;
    }
    assert(accounts@.take(accounts.len() as int) =~= accounts@);
    if out.len() == 0 {
        let mut m: Vec<char> = Vec::new();
        push_str(&mut m, "jmcp:// runs require at least one ready browser account in ");
        push_str(&mut m, registry_path);
        return Err(string_of(&m));
    }
    Ok(out)
}

/// The position of the last `sep` in `s`, if any.
pub open spec fn last_sep(s: Seq<char>, sep: char) -> Option<int>
    decreases s.len(),
{
    if s.len() == 0 {
        None
    } else if s.last() == sep {
        Some(s.len() - 1)
    } else {
        last_sep(s.drop_last(), sep)
    }
}

/// `s` split at every `sep` (as the bridge splits a path list).
pub open spec fn split_at_sep(s: Seq<char>, sep: char) -> Seq<Seq<char>>
    decreases s.len(),
{
    match last_sep(s, sep) {
        None => seq![s],
        Some(i) => if 0 <= i < s.len() {
            split_at_sep(s.take(i), sep).push(s.skip(i + 1))
        } else {
            seq![s]
        },
    }
}

proof fn lemma_last_sep_none(s: Seq<char>, sep: char)
    requires
        !has_char(s, sep),
    ensures
        last_sep(s, sep) is None,
    decreases s.len(),
{
    if s.len() > 0 {
        assert(s.last() == s[s.len() - 1]);
        if has_char(s.drop_last(), sep) {
            let i = choose|i: int| 0 <= i < s.drop_last().len() && s.drop_last()[i] == sep;
            assert(s[i] == sep);
        }
        lemma_last_sep_none(s.drop_last(), sep);
    }
}

proof fn lemma_last_sep_after(a: Seq<char>, b: Seq<char>, sep: char)
    requires
        !has_char(b, sep),
    ensures
        last_sep(a + seq![sep] + b, sep) == Some(a.len() as int),
    decreases b.len(),
{
    let s = a + seq![sep] + b;
    if b.len() == 0 {
        assert(s.last() == sep);
    } else {
        assert(s.last() == b.last());
        assert(b.last() == b[b.len() - 1]);
        if has_char(b.drop_last(), sep) {
            let i = choose|i: int| 0 <= i < b.drop_last().len() && b.drop_last()[i] == sep;
            assert(b[i] == sep);
        }
        lemma_last_sep_after(a, b.drop_last(), sep);
        assert(s.drop_last() =~= a + seq![sep] + b.drop_last());
    }
}

/// A path list joined from entries that do not hold the separator splits
/// back into exactly those entries (which is why such entries are
/// refused).
pub proof fn lemma_joined_splits_back(entries: Seq<Seq<char>>, sep: char)
    requires
        entries.len() > 0,
        forall|i: int| 0 <= i < entries.len() ==> !has_char(#[trigger] entries[i], sep),
    ensures
        split_at_sep(joined(entries, sep), sep) == entries,
    decreases entries.len(),
{
    if entries.len() == 1 {
        lemma_last_sep_none(entries[0], sep);
        assert(seq![entries[0]] =~= entries);
    } else {
        let init = entries.drop_last();
        let a = joined(init, sep);
        let b = entries.last();
        assert(!has_char(b, sep)) by {
            assert(b == entries[entries.len() - 1]);
        }
        assert forall|i: int| 0 <= i < init.len() implies !has_char(#[trigger] init[i], sep) by {
            assert(init[i] == entries[i]);
        }
        lemma_joined_splits_back(init, sep);
        let s = a + seq![sep] + b;
        assert(joined(entries, sep) == s);
        lemma_last_sep_after(a, b, sep);
        assert(s.take(a.len() as int) =~= a);
        assert(s.skip(a.len() as int + 1) =~= b);
        assert(init.push(b) =~= entries);
    }
}

} // verus!
