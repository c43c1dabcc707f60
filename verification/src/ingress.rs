//! How a run request names its browser accounts: the canonical
//! `browser.account_ids`, or the REST alias `account_ids`, or the MCP
//! alias `account`; the names must agree, and no account may be named
//! twice.
use vstd::prelude::*;
use crate::text::{decimal, push_decimal, push_str, str_eq, string_of, strings_chars};

verus! {

/// The interface a run request came through.
#[derive(Debug, Clone, Copy, PartialEq, Eq, Structural)]
pub enum RunIngress {
    Rest,
    Mcp,
}

/// The name of an interface, as `{:?}` prints it.
pub open spec fn ingress_name(i: RunIngress) -> Seq<char> {
    match i {
        RunIngress::Rest => "Rest"@,
        RunIngress::Mcp => "Mcp"@,
    }
}

/// The parts of a JSON value that naming accounts depends on.
#[derive(Debug, Clone)]
pub enum AccountValue {
    /// An array; each element's string, or none where it is not a string.
    Array(Vec<Option<String>>),
    /// A string.
    Text(String),
    /// Any other value.
    Other,
}

/// The position of the first element that is not a string, if any.
pub open spec fn first_non_string(items: Seq<Option<String>>) -> Option<int>
    decreases items.len(),
{
    if items.len() == 0 {
        None
    } else {
        match first_non_string(items.drop_last()) {
            Some(i) => Some(i),
            None => if items.last() is None {
                Some(items.len() - 1)
            } else {
                None
            },
        }
    }
}

proof fn lemma_first_non_string(items: Seq<Option<String>>, i: int)
    requires
        0 <= i <= items.len(),
        forall|j: int| 0 <= j < i ==> (#[trigger] items[j]) is Some,
    ensures
        first_non_string(items.take(i)) is None,
        i < items.len() && items[i] is None ==> first_non_string(items.take(i + 1)) == Some(i),
    decreases i,
{
    if i > 0 {
        assert(items.take(i).drop_last() =~= items.take(i - 1));
        lemma_first_non_string(items, i - 1);
    }
    if i < items.len() {
        assert(items.take(i + 1).drop_last() =~= items.take(i));
    }
}

proof fn lemma_first_non_string_extends(items: Seq<Option<String>>, i: int)
    requires
        0 <= i <= items.len(),
        first_non_string(items.take(i)) is Some,
    ensures
        first_non_string(items) == first_non_string(items.take(i)),
    decreases items.len() - i,
{
    if i < items.len() {
        assert(items.take(i + 1).drop_last() =~= items.take(i));
        lemma_first_non_string_extends(items, i + 1);
    } else {
        assert(items.take(i) =~= items);
    }
}

/// The strings of a list whose elements are all strings.
pub open spec fn strings_of(items: Seq<Option<String>>) -> Seq<Seq<char>> {
    items.map_values(|o: Option<String>| o->0@)
}

/// What a list of account ids named in field `field` gives.
pub open spec fn account_ids_spec(value: AccountValue, field: Seq<char>) -> Result<
    Seq<Seq<char>>,
    Seq<char>,
> {
    match value {
        AccountValue::Array(items) => match first_non_string(items@) {
            Some(i) => Err(field + "["@ + decimal(i as nat) + "] must be a string"@),
            None => Ok(strings_of(items@)),
        },
        _ => Err(field + " must be an array of browser account ids"@),
    }
}

pub open spec fn ids_result(r: Result<Vec<String>, String>) -> Result<Seq<Seq<char>>, Seq<char>> {
    match r {
        Ok(v) => Ok(strings_chars(v@)),
        Err(e) => Err(e@),
    }
}

/// Reads a list of account ids; every element must be a string.
pub fn parse_account_ids(value: &AccountValue, field: &str) -> (r: Result<Vec<String>, String>)
    ensures
        ids_result(r) == account_ids_spec(*value, field@),
{
    match value {
        AccountValue::Array(items) => {
            let mut out: Vec<String> = Vec::new();
            let mut i: usize = 0;
            while i < items.len()
                invariant
                    i <= items.len(),
                    *value == AccountValue::Array(*items),
                    forall|j: int| 0 <= j < i ==> (#[trigger] items@[j]) is Some,
                    strings_chars(out@) == strings_of(items@.take(i as int)),
                decreases items.len() - i,
            {
                match &items[i] {
                    Some(s) => {
                        let ghost before = out@;
                        out.push(s.clone());
                        proof {
                            let t = items@.take(i + 1);
                            assert(t.drop_last() =~= items@.take(i as int));
                            assert(strings_of(t) =~= strings_of(items@.take(i as int)).push(s@));
                            assert(strings_chars(out@) =~= strings_chars(before).push(s@));
                        }
                    },
                    None => {
                        proof {
                            lemma_first_non_string(items@, i as int);
                            lemma_first_non_string_extends(items@, i + 1);
                        }
                        let mut m: Vec<char> = Vec::new();
                        push_str(&mut m, field);
                        push_str(&mut m, "[");
                        push_decimal(&mut m, i as u64);
                        push_str(&mut m, "] must be a string");
                        assert(m@ =~= field@ + "["@ + decimal(i as nat) + "] must be a string"@);
                        return Err(string_of(&m));
                    },
                }
                i = i + 1;
            }
            proof {
                lemma_first_non_string(items@, items@.len() as int);
                assert(items@.take(items@.len() as int) =~= items@);
            }
            Ok(out)
        },
        _ => {
            let mut m: Vec<char> = Vec::new();
            push_str(&mut m, field);
            push_str(&mut m, " must be an array of browser account ids");
            Err(string_of(&m))
        },
    }
}

/// What a single account id named in field `field` gives.
pub open spec fn account_alias_spec(value: AccountValue, field: Seq<char>) -> Result<
    Seq<Seq<char>>,
    Seq<char>,
> {
    match value {
        AccountValue::Text(s) => Ok(seq![s@]),
        _ => Err(field + " must be a browser account id string"@),
    }
}

/// Reads the single account id of the MCP alias.
pub fn parse_account_alias(value: &AccountValue, field: &str) -> (r: Result<Vec<String>, String>)
    ensures
        ids_result(r) == account_alias_spec(*value, field@),
{
    match value {
        AccountValue::Text(s) => {
            let mut out: Vec<String> = Vec::new();
            out.push(s.clone());
            assert(strings_chars(out@) =~= seq![s@]);
            Ok(out)
        },
        _ => {
            let mut m: Vec<char> = Vec::new();
            push_str(&mut m, field);
            push_str(&mut m, " must be a browser account id string");
            Err(string_of(&m))
        },
    }
}

/// The first id named a second time, if any.
pub open spec fn first_duplicate(ids: Seq<Seq<char>>) -> Option<Seq<char>>
    decreases ids.len(),
{
    if ids.len() == 0 {
        None
    } else {
        match first_duplicate(ids.drop_last()) {
            Some(d) => Some(d),
            None => if ids.drop_last().contains(ids.last()) {
                Some(ids.last())
            } else {
                None
            },
        }
    }
}

/// Whether no id is named twice.
pub open spec fn distinct_ids(ids: Seq<Seq<char>>) -> bool {
    forall|i: int, j: int| 0 <= i < j < ids.len() ==> (#[trigger] ids[i]) != (#[trigger] ids[j])
}

proof fn lemma_no_duplicate(ids: Seq<Seq<char>>)
    ensures
        first_duplicate(ids) is None <==> distinct_ids(ids),
    decreases ids.len(),
{
    if ids.len() > 0 {
        let init = ids.drop_last();
        lemma_no_duplicate(init);
        if distinct_ids(ids) {
            assert(distinct_ids(init)) by {
                assert forall|i: int, j: int| 0 <= i < j < init.len() implies (#[trigger] init[i])
                    != (#[trigger] init[j]) by {
                    assert(init[i] == ids[i] && init[j] == ids[j]);
                }
            }
            if init.contains(ids.last()) {
                let k = choose|k: int| 0 <= k < init.len() && init[k] == ids.last();
                assert(ids[k] == ids[ids.len() - 1]);
            }
        }
        if first_duplicate(ids) is None {
            assert forall|i: int, j: int| 0 <= i < j < ids.len() implies (#[trigger] ids[i])
                != (#[trigger] ids[j]) by {
                if j < ids.len() - 1 {
                    assert(init[i] == ids[i] && init[j] == ids[j]);
                } else {
                    assert(init[i] == ids[i]);
                    if ids[i] == ids[j] {
                        assert(init.contains(ids.last()));
                    }
                }
            }
        }
    }
}

/// Whether the `i`-th id was named before it.
fn named_before(ids: &Vec<String>, i: usize) -> (r: bool)
    requires
        i < ids.len(),
    ensures
        r == (exists|k: int| 0 <= k < i && #[trigger] strings_chars(ids@)[k] == strings_chars(ids@)[i as int]),
{
    let ghost all = strings_chars(ids@);
    let mut j: usize = 0;
    while j < i
        invariant
            j <= i < ids.len(),
            all == strings_chars(ids@),
            forall|k: int| 0 <= k < j ==> #[trigger] all[k] != all[i as int],
        decreases i - j,
    {
        assert(all[j as int] == ids@[j as int]@);
        assert(all[i as int] == ids@[i as int]@);
        if str_eq(ids[j].as_str(), ids[i].as_str()) {
            return true;
        }
        j = j + 1;
    }
    false
}

/// Refuses a list that names an account twice, naming the first id seen
/// again.
pub fn ensure_unique_account_ids(ids: &Vec<String>) -> (r: Result<(), String>)
    ensures
        r is Ok <==> distinct_ids(strings_chars(ids@)),
        r matches Err(m) ==> first_duplicate(strings_chars(ids@)) matches Some(d) && m@
            == "duplicate browser account id requested: "@ + d,
{
    let ghost all = strings_chars(ids@);
    let mut i: usize = 0;
    while i < ids.len()
        invariant
            i <= ids.len(),
            all == strings_chars(ids@),
            first_duplicate(all.take(i as int)) is None,
        decreases ids.len() - i,
    {
        let seen = named_before(ids, i);
        proof {
            let t = all.take(i + 1);
            assert(t.drop_last() =~= all.take(i as int));
            assert(t.last() == all[i as int]);
            if seen {
                let k = choose|k: int| 0 <= k < i && #[trigger] all[k] == all[i as int];
                assert(t.drop_last()[k] == t.last());
                assert(t.drop_last().contains(t.last()));
            } else {
                assert(!t.drop_last().contains(t.last())) by {
                    if t.drop_last().contains(t.last()) {
                        let k = choose|k: int|
                            0 <= k < t.drop_last().len() && t.drop_last()[k] == t.last();
                        assert(all[k] == all[i as int]);
                    }
                }
            }
        }
        if seen {
            let mut m: Vec<char> = Vec::new();
            push_str(&mut m, "duplicate browser account id requested: ");
            push_str(&mut m, ids[i].as_str());
            proof {
                lemma_first_duplicate_extends(all, i + 1);
                lemma_no_duplicate(all);
            }
            return Err(string_of(&m));
        }
        i = i + 1;
    }
    proof {
        assert(all.take(all.len() as int) =~= all);
        lemma_no_duplicate(all);
    }
    Ok(())
}

proof fn lemma_first_duplicate_extends(ids: Seq<Seq<char>>, i: int)
    requires
        0 <= i <= ids.len(),
        first_duplicate(ids.take(i)) is Some,
    ensures
        first_duplicate(ids) == first_duplicate(ids.take(i)),
    decreases ids.len() - i,
{
    if i < ids.len() {
        assert(ids.take(i + 1).drop_last() =~= ids.take(i));
        lemma_first_duplicate_extends(ids, i + 1);
    } else {
        assert(ids.take(i) =~= ids);
    }
}

/// The ids the request's names select: the canonical list, else an alias;
/// every alias given must name the same ids as what was selected before it.
pub open spec fn selected_ids(
    canonical: Option<Seq<Seq<char>>>,
    rest_alias: Option<Seq<Seq<char>>>,
    mcp_alias: Option<Seq<Seq<char>>>,
) -> Option<Option<Seq<Seq<char>>>> {
    let after_rest = match (canonical, rest_alias) {
        (Some(c), Some(a)) => if c == a {
            Some(Some(c))
        } else {
            None
        },
        (Some(c), None) => Some(Some(c)),
        (None, a) => Some(a),
    };
    match after_rest {
        None => None,
        Some(sel) => match (sel, mcp_alias) {
            (Some(c), Some(a)) => if c == a {
                Some(Some(c))
            } else {
                None
            },
            (Some(c), None) => Some(Some(c)),
            (None, a) => Some(a),
        },
    }
}

/// What naming accounts gives: the first unreadable name refuses the
/// request, then disagreeing names, then a repeated id; else the ids, if
/// any are named.
pub open spec fn normalized_spec(
    canonical: Option<AccountValue>,
    rest_alias: Option<AccountValue>,
    mcp_alias: Option<AccountValue>,
    ingress: RunIngress,
) -> Result<Option<Seq<Seq<char>>>, Seq<char>> {
    let c = match canonical {
        Some(v) => Some(account_ids_spec(v, "browser.account_ids"@)),
        None => None,
    };
    let r = match rest_alias {
        Some(v) => Some(account_ids_spec(v, "account_ids"@)),
        None => None,
    };
    let m = match mcp_alias {
        Some(v) => Some(account_alias_spec(v, "account"@)),
        None => None,
    };
    if c matches Some(Err(_)) {
        Err(c->0->Err_0)
    } else if r matches Some(Err(_)) {
        Err(r->0->Err_0)
    } else if m matches Some(Err(_)) {
        Err(m->0->Err_0)
    } else {
        let cv = match c {
            Some(Ok(v)) => Some(v),
            _ => None,
        };
        let rv = match r {
            Some(Ok(v)) => Some(v),
            _ => None,
        };
        let mv = match m {
            Some(Ok(v)) => Some(v),
            _ => None,
        };
        match selected_ids(cv, rv, mv) {
            None => Err("conflicting browser account routing aliases for "@ + ingress_name(ingress)),
            Some(None) => Ok(None),
            Some(Some(ids)) => match first_duplicate(ids) {
                Some(d) => Err("duplicate browser account id requested: "@ + d),
                None => Ok(Some(ids)),
            },
        }
    }
}

pub open spec fn normalized_result(r: Result<Option<Vec<String>>, String>) -> Result<
    Option<Seq<Seq<char>>>,
    Seq<char>,
> {
    match r {
        Ok(Some(v)) => Ok(Some(strings_chars(v@))),
        Ok(None) => Ok(None),
        Err(e) => Err(e@),
    }
}

fn same_ids(a: &Vec<String>, b: &Vec<String>) -> (r: bool)
    ensures
        r == (strings_chars(a@) == strings_chars(b@)),
{
    if a.len() != b.len() {
        proof {
            assert(strings_chars(a@).len() != strings_chars(b@).len());
        }
        return false;
    }
    let mut i: usize = 0;
    while i < a.len()
        invariant
            i <= a.len(),
            a.len() == b.len(),
            forall|j: int| 0 <= j < i ==> a@[j]@ == b@[j]@,
        decreases a.len() - i,
    {
        if !str_eq(a[i].as_str(), b[i].as_str()) {
            proof {
                assert(strings_chars(a@)[i as int] != strings_chars(b@)[i as int]);
            }
            return false;
        }
        i = i + 1;
    }
    assert(strings_chars(a@) =~= strings_chars(b@));
    true
}

/// Merges an alias into the ids selected so far; `None` when they differ.
fn merge_alias(selected: Option<Vec<String>>, alias: Option<Vec<String>>) -> (r: Option<
    Option<Vec<String>>,
>)
    ensures
        match r {
            None => selected matches Some(c) && alias matches Some(a) && strings_chars(c@)
                != strings_chars(a@),
            Some(o) => match (selected, alias) {
                (Some(c), Some(a)) => strings_chars(c@) == strings_chars(a@) && o == Some(c),
                (Some(c), None) => o == Some(c),
                (None, a) => o == a,
            },
        },
{
    match (selected, alias) {
        (Some(c), Some(a)) => if same_ids(&c, &a) {
            Some(Some(c))
        } else {
            None
        },
        (Some(c), None) => Some(Some(c)),
        (None, a) => Some(a),
    }
}

/// The account ids a run request names, under any of its three names.
pub fn normalize_account_ids(
    canonical: &Option<AccountValue>,
    rest_alias: &Option<AccountValue>,
    mcp_alias: &Option<AccountValue>,
    ingress: RunIngress,
) -> (r: Result<Option<Vec<String>>, String>)
    ensures
        normalized_result(r) == normalized_spec(*canonical, *rest_alias, *mcp_alias, ingress),
{
    let c = match canonical {
        Some(v) => match parse_account_ids(v, "browser.account_ids") {
            Ok(ids) => Some(ids),
            Err(e) => {
                return Err(e);
            },
        },
        None => None,
    };
    let r = match rest_alias {
        Some(v) => match parse_account_ids(v, "account_ids") {
            Ok(ids) => Some(ids),
            Err(e) => {
                return Err(e);
            },
        },
        None => None,
    };
    let m = match mcp_alias {
        Some(v) => match parse_account_alias(v, "account") {
            Ok(ids) => Some(ids),
            Err(e) => {
                return Err(e);
            },
        },
        None => None,
    };
    let mut conflict: Vec<char> = Vec::new();
    push_str(&mut conflict, "conflicting browser account routing aliases for ");
    match ingress {
        RunIngress::Rest => push_str(&mut conflict, "Rest"),
        RunIngress::Mcp => push_str(&mut conflict, "Mcp"),
    }
    let after_rest = match merge_alias(c, r) {
        Some(s) => s,
        None => {
            return Err(string_of(&conflict));
        },
    };
    let selected = match merge_alias(after_rest, m) {
        Some(s) => s,
        None => {
            return Err(string_of(&conflict));
        },
    };
    match selected {
        Some(ids) => match ensure_unique_account_ids(&ids) {
            Ok(()) => {
                proof {
                    lemma_no_duplicate(strings_chars(ids@));
                }
                Ok(Some(ids))
            },
            Err(e) => Err(e),
        },
        None => Ok(None),
    }
}

/// The interface version a request states must be the one served.
pub fn check_interface_version(version: Option<u64>, expected: u64) -> (r: Result<(), String>)
    ensures
        r is Ok <==> (version is None || version == Some(expected)),
        r matches Err(m) ==> m@ == "unsupported Jailgun agent interface version "@ + decimal(
            version->0 as nat,
        ) + "; expected "@ + decimal(expected as nat),
{
    match version {
        Some(v) => if v == expected {
            Ok(())
        } else {
            let mut m: Vec<char> = Vec::new();
            push_str(&mut m, "unsupported Jailgun agent interface version ");
            push_decimal(&mut m, v);
            push_str(&mut m, "; expected ");
            push_decimal(&mut m, expected);
            Err(string_of(&m))
        },
        None => Ok(()),
    }
}

/// Normalised ids never name an account twice.
pub proof fn lemma_normalized_ids_distinct(
    canonical: Option<AccountValue>,
    rest_alias: Option<AccountValue>,
    mcp_alias: Option<AccountValue>,
    ingress: RunIngress,
)
    ensures
        normalized_spec(canonical, rest_alias, mcp_alias, ingress) matches Ok(Some(ids))
            ==> distinct_ids(ids),
{
    match normalized_spec(canonical, rest_alias, mcp_alias, ingress) {
        Ok(Some(ids)) => {
            lemma_no_duplicate(ids);
        },
        _ => {},
    }
}

} // verus!
