//! String key/value fields carried by events: later values for a key
//! replace earlier ones.
use vstd::prelude::*;
use crate::text::str_eq;

verus! {

/// Key/value string fields. Setting a key again replaces its value.
#[derive(Debug, Clone, PartialEq, Eq)]
pub struct Fields {
    pub entries: Vec<(String, String)>,
}

/// The map a list of assignments leaves behind: each key bound to the
/// value of its last assignment.
pub open spec fn assignments_map(s: Seq<(String, String)>) -> Map<Seq<char>, Seq<char>>
    decreases s.len(),
{
    if s.len() == 0 {
        Map::empty()
    } else {
        assignments_map(s.drop_last()).insert(s.last().0@, s.last().1@)
    }
}

impl View for Fields {
    type V = Map<Seq<char>, Seq<char>>;

    open spec fn view(&self) -> Map<Seq<char>, Seq<char>> {
        assignments_map(self.entries@)
    }
}

/// Assigning a second list after a first one: the second list's keys win.
pub proof fn lemma_assignments_concat(a: Seq<(String, String)>, b: Seq<(String, String)>)
    ensures
        assignments_map(a + b) == assignments_map(a).union_prefer_right(assignments_map(b)),
    decreases b.len(),
{
    if b.len() == 0 {
        assert(a + b =~= a);
        assert(assignments_map(a).union_prefer_right(Map::empty()) =~= assignments_map(a));
    } else {
        lemma_assignments_concat(a, b.drop_last());
        assert((a + b).drop_last() =~= a + b.drop_last());
        assert(assignments_map(a + b) =~= assignments_map(a).union_prefer_right(
            assignments_map(b),
        ));
    }
}

/// Reading a key after setting it gives the value set; every other key
/// reads as before.
pub proof fn lemma_set_then_read(
    s: Seq<(String, String)>,
    key: String,
    value: String,
    other: Seq<char>,
)
    ensures
        assignments_map(s.push((key, value))).contains_key(key@),
        assignments_map(s.push((key, value)))[key@] == value@,
        other != key@ ==> (assignments_map(s.push((key, value))).contains_key(other)
            == assignments_map(s).contains_key(other)),
        other != key@ && assignments_map(s).contains_key(other) ==> assignments_map(
            s.push((key, value)),
        )[other] == assignments_map(s)[other],
{
    assert(s.push((key, value)).drop_last() =~= s);
}

/// A key's value comes from its last assignment.
proof fn lemma_last_assignment(s: Seq<(String, String)>, i: int, k: Seq<char>)
    requires
        0 <= i < s.len(),
        s[i].0@ == k,
        forall|j: int| i < j < s.len() ==> s[j].0@ != k,
    ensures
        assignments_map(s).contains_key(k),
        assignments_map(s)[k] == s[i].1@,
    decreases s.len(),
{
    if i < s.len() - 1 {
        lemma_last_assignment(s.drop_last(), i, k);
    }
}

/// A key never assigned is absent.
proof fn lemma_no_assignment(s: Seq<(String, String)>, k: Seq<char>)
    requires
        forall|j: int| 0 <= j < s.len() ==> s[j].0@ != k,
    ensures
        !assignments_map(s).contains_key(k),
    decreases s.len(),
{
    if s.len() > 0 {
        lemma_no_assignment(s.drop_last(), k);
    }
}

impl Fields {
    pub fn new() -> (r: Fields)
        ensures
            r@ == Map::<Seq<char>, Seq<char>>::empty(),
    {
        Fields { entries: Vec::new() }
    }

    /// Sets `key` to `value`.
    pub fn insert(&mut self, key: String, value: String)
        ensures
            final(self)@ == old(self)@.insert(key@, value@),
    {
        let ghost old_entries = self.entries@;
        self.entries.push((key, value));
        assert(self.entries@.drop_last() =~= old_entries);
    }

    /// Drops `key` and its value.
    pub fn remove(&mut self, key: &str)
        ensures
            final(self)@ == old(self)@.remove(key@),
    {
        let ghost src = self.entries@;
        let mut kept: Vec<(String, String)> = Vec::new();
        let mut i: usize = 0;
        while i < self.entries.len()
            invariant
                i <= self.entries.len(),
                self.entries@ == src,
                assignments_map(kept@) == assignments_map(src.take(i as int)).remove(key@),
            decreases self.entries.len() - i,
        {
            let e = &self.entries[i];
            proof {
                assert(src.take(i + 1).drop_last() =~= src.take(i as int));
                assert(src.take(i + 1).last() == src[i as int]);
            }
            if !str_eq(e.0.as_str(), key) {
                let ghost before = kept@;
                kept.push((e.0.clone(), e.1.clone()));
                proof {
                    assert(kept@.drop_last() =~= before);
                    assert(assignments_map(kept@) =~= assignments_map(src.take(i + 1)).remove(
                        key@,
                    ));
                }
            } else {
                assert(assignments_map(kept@) =~= assignments_map(src.take(i + 1)).remove(key@));
            }
            i = i + 1;
        }
        assert(src.take(src.len() as int) =~= src);
        self.entries = kept;
    }

    /// Sets `key` to `value` unless it is already set.
    pub fn insert_if_absent(&mut self, key: String, value: String)
        ensures
            final(self)@ == if old(self)@.contains_key(key@) {
                old(self)@
            } else {
                old(self)@.insert(key@, value@)
            },
    {
        let present = self.get(key.as_str()).is_some();
        if !present {
            self.insert(key, value);
        }
    }

    /// The value of `key`, if set.
    pub fn get(&self, key: &str) -> (r: Option<&String>)
        ensures
            r is Some <==> self@.contains_key(key@),
            r matches Some(v) ==> v@ == self@[key@],
    {
        let mut i = self.entries.len();
        while i > 0
            invariant
                i <= self.entries.len(),
                forall|j: int| i <= j < self.entries.len() ==> self.entries@[j].0@ != key@,
            decreases i,
        {
            let e = &self.entries[i - 1];
            if str_eq(e.0.as_str(), key) {
                proof {
                    lemma_last_assignment(self.entries@, i - 1, key@);
                }
                return Some(&e.1);
            }
            i = i - 1;
        }
        proof {
            lemma_no_assignment(self.entries@, key@);
        }
        None
    }
}

} // verus!
