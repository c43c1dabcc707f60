//! Character-sequence helpers shared by the parsers and formatters of the
//! library. Every helper works on `Vec<char>` / `Seq<char>` and is specified
//! by a spec function over `Seq<char>`.
use vstd::prelude::*;

verus! {

broadcast use vstd::seq_lib::group_seq_properties;

/// Appends one character to a `String` (std `String::push`).
#[verifier::external_body]
fn string_push(s: &mut String, c: char)
    ensures
        final(s)@ == old(s)@.push(c),
{
    s.push(c);
}

/// The characters of `s`, in order.
pub fn chars_of(s: &str) -> (v: Vec<char>)
    ensures
        v@ == s@,
{
    broadcast use vstd::string::group_string_axioms;
    let mut v: Vec<char> = Vec::new();
    for c in it: s.chars()
        invariant
            v@ == it.seq().take(it.index() as int),
    {
        v.push(c);
        assert(it.seq().take(it.index() + 1) =~= it.seq().take(it.index() as int).push(c));
    }
    assert(v@ =~= s@);
    v
}

/// A `String` holding exactly the characters of `v`.
pub fn string_of(v: &Vec<char>) -> (s: String)
    ensures
        s@ == v@,
{
    let mut s = String::new();
    let mut i: usize = 0;
    while i < v.len()
        invariant
            i <= v.len(),
            s@ == v@.take(i as int),
        decreases v.len() - i,
    {
        string_push(&mut s, v[i]);
        assert(v@.take(i + 1) =~= v@.take(i as int).push(v@[i as int]));
        i = i + 1;
    }
    assert(v@.take(v.len() as int) =~= v@);
    s
}

/// Appends the characters of `s` to `out`.
pub fn push_str(out: &mut Vec<char>, s: &str)
    ensures
        final(out)@ == old(out)@ + s@,
{
    let v = chars_of(s);
    push_all(out, &v);
}

/// Appends the characters of `v` to `out`.
pub fn push_all(out: &mut Vec<char>, v: &Vec<char>)
    ensures
        final(out)@ == old(out)@ + v@,
{
    let ghost start = out@;
    let mut i: usize = 0;
    while i < v.len()
        invariant
            i <= v.len(),
            out@ == start + v@.take(i as int),
        decreases v.len() - i,
    {
        out.push(v[i]);
        assert(v@.take(i + 1) =~= v@.take(i as int).push(v@[i as int]));
        i = i + 1;
    }
    assert(v@.take(v.len() as int) =~= v@);
}

/// The decimal digit character for `d < 10`.
pub open spec fn digit_char(d: nat) -> char {
    if d == 0 { '0' }
    else if d == 1 { '1' }
    else if d == 2 { '2' }
    else if d == 3 { '3' }
    else if d == 4 { '4' }
    else if d == 5 { '5' }
    else if d == 6 { '6' }
    else if d == 7 { '7' }
    else if d == 8 { '8' }
    else { '9' }
}

/// The shortest decimal rendering of `n` (what `n.to_string()` prints).
pub open spec fn decimal(n: nat) -> Seq<char>
    decreases n,
{
    if n < 10 {
        seq![digit_char(n)]
    } else {
        decimal(n / 10).push(digit_char(n % 10))
    }
}

fn digit_of(d: u64) -> (c: char)
    requires
        d < 10,
    ensures
        c == digit_char(d as nat),
{
    if d == 0 { '0' }
    else if d == 1 { '1' }
    else if d == 2 { '2' }
    else if d == 3 { '3' }
    else if d == 4 { '4' }
    else if d == 5 { '5' }
    else if d == 6 { '6' }
    else if d == 7 { '7' }
    else if d == 8 { '8' }
    else { '9' }
}

/// Appends the decimal rendering of `n` to `out`.
pub fn push_decimal(out: &mut Vec<char>, n: u64)
    ensures
        final(out)@ == old(out)@ + decimal(n as nat),
    decreases n,
{
    if n >= 10 {
        push_decimal(out, n / 10);
    }
    out.push(digit_of(n % 10));
}

/// The decimal rendering of `n` as a `String`.
pub fn decimal_string(n: u64) -> (s: String)
    ensures
        s@ == decimal(n as nat),
{
    let mut v: Vec<char> = Vec::new();
    push_decimal(&mut v, n);
    assert(v@ =~= decimal(n as nat));
    string_of(&v)
}

} // verus!

verus! {

/// An optional string taken by its characters.
pub open spec fn opt_chars(o: Option<String>) -> Option<Seq<char>> {
    match o {
        Some(s) => Some(s@),
        None => None,
    }
}

} // verus!

verus! {

/// The characters `s[a..b]` as a new vector.
pub fn slice(v: &Vec<char>, a: usize, b: usize) -> (r: Vec<char>)
    requires
        a <= b <= v.len(),
    ensures
        r@ == v@.subrange(a as int, b as int),
{
    let mut r: Vec<char> = Vec::new();
    let mut i = a;
    while i < b
        invariant
            a <= i <= b <= v.len(),
            r@ == v@.subrange(a as int, i as int),
        decreases b - i,
    {
        r.push(v[i]);
        assert(v@.subrange(a as int, i + 1) =~= v@.subrange(a as int, i as int).push(v@[i as int]));
        i = i + 1;
    }
    r
}

/// Whether `pat` occurs in `s` starting at index `i`.
pub fn matches_at(s: &Vec<char>, i: usize, pat: &Vec<char>) -> (r: bool)
    ensures
        r == (i + pat.len() <= s.len() && s@.subrange(i as int, i + pat.len()) == pat@),
{
    if i > s.len() || pat.len() > s.len() - i {
        return false;
    }
    let mut j: usize = 0;
    while j < pat.len()
        invariant
            i + pat.len() <= s.len(),
            j <= pat.len(),
            forall|k: int| 0 <= k < j ==> s@[i + k] == pat@[k],
        decreases pat.len() - j,
    {
        if s[i + j] != pat[j] {
            assert(s@.subrange(i as int, i + pat.len())[j as int] != pat@[j as int]);
            return false;
        }
        j = j + 1;
    }
    assert(s@.subrange(i as int, i + pat.len()) =~= pat@);
    true
}

/// Whether `s` starts with `p`.
pub open spec fn starts_with(s: Seq<char>, p: Seq<char>) -> bool {
    p.len() <= s.len() && s.take(p.len() as int) == p
}

/// Whether `s` ends with `p`.
pub open spec fn ends_with(s: Seq<char>, p: Seq<char>) -> bool {
    p.len() <= s.len() && s.skip(s.len() - p.len()) == p
}

/// Whether `p` occurs anywhere in `s`.
pub open spec fn contains(s: Seq<char>, p: Seq<char>) -> bool {
    exists|i: int| 0 <= i && i + p.len() <= s.len() && #[trigger] s.subrange(i, i + p.len()) == p
}

pub fn vec_starts_with(s: &Vec<char>, p: &Vec<char>) -> (r: bool)
    ensures
        r == starts_with(s@, p@),
{
    let r = matches_at(s, 0, p);
    assert(r ==> s@.take(p.len() as int) =~= s@.subrange(0, p.len() as int));
    assert(p.len() <= s.len() ==> s@.take(p.len() as int) =~= s@.subrange(0, p.len() as int));
    r
}

pub fn vec_ends_with(s: &Vec<char>, p: &Vec<char>) -> (r: bool)
    ensures
        r == ends_with(s@, p@),
{
    if p.len() > s.len() {
        return false;
    }
    let i = s.len() - p.len();
    let r = matches_at(s, i, p);
    assert(s@.skip(i as int) =~= s@.subrange(i as int, i + p.len()));
    r
}

pub fn vec_contains(s: &Vec<char>, p: &Vec<char>) -> (r: bool)
    ensures
        r == contains(s@, p@),
{
    if p.len() > s.len() {
        return false;
    }
    let last = s.len() - p.len();
    let mut i: usize = 0;
    while i <= last
        invariant
            last + p.len() == s.len(),
            i <= last + 1,
            forall|k: int| 0 <= k < i ==> #[trigger] s@.subrange(k, k + p.len()) != p@,
        decreases last + 1 - i,
    {
        if matches_at(s, i, p) {
            return true;
        }
        if i == last {
            return false;
        }
        i = i + 1;
    }
    false
}

/// `s` with every non-overlapping occurrence of `pat`, scanned from the
/// left, replaced by `rep` (what `str::replace` does for a non-empty `pat`).
pub open spec fn replace_all(s: Seq<char>, pat: Seq<char>, rep: Seq<char>) -> Seq<char>
    decreases s.len(),
{
    if pat.len() == 0 || s.len() < pat.len() {
        s
    } else if s.take(pat.len() as int) == pat {
        rep + replace_all(s.skip(pat.len() as int), pat, rep)
    } else {
        seq![s[0]] + replace_all(s.skip(1), pat, rep)
    }
}

/// Replaces every occurrence of `pat` in `s` by `rep`.
pub fn replace_chars(s: &Vec<char>, pat: &Vec<char>, rep: &Vec<char>) -> (r: Vec<char>)
    requires
        pat.len() > 0,
    ensures
        r@ == replace_all(s@, pat@, rep@),
{
    let mut out: Vec<char> = Vec::new();
    let mut i: usize = 0;
    let n = s.len();
    while i < n
        invariant
            n == s.len(),
            pat.len() > 0,
            i <= n,
            out@ + replace_all(s@.skip(i as int), pat@, rep@) == replace_all(s@, pat@, rep@),
        decreases n - i,
    {
        let ghost rest = s@.skip(i as int);
        if matches_at(s, i, pat) {
            assert(rest.take(pat.len() as int) =~= s@.subrange(i as int, i + pat.len()));
            assert(rest.skip(pat.len() as int) =~= s@.skip(i + pat.len()));
            let ghost old_out = out@;
            push_all(&mut out, rep);
            assert(out@ + replace_all(s@.skip(i + pat.len()), pat@, rep@) =~= old_out
                + replace_all(rest, pat@, rep@));
            i = i + pat.len();
        } else {
            assert(rest.skip(1) =~= s@.skip(i + 1));
            proof {
                if rest.len() >= pat@.len() {
                    assert(rest.take(pat.len() as int) =~= s@.subrange(i as int, i + pat.len()));
                } else {
                    assert(replace_all(rest.skip(1), pat@, rep@) == rest.skip(1));
                    assert(rest =~= seq![rest[0]] + rest.skip(1));
                }
            }
            let ghost old_out = out@;
            out.push(s[i]);
            assert(out@ + replace_all(s@.skip(i + 1), pat@, rep@) =~= old_out
                + replace_all(rest, pat@, rep@));
            i = i + 1;
        }
    }
    assert(s@.skip(n as int) =~= Seq::<char>::empty());
    assert(out@ + Seq::<char>::empty() =~= out@);
    out
}


} // verus!

verus! {

/// Unicode `White_Space`, the set that `char::is_whitespace` tests.
pub open spec fn is_ws(c: char) -> bool {
    let u = c as u32;
    (0x9 <= u <= 0xD) || u == 0x20 || u == 0x85 || u == 0xA0 || u == 0x1680 || (0x2000 <= u
        <= 0x200A) || u == 0x2028 || u == 0x2029 || u == 0x202F || u == 0x205F || u == 0x3000
}

pub fn is_whitespace(c: char) -> (r: bool)
    ensures
        r == is_ws(c),
{
    let u = c as u32;
    (0x9 <= u && u <= 0xD) || u == 0x20 || u == 0x85 || u == 0xA0 || u == 0x1680 || (0x2000 <= u
        && u <= 0x200A) || u == 0x2028 || u == 0x2029 || u == 0x202F || u == 0x205F || u == 0x3000
}

/// The character classes the parsers split and trim on.
#[derive(Clone, Copy)]
pub enum CharClass {
    Whitespace,
    Slash,
    QueryOrFragment,
    Newline,
    Tab,
}

pub open spec fn in_class(c: char, cls: CharClass) -> bool {
    match cls {
        CharClass::Whitespace => is_ws(c),
        CharClass::Slash => c == '/',
        CharClass::QueryOrFragment => c == '?' || c == '#',
        CharClass::Newline => c == '\n',
        CharClass::Tab => c == '\t',
    }
}

pub fn char_in_class(c: char, cls: CharClass) -> (r: bool)
    ensures
        r == in_class(c, cls),
{
    match cls {
        CharClass::Whitespace => is_whitespace(c),
        CharClass::Slash => c == '/',
        CharClass::QueryOrFragment => c == '?' || c == '#',
        CharClass::Newline => c == '\n',
        CharClass::Tab => c == '\t',
    }
}

/// Length of the longest prefix of `s` whose characters are (when `inside`)
/// or are not (when `!inside`) in `cls`.
pub open spec fn lead_len(s: Seq<char>, cls: CharClass, inside: bool) -> nat
    decreases s.len(),
{
    if s.len() > 0 && in_class(s[0], cls) == inside {
        1 + lead_len(s.drop_first(), cls, inside)
    } else {
        0
    }
}

/// Length of the longest suffix of `s` whose characters are (when `inside`)
/// or are not (when `!inside`) in `cls`.
pub open spec fn trail_len(s: Seq<char>, cls: CharClass, inside: bool) -> nat
    decreases s.len(),
{
    if s.len() > 0 && in_class(s.last(), cls) == inside {
        1 + trail_len(s.drop_last(), cls, inside)
    } else {
        0
    }
}

/// `lead_len` is the position of the first character that leaves the run.
pub proof fn lemma_lead_len(s: Seq<char>, cls: CharClass, inside: bool, i: int)
    requires
        0 <= i <= s.len(),
        forall|j: int| 0 <= j < i ==> in_class(#[trigger] s[j], cls) == inside,
        i == s.len() || in_class(s[i], cls) != inside,
    ensures
        lead_len(s, cls, inside) == i,
    decreases i,
{
    if i > 0 {
        let t = s.drop_first();
        assert forall|j: int| 0 <= j < i - 1 implies in_class(#[trigger] t[j], cls) == inside by {
            assert(t[j] == s[j + 1]);
        }
        if i < s.len() {
            assert(t[i - 1] == s[i]);
        }
        lemma_lead_len(t, cls, inside, i - 1);
    }
}

/// `trail_len` counts back to the last character that leaves the run.
pub proof fn lemma_trail_len(s: Seq<char>, cls: CharClass, inside: bool, i: int)
    requires
        0 <= i <= s.len(),
        forall|j: int| s.len() - i <= j < s.len() ==> in_class(#[trigger] s[j], cls) == inside,
        i == s.len() || in_class(s[s.len() - 1 - i], cls) != inside,
    ensures
        trail_len(s, cls, inside) == i,
    decreases i,
{
    if i > 0 {
        let t = s.drop_last();
        assert forall|j: int| t.len() - (i - 1) <= j < t.len() implies in_class(
            #[trigger] t[j],
            cls,
        ) == inside by {
            assert(t[j] == s[j]);
        }
        if i < s.len() {
            assert(t[t.len() - 1 - (i - 1)] == s[s.len() - 1 - i]);
        }
        lemma_trail_len(t, cls, inside, i - 1);
    }
}

/// `s` without its leading characters of `cls` (`trim_start_matches`).
pub open spec fn trim_start(s: Seq<char>, cls: CharClass) -> Seq<char> {
    s.skip(lead_len(s, cls, true) as int)
}

/// `s` without its trailing characters of `cls` (`trim_end_matches`).
pub open spec fn trim_end(s: Seq<char>, cls: CharClass) -> Seq<char> {
    s.take(s.len() - trail_len(s, cls, true))
}

/// `s` without leading and trailing whitespace (`str::trim`).
pub open spec fn trim(s: Seq<char>) -> Seq<char> {
    trim_end(trim_start(s, CharClass::Whitespace), CharClass::Whitespace)
}

/// The part of `s` before its first character of `cls` (all of `s` when it
/// has none): the first item of `str::split` on that class.
pub open spec fn before_first(s: Seq<char>, cls: CharClass) -> Seq<char> {
    s.take(lead_len(s, cls, false) as int)
}

/// Number of leading characters of `v` that are (or are not) in `cls`.
pub fn leading_count(v: &Vec<char>, cls: CharClass, inside: bool) -> (r: usize)
    ensures
        r == lead_len(v@, cls, inside),
        r <= v.len(),
{
    let mut i: usize = 0;
    while i < v.len() && char_in_class(v[i], cls) == inside
        invariant
            i <= v.len(),
            forall|j: int| 0 <= j < i ==> in_class(#[trigger] v@[j], cls) == inside,
        decreases v.len() - i,
    {
        i = i + 1;
    }
    proof {
        lemma_lead_len(v@, cls, inside, i as int);
    }
    i
}

/// Number of trailing characters of `v` that are (or are not) in `cls`.
pub fn trailing_count(v: &Vec<char>, cls: CharClass, inside: bool) -> (r: usize)
    ensures
        r == trail_len(v@, cls, inside),
        r <= v.len(),
{
    let mut i: usize = 0;
    while i < v.len() && char_in_class(v[v.len() - 1 - i], cls) == inside
        invariant
            i <= v.len(),
            forall|j: int| v.len() - i <= j < v.len() ==> in_class(#[trigger] v@[j], cls) == inside,
        decreases v.len() - i,
    {
        i = i + 1;
    }
    proof {
        lemma_trail_len(v@, cls, inside, i as int);
    }
    i
}

pub fn vec_trim_start(v: &Vec<char>, cls: CharClass) -> (r: Vec<char>)
    ensures
        r@ == trim_start(v@, cls),
{
    let k = leading_count(v, cls, true);
    let r = slice(v, k, v.len());
    assert(r@ =~= trim_start(v@, cls));
    r
}

pub fn vec_trim_end(v: &Vec<char>, cls: CharClass) -> (r: Vec<char>)
    ensures
        r@ == trim_end(v@, cls),
{
    let k = trailing_count(v, cls, true);
    let r = slice(v, 0, v.len() - k);
    assert(r@ =~= trim_end(v@, cls));
    r
}

pub fn vec_trim(v: &Vec<char>) -> (r: Vec<char>)
    ensures
        r@ == trim(v@),
{
    let a = vec_trim_start(v, CharClass::Whitespace);
    vec_trim_end(&a, CharClass::Whitespace)
}

pub fn vec_before_first(v: &Vec<char>, cls: CharClass) -> (r: Vec<char>)
    ensures
        r@ == before_first(v@, cls),
{
    let k = leading_count(v, cls, false);
    let r = slice(v, 0, k);
    assert(r@ =~= before_first(v@, cls));
    r
}

/// `s` with `pat` removed from its end as many times as it occurs there
/// (`trim_end_matches` with a string pattern).
pub open spec fn strip_suffix_all(s: Seq<char>, pat: Seq<char>) -> Seq<char>
    decreases s.len(),
{
    if pat.len() > 0 && ends_with(s, pat) {
        strip_suffix_all(s.take(s.len() - pat.len()), pat)
    } else {
        s
    }
}

pub fn vec_strip_suffix_all(v: &Vec<char>, pat: &Vec<char>) -> (r: Vec<char>)
    ensures
        r@ == strip_suffix_all(v@, pat@),
{
    let mut cur = slice(v, 0, v.len());
    assert(cur@ =~= v@);
    if pat.len() == 0 {
        return cur;
    }
    while vec_ends_with(&cur, pat)
        invariant
            pat.len() > 0,
            strip_suffix_all(cur@, pat@) == strip_suffix_all(v@, pat@),
        decreases cur.len(),
    {
        cur = slice(&cur, 0, cur.len() - pat.len());
    }
    cur
}

} // verus!

verus! {

/// Whether two strings hold the same characters.
pub fn str_eq(a: &str, b: &str) -> (r: bool)
    ensures
        r == (a@ == b@),
{
    let va = chars_of(a);
    let vb = chars_of(b);
    vec_eq(&va, &vb)
}

/// Whether two character vectors are equal.
pub fn vec_eq(a: &Vec<char>, b: &Vec<char>) -> (r: bool)
    ensures
        r == (a@ == b@),
{
    if a.len() != b.len() {
        return false;
    }
    let mut i: usize = 0;
    while i < a.len()
        invariant
            a.len() == b.len(),
            i <= a.len(),
            forall|k: int| 0 <= k < i ==> a@[k] == b@[k],
        decreases a.len() - i,
    {
        if a[i] != b[i] {
            return false;
        }
        i = i + 1;
    }
    assert(a@ =~= b@);
    true
}

} // verus!

verus! {

/// ASCII lowercase of one character (`char::to_ascii_lowercase`).
pub open spec fn ascii_lower(c: char) -> char {
    if 'A' <= c && c <= 'Z' {
        ((c as u32) + 32) as char
    } else {
        c
    }
}

/// ASCII lowercase of a string (`str::to_ascii_lowercase`).
pub open spec fn lower(s: Seq<char>) -> Seq<char> {
    s.map_values(|c: char| ascii_lower(c))
}

pub fn vec_ascii_lowercase(v: &Vec<char>) -> (r: Vec<char>)
    ensures
        r@ == lower(v@),
{
    let mut r: Vec<char> = Vec::new();
    let mut i: usize = 0;
    while i < v.len()
        invariant
            i <= v.len(),
            r@ == lower(v@.take(i as int)),
        decreases v.len() - i,
    {
        let c = v[i];
        let l = if 'A' <= c && c <= 'Z' {
            ((c as u32) + 32) as u8 as char
        } else {
            c
        };
        assert(l == ascii_lower(c)) by {
            if 'A' <= c && c <= 'Z' {
                assert(((c as u32) + 32) as u8 as char == ((c as u32) + 32) as char);
            }
        }
        r.push(l);
        assert(lower(v@.take(i + 1)) =~= lower(v@.take(i as int)).push(ascii_lower(v@[i as int])));
        i = i + 1;
    }
    assert(v@.take(v.len() as int) =~= v@);
    r
}

} // verus!

verus! {

/// The whitespace-separated words of `s` (`str::split_whitespace`).
pub open spec fn words(s: Seq<char>) -> Seq<Seq<char>>
    decreases s.len(),
{
    let t = trim_start(s, CharClass::Whitespace);
    if t.len() == 0 {
        seq![]
    } else {
        let k = lead_len(t, CharClass::Whitespace, false);
        if k == 0 {
            seq![]
        } else {
            proof {
                lemma_lead_len_bound(s, CharClass::Whitespace, true);
                lemma_lead_len_bound(t, CharClass::Whitespace, false);
            }
            seq![t.take(k as int)] + words(t.skip(k as int))
        }
    }
}

/// A leading run is never longer than the sequence.
pub proof fn lemma_lead_len_bound(s: Seq<char>, cls: CharClass, inside: bool)
    ensures
        lead_len(s, cls, inside) <= s.len(),
    decreases s.len(),
{
    if s.len() > 0 && in_class(s[0], cls) == inside {
        lemma_lead_len_bound(s.drop_first(), cls, inside);
    }
}

/// A string view of each string of a vector.
pub open spec fn strings_chars(v: Seq<String>) -> Seq<Seq<char>> {
    v.map_values(|s: String| s@)
}

/// The whitespace-separated words of `s`.
pub fn split_whitespace(s: &str) -> (r: Vec<String>)
    ensures
        strings_chars(r@) == words(s@),
{
    let v = chars_of(s);
    let mut cur = v;
    let mut out: Vec<String> = Vec::new();
    loop
        invariant
            strings_chars(out@) + words(cur@) == words(s@),
        decreases cur.len(),
    {
        let t = vec_trim_start(&cur, CharClass::Whitespace);
        proof {
            lemma_lead_len_bound(cur@, CharClass::Whitespace, true);
        }
        if t.len() == 0 {
            assert(words(cur@) =~= seq![]);
            assert(strings_chars(out@) + words(cur@) =~= strings_chars(out@));
            return out;
        }
        let k = leading_count(&t, CharClass::Whitespace, false);
        if k == 0 {
            assert(words(cur@) =~= seq![]);
            assert(strings_chars(out@) + words(cur@) =~= strings_chars(out@));
            return out;
        }
        let word = slice(&t, 0, k);
        let rest = slice(&t, k, t.len());
        assert(word@ =~= t@.take(k as int));
        assert(rest@ =~= t@.skip(k as int));
        let ghost old_out = out@;
        out.push(string_of(&word));
        assert(strings_chars(out@) =~= strings_chars(old_out).push(word@));
        assert(words(cur@) == seq![word@] + words(rest@));
        assert(strings_chars(out@) + words(rest@) =~= strings_chars(old_out) + words(cur@));
        cur = rest;
    }
}

} // verus!

verus! {

/// Whether `c` is an ASCII decimal digit.
pub open spec fn is_digit(c: char) -> bool {
    '0' <= c && c <= '9'
}

/// The number the decimal digits `s` spell.
pub open spec fn digits_value(s: Seq<char>) -> nat
    decreases s.len(),
{
    if s.len() == 0 {
        0
    } else {
        digits_value(s.drop_last()) * 10 + ((s.last() as int - '0' as int) as nat)
    }
}

pub open spec fn all_digits(s: Seq<char>) -> bool {
    forall|i: int| 0 <= i < s.len() ==> is_digit(#[trigger] s[i])
}

/// The digits of an unsigned number: an optional leading `+` dropped.
pub open spec fn unsigned_digits(s: Seq<char>) -> Seq<char> {
    if s.len() > 0 && s[0] == '+' {
        s.drop_first()
    } else {
        s
    }
}

/// What `str::parse::<u64>` gives: the value of a non-empty run of decimal
/// digits, after an optional `+`, that fits in a `u64`.
pub open spec fn parse_u64_spec(s: Seq<char>) -> Option<u64> {
    let d = unsigned_digits(s);
    if d.len() > 0 && all_digits(d) && digits_value(d) <= u64::MAX {
        Some(digits_value(d) as u64)
    } else {
        None
    }
}

/// A longer run of digits is worth at least as much as its prefix.
proof fn lemma_digits_prefix(s: Seq<char>, i: int)
    requires
        0 <= i <= s.len(),
        all_digits(s),
    ensures
        digits_value(s.take(i)) <= digits_value(s),
    decreases s.len() - i,
{
    if i < s.len() {
        lemma_digits_prefix(s, i + 1);
        assert(s.take(i + 1).drop_last() =~= s.take(i));
        assert(is_digit(s[i]));
    } else {
        assert(s.take(i) =~= s);
    }
}

/// Parses an unsigned decimal number as `str::parse::<u64>` does.
pub fn parse_u64(s: &str) -> (r: Option<u64>)
    ensures
        r == parse_u64_spec(s@),
{
    let all = chars_of(s);
    let start: usize = if all.len() > 0 && all[0] == '+' { 1 } else { 0 };
    let d = slice(&all, start, all.len());
    assert(d@ =~= unsigned_digits(s@));
    if d.len() == 0 {
        return None;
    }
    let mut acc: u64 = 0;
    let mut i: usize = 0;
    while i < d.len()
        invariant
            i <= d.len(),
            d@ == unsigned_digits(s@),
            d@.len() > 0,
            all_digits(d@.take(i as int)),
            acc == digits_value(d@.take(i as int)),
        decreases d.len() - i,
    {
        let c = d[i];
        assert(d@.take(i + 1).drop_last() =~= d@.take(i as int));
        if !('0' <= c && c <= '9') {
            assert(!is_digit(d@[i as int]));
            return None;
        }
        let digit: u64 = (c as u32 - '0' as u32) as u64;
        assert(digits_value(d@.take(i + 1)) == acc * 10 + digit);
        let next = match acc.checked_mul(10) {
            Some(t) => t.checked_add(digit),
            None => None,
        };
        match next {
            Some(n) => {
                acc = n;
                assert(all_digits(d@.take(i + 1)));
            },
            None => {
                proof {
                    if all_digits(d@) {
                        lemma_digits_prefix(d@, i + 1);
                    }
                }
                return None;
            },
        }
        i = i + 1;
    }
    assert(d@.take(d.len() as int) =~= d@);
    Some(acc)
}

} // verus!

verus! {

/// Whether `a` sorts before `b` in the order of `str`: character by
/// character by code point (which is the order of their UTF-8 bytes),
/// a proper prefix first.
pub open spec fn char_seq_lt(a: Seq<char>, b: Seq<char>) -> bool
    decreases a.len(),
{
    if a.len() == 0 {
        b.len() > 0
    } else if b.len() == 0 {
        false
    } else if a[0] != b[0] {
        a[0] < b[0]
    } else {
        char_seq_lt(a.drop_first(), b.drop_first())
    }
}

/// No text sorts before itself.
pub proof fn lemma_lt_irreflexive(a: Seq<char>)
    ensures
        !char_seq_lt(a, a),
    decreases a.len(),
{
    if a.len() > 0 {
        lemma_lt_irreflexive(a.drop_first());
    }
}

/// Sorting before is transitive.
pub proof fn lemma_lt_transitive(a: Seq<char>, b: Seq<char>, c: Seq<char>)
    requires
        char_seq_lt(a, b),
        char_seq_lt(b, c),
    ensures
        char_seq_lt(a, c),
    decreases a.len(),
{
    if a.len() > 0 && b.len() > 0 && c.len() > 0 && a[0] == b[0] && b[0] == c[0] {
        lemma_lt_transitive(a.drop_first(), b.drop_first(), c.drop_first());
    }
}

/// Of two different texts, one sorts before the other.
pub proof fn lemma_lt_total(a: Seq<char>, b: Seq<char>)
    requires
        a != b,
    ensures
        char_seq_lt(a, b) || char_seq_lt(b, a),
    decreases a.len(),
{
    if a.len() > 0 && b.len() > 0 && a[0] == b[0] {
        if a.drop_first() == b.drop_first() {
            assert(a =~= seq![a[0]] + a.drop_first());
            assert(b =~= seq![b[0]] + b.drop_first());
        } else {
            lemma_lt_total(a.drop_first(), b.drop_first());
        }
    } else if a.len() == 0 && b.len() == 0 {
        assert(a =~= b);
    }
}

/// Two texts never sort before each other.
pub proof fn lemma_lt_asymmetric(a: Seq<char>, b: Seq<char>)
    requires
        char_seq_lt(a, b),
    ensures
        !char_seq_lt(b, a),
{
    if char_seq_lt(b, a) {
        lemma_lt_transitive(a, b, a);
        lemma_lt_irreflexive(a);
    }
}

/// Whether `a` sorts before `b` (`a < b` on `str`).
pub fn str_lt(a: &str, b: &str) -> (r: bool)
    ensures
        r == char_seq_lt(a@, b@),
{
    let x = chars_of(a);
    let y = chars_of(b);
    let mut i: usize = 0;
    assert(x@.skip(0) =~= x@ && y@.skip(0) =~= y@);
    while i < x.len() && i < y.len()
        invariant
            i <= x.len(),
            i <= y.len(),
            x@ == a@,
            y@ == b@,
            char_seq_lt(x@, y@) == char_seq_lt(x@.skip(i as int), y@.skip(i as int)),
        decreases x.len() - i,
    {
        assert(x@.skip(i as int)[0] == x@[i as int]);
        assert(y@.skip(i as int)[0] == y@[i as int]);
        if x[i] != y[i] {
            return x[i] < y[i];
        }
        assert(x@.skip(i as int).drop_first() =~= x@.skip(i + 1));
        assert(y@.skip(i as int).drop_first() =~= y@.skip(i + 1));
        i = i + 1;
    }
    assert(x@.skip(i as int).len() == 0 || y@.skip(i as int).len() == 0);
    y.len() > i
}

/// Whether the strings are in strictly increasing order.
pub open spec fn strictly_sorted(s: Seq<Seq<char>>) -> bool {
    forall|i: int, j: int| 0 <= i < j < s.len() ==> char_seq_lt(#[trigger] s[i], #[trigger] s[j])
}

/// Adds `x` to a strictly sorted list of strings, where it belongs, unless
/// it is already there.
pub fn insert_sorted(v: &mut Vec<String>, x: String)
    requires
        strictly_sorted(strings_chars(old(v)@)),
    ensures
        strictly_sorted(strings_chars(final(v)@)),
        strings_chars(final(v)@).to_set() == strings_chars(old(v)@).to_set().insert(x@),
{
    let ghost s0 = strings_chars(v@);
    let mut p: usize = 0;
    while p < v.len() && str_lt(v[p].as_str(), x.as_str())
        invariant
            p <= v.len(),
            v@ == old(v)@,
            forall|i: int| 0 <= i < p ==> char_seq_lt(#[trigger] v@[i]@, x@),
        decreases v.len() - p,
    {
        p = p + 1;
    }
    if p < v.len() && str_eq(v[p].as_str(), x.as_str()) {
        assert(s0[p as int] == x@);
        assert(s0.to_set().insert(x@) =~= s0.to_set());
        return;
    }
    proof {
        if p < v.len() {
            assert(!char_seq_lt(v@[p as int]@, x@));
            lemma_lt_total(v@[p as int]@, x@);
            assert(char_seq_lt(x@, s0[p as int]));
            assert forall|j: int| p <= j < s0.len() implies char_seq_lt(x@, #[trigger] s0[j]) by {
                if j > p {
                    lemma_lt_transitive(x@, s0[p as int], s0[j]);
                }
            }
        }
    }
    let ghost xv = x@;
    v.insert(p, x);
    proof {
        let s1 = strings_chars(v@);
        assert(s1 =~= s0.insert(p as int, xv));
        assert forall|i: int, j: int| 0 <= i < j < s1.len() implies char_seq_lt(
            #[trigger] s1[i],
            #[trigger] s1[j],
        ) by {
            if j < p {
                assert(s1[i] == s0[i] && s1[j] == s0[j]);
            } else if j == p {
                assert(s1[i] == s0[i]);
            } else if i < p {
                assert(s1[i] == s0[i] && s1[j] == s0[j - 1]);
                if j - 1 >= p {
                    assert(char_seq_lt(xv, s0[j - 1]));
                    lemma_lt_transitive(s0[i], xv, s0[j - 1]);
                }
            } else if i == p {
                assert(s1[j] == s0[j - 1]);
            } else {
                assert(s1[i] == s0[i - 1] && s1[j] == s0[j - 1]);
            }
        }
        assert forall|e: Seq<char>| s1.to_set().contains(e) <==> s0.to_set().insert(xv).contains(
            e,
        ) by {
            if s1.to_set().contains(e) {
                let k = choose|k: int| 0 <= k < s1.len() && s1[k] == e;
                if k < p {
                    assert(s0[k] == e);
                } else if k > p {
                    assert(s0[k - 1] == e);
                }
            }
            if s0.to_set().contains(e) {
                let k = choose|k: int| 0 <= k < s0.len() && s0[k] == e;
                if k < p {
                    assert(s1[k] == e);
                } else {
                    assert(s1[k + 1] == e);
                }
            }
            if e == xv {
                assert(s1[p as int] == e);
            }
        }
        assert(s1.to_set() =~= s0.to_set().insert(xv));
    }
}

} // verus!
