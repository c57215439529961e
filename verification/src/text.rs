//! Text helpers: whitespace trimming and string comparison, stated over
//! sequences of characters.

use vstd::prelude::*;

verus! {

/// The Unicode `White_Space` property, which `char::is_whitespace` and
/// `str::trim` go by.
pub open spec fn is_white_space(c: char) -> bool {
    let n = c as u32;
    ||| 0x9 <= n <= 0xD
    ||| n == 0x20
    ||| n == 0x85
    ||| n == 0xA0
    ||| n == 0x1680
    ||| 0x2000 <= n <= 0x200A
    ||| n == 0x2028
    ||| n == 0x2029
    ||| n == 0x202F
    ||| n == 0x205F
    ||| n == 0x3000
}

/// `s` without its leading whitespace.
pub open spec fn trim_start_spec(s: Seq<char>) -> Seq<char>
    decreases s.len(),
{
    if s.len() > 0 && is_white_space(s[0]) {
        trim_start_spec(s.drop_first())
    } else {
        s
    }
}

/// `s` without its trailing whitespace.
pub open spec fn trim_end_spec(s: Seq<char>) -> Seq<char>
    decreases s.len(),
{
    if s.len() > 0 && is_white_space(s.last()) {
        trim_end_spec(s.drop_last())
    } else {
        s
    }
}

/// `s` without leading and trailing whitespace.
pub open spec fn trimmed(s: Seq<char>) -> Seq<char> {
    trim_end_spec(trim_start_spec(s))
}

/// `str::trim`: the documentation says it returns the string with leading
/// and trailing characters of the Unicode `White_Space` property removed.
#[verifier::external_body]
pub(crate) fn trim_str(s: &str) -> (r: &str)
    ensures
        r@ == trimmed(s@),
{
    s.trim()
}

/// `<str as PartialEq>::eq`: two string slices are equal when they hold the
/// same characters.
#[verifier::external_body]
pub(crate) fn str_equal(a: &str, b: &str) -> (r: bool)
    ensures
        r == (a@ == b@),
{
    a == b
}

/// An owned copy of `s`, trimmed; `None` when nothing but whitespace is left.
pub fn trimmed_non_empty(s: &str) -> (r: Option<String>)
    ensures
        match r {
            Some(t) => t@ == trimmed(s@) && t@.len() > 0,
            None => trimmed(s@).len() == 0,
        },
{
    let t = trim_str(s);
    if t.is_empty() {
        None
    } else {
        Some(t.to_owned())
    }
}

/// Trimming the end keeps a prefix, which ends in a non-whitespace
/// character unless it is empty.
proof fn lemma_trim_end_prefix(t: Seq<char>)
    ensures
        trim_end_spec(t).len() <= t.len(),
        trim_end_spec(t) == t.subrange(0, trim_end_spec(t).len() as int),
        trim_end_spec(t).len() > 0 ==> !is_white_space(trim_end_spec(t).last()),
    decreases t.len(),
{
    if t.len() > 0 && is_white_space(t.last()) {
        lemma_trim_end_prefix(t.drop_last());
        let r = trim_end_spec(t.drop_last());
        assert(t.drop_last().subrange(0, r.len() as int) =~= t.subrange(0, r.len() as int));
    } else {
        assert(t.subrange(0, t.len() as int) =~= t);
    }
}

/// Trimming the start leaves a sequence that starts with a non-whitespace
/// character unless it is empty.
proof fn lemma_trim_start_first(s: Seq<char>)
    ensures
        trim_start_spec(s).len() > 0 ==> !is_white_space(trim_start_spec(s)[0]),
    decreases s.len(),
{
    if s.len() > 0 && is_white_space(s[0]) {
        lemma_trim_start_first(s.drop_first());
    }
}

/// Trimming is idempotent: a trimmed string has nothing left to trim.
pub proof fn law_trim_idempotent(s: Seq<char>)
    ensures
        trimmed(trimmed(s)) == trimmed(s),
{
    let u = trim_start_spec(s);
    let r = trim_end_spec(u);
    lemma_trim_start_first(s);
    lemma_trim_end_prefix(u);
    if r.len() > 0 {
        assert(r[0] == u[0]);
    }
    assert(trim_start_spec(r) == r);
    assert(trim_end_spec(r) == r);
}

} // verus!
