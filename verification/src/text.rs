//! The few string operations of std that the handlers need, with what
//! std's documentation says of them.
use vstd::prelude::*;

verus! {

/// Whether `c` has the Unicode `White_Space` property, by which std's
/// `char::is_whitespace` and `str::trim` go.
pub open spec fn is_white_space(c: char) -> bool {
    let n = c as int;
    ||| 0x9 <= n <= 0xd
    ||| n == 0x20
    ||| n == 0x85
    ||| n == 0xa0
    ||| n == 0x1680
    ||| 0x2000 <= n <= 0x200a
    ||| n == 0x2028
    ||| n == 0x2029
    ||| n == 0x202f
    ||| n == 0x205f
    ||| n == 0x3000
}

/// `s` without its leading white space.
pub open spec fn trim_start_chars(s: Seq<char>) -> Seq<char>
    decreases s.len(),
{
    if s.len() > 0 && is_white_space(s[0]) {
        trim_start_chars(s.drop_first())
    } else {
        s
    }
}

/// `s` without its trailing white space.
pub open spec fn trim_end_chars(s: Seq<char>) -> Seq<char>
    decreases s.len(),
{
    if s.len() > 0 && is_white_space(s.last()) {
        trim_end_chars(s.drop_last())
    } else {
        s
    }
}

/// `s` without its leading and trailing white space.
pub open spec fn trimmed(s: Seq<char>) -> Seq<char> {
    trim_end_chars(trim_start_chars(s))
}

/// Whether `s` begins with `prefix`.
pub open spec fn has_prefix(s: Seq<char>, prefix: Seq<char>) -> bool {
    prefix.len() <= s.len() && s.subrange(0, prefix.len() as int) == prefix
}

/// Trimming white space off the start of a string of white space leaves
/// nothing.
pub proof fn trim_start_of_blank(s: Seq<char>)
    requires
        forall|i: int| 0 <= i < s.len() ==> #[trigger] is_white_space(s[i]),
    ensures
        trim_start_chars(s).len() == 0,
    decreases s.len(),
{
    if s.len() > 0 {
        assert forall|i: int| 0 <= i < s.drop_first().len() implies #[trigger] is_white_space(
            s.drop_first()[i],
        ) by {
            assert(is_white_space(s[i + 1]));
        }
        trim_start_of_blank(s.drop_first());
    }
}

/// What trimming the start leaves is an end of the string, which begins
/// with a character other than white space where anything is left.
pub proof fn trim_start_is_a_suffix(s: Seq<char>)
    ensures
        trim_start_chars(s).len() <= s.len(),
        trim_start_chars(s) == s.subrange(s.len() - trim_start_chars(s).len(), s.len() as int),
        trim_start_chars(s).len() > 0 ==> !is_white_space(trim_start_chars(s)[0]),
    decreases s.len(),
{
    if s.len() > 0 && is_white_space(s[0]) {
        trim_start_is_a_suffix(s.drop_first());
        let t = trim_start_chars(s.drop_first());
        assert(s.drop_first().subrange(s.drop_first().len() - t.len(), s.drop_first().len() as int)
            =~= s.subrange(s.len() - t.len(), s.len() as int));
    } else {
        assert(s.subrange(0, s.len() as int) =~= s);
    }
}

/// What trimming the end leaves is a beginning of the string, which reaches
/// past every character other than white space and ends with one where
/// anything is left.
pub proof fn trim_end_is_a_prefix(s: Seq<char>)
    ensures
        trim_end_chars(s).len() <= s.len(),
        trim_end_chars(s) == s.subrange(0, trim_end_chars(s).len() as int),
        forall|i: int| 0 <= i < s.len() && !is_white_space(#[trigger] s[i]) ==> i < trim_end_chars(
            s,
        ).len(),
        trim_end_chars(s).len() > 0 ==> !is_white_space(trim_end_chars(s).last()),
    decreases s.len(),
{
    if s.len() > 0 && is_white_space(s.last()) {
        trim_end_is_a_prefix(s.drop_last());
        let t = trim_end_chars(s.drop_last());
        assert(s.drop_last().subrange(0, t.len() as int) =~= s.subrange(0, t.len() as int));
        assert forall|i: int| 0 <= i < s.len() && !is_white_space(#[trigger] s[i]) implies i
            < t.len() by {
            assert(i != s.len() - 1);
            assert(s.drop_last()[i] == s[i]);
        }
    } else {
        assert(s.subrange(0, s.len() as int) =~= s);
    }
}

/// Calls `PartialEq::eq` for `str`: whether the two strings hold the same
/// characters.
#[verifier::external_body]
pub(crate) fn str_eq(a: &str, b: &str) -> (r: bool)
    ensures
        r == (a@ == b@),
{
    a == b
}

/// Calls `str::trim`, which std documents as removing the leading and
/// trailing characters that have the `White_Space` property.
#[verifier::external_body]
pub(crate) fn trim(s: &str) -> (r: &str)
    ensures
        r@ == trimmed(s@),
{
    s.trim()
}

/// Calls `str::starts_with` with a string pattern, which std documents as
/// telling whether the pattern is a prefix of the string.
#[verifier::external_body]
pub(crate) fn starts_with(s: &str, prefix: &str) -> (r: bool)
    ensures
        r == has_prefix(s@, prefix@),
{
    s.starts_with(prefix)
}

} // verus!
