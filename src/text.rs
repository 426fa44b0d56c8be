//! Character-level text rules: white space, trimming and title truncation.
use vstd::prelude::*;
use vstd::string::*;

verus! {

/// Longest window title, in Unicode code points, that an event carries.
pub const MAX_TITLE_LEN: usize = 250;

/// The characters with the Unicode `White_Space` property.
pub open spec fn is_white_space(c: char) -> bool {
    let n = c as u32;
    ||| 0x9 <= n <= 0xd
    ||| n == 0x20
    ||| n == 0x85
    ||| n == 0xa0
    ||| n == 0x1680
    ||| 0x2000 <= n <= 0x200a
    ||| n == 0x2028
    ||| n == 0x2029
    ||| n == 0x202f
    ||| n == 0x205f
    ||| n == 0x3000
}

/// `s` without its leading white space.
pub open spec fn trim_start(s: Seq<char>) -> Seq<char>
    decreases s.len(),
{
    if s.len() > 0 && is_white_space(s[0]) {
        trim_start(s.drop_first())
    } else {
        s
    }
}

/// `s` without its trailing white space.
pub open spec fn trim_end(s: Seq<char>) -> Seq<char>
    decreases s.len(),
{
    if s.len() > 0 && is_white_space(s.last()) {
        trim_end(s.drop_last())
    } else {
        s
    }
}

/// `s` without leading and trailing white space.
pub open spec fn trimmed(s: Seq<char>) -> Seq<char> {
    trim_end(trim_start(s))
}

/// A title cut down to its first `MAX_TITLE_LEN` code points.
pub open spec fn truncated(s: Seq<char>) -> Seq<char> {
    if s.len() > MAX_TITLE_LEN {
        s.subrange(0, MAX_TITLE_LEN as int)
    } else {
        s
    }
}

/// A title longer than `MAX_TITLE_LEN` code points is cut to exactly that
/// many; a title no longer than that is left as it is.
pub proof fn lemma_truncated_length(s: Seq<char>)
    ensures
        s.len() > MAX_TITLE_LEN ==> truncated(s).len() == MAX_TITLE_LEN && truncated(s)
            == s.subrange(0, MAX_TITLE_LEN as int),
        s.len() <= MAX_TITLE_LEN ==> truncated(s) == s,
{
}

/// Relies on `str::trim`: the sub-slice of `s` without the leading and
/// trailing characters that have the `White_Space` property.
#[verifier::external_body]
pub(crate) fn trim_white_space<'a>(s: &'a str) -> (r: &'a str)
    ensures
        r@ == trimmed(s@),
{
    s.trim()
}

/// Cuts `title` down to at most `MAX_TITLE_LEN` code points, keeping the
/// leading ones; a shorter title comes back unchanged.
pub fn truncate_title(title: &str) -> (r: String)
    ensures
        r@ == truncated(title@),
{
    let n = title.unicode_len();
    if n > MAX_TITLE_LEN {
        String::from_str(title.substring_char(0, MAX_TITLE_LEN))
    } else {
        String::from_str(title)
    }
}

/// The text of an event: name and title joined by one space, then trimmed.
pub open spec fn joined_text(name: Seq<char>, title: Seq<char>) -> Seq<char> {
    trimmed(name + seq![' '] + title)
}

/// Builds `joined_text(name, title)`.
pub fn join_text(name: &str, title: &str) -> (r: String)
    ensures
        r@ == joined_text(name@, title@),
{
    let space = " ";
    proof {
        reveal_strlit(" ");
    }
    let joined = String::from_str(name).concat(space).concat(title);
    assert(joined@ == name@ + seq![' '] + title@);
    String::from_str(trim_white_space(joined.as_str()))
}

/// Whether `a` and `b` hold the same characters.
pub fn same_text(a: &str, b: &str) -> (r: bool)
    ensures
        r == (a@ == b@),
{
    String::from_str(a) == String::from_str(b)
}

} // verus!
