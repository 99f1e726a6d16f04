//! Text helpers: quoting a specifier as a string literal and the substring
//! check the dependency pruner rests on.

use vstd::prelude::*;

verus! {

use vstd::string::StrSliceExecFns;
use vstd::string::StringExecFns;

/// `text` wrapped in double quotes, as it would appear as a string literal
/// in emitted code.
pub open spec fn str_lit_view(text: Seq<char>) -> Seq<char> {
    seq!['"'] + text + seq!['"']
}

/// Wraps `sub_text` in double quotes.
pub fn to_str_lit(sub_text: &str) -> (r: String)
    ensures
        r@ == str_lit_view(sub_text@),
{
    proof {
        reveal_strlit("\"");
    }
    let mut s = String::from_str("\"");
    s.append(sub_text);
    s.append("\"");
    proof {
        assert("\""@ =~= seq!['"']);
        assert(s@ =~= seq!['"'] + sub_text@ + seq!['"']);
    }
    s
}

/// `needle` occurs in `hay` starting at position `i`.
pub open spec fn matches_at(hay: Seq<char>, needle: Seq<char>, i: int) -> bool {
    0 <= i && i + needle.len() <= hay.len() && hay.subrange(i, i + needle.len()) == needle
}

/// `needle` occurs somewhere in `hay`.
pub open spec fn contains_seq(hay: Seq<char>, needle: Seq<char>) -> bool {
    exists|i: int| matches_at(hay, needle, i)
}

/// Whether `needle` occurs in `hay` starting at character position `i`.
fn matches_at_exec(hay: &str, needle: &str, i: usize, hay_len: usize, needle_len: usize) -> (r:
    bool)
    requires
        hay_len == hay@.len(),
        needle_len == needle@.len(),
        i + needle_len <= hay_len,
    ensures
        r == matches_at(hay@, needle@, i as int),
{
    let mut j: usize = 0;
    while j < needle_len
        invariant
            hay_len == hay@.len(),
            needle_len == needle@.len(),
            i + needle_len <= hay_len,
            j <= needle_len,
            forall|k: int| 0 <= k < j ==> hay@[i + k] == needle@[k],
        decreases needle_len - j,
    {
        if hay.get_char(i + j) != needle.get_char(j) {
            assert(hay@.subrange(i as int, i + needle@.len())[j as int] != needle@[j as int]);
            return false;
        }
        j = j + 1;
    }
    assert(hay@.subrange(i as int, i + needle@.len()) =~= needle@);
    true
}

/// Whether `needle` occurs anywhere in `hay`, by character-wise search.
pub fn contains_substr(hay: &str, needle: &str) -> (r: bool)
    ensures
        r == contains_seq(hay@, needle@),
{
    let hay_len = hay.unicode_len();
    let needle_len = needle.unicode_len();
    if needle_len > hay_len {
        assert(forall|i: int| !matches_at(hay@, needle@, i));
        return false;
    }
    let end = hay_len - needle_len;
    let mut i: usize = 0;
    while i < end
        invariant
            hay_len == hay@.len(),
            needle_len == needle@.len(),
            needle_len <= hay_len,
            end == hay_len - needle_len,
            i <= end,
            forall|k: int| 0 <= k < i ==> !matches_at(hay@, needle@, k),
        decreases end - i,
    {
        if matches_at_exec(hay, needle, i, hay_len, needle_len) {
            assert(contains_seq(hay@, needle@));
            return true;
        }
        i = i + 1;
    }
    if matches_at_exec(hay, needle, end, hay_len, needle_len) {
        assert(contains_seq(hay@, needle@));
        return true;
    }
    assert(forall|k: int| end < k ==> !matches_at(hay@, needle@, k));
    false
}

} // verus!
