//! Small verified helpers over strings and characters, shared by the other
//! modules.

use vstd::prelude::*;
use vstd::string::*;

verus! {

/// Relies on `char::to_string` (the `ToString` impl for `char`): the result is
/// the one-character string holding exactly `c`.
#[verifier::external_body]
pub fn char_to_string(c: char) -> (r: String)
    ensures
        r@ == seq![c],
{
    c.to_string()
}

/// Equality of two string slices, stated over their character views.
pub fn str_eq(a: &str, b: &str) -> (r: bool)
    ensures
        r == (a@ == b@),
{
    let x: String = a.to_owned();
    let y: String = b.to_owned();
    x == y
}

/// `needle` occurs in `hay` starting at character position `i`.
pub open spec fn spec_matches_at(hay: Seq<char>, needle: Seq<char>, i: int) -> bool {
    &&& 0 <= i
    &&& i + needle.len() <= hay.len()
    &&& forall|k: int| 0 <= k < needle.len() ==> hay[i + k] == needle[k]
}

/// `needle` occurs somewhere in `hay` as a contiguous run of characters.
pub open spec fn spec_str_contains(hay: Seq<char>, needle: Seq<char>) -> bool {
    exists|i: int| spec_matches_at(hay, needle, i)
}

/// Substring search: does `needle` occur anywhere in `hay`?
pub fn str_contains(hay: &str, needle: &str) -> (r: bool)
    ensures
        r == spec_str_contains(hay@, needle@),
{
    let n = hay.unicode_len();
    let m = needle.unicode_len();
    if m > n {
        assert(forall|i: int| !spec_matches_at(hay@, needle@, i));
        return false;
    }
    let mut i: usize = 0;
    while i <= n - m
        invariant
            m <= n,
            n == hay@.len(),
            m == needle@.len(),
            i <= n - m + 1,
            forall|p: int| 0 <= p < i ==> !spec_matches_at(hay@, needle@, p),
        decreases n - m + 1 - i,
    {
        let mut j: usize = 0;
        let mut mismatch = false;
        while j < m && !mismatch
            invariant
                m <= n,
                n == hay@.len(),
                m == needle@.len(),
                i + m <= n,
                j <= m,
                !mismatch ==> forall|k: int| 0 <= k < j ==> hay@[i + k] == needle@[k],
                mismatch ==> !spec_matches_at(hay@, needle@, i as int),
            decreases m - j,
        {
            let hc = hay.get_char(i + j);
            let nc = needle.get_char(j);
            if hc != nc {
                mismatch = true;
            }
            j += 1;
        }
        if !mismatch {
            assert(spec_matches_at(hay@, needle@, i as int));
            return true;
        }
        i += 1;
    }
    assert(forall|p: int| spec_matches_at(hay@, needle@, p) ==> 0 <= p < i);
    false
}

/// Does `hay` begin with `prefix`?
pub fn str_starts_with(hay: &str, prefix: &str) -> (r: bool)
    ensures
        r == spec_matches_at(hay@, prefix@, 0),
{
    let n = hay.unicode_len();
    let m = prefix.unicode_len();
    if m > n {
        return false;
    }
    let mut j: usize = 0;
    while j < m
        invariant
            m <= n,
            n == hay@.len(),
            m == prefix@.len(),
            j <= m,
            forall|k: int| 0 <= k < j ==> hay@[k] == prefix@[k],
        decreases m - j,
    {
        if hay.get_char(j) != prefix.get_char(j) {
            assert(!spec_matches_at(hay@, prefix@, 0));
            return false;
        }
        j += 1;
    }
    true
}

/// ASCII lower-case letters are mapped to their upper-case counterpart; every
/// other character is unchanged.
pub open spec fn spec_ascii_upper(c: char) -> char {
    if 'a' <= c <= 'z' {
        ((c as u8) - 0x20) as char
    } else {
        c
    }
}

/// Upper-case an ASCII letter, leaving every other character as it is.
pub fn ascii_upper(c: char) -> (r: char)
    ensures
        r == spec_ascii_upper(c),
{
    if 'a' <= c && c <= 'z' {
        ((c as u8) - 0x20) as char
    } else {
        c
    }
}

/// The ASCII whitespace characters that separate words of a name.
pub open spec fn spec_is_space(c: char) -> bool {
    c == ' ' || c == '\t' || c == '\n' || c == '\r'
}

/// Is `c` an ASCII whitespace character?
pub fn is_space(c: char) -> (r: bool)
    ensures
        r == spec_is_space(c),
{
    c == ' ' || c == '\t' || c == '\n' || c == '\r'
}

/// `v` holds a non-whitespace character.
pub open spec fn spec_has_nonspace(v: Seq<char>) -> bool {
    exists|i: int| 0 <= i < v.len() && !spec_is_space(#[trigger] v[i])
}

/// `i` is the position of the first non-whitespace character of `v`.
pub open spec fn spec_first_nonspace_at(v: Seq<char>, i: int) -> bool {
    &&& 0 <= i < v.len()
    &&& !spec_is_space(v[i])
    &&& forall|k: int| 0 <= k < i ==> spec_is_space(#[trigger] v[k])
}

/// A word of `v` starts at `i`: a non-whitespace character at the start of
/// the string or right after whitespace.
pub open spec fn spec_word_start_at(v: Seq<char>, i: int) -> bool {
    &&& 0 <= i < v.len()
    &&& !spec_is_space(v[i])
    &&& (i == 0 || spec_is_space(v[i - 1]))
}

/// `j` is where the last word of `v` starts.
pub open spec fn spec_last_word_start_at(v: Seq<char>, j: int) -> bool {
    &&& spec_word_start_at(v, j)
    &&& forall|k: int| j < k < v.len() ==> !spec_word_start_at(v, k)
}

/// The decimal digit character for `d` (0 to 9).
pub open spec fn spec_digit_char(d: int) -> char {
    ((48 + d) as u8) as char
}

/// The decimal digits of `n`, most significant first, with no leading zero
/// (a single `'0'` for zero).
pub open spec fn spec_decimal_digits(n: int) -> Seq<char>
    decreases n,
{
    if n < 10 {
        seq![spec_digit_char(n)]
    } else {
        spec_decimal_digits(n / 10).push(spec_digit_char(n % 10))
    }
}

/// The decimal representation of `n`.
pub fn u64_to_string(n: u64) -> (r: String)
    ensures
        r@ == spec_decimal_digits(n as int),
    decreases n,
{
    let d: u8 = (n % 10) as u8;
    let c: char = (48 + d) as char;
    if n < 10 {
        char_to_string(c)
    } else {
        let prefix = u64_to_string(n / 10);
        let digit = char_to_string(c);
        prefix.concat(digit.as_str())
    }
}

} // verus!
