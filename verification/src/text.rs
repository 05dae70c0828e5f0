//! Text helpers: decoding process output and comparing it modulo surrounding
//! white space.

use vstd::prelude::*;
use vstd::std_specs::iter::IteratorSpec;
use vstd::string::*;
use vstd::utf8::{decode_utf8, valid_utf8};

verus! {

/// Whether `c` has the Unicode property `White_Space`.
pub open spec fn is_white_space(c: char) -> bool {
    let code = c as u32;
    ||| 0x09 <= code <= 0x0d
    ||| code == 0x20
    ||| code == 0x85
    ||| code == 0xa0
    ||| code == 0x1680
    ||| 0x2000 <= code <= 0x200a
    ||| code == 0x2028
    ||| code == 0x2029
    ||| code == 0x202f
    ||| code == 0x205f
    ||| code == 0x3000
}

/// `s` without its leading white space.
pub open spec fn trim_start(s: Seq<char>) -> Seq<char>
    decreases s.len(),
{
    if s.len() > 0 && is_white_space(s.first()) {
        trim_start(s.drop_first())
    } else {
        s
    }
}

/// `s` without its trailing white space.
pub open spec fn trim_end(s: Seq<char>) -> Seq<char>
    decreases s.len(),
{
    if s.len() > 0 && is_white_space(s.last()) {
        trim_end(s.drop_last())
    } else {
        s
    }
}

/// `s` without the white space at either end.
pub open spec fn trim(s: Seq<char>) -> Seq<char> {
    trim_end(trim_start(s))
}

/// Every character of `s` from `from` up to `to` is white space.
pub open spec fn all_white_space(s: Seq<char>, from: int, to: int) -> bool {
    forall|i: int| from <= i < to ==> is_white_space(#[trigger] s[i])
}

/// Decides whether a character is white space.
pub fn char_is_white_space(c: char) -> (b: bool)
    ensures
        b == is_white_space(c),
{
    let code: u32 = c as u32;
    (0x09 <= code && code <= 0x0d) || code == 0x20 || code == 0x85 || code == 0xa0 || code
        == 0x1680 || (0x2000 <= code && code <= 0x200a) || code == 0x2028 || code == 0x2029
        || code == 0x202f || code == 0x205f || code == 0x3000
}

/// Dropping `k` leading white-space characters does not change what
/// `trim_start` leaves.
pub proof fn lemma_trim_start_skips(s: Seq<char>, k: int)
    requires
        0 <= k <= s.len(),
        all_white_space(s, 0, k),
    ensures
        trim_start(s) == trim_start(s.subrange(k, s.len() as int)),
    decreases k,
{
    if k == 0 {
        assert(s.subrange(0, s.len() as int) =~= s);
    } else {
        let rest = s.drop_first();
        assert(all_white_space(rest, 0, k - 1));
        lemma_trim_start_skips(rest, k - 1);
        assert(rest.subrange(k - 1, rest.len() as int) =~= s.subrange(k, s.len() as int));
    }
}

/// Dropping trailing white-space characters down to length `k` does not
/// change what `trim_end` leaves.
pub proof fn lemma_trim_end_skips(s: Seq<char>, k: int)
    requires
        0 <= k <= s.len(),
        all_white_space(s, k, s.len() as int),
    ensures
        trim_end(s) == trim_end(s.subrange(0, k)),
    decreases s.len() - k,
{
    if k == s.len() {
        assert(s.subrange(0, k) =~= s);
    } else {
        let rest = s.drop_last();
        assert(all_white_space(rest, k, rest.len() as int));
        lemma_trim_end_skips(rest, k);
        assert(rest.subrange(0, k) =~= s.subrange(0, k));
    }
}

/// Where `start` is the first character that is no white space, and `end`
/// lies behind the last such character, `trim` leaves exactly what lies
/// between the two.
pub proof fn lemma_trim_is_subrange(s: Seq<char>, start: int, end: int)
    requires
        0 <= start <= end <= s.len(),
        all_white_space(s, 0, start),
        all_white_space(s, end, s.len() as int),
        start < s.len() ==> !is_white_space(s[start]),
        start < end ==> !is_white_space(s[end - 1]),
    ensures
        trim(s) == s.subrange(start, end),
{
    let tail = s.subrange(start, s.len() as int);
    lemma_trim_start_skips(s, start);
    assert(trim_start(tail) == tail);
    assert(all_white_space(tail, end - start, tail.len() as int));
    lemma_trim_end_skips(tail, end - start);
    let core = tail.subrange(0, end - start);
    assert(core == s.subrange(start, end));
    assert(trim_end(core) == core);
}

/// The characters of `text`, in order.
pub fn characters(text: &str) -> (chars: Vec<char>)
    ensures
        chars@ == text@,
{
    broadcast use vstd::string::group_string_axioms;

    let mut chars: Vec<char> = Vec::new();
    for c in rest: text.chars()
        invariant
            rest.seq() == text@,
            chars@ == rest.seq().take(rest.index() as int),
    {
        chars.push(c);
    }
    chars
}

/// Decides whether `text`, without the white space at either end, is
/// `expected`.
pub fn trimmed_equals(text: &str, expected: &str) -> (b: bool)
    ensures
        b == (trim(text@) == expected@),
{
    let chars = characters(text);
    let wanted = characters(expected);
    let n: usize = chars.len();
    let mut start: usize = 0;
    while start < n && char_is_white_space(chars[start])
        invariant
            n == chars@.len(),
            start <= n,
            all_white_space(chars@, 0, start as int),
        decreases n - start,
    {
        start = start + 1;
    }
    let mut end: usize = n;
    while end > start && char_is_white_space(chars[end - 1])
        invariant
            n == chars@.len(),
            start <= end <= n,
            all_white_space(chars@, end as int, n as int),
        decreases end,
    {
        end = end - 1;
    }
    proof {
        lemma_trim_is_subrange(chars@, start as int, end as int);
    }
    let m: usize = wanted.len();
    if end - start != m {
        return false;
    }
    let mut i: usize = 0;
    while i < m
        invariant
            n == chars@.len(),
            m == wanted@.len(),
            start <= end <= n,
            end - start == m,
            i <= m,
            chars@ == text@,
            wanted@ == expected@,
            trim(chars@) == chars@.subrange(start as int, end as int),
            forall|j: int| 0 <= j < i ==> chars@[start + j] == wanted@[j],
        decreases m - i,
    {
        if chars[start + i] != wanted[i] {
            return false;
        }
        i = i + 1;
    }
    assert(chars@.subrange(start as int, end as int) =~= wanted@);
    true
}

/// The text that `bytes` encode, where they are well-formed UTF-8.
///
/// Trusted: wraps `std::str::from_utf8`, which accepts exactly the
/// well-formed byte strings and hands back the characters they encode.
#[verifier::external_body]
fn utf8_text<'a>(bytes: &'a [u8]) -> (r: Option<&'a str>)
    ensures
        r.is_some() == valid_utf8(bytes@),
        r matches Some(s) ==> s@ == decode_utf8(bytes@),
{
    std::str::from_utf8(bytes).ok()
}

/// Decodes the captured output of a process.
pub fn decode_output(bytes: &[u8]) -> (r: Option<String>)
    ensures
        r.is_some() == valid_utf8(bytes@),
        r matches Some(s) ==> s@ == decode_utf8(bytes@),
{
    match utf8_text(bytes) {
        Some(s) => Some(String::from_str(s)),
        None => None,
    }
}

} // verus!
