//! Small verified string helpers shared by the value objects: character
//! comparison, ASCII upper-casing and leading-`#` stripping.

use vstd::prelude::*;
use vstd::string::*;

verus! {

/// ASCII lowercase letters map to their uppercase counterpart; every other
/// character is unchanged.
pub open spec fn upper_char(c: char) -> char {
    if 'a' <= c <= 'z' {
        ((c as u8) - 32) as char
    } else {
        c
    }
}

/// A character sequence with each character ASCII-upper-cased.
pub open spec fn upper_seq(s: Seq<char>) -> Seq<char> {
    s.map_values(|c: char| upper_char(c))
}

/// The sequence that remains after removing every leading `#` character.
pub open spec fn strip_hashes(s: Seq<char>) -> Seq<char>
    decreases s.len(),
{
    if s.len() > 0 && s[0] == '#' {
        strip_hashes(s.skip(1))
    } else {
        s
    }
}

/// Stripping leading hashes is the same as skipping the longest `#` prefix.
proof fn lemma_strip_hashes_skip(s: Seq<char>, k: int)
    requires
        0 <= k <= s.len(),
        forall|j: int| 0 <= j < k ==> s[j] == '#',
        k == s.len() || s[k] != '#',
    ensures
        strip_hashes(s) == s.skip(k),
    decreases k,
{
    if k == 0 {
        assert(s.skip(0) =~= s);
    } else {
        lemma_strip_hashes_skip(s.skip(1), k - 1);
        assert(s.skip(1).skip(k - 1) =~= s.skip(k));
    }
}

/// Relies on `String::push`: appends exactly the one character at the end.
#[verifier::external_body]
fn push_char(s: &mut String, c: char)
    ensures
        final(s)@ == old(s)@.push(c),
{
    s.push(c);
}

/// The ASCII-uppercase counterpart of one character.
pub fn to_upper(c: char) -> (r: char)
    ensures
        r == upper_char(c),
{
    if 'a' <= c && c <= 'z' {
        ((c as u8) - 32) as char
    } else {
        c
    }
}

/// Whether two string slices hold the same characters.
pub fn str_eq(a: &str, b: &str) -> (r: bool)
    ensures
        r == (a@ == b@),
{
    let n = a.unicode_len();
    if n != b.unicode_len() {
        return false;
    }
    let mut i: usize = 0;
    while i < n
        invariant
            n == a@.len(),
            n == b@.len(),
            0 <= i <= n,
            forall|j: int| 0 <= j < i ==> a@[j] == b@[j],
        decreases n - i,
    {
        if a.get_char(i) != b.get_char(i) {
            return false;
        }
        i = i + 1;
    }
    proof {
        assert(a@ =~= b@);
    }
    true
}

/// A copy of `s` with every leading `#` removed and all remaining ASCII
/// letters upper-cased.
pub fn strip_and_upper(s: &str) -> (r: String)
    ensures
        r@ == upper_seq(strip_hashes(s@)),
{
    let n = s.unicode_len();
    let mut start: usize = 0;
    loop
        invariant
            n == s@.len(),
            0 <= start <= n,
            forall|j: int| 0 <= j < start ==> s@[j] == '#',
        ensures
            0 <= start <= n,
            forall|j: int| 0 <= j < start ==> s@[j] == '#',
            start == n || s@[start as int] != '#',
        decreases n - start,
    {
        if start >= n {
            break;
        }
        if s.get_char(start) != '#' {
            break;
        }
        start = start + 1;
    }
    proof {
        lemma_strip_hashes_skip(s@, start as int);
    }
    let mut out = String::new();
    let mut i: usize = start;
    while i < n
        invariant
            n == s@.len(),
            start <= i <= n,
            out@ == upper_seq(s@.subrange(start as int, i as int)),
        decreases n - i,
    {
        let c = s.get_char(i);
        push_char(&mut out, to_upper(c));
        proof {
            assert(upper_seq(s@.subrange(start as int, i + 1 as int)) =~= upper_seq(
                s@.subrange(start as int, i as int),
            ).push(upper_char(s@[i as int])));
        }
        i = i + 1;
    }
    proof {
        assert(s@.subrange(start as int, n as int) =~= s@.skip(start as int));
    }
    out
}

/// A copy of `s` with all ASCII letters upper-cased.
pub fn upper_string(s: &str) -> (r: String)
    ensures
        r@ == upper_seq(s@),
{
    let n = s.unicode_len();
    let mut out = String::new();
    let mut i: usize = 0;
    while i < n
        invariant
            n == s@.len(),
            0 <= i <= n,
            out@ == upper_seq(s@.subrange(0, i as int)),
        decreases n - i,
    {
        let c = s.get_char(i);
        push_char(&mut out, to_upper(c));
        proof {
            assert(upper_seq(s@.subrange(0, i + 1 as int)) =~= upper_seq(
                s@.subrange(0, i as int),
            ).push(upper_char(s@[i as int])));
        }
        i = i + 1;
    }
    proof {
        assert(s@.subrange(0, n as int) =~= s@);
    }
    out
}

} // verus!
