//! Operations on text that the key translation and the reading of store
//! answers are built from.

use vstd::prelude::*;
use vstd::string::*;

verus! {

/// `s` without the `/` characters at its front.
pub open spec fn trim_leading_slashes(s: Seq<char>) -> Seq<char>
    decreases s.len(),
{
    if s.len() > 0 && s[0] == '/' {
        trim_leading_slashes(s.drop_first())
    } else {
        s
    }
}

/// `needle` stands in `haystack` at position `at`.
pub open spec fn occurs_at(haystack: Seq<char>, needle: Seq<char>, at: int) -> bool {
    0 <= at && at + needle.len() <= haystack.len() && haystack.subrange(at, at + needle.len())
        == needle
}

/// `needle` occurs in `haystack` as a contiguous run of characters.
pub open spec fn contains_text(haystack: Seq<char>, needle: Seq<char>) -> bool {
    exists|at: int| occurs_at(haystack, needle, at)
}

/// A text that does not begin with `/` is its own trimmed form.
pub proof fn lemma_trim_without_leading_slash(s: Seq<char>)
    requires
        s.len() == 0 || s[0] != '/',
    ensures
        trim_leading_slashes(s) == s,
{
}

/// Trimming looks through one `/` put in front of a text.
pub proof fn lemma_trim_skips_slash(s: Seq<char>)
    ensures
        trim_leading_slashes(seq!['/'] + s) == trim_leading_slashes(s),
{
    let t = seq!['/'] + s;
    assert(t.drop_first() =~= s);
}

/// Whether two texts hold the same characters.
pub fn same_text(a: &str, b: &str) -> (res: bool)
    ensures
        res == (a@ == b@),
{
    let left = a.to_owned();
    let right = b.to_owned();
    left == right
}

/// Whether `s` begins with `prefix`.
pub fn starts_with(s: &str, prefix: &str) -> (res: bool)
    ensures
        res == prefix@.is_prefix_of(s@),
{
    let n: usize = s.unicode_len();
    let m: usize = prefix.unicode_len();
    if m > n {
        false
    } else {
        same_text(s.substring_char(0, m), prefix)
    }
}

/// The text of `s` from character `from` on, which is empty where `s` has
/// no more than `from` characters.
pub fn skip_chars(s: &str, from: usize) -> (res: String)
    ensures
        res@ == (if from <= s@.len() {
            s@.skip(from as int)
        } else {
            Seq::empty()
        }),
{
    let n: usize = s.unicode_len();
    if from <= n {
        s.substring_char(from, n).to_owned()
    } else {
        String::new()
    }
}

/// `s` without the `/` characters at its front.
pub fn trim_start_slashes(s: &str) -> (res: String)
    ensures
        res@ == trim_leading_slashes(s@),
{
    let n: usize = s.unicode_len();
    let mut i: usize = 0;
    proof {
        assert(s@.skip(0) =~= s@);
    }
    while i < n
        invariant
            n == s@.len(),
            i <= n,
            trim_leading_slashes(s@) == trim_leading_slashes(s@.skip(i as int)),
        ensures
            i <= n,
            trim_leading_slashes(s@) == s@.skip(i as int),
        decreases n - i,
    {
        if s.get_char(i) != '/' {
            break;
        }
        proof {
            assert(s@.skip(i as int).drop_first() =~= s@.skip(i as int + 1));
        }
        i = i + 1;
    }
    skip_chars(s, i)
}

/// Whether `needle` occurs in `haystack`.
pub fn contains(haystack: &str, needle: &str) -> (res: bool)
    ensures
        res == contains_text(haystack@, needle@),
{
    let n: usize = haystack.unicode_len();
    let m: usize = needle.unicode_len();
    if m > n {
        return false;
    }
    if m == 0 {
        proof {
            assert(haystack@.subrange(0, 0) =~= needle@);
            assert(occurs_at(haystack@, needle@, 0));
        }
        return true;
    }
    let mut i: usize = 0;
    while i <= n - m
        invariant
            n == haystack@.len(),
            m == needle@.len(),
            0 < m <= n,
            i <= n - m + 1,
            forall|j: int| 0 <= j < i ==> !occurs_at(haystack@, needle@, j),
        decreases n - m + 1 - i,
    {
        if same_text(haystack.substring_char(i, i + m), needle) {
            proof {
                assert(occurs_at(haystack@, needle@, i as int));
            }
            return true;
        }
        i = i + 1;
    }
    false
}

} // verus!
