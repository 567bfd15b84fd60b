//! Prefix, equality and trimming operations on string slices, specified over
//! their character sequences.

use vstd::prelude::*;

verus! {

/// `prefix` is an initial segment of `s`.
pub open spec fn has_prefix(s: Seq<char>, prefix: Seq<char>) -> bool {
    prefix.len() <= s.len() && s.subrange(0, prefix.len() as int) == prefix
}

/// How many copies of `c` stand at the front of `s` before the first other
/// character.
pub open spec fn leading_run(s: Seq<char>, c: char) -> nat
    decreases s.len(),
{
    if s.len() > 0 && s[0] == c {
        1 + leading_run(s.drop_first(), c)
    } else {
        0
    }
}

/// `s` without the copies of `c` at its front.
pub open spec fn trimmed_start(s: Seq<char>, c: char) -> Seq<char> {
    s.skip(leading_run(s, c) as int)
}

/// `s` without `prefix` at its front, where it has that prefix.
pub open spec fn stripped(s: Seq<char>, prefix: Seq<char>) -> Option<Seq<char>> {
    if has_prefix(s, prefix) {
        Some(s.skip(prefix.len() as int))
    } else {
        None
    }
}

/// The leading run is exactly the longest all-`c` front of `s`: every
/// character in it is `c`, and the character after it, if any, is not.
pub proof fn lemma_leading_run(s: Seq<char>, c: char)
    ensures
        leading_run(s, c) <= s.len(),
        forall|i: int| 0 <= i < leading_run(s, c) ==> s[i] == c,
        leading_run(s, c) < s.len() ==> s[leading_run(s, c) as int] != c,
    decreases s.len(),
{
    if s.len() > 0 && s[0] == c {
        let rest = s.drop_first();
        lemma_leading_run(rest, c);
        assert forall|i: int| 0 <= i < leading_run(s, c) implies s[i] == c by {
            if i > 0 {
                assert(s[i] == rest[i - 1]);
            }
        }
        if leading_run(s, c) < s.len() {
            assert(s[leading_run(s, c) as int] == rest[leading_run(rest, c) as int]);
        }
    }
}

/// A front of `k` copies of `c` that ends at the end of `s` or before another
/// character is the leading run.
pub proof fn lemma_leading_run_unique(s: Seq<char>, c: char, k: nat)
    requires
        k <= s.len(),
        forall|i: int| 0 <= i < k ==> s[i] == c,
        k < s.len() ==> s[k as int] != c,
    ensures
        leading_run(s, c) == k,
    decreases s.len(),
{
    if k > 0 {
        let rest = s.drop_first();
        assert forall|i: int| 0 <= i < k - 1 implies rest[i] == c by {
            assert(rest[i] == s[i + 1]);
        }
        if k - 1 < rest.len() {
            assert(rest[k - 1] == s[k as int]);
        }
        lemma_leading_run_unique(rest, c, (k - 1) as nat);
    }
}

/// A sequence that does not begin with `c` is its own trimmed form.
pub proof fn lemma_trimmed_start_fixed(s: Seq<char>, c: char)
    requires
        s.len() == 0 || s[0] != c,
    ensures
        trimmed_start(s, c) == s,
{
    assert(s.skip(0) =~= s);
}

/// The characters of a string slice, in order.
fn chars_of(s: &str) -> (v: Vec<char>)
    ensures
        v@ == s@,
{
    let mut v: Vec<char> = Vec::new();
    for c in it: s.chars()
        invariant
            it.seq() == s@,
            v@ == s@.take(it.index() as int),
    {
        v.push(c);
    }
    v
}

/// Whether `hay` begins with `head`, compared character by character.
fn begins_with(hay: &Vec<char>, head: &Vec<char>) -> (r: bool)
    ensures
        r == has_prefix(hay@, head@),
{
    let m: usize = head.len();
    if m > hay.len() {
        return false;
    }
    let mut j: usize = 0;
    while j < m
        invariant
            m == head@.len(),
            m <= hay@.len(),
            j <= m,
            forall|k: int| 0 <= k < j ==> hay@[k] == head@[k],
        decreases m - j,
    {
        if hay[j] != head[j] {
            proof {
                let front = hay@.subrange(0, m as int);
                assert(front[j as int] == hay@[j as int]);
            }
            return false;
        }
        j = j + 1;
    }
    assert(hay@.subrange(0, m as int) =~= head@);
    true
}

/// Whether `s` begins with `prefix`.
pub fn starts_with(s: &str, prefix: &str) -> (r: bool)
    ensures
        r == has_prefix(s@, prefix@),
{
    let hay = chars_of(s);
    let head = chars_of(prefix);
    begins_with(&hay, &head)
}

/// Whether two string slices hold the same characters.
pub fn same_text(a: &str, b: &str) -> (r: bool)
    ensures
        r == (a@ == b@),
{
    let left = chars_of(a);
    let right = chars_of(b);
    if left.len() != right.len() {
        return false;
    }
    assert(left@.subrange(0, left@.len() as int) =~= left@);
    begins_with(&left, &right)
}

/// `s` without `prefix` at its front, or `None` where `s` does not begin with
/// it.
pub fn strip_prefix<'a>(s: &'a str, prefix: &str) -> (r: Option<&'a str>)
    ensures
        match r {
            Some(rest) => stripped(s@, prefix@) == Some(rest@),
            None => stripped(s@, prefix@) is None,
        },
{
    let hay = chars_of(s);
    let head = chars_of(prefix);
    if begins_with(&hay, &head) {
        Some(s.substring_char(head.len(), hay.len()))
    } else {
        None
    }
}

/// `s` without the copies of `c` at its front.
pub fn trim_start_matches<'a>(s: &'a str, c: char) -> (r: &'a str)
    ensures
        r@ == trimmed_start(s@, c),
{
    let hay = chars_of(s);
    let n: usize = hay.len();
    let mut k: usize = 0;
    while k < n && hay[k] == c
        invariant
            n == hay@.len(),
            k <= n,
            forall|i: int| 0 <= i < k ==> hay@[i] == c,
        decreases n - k,
    {
        k = k + 1;
    }
    proof {
        lemma_leading_run_unique(hay@, c, k as nat);
    }
    s.substring_char(k, n)
}

} // verus!
