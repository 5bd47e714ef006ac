//! Whitespace trimming over Unicode text.

use vstd::prelude::*;
use vstd::std_specs::iter::IteratorSpec;

verus! {

/// Whether `c` carries the Unicode `White_Space` property.
pub uninterp spec fn white_space(c: char) -> bool;

/// `s` without its leading run of whitespace.
pub open spec fn trim_start(s: Seq<char>) -> Seq<char>
    decreases s.len(),
{
    if s.len() > 0 && white_space(s.first()) {
        trim_start(s.drop_first())
    } else {
        s
    }
}

/// `s` without its trailing run of whitespace.
pub open spec fn trim_end(s: Seq<char>) -> Seq<char>
    decreases s.len(),
{
    if s.len() > 0 && white_space(s.last()) {
        trim_end(s.drop_last())
    } else {
        s
    }
}

/// `s` without the whitespace that surrounds it.
pub open spec fn trimmed(s: Seq<char>) -> Seq<char> {
    trim_end(trim_start(s))
}

/// Every character of `s` at an index in `lo..hi` is whitespace.
pub open spec fn all_white_space(s: Seq<char>, lo: int, hi: int) -> bool {
    forall|j: int| lo <= j < hi ==> white_space(#[trigger] s[j])
}

/// Calls `char::is_whitespace` of the standard library, which reports whether
/// a character has the `White_Space` property of the Unicode character
/// database. The result is taken on trust to be `white_space(c)`.
#[verifier::external_body]
fn is_whitespace(c: char) -> (b: bool)
    ensures
        b == white_space(c),
{
    c.is_whitespace()
}

/// If the first `k` characters of `s` are whitespace and the next one, if
/// any, is not, then `trim_start` removes exactly those `k`.
pub proof fn lemma_trim_start_at(s: Seq<char>, k: int)
    requires
        0 <= k <= s.len(),
        all_white_space(s, 0, k),
        k < s.len() ==> !white_space(s[k]),
    ensures
        trim_start(s) == s.subrange(k, s.len() as int),
    decreases k,
{
    if k == 0 {
        assert(s.subrange(0, s.len() as int) =~= s);
    } else {
        let t = s.drop_first();
        assert(white_space(s[0]));
        assert forall|j: int| 0 <= j < k - 1 implies white_space(#[trigger] t[j]) by {
            assert(t[j] == s[j + 1]);
        }
        lemma_trim_start_at(t, k - 1);
        assert(t.subrange(k - 1, t.len() as int) =~= s.subrange(k, s.len() as int));
    }
}

/// If the characters of `s` from index `k` on are whitespace and the one
/// before, if any, is not, then `trim_end` keeps exactly the first `k`.
pub proof fn lemma_trim_end_at(s: Seq<char>, k: int)
    requires
        0 <= k <= s.len(),
        all_white_space(s, k, s.len() as int),
        k > 0 ==> !white_space(s[k - 1]),
    ensures
        trim_end(s) == s.subrange(0, k),
    decreases s.len() - k,
{
    if k == s.len() {
        assert(s.subrange(0, k) =~= s);
    } else {
        let t = s.drop_last();
        assert(white_space(s[s.len() - 1]));
        assert forall|j: int| k <= j < t.len() implies white_space(#[trigger] t[j]) by {
            assert(t[j] == s[j]);
        }
        lemma_trim_end_at(t, k);
        assert(t.subrange(0, k) =~= s.subrange(0, k));
    }
}

/// Where `trim_start` cuts: the index of the first character of `s` that is
/// not whitespace, or the length of `s` if there is none.
pub proof fn lemma_trim_start_cut(s: Seq<char>) -> (k: int)
    ensures
        0 <= k <= s.len(),
        all_white_space(s, 0, k),
        k < s.len() ==> !white_space(s[k]),
        trim_start(s) == s.subrange(k, s.len() as int),
    decreases s.len(),
{
    if s.len() > 0 && white_space(s.first()) {
        let t = s.drop_first();
        let k = lemma_trim_start_cut(t) + 1;
        assert forall|j: int| 0 <= j < k implies white_space(#[trigger] s[j]) by {
            if j > 0 {
                assert(s[j] == t[j - 1]);
            }
        }
        assert(t.subrange(k - 1, t.len() as int) =~= s.subrange(k, s.len() as int));
        k
    } else {
        assert(s.subrange(0, s.len() as int) =~= s);
        0
    }
}

/// Where `trim_end` cuts: one past the index of the last character of `s`
/// that is not whitespace, or zero if there is none.
pub proof fn lemma_trim_end_cut(s: Seq<char>) -> (k: int)
    ensures
        0 <= k <= s.len(),
        all_white_space(s, k, s.len() as int),
        k > 0 ==> !white_space(s[k - 1]),
        trim_end(s) == s.subrange(0, k),
    decreases s.len(),
{
    if s.len() > 0 && white_space(s.last()) {
        let t = s.drop_last();
        let k = lemma_trim_end_cut(t);
        assert forall|j: int| k <= j < s.len() implies white_space(#[trigger] s[j]) by {
            if j < t.len() {
                assert(s[j] == t[j]);
            }
        }
        assert(t.subrange(0, k) =~= s.subrange(0, k));
        k
    } else {
        assert(s.subrange(0, s.len() as int) =~= s);
        s.len() as int
    }
}

/// Trimming keeps one stretch of `s`: everything before it and after it is
/// whitespace, and it neither starts nor ends with whitespace. The bounds of
/// that stretch are returned.
pub proof fn lemma_trimmed_cut(s: Seq<char>) -> (cut: (int, int))
    ensures
        0 <= cut.0 <= cut.1 <= s.len(),
        trimmed(s) == s.subrange(cut.0, cut.1),
        all_white_space(s, 0, cut.0),
        all_white_space(s, cut.1, s.len() as int),
        cut.0 < cut.1 ==> !white_space(s[cut.0]) && !white_space(s[cut.1 - 1]),
{
    let from = lemma_trim_start_cut(s);
    let t = s.subrange(from, s.len() as int);
    let to = from + lemma_trim_end_cut(t);
    assert forall|j: int| to <= j < s.len() implies white_space(#[trigger] s[j]) by {
        assert(s[j] == t[j - from]);
    }
    assert(t.subrange(0, to - from) =~= s.subrange(from, to));
    if from < to {
        assert(t[to - from - 1] == s[to - 1]);
    }
    (from, to)
}

/// Whitespace around a text is all that trimming takes away: where `core`
/// neither starts nor ends with whitespace, and `lead` and `trail` hold
/// nothing else, trimming `lead + core + trail` gives `core`.
pub proof fn lemma_trimmed_strips(lead: Seq<char>, core: Seq<char>, trail: Seq<char>)
    requires
        all_white_space(lead, 0, lead.len() as int),
        all_white_space(trail, 0, trail.len() as int),
        core.len() > 0 ==> !white_space(core.first()) && !white_space(core.last()),
    ensures
        trimmed(lead + core + trail) == core,
{
    let s = lead + core + trail;
    let from = lead.len() as int;
    let to = from + core.len();
    assert forall|j: int| 0 <= j < from implies white_space(#[trigger] s[j]) by {
        assert(s[j] == lead[j]);
    }
    assert forall|j: int| to <= j < s.len() implies white_space(#[trigger] s[j]) by {
        assert(s[j] == trail[j - to]);
    }
    if core.len() > 0 {
        assert(s[from] == core.first());
        assert(s[to - 1] == core.last());
        lemma_trim_start_at(s, from);
        let t = s.subrange(from, s.len() as int);
        assert forall|j: int| core.len() <= j < t.len() implies white_space(#[trigger] t[j]) by {
            assert(t[j] == s[j + from]);
        }
        assert(t[core.len() - 1] == s[to - 1]);
        lemma_trim_end_at(t, core.len() as int);
        assert(t.subrange(0, core.len() as int) =~= core);
    } else {
        lemma_trim_start_at(s, s.len() as int);
        assert(s.subrange(s.len() as int, s.len() as int) =~= core);
    }
}

/// Trimmed text is left as it is by trimming it again.
pub proof fn lemma_trimmed_idempotent(s: Seq<char>)
    ensures
        trimmed(trimmed(s)) == trimmed(s),
{
    let (from, to) = lemma_trimmed_cut(s);
    let core = s.subrange(from, to);
    if from < to {
        assert(core.first() == s[from]);
        assert(core.last() == s[to - 1]);
    }
    lemma_trimmed_strips(Seq::empty(), core, Seq::empty());
    assert(Seq::<char>::empty() + core + Seq::<char>::empty() =~= core);
}

/// The text of `s` between its first and its last character that is not
/// whitespace; empty where `s` holds nothing else.
pub fn trim(s: &str) -> (r: &str)
    ensures
        r@ == trimmed(s@),
{
    broadcast use vstd::string::group_string_axioms;

    let n: usize = s.unicode_len();
    let mut it = s.chars();
    let mut i: usize = 0;
    let mut from: usize = 0;
    let mut to: usize = 0;
    while i < n
        invariant
            n == s@.len(),
            i <= n,
            it.remaining() == s@.subrange(i as int, n as int),
            from <= to <= i,
            all_white_space(s@, 0, from as int),
            all_white_space(s@, to as int, i as int),
            from < to ==> !white_space(s@[from as int]) && !white_space(s@[to - 1]),
            from == to ==> from == i,
        decreases n - i,
    {
        if let Some(c) = it.next() {
            assert(c == s@[i as int]);
            let blank: bool = is_whitespace(c);
            i = i + 1;
            if !blank {
                to = i;
            } else if from == to {
                from = i;
                to = i;
            }
        }
    }
    proof {
        lemma_trim_start_at(s@, from as int);
        let t = s@.subrange(from as int, n as int);
        assert forall|j: int| to - from <= j < t.len() implies white_space(#[trigger] t[j]) by {
            assert(t[j] == s@[j + from]);
        }
        lemma_trim_end_at(t, to - from);
        assert(t.subrange(0, to - from) =~= s@.subrange(from as int, to as int));
    }
    s.substring_char(from, to)
}

/// Whether `a` and `b` hold the same characters.
pub fn equal(a: &str, b: &str) -> (r: bool)
    ensures
        r == (a@ == b@),
{
    broadcast use vstd::string::group_string_axioms;

    let n: usize = a.unicode_len();
    if b.unicode_len() != n {
        return false;
    }
    let mut left = a.chars();
    let mut right = b.chars();
    let mut i: usize = 0;
    while i < n
        invariant
            n == a@.len(),
            n == b@.len(),
            i <= n,
            left.remaining() == a@.subrange(i as int, n as int),
            right.remaining() == b@.subrange(i as int, n as int),
            forall|j: int| 0 <= j < i ==> a@[j] == b@[j],
        decreases n - i,
    {
        let x = left.next();
        let y = right.next();
        assert(x == Some(a@[i as int]));
        assert(y == Some(b@[i as int]));
        if x != y {
            return false;
        }
        i = i + 1;
    }
    assert(a@ =~= b@);
    true
}

} // verus!
