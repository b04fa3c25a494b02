//! The Levenshtein edit distance: the minimum number of single-character
//! insertions, deletions or substitutions turning one word into another. Used
//! to rank keyword suggestions for a misspelled word.

use vstd::prelude::*;

verus! {

pub open spec fn min3(a: nat, b: nat, c: nat) -> nat {
    if a <= b && a <= c {
        a
    } else if b <= c {
        b
    } else {
        c
    }
}

/// The edit distance between two character sequences: equal last characters
/// cost nothing, otherwise the cheapest of deleting, inserting or
/// substituting costs one.
pub open spec fn lev(a: Seq<char>, b: Seq<char>) -> nat
    decreases a.len() + b.len(),
{
    if a.len() == 0 {
        b.len()
    } else if b.len() == 0 {
        a.len()
    } else if a.last() == b.last() {
        lev(a.drop_last(), b.drop_last())
    } else {
        1 + min3(lev(a.drop_last(), b), lev(a, b.drop_last()), lev(a.drop_last(), b.drop_last()))
    }
}

/// The distance is at least the difference of the two lengths.
pub proof fn lemma_lev_len_diff(a: Seq<char>, b: Seq<char>)
    ensures
        lev(a, b) + b.len() >= a.len(),
        lev(a, b) + a.len() >= b.len(),
    decreases a.len() + b.len(),
{
    if a.len() > 0 && b.len() > 0 {
        lemma_lev_len_diff(a.drop_last(), b.drop_last());
        lemma_lev_len_diff(a.drop_last(), b);
        lemma_lev_len_diff(a, b.drop_last());
    }
}

/// The distance never exceeds the two lengths together.
pub proof fn lemma_lev_bound(a: Seq<char>, b: Seq<char>)
    ensures
        lev(a, b) <= a.len() + b.len(),
    decreases a.len() + b.len(),
{
    if a.len() > 0 && b.len() > 0 {
        lemma_lev_bound(a.drop_last(), b.drop_last());
        lemma_lev_bound(a.drop_last(), b);
        lemma_lev_bound(a, b.drop_last());
    }
}

/// Computes the Levenshtein distance of `a` and `b`, exactly per [`lev`],
/// with the usual two-row dynamic programming.
pub fn distance(a: &str, b: &str) -> (r: usize)
    requires
        a@.len() + b@.len() < usize::MAX,
    ensures
        r == lev(a@, b@),
{
    let m = a.unicode_len();
    let n = b.unicode_len();

    // the row for the empty prefix of `a`
    let mut prev: Vec<usize> = Vec::new();
    let mut j0: usize = 0;
    while j0 <= n
        invariant
            j0 <= n + 1,
            n < usize::MAX,
            n == b@.len(),
            prev@.len() == j0,
            forall|j: int| 0 <= j < j0 ==> prev@[j] == j,
        decreases n + 1 - j0,
    {
        prev.push(j0);
        j0 = j0 + 1;
    }
    assert(forall|j: int|
        0 <= j <= n ==> prev@[j] == lev(a@.take(0), b@.take(j))) by {
        assert(a@.take(0) =~= Seq::<char>::empty());
        assert(forall|j: int| 0 <= j <= n ==> #[trigger] b@.take(j).len() == j);
    }

    let mut i: usize = 1;
    while i <= m
        invariant
            1 <= i <= m + 1,
            m == a@.len(),
            n == b@.len(),
            a@.len() + b@.len() < usize::MAX,
            prev@.len() == n + 1,
            forall|j: int| 0 <= j <= n ==> prev@[j] == lev(a@.take(i - 1), b@.take(j)),
        decreases m + 1 - i,
    {
        let mut cur: Vec<usize> = Vec::new();
        cur.push(i);
        proof {
            lemma_lev_bound(a@.take(i as int), b@.take(0));
            assert(b@.take(0) =~= Seq::<char>::empty());
            assert(a@.take(i as int).len() == i);
            assert(lev(a@.take(i as int), b@.take(0)) == i) by {
                lemma_lev_empty(a@.take(i as int));
            }
        }
        let ca = a.get_char(i - 1);
        let mut j: usize = 1;
        while j <= n
            invariant
                1 <= i <= m,
                1 <= j <= n + 1,
                m == a@.len(),
                n == b@.len(),
                a@.len() + b@.len() < usize::MAX,
                ca == a@[i - 1],
                prev@.len() == n + 1,
                cur@.len() == j,
                forall|k: int| 0 <= k <= n ==> prev@[k] == lev(a@.take(i - 1), b@.take(k)),
                forall|k: int| 0 <= k < j ==> cur@[k] == lev(a@.take(i as int), b@.take(k)),
                forall|k: int| 0 <= k < j ==> cur@[k] <= a@.len() + b@.len(),
            decreases n + 1 - j,
        {
            let cb = b.get_char(j - 1);
            proof {
                assert(a@.take(i as int).drop_last() =~= a@.take(i - 1));
                assert(b@.take(j as int).drop_last() =~= b@.take(j - 1));
                assert(a@.take(i as int).last() == a@[i - 1]);
                assert(b@.take(j as int).last() == b@[j - 1]);
                lemma_lev_bound(a@.take(i - 1), b@.take(j as int));
                lemma_lev_bound(a@.take(i - 1), b@.take(j - 1));
                lemma_lev_bound(a@.take(i as int), b@.take(j - 1));
                assert(b@.take(j as int).len() == j);
                assert(b@.take(j - 1).len() == j - 1);
                assert(a@.take(i as int).len() == i);
                assert(a@.take(i - 1).len() == i - 1);
            }
            let v: usize = if ca == cb {
                prev[j - 1]
            } else {
                let del = prev[j];
                let ins = cur[j - 1];
                let sub = prev[j - 1];
                let mn = if del <= ins && del <= sub {
                    del
                } else if ins <= sub {
                    ins
                } else {
                    sub
                };
                1 + mn
            };
            cur.push(v);
            j = j + 1;
        }
        prev = cur;
        i = i + 1;
    }
    assert(a@.take(m as int) =~= a@);
    assert(b@.take(n as int) =~= b@);
    prev[n]
}

/// The distance from the empty word is the word's length.
proof fn lemma_lev_empty(a: Seq<char>)
    ensures
        lev(a, Seq::<char>::empty()) == a.len(),
    decreases a.len(),
{
    if a.len() > 0 {
        lemma_lev_empty(a.drop_last());
    }
}

} // verus!
