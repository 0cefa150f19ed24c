//! Ranking scored candidates: filter, order by descending score, truncate.

use vstd::prelude::*;

verus! {

/// Candidate `i` ranks before candidate `j`: its key is higher, or the keys
/// are equal and `i` came first.
pub open spec fn before(keys: Seq<u128>, i: int, j: int) -> bool {
    keys[i] > keys[j] || (keys[i] == keys[j] && i < j)
}

/// `r` is the ranking of the candidates that `keep` admits: it lists their
/// positions in descending order of key, candidates with equal keys in the
/// order they came, cut off after `top_k`. Whatever is admitted and not
/// listed ranks after everything listed.
pub open spec fn is_ranking(r: Seq<usize>, keys: Seq<u128>, keep: Seq<bool>, top_k: nat) -> bool {
    &&& r.len() <= top_k
    &&& forall|a: int| 0 <= a < r.len() ==> (#[trigger] r[a]) < keys.len() && keep[r[a] as int]
    &&& forall|a: int, b: int|
        0 <= a < b < r.len() ==> before(keys, #[trigger] r[a] as int, #[trigger] r[b] as int)
    &&& forall|j: usize|
        j < keys.len() && keep[j as int] && !(#[trigger] r.contains(j)) ==> r.len() == top_k
            && forall|a: int| 0 <= a < r.len() ==> before(keys, #[trigger] r[a] as int, j as int)
}

/// Candidate `i` ranks before candidate `j` under a second key: its key is
/// higher; or the keys are equal and its second key is higher; or both are
/// equal and `i` came first.
pub open spec fn before_by(keys: Seq<u128>, ties: Seq<u128>, i: int, j: int) -> bool {
    ||| keys[i] > keys[j]
    ||| (keys[i] == keys[j] && ties[i] > ties[j])
    ||| (keys[i] == keys[j] && ties[i] == ties[j] && i < j)
}

/// `r` is the ranking of the candidates that `keep` admits, by descending
/// key, then by descending second key, then in the order they came, cut off
/// after `top_k`.
pub open spec fn is_ranking_by(
    r: Seq<usize>,
    keys: Seq<u128>,
    ties: Seq<u128>,
    keep: Seq<bool>,
    top_k: nat,
) -> bool {
    &&& r.len() <= top_k
    &&& forall|a: int| 0 <= a < r.len() ==> (#[trigger] r[a]) < keys.len() && keep[r[a] as int]
    &&& forall|a: int, b: int|
        0 <= a < b < r.len() ==> before_by(
            keys,
            ties,
            #[trigger] r[a] as int,
            #[trigger] r[b] as int,
        )
    &&& forall|j: usize|
        j < keys.len() && keep[j as int] && !(#[trigger] r.contains(j)) ==> r.len() == top_k
            && forall|a: int|
            0 <= a < r.len() ==> before_by(keys, ties, #[trigger] r[a] as int, j as int)
}

/// The positions of the candidates that `keep` admits, best first by key
/// and then by second key, at most `top_k` of them.
pub fn rank_by(keys: &Vec<u128>, ties: &Vec<u128>, keep: &Vec<bool>, top_k: usize) -> (r: Vec<usize>)
    requires
        keys.len() == keep.len(),
        keys.len() == ties.len(),
    ensures
        is_ranking_by(r@, keys@, ties@, keep@, top_k as nat),
{
    let n = keys.len();
    let mut taken: Vec<bool> = Vec::new();
    while taken.len() < n
        invariant
            taken.len() <= n,
            forall|i: int| 0 <= i < taken.len() ==> !taken[i],
        decreases n - taken.len(),
    {
        taken.push(false);
    }
    let mut r: Vec<usize> = Vec::new();
    while r.len() < top_k
        invariant
            n == keys.len(),
            n == keep.len(),
            n == ties.len(),
            taken.len() == n,
            r.len() <= top_k,
            forall|a: int| 0 <= a < r.len() ==> (#[trigger] r[a]) < n && keep[r[a] as int],
            forall|i: int| 0 <= i < n ==> (#[trigger] taken[i] <==> r@.contains(i as usize)),
            forall|a: int, b: int|
                0 <= a < b < r.len() ==> before_by(
                    keys@,
                    ties@,
                    #[trigger] r[a] as int,
                    #[trigger] r[b] as int,
                ),
            forall|a: int, j: int|
                0 <= a < r.len() && 0 <= j < n && #[trigger] keep[j] && !taken[j] ==> before_by(
                    keys@,
                    ties@,
                    #[trigger] r[a] as int,
                    j,
                ),
        decreases top_k - r.len(),
    {
        let mut best: Option<usize> = None;
        let mut j: usize = 0;
        while j < n
            invariant
                j <= n,
                n == keys.len(),
                n == keep.len(),
                n == ties.len(),
                taken.len() == n,
                match best {
                    Some(b) => b < j && keep[b as int] && !taken[b as int] && forall|i: int|
                        0 <= i < j && #[trigger] keep[i] && !taken[i] && i != b ==> before_by(
                            keys@,
                            ties@,
                            b as int,
                            i,
                        ),
                    None => forall|i: int| 0 <= i < j ==> !(#[trigger] keep[i] && !taken[i]),
                },
            decreases n - j,
        {
            if keep[j] && !taken[j] {
                match best {
                    None => {
                        best = Some(j);
                    },
                    Some(b) => {
                        if keys[j] > keys[b] || (keys[j] == keys[b] && ties[j] > ties[b]) {
                            best = Some(j);
                        }
                    },
                }
            }
            j = j + 1;
        }
        match best {
            None => {
                return r;
            },
            Some(b) => {
                let ghost before_r = r@;
                r.push(b);
                taken.set(b, true);
                proof {
                    assert forall|i: int| 0 <= i < n implies (#[trigger] taken[i] <==> r@.contains(
                        i as usize,
                    )) by {
                        if i == b {
                            assert(r@[r@.len() - 1] == b);
                        } else {
                            if before_r.contains(i as usize) {
                                let a = choose|a: int|
                                    0 <= a < before_r.len() && before_r[a] == i as usize;
                                assert(r@[a] == i as usize);
                            }
                        }
                    }
                }
            },
        }
    }
    r
}

/// The positions of the candidates that `keep` admits, best first, at most
/// `top_k` of them.
pub fn rank(keys: &Vec<u128>, keep: &Vec<bool>, top_k: usize) -> (r: Vec<usize>)
    requires
        keys.len() == keep.len(),
    ensures
        is_ranking(r@, keys@, keep@, top_k as nat),
{
    let n = keys.len();
    let mut ties: Vec<u128> = Vec::new();
    while ties.len() < n
        invariant
            ties.len() <= n,
            forall|i: int| 0 <= i < ties.len() ==> ties[i] == 0,
        decreases n - ties.len(),
    {
        ties.push(0);
    }
    let r = rank_by(keys, &ties, keep, top_k);
    r
}

/// A candidate with a higher key stands before one with a lower key in
/// every ranking that lists the latter, where both are admitted.
pub proof fn lemma_higher_key_first(
    r: Seq<usize>,
    keys: Seq<u128>,
    keep: Seq<bool>,
    top_k: nat,
    i: usize,
    j: usize,
)
    requires
        is_ranking(r, keys, keep, top_k),
        keys.len() == keep.len(),
        i < keys.len(),
        j < keys.len(),
        keep[i as int],
        keep[j as int],
        keys[i as int] > keys[j as int],
        r.contains(j),
    ensures
        r.contains(i),
        r.index_of(i) < r.index_of(j),
{
    let b = r.index_of(j);
    let a = r.index_of(i);
    if b < a {
        assert(before(keys, r[b] as int, r[a] as int));
    }
}

/// Two rankings of the same candidates agree on their first `a` places.
proof fn lemma_rankings_agree(
    r1: Seq<usize>,
    r2: Seq<usize>,
    keys: Seq<u128>,
    ties: Seq<u128>,
    keep: Seq<bool>,
    top_k: nat,
    a: int,
)
    requires
        is_ranking_by(r1, keys, ties, keep, top_k),
        is_ranking_by(r2, keys, ties, keep, top_k),
        0 <= a <= r1.len(),
        a <= r2.len(),
    ensures
        forall|i: int| 0 <= i < a ==> r1[i] == r2[i],
    decreases a,
{
    if a > 0 {
        lemma_rankings_agree(r1, r2, keys, ties, keep, top_k, a - 1);
        let x = r1[a - 1];
        let y = r2[a - 1];
        if x != y {
            lemma_not_both(r1, r2, keys, ties, keep, top_k, a - 1);
            lemma_not_both(r2, r1, keys, ties, keep, top_k, a - 1);
        }
    }
}

/// Where two rankings agree before place `p` and differ at `p`, the first
/// ranking's candidate there does not rank before the second's.
proof fn lemma_not_both(
    r1: Seq<usize>,
    r2: Seq<usize>,
    keys: Seq<u128>,
    ties: Seq<u128>,
    keep: Seq<bool>,
    top_k: nat,
    p: int,
)
    requires
        is_ranking_by(r1, keys, ties, keep, top_k),
        is_ranking_by(r2, keys, ties, keep, top_k),
        0 <= p < r1.len(),
        p < r2.len(),
        forall|i: int| 0 <= i < p ==> r1[i] == r2[i],
        r1[p] != r2[p],
    ensures
        !before_by(keys, ties, r1[p] as int, r2[p] as int),
{
    let x = r1[p];
    let y = r2[p];
    if before_by(keys, ties, x as int, y as int) {
        if !r2.contains(x) {
            assert(before_by(keys, ties, r2[p] as int, x as int));
        } else {
            let b = r2.index_of(x);
            assert(0 <= b < r2.len() && r2[b] == x);
            if b < p {
                assert(r1[b] == x);
                assert(before_by(keys, ties, r1[b] as int, r1[p] as int));
            } else {
                assert(before_by(keys, ties, r2[p] as int, r2[b] as int));
            }
        }
    }
}

/// Of two rankings of the same candidates, neither is shorter.
proof fn lemma_not_shorter(
    r1: Seq<usize>,
    r2: Seq<usize>,
    keys: Seq<u128>,
    ties: Seq<u128>,
    keep: Seq<bool>,
    top_k: nat,
)
    requires
        is_ranking_by(r1, keys, ties, keep, top_k),
        is_ranking_by(r2, keys, ties, keep, top_k),
    ensures
        r1.len() >= r2.len(),
{
    if r1.len() < r2.len() {
        lemma_rankings_agree(r1, r2, keys, ties, keep, top_k, r1.len() as int);
        let n = r1.len() as int;
        let z = r2[n];
        if r1.contains(z) {
            let b = r1.index_of(z);
            assert(0 <= b < n && r1[b] == z);
            assert(r2[b] == z);
            assert(before_by(keys, ties, r2[b] as int, r2[n] as int));
        }
    }
}

/// Rankings are unique: the candidates, their keys and the cut-off decide
/// the ranking.
pub proof fn lemma_ranking_unique(
    r1: Seq<usize>,
    r2: Seq<usize>,
    keys: Seq<u128>,
    ties: Seq<u128>,
    keep: Seq<bool>,
    top_k: nat,
)
    requires
        is_ranking_by(r1, keys, ties, keep, top_k),
        is_ranking_by(r2, keys, ties, keep, top_k),
    ensures
        r1 == r2,
{
    lemma_not_shorter(r1, r2, keys, ties, keep, top_k);
    lemma_not_shorter(r2, r1, keys, ties, keep, top_k);
    lemma_rankings_agree(r1, r2, keys, ties, keep, top_k, r1.len() as int);
}

/// The ranking of the candidates, where there is one.
pub open spec fn ranking_of(keys: Seq<u128>, ties: Seq<u128>, keep: Seq<bool>, top_k: nat) -> Seq<
    usize,
> {
    choose|r: Seq<usize>| is_ranking_by(r, keys, ties, keep, top_k)
}

/// A ranking is the ranking.
pub proof fn lemma_is_the_ranking(
    r: Seq<usize>,
    keys: Seq<u128>,
    ties: Seq<u128>,
    keep: Seq<bool>,
    top_k: nat,
)
    requires
        is_ranking_by(r, keys, ties, keep, top_k),
    ensures
        r == ranking_of(keys, ties, keep, top_k),
{
    lemma_ranking_unique(r, ranking_of(keys, ties, keep, top_k), keys, ties, keep, top_k);
}

/// Second keys that decide nothing: all zero.
pub open spec fn zero_ties(n: nat) -> Seq<u128> {
    Seq::new(n, |i: int| 0u128)
}

/// A ranking by one key is a ranking by that key and a second key that
/// decides nothing.
pub proof fn lemma_plain_ranking(r: Seq<usize>, keys: Seq<u128>, keep: Seq<bool>, top_k: nat)
    requires
        is_ranking(r, keys, keep, top_k),
    ensures
        is_ranking_by(r, keys, zero_ties(keys.len()), keep, top_k),
        r == ranking_of(keys, zero_ties(keys.len()), keep, top_k),
{
    let ties = zero_ties(keys.len());
    lemma_is_the_ranking(r, keys, ties, keep, top_k);
}

/// A sequence of `n` times `true`: every candidate is admitted.
pub open spec fn all_true(n: nat) -> Seq<bool> {
    Seq::new(n, |i: int| true)
}

} // verus!
