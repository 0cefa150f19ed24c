//! Lexicographic order on texts, and sorted lists without duplicates.

use vstd::prelude::*;
use crate::text::texts;

verus! {

/// `a` comes before `b` in lexicographic order of code points, as decided
/// from position `i` on.
pub open spec fn lex_lt_from(a: Seq<char>, b: Seq<char>, i: int) -> bool
    decreases a.len() - i,
{
    if i < 0 || i >= b.len() {
        false
    } else if i >= a.len() {
        true
    } else if a[i] != b[i] {
        (a[i] as int) < (b[i] as int)
    } else {
        lex_lt_from(a, b, i + 1)
    }
}

/// `a` comes strictly before `b` in lexicographic order of code points.
pub open spec fn lex_lt(a: Seq<char>, b: Seq<char>) -> bool {
    lex_lt_from(a, b, 0)
}

/// Two texts that agree before `i` and of which neither comes before the
/// other are the same text.
pub proof fn lemma_lex_total(a: Seq<char>, b: Seq<char>, i: int)
    requires
        0 <= i <= a.len(),
        i <= b.len(),
        a.take(i) == b.take(i),
        !lex_lt_from(a, b, i),
        !lex_lt_from(b, a, i),
    ensures
        a == b,
    decreases a.len() - i,
{
    if i >= b.len() || i >= a.len() {
        assert(a.take(i) == a);
    } else {
        assert(a.take(i + 1) == a.take(i).push(a[i]));
        assert(b.take(i + 1) == b.take(i).push(b[i]));
        lemma_lex_total(a, b, i + 1);
    }
}

/// The order is transitive.
pub proof fn lemma_lex_transitive(a: Seq<char>, b: Seq<char>, c: Seq<char>, i: int)
    requires
        0 <= i,
        lex_lt_from(a, b, i),
        lex_lt_from(b, c, i),
    ensures
        lex_lt_from(a, c, i),
    decreases a.len() - i,
{
    if i < a.len() && i < b.len() && i < c.len() {
        if a[i] == b[i] && b[i] == c[i] {
            lemma_lex_transitive(a, b, c, i + 1);
        }
    }
}

/// Whether `a` comes strictly before `b` in lexicographic order.
pub fn chars_lt(a: &Vec<char>, b: &Vec<char>) -> (r: bool)
    ensures
        r == lex_lt(a@, b@),
{
    let mut i: usize = 0;
    loop
        invariant
            i <= a.len(),
            i <= b.len(),
            lex_lt(a@, b@) == lex_lt_from(a@, b@, i as int),
        decreases a.len() - i,
    {
        if i >= b.len() {
            return false;
        }
        if i >= a.len() {
            return true;
        }
        if a[i] != b[i] {
            return a[i] < b[i];
        }
        i = i + 1;
    }
}

/// The list is strictly increasing: sorted, and without duplicates.
pub open spec fn strictly_sorted(list: Seq<Seq<char>>) -> bool {
    forall|i: int, j: int| 0 <= i < j < list.len() ==> lex_lt(#[trigger] list[i], #[trigger] list[j])
}

/// How many texts at the start of `list` come before `x`.
pub open spec fn rank_of(list: Seq<Seq<char>>, x: Seq<char>, n: int) -> int
    decreases n,
{
    if n <= 0 {
        0
    } else if lex_lt(list[n - 1], x) {
        n
    } else {
        rank_of(list, x, n - 1)
    }
}

/// The strictly increasing list `list` with `x` put in its place, unless it
/// is there already.
pub open spec fn insert_sorted(list: Seq<Seq<char>>, x: Seq<char>) -> Seq<Seq<char>> {
    let p = rank_of(list, x, list.len() as int);
    if p < list.len() && list[p] == x {
        list
    } else {
        list.insert(p, x)
    }
}

/// The first `n` texts of `items`, sorted and without duplicates.
pub open spec fn sorted_unique_upto(items: Seq<Seq<char>>, n: int) -> Seq<Seq<char>>
    decreases n,
{
    if n <= 0 {
        Seq::empty()
    } else {
        insert_sorted(sorted_unique_upto(items, n - 1), items[n - 1])
    }
}

/// The texts of `items`, sorted and without duplicates.
pub open spec fn sorted_unique(items: Seq<Seq<char>>) -> Seq<Seq<char>> {
    sorted_unique_upto(items, items.len() as int)
}

/// In a strictly increasing list, `rank_of` is the place of `x`: everything
/// before it comes before `x`, and nothing from it on does.
pub proof fn lemma_rank_of(list: Seq<Seq<char>>, x: Seq<char>, n: int)
    requires
        strictly_sorted(list),
        0 <= n <= list.len(),
    ensures
        0 <= rank_of(list, x, n) <= n,
        forall|i: int| 0 <= i < rank_of(list, x, n) ==> lex_lt(#[trigger] list[i], x),
        forall|i: int| rank_of(list, x, n) <= i < n ==> !lex_lt(#[trigger] list[i], x),
    decreases n,
{
    if n > 0 {
        if lex_lt(list[n - 1], x) {
            assert forall|i: int| 0 <= i < n implies lex_lt(#[trigger] list[i], x) by {
                if i < n - 1 {
                    lemma_lex_transitive(list[i], list[n - 1], x, 0);
                }
            }
        } else {
            lemma_rank_of(list, x, n - 1);
        }
    }
}

/// Inserting into a strictly increasing list gives a strictly increasing
/// list that holds `x` and what the list held, and nothing else.
pub proof fn lemma_insert_sorted(list: Seq<Seq<char>>, x: Seq<char>)
    requires
        strictly_sorted(list),
    ensures
        strictly_sorted(insert_sorted(list, x)),
        forall|y: Seq<char>| insert_sorted(list, x).contains(y) <==> (list.contains(y) || y == x),
{
    let n = list.len() as int;
    let p = rank_of(list, x, n);
    lemma_rank_of(list, x, n);
    let r = insert_sorted(list, x);
    if !(p < n && list[p] == x) {
        assert forall|i: int| p <= i < n implies lex_lt(x, #[trigger] list[i]) by {
            if !lex_lt(x, list[p]) {
                assert(list[p].take(0) == x.take(0));
                lemma_lex_total(list[p], x, 0);
            }
            if i > p {
                lemma_lex_transitive(x, list[p], list[i], 0);
            }
        }
        assert forall|y: Seq<char>| r.contains(y) <==> (list.contains(y) || y == x) by {
            if r.contains(y) {
                let k = choose|k: int| 0 <= k < r.len() && r[k] == y;
                if k < p {
                    assert(list[k] == y);
                } else if k > p {
                    assert(list[k - 1] == y);
                }
            }
            if list.contains(y) {
                let k = choose|k: int| 0 <= k < list.len() && list[k] == y;
                if k < p {
                    assert(r[k] == y);
                } else {
                    assert(r[k + 1] == y);
                }
            }
            if y == x {
                assert(r[p] == x);
            }
        }
    }
}

/// The sorted list without duplicates is strictly increasing and holds
/// exactly the texts of the items.
pub proof fn lemma_sorted_unique(items: Seq<Seq<char>>, n: int)
    requires
        0 <= n <= items.len(),
    ensures
        strictly_sorted(sorted_unique_upto(items, n)),
        forall|y: Seq<char>|
            sorted_unique_upto(items, n).contains(y) <==> items.take(n).contains(y),
    decreases n,
{
    if n > 0 {
        lemma_sorted_unique(items, n - 1);
        let prev = sorted_unique_upto(items, n - 1);
        lemma_insert_sorted(prev, items[n - 1]);
        assert forall|y: Seq<char>|
            sorted_unique_upto(items, n).contains(y) <==> items.take(n).contains(y) by {
            let longer = items.take(n);
            let shorter = items.take(n - 1);
            assert(sorted_unique_upto(items, n) == insert_sorted(prev, items[n - 1]));
            assert(sorted_unique_upto(items, n).contains(y) <==> (prev.contains(y) || y
                == items[n - 1]));
            assert(prev.contains(y) <==> shorter.contains(y));
            if longer.contains(y) {
                let k = choose|k: int| 0 <= k < longer.len() && longer[k] == y;
                if k < n - 1 {
                    assert(shorter[k] == y);
                }
            }
            if shorter.contains(y) {
                let k = choose|k: int| 0 <= k < shorter.len() && shorter[k] == y;
                assert(longer[k] == y);
            }
            if y == items[n - 1] {
                assert(items.take(n)[n - 1] == y);
            }
        }
    }
}

/// Puts `x` in its place in the strictly increasing list `list`, unless it
/// is there already.
pub fn insert_into_sorted(list: &mut Vec<Vec<char>>, x: Vec<char>)
    requires
        strictly_sorted(texts(old(list)@)),
    ensures
        texts(final(list)@) == insert_sorted(texts(old(list)@), x@),
        strictly_sorted(texts(final(list)@)),
{
    let ghost before = texts(list@);
    let mut p: usize = list.len();
    while p > 0 && !chars_lt(&list[p - 1], &x)
        invariant
            p <= list.len(),
            texts(list@) == before,
            rank_of(before, x@, before.len() as int) == rank_of(before, x@, p as int),
        decreases p,
    {
        p = p - 1;
    }
    proof {
        lemma_insert_sorted(before, x@);
    }
    if !(p < list.len() && crate::text::chars_eq(&list[p], &x)) {
        list.insert(p, x);
        assert(texts(list@) =~= before.insert(p as int, x@));
    }
}

} // verus!
