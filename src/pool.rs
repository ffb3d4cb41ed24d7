//! The pool of identifiers still eligible for issuance, held as a vector
//! kept in strictly ascending identifier order.
use vstd::prelude::*;

use crate::order::{compare_ids, id_lt, lemma_id_lt_total, lemma_id_lt_transitive};

verus! {

/// The identifiers of a vector of strings.
pub open spec fn ids_of(v: Seq<String>) -> Seq<Seq<char>> {
    v.map_values(|s: String| s@)
}

/// Strictly ascending: hence also free of duplicates.
pub open spec fn sorted_ids(p: Seq<Seq<char>>) -> bool {
    forall|i: int, j: int| 0 <= i < j < p.len() ==> id_lt(#[trigger] p[i], #[trigger] p[j])
}

/// A strictly ascending sequence holds no identifier twice.
pub proof fn lemma_sorted_no_duplicates(p: Seq<Seq<char>>)
    requires
        sorted_ids(p),
    ensures
        p.no_duplicates(),
{
    assert forall|i: int, j: int| 0 <= i < p.len() && 0 <= j < p.len() && i != j implies p[i]
        != p[j] by {
        lemma_id_lt_total(p[i], p[j]);
    }
}

/// The identifiers of a strictly ascending sequence after its first.
proof fn lemma_sorted_rest(p: Seq<Seq<char>>)
    requires
        sorted_ids(p),
        p.len() > 0,
    ensures
        sorted_ids(p.drop_first()),
        forall|x: Seq<char>| #[trigger] p.drop_first().contains(x) <==> p.contains(x) && x != p[0],
{
    assert forall|x: Seq<char>| p.drop_first().contains(x) <==> p.contains(x) && x != p[0] by {
        if p.drop_first().contains(x) {
            let k = choose|k: int| 0 <= k < p.len() - 1 && p.drop_first()[k] == x;
            assert(p[k + 1] == x);
            lemma_id_lt_total(p[0], p[0]);
        }
        if p.contains(x) && x != p[0] {
            let k = choose|k: int| 0 <= k < p.len() && p[k] == x;
            assert(p.drop_first()[k - 1] == x);
        }
    }
}

/// Two strictly ascending sequences that hold the same identifiers are
/// the same sequence.
pub proof fn lemma_sorted_same_set_equal(p: Seq<Seq<char>>, q: Seq<Seq<char>>)
    requires
        sorted_ids(p),
        sorted_ids(q),
        p.to_set() == q.to_set(),
    ensures
        p == q,
    decreases p.len(),
{
    if p.len() == 0 || q.len() == 0 {
        if p.len() > 0 {
            assert(p.to_set().contains(p[0]));
        }
        if q.len() > 0 {
            assert(q.to_set().contains(q[0]));
        }
        assert(p =~= q);
    } else {
        assert(p.to_set().contains(p[0]));
        assert(q.to_set().contains(q[0]));
        let k = choose|k: int| 0 <= k < q.len() && q[k] == p[0];
        let m = choose|m: int| 0 <= m < p.len() && p[m] == q[0];
        if k > 0 && m > 0 {
            lemma_id_lt_total(q[0], p[0]);
        }
        if k > 0 && m == 0 {
            lemma_id_lt_total(q[0], q[0]);
        }
        assert(p[0] == q[0]);
        lemma_sorted_rest(p);
        lemma_sorted_rest(q);
        assert forall|x: Seq<char>| p.drop_first().contains(x) <==> q.drop_first().contains(x) by {
            assert(p.to_set().contains(x) <==> p.contains(x));
            assert(q.to_set().contains(x) <==> q.contains(x));
            assert(p.to_set().contains(x) == q.to_set().contains(x));
            assert(p.contains(x) == q.contains(x));
            assert(p.drop_first().contains(x) == (p.contains(x) && x != p[0]));
            assert(q.drop_first().contains(x) == (q.contains(x) && x != q[0]));
        }
        assert(p.drop_first().to_set() =~= q.drop_first().to_set());
        lemma_sorted_same_set_equal(p.drop_first(), q.drop_first());
        assert(p =~= seq![p[0]] + p.drop_first());
        assert(q =~= seq![q[0]] + q.drop_first());
    }
}

proof fn lemma_insert_sorted(p: Seq<Seq<char>>, i: int, x: Seq<char>)
    requires
        sorted_ids(p),
        0 <= i <= p.len(),
        forall|j: int| 0 <= j < i ==> id_lt(#[trigger] p[j], x),
        forall|j: int| i <= j < p.len() ==> id_lt(x, #[trigger] p[j]),
    ensures
        sorted_ids(p.insert(i, x)),
        p.insert(i, x).to_set() == p.to_set().insert(x),
{
    let q = p.insert(i, x);
    assert forall|a: int, b: int| 0 <= a < b < q.len() implies id_lt(#[trigger] q[a], #[trigger] q[b]) by {
        if b < i {
        } else if b == i {
        } else if a < i {
            lemma_id_lt_transitive(p[a], x, p[b - 1]);
        } else if a == i {
        } else {
        }
    }
    assert forall|y: Seq<char>| q.contains(y) <==> p.contains(y) || y == x by {
        if p.contains(y) {
            let k = choose|k: int| 0 <= k < p.len() && p[k] == y;
            if k < i {
                assert(q[k] == y);
            } else {
                assert(q[k + 1] == y);
            }
        }
        if q.contains(y) {
            let k = choose|k: int| 0 <= k < q.len() && q[k] == y;
            if k < i {
                assert(p[k] == y);
            } else if k > i {
                assert(p[k - 1] == y);
            }
        }
        assert(q[i] == x);
    }
    assert(q.to_set() =~= p.to_set().insert(x));
}

/// Adds `id` to the pool; an identifier already there is left as it is.
pub fn insert_id(pool: &mut Vec<String>, id: &String)
    requires
        sorted_ids(ids_of(old(pool)@)),
    ensures
        sorted_ids(ids_of(final(pool)@)),
        ids_of(final(pool)@).to_set() == ids_of(old(pool)@).to_set().insert(id@),
{
    let ghost p = ids_of(pool@);
    let mut i: usize = 0;
    while i < pool.len()
        invariant
            p == ids_of(pool@),
            p == ids_of(old(pool)@),
            sorted_ids(p),
            i <= pool@.len(),
            forall|j: int| 0 <= j < i ==> id_lt(#[trigger] p[j], id@),
        decreases pool@.len() - i,
    {
        let c = compare_ids(&pool[i], id);
        if c == 0 {
            proof {
                assert(p[i as int] == id@);
                assert(p.to_set().insert(id@) =~= p.to_set());
            }
            return;
        }
        if c > 0 {
            proof {
                assert forall|j: int| i <= j < p.len() implies id_lt(id@, #[trigger] p[j]) by {
                    if j > i {
                        lemma_id_lt_transitive(id@, p[i as int], p[j]);
                    }
                }
                lemma_insert_sorted(p, i as int, id@);
            }
            pool.insert(i, id.clone());
            proof {
                assert(ids_of(pool@) =~= p.insert(i as int, id@));
            }
            return;
        }
        i = i + 1;
    }
    proof {
        lemma_insert_sorted(p, i as int, id@);
    }
    pool.insert(i, id.clone());
    proof {
        assert(ids_of(pool@) =~= p.insert(i as int, id@));
    }
}

/// Takes `id` out of the pool; an absent identifier is no error.
pub fn remove_id(pool: &mut Vec<String>, id: &String)
    requires
        sorted_ids(ids_of(old(pool)@)),
    ensures
        sorted_ids(ids_of(final(pool)@)),
        ids_of(final(pool)@).to_set() == ids_of(old(pool)@).to_set().remove(id@),
{
    let ghost p = ids_of(pool@);
    let mut i: usize = 0;
    while i < pool.len()
        invariant
            p == ids_of(pool@),
            p == ids_of(old(pool)@),
            sorted_ids(p),
            i <= pool@.len(),
            forall|j: int| 0 <= j < i ==> #[trigger] p[j] != id@,
        decreases pool@.len() - i,
    {
        if compare_ids(&pool[i], id) == 0 {
            pool.remove(i);
            proof {
                let q = ids_of(pool@);
                assert(q =~= p.remove(i as int));
                assert forall|y: Seq<char>| q.contains(y) <==> p.contains(y) && y != id@ by {
                    if p.contains(y) && y != id@ {
                        let k = choose|k: int| 0 <= k < p.len() && p[k] == y;
                        if k < i {
                            assert(q[k] == y);
                        } else {
                            assert(q[k - 1] == y);
                        }
                    }
                    if q.contains(y) {
                        let k = choose|k: int| 0 <= k < q.len() && q[k] == y;
                        if k < i {
                            assert(p[k] == y);
                            lemma_id_lt_total(p[k], p[i as int]);
                        } else {
                            assert(p[k + 1] == y);
                            lemma_id_lt_total(p[i as int], p[k + 1]);
                        }
                    }
                }
                assert(q.to_set() =~= p.to_set().remove(id@));
            }
            return;
        }
        i = i + 1;
    }
    assert(p.to_set().remove(id@) =~= p.to_set());
}

/// Splits off the first `count` identifiers of the pool and returns them.
pub fn draw_ids(pool: &mut Vec<String>, count: usize) -> (drawn: Vec<String>)
    requires
        count <= old(pool)@.len(),
    ensures
        drawn@ == old(pool)@.take(count as int),
        final(pool)@ == old(pool)@.skip(count as int),
{
    let mut rest = pool.split_off(count);
    std::mem::swap(pool, &mut rest);
    rest
}

} // verus!
