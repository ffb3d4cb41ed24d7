//! Properties that hold across the controller's operations.
use vstd::prelude::*;

use crate::contract::{minted_ids, pool_after_update, transferred, Cw721Controller};
use crate::msg::{Coin, ContractError, MyExecuteMsg};
use crate::order::{id_lt, lemma_id_lt_total};
use crate::payment::{funds_in, payment_denom};
use crate::pool::{lemma_sorted_no_duplicates, lemma_sorted_same_set_equal};

verus! {

/// Every request but minting is refused to a caller other than the owner,
/// with `Unauthorized`, and leaves the state exactly as it was.
pub proof fn lemma_non_owner_is_refused(
    pre: Cw721Controller,
    post: Cw721Controller,
    sender: Seq<char>,
    funds: Seq<Coin>,
    balance: Seq<Coin>,
    msg: MyExecuteMsg,
    r: Result<crate::msg::Response, ContractError>,
)
    requires
        Cw721Controller::execute_post(pre, post, sender, funds, balance, msg, r),
        !pre.is_owner(sender),
        !(msg is MintNft),
    ensures
        r == Err::<crate::msg::Response, ContractError>(ContractError::Unauthorized),
        post == pre,
{
}

/// A mint succeeds exactly when the payment in the controller's currency is
/// price times quantity and the pool holds at least that many identifiers;
/// a failed mint leaves the state as it was.
pub proof fn lemma_mint_succeeds_iff(
    pre: Cw721Controller,
    post: Cw721Controller,
    funds: Seq<Coin>,
    owner: Seq<char>,
    how_many: u32,
    r: Result<crate::msg::Response, ContractError>,
)
    requires
        pre.wf(),
        Cw721Controller::mint_post(pre, post, funds, owner, how_many, r),
    ensures
        r is Ok <==> (funds_in(funds, payment_denom()) == pre.uluna_price as int * how_many as int
            && how_many <= pre.pool().len()),
        !(r is Ok) ==> post == pre,
{
}

/// A successful mint of `how_many` shrinks the pool by exactly that many,
/// hands out the smallest identifiers it held, and none of them stays in
/// the pool.
pub proof fn lemma_mint_draws_smallest(
    pre: Cw721Controller,
    post: Cw721Controller,
    funds: Seq<Coin>,
    owner: Seq<char>,
    how_many: u32,
    r: Result<crate::msg::Response, ContractError>,
)
    requires
        pre.wf(),
        Cw721Controller::mint_post(pre, post, funds, owner, how_many, r),
        r is Ok,
    ensures
        post.pool().len() == pre.pool().len() - how_many,
        minted_ids(r->Ok_0).len() == how_many,
        forall|i: int|
            0 <= i < how_many ==> pre.pool().contains(#[trigger] minted_ids(r->Ok_0)[i]),
        forall|i: int, x: Seq<char>|
            0 <= i < how_many && pre.pool().contains(x) && !minted_ids(r->Ok_0).contains(x)
                ==> #[trigger] id_lt(minted_ids(r->Ok_0)[i], x),
        forall|i: int|
            0 <= i < how_many ==> !post.pool().contains(#[trigger] minted_ids(r->Ok_0)[i]),
        post.pool_set() == pre.pool_set().difference(minted_ids(r->Ok_0).to_set()),
{
    let p = pre.pool();
    let q = how_many as int;
    let d = minted_ids(r->Ok_0);
    assert(d == p.take(q));
    assert forall|i: int| 0 <= i < q implies p.contains(#[trigger] d[i]) by {
        assert(p[i] == d[i]);
    }
    assert forall|i: int, x: Seq<char>|
        0 <= i < q && p.contains(x) && !d.contains(x) implies #[trigger] id_lt(d[i], x) by {
        let k = choose|k: int| 0 <= k < p.len() && p[k] == x;
        if k < q {
            assert(d[k] == x);
        }
        assert(p[i] == d[i]);
    }
    assert forall|i: int| 0 <= i < q implies !post.pool().contains(#[trigger] d[i]) by {
        if post.pool().contains(d[i]) {
            let k = choose|k: int| 0 <= k < post.pool().len() && post.pool()[k] == d[i];
            assert(p[q + k] == p[i]);
            lemma_id_lt_total(p[i], p[i]);
        }
    }
    assert forall|x: Seq<char>| post.pool().contains(x) <==> p.contains(x) && !d.contains(x) by {
        if post.pool().contains(x) {
            let k = choose|k: int| 0 <= k < post.pool().len() && post.pool()[k] == x;
            assert(p[q + k] == x);
            if d.contains(x) {
                let i = choose|i: int| 0 <= i < d.len() && d[i] == x;
                assert(!post.pool().contains(d[i]));
            }
        }
        if p.contains(x) && !d.contains(x) {
            let k = choose|k: int| 0 <= k < p.len() && p[k] == x;
            if k < q {
                assert(d[k] == x);
            }
            assert(post.pool()[k - q] == x);
        }
    }
    assert(post.pool_set() =~= pre.pool_set().difference(d.to_set()));
}

/// Two successful mints in a row never hand out the same identifier.
pub proof fn lemma_mints_never_repeat(
    pre: Cw721Controller,
    mid: Cw721Controller,
    post: Cw721Controller,
    funds1: Seq<Coin>,
    funds2: Seq<Coin>,
    owner1: Seq<char>,
    owner2: Seq<char>,
    how_many1: u32,
    how_many2: u32,
    r1: Result<crate::msg::Response, ContractError>,
    r2: Result<crate::msg::Response, ContractError>,
)
    requires
        pre.wf(),
        Cw721Controller::mint_post(pre, mid, funds1, owner1, how_many1, r1),
        Cw721Controller::mint_post(mid, post, funds2, owner2, how_many2, r2),
        r1 is Ok,
        r2 is Ok,
    ensures
        forall|i: int, j: int|
            0 <= i < how_many1 && 0 <= j < how_many2 ==> #[trigger] minted_ids(r1->Ok_0)[i]
                != #[trigger] minted_ids(r2->Ok_0)[j],
{
    lemma_mint_draws_smallest(pre, mid, funds1, owner1, how_many1, r1);
    lemma_mint_draws_smallest(mid, post, funds2, owner2, how_many2, r2);
}

/// Adding an identifier that the pool already holds leaves the pool as it
/// was: the same identifiers, in the same order, none twice.
pub proof fn lemma_add_present_id_keeps_pool(
    pre: Cw721Controller,
    post: Cw721Controller,
    sender: Seq<char>,
    id: Seq<char>,
    r: Result<crate::msg::Response, ContractError>,
)
    requires
        pre.wf(),
        Cw721Controller::update_post(pre, post, sender, seq![id], seq![], r),
        pre.is_owner(sender),
        pre.pool().contains(id),
    ensures
        r is Ok,
        post.pool() == pre.pool(),
        post.pool().len() == pre.pool().len(),
        post.pool().no_duplicates(),
{
    assert(seq![id][0] == id);
    assert(seq![id].to_set() =~= set![id]);
    assert(Seq::<Seq<char>>::empty().to_set() =~= Set::<Seq<char>>::empty());
    assert(pool_after_update(pre.pool_set(), seq![id], seq![]) =~= pre.pool_set());
    lemma_sorted_same_set_equal(post.pool(), pre.pool());
    lemma_sorted_no_duplicates(post.pool());
}

/// Removing an identifier that the pool does not hold succeeds and leaves
/// the pool as it was.
pub proof fn lemma_remove_absent_id_is_noop(
    pre: Cw721Controller,
    post: Cw721Controller,
    sender: Seq<char>,
    id: Seq<char>,
    r: Result<crate::msg::Response, ContractError>,
)
    requires
        pre.wf(),
        Cw721Controller::update_post(pre, post, sender, seq![], seq![id], r),
        pre.is_owner(sender),
        !pre.pool().contains(id),
    ensures
        r is Ok,
        post.pool() == pre.pool(),
        post.pool().len() == pre.pool().len(),
{
    assert(seq![id][0] == id);
    assert(seq![id].to_set() =~= set![id]);
    assert(Seq::<Seq<char>>::empty().to_set() =~= Set::<Seq<char>>::empty());
    assert(pool_after_update(pre.pool_set(), seq![], seq![id]) =~= pre.pool_set());
    lemma_sorted_same_set_equal(post.pool(), pre.pool());
    lemma_sorted_no_duplicates(post.pool());
}

/// A withdrawal sends the whole balance, in every currency; a second one
/// right after it, from what the first left, sends nothing.
pub proof fn lemma_withdraw_twice(
    pre: Cw721Controller,
    mid: Cw721Controller,
    post: Cw721Controller,
    sender: Seq<char>,
    to_address: Seq<char>,
    balance1: Seq<Coin>,
    balance2: Seq<Coin>,
    r1: Result<crate::msg::Response, ContractError>,
    r2: Result<crate::msg::Response, ContractError>,
)
    requires
        pre.is_owner(sender),
        Cw721Controller::withdraw_post(pre, mid, sender, to_address, balance1, r1),
        Cw721Controller::withdraw_post(mid, post, sender, to_address, balance2, r2),
        r1 is Ok ==> forall|d: Seq<char>|
            #[trigger] funds_in(balance2, d) == funds_in(balance1, d) - funds_in(
                transferred(r1->Ok_0),
                d,
            ),
    ensures
        r1 is Ok,
        r2 is Ok,
        forall|d: Seq<char>| #[trigger]
            funds_in(transferred(r1->Ok_0), d) == funds_in(balance1, d),
        forall|d: Seq<char>| #[trigger] funds_in(transferred(r2->Ok_0), d) == 0,
{
    assert forall|d: Seq<char>| #[trigger] funds_in(transferred(r2->Ok_0), d) == 0 by {
        assert(funds_in(balance2, d) == 0);
    }
}

} // verus!
