//! Payment validation: what a request pays in the controller's currency.
use vstd::prelude::*;

use crate::msg::Coin;

verus! {

/// The one currency the controller accepts.
pub open spec fn payment_denom() -> Seq<char> {
    seq!['u', 'l', 'u', 'n', 'a']
}

/// The sum of the amounts in `funds` given in currency `denom`; other
/// currencies count for nothing.
pub open spec fn funds_in(funds: Seq<Coin>, denom: Seq<char>) -> int
    decreases funds.len(),
{
    if funds.len() == 0 {
        0
    } else {
        funds_in(funds.drop_last(), denom) + if funds.last().denom@ == denom {
            funds.last().amount as int
        } else {
            0
        }
    }
}

/// Whether `funds` pay exactly `price * quantity` in the controller's
/// currency. A sum beyond `u128` is more than any price and fails.
pub fn pays_exactly(funds: &Vec<Coin>, price: u32, quantity: u32) -> (r: bool)
    ensures
        r == (funds_in(funds@, payment_denom()) == price as int * quantity as int),
{
    let denom = "uluna".to_owned();
    proof {
        reveal_strlit("uluna");
        assert(denom@ =~= payment_denom());
    }
    proof {
        let (p, q) = (price as int, quantity as int);
        assert(p * q <= u32::MAX as int * u32::MAX as int) by (nonlinear_arith)
            requires
                0 <= p <= u32::MAX,
                0 <= q <= u32::MAX,
        ;
    }
    let required: u128 = price as u128 * quantity as u128;
    let mut total: u128 = 0;
    let mut i: usize = 0;
    while i < funds.len()
        invariant
            i <= funds@.len(),
            denom@ == payment_denom(),
            price as int * quantity as int <= u32::MAX as int * u32::MAX as int,
            total as int == funds_in(funds@.take(i as int), payment_denom()),
        decreases funds@.len() - i,
    {
        proof {
            assert(funds@.take(i + 1).drop_last() =~= funds@.take(i as int));
        }
        if funds[i].denom.eq(&denom) {
            match total.checked_add(funds[i].amount) {
                Some(t) => total = t,
                None => {
                    proof {
                        assert(funds@.take(i + 1).last() == funds@[i as int]);
                        assert(funds_in(funds@.take(i + 1), payment_denom()) == total
                            + funds@[i as int].amount);
                        lemma_more_funds_exceed(funds@, i as int);
                    }
                    return false;
                },
            }
        }
        i = i + 1;
    }
    assert(funds@.take(i as int) =~= funds@);
    total == required
}

/// Once a prefix of `funds` sums past `u128`, so does the whole.
proof fn lemma_more_funds_exceed(funds: Seq<Coin>, i: int)
    requires
        0 <= i < funds.len(),
        funds_in(funds.take(i + 1), payment_denom()) > u128::MAX,
    ensures
        funds_in(funds, payment_denom()) > u32::MAX as int * u32::MAX as int,
    decreases funds.len(),
{
    if i + 1 < funds.len() {
        assert(funds.drop_last().take(i + 1) =~= funds.take(i + 1));
        lemma_more_funds_exceed(funds.drop_last(), i);
    } else {
        assert(funds.take(i + 1) =~= funds);
    }
}

} // verus!
