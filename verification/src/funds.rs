use crate::ledger::{Coin, CoinView};
use vstd::prelude::*;

verus! {

/// The denominations, in the order of `funds`, of the coins that are not in `valid_denom`.
pub open spec fn invalid_denoms(funds: Seq<CoinView>, valid_denom: Seq<char>) -> Seq<Seq<char>>
    decreases funds.len(),
{
    if funds.len() == 0 {
        Seq::empty()
    } else {
        let before = invalid_denoms(funds.drop_last(), valid_denom);
        if funds.last().denom != valid_denom {
            before.push(funds.last().denom)
        } else {
            before
        }
    }
}

/// The sum of the amounts of `funds`.
pub open spec fn total_amount(funds: Seq<CoinView>) -> nat
    decreases funds.len(),
{
    if funds.len() == 0 {
        0
    } else {
        total_amount(funds.drop_last()) + funds.last().amount as nat
    }
}

/// Funds are rejected for their denominations exactly when one coin is in another
/// denomination than the valid one, and the list of invalid denominations holds exactly
/// the denominations of such coins: each entry is the denomination of a coin of the
/// funds and differs from the valid one, and every coin in another denomination has its
/// denomination in the list.
pub proof fn lemma_invalid_denoms_exact(funds: Seq<CoinView>, valid_denom: Seq<char>)
    ensures
        invalid_denoms(funds, valid_denom).len() == 0 <==> forall|i: int|
            0 <= i < funds.len() ==> (#[trigger] funds[i]).denom == valid_denom,
        forall|k: int|
            0 <= k < invalid_denoms(funds, valid_denom).len() ==> {
                &&& (#[trigger] invalid_denoms(funds, valid_denom)[k]) != valid_denom
                &&& exists|i: int|
                    0 <= i < funds.len() && (#[trigger] funds[i]).denom == invalid_denoms(
                        funds,
                        valid_denom,
                    )[k]
            },
        forall|i: int|
            0 <= i < funds.len() && (#[trigger] funds[i]).denom != valid_denom
                ==> invalid_denoms(funds, valid_denom).contains(funds[i].denom),
        invalid_denoms(funds, valid_denom).len() <= funds.len(),
    decreases funds.len(),
{
    if funds.len() > 0 {
        let head = funds.drop_last();
        let before = invalid_denoms(head, valid_denom);
        let all = invalid_denoms(funds, valid_denom);
        lemma_invalid_denoms_exact(head, valid_denom);
        assert forall|i: int| 0 <= i < funds.len() - 1 implies (#[trigger] funds[i])
            == head[i] by {}
        if all.len() == 0 {
            assert forall|i: int| 0 <= i < funds.len() implies (#[trigger] funds[i]).denom
                == valid_denom by {
                if i < funds.len() - 1 {
                    assert(head[i].denom == valid_denom);
                }
            }
        } else {
            if funds.last().denom == valid_denom {
                let j = choose|j: int|
                    0 <= j < head.len() && (#[trigger] head[j]).denom != valid_denom;
                assert(funds[j].denom != valid_denom);
            } else {
                assert(funds[funds.len() - 1].denom != valid_denom);
            }
        }
        assert forall|k: int| 0 <= k < all.len() implies {
            &&& (#[trigger] all[k]) != valid_denom
            &&& exists|i: int| 0 <= i < funds.len() && (#[trigger] funds[i]).denom == all[k]
        } by {
            if k < before.len() {
                assert(all[k] == before[k]);
                let i = choose|i: int|
                    0 <= i < head.len() && (#[trigger] head[i]).denom == before[k];
                assert(funds[i].denom == all[k]);
            } else {
                assert(funds[funds.len() - 1].denom == all[k]);
            }
        }
        assert forall|i: int|
            0 <= i < funds.len() && (#[trigger] funds[i]).denom != valid_denom implies all.contains(
            funds[i].denom,
        ) by {
            if i < funds.len() - 1 {
                assert(head[i].denom != valid_denom);
                let k = choose|k: int| 0 <= k < before.len() && before[k] == head[i].denom;
                assert(all[k] == funds[i].denom);
            } else {
                assert(all[all.len() - 1] == funds[i].denom);
            }
        }
    }
}

/// The sum of a part of the funds, taken from the front, is at most the sum of all.
pub proof fn lemma_total_amount_prefix(funds: Seq<CoinView>, k: int)
    requires
        0 <= k <= funds.len(),
    ensures
        total_amount(funds.subrange(0, k)) <= total_amount(funds),
    decreases funds.len(),
{
    if k == funds.len() {
        assert(funds.subrange(0, k) =~= funds);
    } else {
        lemma_total_amount_prefix(funds.drop_last(), k);
        assert(funds.drop_last().subrange(0, k) =~= funds.subrange(0, k));
    }
}

/// Lists the denominations of the coins that are not in `valid_denom`.
pub fn find_invalid_denoms(funds: &Vec<Coin>, valid_denom: &String) -> (r: Vec<String>)
    ensures
        r.deep_view() == invalid_denoms(funds.deep_view(), valid_denom@),
{
    let mut invalid: Vec<String> = Vec::new();
    let mut i: usize = 0;
    while i < funds.len()
        invariant
            i <= funds.len(),
            invalid.deep_view() == invalid_denoms(
                funds.deep_view().subrange(0, i as int),
                valid_denom@,
            ),
        decreases funds.len() - i,
    {
        let ghost next = funds.deep_view().subrange(0, i + 1);
        assert(next.drop_last() =~= funds.deep_view().subrange(0, i as int));
        if funds[i].denom != *valid_denom {
            invalid.push(funds[i].denom.clone());
        }
        i += 1;
    }
    assert(funds.deep_view().subrange(0, i as int) =~= funds.deep_view());
    invalid
}

/// Adds up the amounts of the funds, where their sum is an amount that 128 bits hold.
pub fn sum_amounts(funds: &Vec<Coin>) -> (r: Option<u128>)
    ensures
        r == if total_amount(funds.deep_view()) <= u128::MAX {
            Some(total_amount(funds.deep_view()) as u128)
        } else {
            None
        },
{
    let mut sum: u128 = 0;
    let mut i: usize = 0;
    while i < funds.len()
        invariant
            i <= funds.len(),
            sum == total_amount(funds.deep_view().subrange(0, i as int)),
        decreases funds.len() - i,
    {
        let ghost next = funds.deep_view().subrange(0, i + 1);
        assert(next.drop_last() =~= funds.deep_view().subrange(0, i as int));
        if funds[i].amount > u128::MAX - sum {
            proof {
                lemma_total_amount_prefix(funds.deep_view(), i + 1);
            }
            return None;
        }
        sum = sum + funds[i].amount;
        i += 1;
    }
    assert(funds.deep_view().subrange(0, i as int) =~= funds.deep_view());
    Some(sum)
}

} // verus!
