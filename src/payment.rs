use vstd::prelude::*;

use crate::types::{Coin, ContractError};

verus! {

/// The price asked in `denom`: the amount of the last entry of `prices` in
/// that denomination, so that a later entry overrides an earlier one.
pub open spec fn price_of(prices: Seq<Coin>, denom: Seq<char>) -> Option<u128>
    decreases prices.len(),
{
    if prices.len() == 0 {
        None
    } else if prices.last().denom@ == denom {
        Some(prices.last().amount)
    } else {
        price_of(prices.drop_last(), denom)
    }
}

/// `fund` alone pays a price: its denomination is priced and the amount covers it.
pub open spec fn covers_price(prices: Seq<Coin>, fund: Coin) -> bool {
    match price_of(prices, fund.denom@) {
        Some(p) => fund.amount >= p,
        None => false,
    }
}

/// Some single entry of `funds` pays a price.
pub open spec fn some_fund_pays(prices: Seq<Coin>, funds: Seq<Coin>) -> bool {
    exists|i: int| 0 <= i < funds.len() && covers_price(prices, #[trigger] funds[i])
}

/// What paying `funds` against `prices` comes to.
pub open spec fn payment_result(prices: Seq<Coin>, funds: Seq<Coin>) -> Result<(), ContractError> {
    if prices.len() == 0 {
        Err(ContractError::NoPaymentOption)
    } else if some_fund_pays(prices, funds) {
        Ok(())
    } else {
        Err(ContractError::InsufficientPayment)
    }
}

fn lookup_price(prices: &[Coin], denom: &String) -> (r: Option<u128>)
    ensures
        r == price_of(prices@, denom@),
{
    let mut i: usize = prices.len();
    assert(prices@.take(i as int) =~= prices@);
    while i > 0
        invariant
            i <= prices@.len(),
            price_of(prices@, denom@) == price_of(prices@.take(i as int), denom@),
        decreases i,
    {
        let ghost prefix = prices@.take(i as int);
        assert(prefix.last() == prices@[i - 1]);
        if prices[i - 1].denom == *denom {
            return Some(prices[i - 1].amount);
        }
        assert(prefix.drop_last() =~= prices@.take(i - 1));
        i = i - 1;
    }
    assert(prices@.take(0) =~= Seq::<Coin>::empty());
    None
}

/// Checks that `funds` pay the price in one of the accepted denominations.
/// Payment cannot be split across denominations and extra funds are ignored.
/// An empty price list accepts no payment at all, which closes the feed.
pub fn validate_payment(prices: &[Coin], funds: &[Coin]) -> (r: Result<(), ContractError>)
    ensures
        prices@.len() == 0 ==> r == Err::<(), ContractError>(ContractError::NoPaymentOption),
        prices@.len() > 0 && some_fund_pays(prices@, funds@) ==> r is Ok,
        prices@.len() > 0 && !some_fund_pays(prices@, funds@) ==> r == Err::<(), ContractError>(
            ContractError::InsufficientPayment,
        ),
        r == payment_result(prices@, funds@),
{
    if prices.len() == 0 {
        return Err(ContractError::NoPaymentOption);
    }
    let mut j: usize = 0;
    while j < funds.len()
        invariant
            j <= funds@.len(),
            forall|k: int| 0 <= k < j ==> !covers_price(prices@, #[trigger] funds@[k]),
        decreases funds@.len() - j,
    {
        let fund = &funds[j];
        match lookup_price(prices, &fund.denom) {
            Some(price) => {
                if fund.amount >= price {
                    assert(covers_price(prices@, funds@[j as int]));
                    return Ok(());
                }
            },
            None => {},
        }
        j = j + 1;
    }
    Err(ContractError::InsufficientPayment)
}

} // verus!
