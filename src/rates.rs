use vstd::prelude::*;

use crate::types::{ContractError, Rate, ReferenceData};

verus! {

/// Scale of a stored rate.
pub const E9: u64 = 1_000_000_000;

/// Scale of a reference rate.
pub const E18: u128 = 1_000_000_000_000_000_000;

/// The synthetic numeraire: its rate is never stored.
pub open spec fn is_usd(symbol: Seq<char>) -> bool {
    symbol == "USD"@
}

/// The rate that every lookup of `USD` yields: one, always fresh.
pub open spec fn usd_rate() -> Rate {
    Rate { rate: E9, resolve_time: u64::MAX, request_id: 0 }
}

/// The last rate recorded for `symbol` in `entries`.
pub open spec fn stored_rate(entries: Seq<(String, Rate)>, symbol: Seq<char>) -> Option<Rate>
    decreases entries.len(),
{
    if entries.len() == 0 {
        None
    } else if entries.last().0@ == symbol {
        Some(entries.last().1)
    } else {
        stored_rate(entries.drop_last(), symbol)
    }
}

/// A snapshot of the resolved rates, keyed by symbol.
pub struct RateStore {
    entries: Vec<(String, Rate)>,
}

impl RateStore {
    /// The rate stored for `symbol`, if any.
    pub closed spec fn stored(&self, symbol: Seq<char>) -> Option<Rate> {
        stored_rate(self.entries@, symbol)
    }

    pub fn new() -> (r: RateStore)
        ensures
            forall|s: Seq<char>| #[trigger] r.stored(s) == None::<Rate>,
    {
        RateStore { entries: Vec::new() }
    }

    /// Records `rate` for `symbol`, replacing what was stored for it.
    pub fn insert(&mut self, symbol: String, rate: Rate)
        ensures
            final(self).stored(symbol@) == Some(rate),
            forall|s: Seq<char>|
                s != symbol@ ==> #[trigger] final(self).stored(s) == old(self).stored(s),
    {
        let ghost before = self.entries@;
        self.entries.push((symbol, rate));
        assert(self.entries@.drop_last() =~= before);
    }

    /// The rate stored for `symbol`, if any.
    pub fn get(&self, symbol: &String) -> (r: Option<Rate>)
        ensures
            r == self.stored(symbol@),
    {
        let mut i: usize = self.entries.len();
        assert(self.entries@.take(i as int) =~= self.entries@);
        while i > 0
            invariant
                i <= self.entries@.len(),
                stored_rate(self.entries@, symbol@) == stored_rate(
                    self.entries@.take(i as int),
                    symbol@,
                ),
            decreases i,
        {
            let ghost prefix = self.entries@.take(i as int);
            assert(prefix.last() == self.entries@[i - 1]);
            if self.entries[i - 1].0 == *symbol {
                return Some(self.entries[i - 1].1);
            }
            assert(prefix.drop_last() =~= self.entries@.take(i - 1));
            i = i - 1;
        }
        assert(self.entries@.take(0) =~= Seq::<(String, Rate)>::empty());
        None
    }
}

/// A symbol as rate lookups see it: the synthetic numeraire, or one whose
/// rate is stored.
pub enum Symbol {
    Usd,
    Stored(String),
}

/// Tells the numeraire from stored symbols: every lookup goes through here.
pub fn classify_symbol(symbol: &String) -> (r: Symbol)
    ensures
        is_usd(symbol@) ==> r is Usd,
        !is_usd(symbol@) ==> r == Symbol::Stored(*symbol),
{
    let usd = <String as StringExecFns>::from_str("USD");
    if *symbol == usd {
        Symbol::Usd
    } else {
        Symbol::Stored(symbol.clone())
    }
}

/// What a lookup of `symbol` in `store` comes to.
pub open spec fn rate_result(store: RateStore, symbol: String) -> Result<Rate, ContractError> {
    if is_usd(symbol@) {
        Ok(usd_rate())
    } else {
        match store.stored(symbol@) {
            Some(r) => Ok(r),
            None => Err(ContractError::NotFound { symbol }),
        }
    }
}

/// The rate of `symbol`: the synthetic one for `USD`, else the stored one.
pub fn query_rate(store: &RateStore, symbol: &String) -> (r: Result<Rate, ContractError>)
    ensures
        r == rate_result(*store, *symbol),
        is_usd(symbol@) ==> r == Ok::<Rate, ContractError>(usd_rate()),
{
    match classify_symbol(symbol) {
        Symbol::Usd => Ok(Rate::new(E9, u64::MAX, 0)),
        Symbol::Stored(s) => match store.get(&s) {
            Some(rate) => Ok(rate),
            None => Err(ContractError::NotFound { symbol: s }),
        },
    }
}

/// The cross rate of `base` in units of `quote`, scaled by `10^18` and truncated.
pub open spec fn reference_of(base: Rate, quote: Rate) -> ReferenceData
    recommends
        quote.rate != 0,
{
    ReferenceData {
        rate: (base.rate as int * E18 as int / quote.rate as int) as u128,
        last_updated_base: base.resolve_time,
        last_updated_quote: quote.resolve_time,
    }
}

/// What the reference data of the pair `(base, quote)` comes to.
pub open spec fn reference_result(store: RateStore, base: String, quote: String) -> Result<
    ReferenceData,
    ContractError,
> {
    match rate_result(store, base) {
        Err(e) => Err(e),
        Ok(b) => match rate_result(store, quote) {
            Err(e) => Err(e),
            Ok(q) => if q.rate == 0 {
                Err(ContractError::ArithmeticFailure)
            } else {
                Ok(reference_of(b, q))
            },
        },
    }
}

/// The cross rate of a pair `(base, quote)` of symbols.
pub fn query_reference_data(store: &RateStore, symbol_pair: &(String, String)) -> (r: Result<
    ReferenceData,
    ContractError,
>)
    ensures
        r == reference_result(*store, symbol_pair.0, symbol_pair.1),
{
    let base = query_rate(store, &symbol_pair.0)?;
    let quote = query_rate(store, &symbol_pair.1)?;
    if quote.rate == 0 {
        return Err(ContractError::ArithmeticFailure);
    }
    let wide: u128 = base.rate as u128;
    assert(wide * E18 <= u64::MAX as u128 * E18) by (nonlinear_arith)
        requires
            wide <= u64::MAX,
    ;
    let scaled: u128 = wide * E18;
    let rate: u128 = scaled / (quote.rate as u128);
    Ok(ReferenceData::new(rate, base.resolve_time, quote.resolve_time))
}

/// What the reference data of every pair in turn comes to: the first failure,
/// or all the results in order.
pub open spec fn bulk_result(store: RateStore, pairs: Seq<(String, String)>) -> Result<
    Seq<ReferenceData>,
    ContractError,
>
    decreases pairs.len(),
{
    if pairs.len() == 0 {
        Ok(Seq::empty())
    } else {
        match bulk_result(store, pairs.drop_last()) {
            Err(e) => Err(e),
            Ok(done) => match reference_result(store, pairs.last().0, pairs.last().1) {
                Err(e) => Err(e),
                Ok(d) => Ok(done.push(d)),
            },
        }
    }
}

/// Once a prefix of the pairs fails, the whole batch fails with its error.
proof fn lemma_bulk_failed_prefix(store: RateStore, pairs: Seq<(String, String)>, n: int)
    requires
        0 <= n <= pairs.len(),
        bulk_result(store, pairs.take(n)) is Err,
    ensures
        bulk_result(store, pairs) == bulk_result(store, pairs.take(n)),
    decreases pairs.len() - n,
{
    if n < pairs.len() {
        assert(pairs.take(n + 1).drop_last() =~= pairs.take(n));
        lemma_bulk_failed_prefix(store, pairs, n + 1);
    } else {
        assert(pairs.take(n) =~= pairs);
    }
}

/// For two stored symbols whose quote rate is not zero, the reference rate is
/// exactly the base rate times `10^18` divided by the quote rate, truncated.
pub proof fn lemma_cross_rate(store: RateStore, base: String, quote: String)
    requires
        !is_usd(base@),
        !is_usd(quote@),
        store.stored(base@) is Some,
        store.stored(quote@) is Some,
        store.stored(quote@)->Some_0.rate != 0,
    ensures
        reference_result(store, base, quote) is Ok,
        reference_result(store, base, quote)->Ok_0.rate as int == store.stored(base@)->Some_0.rate
            as int * 1_000_000_000_000_000_000 / store.stored(quote@)->Some_0.rate as int,
{
    let b = store.stored(base@)->Some_0.rate as int;
    let q = store.stored(quote@)->Some_0.rate as int;
    assert(0 <= b * 1_000_000_000_000_000_000 / q <= b * 1_000_000_000_000_000_000) by (
    nonlinear_arith)
        requires
            0 <= b,
            1 <= q,
    ;
    assert(b * 1_000_000_000_000_000_000 <= u64::MAX as int * 1_000_000_000_000_000_000) by (
    nonlinear_arith)
        requires
            0 <= b <= u64::MAX,
    ;
}

/// A batch that succeeds answers every pair, in the order of the pairs.
pub proof fn lemma_bulk_in_order(store: RateStore, pairs: Seq<(String, String)>)
    requires
        bulk_result(store, pairs) is Ok,
    ensures
        bulk_result(store, pairs)->Ok_0.len() == pairs.len(),
        forall|i: int|
            0 <= i < pairs.len() ==> #[trigger] reference_result(store, pairs[i].0, pairs[i].1)
                == Ok::<ReferenceData, ContractError>(bulk_result(store, pairs)->Ok_0[i]),
    decreases pairs.len(),
{
    if pairs.len() > 0 {
        let init = pairs.drop_last();
        lemma_bulk_in_order(store, init);
        assert forall|i: int| 0 <= i < pairs.len() implies #[trigger] reference_result(
            store,
            pairs[i].0,
            pairs[i].1,
        ) == Ok::<ReferenceData, ContractError>(bulk_result(store, pairs)->Ok_0[i]) by {
            if i < pairs.len() - 1 {
                assert(pairs[i] == init[i]);
                assert(reference_result(store, init[i].0, init[i].1) == Ok::<
                    ReferenceData,
                    ContractError,
                >(bulk_result(store, init)->Ok_0[i]));
            }
        }
    }
}

/// A batch with a failing pair fails as a whole: it answers no pair at all.
pub proof fn lemma_bulk_all_or_nothing(store: RateStore, pairs: Seq<(String, String)>, i: int)
    requires
        0 <= i < pairs.len(),
        reference_result(store, pairs[i].0, pairs[i].1) is Err,
    ensures
        bulk_result(store, pairs) is Err,
    decreases pairs.len(),
{
    if i < pairs.len() - 1 {
        let init = pairs.drop_last();
        assert(init[i] == pairs[i]);
        lemma_bulk_all_or_nothing(store, init, i);
    }
}

/// The reference data of every pair, in input order; all or nothing.
pub fn query_reference_data_bulk(store: &RateStore, symbol_pairs: &[(String, String)]) -> (r: Result<
    Vec<ReferenceData>,
    ContractError,
>)
    ensures
        match bulk_result(*store, symbol_pairs@) {
            Ok(s) => r is Ok && r->Ok_0@ == s,
            Err(e) => r == Err::<Vec<ReferenceData>, ContractError>(e),
        },
{
    let mut out: Vec<ReferenceData> = Vec::new();
    let mut i: usize = 0;
    assert(symbol_pairs@.take(0) =~= Seq::<(String, String)>::empty());
    while i < symbol_pairs.len()
        invariant
            i <= symbol_pairs@.len(),
            bulk_result(*store, symbol_pairs@.take(i as int)) == Ok::<
                Seq<ReferenceData>,
                ContractError,
            >(out@),
        decreases symbol_pairs@.len() - i,
    {
        let ghost next = symbol_pairs@.take(i + 1);
        assert(next.drop_last() =~= symbol_pairs@.take(i as int));
        assert(next.last() == symbol_pairs@[i as int]);
        match query_reference_data(store, &symbol_pairs[i]) {
            Ok(d) => {
                out.push(d);
            },
            Err(e) => {
                proof {
                    lemma_bulk_failed_prefix(*store, symbol_pairs@, i + 1);
                }
                return Err(e);
            },
        }
        i = i + 1;
    }
    assert(symbol_pairs@.take(i as int) =~= symbol_pairs@);
    Ok(out)
}

} // verus!
