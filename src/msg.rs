use vstd::prelude::*;

use crate::rates::{
    bulk_result, query_rate, query_reference_data, query_reference_data_bulk, rate_result,
    reference_result, RateStore,
};
use crate::types::{Coin, ContractError, Rate, ReferenceData};

verus! {

/// The operations that change the feed's state or move funds.
#[derive(Clone, Debug)]
pub enum ExecuteMsg {
    /// Asks the oracle network for the rates of `symbols`; must be paid for.
    Request { symbols: Vec<String> },
    /// Withdraws `amount` of `denom` to `address`, or the whole balance of
    /// `denom` when no amount is given. Only the manager can do that.
    Withdraw { denom: String, amount: Option<u128>, address: String },
    /// Replaces the configuration fields that are given. Only the manager can
    /// do that.
    UpdateConfig {
        client_id: Option<String>,
        manager: Option<String>,
        prices: Option<Vec<Coin>>,
        oracle_script_id: Option<u64>,
        ask_count: Option<u64>,
        min_count: Option<u64>,
        fee_limit: Option<Vec<Coin>>,
        prepare_gas: Option<u64>,
        execute_gas: Option<u64>,
        minimum_sources: Option<u8>,
    },
}

/// The read-only queries of the feed.
#[derive(Debug)]
pub enum QueryMsg {
    /// The rate of one symbol.
    GetRate { symbol: String },
    /// The reference data of a pair `(base, quote)`, e.g. `("BTC", "USD")`.
    GetReferenceData { symbol_pair: (String, String) },
    /// The reference data of each pair, in order.
    GetReferenceDataBulk { symbol_pairs: Vec<(String, String)> },
}

/// The answer to a query.
#[derive(Clone, Debug)]
pub enum QueryResponse {
    Rate(Rate),
    ReferenceData(ReferenceData),
    ReferenceDataBulk(Vec<ReferenceData>),
}

/// Answers `msg` from the rates in `store`.
pub fn query(store: &RateStore, msg: &QueryMsg) -> (r: Result<QueryResponse, ContractError>)
    ensures
        *msg matches QueryMsg::GetRate { symbol } ==> match rate_result(*store, symbol) {
            Ok(x) => r == Ok::<QueryResponse, ContractError>(QueryResponse::Rate(x)),
            Err(e) => r == Err::<QueryResponse, ContractError>(e),
        },
        *msg matches QueryMsg::GetReferenceData { symbol_pair } ==> match reference_result(
            *store,
            symbol_pair.0,
            symbol_pair.1,
        ) {
            Ok(x) => r == Ok::<QueryResponse, ContractError>(QueryResponse::ReferenceData(x)),
            Err(e) => r == Err::<QueryResponse, ContractError>(e),
        },
        *msg matches QueryMsg::GetReferenceDataBulk { symbol_pairs } ==> match bulk_result(
            *store,
            symbol_pairs@,
        ) {
            Ok(s) => r matches Ok(QueryResponse::ReferenceDataBulk(v)) && v@ == s,
            Err(e) => r == Err::<QueryResponse, ContractError>(e),
        },
{
    match msg {
        QueryMsg::GetRate { symbol } => {
            let rate = query_rate(store, symbol)?;
            Ok(QueryResponse::Rate(rate))
        },
        QueryMsg::GetReferenceData { symbol_pair } => {
            let data = query_reference_data(store, symbol_pair)?;
            Ok(QueryResponse::ReferenceData(data))
        },
        QueryMsg::GetReferenceDataBulk { symbol_pairs } => {
            let all = query_reference_data_bulk(store, symbol_pairs.as_slice())?;
            Ok(QueryResponse::ReferenceDataBulk(all))
        },
    }
}

} // verus!
