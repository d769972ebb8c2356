use vstd::prelude::*;

verus! {

/// An amount of one denomination of a native asset.
#[derive(Clone, Debug)]
pub struct Coin {
    pub denom: String,
    pub amount: u128,
}

impl Coin {
    pub fn new(amount: u128, denom: String) -> (r: Coin)
        ensures
            r == (Coin { denom, amount }),
    {
        Coin { denom, amount }
    }
}

/// The oracle parameters and the identity allowed to administer the feed.
#[derive(Clone, Debug)]
pub struct Config {
    /// Identifies this requester to the oracle network.
    pub client_id: String,
    /// The only sender allowed to change the configuration or withdraw funds.
    pub manager: String,
    /// Accepted ways to pay for a request: one of these, never a split.
    /// An empty list closes the feed to new requests.
    pub prices: Vec<Coin>,
    pub oracle_script_id: u64,
    /// Number of validators asked to answer.
    pub ask_count: u64,
    /// Number of validators that must answer.
    pub min_count: u64,
    /// Cap on the fees paid to the data-source providers.
    pub fee_limit: Vec<Coin>,
    pub prepare_gas: u64,
    pub execute_gas: u64,
    /// Distinct data sources needed for a resolved answer.
    pub minimum_sources: u8,
}

/// A resolved rate, scaled by `10^9`.
#[derive(Clone, Copy, Debug, PartialEq, Eq, Structural)]
pub struct Rate {
    pub rate: u64,
    pub resolve_time: u64,
    pub request_id: u64,
}

impl Rate {
    pub fn new(rate: u64, resolve_time: u64, request_id: u64) -> (r: Rate)
        ensures
            r == (Rate { rate, resolve_time, request_id }),
    {
        Rate { rate, resolve_time, request_id }
    }
}

/// A cross rate of two resolved rates, scaled by `10^18`.
///
/// The value always fits in 128 bits: it is at most `(2^64 - 1) * 10^18`.
#[derive(Clone, Copy, Debug, PartialEq, Eq, Structural)]
pub struct ReferenceData {
    pub rate: u128,
    pub last_updated_base: u64,
    pub last_updated_quote: u64,
}

impl ReferenceData {
    pub fn new(rate: u128, last_updated_base: u64, last_updated_quote: u64) -> (r: ReferenceData)
        ensures
            r == (ReferenceData { rate, last_updated_base, last_updated_quote }),
    {
        ReferenceData { rate, last_updated_base, last_updated_quote }
    }
}

/// Why an operation of the feed failed.
#[derive(Clone, Debug, PartialEq, Eq)]
pub enum ContractError {
    /// The sender is not the manager.
    Unauthorized,
    /// The price list is empty: the feed takes no payment.
    NoPaymentOption,
    /// No single fund entry covers a price.
    InsufficientPayment,
    /// No rate is stored for the symbol.
    NotFound { symbol: String },
    /// A reference rate was asked against a quote rate of zero.
    ArithmeticFailure,
    /// The request's calldata could not be encoded.
    EncodingFailure { msg: String },
}

} // verus!
