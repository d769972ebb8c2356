//! On-ledger logic of a price feed: paid oracle requests, cross rates from
//! resolved rates, and manager-gated administration.

pub mod payment;
pub mod types;
pub mod rates;
pub mod request;
pub mod admin;
pub mod msg;
