use vstd::prelude::*;

use obi::enc::OBIEncode;

use crate::payment::{payment_result, validate_payment};
use crate::types::{Coin, Config, ContractError};

verus! {

/// How long the channel waits for a request to be delivered, in seconds.
pub const REQUEST_TIMEOUT_SECONDS: u64 = 60;

/// The same timeout in nanoseconds, the unit of ledger time.
pub const REQUEST_TIMEOUT_NANOS: u64 = REQUEST_TIMEOUT_SECONDS * 1_000_000_000;

/// An oracle request, as the oracle network receives it.
#[derive(Clone, Debug)]
pub struct OracleRequest {
    pub client_id: String,
    pub oracle_script_id: u64,
    /// The encoded symbols and minimum source count.
    pub calldata: Vec<u8>,
    pub ask_count: u64,
    pub min_count: u64,
    pub fee_limit: Vec<Coin>,
    pub prepare_gas: u64,
    pub execute_gas: u64,
}

/// One message to send on the oracle channel.
#[derive(Clone, Debug)]
pub struct SendPacket {
    pub channel_id: String,
    pub packet: OracleRequest,
    /// Absolute timeout, in nanoseconds of ledger time.
    pub timeout_nanos: u64,
}

/// The oracle calldata that encodes `symbols` and `minimum_sources`.
pub uninterp spec fn obi_input_calldata(symbols: Seq<Seq<char>>, minimum_sources: u8) -> Seq<u8>;

/// The views of a list of strings.
pub open spec fn symbol_views(symbols: Seq<String>) -> Seq<Seq<char>> {
    symbols.map_values(|s: String| s@)
}

/// Relies on obi's `OBIEncode::try_to_vec` of `cw_band::Input`: it returns the
/// calldata of the symbols and minimum source count, a function of those alone.
/// It encodes into a fresh `Vec<u8>` by `write_all` only, which never fails.
#[verifier::external_body]
fn encode_input(symbols: Vec<String>, minimum_sources: u8) -> (r: Result<Vec<u8>, String>)
    ensures
        r is Ok,
        r->Ok_0@ == obi_input_calldata(symbol_views(symbols@), minimum_sources),
{
    cw_band::Input { symbols, minimum_sources }.try_to_vec().map_err(|e| e.to_string())
}

/// The oracle request that `config` describes, carrying `calldata`.
pub fn oracle_packet(config: Config, calldata: Vec<u8>) -> (r: OracleRequest)
    ensures
        r == (OracleRequest {
            client_id: config.client_id,
            oracle_script_id: config.oracle_script_id,
            calldata,
            ask_count: config.ask_count,
            min_count: config.min_count,
            fee_limit: config.fee_limit,
            prepare_gas: config.prepare_gas,
            execute_gas: config.execute_gas,
        }),
{
    OracleRequest {
        client_id: config.client_id,
        oracle_script_id: config.oracle_script_id,
        calldata,
        ask_count: config.ask_count,
        min_count: config.min_count,
        fee_limit: config.fee_limit,
        prepare_gas: config.prepare_gas,
        execute_gas: config.execute_gas,
    }
}

/// The message to send once the calldata is encoded (or failed to be), at
/// ledger time `now_nanos`.
pub fn request_from_calldata(
    channel_id: String,
    config: Config,
    calldata: Result<Vec<u8>, String>,
    now_nanos: u64,
) -> (r: Result<SendPacket, ContractError>)
    requires
        now_nanos <= u64::MAX - REQUEST_TIMEOUT_NANOS,
    ensures
        calldata matches Err(msg) ==> r == Err::<SendPacket, ContractError>(
            ContractError::EncodingFailure { msg },
        ),
        calldata matches Ok(bytes) ==> r == Ok::<SendPacket, ContractError>(
            SendPacket {
                channel_id,
                packet: OracleRequest {
                    client_id: config.client_id,
                    oracle_script_id: config.oracle_script_id,
                    calldata: bytes,
                    ask_count: config.ask_count,
                    min_count: config.min_count,
                    fee_limit: config.fee_limit,
                    prepare_gas: config.prepare_gas,
                    execute_gas: config.execute_gas,
                },
                timeout_nanos: (now_nanos + REQUEST_TIMEOUT_NANOS) as u64,
            },
        ),
{
    match calldata {
        Err(msg) => Err(ContractError::EncodingFailure { msg }),
        Ok(bytes) => {
            let packet = oracle_packet(config, bytes);
            Ok(SendPacket { channel_id, packet, timeout_nanos: now_nanos + REQUEST_TIMEOUT_NANOS })
        },
    }
}

/// Handles a paid request for the rates of `symbols` at ledger time
/// `now_nanos`: checks the payment, then builds the one message to send on
/// `channel_id`.
pub fn try_request(
    channel_id: String,
    config: Config,
    funds: &[Coin],
    symbols: Vec<String>,
    now_nanos: u64,
) -> (r: Result<SendPacket, ContractError>)
    requires
        now_nanos <= u64::MAX - REQUEST_TIMEOUT_NANOS,
    ensures
        payment_result(config.prices@, funds@) matches Err(e) ==> r == Err::<
            SendPacket,
            ContractError,
        >(e),
        payment_result(config.prices@, funds@) is Ok ==> r is Ok,
        r matches Ok(m) ==> {
            &&& m.channel_id == channel_id
            &&& m.timeout_nanos == now_nanos + REQUEST_TIMEOUT_NANOS
            &&& m.packet.calldata@ == obi_input_calldata(
                symbol_views(symbols@),
                config.minimum_sources,
            )
            &&& m.packet == (OracleRequest {
                client_id: config.client_id,
                oracle_script_id: config.oracle_script_id,
                calldata: m.packet.calldata,
                ask_count: config.ask_count,
                min_count: config.min_count,
                fee_limit: config.fee_limit,
                prepare_gas: config.prepare_gas,
                execute_gas: config.execute_gas,
            })
        },
{
    validate_payment(config.prices.as_slice(), funds)?;
    let calldata = encode_input(symbols, config.minimum_sources);
    request_from_calldata(channel_id, config, calldata, now_nanos)
}

} // verus!
