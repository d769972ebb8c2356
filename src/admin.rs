use vstd::prelude::*;

use crate::types::{Coin, Config, ContractError};

verus! {

/// What the feed is instantiated with: the whole configuration.
#[derive(Clone, Debug)]
pub struct InstantiateMsg {
    pub client_id: String,
    pub manager: String,
    pub prices: Vec<Coin>,
    pub oracle_script_id: u64,
    pub ask_count: u64,
    pub min_count: u64,
    pub fee_limit: Vec<Coin>,
    pub prepare_gas: u64,
    pub execute_gas: u64,
    pub minimum_sources: u8,
}

/// The configuration that instantiation stores.
pub fn instantiate(msg: InstantiateMsg) -> (r: Config)
    ensures
        r == (Config {
            client_id: msg.client_id,
            manager: msg.manager,
            prices: msg.prices,
            oracle_script_id: msg.oracle_script_id,
            ask_count: msg.ask_count,
            min_count: msg.min_count,
            fee_limit: msg.fee_limit,
            prepare_gas: msg.prepare_gas,
            execute_gas: msg.execute_gas,
            minimum_sources: msg.minimum_sources,
        }),
{
    Config {
        client_id: msg.client_id,
        manager: msg.manager,
        prices: msg.prices,
        oracle_script_id: msg.oracle_script_id,
        ask_count: msg.ask_count,
        min_count: msg.min_count,
        fee_limit: msg.fee_limit,
        prepare_gas: msg.prepare_gas,
        execute_gas: msg.execute_gas,
        minimum_sources: msg.minimum_sources,
    }
}

/// A partial change of the configuration: each field that is present
/// replaces the stored one, each absent field leaves it as it is.
#[derive(Clone, Debug)]
pub struct ConfigUpdate {
    pub client_id: Option<String>,
    pub manager: Option<String>,
    pub prices: Option<Vec<Coin>>,
    pub oracle_script_id: Option<u64>,
    pub ask_count: Option<u64>,
    pub min_count: Option<u64>,
    pub fee_limit: Option<Vec<Coin>>,
    pub prepare_gas: Option<u64>,
    pub execute_gas: Option<u64>,
    pub minimum_sources: Option<u8>,
}

/// The value of an optional field after an update.
pub open spec fn updated<T>(old_value: T, new_value: Option<T>) -> T {
    match new_value {
        Some(v) => v,
        None => old_value,
    }
}

/// `config` with the present fields of `u` written over it.
pub open spec fn merge_update(config: Config, u: ConfigUpdate) -> Config {
    Config {
        client_id: updated(config.client_id, u.client_id),
        manager: updated(config.manager, u.manager),
        prices: updated(config.prices, u.prices),
        oracle_script_id: updated(config.oracle_script_id, u.oracle_script_id),
        ask_count: updated(config.ask_count, u.ask_count),
        min_count: updated(config.min_count, u.min_count),
        fee_limit: updated(config.fee_limit, u.fee_limit),
        prepare_gas: updated(config.prepare_gas, u.prepare_gas),
        execute_gas: updated(config.execute_gas, u.execute_gas),
        minimum_sources: updated(config.minimum_sources, u.minimum_sources),
    }
}

/// The update that changes the manager and nothing else.
pub open spec fn manager_only(manager: String) -> ConfigUpdate {
    ConfigUpdate {
        client_id: None,
        manager: Some(manager),
        prices: None,
        oracle_script_id: None,
        ask_count: None,
        min_count: None,
        fee_limit: None,
        prepare_gas: None,
        execute_gas: None,
        minimum_sources: None,
    }
}

/// An update that names only the manager replaces the manager and keeps every
/// other field of the configuration as it was.
pub proof fn lemma_manager_only_update(config: Config, manager: String)
    ensures
        merge_update(config, manager_only(manager)) == (Config { manager, ..config }),
{
}

/// Lets only the manager through.
pub fn check_manager(config: &Config, sender: &String) -> (r: Result<(), ContractError>)
    ensures
        sender@ == config.manager@ ==> r is Ok,
        sender@ != config.manager@ ==> r == Err::<(), ContractError>(ContractError::Unauthorized),
{
    if *sender != config.manager {
        return Err(ContractError::Unauthorized);
    }
    Ok(())
}

/// Applies `update` to `config` on behalf of `sender`. Only the manager may do
/// so; for any other sender the configuration is left untouched.
pub fn update_config(config: &mut Config, sender: &String, update: ConfigUpdate) -> (r: Result<
    (),
    ContractError,
>)
    ensures
        sender@ != old(config).manager@ ==> r == Err::<(), ContractError>(
            ContractError::Unauthorized,
        ) && *final(config) == *old(config),
        sender@ == old(config).manager@ ==> r is Ok && *final(config) == merge_update(
            *old(config),
            update,
        ),
{
    check_manager(config, sender)?;
    if let Some(client_id) = update.client_id {
        config.client_id = client_id;
    }
    if let Some(manager) = update.manager {
        config.manager = manager;
    }
    if let Some(prices) = update.prices {
        config.prices = prices;
    }
    if let Some(oracle_script_id) = update.oracle_script_id {
        config.oracle_script_id = oracle_script_id;
    }
    if let Some(ask_count) = update.ask_count {
        config.ask_count = ask_count;
    }
    if let Some(min_count) = update.min_count {
        config.min_count = min_count;
    }
    if let Some(fee_limit) = update.fee_limit {
        config.fee_limit = fee_limit;
    }
    if let Some(prepare_gas) = update.prepare_gas {
        config.prepare_gas = prepare_gas;
    }
    if let Some(execute_gas) = update.execute_gas {
        config.execute_gas = execute_gas;
    }
    if let Some(minimum_sources) = update.minimum_sources {
        config.minimum_sources = minimum_sources;
    }
    Ok(())
}

/// A transfer of funds out of the feed's account.
#[derive(Clone, Debug)]
pub struct Transfer {
    pub to_address: String,
    pub coin: Coin,
    /// The operation that asked for the transfer.
    pub action: String,
}

/// The amount a withdrawal moves: the one asked for, or else all of `balance`.
pub open spec fn withdrawal_amount(amount: Option<u128>, balance: Option<u128>) -> u128
    recommends
        amount is Some || balance is Some,
{
    match amount {
        Some(a) => a,
        None => balance->Some_0,
    }
}

/// The transfer of a withdrawal, once the sender is known to be the manager.
/// `balance` is the feed's balance in `denom`, needed only when no `amount`
/// is given.
pub fn withdraw_unchecked(
    action: String,
    denom: String,
    amount: Option<u128>,
    address: String,
    balance: Option<u128>,
) -> (r: Transfer)
    requires
        amount is None ==> balance is Some,
    ensures
        r == (Transfer {
            to_address: address,
            coin: Coin { denom, amount: withdrawal_amount(amount, balance) },
            action,
        }),
        amount matches Some(a) ==> r.coin.amount == a,
        amount is None ==> r.coin.amount == balance->Some_0,
{
    let value: u128 = match amount {
        Some(a) => a,
        None => balance.unwrap(),
    };
    Transfer { to_address: address, coin: Coin { denom, amount: value }, action }
}

} // verus!
