//! The questions the router answers from its store, and the questions it
//! hands on to a pool.

use vstd::prelude::*;
use crate::error::StdError;
use crate::helper::{pair_key, spec_pair_key, Asset, AssetInfo};
use crate::msg::{
    ConfigResponse, PairConfigResponse, SwapInfoResponse, SwapQueryMsg, SwapQueryMsgView,
};
use crate::state::{
    is_address_in_whitelist, read_config, read_pair_config, read_swap_info_default_zero, Storage,
};

verus! {

/// A question for the contract at `contract_addr`, to be put by the host.
#[derive(Debug, Clone, PartialEq, Eq)]
pub struct WasmQuery {
    pub contract_addr: String,
    pub msg: SwapQueryMsg,
}

/// The mathematical value of a [`WasmQuery`].
pub struct WasmQueryView {
    pub contract_addr: Seq<char>,
    pub msg: SwapQueryMsgView,
}

impl View for WasmQuery {
    type V = WasmQueryView;

    open spec fn view(&self) -> WasmQueryView {
        WasmQueryView { contract_addr: self.contract_addr@, msg: self.msg@ }
    }
}

/// A question for the token contract at `contract_addr`, with the message
/// in its serialised form, to be put by the host.
#[derive(Debug, Clone, PartialEq, Eq)]
pub struct TokenQuery {
    pub contract_addr: String,
    pub msg: Vec<u8>,
}

/// The bytes that `cosmwasm_std::to_json_vec` gives for the message
/// `cw20::Cw20QueryMsg::Balance` with the given address.
pub uninterp spec fn cw20_balance_query_bytes(address: Seq<char>) -> Seq<u8>;

/// The balance that `cosmwasm_std::from_json` reads out of the bytes as a
/// `cw20::BalanceResponse`, if it can read one.
pub uninterp spec fn cw20_balance_answer(bytes: Seq<u8>) -> Option<u128>;

/// Calls `cosmwasm_std::to_json_vec` on a `cw20::Cw20QueryMsg::Balance` for
/// the address. The contract names the bytes that come out and promises
/// nothing about whether any do.
#[verifier::external_body]
fn cw20_balance_query(address: &str) -> (r: Option<Vec<u8>>)
    ensures
        r.is_some() ==> r.unwrap()@ == cw20_balance_query_bytes(address@),
{
    match cosmwasm_std::to_json_vec(&cw20::Cw20QueryMsg::Balance { address: address.to_string() }) {
        Ok(bytes) => Some(bytes),
        Err(_) => None,
    }
}

/// Calls `cosmwasm_std::from_json` to read the bytes as a
/// `cw20::BalanceResponse`, and hands out its balance. The contract only
/// names the outcome.
#[verifier::external_body]
fn cw20_read_balance(bytes: &[u8]) -> (r: Option<u128>)
    ensures
        r == cw20_balance_answer(bytes@),
{
    match cosmwasm_std::from_json::<cw20::BalanceResponse>(bytes) {
        Ok(answer) => Some(answer.balance.u128()),
        Err(_) => None,
    }
}

/// The question to a token contract for an account's balance; fails where
/// the message cannot be serialised.
pub fn query_token_balance_request(contract_addr: String, account_addr: String) -> (r: Result<
    TokenQuery,
    StdError,
>)
    ensures
        match r {
            Ok(query) => query.contract_addr@ == contract_addr@ && query.msg@
                == cw20_balance_query_bytes(account_addr@),
            Err(e) => e == StdError::SerializeErr,
        },
{
    match cw20_balance_query(account_addr.as_str()) {
        Some(msg) => Ok(TokenQuery { contract_addr, msg }),
        None => Err(StdError::SerializeErr),
    }
}

/// The balance that a token contract's answer stands for: the balance that
/// was read out of it, and zero where none could be read.
pub fn balance_or_zero(read: Option<u128>) -> (r: u128)
    ensures
        r == match read {
            Some(balance) => balance,
            None => 0,
        },
{
    match read {
        Some(balance) => balance,
        None => 0,
    }
}

/// An account's balance of a token, from the token contract's answer to the
/// question that [`query_token_balance_request`] names. A question that
/// failed (`None`) and an answer that cannot be read count as a balance of
/// zero.
pub fn query_token_balance(answer: Option<Vec<u8>>) -> (r: Result<u128, StdError>)
    ensures
        r == Ok::<u128, StdError>(
            match answer {
                Some(bytes) => match cw20_balance_answer(bytes@) {
                    Some(balance) => balance,
                    None => 0,
                },
                None => 0,
            },
        ),
{
    match answer {
        Some(bytes) => Ok(balance_or_zero(cw20_read_balance(bytes.as_slice()))),
        None => Ok(0),
    }
}

/// Who owns the router; fails where no owner has been stored.
pub fn query_config(storage: &Storage) -> (r: Result<ConfigResponse, StdError>)
    ensures
        match r {
            Ok(response) => storage@.owner == Some(response.owner@),
            Err(e) => storage@.owner.is_none() && e == StdError::ConfigNotFound,
        },
{
    match read_config(storage) {
        Ok(config) => Ok(ConfigResponse { owner: config.owner }),
        Err(e) => Err(e),
    }
}

/// The volume swapped through a pair; zero for a pair that has not been
/// swapped.
pub fn query_swap_info(storage: &Storage, asset_infos: [AssetInfo; 2]) -> (r: Result<
    SwapInfoResponse,
    StdError,
>)
    ensures
        r == Ok::<SwapInfoResponse, StdError>(
            SwapInfoResponse {
                total_amount_in: storage@.swap_info(
                    spec_pair_key(asset_infos[0]@, asset_infos[1]@),
                ).total_amount_in,
                total_amount_out: storage@.swap_info(
                    spec_pair_key(asset_infos[0]@, asset_infos[1]@),
                ).total_amount_out,
            },
        ),
{
    let key = pair_key(&asset_infos);
    match read_swap_info_default_zero(storage, key.as_slice()) {
        Ok(swap_info) => Ok(
            SwapInfoResponse {
                total_amount_in: swap_info.total_amount_in,
                total_amount_out: swap_info.total_amount_out,
            },
        ),
        Err(e) => Err(e),
    }
}

/// Whether an account may swap; an account that was never entered may not.
pub fn query_is_swap_whitelist(storage: &Storage, caller: String) -> (r: Result<bool, StdError>)
    ensures
        r == Ok::<bool, StdError>(storage@.is_whitelisted(caller@)),
{
    is_address_in_whitelist(storage, caller)
}

/// A pair's configuration; fails where the pair is not on file.
pub fn query_pair_config(storage: &Storage, asset_infos: [AssetInfo; 2]) -> (r: Result<
    PairConfigResponse,
    StdError,
>)
    ensures
        match r {
            Ok(response) => storage@.pair_configs.contains_key(
                spec_pair_key(asset_infos[0]@, asset_infos[1]@),
            ) && response@ == storage@.pair_configs[spec_pair_key(
                asset_infos[0]@,
                asset_infos[1]@,
            )],
            Err(e) => !storage@.pair_configs.contains_key(
                spec_pair_key(asset_infos[0]@, asset_infos[1]@),
            ) && e == StdError::PairConfigNotFound,
        },
{
    let key = pair_key(&asset_infos);
    match read_pair_config(storage, key.as_slice()) {
        Ok(pair_config) => Ok(
            PairConfigResponse {
                pair_address: pair_config.pair_address,
                is_disabled: pair_config.is_disabled,
                max_spread: pair_config.max_spread,
                to: pair_config.to,
            },
        ),
        Err(e) => Err(e),
    }
}

/// The question to a pool what a swap of the offered asset would return.
pub fn query_simulation(contract_addr: String, offer_asset: Asset) -> (r: WasmQuery)
    ensures
        r@ == (WasmQueryView {
            contract_addr: contract_addr@,
            msg: SwapQueryMsgView::Simulation {
                offer_info: offer_asset.info@,
                offer_amount: offer_asset.amount,
            },
        }),
{
    WasmQuery { contract_addr, msg: SwapQueryMsg::Simulation { offer_asset } }
}

/// The question to a pool what has to be offered for a swap to return the
/// asked asset.
pub fn query_reverse_simulation(contract_addr: String, ask_asset: Asset) -> (r: WasmQuery)
    ensures
        r@ == (WasmQueryView {
            contract_addr: contract_addr@,
            msg: SwapQueryMsgView::ReverseSimulation {
                ask_info: ask_asset.info@,
                ask_amount: ask_asset.amount,
            },
        }),
{
    WasmQuery { contract_addr, msg: SwapQueryMsg::ReverseSimulation { ask_asset } }
}

/// The question to a pool for its cumulative prices.
pub fn query_cumulative_prices(contract_addr: String) -> (r: WasmQuery)
    ensures
        r@ == (WasmQueryView {
            contract_addr: contract_addr@,
            msg: SwapQueryMsgView::CumulativePrices,
        }),
{
    WasmQuery { contract_addr, msg: SwapQueryMsg::CumulativePrices {  } }
}

} // verus!
