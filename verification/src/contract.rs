//! The router's entry points: creation, the dispatch of operations and of
//! questions, and migration.

use vstd::prelude::*;
use crate::error::{ContractError, StdError};
use crate::handler::{
    change_owner, outcome, set_whitelist, spec_change_owner, spec_set_whitelist, spec_swap_denom,
    spec_update_pair_config, spec_update_pair_max_spread, spec_update_pair_status, swap_denom,
    update_pair_config, update_pair_max_spread, update_pair_status,
};
use crate::helper::{option_text, pair_key, spec_pair_key, AssetInfo};
use crate::msg::{
    ConfigResponse, ExecuteMsg, InstantiateMsg, MigrateMsg, PairConfigResponse, QueryMsg,
    SimulationResponse, SwapInfoResponse, SwapQueryMsgView,
};
use crate::querier::{
    query_config, query_cumulative_prices, query_is_swap_whitelist, query_pair_config,
    query_reverse_simulation, query_simulation, query_swap_info, WasmQuery, WasmQueryView,
};
use crate::response::{coin_views, CoinView, MessageInfo, Response, ResponseView};
use crate::state::{read_pair_config, store_config, Config, Storage, StorageView};

verus! {

/// Creates the router: the owner is the one the message names, or else the
/// caller.
pub fn instantiate(storage: &mut Storage, info: &MessageInfo, msg: InstantiateMsg) -> (r: Result<
    Response,
    StdError,
>)
    ensures
        r.is_ok(),
        r.unwrap()@ == (ResponseView { messages: seq![], attributes: seq![] }),
        final(storage)@ == (StorageView {
            owner: Some(
                match msg.owner {
                    Some(owner) => owner@,
                    None => info.sender@,
                },
            ),
            ..old(storage)@
        }),
{
    let owner = match msg.owner {
        Some(owner) => owner,
        None => info.sender.clone(),
    };
    let _ = store_config(storage, &Config { owner });
    Ok(Response::new())
}

/// The outcome of an operation. An operation on a pair is refused where the
/// pair is not given as exactly two assets; otherwise the outcome is that of
/// the operation's own function. `return_amount` is what the pool quoted,
/// which only a swap looks at.
pub open spec fn spec_execute(
    s: StorageView,
    sender: Seq<char>,
    funds: Seq<CoinView>,
    msg: ExecuteMsg,
    return_amount: u128,
) -> Result<(StorageView, ResponseView), ContractError> {
    match msg {
        ExecuteMsg::UpdatePairConfig { asset_infos, pair_address, max_spread, to } => {
            if asset_infos@.len() != 2 {
                Err(ContractError::InvalidParameter)
            } else {
                spec_update_pair_config(
                    s,
                    sender,
                    asset_infos@[0]@,
                    asset_infos@[1]@,
                    pair_address@,
                    max_spread,
                    option_text(to),
                )
            }
        },
        ExecuteMsg::ChangeOwner { new_owner } => spec_change_owner(s, sender, new_owner@),
        ExecuteMsg::UpdatePairStatus { asset_infos, is_disabled } => {
            if asset_infos@.len() != 2 {
                Err(ContractError::InvalidParameter)
            } else {
                spec_update_pair_status(
                    s,
                    sender,
                    asset_infos@[0]@,
                    asset_infos@[1]@,
                    is_disabled,
                )
            }
        },
        ExecuteMsg::UpdatePairMaxSpread { asset_infos, max_spread } => {
            if asset_infos@.len() != 2 {
                Err(ContractError::InvalidParameter)
            } else {
                spec_update_pair_max_spread(
                    s,
                    sender,
                    asset_infos@[0]@,
                    asset_infos@[1]@,
                    max_spread,
                )
            }
        },
        ExecuteMsg::SetWhitelist { caller, is_whitelist } => spec_set_whitelist(
            s,
            sender,
            caller@,
            is_whitelist,
        ),
        ExecuteMsg::SwapDenom { from_coin, target_denom, to_address } => spec_swap_denom(
            s,
            sender,
            funds,
            from_coin@,
            target_denom@,
            return_amount,
        ),
    }
}

/// The pair that a list of exactly two assets gives.
fn pair_of(asset_infos: &Vec<AssetInfo>) -> (r: [AssetInfo; 2])
    requires
        asset_infos@.len() == 2,
    ensures
        r[0]@ == asset_infos@[0]@,
        r[1]@ == asset_infos@[1]@,
{
    [asset_infos[0].clone(), asset_infos[1].clone()]
}

/// Carries out an operation. `simulation` is the pool's answer to the
/// question that `swap_denom_query` names for a swap; other operations do
/// not look at it. A refused operation changes nothing.
pub fn execute(
    storage: &mut Storage,
    info: &MessageInfo,
    msg: ExecuteMsg,
    simulation: &SimulationResponse,
) -> (r: Result<Response, ContractError>)
    ensures
        outcome(r, final(storage)@) == spec_execute(
            old(storage)@,
            info.sender@,
            coin_views(info.funds@),
            msg,
            simulation.return_amount,
        ),
        r.is_err() ==> final(storage)@ == old(storage)@,
{
    match msg {
        ExecuteMsg::UpdatePairConfig { asset_infos, pair_address, max_spread, to } => {
            if asset_infos.len() != 2 {
                return Err(ContractError::InvalidParameter);
            }
            update_pair_config(storage, info, pair_of(&asset_infos), pair_address, max_spread, to)
        },
        ExecuteMsg::ChangeOwner { new_owner } => change_owner(storage, info, new_owner),
        ExecuteMsg::UpdatePairStatus { asset_infos, is_disabled } => {
            if asset_infos.len() != 2 {
                return Err(ContractError::InvalidParameter);
            }
            update_pair_status(storage, info, pair_of(&asset_infos), is_disabled)
        },
        ExecuteMsg::UpdatePairMaxSpread { asset_infos, max_spread } => {
            if asset_infos.len() != 2 {
                return Err(ContractError::InvalidParameter);
            }
            update_pair_max_spread(storage, info, pair_of(&asset_infos), max_spread)
        },
        ExecuteMsg::SetWhitelist { caller, is_whitelist } => set_whitelist(
            storage,
            info,
            caller,
            is_whitelist,
        ),
        ExecuteMsg::SwapDenom { from_coin, target_denom, to_address } => swap_denom(
            storage,
            info,
            from_coin,
            target_denom,
            simulation,
        ),
    }
}

/// An answer of the router.
#[derive(Debug, Clone, PartialEq, Eq)]
pub enum QueryResponse {
    Config(ConfigResponse),
    SwapInfo(SwapInfoResponse),
    IsSwapWhitelist(bool),
    PairConfig(PairConfigResponse),
    /// The question is one for the pair's pool: the host puts it there and
    /// hands the pool's answer on.
    Pool(WasmQuery),
}

/// Whether `r` is what the question for a pair's pool results in: the
/// question addressed to the pool that the pair is filed with, or the
/// failure that the pair is not on file.
pub open spec fn forwards(
    s: StorageView,
    pair_key: Seq<u8>,
    msg: SwapQueryMsgView,
    r: Result<QueryResponse, StdError>,
) -> bool {
    match r {
        Ok(QueryResponse::Pool(query)) => s.pair_configs.contains_key(pair_key) && query@ == (
        WasmQueryView { contract_addr: s.pair_configs[pair_key].pair_address, msg }),
        Ok(_) => false,
        Err(e) => !s.pair_configs.contains_key(pair_key) && e == StdError::PairConfigNotFound,
    }
}

/// Whether `r` answers the question `msg` in state `s`.
pub open spec fn answers(s: StorageView, msg: QueryMsg, r: Result<QueryResponse, StdError>) -> bool {
    match msg {
        QueryMsg::QueryConfig {  } => match r {
            Ok(QueryResponse::Config(c)) => s.owner == Some(c.owner@),
            Ok(_) => false,
            Err(e) => s.owner.is_none() && e == StdError::ConfigNotFound,
        },
        QueryMsg::QuerySwapInfo { asset_infos } => match r {
            Ok(QueryResponse::SwapInfo(i)) => {
                let entry = s.swap_info(spec_pair_key(asset_infos[0]@, asset_infos[1]@));
                i.total_amount_in == entry.total_amount_in && i.total_amount_out
                    == entry.total_amount_out
            },
            _ => false,
        },
        QueryMsg::QueryIsSwapWhitelist { caller } => r == Ok::<QueryResponse, StdError>(
            QueryResponse::IsSwapWhitelist(s.is_whitelisted(caller@)),
        ),
        QueryMsg::QueryPairConfig { asset_infos } => {
            let key = spec_pair_key(asset_infos[0]@, asset_infos[1]@);
            match r {
                Ok(QueryResponse::PairConfig(c)) => s.pair_configs.contains_key(key) && c@
                    == s.pair_configs[key],
                Ok(_) => false,
                Err(e) => !s.pair_configs.contains_key(key) && e == StdError::PairConfigNotFound,
            }
        },
        QueryMsg::QuerySimulation { asset_infos, offer_asset } => forwards(
            s,
            spec_pair_key(asset_infos[0]@, asset_infos[1]@),
            SwapQueryMsgView::Simulation {
                offer_info: offer_asset.info@,
                offer_amount: offer_asset.amount,
            },
            r,
        ),
        QueryMsg::QueryReverseSimulation { asset_infos, ask_asset } => forwards(
            s,
            spec_pair_key(asset_infos[0]@, asset_infos[1]@),
            SwapQueryMsgView::ReverseSimulation {
                ask_info: ask_asset.info@,
                ask_amount: ask_asset.amount,
            },
            r,
        ),
        QueryMsg::QueryCumulativePrices { asset_infos } => forwards(
            s,
            spec_pair_key(asset_infos[0]@, asset_infos[1]@),
            SwapQueryMsgView::CumulativePrices,
            r,
        ),
    }
}

/// The address of the pool that a pair is filed with.
fn pool_of(storage: &Storage, asset_infos: &[AssetInfo; 2]) -> (r: Result<String, StdError>)
    ensures
        match r {
            Ok(address) => storage@.pair_configs.contains_key(
                spec_pair_key(asset_infos[0]@, asset_infos[1]@),
            ) && address@ == storage@.pair_configs[spec_pair_key(
                asset_infos[0]@,
                asset_infos[1]@,
            )].pair_address,
            Err(e) => !storage@.pair_configs.contains_key(
                spec_pair_key(asset_infos[0]@, asset_infos[1]@),
            ) && e == StdError::PairConfigNotFound,
        },
{
    let key = pair_key(asset_infos);
    match read_pair_config(storage, key.as_slice()) {
        Ok(pair_config) => Ok(pair_config.pair_address),
        Err(e) => Err(e),
    }
}

/// Answers a question, or names the question that the host has to put to
/// the pair's pool.
pub fn query(storage: &Storage, msg: QueryMsg) -> (r: Result<QueryResponse, StdError>)
    ensures
        answers(storage@, msg, r),
{
    match msg {
        QueryMsg::QueryConfig {  } => match query_config(storage) {
            Ok(c) => Ok(QueryResponse::Config(c)),
            Err(e) => Err(e),
        },
        QueryMsg::QuerySwapInfo { asset_infos } => match query_swap_info(storage, asset_infos) {
            Ok(i) => Ok(QueryResponse::SwapInfo(i)),
            Err(e) => Err(e),
        },
        QueryMsg::QueryIsSwapWhitelist { caller } => match query_is_swap_whitelist(
            storage,
            caller,
        ) {
            Ok(b) => Ok(QueryResponse::IsSwapWhitelist(b)),
            Err(e) => Err(e),
        },
        QueryMsg::QueryPairConfig { asset_infos } => match query_pair_config(
            storage,
            asset_infos,
        ) {
            Ok(c) => Ok(QueryResponse::PairConfig(c)),
            Err(e) => Err(e),
        },
        QueryMsg::QuerySimulation { asset_infos, offer_asset } => match pool_of(
            storage,
            &asset_infos,
        ) {
            Ok(address) => Ok(QueryResponse::Pool(query_simulation(address, offer_asset))),
            Err(e) => Err(e),
        },
        QueryMsg::QueryReverseSimulation { asset_infos, ask_asset } => match pool_of(
            storage,
            &asset_infos,
        ) {
            Ok(address) => Ok(QueryResponse::Pool(query_reverse_simulation(address, ask_asset))),
            Err(e) => Err(e),
        },
        QueryMsg::QueryCumulativePrices { asset_infos } => match pool_of(storage, &asset_infos) {
            Ok(address) => Ok(QueryResponse::Pool(query_cumulative_prices(address))),
            Err(e) => Err(e),
        },
    }
}

/// Migrates the router, which changes nothing.
pub fn migrate(msg: MigrateMsg) -> (r: Result<Response, StdError>)
    ensures
        r.is_ok(),
        r.unwrap()@ == (ResponseView { messages: seq![], attributes: seq![] }),
{
    Ok(Response::new())
}

} // verus!
