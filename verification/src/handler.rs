//! The operations that change what the router stores: the owner's
//! administration and the routed swap.

use vstd::prelude::*;
use vstd::utf8::encode_utf8;
use crate::error::{ContractError, StdError};
use crate::helper::{option_text, pair_key, spec_pair_key, Asset, AssetInfo, AssetInfoView};
use crate::math::{decimal_digits, decimal_text, uint128_checked_add, Decimal};
use crate::msg::{SimulationResponse, SwapQueryMsgView};
use crate::querier::{query_simulation, WasmQuery, WasmQueryView};
use crate::response::{
    coin_views, single_coin, Coin, CoinView, CosmosMsg, CosmosMsgView, MessageInfo, Response,
    ResponseView, SwapMsg, SwapMsgView,
};
use crate::state::{
    is_address_in_whitelist, read_config, read_pair_config,
    read_swap_info_default_zero, store_config, store_pair_configs, store_swap_infos,
    store_swap_whitelist, Config, PairConfig, PairConfigView, Storage, StorageView,
};

verus! {

/// The state after an operation together with the value of its response, or
/// the refusal.
pub open spec fn outcome(r: Result<Response, ContractError>, after: StorageView) -> Result<
    (StorageView, ResponseView),
    ContractError,
> {
    match r {
        Ok(response) => Ok((after, response@)),
        Err(e) => Err(e),
    }
}

/// Why an administrative call by `sender` is refused, if it is: no owner is
/// stored, or the sender is not the owner.
pub open spec fn spec_authorize(s: StorageView, sender: Seq<char>) -> Option<ContractError> {
    if s.owner.is_none() {
        Some(ContractError::Std(StdError::ConfigNotFound))
    } else if !s.is_owner(sender) {
        Some(ContractError::Unauthorized)
    } else {
        None
    }
}

/// Checks that the caller is the owner.
fn authorize(storage: &Storage, info: &MessageInfo) -> (r: Result<Config, ContractError>)
    ensures
        match r {
            Ok(config) => spec_authorize(storage@, info.sender@).is_none() && config.owner@
                == info.sender@,
            Err(e) => spec_authorize(storage@, info.sender@) == Some(e),
        },
{
    match read_config(storage) {
        Ok(config) => {
            if info.sender == config.owner {
                Ok(config)
            } else {
                Err(ContractError::Unauthorized)
            }
        },
        Err(e) => Err(ContractError::Std(e)),
    }
}

/// The spread as an attribute shows it; an absent spread shows as zero.
pub open spec fn spread_text(max_spread: Option<Decimal>) -> Seq<char> {
    match max_spread {
        Some(d) => decimal_text(d.atomics),
        None => decimal_text(0),
    }
}

/// `UpdatePairConfig` for the owner files a fresh configuration under the
/// pair's key: enabled, with the given pool, spread and recipient.
pub open spec fn spec_update_pair_config(
    s: StorageView,
    sender: Seq<char>,
    asset_0: AssetInfoView,
    asset_1: AssetInfoView,
    pair_address: Seq<char>,
    max_spread: Option<Decimal>,
    to: Option<Seq<char>>,
) -> Result<(StorageView, ResponseView), ContractError> {
    match spec_authorize(s, sender) {
        Some(e) => Err(e),
        None => Ok(
            (
                StorageView {
                    pair_configs: s.pair_configs.insert(
                        spec_pair_key(asset_0, asset_1),
                        PairConfigView { pair_address, is_disabled: false, max_spread, to },
                    ),
                    ..s
                },
                ResponseView {
                    messages: seq![],
                    attributes: seq![
                        ("action"@, "update_pair_config"@),
                        ("pair_address"@, pair_address),
                        ("max_spread"@, spread_text(max_spread)),
                    ],
                },
            ),
        ),
    }
}

/// Files a pair's configuration, in place of any earlier one. The pair is
/// enabled afterwards, whatever it was before. Only the owner may do so.
pub fn update_pair_config(
    storage: &mut Storage,
    info: &MessageInfo,
    asset_infos: [AssetInfo; 2],
    pair_address: String,
    max_spread: Option<Decimal>,
    to: Option<String>,
) -> (r: Result<Response, ContractError>)
    ensures
        outcome(r, final(storage)@) == spec_update_pair_config(
            old(storage)@,
            info.sender@,
            asset_infos[0]@,
            asset_infos[1]@,
            pair_address@,
            max_spread,
            option_text(to),
        ),
        r.is_err() ==> final(storage)@ == old(storage)@,
{
    match authorize(storage, info) {
        Ok(_) => {},
        Err(e) => {
            return Err(e);
        },
    }
    let mut pair_config = PairConfig {
        pair_address: pair_address.clone(),
        is_disabled: false,
        max_spread: None,
        to: None,
    };
    if let Some(spread) = max_spread {
        pair_config.max_spread = Some(spread);
    }
    if let Some(recipient) = to {
        pair_config.to = Some(recipient);
    }
    let key = pair_key(&asset_infos);
    let _ = store_pair_configs(storage, key.as_slice(), &pair_config);
    let spread = match max_spread {
        Some(d) => d,
        None => Decimal::zero(),
    };
    let spread_string = spread.to_string();
    let response = Response::new().add_attribute("action", "update_pair_config").add_attribute(
        "pair_address",
        pair_address.as_str(),
    ).add_attribute("max_spread", spread_string.as_str());
    proof {
        let expected = spec_update_pair_config(
            old(storage)@,
            info.sender@,
            asset_infos[0]@,
            asset_infos[1]@,
            pair_address@,
            max_spread,
            option_text(to),
        );
        assert(response@.attributes =~= expected.unwrap().1.attributes);
    }
    Ok(response)
}

/// `ChangeOwner` for the owner stores the new owner.
pub open spec fn spec_change_owner(s: StorageView, sender: Seq<char>, new_owner: Seq<char>) -> Result<
    (StorageView, ResponseView),
    ContractError,
> {
    match spec_authorize(s, sender) {
        Some(e) => Err(e),
        None => Ok(
            (
                StorageView { owner: Some(new_owner), ..s },
                ResponseView {
                    messages: seq![],
                    attributes: seq![("action"@, "change_owner"@), ("new_owner"@, new_owner)],
                },
            ),
        ),
    }
}

/// Hands the router over to a new owner. Only the owner may do so.
pub fn change_owner(storage: &mut Storage, info: &MessageInfo, new_owner: String) -> (r: Result<
    Response,
    ContractError,
>)
    ensures
        outcome(r, final(storage)@) == spec_change_owner(
            old(storage)@,
            info.sender@,
            new_owner@,
        ),
        r.is_err() ==> final(storage)@ == old(storage)@,
{
    let mut config = match authorize(storage, info) {
        Ok(config) => config,
        Err(e) => {
            return Err(e);
        },
    };
    config.owner = new_owner.clone();
    let _ = store_config(storage, &config);
    let response = Response::new().add_attribute("action", "change_owner").add_attribute(
        "new_owner",
        new_owner.as_str(),
    );
    proof {
        let expected = spec_change_owner(old(storage)@, info.sender@, new_owner@);
        assert(response@.attributes =~= expected.unwrap().1.attributes);
    }
    Ok(response)
}

/// "true" or "false".
pub open spec fn bool_text(b: bool) -> Seq<char> {
    if b {
        "true"@
    } else {
        "false"@
    }
}

/// `UpdatePairStatus` for the owner sets the flag of a pair that is on file.
pub open spec fn spec_update_pair_status(
    s: StorageView,
    sender: Seq<char>,
    asset_0: AssetInfoView,
    asset_1: AssetInfoView,
    is_disabled: bool,
) -> Result<(StorageView, ResponseView), ContractError> {
    let key = spec_pair_key(asset_0, asset_1);
    match spec_authorize(s, sender) {
        Some(e) => Err(e),
        None => if !s.pair_configs.contains_key(key) {
            Err(ContractError::Std(StdError::PairConfigNotFound))
        } else {
            Ok(
                (
                    StorageView {
                        pair_configs: s.pair_configs.insert(
                            key,
                            PairConfigView { is_disabled, ..s.pair_configs[key] },
                        ),
                        ..s
                    },
                    ResponseView {
                        messages: seq![],
                        attributes: seq![
                            ("action"@, "update_pair_status"@),
                            ("pair_address"@, s.pair_configs[key].pair_address),
                            ("is_disabled"@, bool_text(is_disabled)),
                        ],
                    },
                ),
            )
        },
    }
}

/// Enables or disables a pair that is on file. Only the owner may do so.
pub fn update_pair_status(
    storage: &mut Storage,
    info: &MessageInfo,
    asset_infos: [AssetInfo; 2],
    is_disabled: bool,
) -> (r: Result<Response, ContractError>)
    ensures
        outcome(r, final(storage)@) == spec_update_pair_status(
            old(storage)@,
            info.sender@,
            asset_infos[0]@,
            asset_infos[1]@,
            is_disabled,
        ),
        r.is_err() ==> final(storage)@ == old(storage)@,
{
    match authorize(storage, info) {
        Ok(_) => {},
        Err(e) => {
            return Err(e);
        },
    }
    let key = pair_key(&asset_infos);
    let mut pair_config = match read_pair_config(storage, key.as_slice()) {
        Ok(pair_config) => pair_config,
        Err(e) => {
            return Err(ContractError::Std(e));
        },
    };
    pair_config.is_disabled = is_disabled;
    let _ = store_pair_configs(storage, key.as_slice(), &pair_config);
    let flag = if is_disabled {
        "true"
    } else {
        "false"
    };
    let response = Response::new().add_attribute("action", "update_pair_status").add_attribute(
        "pair_address",
        pair_config.pair_address.as_str(),
    ).add_attribute("is_disabled", flag);
    proof {
        let expected = spec_update_pair_status(
            old(storage)@,
            info.sender@,
            asset_infos[0]@,
            asset_infos[1]@,
            is_disabled,
        );
        assert(response@.attributes =~= expected.unwrap().1.attributes);
    }
    Ok(response)
}

/// `UpdatePairMaxSpread` for the owner sets the spread of a pair that is on
/// file.
pub open spec fn spec_update_pair_max_spread(
    s: StorageView,
    sender: Seq<char>,
    asset_0: AssetInfoView,
    asset_1: AssetInfoView,
    max_spread: Decimal,
) -> Result<(StorageView, ResponseView), ContractError> {
    let key = spec_pair_key(asset_0, asset_1);
    match spec_authorize(s, sender) {
        Some(e) => Err(e),
        None => if !s.pair_configs.contains_key(key) {
            Err(ContractError::Std(StdError::PairConfigNotFound))
        } else {
            Ok(
                (
                    StorageView {
                        pair_configs: s.pair_configs.insert(
                            key,
                            PairConfigView { max_spread: Some(max_spread), ..s.pair_configs[key] },
                        ),
                        ..s
                    },
                    ResponseView {
                        messages: seq![],
                        attributes: seq![
                            ("action"@, "update_pair_max_spread"@),
                            ("pair_address"@, s.pair_configs[key].pair_address),
                            ("max_spread"@, decimal_text(max_spread.atomics)),
                        ],
                    },
                ),
            )
        },
    }
}

/// Sets the spread of a pair that is on file. Only the owner may do so.
pub fn update_pair_max_spread(
    storage: &mut Storage,
    info: &MessageInfo,
    asset_infos: [AssetInfo; 2],
    max_spread: Decimal,
) -> (r: Result<Response, ContractError>)
    ensures
        outcome(r, final(storage)@) == spec_update_pair_max_spread(
            old(storage)@,
            info.sender@,
            asset_infos[0]@,
            asset_infos[1]@,
            max_spread,
        ),
        r.is_err() ==> final(storage)@ == old(storage)@,
{
    match authorize(storage, info) {
        Ok(_) => {},
        Err(e) => {
            return Err(e);
        },
    }
    let key = pair_key(&asset_infos);
    let mut pair_config = match read_pair_config(storage, key.as_slice()) {
        Ok(pair_config) => pair_config,
        Err(e) => {
            return Err(ContractError::Std(e));
        },
    };
    pair_config.max_spread = Some(max_spread);
    let _ = store_pair_configs(storage, key.as_slice(), &pair_config);
    let spread_string = max_spread.to_string();
    let response = Response::new().add_attribute(
        "action",
        "update_pair_max_spread",
    ).add_attribute("pair_address", pair_config.pair_address.as_str()).add_attribute(
        "max_spread",
        spread_string.as_str(),
    );
    proof {
        let expected = spec_update_pair_max_spread(
            old(storage)@,
            info.sender@,
            asset_infos[0]@,
            asset_infos[1]@,
            max_spread,
        );
        assert(response@.attributes =~= expected.unwrap().1.attributes);
    }
    Ok(response)
}

/// `SetWhitelist` for the owner sets the account's entry.
pub open spec fn spec_set_whitelist(
    s: StorageView,
    sender: Seq<char>,
    caller: Seq<char>,
    is_whitelist: bool,
) -> Result<(StorageView, ResponseView), ContractError> {
    match spec_authorize(s, sender) {
        Some(e) => Err(e),
        None => Ok(
            (
                StorageView {
                    swap_whitelist: s.swap_whitelist.insert(encode_utf8(caller), is_whitelist),
                    ..s
                },
                ResponseView { messages: seq![], attributes: seq![] },
            ),
        ),
    }
}

/// Allows an account to swap, or forbids it. Only the owner may do so.
pub fn set_whitelist(
    storage: &mut Storage,
    info: &MessageInfo,
    caller: String,
    is_whitelist: bool,
) -> (r: Result<Response, ContractError>)
    ensures
        outcome(r, final(storage)@) == spec_set_whitelist(
            old(storage)@,
            info.sender@,
            caller@,
            is_whitelist,
        ),
        r.is_err() ==> final(storage)@ == old(storage)@,
{
    match authorize(storage, info) {
        Ok(_) => {},
        Err(e) => {
            return Err(e);
        },
    }
    let _ = store_swap_whitelist(storage, caller, is_whitelist);
    Ok(Response::new())
}

/// The key of the pair of two native denominations.
pub open spec fn spec_denom_pair_key(from_denom: Seq<char>, target_denom: Seq<char>) -> Seq<u8> {
    spec_pair_key(
        AssetInfoView::NativeToken { denom: from_denom },
        AssetInfoView::NativeToken { denom: target_denom },
    )
}

/// Why a swap request is refused before the pool is asked, if it is. The
/// checks come in this order: the caller is whitelisted; the two
/// denominations differ; the amount is not zero; the funds hold a coin of
/// exactly the offered denomination and amount; the pair is on file; the
/// pair is enabled.
pub open spec fn spec_swap_refusal(
    s: StorageView,
    sender: Seq<char>,
    funds: Seq<CoinView>,
    from_coin: CoinView,
    target_denom: Seq<char>,
) -> Option<ContractError> {
    let key = spec_denom_pair_key(from_coin.denom, target_denom);
    if !s.is_whitelisted(sender) {
        Some(ContractError::Unauthorized)
    } else if from_coin.denom == target_denom {
        Some(ContractError::InvalidDenom)
    } else if from_coin.amount == 0 {
        Some(ContractError::InvalidAmount)
    } else if !funds.contains(from_coin) {
        Some(ContractError::Std(StdError::NoAssetsProvided))
    } else if !s.pair_configs.contains_key(key) {
        Some(ContractError::Std(StdError::PairConfigNotFound))
    } else if s.pair_configs[key].is_disabled {
        Some(ContractError::PairNotFound)
    } else {
        None
    }
}

/// Whether the funds hold a coin of exactly this denomination and amount.
fn has_payment(funds: &Vec<Coin>, from_coin: &Coin) -> (r: bool)
    ensures
        r == coin_views(funds@).contains(from_coin@),
{
    let mut i: usize = 0;
    while i < funds.len()
        invariant
            i <= funds@.len(),
            forall|j: int| 0 <= j < i ==> coin_views(funds@)[j] != from_coin@,
        decreases funds@.len() - i,
    {
        if funds[i].denom == from_coin.denom && funds[i].amount == from_coin.amount {
            assert(coin_views(funds@)[i as int] == from_coin@);
            return true;
        }
        i = i + 1;
    }
    false
}

/// A swap request that passed the checks: the key of its pair and the
/// pair's configuration.
struct Route {
    key: Vec<u8>,
    pair_config: PairConfig,
}

/// Runs the checks that come before the pool is asked.
fn resolve(storage: &Storage, info: &MessageInfo, from_coin: &Coin, target_denom: &String) -> (r:
    Result<Route, ContractError>)
    ensures
        match r {
            Ok(route) => spec_swap_refusal(
                storage@,
                info.sender@,
                coin_views(info.funds@),
                from_coin@,
                target_denom@,
            ).is_none() && route.key@ == spec_denom_pair_key(from_coin.denom@, target_denom@)
                && route.pair_config@ == storage@.pair_configs[route.key@],
            Err(e) => spec_swap_refusal(
                storage@,
                info.sender@,
                coin_views(info.funds@),
                from_coin@,
                target_denom@,
            ) == Some(e),
        },
{
    match is_address_in_whitelist(storage, info.sender.clone()) {
        Ok(true) => {},
        _ => {
            return Err(ContractError::Unauthorized);
        },
    }
    if from_coin.denom == *target_denom {
        return Err(ContractError::InvalidDenom);
    }
    if from_coin.amount == 0 {
        return Err(ContractError::InvalidAmount);
    }
    if !has_payment(&info.funds, from_coin) {
        return Err(ContractError::Std(StdError::NoAssetsProvided));
    }
    let asset_infos = [
        AssetInfo::NativeToken { denom: from_coin.denom.clone() },
        AssetInfo::NativeToken { denom: target_denom.clone() },
    ];
    let key = pair_key(&asset_infos);
    let pair_config = match read_pair_config(storage, key.as_slice()) {
        Ok(pair_config) => pair_config,
        Err(e) => {
            return Err(ContractError::Std(e));
        },
    };
    if pair_config.is_disabled {
        return Err(ContractError::PairNotFound);
    }
    Ok(Route { key, pair_config })
}

/// The question to put to the pool before a swap, or the refusal of the
/// request: the pool of the pair is asked what the offered coin would
/// return.
pub open spec fn spec_swap_denom_query(
    s: StorageView,
    sender: Seq<char>,
    funds: Seq<CoinView>,
    from_coin: CoinView,
    target_denom: Seq<char>,
) -> Result<WasmQueryView, ContractError> {
    match spec_swap_refusal(s, sender, funds, from_coin, target_denom) {
        Some(e) => Err(e),
        None => Ok(
            WasmQueryView {
                contract_addr: s.pair_configs[spec_denom_pair_key(
                    from_coin.denom,
                    target_denom,
                )].pair_address,
                msg: SwapQueryMsgView::Simulation {
                    offer_info: AssetInfoView::NativeToken { denom: from_coin.denom },
                    offer_amount: from_coin.amount,
                },
            },
        ),
    }
}

/// Checks a swap request and names the question whose answer
/// [`swap_denom`] needs.
pub fn swap_denom_query(
    storage: &Storage,
    info: &MessageInfo,
    from_coin: &Coin,
    target_denom: &String,
) -> (r: Result<WasmQuery, ContractError>)
    ensures
        match r {
            Ok(query) => spec_swap_denom_query(
                storage@,
                info.sender@,
                coin_views(info.funds@),
                from_coin@,
                target_denom@,
            ) == Ok::<WasmQueryView, ContractError>(query@),
            Err(e) => spec_swap_denom_query(
                storage@,
                info.sender@,
                coin_views(info.funds@),
                from_coin@,
                target_denom@,
            ) == Err::<WasmQueryView, ContractError>(e),
        },
{
    match resolve(storage, info, from_coin, target_denom) {
        Ok(route) => {
            let offer_asset = Asset {
                info: AssetInfo::NativeToken { denom: from_coin.denom.clone() },
                amount: from_coin.amount,
            };
            Ok(query_simulation(route.pair_config.pair_address, offer_asset))
        },
        Err(e) => Err(e),
    }
}

/// The outcome of a swap request for which the pool quoted
/// `return_amount`. A request that passes the checks adds the offered amount
/// and the quoted amount to the pair's ledger entry, unless a counter would
/// overflow, and tells the host to call the pool with the offered coin; the
/// proceeds go to the pair's recipient, or to the caller where it has none.
pub open spec fn spec_swap_denom(
    s: StorageView,
    sender: Seq<char>,
    funds: Seq<CoinView>,
    from_coin: CoinView,
    target_denom: Seq<char>,
    return_amount: u128,
) -> Result<(StorageView, ResponseView), ContractError> {
    let key = spec_denom_pair_key(from_coin.denom, target_denom);
    match spec_swap_refusal(s, sender, funds, from_coin, target_denom) {
        Some(e) => Err(e),
        None => if !s.swap_info(key).can_record(from_coin.amount, return_amount) {
            Err(ContractError::OverflowError)
        } else {
            Ok(
                (
                    StorageView {
                        swap_infos: s.swap_infos.insert(
                            key,
                            s.swap_info(key).record(from_coin.amount, return_amount),
                        ),
                        ..s
                    },
                    ResponseView {
                        messages: seq![
                            CosmosMsgView::Execute {
                                contract_addr: s.pair_configs[key].pair_address,
                                msg: SwapMsgView::Swap {
                                    offer_info: AssetInfoView::NativeToken {
                                        denom: from_coin.denom,
                                    },
                                    offer_amount: from_coin.amount,
                                    belief_price: None,
                                    max_spread: s.pair_configs[key].max_spread,
                                    to: Some(
                                        match s.pair_configs[key].to {
                                            Some(t) => t,
                                            None => sender,
                                        },
                                    ),
                                },
                                funds: seq![from_coin],
                            },
                        ],
                        attributes: seq![
                            ("action"@, "swap"@),
                            ("from_coin"@, decimal_digits(from_coin.amount as nat)
                                + from_coin.denom),
                            ("target_denom"@, target_denom),
                        ],
                    },
                ),
            )
        },
    }
}

/// Routes a swap of `from_coin` into `target_denom`. `simulation` is the
/// pool's answer to the question that [`swap_denom_query`] names.
pub fn swap_denom(
    storage: &mut Storage,
    info: &MessageInfo,
    from_coin: Coin,
    target_denom: String,
    simulation: &SimulationResponse,
) -> (r: Result<Response, ContractError>)
    ensures
        outcome(r, final(storage)@) == spec_swap_denom(
            old(storage)@,
            info.sender@,
            coin_views(info.funds@),
            from_coin@,
            target_denom@,
            simulation.return_amount,
        ),
        r.is_err() ==> final(storage)@ == old(storage)@,
{
    let route = match resolve(storage, info, &from_coin, &target_denom) {
        Ok(route) => route,
        Err(e) => {
            return Err(e);
        },
    };
    let mut swap_info = match read_swap_info_default_zero(storage, route.key.as_slice()) {
        Ok(swap_info) => swap_info,
        Err(e) => {
            return Err(ContractError::Std(e));
        },
    };
    swap_info.total_amount_out =
    match uint128_checked_add(swap_info.total_amount_out, simulation.return_amount) {
        Some(total) => total,
        None => {
            return Err(ContractError::OverflowError);
        },
    };
    swap_info.total_amount_in =
    match uint128_checked_add(swap_info.total_amount_in, from_coin.amount) {
        Some(total) => total,
        None => {
            return Err(ContractError::OverflowError);
        },
    };
    let asset = Asset {
        info: AssetInfo::NativeToken { denom: from_coin.denom.clone() },
        amount: from_coin.amount,
    };
    let recipient = match &route.pair_config.to {
        Some(t) => t.clone(),
        None => info.sender.clone(),
    };
    let swap = SwapMsg::Swap {
        offer_asset: asset,
        belief_price: None,
        max_spread: route.pair_config.max_spread,
        to: Some(recipient),
    };
    let coin_text = from_coin.to_string();
    let msg = CosmosMsg::Execute {
        contract_addr: route.pair_config.pair_address.clone(),
        msg: swap,
        funds: single_coin(Coin { denom: from_coin.denom.clone(), amount: from_coin.amount }),
    };
    let response = Response::new().add_message(msg).add_attribute("action", "swap").add_attribute(
        "from_coin",
        coin_text.as_str(),
    ).add_attribute("target_denom", target_denom.as_str());
    let _ = store_swap_infos(storage, route.key.as_slice(), &swap_info);
    proof {
        let expected = spec_swap_denom(
            old(storage)@,
            info.sender@,
            coin_views(info.funds@),
            from_coin@,
            target_denom@,
            simulation.return_amount,
        );
        assert(response@.messages =~= expected.unwrap().1.messages);
        assert(response@.attributes =~= expected.unwrap().1.attributes);
    }
    Ok(response)
}

} // verus!
