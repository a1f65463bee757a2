//! The pool: two assets that trade at a fixed price.
//!
//! The price says how many units of the second asset one million units of
//! the first asset buy. Amounts are rounded down at each division.

use vstd::prelude::*;
use crate::error::{ContractError, StdError};
use crate::helper::{Asset, AssetInfo, AssetInfoView};
use crate::msg::SimulationResponse;
use crate::math::{decimal_digits, uint128_checked_div, uint128_checked_mul, uint128_to_string, Decimal};
use crate::response::{Coin, CoinView, CosmosMsg, CosmosMsgView, MessageInfo, Response, ResponseView, single_coin};
use crate::helper::option_text;

verus! {

/// The scale of the price: a price of one million is parity.
pub const PRICE_SCALE: u128 = 1_000_000;

/// What the price is divided into to get the price of the opposite
/// direction.
pub const INVERSE_NUMERATOR: u128 = 1_000_000_000_000_000_000_000;

/// The scale of the price of the opposite direction.
pub const INVERSE_SCALE: u128 = 1_000_000_000_000_000;

/// What the pool stores: its two assets and the price of the first in the
/// second.
#[derive(Debug, Clone, PartialEq, Eq)]
pub struct Config {
    pub asset_infos: [AssetInfo; 2],
    pub swap_0_to_1_price: u128,
}

/// The mathematical value of a [`Config`].
pub struct ConfigView {
    pub asset_0: AssetInfoView,
    pub asset_1: AssetInfoView,
    pub price: u128,
}

impl View for Config {
    type V = ConfigView;

    open spec fn view(&self) -> ConfigView {
        ConfigView {
            asset_0: self.asset_infos[0]@,
            asset_1: self.asset_infos[1]@,
            price: self.swap_0_to_1_price,
        }
    }
}

/// The parameters the pool is created with.
#[derive(Debug, Clone, PartialEq, Eq)]
pub struct InstantiateMsg {
    pub asset_infos: [AssetInfo; 2],
    pub swap_0_to_1_price: u128,
}

/// The operations of the pool.
#[derive(Debug, Clone, PartialEq, Eq)]
pub enum ExecuteMsg {
    Swap {
        offer_asset: Asset,
        belief_price: Option<Decimal>,
        max_spread: Option<Decimal>,
        to: Option<String>,
    },
    Update0To1Price { new_price: u128 },
}

/// The pool's assets and price.
#[derive(Debug, Clone, PartialEq, Eq)]
pub struct ConfigResponse {
    pub asset_infos: [AssetInfo; 2],
    pub swap_0_to_1_price: u128,
}

/// The questions the pool answers.
#[derive(Debug, Clone, PartialEq, Eq)]
pub enum QueryMsg {
    Simulation { offer_asset: Asset },
    Config {  },
}

/// The answers of the pool.
#[derive(Debug, Clone, PartialEq, Eq)]
pub enum QueryResponse {
    Simulation(SimulationResponse),
    Config(ConfigResponse),
}

/// The amount that `offer` units buy at `price`. Offering the pool's first
/// asset multiplies by the price and divides by a million. Offering anything
/// else divides 10^21 by the price, multiplies by the offer and divides by
/// 10^15. Each division rounds down; a product beyond 128 bits is an
/// overflow.
pub open spec fn spec_return_amount(price: u128, offers_first: bool, offer: u128) -> Result<
    u128,
    ContractError,
> {
    if offers_first {
        if price * offer > u128::MAX {
            Err(ContractError::OverflowError)
        } else {
            Ok(((price * offer) / 1_000_000int) as u128)
        }
    } else if price == 0 {
        Err(ContractError::Std(StdError::DivideByZero))
    } else if (1_000_000_000_000_000_000_000int / (price as int)) * offer > u128::MAX {
        Err(ContractError::OverflowError)
    } else {
        Ok((((1_000_000_000_000_000_000_000int / (price as int)) * offer) / 1_000_000_000_000_000int) as u128)
    }
}

/// Computes the amount that `offer` units buy at `price`.
pub fn return_amount(price: u128, offers_first: bool, offer: u128) -> (r: Result<
    u128,
    ContractError,
>)
    ensures
        r == spec_return_amount(price, offers_first, offer),
{
    if offers_first {
        match uint128_checked_mul(price, offer) {
            Some(product) => match uint128_checked_div(product, PRICE_SCALE) {
                Some(amount) => Ok(amount),
                None => Err(ContractError::Std(StdError::DivideByZero)),
            },
            None => Err(ContractError::OverflowError),
        }
    } else {
        match uint128_checked_div(INVERSE_NUMERATOR, price) {
            Some(inverse) => match uint128_checked_mul(inverse, offer) {
                Some(product) => match uint128_checked_div(product, INVERSE_SCALE) {
                    Some(amount) => Ok(amount),
                    None => Err(ContractError::Std(StdError::DivideByZero)),
                },
                None => Err(ContractError::OverflowError),
            },
            None => Err(ContractError::Std(StdError::DivideByZero)),
        }
    }
}

/// Creates the pool's configuration from the parameters.
pub fn instantiate(msg: InstantiateMsg) -> (r: (Config, Response))
    ensures
        r.0.asset_infos == msg.asset_infos,
        r.0.swap_0_to_1_price == msg.swap_0_to_1_price,
        r.1@ == (ResponseView { messages: seq![], attributes: seq![] }),
{
    let config = Config {
        asset_infos: msg.asset_infos,
        swap_0_to_1_price: msg.swap_0_to_1_price,
    };
    (config, Response::new())
}

/// The response to a change of the price.
pub open spec fn spec_update_price_response(new_price: u128) -> ResponseView {
    ResponseView {
        messages: seq![],
        attributes: seq![
            ("action"@, "update_0_to_1_price"@),
            ("new_price"@, decimal_digits(new_price as nat)),
        ],
    }
}

/// Replaces the price. Anyone may do so.
pub fn update0_to1_price(config: &mut Config, new_price: u128) -> (r: Result<
    Response,
    ContractError,
>)
    ensures
        r.is_ok(),
        r.unwrap()@ == spec_update_price_response(new_price),
        final(config).asset_infos == old(config).asset_infos,
        final(config).swap_0_to_1_price == new_price,
{
    config.swap_0_to_1_price = new_price;
    let text = uint128_to_string(new_price);
    let response = Response::new().add_attribute("action", "update_0_to_1_price").add_attribute(
        "new_price",
        text.as_str(),
    );
    assert(response@.attributes =~= spec_update_price_response(new_price).attributes);
    Ok(response)
}

/// The assets whose balances the pool reads before a swap, as stand-ins for
/// its two reserves: the first asset, both times.
pub fn reserve_assets(config: &Config) -> (r: [AssetInfo; 2])
    ensures
        r[0]@ == config@.asset_0,
        r[1]@ == config@.asset_0,
{
    [config.asset_infos[0].clone(), config.asset_infos[0].clone()]
}

/// The denomination that a swap pays out in: the name of the pool's second
/// asset where the first is offered, else the name of the first.
pub open spec fn spec_ask_denom(config: ConfigView, offer_info: AssetInfoView) -> Seq<char> {
    if offer_info == config.asset_0 {
        config.asset_1.text()
    } else {
        config.asset_0.text()
    }
}

/// The outcome of a swap: refused where a reserve is empty or the amount
/// cannot be computed; else one transfer of the bought amount to the
/// receiver, and attributes in the shape of a full exchange pool's, with
/// taxes, spread and fees at zero.
pub open spec fn spec_swap(
    config: ConfigView,
    sender: Seq<char>,
    offer_info: AssetInfoView,
    offer_amount: u128,
    to: Option<Seq<char>>,
    reserve_0: u128,
    reserve_1: u128,
) -> Result<ResponseView, ContractError> {
    if reserve_0 == 0 || reserve_1 == 0 {
        Err(ContractError::InsufficientLiquidity)
    } else {
        match spec_return_amount(config.price, offer_info == config.asset_0, offer_amount) {
            Err(e) => Err(e),
            Ok(amount) => {
                let receiver = match to {
                    Some(t) => t,
                    None => sender,
                };
                Ok(
                    ResponseView {
                        messages: seq![
                            CosmosMsgView::Send {
                                to_address: receiver,
                                amount: seq![
                                    CoinView { denom: spec_ask_denom(config, offer_info), amount },
                                ],
                            },
                        ],
                        attributes: seq![
                            ("action"@, "swap"@),
                            ("sender"@, sender),
                            ("receiver"@, receiver),
                            ("offer_asset"@, offer_info.text()),
                            ("ask_asset"@, "offer_asset_mock"@),
                            ("offer_amount"@, decimal_digits(offer_amount as nat)),
                            ("return_amount"@, decimal_digits(amount as nat)),
                            ("tax_amount"@, "0"@),
                            ("spread_amount"@, "0"@),
                            ("commission_amount"@, "0"@),
                            ("maker_fee_amount"@, "0"@),
                        ],
                    },
                )
            },
        }
    }
}

/// The value of the outcome of an operation.
pub open spec fn outcome_view(r: Result<Response, ContractError>) -> Result<
    ResponseView,
    ContractError,
> {
    match r {
        Ok(response) => Ok(response@),
        Err(e) => Err(e),
    }
}

/// Swaps the offered asset at the stored price. `reserve_0` and `reserve_1`
/// are the balances read for the assets that [`reserve_assets`] names.
pub fn swap(
    config: &Config,
    sender: String,
    offer_asset: Asset,
    to: Option<String>,
    reserve_0: u128,
    reserve_1: u128,
) -> (r: Result<Response, ContractError>)
    ensures
        outcome_view(r) == spec_swap(
            config@,
            sender@,
            offer_asset.info@,
            offer_asset.amount,
            option_text(to),
            reserve_0,
            reserve_1,
        ),
{
    if reserve_0 == 0 || reserve_1 == 0 {
        return Err(ContractError::InsufficientLiquidity);
    }
    let offers_first = offer_asset.info.equal(&config.asset_infos[0]);
    let amount = match return_amount(config.swap_0_to_1_price, offers_first, offer_asset.amount) {
        Ok(amount) => amount,
        Err(e) => {
            return Err(e);
        },
    };
    let to_denom = if offers_first {
        config.asset_infos[1].to_string()
    } else {
        config.asset_infos[0].to_string()
    };
    let receiver = match to {
        Some(t) => t,
        None => sender.clone(),
    };
    let offer_name = offer_asset.info.to_string();
    let offer_text = uint128_to_string(offer_asset.amount);
    let return_text = uint128_to_string(amount);
    let payout = Coin { denom: to_denom, amount };
    let msg = CosmosMsg::Send { to_address: receiver.clone(), amount: single_coin(payout) };
    let response = Response::new().add_message(msg).add_attribute("action", "swap").add_attribute(
        "sender",
        sender.as_str(),
    ).add_attribute("receiver", receiver.as_str()).add_attribute(
        "offer_asset",
        offer_name.as_str(),
    ).add_attribute("ask_asset", "offer_asset_mock").add_attribute(
        "offer_amount",
        offer_text.as_str(),
    ).add_attribute("return_amount", return_text.as_str()).add_attribute(
        "tax_amount",
        "0",
    ).add_attribute("spread_amount", "0").add_attribute("commission_amount", "0").add_attribute(
        "maker_fee_amount",
        "0",
    );
    proof {
        let expected = spec_swap(
            config@,
            sender@,
            offer_asset.info@,
            offer_asset.amount,
            option_text(to),
            reserve_0,
            reserve_1,
        );
        assert(response@.messages =~= expected.unwrap().messages);
        assert(response@.attributes =~= expected.unwrap().attributes);
    }
    Ok(response)
}

/// What a swap of the offered asset would return at the stored price, with
/// no spread and no commission.
pub open spec fn spec_simulation(config: ConfigView, offer_info: AssetInfoView, offer_amount: u128) -> Result<
    SimulationResponse,
    ContractError,
> {
    match spec_return_amount(config.price, offer_info == config.asset_0, offer_amount) {
        Ok(amount) => Ok(
            SimulationResponse { return_amount: amount, spread_amount: 0, commission_amount: 0 },
        ),
        Err(e) => Err(e),
    }
}

/// Quotes a swap without performing it.
pub fn query_simulation(config: &Config, offer_asset: Asset) -> (r: Result<
    SimulationResponse,
    ContractError,
>)
    ensures
        r == spec_simulation(config@, offer_asset.info@, offer_asset.amount),
{
    let offers_first = offer_asset.info.equal(&config.asset_infos[0]);
    match return_amount(config.swap_0_to_1_price, offers_first, offer_asset.amount) {
        Ok(amount) => Ok(
            SimulationResponse { return_amount: amount, spread_amount: 0, commission_amount: 0 },
        ),
        Err(e) => Err(e),
    }
}

/// Reports the pool's assets and price.
pub fn query_config(config: &Config) -> (r: Result<ConfigResponse, ContractError>)
    ensures
        r.is_ok(),
        r.unwrap().asset_infos[0]@ == config@.asset_0,
        r.unwrap().asset_infos[1]@ == config@.asset_1,
        r.unwrap().swap_0_to_1_price == config@.price,
{
    Ok(
        ConfigResponse {
            asset_infos: [config.asset_infos[0].clone(), config.asset_infos[1].clone()],
            swap_0_to_1_price: config.swap_0_to_1_price,
        },
    )
}

/// The outcome of an operation of the pool: a swap of a non-native asset is
/// refused, a native one is swapped for the caller, and a new price is
/// stored.
pub open spec fn spec_execute(
    config: ConfigView,
    sender: Seq<char>,
    msg: ExecuteMsg,
    reserve_0: u128,
    reserve_1: u128,
) -> Result<ResponseView, ContractError> {
    match msg {
        ExecuteMsg::Swap { offer_asset, belief_price, max_spread, to } => {
            if !(offer_asset.info@ is NativeToken) {
                Err(ContractError::Cw20DirectSwap)
            } else {
                spec_swap(
                    config,
                    sender,
                    offer_asset.info@,
                    offer_asset.amount,
                    option_text(to),
                    reserve_0,
                    reserve_1,
                )
            }
        },
        ExecuteMsg::Update0To1Price { new_price } => Ok(spec_update_price_response(new_price)),
    }
}

/// Carries out an operation of the pool. `reserve_0` and `reserve_1` are the
/// balances read for the assets that [`reserve_assets`] names. Only a
/// successful change of the price changes the configuration.
pub fn execute(
    config: &mut Config,
    info: MessageInfo,
    msg: ExecuteMsg,
    reserve_0: u128,
    reserve_1: u128,
) -> (r: Result<Response, ContractError>)
    ensures
        outcome_view(r) == spec_execute(old(config)@, info.sender@, msg, reserve_0, reserve_1),
        final(config).asset_infos == old(config).asset_infos,
        final(config).swap_0_to_1_price == match msg {
            ExecuteMsg::Update0To1Price { new_price } => new_price,
            _ => old(config).swap_0_to_1_price,
        },
{
    match msg {
        ExecuteMsg::Swap { offer_asset, belief_price, max_spread, to } => {
            if !offer_asset.is_native_token() {
                return Err(ContractError::Cw20DirectSwap);
            }
            swap(config, info.sender, offer_asset, to, reserve_0, reserve_1)
        },
        ExecuteMsg::Update0To1Price { new_price } => update0_to1_price(config, new_price),
    }
}

/// Answers a question put to the pool.
pub fn query(config: &Config, msg: QueryMsg) -> (r: Result<QueryResponse, ContractError>)
    ensures
        match msg {
            QueryMsg::Simulation { offer_asset } => match r {
                Ok(QueryResponse::Simulation(s)) => spec_simulation(
                    config@,
                    offer_asset.info@,
                    offer_asset.amount,
                ) == Ok::<SimulationResponse, ContractError>(s),
                Ok(_) => false,
                Err(e) => spec_simulation(config@, offer_asset.info@, offer_asset.amount) == Err::<
                    SimulationResponse,
                    ContractError,
                >(e),
            },
            QueryMsg::Config {  } => match r {
                Ok(QueryResponse::Config(c)) => c.asset_infos[0]@ == config@.asset_0
                    && c.asset_infos[1]@ == config@.asset_1 && c.swap_0_to_1_price
                    == config@.price,
                _ => false,
            },
        },
{
    match msg {
        QueryMsg::Simulation { offer_asset } => {
            match query_simulation(config, offer_asset) {
                Ok(s) => Ok(QueryResponse::Simulation(s)),
                Err(e) => Err(e),
            }
        },
        QueryMsg::Config {  } => {
            match query_config(config) {
                Ok(c) => Ok(QueryResponse::Config(c)),
                Err(e) => Err(e),
            }
        },
    }
}

/// A quote and the execution that follows it at the same price, for the
/// same offer, agree: whenever the swap goes through, the quote succeeds
/// too, and the amount the swap transfers is the amount that was quoted.
pub proof fn lemma_quote_equals_execution(
    config: ConfigView,
    sender: Seq<char>,
    offer_info: AssetInfoView,
    offer_amount: u128,
    to: Option<Seq<char>>,
    reserve_0: u128,
    reserve_1: u128,
)
    requires
        spec_swap(config, sender, offer_info, offer_amount, to, reserve_0, reserve_1).is_ok(),
    ensures
        spec_simulation(config, offer_info, offer_amount).is_ok(),
        spec_swap(
            config,
            sender,
            offer_info,
            offer_amount,
            to,
            reserve_0,
            reserve_1,
        ).unwrap().messages[0]->Send_amount[0].amount == spec_simulation(
            config,
            offer_info,
            offer_amount,
        ).unwrap().return_amount,
        spec_swap(
            config,
            sender,
            offer_info,
            offer_amount,
            to,
            reserve_0,
            reserve_1,
        ).unwrap().attributes[6] == ("return_amount"@, decimal_digits(
            spec_simulation(config, offer_info, offer_amount).unwrap().return_amount as nat,
        )),
{
}

} // verus!
