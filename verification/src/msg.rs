//! The requests the router takes and the answers it gives.

use vstd::prelude::*;
use crate::helper::{Asset, AssetInfo, AssetInfoView};
use crate::math::Decimal;
use crate::helper::option_text;
use crate::state::PairConfigView;

verus! {

/// The parameters the router is created with. Without an owner, the caller
/// becomes the owner.
#[derive(Debug, Clone, PartialEq, Eq)]
pub struct InstantiateMsg {
    pub owner: Option<String>,
}

/// A pair's configuration together with the pair it is for.
#[derive(Debug, Clone, PartialEq, Eq)]
pub struct PairConfigMsg {
    pub asset_infos: [AssetInfo; 2],
    pub pair_address: String,
    pub is_disabled: bool,
    pub max_spread: Option<Decimal>,
    pub to: Option<String>,
}

/// The answer to the question for the owner.
#[derive(Debug, Clone, PartialEq, Eq)]
pub struct ConfigResponse {
    pub owner: String,
}

/// The answer to the question for a pair's swapped volume.
#[derive(Debug, Clone, Copy, PartialEq, Eq, Structural)]
pub struct SwapInfoResponse {
    pub total_amount_in: u128,
    pub total_amount_out: u128,
}

/// The answer to the question for a pair's configuration.
#[derive(Debug, Clone, PartialEq, Eq)]
pub struct PairConfigResponse {
    pub pair_address: String,
    pub is_disabled: bool,
    pub max_spread: Option<Decimal>,
    pub to: Option<String>,
}

impl View for PairConfigResponse {
    type V = PairConfigView;

    open spec fn view(&self) -> PairConfigView {
        PairConfigView {
            pair_address: self.pair_address@,
            is_disabled: self.is_disabled,
            max_spread: self.max_spread,
            to: option_text(self.to),
        }
    }
}

/// The operations of the router. A pair is given as a list of assets, which
/// has to hold exactly two.
#[derive(Debug, Clone, PartialEq, Eq)]
pub enum ExecuteMsg {
    UpdatePairConfig {
        asset_infos: Vec<AssetInfo>,
        pair_address: String,
        max_spread: Option<Decimal>,
        to: Option<String>,
    },
    ChangeOwner { new_owner: String },
    UpdatePairStatus { asset_infos: Vec<AssetInfo>, is_disabled: bool },
    UpdatePairMaxSpread { asset_infos: Vec<AssetInfo>, max_spread: Decimal },
    SetWhitelist { caller: String, is_whitelist: bool },
    /// `to_address` is taken for compatibility; the proceeds go to the
    /// recipient that the pair is configured with, or else to the caller.
    SwapDenom { from_coin: crate::response::Coin, target_denom: String, to_address: Option<String> },
}

/// The questions the router answers.
#[derive(Debug, Clone, PartialEq, Eq)]
pub enum QueryMsg {
    QueryConfig {  },
    QueryIsSwapWhitelist { caller: String },
    QueryPairConfig { asset_infos: [AssetInfo; 2] },
    QuerySwapInfo { asset_infos: [AssetInfo; 2] },
    QuerySimulation { asset_infos: [AssetInfo; 2], offer_asset: Asset },
    QueryReverseSimulation { asset_infos: [AssetInfo; 2], ask_asset: Asset },
    QueryCumulativePrices { asset_infos: [AssetInfo; 2] },
}

/// The questions a pool answers.
#[derive(Debug, Clone, PartialEq, Eq)]
pub enum SwapQueryMsg {
    /// What would a swap of this offer return?
    Simulation { offer_asset: Asset },
    /// What has to be offered for a swap to return this?
    ReverseSimulation { ask_asset: Asset },
    /// The pool's cumulative prices.
    CumulativePrices {  },
}

/// The mathematical value of a [`SwapQueryMsg`].
pub enum SwapQueryMsgView {
    Simulation { offer_info: AssetInfoView, offer_amount: u128 },
    ReverseSimulation { ask_info: AssetInfoView, ask_amount: u128 },
    CumulativePrices,
}

impl View for SwapQueryMsg {
    type V = SwapQueryMsgView;

    open spec fn view(&self) -> SwapQueryMsgView {
        match self {
            SwapQueryMsg::Simulation { offer_asset } => SwapQueryMsgView::Simulation {
                offer_info: offer_asset.info@,
                offer_amount: offer_asset.amount,
            },
            SwapQueryMsg::ReverseSimulation { ask_asset } => SwapQueryMsgView::ReverseSimulation {
                ask_info: ask_asset.info@,
                ask_amount: ask_asset.amount,
            },
            SwapQueryMsg::CumulativePrices {  } => SwapQueryMsgView::CumulativePrices,
        }
    }
}

/// What a swap of the offered asset would return.
#[derive(Debug, Clone, Copy, PartialEq, Eq, Structural)]
pub struct SimulationResponse {
    /// The amount of the asked asset that the swap returns.
    pub return_amount: u128,
    /// The spread of the swap.
    pub spread_amount: u128,
    /// The fees of the swap.
    pub commission_amount: u128,
}

/// What has to be offered for a swap to return the asked asset.
#[derive(Debug, Clone, Copy, PartialEq, Eq, Structural)]
pub struct ReverseSimulationResponse {
    /// The amount of the offered asset that the swap takes.
    pub offer_amount: u128,
    /// The spread of the swap.
    pub spread_amount: u128,
    /// The fees of the swap.
    pub commission_amount: u128,
}

/// A pool's cumulative prices.
#[derive(Debug, Clone, PartialEq, Eq)]
pub struct CumulativePricesResponse {
    /// The two assets of the pool with their reserves.
    pub assets: [Asset; 2],
    /// The liquidity shares that have been issued.
    pub total_share: u128,
    /// The last cumulative price of the first asset.
    pub price0_cumulative_last: u128,
    /// The last cumulative price of the second asset.
    pub price1_cumulative_last: u128,
}

/// The parameters of a migration: none.
#[derive(Debug, Clone, Copy, PartialEq, Eq, Structural)]
pub struct MigrateMsg {
}

} // verus!
