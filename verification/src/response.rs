//! What an operation hands back to the host: attributes that describe it and
//! the instructions that the host carries out in the same atomic unit.

use vstd::prelude::*;
use crate::helper::{Asset, AssetInfoView};
use crate::math::Decimal;
use crate::helper::{clone_option_text, option_text};

verus! {

/// An amount of a native denomination.
#[derive(Debug, PartialEq, Eq)]
pub struct Coin {
    pub denom: String,
    pub amount: u128,
}

/// The mathematical value of a [`Coin`].
pub struct CoinView {
    pub denom: Seq<char>,
    pub amount: u128,
}

impl View for Coin {
    type V = CoinView;

    open spec fn view(&self) -> CoinView {
        CoinView { denom: self.denom@, amount: self.amount }
    }
}

impl Clone for Coin {
    fn clone(&self) -> (r: Self)
        ensures
            r@ == self@,
    {
        Coin { denom: self.denom.clone(), amount: self.amount }
    }
}

impl Coin {
    /// The coin of the given amount and denomination.
    pub fn new(amount: u128, denom: &str) -> (r: Self)
        ensures
            r@ == (CoinView { denom: denom@, amount }),
    {
        Coin { denom: denom.to_owned(), amount }
    }

    /// The amount's digits directly followed by the denomination.
    pub fn to_string(&self) -> (r: String)
        ensures
            r@ == crate::math::decimal_digits(self.amount as nat) + self.denom@,
    {
        crate::math::coin_to_string(self.amount, self.denom.as_str())
    }
}

/// The values of a list of coins.
pub open spec fn coin_views(coins: Seq<Coin>) -> Seq<CoinView> {
    coins.map_values(|c: Coin| c@)
}

/// Who called, and the funds that came with the call.
#[derive(Debug, Clone, PartialEq, Eq)]
pub struct MessageInfo {
    pub sender: String,
    pub funds: Vec<Coin>,
}

/// The instruction a pool understands.
#[derive(Debug, PartialEq, Eq)]
pub enum SwapMsg {
    Swap {
        offer_asset: Asset,
        belief_price: Option<Decimal>,
        max_spread: Option<Decimal>,
        to: Option<String>,
    },
}

/// The mathematical value of a [`SwapMsg`].
pub enum SwapMsgView {
    Swap {
        offer_info: AssetInfoView,
        offer_amount: u128,
        belief_price: Option<Decimal>,
        max_spread: Option<Decimal>,
        to: Option<Seq<char>>,
    },
}

impl View for SwapMsg {
    type V = SwapMsgView;

    open spec fn view(&self) -> SwapMsgView {
        match self {
            SwapMsg::Swap { offer_asset, belief_price, max_spread, to } => SwapMsgView::Swap {
                offer_info: offer_asset.info@,
                offer_amount: offer_asset.amount,
                belief_price: *belief_price,
                max_spread: *max_spread,
                to: option_text(*to),
            },
        }
    }
}

impl Clone for SwapMsg {
    fn clone(&self) -> (r: Self)
        ensures
            r@ == self@,
    {
        match self {
            SwapMsg::Swap { offer_asset, belief_price, max_spread, to } => SwapMsg::Swap {
                offer_asset: offer_asset.clone(),
                belief_price: *belief_price,
                max_spread: *max_spread,
                to: clone_option_text(to),
            },
        }
    }
}

/// An instruction for the host.
#[derive(Debug, Clone, PartialEq, Eq)]
pub enum CosmosMsg {
    /// Call the contract at `contract_addr` with `msg`, sending `funds` along.
    Execute { contract_addr: String, msg: SwapMsg, funds: Vec<Coin> },
    /// Transfer `amount` to `to_address`.
    Send { to_address: String, amount: Vec<Coin> },
}

/// The mathematical value of a [`CosmosMsg`].
pub enum CosmosMsgView {
    Execute { contract_addr: Seq<char>, msg: SwapMsgView, funds: Seq<CoinView> },
    Send { to_address: Seq<char>, amount: Seq<CoinView> },
}

impl View for CosmosMsg {
    type V = CosmosMsgView;

    open spec fn view(&self) -> CosmosMsgView {
        match self {
            CosmosMsg::Execute { contract_addr, msg, funds } => CosmosMsgView::Execute {
                contract_addr: contract_addr@,
                msg: msg@,
                funds: coin_views(funds@),
            },
            CosmosMsg::Send { to_address, amount } => CosmosMsgView::Send {
                to_address: to_address@,
                amount: coin_views(amount@),
            },
        }
    }
}

/// A key with a value that describes what an operation did.
#[derive(Debug, Clone, PartialEq, Eq)]
pub struct Attribute {
    pub key: String,
    pub value: String,
}

impl View for Attribute {
    type V = (Seq<char>, Seq<char>);

    open spec fn view(&self) -> (Seq<char>, Seq<char>) {
        (self.key@, self.value@)
    }
}

/// The outcome of a successful operation.
#[derive(Debug, Clone, PartialEq, Eq)]
pub struct Response {
    /// The instructions, in the order in which the host carries them out.
    pub messages: Vec<CosmosMsg>,
    /// The attributes, in the order in which they were added.
    pub attributes: Vec<Attribute>,
}

/// The mathematical value of a [`Response`].
pub struct ResponseView {
    pub messages: Seq<CosmosMsgView>,
    pub attributes: Seq<(Seq<char>, Seq<char>)>,
}

impl View for Response {
    type V = ResponseView;

    open spec fn view(&self) -> ResponseView {
        ResponseView {
            messages: self.messages@.map_values(|m: CosmosMsg| m@),
            attributes: self.attributes@.map_values(|a: Attribute| a@),
        }
    }
}

impl Response {
    /// The response without instructions or attributes.
    pub fn new() -> (r: Self)
        ensures
            r@ == (ResponseView { messages: seq![], attributes: seq![] }),
    {
        let r = Response { messages: Vec::new(), attributes: Vec::new() };
        assert(r@.messages =~= seq![]);
        assert(r@.attributes =~= seq![]);
        r
    }

    /// Adds an instruction after those already there.
    pub fn add_message(self, msg: CosmosMsg) -> (r: Self)
        ensures
            r@ == (ResponseView { messages: self@.messages.push(msg@), ..self@ }),
    {
        let mut r = self;
        r.messages.push(msg);
        assert(r@.messages =~= self@.messages.push(msg@));
        r
    }

    /// Adds an attribute after those already there.
    pub fn add_attribute(self, key: &str, value: &str) -> (r: Self)
        ensures
            r@ == (ResponseView { attributes: self@.attributes.push((key@, value@)), ..self@ }),
    {
        let mut r = self;
        r.attributes.push(Attribute { key: key.to_owned(), value: value.to_owned() });
        assert(r@.attributes =~= self@.attributes.push((key@, value@)));
        r
    }
}

/// The list that holds one coin.
pub fn single_coin(coin: Coin) -> (r: Vec<Coin>)
    ensures
        coin_views(r@) == seq![coin@],
{
    let mut v: Vec<Coin> = Vec::new();
    v.push(coin);
    assert(coin_views(v@) =~= seq![coin@]);
    v
}

} // verus!
