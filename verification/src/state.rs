//! What the router keeps between calls: the owner, the pair registry, the
//! swap ledger and the whitelist.

use vstd::prelude::*;
use vstd::slice::slice_to_vec;
use vstd::string::StrSliceExecFns;
use vstd::utf8::encode_utf8;
use crate::error::StdError;
use crate::helper::{clone_option_text, option_text};
use crate::math::Decimal;
use crate::table::Table;

verus! {

/// The administrator of the router.
#[derive(Debug, PartialEq, Eq)]
pub struct Config {
    pub owner: String,
}

impl Clone for Config {
    fn clone(&self) -> (r: Self)
        ensures
            r.owner@ == self.owner@,
    {
        Config { owner: self.owner.clone() }
    }
}

/// How swaps of one pair are routed.
#[derive(Debug, PartialEq, Eq)]
pub struct PairConfig {
    /// The pool that trades the pair.
    pub pair_address: String,
    /// A disabled pair is refused as if it were unknown.
    pub is_disabled: bool,
    /// The spread handed on to the pool.
    pub max_spread: Option<Decimal>,
    /// Who receives the proceeds; the caller where absent.
    pub to: Option<String>,
}

/// The mathematical value of a [`PairConfig`].
pub struct PairConfigView {
    pub pair_address: Seq<char>,
    pub is_disabled: bool,
    pub max_spread: Option<Decimal>,
    pub to: Option<Seq<char>>,
}

impl View for PairConfig {
    type V = PairConfigView;

    open spec fn view(&self) -> PairConfigView {
        PairConfigView {
            pair_address: self.pair_address@,
            is_disabled: self.is_disabled,
            max_spread: self.max_spread,
            to: option_text(self.to),
        }
    }
}

impl Clone for PairConfig {
    fn clone(&self) -> (r: Self)
        ensures
            r@ == self@,
    {
        PairConfig {
            pair_address: self.pair_address.clone(),
            is_disabled: self.is_disabled,
            max_spread: self.max_spread,
            to: clone_option_text(&self.to),
        }
    }
}

/// The volume swapped through one pair so far.
#[derive(Debug, Clone, Copy, PartialEq, Eq, Structural)]
pub struct SwapInfo {
    pub total_amount_in: u128,
    pub total_amount_out: u128,
}

impl View for SwapInfo {
    type V = SwapInfo;

    open spec fn view(&self) -> SwapInfo {
        *self
    }
}

impl SwapInfo {
    /// The entry of a pair that has not been swapped yet.
    pub open spec fn spec_zero() -> SwapInfo {
        SwapInfo { total_amount_in: 0, total_amount_out: 0 }
    }

    /// Whether one more swap of these amounts fits into the counters.
    pub open spec fn can_record(self, amount_in: u128, amount_out: u128) -> bool {
        self.total_amount_in + amount_in <= u128::MAX && self.total_amount_out + amount_out
            <= u128::MAX
    }

    /// The entry after one more swap of these amounts.
    pub open spec fn record(self, amount_in: u128, amount_out: u128) -> SwapInfo
        recommends
            self.can_record(amount_in, amount_out),
    {
        SwapInfo {
            total_amount_in: (self.total_amount_in + amount_in) as u128,
            total_amount_out: (self.total_amount_out + amount_out) as u128,
        }
    }
}

/// Everything the router stores.
pub struct Storage {
    config: Option<Config>,
    pair_configs: Table<PairConfig>,
    swap_infos: Table<SwapInfo>,
    swap_whitelist: Table<bool>,
}

/// The mathematical value of a [`Storage`].
pub struct StorageView {
    /// The owner, once one has been stored.
    pub owner: Option<Seq<char>>,
    /// The pair registry, by pair key.
    pub pair_configs: Map<Seq<u8>, PairConfigView>,
    /// The swap ledger, by pair key.
    pub swap_infos: Map<Seq<u8>, SwapInfo>,
    /// The whitelist, by the account's name in UTF-8.
    pub swap_whitelist: Map<Seq<u8>, bool>,
}

impl StorageView {
    /// Whether the account may swap: it has an entry, and the entry allows it.
    pub open spec fn is_whitelisted(self, account: Seq<char>) -> bool {
        self.swap_whitelist.contains_key(encode_utf8(account)) && self.swap_whitelist[encode_utf8(
            account,
        )]
    }

    /// The ledger entry of a pair; zero where nothing has been recorded.
    pub open spec fn swap_info(self, pair_key: Seq<u8>) -> SwapInfo {
        if self.swap_infos.contains_key(pair_key) {
            self.swap_infos[pair_key]
        } else {
            SwapInfo::spec_zero()
        }
    }

    /// Whether the account is the stored owner.
    pub open spec fn is_owner(self, account: Seq<char>) -> bool {
        self.owner == Some(account)
    }
}

impl View for Storage {
    type V = StorageView;

    closed spec fn view(&self) -> StorageView {
        StorageView {
            owner: match self.config {
                Some(c) => Some(c.owner@),
                None => None,
            },
            pair_configs: self.pair_configs.map(),
            swap_infos: self.swap_infos.map(),
            swap_whitelist: self.swap_whitelist.map(),
        }
    }
}

impl Storage {
    /// A store in which nothing has been stored yet.
    pub fn new() -> (r: Self)
        ensures
            r@.owner.is_none(),
            r@.pair_configs == Map::<Seq<u8>, PairConfigView>::empty(),
            r@.swap_infos == Map::<Seq<u8>, SwapInfo>::empty(),
            r@.swap_whitelist == Map::<Seq<u8>, bool>::empty(),
    {
        Storage {
            config: None,
            pair_configs: Table::new(),
            swap_infos: Table::new(),
            swap_whitelist: Table::new(),
        }
    }
}

/// Stores the owner record in place of the one that was there.
pub fn store_config(storage: &mut Storage, config: &Config) -> (r: Result<(), StdError>)
    ensures
        r.is_ok(),
        final(storage)@ == (StorageView { owner: Some(config.owner@), ..old(storage)@ }),
{
    storage.config = Some(config.clone());
    Ok(())
}

/// Reads the owner record; fails where none has been stored.
pub fn read_config(storage: &Storage) -> (r: Result<Config, StdError>)
    ensures
        match r {
            Ok(config) => storage@.owner == Some(config.owner@),
            Err(e) => storage@.owner.is_none() && e == StdError::ConfigNotFound,
        },
{
    match &storage.config {
        Some(config) => Ok(config.clone()),
        None => Err(StdError::ConfigNotFound),
    }
}

/// Files a pair's configuration under its key, in place of what was filed
/// there, and hands back what is now stored.
pub fn store_pair_configs(storage: &mut Storage, pair_key: &[u8], pair_config: &PairConfig) -> (r:
    Result<PairConfig, StdError>)
    ensures
        r.is_ok(),
        r.unwrap()@ == pair_config@,
        final(storage)@ == (StorageView {
            pair_configs: old(storage)@.pair_configs.insert(pair_key@, pair_config@),
            ..old(storage)@
        }),
{
    storage.pair_configs.insert(slice_to_vec(pair_key), pair_config.clone());
    Ok(pair_config.clone())
}

/// Reads a pair's configuration; fails where none is filed under the key.
pub fn read_pair_config(storage: &Storage, pair_key: &[u8]) -> (r: Result<PairConfig, StdError>)
    ensures
        match r {
            Ok(pair_config) => storage@.pair_configs.contains_key(pair_key@) && pair_config@
                == storage@.pair_configs[pair_key@],
            Err(e) => !storage@.pair_configs.contains_key(pair_key@) && e
                == StdError::PairConfigNotFound,
        },
{
    match storage.pair_configs.get(pair_key) {
        Some(pair_config) => Ok(pair_config.clone()),
        None => Err(StdError::PairConfigNotFound),
    }
}

/// Files a pair's ledger entry under its key, in place of what was filed
/// there.
pub fn store_swap_infos(storage: &mut Storage, pair_key: &[u8], swap_info: &SwapInfo) -> (r: Result<
    (),
    StdError,
>)
    ensures
        r.is_ok(),
        final(storage)@ == (StorageView {
            swap_infos: old(storage)@.swap_infos.insert(pair_key@, *swap_info),
            ..old(storage)@
        }),
{
    storage.swap_infos.insert(slice_to_vec(pair_key), *swap_info);
    Ok(())
}

/// Reads a pair's ledger entry; fails where none is filed under the key.
pub fn read_swap_info(storage: &Storage, pair_key: &[u8]) -> (r: Result<SwapInfo, StdError>)
    ensures
        match r {
            Ok(swap_info) => storage@.swap_infos.contains_key(pair_key@) && swap_info
                == storage@.swap_infos[pair_key@],
            Err(e) => !storage@.swap_infos.contains_key(pair_key@) && e == StdError::SwapNotFound,
        },
{
    match storage.swap_infos.get(pair_key) {
        Some(swap_info) => Ok(*swap_info),
        None => Err(StdError::SwapNotFound),
    }
}

/// Reads a pair's ledger entry; a pair without an entry reads as zero.
pub fn read_swap_info_default_zero(storage: &Storage, pair_key: &[u8]) -> (r: Result<
    SwapInfo,
    StdError,
>)
    ensures
        r == Ok::<SwapInfo, StdError>(storage@.swap_info(pair_key@)),
{
    match storage.swap_infos.get(pair_key) {
        Some(swap_info) => Ok(*swap_info),
        None => Ok(SwapInfo { total_amount_in: 0, total_amount_out: 0 }),
    }
}

/// Sets an account's whitelist entry, in place of the one that was there.
pub fn store_swap_whitelist(storage: &mut Storage, caller: String, is_whitelist: bool) -> (r:
    Result<(), StdError>)
    ensures
        r.is_ok(),
        final(storage)@ == (StorageView {
            swap_whitelist: old(storage)@.swap_whitelist.insert(
                encode_utf8(caller@),
                is_whitelist,
            ),
            ..old(storage)@
        }),
{
    storage.swap_whitelist.insert(caller.as_str().as_bytes_vec(), is_whitelist);
    Ok(())
}

/// Reads an account's whitelist entry; fails where the account has none.
pub fn read_swap_whitelist(storage: &Storage, caller: String) -> (r: Result<bool, StdError>)
    ensures
        match r {
            Ok(allowed) => storage@.swap_whitelist.contains_key(encode_utf8(caller@)) && allowed
                == storage@.swap_whitelist[encode_utf8(caller@)],
            Err(e) => !storage@.swap_whitelist.contains_key(encode_utf8(caller@)) && e
                == StdError::SwapNotFound,
        },
{
    match storage.swap_whitelist.get(caller.as_str().as_bytes()) {
        Some(allowed) => Ok(*allowed),
        None => Err(StdError::SwapNotFound),
    }
}

/// Whether an account may swap; an account without an entry may not.
pub fn is_address_in_whitelist(storage: &Storage, addr: String) -> (r: Result<bool, StdError>)
    ensures
        r == Ok::<bool, StdError>(storage@.is_whitelisted(addr@)),
{
    match storage.swap_whitelist.get(addr.as_str().as_bytes()) {
        Some(allowed) => Ok(*allowed),
        None => Ok(false),
    }
}

} // verus!
