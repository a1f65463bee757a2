//! What holds of the router's operations in every state.

use vstd::prelude::*;
use crate::error::{ContractError, StdError};
use crate::handler::{
    spec_change_owner, spec_denom_pair_key, spec_set_whitelist, spec_swap_denom,
    spec_update_pair_config, spec_update_pair_max_spread,
    spec_update_pair_status,
};
use crate::helper::{lemma_pair_key_symmetric, spec_pair_key, AssetInfoView};
use crate::math::Decimal;
use crate::mock_swap_pair::{spec_ask_denom, spec_simulation, spec_swap};
use crate::response::{CoinView, CosmosMsgView};
use crate::state::{StorageView, SwapInfo};

verus! {

/// After a successful `UpdatePairConfig` the pair is on file and enabled,
/// whatever was filed for it before.
pub proof fn lemma_update_pair_config_enables(
    s: StorageView,
    sender: Seq<char>,
    asset_0: AssetInfoView,
    asset_1: AssetInfoView,
    pair_address: Seq<char>,
    max_spread: Option<Decimal>,
    to: Option<Seq<char>>,
)
    requires
        spec_update_pair_config(s, sender, asset_0, asset_1, pair_address, max_spread, to).is_ok(),
    ensures
        ({
            let after = spec_update_pair_config(
                s,
                sender,
                asset_0,
                asset_1,
                pair_address,
                max_spread,
                to,
            ).unwrap().0;
            let key = spec_pair_key(asset_0, asset_1);
            &&& after.pair_configs.contains_key(key)
            &&& !after.pair_configs[key].is_disabled
            &&& after.pair_configs[key].pair_address == pair_address
            &&& after.pair_configs[key].max_spread == max_spread
            &&& after.pair_configs[key].to == to
        }),
{
}

/// `UpdatePairStatus` and `UpdatePairMaxSpread` fail for a pair that no
/// `UpdatePairConfig` has filed, whoever calls.
pub proof fn lemma_update_needs_pair_on_file(
    s: StorageView,
    sender: Seq<char>,
    asset_0: AssetInfoView,
    asset_1: AssetInfoView,
    is_disabled: bool,
    max_spread: Decimal,
)
    requires
        !s.pair_configs.contains_key(spec_pair_key(asset_0, asset_1)),
    ensures
        spec_update_pair_status(s, sender, asset_0, asset_1, is_disabled).is_err(),
        spec_update_pair_max_spread(s, sender, asset_0, asset_1, max_spread).is_err(),
        s.is_owner(sender) ==> spec_update_pair_status(s, sender, asset_0, asset_1, is_disabled)
            == Err::<(StorageView, crate::response::ResponseView), ContractError>(
            ContractError::Std(StdError::PairConfigNotFound),
        ),
        s.is_owner(sender) ==> spec_update_pair_max_spread(
            s,
            sender,
            asset_0,
            asset_1,
            max_spread,
        ) == Err::<(StorageView, crate::response::ResponseView), ContractError>(
            ContractError::Std(StdError::PairConfigNotFound),
        ),
{
}

/// Once an owner is stored, every administrative operation refuses a caller
/// who is not the owner as unauthorized.
pub proof fn lemma_non_owner_is_refused(
    s: StorageView,
    sender: Seq<char>,
    asset_0: AssetInfoView,
    asset_1: AssetInfoView,
    pair_address: Seq<char>,
    max_spread: Option<Decimal>,
    to: Option<Seq<char>>,
    new_owner: Seq<char>,
    is_disabled: bool,
    spread: Decimal,
    account: Seq<char>,
    allowed: bool,
)
    requires
        s.owner.is_some(),
        !s.is_owner(sender),
    ensures
        spec_update_pair_config(s, sender, asset_0, asset_1, pair_address, max_spread, to) == Err::<
            (StorageView, crate::response::ResponseView),
            ContractError,
        >(ContractError::Unauthorized),
        spec_change_owner(s, sender, new_owner) == Err::<
            (StorageView, crate::response::ResponseView),
            ContractError,
        >(ContractError::Unauthorized),
        spec_update_pair_status(s, sender, asset_0, asset_1, is_disabled) == Err::<
            (StorageView, crate::response::ResponseView),
            ContractError,
        >(ContractError::Unauthorized),
        spec_update_pair_max_spread(s, sender, asset_0, asset_1, spread) == Err::<
            (StorageView, crate::response::ResponseView),
            ContractError,
        >(ContractError::Unauthorized),
        spec_set_whitelist(s, sender, account, allowed) == Err::<
            (StorageView, crate::response::ResponseView),
            ContractError,
        >(ContractError::Unauthorized),
{
}

/// The owner's administrative operations succeed; those that change a pair
/// that is on file succeed for such a pair.
pub proof fn lemma_owner_succeeds(
    s: StorageView,
    sender: Seq<char>,
    asset_0: AssetInfoView,
    asset_1: AssetInfoView,
    pair_address: Seq<char>,
    max_spread: Option<Decimal>,
    to: Option<Seq<char>>,
    new_owner: Seq<char>,
    is_disabled: bool,
    spread: Decimal,
    account: Seq<char>,
    allowed: bool,
)
    requires
        s.is_owner(sender),
    ensures
        spec_update_pair_config(s, sender, asset_0, asset_1, pair_address, max_spread, to).is_ok(),
        spec_change_owner(s, sender, new_owner).is_ok(),
        spec_set_whitelist(s, sender, account, allowed).is_ok(),
        s.pair_configs.contains_key(spec_pair_key(asset_0, asset_1)) ==> spec_update_pair_status(
            s,
            sender,
            asset_0,
            asset_1,
            is_disabled,
        ).is_ok() && spec_update_pair_max_spread(s, sender, asset_0, asset_1, spread).is_ok(),
{
}

/// A swap request is refused as unauthorized for a caller who is not
/// whitelisted; for a whitelisted caller, as naming an invalid denomination
/// where source and target are the same, and else as naming an invalid
/// amount where the amount is zero; and it fails where the pair is not on
/// file or disabled.
pub proof fn lemma_swap_refusals(
    s: StorageView,
    sender: Seq<char>,
    funds: Seq<CoinView>,
    from_coin: CoinView,
    target_denom: Seq<char>,
    return_amount: u128,
)
    ensures
        !s.is_whitelisted(sender) ==> spec_swap_denom(
            s,
            sender,
            funds,
            from_coin,
            target_denom,
            return_amount,
        ) == Err::<(StorageView, crate::response::ResponseView), ContractError>(
            ContractError::Unauthorized,
        ),
        s.is_whitelisted(sender) && from_coin.denom == target_denom ==> spec_swap_denom(
            s,
            sender,
            funds,
            from_coin,
            target_denom,
            return_amount,
        ) == Err::<(StorageView, crate::response::ResponseView), ContractError>(
            ContractError::InvalidDenom,
        ),
        s.is_whitelisted(sender) && from_coin.denom != target_denom && from_coin.amount == 0
            ==> spec_swap_denom(s, sender, funds, from_coin, target_denom, return_amount) == Err::<
            (StorageView, crate::response::ResponseView),
            ContractError,
        >(ContractError::InvalidAmount),
        !s.pair_configs.contains_key(spec_denom_pair_key(from_coin.denom, target_denom))
            || s.pair_configs[spec_denom_pair_key(from_coin.denom, target_denom)].is_disabled
            ==> spec_swap_denom(
            s,
            sender,
            funds,
            from_coin,
            target_denom,
            return_amount,
        ).is_err(),
{
}

/// An account that is whitelisted and then revoked may not swap: nothing of
/// the earlier permission stays.
pub proof fn lemma_whitelist_then_revoke_denies(
    s: StorageView,
    sender: Seq<char>,
    account: Seq<char>,
)
    requires
        s.is_owner(sender),
    ensures
        ({
            let allowed = spec_set_whitelist(s, sender, account, true).unwrap().0;
            let revoked = spec_set_whitelist(allowed, sender, account, false).unwrap().0;
            &&& spec_set_whitelist(s, sender, account, true).is_ok()
            &&& allowed.is_whitelisted(account)
            &&& spec_set_whitelist(allowed, sender, account, false).is_ok()
            &&& !revoked.is_whitelisted(account)
        }),
{
}

/// Setting one account's whitelist entry leaves every other account's
/// permission as it was.
pub proof fn lemma_whitelist_touches_one_account(
    s: StorageView,
    sender: Seq<char>,
    account: Seq<char>,
    allowed: bool,
    other: Seq<char>,
)
    requires
        s.is_owner(sender),
        other != account,
    ensures
        spec_set_whitelist(s, sender, account, allowed).unwrap().0.is_whitelisted(other)
            == s.is_whitelisted(other),
{
    vstd::utf8::encode_utf8_decode_utf8(account);
    vstd::utf8::encode_utf8_decode_utf8(other);
}

/// A swap from one denomination into another and the swap back are filed
/// under the same pair key.
pub proof fn lemma_both_directions_share_a_pair(from_denom: Seq<char>, target_denom: Seq<char>)
    ensures
        spec_denom_pair_key(from_denom, target_denom) == spec_denom_pair_key(
            target_denom,
            from_denom,
        ),
{
    lemma_pair_key_symmetric(
        AssetInfoView::NativeToken { denom: from_denom },
        AssetInfoView::NativeToken { denom: target_denom },
    );
}

/// A pair that no swap has been recorded for reads as zero on both
/// counters.
pub proof fn lemma_unseen_pair_reads_zero(s: StorageView, pair_key: Seq<u8>)
    requires
        !s.swap_infos.contains_key(pair_key),
    ensures
        s.swap_info(pair_key) == (SwapInfo { total_amount_in: 0, total_amount_out: 0 }),
{
}

/// One swap request together with what the pool quoted for it.
pub struct SwapCall {
    pub sender: Seq<char>,
    pub funds: Seq<CoinView>,
    pub from_coin: CoinView,
    pub target_denom: Seq<char>,
    pub return_amount: u128,
}

impl SwapCall {
    /// The key of the pair that the request is for.
    pub open spec fn pair_key(self) -> Seq<u8> {
        spec_denom_pair_key(self.from_coin.denom, self.target_denom)
    }
}

/// The state after the requests have been served one after the other, if
/// all of them succeed.
pub open spec fn after_swaps(s: StorageView, calls: Seq<SwapCall>) -> Option<StorageView>
    decreases calls.len(),
{
    if calls.len() == 0 {
        Some(s)
    } else {
        match after_swaps(s, calls.drop_last()) {
            None => None,
            Some(before) => match spec_swap_denom(
                before,
                calls.last().sender,
                calls.last().funds,
                calls.last().from_coin,
                calls.last().target_denom,
                calls.last().return_amount,
            ) {
                Ok(step) => Some(step.0),
                Err(_) => None,
            },
        }
    }
}

/// The sum of the amounts offered by the requests for the pair of `key`.
pub open spec fn offered_sum(calls: Seq<SwapCall>, key: Seq<u8>) -> nat
    decreases calls.len(),
{
    if calls.len() == 0 {
        0
    } else {
        offered_sum(calls.drop_last(), key) + if calls.last().pair_key() == key {
            calls.last().from_coin.amount as nat
        } else {
            0
        }
    }
}

/// The sum of the amounts quoted for the requests for the pair of `key`.
pub open spec fn quoted_sum(calls: Seq<SwapCall>, key: Seq<u8>) -> nat
    decreases calls.len(),
{
    if calls.len() == 0 {
        0
    } else {
        quoted_sum(calls.drop_last(), key) + if calls.last().pair_key() == key {
            calls.last().return_amount as nat
        } else {
            0
        }
    }
}

/// A successful swap adds the offered amount and the quoted amount to the
/// counters of its pair, and leaves the counters of every other pair, the
/// owner, the registry and the whitelist as they were.
pub proof fn lemma_swap_records(s: StorageView, call: SwapCall, key: Seq<u8>)
    requires
        spec_swap_denom(
            s,
            call.sender,
            call.funds,
            call.from_coin,
            call.target_denom,
            call.return_amount,
        ).is_ok(),
    ensures
        ({
            let after = spec_swap_denom(
                s,
                call.sender,
                call.funds,
                call.from_coin,
                call.target_denom,
                call.return_amount,
            ).unwrap().0;
            &&& after.owner == s.owner
            &&& after.pair_configs == s.pair_configs
            &&& after.swap_whitelist == s.swap_whitelist
            &&& key == call.pair_key() ==> after.swap_info(key).total_amount_in == s.swap_info(
                key,
            ).total_amount_in + call.from_coin.amount && after.swap_info(key).total_amount_out
                == s.swap_info(key).total_amount_out + call.return_amount
            &&& key != call.pair_key() ==> after.swap_info(key) == s.swap_info(key)
            &&& after.swap_info(key).total_amount_in >= s.swap_info(key).total_amount_in
            &&& after.swap_info(key).total_amount_out >= s.swap_info(key).total_amount_out
        }),
{
}

/// After any number of successful swaps, a pair's counters have grown by
/// the sum of the amounts offered for it and by the sum of the amounts
/// quoted for it: starting from an unseen pair they equal those sums, and
/// they never decrease.
pub proof fn lemma_ledger_totals(s: StorageView, calls: Seq<SwapCall>, key: Seq<u8>)
    requires
        after_swaps(s, calls).is_some(),
    ensures
        after_swaps(s, calls).unwrap().swap_info(key).total_amount_in == s.swap_info(
            key,
        ).total_amount_in + offered_sum(calls, key),
        after_swaps(s, calls).unwrap().swap_info(key).total_amount_out == s.swap_info(
            key,
        ).total_amount_out + quoted_sum(calls, key),
        after_swaps(s, calls).unwrap().swap_info(key).total_amount_in >= s.swap_info(
            key,
        ).total_amount_in,
        after_swaps(s, calls).unwrap().swap_info(key).total_amount_out >= s.swap_info(
            key,
        ).total_amount_out,
        !s.swap_infos.contains_key(key) ==> after_swaps(s, calls).unwrap().swap_info(
            key,
        ).total_amount_in == offered_sum(calls, key) && after_swaps(s, calls).unwrap().swap_info(
            key,
        ).total_amount_out == quoted_sum(calls, key),
    decreases calls.len(),
{
    if calls.len() > 0 {
        lemma_ledger_totals(s, calls.drop_last(), key);
        lemma_swap_records(after_swaps(s, calls.drop_last()).unwrap(), calls.last(), key);
    }
}

/// What the router records for a swap is what the pool then pays out.
/// Where the quote came from the pool's simulation, and the pool, at the
/// same price and with both reserves filled, carries out the instruction
/// that the router queued, the pool transfers exactly the quoted amount, to
/// the recipient that the router named, and the pair's counter of amounts
/// out has grown by that amount.
pub proof fn lemma_recorded_amount_is_transferred(
    s: StorageView,
    call: SwapCall,
    pool: crate::mock_swap_pair::ConfigView,
    router: Seq<char>,
    reserve_0: u128,
    reserve_1: u128,
)
    requires
        spec_swap_denom(
            s,
            call.sender,
            call.funds,
            call.from_coin,
            call.target_denom,
            call.return_amount,
        ).is_ok(),
        spec_simulation(
            pool,
            AssetInfoView::NativeToken { denom: call.from_coin.denom },
            call.from_coin.amount,
        ).is_ok(),
        spec_simulation(
            pool,
            AssetInfoView::NativeToken { denom: call.from_coin.denom },
            call.from_coin.amount,
        ).unwrap().return_amount == call.return_amount,
        reserve_0 != 0,
        reserve_1 != 0,
    ensures
        ({
            let step = spec_swap_denom(
                s,
                call.sender,
                call.funds,
                call.from_coin,
                call.target_denom,
                call.return_amount,
            ).unwrap();
            let instruction = step.1.messages[0];
            let order = instruction->msg;
            let executed = spec_swap(
                pool,
                router,
                order->offer_info,
                order->offer_amount,
                order->to,
                reserve_0,
                reserve_1,
            );
            &&& step.1.messages.len() == 1
            &&& instruction is Execute
            &&& order->to.is_some()
            &&& executed.is_ok()
            &&& executed.unwrap().messages == seq![
                CosmosMsgView::Send {
                    to_address: order->to.unwrap(),
                    amount: seq![
                        CoinView {
                            denom: spec_ask_denom(pool, order->offer_info),
                            amount: call.return_amount,
                        },
                    ],
                },
            ]
            &&& step.0.swap_info(call.pair_key()).total_amount_out == s.swap_info(
                call.pair_key(),
            ).total_amount_out + call.return_amount
            &&& step.0.swap_info(call.pair_key()).total_amount_in == s.swap_info(
                call.pair_key(),
            ).total_amount_in + call.from_coin.amount
        }),
{
}

} // verus!
