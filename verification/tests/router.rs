use std::str::FromStr;

use swap_sparrow::contract::{execute, instantiate, migrate, query, QueryResponse};
use swap_sparrow::error::{ContractError, StdError};
use swap_sparrow::handler::{
    change_owner, set_whitelist, swap_denom, swap_denom_query, update_pair_config,
    update_pair_max_spread, update_pair_status,
};
use swap_sparrow::helper::{pair_key, Asset, AssetInfo};
use swap_sparrow::math::Decimal;
use swap_sparrow::msg::{
    ExecuteMsg, InstantiateMsg, MigrateMsg, QueryMsg, SimulationResponse, SwapQueryMsg,
};
use swap_sparrow::querier::{
    balance_or_zero, query_token_balance, query_token_balance_request,
    query_config, query_cumulative_prices, query_is_swap_whitelist, query_pair_config,
    query_reverse_simulation, query_simulation, query_swap_info,
};
use swap_sparrow::response::{Attribute, Coin, CosmosMsg, MessageInfo, Response, SwapMsg};
use swap_sparrow::state::{
    is_address_in_whitelist, read_config, read_pair_config, read_swap_info,
    read_swap_info_default_zero, read_swap_whitelist, store_config, store_pair_configs,
    store_swap_infos, store_swap_whitelist, Config, PairConfig, Storage, SwapInfo,
};

const CREATOR: &str = "creator";

fn mock_info(sender: &str, funds: &[Coin]) -> MessageInfo {
    MessageInfo { sender: sender.to_string(), funds: funds.to_vec() }
}

fn mock_instantiate_msg() -> InstantiateMsg {
    InstantiateMsg { owner: Some(CREATOR.to_string()) }
}

fn mock_instantiate(msg: InstantiateMsg) -> (Storage, MessageInfo, Result<Response, StdError>) {
    let mut storage = Storage::new();
    let info = mock_info(CREATOR, &[]);
    let res = instantiate(&mut storage, &info, msg);
    (storage, info, res)
}

fn sei_kusd() -> [AssetInfo; 2] {
    [
        AssetInfo::NativeToken { denom: "sei".to_string() },
        AssetInfo::NativeToken { denom: "factory/xxx/kusd".to_string() },
    ]
}

fn quote(return_amount: u128) -> SimulationResponse {
    SimulationResponse { return_amount, spread_amount: 0, commission_amount: 0 }
}

fn attr(key: &str, value: &str) -> Attribute {
    Attribute { key: key.to_string(), value: value.to_string() }
}

/// A router owned by "creator", with the pair sei/kusd at "pool" and the
/// account "trader" whitelisted.
fn router_with_pair() -> (Storage, MessageInfo) {
    let (mut storage, owner, _) = mock_instantiate(mock_instantiate_msg());
    update_pair_config(&mut storage, &owner, sei_kusd(), "pool".to_string(), None, None).unwrap();
    set_whitelist(&mut storage, &owner, "trader".to_string(), true).unwrap();
    (storage, owner)
}

#[test]
fn proper_initialization() {}

#[test]
fn contract_proper_initialization() {
    let (storage, _, res) = mock_instantiate(mock_instantiate_msg());
    assert_eq!(res, Ok(Response::new()));
    assert_eq!(read_config(&storage), Ok(Config { owner: CREATOR.to_string() }));
}

#[test]
fn test_query_config() {
    let mut storage = Storage::new();
    let owner = "owner".to_string();
    let config = Config { owner: owner.clone() };
    store_config(&mut storage, &config).unwrap();
    let res = query_config(&storage).unwrap();
    assert_eq!(res.owner, owner);
}

#[test]
fn querier_test_query_config() {
    let mut storage = Storage::new();
    let owner = "owner".to_string();
    let config = Config { owner: owner.clone() };
    store_config(&mut storage, &config).unwrap();
    let res = query_config(&storage).unwrap();
    assert_eq!(res.owner, owner);
    assert_eq!(query(&storage, QueryMsg::QueryConfig {}), Ok(QueryResponse::Config(res)));
}

#[test]
fn test_query_is_swap_whitelist() {
    let mut storage = Storage::new();
    let caller = "caller".to_string();
    store_swap_whitelist(&mut storage, caller.clone(), true).unwrap();
    let res = query_is_swap_whitelist(&storage, caller.clone()).unwrap();
    assert_eq!(res, true);
    let res = query_is_swap_whitelist(&storage, "other".to_string()).unwrap();
    assert_eq!(res, false);
}

#[test]
fn querier_test_query_is_swap_whitelist() {
    let mut storage = Storage::new();
    let caller = "caller".to_string();
    store_swap_whitelist(&mut storage, caller.clone(), true).unwrap();
    let res = query_is_swap_whitelist(&storage, caller.clone()).unwrap();
    assert_eq!(res, true);
    let res = query_is_swap_whitelist(&storage, "other".to_string()).unwrap();
    assert_eq!(res, false);
    assert_eq!(
        query(&storage, QueryMsg::QueryIsSwapWhitelist { caller }),
        Ok(QueryResponse::IsSwapWhitelist(true))
    );
}

#[test]
fn test_query_pair_config() {
    let mut storage = Storage::new();
    let asset_infos = [
        AssetInfo::NativeToken { denom: "TOKEN1".to_string() },
        AssetInfo::NativeToken { denom: "TOKEN2".to_string() },
    ];
    let pair_key = pair_key(&asset_infos);
    let pair_config = PairConfig {
        pair_address: "pair".to_string(),
        is_disabled: true,
        max_spread: Option::from(Decimal::new(1000_00u128)),
        to: None,
    };
    store_pair_configs(&mut storage, &pair_key, &pair_config).unwrap();
}

#[test]
fn querier_test_query_pair_config() {
    let mut storage = Storage::new();
    let asset_infos = [
        AssetInfo::NativeToken { denom: "TOKEN1".to_string() },
        AssetInfo::NativeToken { denom: "TOKEN2".to_string() },
    ];
    let pair_key = pair_key(&asset_infos);
    let pair_config = PairConfig {
        pair_address: "pair".to_string(),
        is_disabled: true,
        max_spread: Option::from(Decimal::new(1000_00u128)),
        to: None,
    };
    let stored = store_pair_configs(&mut storage, &pair_key, &pair_config).unwrap();
    assert_eq!(stored, pair_config);
    assert_eq!(read_pair_config(&storage, &pair_key), Ok(pair_config.clone()));
    let res = query_pair_config(&storage, asset_infos).unwrap();
    assert_eq!(res.pair_address, "pair");
    assert_eq!(res.is_disabled, true);
    assert_eq!(res.max_spread, Some(Decimal::new(100000)));
    assert_eq!(res.to, None);
}

#[test]
fn test_instantiate() {
    let msg = mock_instantiate_msg();
    let (_, _, res) = mock_instantiate(msg);
    assert!(res.is_ok());
}

#[test]
fn test_update_config() {
    let msg = mock_instantiate_msg();
    let (mut deps, info, res) = mock_instantiate(msg);
    assert!(res.is_ok());
    // change owner
    let new_owner = "new_owner".to_string();
    let res = change_owner(&mut deps, &info, new_owner.clone());
    assert!(res.is_ok());

    let new_info = mock_info("new_owner", &[]);
    // update pair config failed
    let asset_infos = sei_kusd();
    let pair_address = "pair_address".to_string();
    let res = update_pair_config(
        &mut deps,
        &info,
        asset_infos.clone(),
        pair_address.clone(),
        None,
        None,
    );
    assert!(res.is_err());
    assert_eq!(res.err().unwrap(), ContractError::Unauthorized {});

    // success
    let res = update_pair_config(
        &mut deps,
        &new_info,
        asset_infos.clone(),
        pair_address.clone(),
        None,
        None,
    );
    assert!(res.is_ok());

    //update pair status failed
    let res = update_pair_status(&mut deps, &info, asset_infos.clone(), false);
    assert!(res.is_err());
    assert_eq!(res.err().unwrap(), ContractError::Unauthorized {});

    // success
    let res = update_pair_status(&mut deps, &new_info, asset_infos.clone(), true);
    assert!(res.is_ok());

    // update pair max spread failed
    let res = update_pair_max_spread(&mut deps, &info, asset_infos.clone(), Decimal::new(1000u128));
    assert!(res.is_err());
    assert_eq!(res.err().unwrap(), ContractError::Unauthorized {});

    // success
    let res =
        update_pair_max_spread(&mut deps, &new_info, asset_infos.clone(), Decimal::new(1000u128));
    assert!(res.is_ok());

    // set whitelist failed
    let res = set_whitelist(&mut deps, &info, "whitelist".to_string(), true);
    assert!(res.is_err());
    assert_eq!(res.err().unwrap(), ContractError::Unauthorized {});

    // success
    let res = set_whitelist(&mut deps, &new_info, "whitelist".to_string(), true);
    assert!(res.is_ok());

    //update owner failed
    let res = change_owner(&mut deps, &info, new_owner.clone());
    assert!(res.is_err());
    assert_eq!(res.err().unwrap(), ContractError::Unauthorized {});

    // success
    let res = change_owner(&mut deps, &new_info, "new_owner_2".to_string());
    assert!(res.is_ok());

    // query config
    let query_res = query_config(&deps).unwrap();
    assert_eq!(query_res.owner, "new_owner_2".to_string());

    //query swap info
    let query_res = query_swap_info(&deps, asset_infos.clone()).unwrap();
    assert_eq!(query_res.total_amount_in, 0);
    assert_eq!(query_res.total_amount_out, 0);

    // query is swap white list
    let query_res = query_is_swap_whitelist(&deps, "whitelist".to_string()).unwrap();
    assert_eq!(query_res, true);

    // query pair config
    let query_res = query_pair_config(&deps, asset_infos.clone()).unwrap();
    assert_eq!(query_res.pair_address, pair_address);
    assert_eq!(query_res.is_disabled, true);
    let expected = cosmwasm_std::Decimal::from_str("0.000000000000001").unwrap();
    assert_eq!(query_res.max_spread, Some(Decimal::new(expected.atomics().u128())));
    assert_eq!(query_res.to, None);
}

#[test]
fn instantiate_without_owner_takes_the_caller() {
    let mut storage = Storage::new();
    let info = mock_info("deployer", &[]);
    instantiate(&mut storage, &info, InstantiateMsg { owner: None }).unwrap();
    assert_eq!(query_config(&storage).unwrap().owner, "deployer");
}

#[test]
fn admin_call_before_instantiate_finds_no_config() {
    let mut storage = Storage::new();
    let info = mock_info(CREATOR, &[]);
    assert_eq!(
        change_owner(&mut storage, &info, "x".to_string()),
        Err(ContractError::Std(StdError::ConfigNotFound))
    );
    assert_eq!(read_config(&storage), Err(StdError::ConfigNotFound));
    assert_eq!(query_config(&storage), Err(StdError::ConfigNotFound));
}

#[test]
fn update_pair_config_resets_disabled_and_replaces_all_fields() {
    let (mut storage, owner, _) = mock_instantiate(mock_instantiate_msg());
    let res = update_pair_config(
        &mut storage,
        &owner,
        sei_kusd(),
        "pool".to_string(),
        Some(Decimal::new(5_000_000_000_000_000)),
        Some("vault".to_string()),
    )
    .unwrap();
    assert_eq!(
        res.attributes,
        vec![
            attr("action", "update_pair_config"),
            attr("pair_address", "pool"),
            attr("max_spread", "0.005"),
        ]
    );
    assert!(res.messages.is_empty());
    update_pair_status(&mut storage, &owner, sei_kusd(), true).unwrap();
    assert!(query_pair_config(&storage, sei_kusd()).unwrap().is_disabled);

    let res =
        update_pair_config(&mut storage, &owner, sei_kusd(), "pool2".to_string(), None, None)
            .unwrap();
    assert_eq!(res.attributes[2], attr("max_spread", "0"));
    let stored = query_pair_config(&storage, sei_kusd()).unwrap();
    assert_eq!(stored.pair_address, "pool2");
    assert_eq!(stored.is_disabled, false);
    assert_eq!(stored.max_spread, None);
    assert_eq!(stored.to, None);
}

#[test]
fn update_status_and_spread_need_a_pair_on_file() {
    let (mut storage, owner, _) = mock_instantiate(mock_instantiate_msg());
    assert_eq!(
        update_pair_status(&mut storage, &owner, sei_kusd(), true),
        Err(ContractError::Std(StdError::PairConfigNotFound))
    );
    assert_eq!(
        update_pair_max_spread(&mut storage, &owner, sei_kusd(), Decimal::new(1)),
        Err(ContractError::Std(StdError::PairConfigNotFound))
    );
    assert_eq!(
        query_pair_config(&storage, sei_kusd()).err(),
        Some(StdError::PairConfigNotFound)
    );
}

#[test]
fn update_status_and_spread_attributes() {
    let (mut storage, owner) = router_with_pair();
    let res = update_pair_status(&mut storage, &owner, sei_kusd(), true).unwrap();
    assert_eq!(
        res.attributes,
        vec![
            attr("action", "update_pair_status"),
            attr("pair_address", "pool"),
            attr("is_disabled", "true"),
        ]
    );
    let res = update_pair_status(&mut storage, &owner, sei_kusd(), false).unwrap();
    assert_eq!(res.attributes[2], attr("is_disabled", "false"));
    let res =
        update_pair_max_spread(&mut storage, &owner, sei_kusd(), Decimal::new(1000)).unwrap();
    assert_eq!(
        res.attributes,
        vec![
            attr("action", "update_pair_max_spread"),
            attr("pair_address", "pool"),
            attr("max_spread", "0.000000000000001"),
        ]
    );
    let spread = Decimal::new(1_500_000_000_000_000_000);
    assert_eq!(spread.to_string(), "1.5");
    assert_eq!(spread.atomics(), 1_500_000_000_000_000_000);
    assert_eq!(Decimal::zero().to_string(), "0");
}

#[test]
fn change_owner_attributes() {
    let (mut storage, owner, _) = mock_instantiate(mock_instantiate_msg());
    let res = change_owner(&mut storage, &owner, "next".to_string()).unwrap();
    assert_eq!(res.attributes, vec![attr("action", "change_owner"), attr("new_owner", "next")]);
    assert!(res.messages.is_empty());
}

#[test]
fn pair_key_does_not_depend_on_the_order() {
    let [a, b] = sei_kusd();
    let forward = pair_key(&[a.clone(), b.clone()]);
    let backward = pair_key(&[b.clone(), a.clone()]);
    assert_eq!(forward, backward);
    let mut expected = vec![17u8, 0, 0, 0, 0, 0, 0, 0];
    expected.push(0u8);
    expected.extend_from_slice(b"factory/xxx/kusd");
    expected.push(0u8);
    expected.extend_from_slice(b"sei");
    assert_eq!(forward, expected);
}

#[test]
fn pair_key_tells_pairs_apart_whose_names_run_together() {
    let one = pair_key(&[AssetInfo::native("a"), AssetInfo::native("\u{0}b")]);
    let other = pair_key(&[AssetInfo::native("a\u{0}"), AssetInfo::native("b")]);
    assert_ne!(one, other);
    let same = pair_key(&[AssetInfo::native("\u{0}b"), AssetInfo::native("a")]);
    assert_eq!(one, same);
}

#[test]
fn pair_key_tells_the_variants_apart() {
    let native = AssetInfo::native("abc");
    let token = AssetInfo::token("abc");
    let other = AssetInfo::native("zzz");
    assert_ne!(pair_key(&[native.clone(), other.clone()]), pair_key(&[token.clone(), other]));
    assert!(!native.equal(&token));
    assert!(native.equal(&AssetInfo::NativeToken { denom: "abc".to_string() }));
    assert!(native.is_native_token());
    assert!(!token.is_native_token());
    assert_eq!(token.as_bytes(), vec![1u8, b'a', b'b', b'c']);
    assert_eq!(token.to_string(), "abc");
}

#[test]
fn whitelist_then_revoke_denies() {
    let (mut storage, owner, _) = mock_instantiate(mock_instantiate_msg());
    assert_eq!(is_address_in_whitelist(&storage, "acct".to_string()), Ok(false));
    assert_eq!(read_swap_whitelist(&storage, "acct".to_string()), Err(StdError::SwapNotFound));
    let res = set_whitelist(&mut storage, &owner, "acct".to_string(), true).unwrap();
    assert_eq!(res, Response::new());
    assert_eq!(is_address_in_whitelist(&storage, "acct".to_string()), Ok(true));
    set_whitelist(&mut storage, &owner, "acct".to_string(), false).unwrap();
    assert_eq!(is_address_in_whitelist(&storage, "acct".to_string()), Ok(false));
    assert_eq!(query_is_swap_whitelist(&storage, "acct".to_string()), Ok(false));
    assert_eq!(read_swap_whitelist(&storage, "acct".to_string()), Ok(false));
}

#[test]
fn swap_denom_refusals_in_order() {
    let (mut storage, owner) = router_with_pair();
    let coin = Coin::new(100, "sei");
    let paid = mock_info("trader", &[coin.clone()]);

    let stranger = mock_info("stranger", &[coin.clone()]);
    assert_eq!(
        swap_denom(&mut storage, &stranger, coin.clone(), "sei".to_string(), &quote(1)),
        Err(ContractError::Unauthorized)
    );
    assert_eq!(
        swap_denom(&mut storage, &paid, coin.clone(), "sei".to_string(), &quote(1)),
        Err(ContractError::InvalidDenom)
    );
    let nothing = mock_info("trader", &[Coin::new(0, "sei")]);
    assert_eq!(
        swap_denom(
            &mut storage,
            &nothing,
            Coin::new(0, "sei"),
            "factory/xxx/kusd".to_string(),
            &quote(1)
        ),
        Err(ContractError::InvalidAmount)
    );
    let more = mock_info("trader", &[Coin::new(101, "sei"), Coin::new(100, "uatom")]);
    assert_eq!(
        swap_denom(&mut storage, &more, coin.clone(), "factory/xxx/kusd".to_string(), &quote(1)),
        Err(ContractError::Std(StdError::NoAssetsProvided))
    );
    assert_eq!(
        swap_denom(&mut storage, &paid, coin.clone(), "uatom".to_string(), &quote(1)),
        Err(ContractError::Std(StdError::PairConfigNotFound))
    );
    update_pair_status(&mut storage, &owner, sei_kusd(), true).unwrap();
    assert_eq!(
        swap_denom(&mut storage, &paid, coin.clone(), "factory/xxx/kusd".to_string(), &quote(1)),
        Err(ContractError::PairNotFound)
    );
    assert_eq!(
        swap_denom_query(&storage, &paid, &coin, &"factory/xxx/kusd".to_string()),
        Err(ContractError::PairNotFound)
    );
    assert_eq!(
        query_swap_info(&storage, sei_kusd()).unwrap().total_amount_in,
        0
    );
}

#[test]
fn swap_denom_records_and_instructs_the_pool() {
    let (mut storage, _) = router_with_pair();
    let coin = Coin::new(100, "sei");
    let paid = mock_info("trader", &[Coin::new(7, "uatom"), coin.clone()]);
    let target = "factory/xxx/kusd".to_string();

    let question = swap_denom_query(&storage, &paid, &coin, &target).unwrap();
    assert_eq!(question.contract_addr, "pool");
    assert_eq!(
        question.msg,
        SwapQueryMsg::Simulation {
            offer_asset: Asset { info: AssetInfo::native("sei"), amount: 100 }
        }
    );

    let res = swap_denom(&mut storage, &paid, coin.clone(), target.clone(), &quote(250)).unwrap();
    assert_eq!(
        res.attributes,
        vec![
            attr("action", "swap"),
            attr("from_coin", "100sei"),
            attr("target_denom", "factory/xxx/kusd"),
        ]
    );
    assert_eq!(
        res.messages,
        vec![CosmosMsg::Execute {
            contract_addr: "pool".to_string(),
            msg: SwapMsg::Swap {
                offer_asset: Asset { info: AssetInfo::native("sei"), amount: 100 },
                belief_price: None,
                max_spread: None,
                to: Some("trader".to_string()),
            },
            funds: vec![Coin::new(100, "sei")],
        }]
    );
    let info = query_swap_info(&storage, sei_kusd()).unwrap();
    assert_eq!((info.total_amount_in, info.total_amount_out), (100, 250));
}

#[test]
fn swap_denom_uses_the_configured_recipient_and_spread() {
    let (mut storage, owner, _) = mock_instantiate(mock_instantiate_msg());
    update_pair_config(
        &mut storage,
        &owner,
        sei_kusd(),
        "pool".to_string(),
        Some(Decimal::new(1000)),
        Some("vault".to_string()),
    )
    .unwrap();
    set_whitelist(&mut storage, &owner, "trader".to_string(), true).unwrap();
    let coin = Coin::new(5, "factory/xxx/kusd");
    let paid = mock_info("trader", &[coin.clone()]);
    let res = swap_denom(&mut storage, &paid, coin, "sei".to_string(), &quote(9)).unwrap();
    match &res.messages[0] {
        CosmosMsg::Execute { msg: SwapMsg::Swap { max_spread, to, .. }, .. } => {
            assert_eq!(*max_spread, Some(Decimal::new(1000)));
            assert_eq!(*to, Some("vault".to_string()));
        }
        other => panic!("unexpected instruction {:?}", other),
    }
    assert_eq!(res.attributes[1], attr("from_coin", "5factory/xxx/kusd"));
}

#[test]
fn ledger_totals_are_the_sums_over_the_swaps() {
    let (mut storage, _) = router_with_pair();
    let target = "factory/xxx/kusd".to_string();
    assert_eq!(
        read_swap_info_default_zero(&storage, &pair_key(&sei_kusd())),
        Ok(SwapInfo { total_amount_in: 0, total_amount_out: 0 })
    );
    assert_eq!(read_swap_info(&storage, &pair_key(&sei_kusd())), Err(StdError::SwapNotFound));
    let offers = [(100u128, 250u128), (1, 0), (40, 39)];
    let mut total_in = 0;
    let mut total_out = 0;
    for (offer, returned) in offers {
        let coin = Coin::new(offer, "sei");
        let paid = mock_info("trader", &[coin.clone()]);
        swap_denom(&mut storage, &paid, coin, target.clone(), &quote(returned)).unwrap();
        let info = query_swap_info(&storage, sei_kusd()).unwrap();
        assert!(info.total_amount_in >= total_in && info.total_amount_out >= total_out);
        total_in += offer;
        total_out += returned;
        assert_eq!((info.total_amount_in, info.total_amount_out), (total_in, total_out));
    }
    assert_eq!(
        read_swap_info(&storage, &pair_key(&sei_kusd())),
        Ok(SwapInfo { total_amount_in: 141, total_amount_out: 289 })
    );
    // the opposite direction is the same pair
    let coin = Coin::new(9, "factory/xxx/kusd");
    let paid = mock_info("trader", &[coin.clone()]);
    swap_denom(&mut storage, &paid, coin, "sei".to_string(), &quote(1)).unwrap();
    let info = query_swap_info(&storage, sei_kusd()).unwrap();
    assert_eq!((info.total_amount_in, info.total_amount_out), (150, 290));
}

#[test]
fn swap_denom_reports_an_overflow_and_changes_nothing() {
    let (mut storage, _) = router_with_pair();
    let key = pair_key(&sei_kusd());
    let full = SwapInfo { total_amount_in: 10, total_amount_out: u128::MAX - 1 };
    store_swap_infos(&mut storage, &key, &full).unwrap();
    let coin = Coin::new(1, "sei");
    let paid = mock_info("trader", &[coin.clone()]);
    let target = "factory/xxx/kusd".to_string();
    assert_eq!(
        swap_denom(&mut storage, &paid, coin.clone(), target.clone(), &quote(2)),
        Err(ContractError::OverflowError)
    );
    assert_eq!(read_swap_info(&storage, &key), Ok(full));
    swap_denom(&mut storage, &paid, coin, target, &quote(1)).unwrap();
    assert_eq!(
        read_swap_info(&storage, &key),
        Ok(SwapInfo { total_amount_in: 11, total_amount_out: u128::MAX })
    );
}

#[test]
fn execute_checks_the_pair_arity() {
    let (mut storage, owner, _) = mock_instantiate(mock_instantiate_msg());
    let [a, b] = sei_kusd();
    let one = ExecuteMsg::UpdatePairConfig {
        asset_infos: vec![a.clone()],
        pair_address: "pool".to_string(),
        max_spread: None,
        to: None,
    };
    assert_eq!(execute(&mut storage, &owner, one, &quote(0)), Err(ContractError::InvalidParameter));
    let three = ExecuteMsg::UpdatePairStatus {
        asset_infos: vec![a.clone(), b.clone(), a.clone()],
        is_disabled: true,
    };
    assert_eq!(
        execute(&mut storage, &owner, three, &quote(0)),
        Err(ContractError::InvalidParameter)
    );
    let none = ExecuteMsg::UpdatePairMaxSpread { asset_infos: vec![], max_spread: Decimal::new(1) };
    assert_eq!(execute(&mut storage, &owner, none, &quote(0)), Err(ContractError::InvalidParameter));
}

#[test]
fn execute_dispatches() {
    let (mut storage, owner, _) = mock_instantiate(mock_instantiate_msg());
    let [a, b] = sei_kusd();
    let pair = vec![a, b];
    execute(
        &mut storage,
        &owner,
        ExecuteMsg::UpdatePairConfig {
            asset_infos: pair.clone(),
            pair_address: "pool".to_string(),
            max_spread: None,
            to: None,
        },
        &quote(0),
    )
    .unwrap();
    execute(
        &mut storage,
        &owner,
        ExecuteMsg::UpdatePairMaxSpread { asset_infos: pair.clone(), max_spread: Decimal::new(7) },
        &quote(0),
    )
    .unwrap();
    execute(
        &mut storage,
        &owner,
        ExecuteMsg::UpdatePairStatus { asset_infos: pair.clone(), is_disabled: false },
        &quote(0),
    )
    .unwrap();
    execute(
        &mut storage,
        &owner,
        ExecuteMsg::SetWhitelist { caller: "trader".to_string(), is_whitelist: true },
        &quote(0),
    )
    .unwrap();
    let coin = Coin::new(3, "sei");
    let paid = mock_info("trader", &[coin.clone()]);
    let res = execute(
        &mut storage,
        &paid,
        ExecuteMsg::SwapDenom {
            from_coin: coin,
            target_denom: "factory/xxx/kusd".to_string(),
            to_address: Some("elsewhere".to_string()),
        },
        &quote(4),
    )
    .unwrap();
    match &res.messages[0] {
        CosmosMsg::Execute { msg: SwapMsg::Swap { max_spread, to, .. }, .. } => {
            assert_eq!(*max_spread, Some(Decimal::new(7)));
            assert_eq!(*to, Some("trader".to_string()));
        }
        other => panic!("unexpected instruction {:?}", other),
    }
    execute(
        &mut storage,
        &owner,
        ExecuteMsg::ChangeOwner { new_owner: "next".to_string() },
        &quote(0),
    )
    .unwrap();
    assert_eq!(
        query(&storage, QueryMsg::QuerySwapInfo { asset_infos: sei_kusd() }),
        Ok(QueryResponse::SwapInfo(swap_sparrow::msg::SwapInfoResponse {
            total_amount_in: 3,
            total_amount_out: 4
        }))
    );
    assert_eq!(query_config(&storage).unwrap().owner, "next");
}

#[test]
fn query_hands_pool_questions_on() {
    let (storage, _) = router_with_pair();
    let asset = Asset { info: AssetInfo::native("sei"), amount: 12 };
    assert_eq!(
        query(
            &storage,
            QueryMsg::QuerySimulation { asset_infos: sei_kusd(), offer_asset: asset.clone() }
        ),
        Ok(QueryResponse::Pool(query_simulation("pool".to_string(), asset.clone())))
    );
    assert_eq!(
        query(
            &storage,
            QueryMsg::QueryReverseSimulation { asset_infos: sei_kusd(), ask_asset: asset.clone() }
        ),
        Ok(QueryResponse::Pool(query_reverse_simulation("pool".to_string(), asset.clone())))
    );
    assert_eq!(
        query(&storage, QueryMsg::QueryCumulativePrices { asset_infos: sei_kusd() }),
        Ok(QueryResponse::Pool(query_cumulative_prices("pool".to_string())))
    );
    assert_eq!(query_cumulative_prices("p".to_string()).msg, SwapQueryMsg::CumulativePrices {});
    let unknown = [AssetInfo::native("a"), AssetInfo::native("b")];
    assert_eq!(
        query(&storage, QueryMsg::QueryCumulativePrices { asset_infos: unknown.clone() }),
        Err(StdError::PairConfigNotFound)
    );
    assert!(matches!(
        query(&storage, QueryMsg::QueryPairConfig { asset_infos: sei_kusd() }),
        Ok(QueryResponse::PairConfig(_))
    ));
}

#[test]
fn migrate_changes_nothing() {
    assert_eq!(migrate(MigrateMsg {}), Ok(Response::new()));
}

#[test]
fn token_balance_question_and_answers() {
    let question =
        query_token_balance_request("token".to_string(), "holder".to_string()).unwrap();
    assert_eq!(question.contract_addr, "token");
    assert_eq!(question.msg, br#"{"balance":{"address":"holder"}}"#.to_vec());
    assert_eq!(query_token_balance(Some(br#"{"balance":"1200"}"#.to_vec())), Ok(1200));
    assert_eq!(query_token_balance(Some(b"no json".to_vec())), Ok(0));
    assert_eq!(query_token_balance(None), Ok(0));
    assert_eq!(balance_or_zero(Some(5)), 5);
    assert_eq!(balance_or_zero(None), 0);
}
