use swap_sparrow::contract::instantiate;
use swap_sparrow::handler::{set_whitelist, swap_denom, swap_denom_query, update_pair_config};
use swap_sparrow::helper::AssetInfo;
use swap_sparrow::mock_swap_pair;
use swap_sparrow::msg::{InstantiateMsg, SwapQueryMsg};
use swap_sparrow::querier::query_swap_info;
use swap_sparrow::response::{Coin, CosmosMsg, MessageInfo, SwapMsg};
use swap_sparrow::state::Storage;

fn pair() -> [AssetInfo; 2] {
    [AssetInfo::native("usei"), AssetInfo::native("ukusd")]
}

/// Serves one swap the way the host does: ask the router which pool to ask,
/// ask the pool, hand the quote to the router, and let the pool carry out
/// the instruction that the router queued.
fn routed_swap(
    storage: &mut Storage,
    pool: &mut mock_swap_pair::Config,
    trader: &str,
    coin: Coin,
    target: &str,
) -> (u128, Vec<CosmosMsg>) {
    let info = MessageInfo { sender: trader.to_string(), funds: vec![coin.clone()] };
    let question = swap_denom_query(storage, &info, &coin, &target.to_string()).unwrap();
    assert_eq!(question.contract_addr, "pool");
    let offer_asset = match question.msg {
        SwapQueryMsg::Simulation { offer_asset } => offer_asset,
        other => panic!("unexpected question {:?}", other),
    };
    let quoted = mock_swap_pair::query_simulation(pool, offer_asset).unwrap();
    let res = swap_denom(storage, &info, coin, target.to_string(), &quoted).unwrap();
    assert_eq!(res.messages.len(), 1);
    let (msg, funds) = match res.messages[0].clone() {
        CosmosMsg::Execute { contract_addr, msg, funds } => {
            assert_eq!(contract_addr, "pool");
            (msg, funds)
        }
        other => panic!("unexpected instruction {:?}", other),
    };
    let order = match msg {
        SwapMsg::Swap { offer_asset, belief_price, max_spread, to } => {
            mock_swap_pair::ExecuteMsg::Swap { offer_asset, belief_price, max_spread, to }
        }
    };
    let from_router = MessageInfo { sender: "router".to_string(), funds };
    let out = mock_swap_pair::execute(pool, from_router, order, 1_000, 1_000).unwrap();
    (quoted.return_amount, out.messages)
}

#[test]
fn the_ledger_records_what_the_pool_pays_out() {
    let mut storage = Storage::new();
    let owner = MessageInfo { sender: "owner".to_string(), funds: vec![] };
    instantiate(&mut storage, &owner, InstantiateMsg { owner: None }).unwrap();
    update_pair_config(&mut storage, &owner, pair(), "pool".to_string(), None, None).unwrap();
    set_whitelist(&mut storage, &owner, "trader".to_string(), true).unwrap();
    let (mut pool, _) = mock_swap_pair::instantiate(mock_swap_pair::InstantiateMsg {
        asset_infos: pair(),
        swap_0_to_1_price: 2_000_000,
    });

    let (quoted, paid) =
        routed_swap(&mut storage, &mut pool, "trader", Coin::new(1_000_000, "ukusd"), "usei");
    assert_eq!(quoted, 500_000);
    assert_eq!(
        paid,
        vec![CosmosMsg::Send {
            to_address: "trader".to_string(),
            amount: vec![Coin::new(500_000, "usei")],
        }]
    );
    let ledger = query_swap_info(&storage, pair()).unwrap();
    assert_eq!((ledger.total_amount_in, ledger.total_amount_out), (1_000_000, 500_000));

    let (quoted, paid) =
        routed_swap(&mut storage, &mut pool, "trader", Coin::new(7, "usei"), "ukusd");
    assert_eq!(quoted, 14);
    assert_eq!(
        paid,
        vec![CosmosMsg::Send {
            to_address: "trader".to_string(),
            amount: vec![Coin::new(14, "ukusd")],
        }]
    );
    let ledger = query_swap_info(&storage, pair()).unwrap();
    assert_eq!((ledger.total_amount_in, ledger.total_amount_out), (1_000_007, 500_014));
}
