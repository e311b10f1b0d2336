use crossanchor::asset::{Address, Asset, AssetInfo, Coin};
use crossanchor::common::{coins_after_tax, forward_difference, forward_difference_msg};
use crossanchor::error::RelayError;
use crossanchor::gateway::msg::ExecuteMsg as GatewayMsg;
use crossanchor::message::{
    CosmosMsg, Env, MessageInfo, ReplyOn, Response, SubMsg, WasmPayload,
};
use crossanchor::proxy::msg::ExecuteMsg as ProxyMsg;
use crossanchor::router::msg::ExecuteMsg as RouterMsg;
use crossanchor::store::Store;

const SELF: &str = "terra1self";
const TARGET: &str = "terra1target";

fn env() -> Env {
    Env { contract_address: SELF.to_string(), canonical_address: vec![0; 20] }
}

fn from(sender: &str) -> MessageInfo {
    MessageInfo { sender: sender.to_string(), funds: vec![] }
}

fn stable() -> AssetInfo {
    AssetInfo::NativeToken { denom: "uusd".to_string() }
}

fn token() -> AssetInfo {
    AssetInfo::Token { contract_addr: Address::Human("terra1token".to_string()) }
}

fn plain(msg: CosmosMsg) -> SubMsg {
    SubMsg { id: 0, msg, reply_on: ReplyOn::Never }
}

#[test]
fn asset_keys_are_the_bytes_of_the_name() {
    assert_eq!(stable().key(), b"uusd".to_vec());
    assert_eq!(token().key(), b"terra1token".to_vec());
    assert_eq!(
        AssetInfo::Token { contract_addr: Address::Canonical(vec![1, 2, 3]) }.key(),
        vec![1, 2, 3]
    );
    assert!(stable().is_native_token());
    assert!(!token().is_native_token());
}

#[test]
fn deducting_tax_counts_one_more_levy() {
    let coins = Asset { info: stable(), amount: 10, tax_levies: 0 };
    assert!(coins.is_native_token());
    assert_eq!(
        coins.deduct_tax(),
        Ok(Coin { denom: "uusd".to_string(), amount: 10, tax_levies: 1 })
    );
    let taxed = Asset { info: stable(), amount: 10, tax_levies: 254 };
    assert_eq!(taxed.deduct_tax().unwrap().tax_levies, 255);
    let spent = Asset { info: stable(), amount: 10, tax_levies: 255 };
    assert_eq!(spent.deduct_tax(), Err(RelayError::Validation));
    let tokens = Asset { info: token(), amount: 10, tax_levies: 0 };
    assert_eq!(tokens.deduct_tax(), Err(RelayError::Validation));
}

#[test]
fn coins_after_tax_levies_each_coin_once() {
    let coins = vec![
        Coin { denom: "uusd".to_string(), amount: 5, tax_levies: 0 },
        Coin { denom: "uluna".to_string(), amount: 6, tax_levies: 3 },
    ];
    assert_eq!(
        coins_after_tax(&coins),
        Ok(vec![
            Coin { denom: "uusd".to_string(), amount: 5, tax_levies: 1 },
            Coin { denom: "uluna".to_string(), amount: 6, tax_levies: 4 },
        ])
    );
    assert_eq!(coins_after_tax(&vec![]), Ok(vec![]));
    let spent = vec![
        Coin { denom: "uusd".to_string(), amount: 5, tax_levies: 0 },
        Coin { denom: "uluna".to_string(), amount: 6, tax_levies: 255 },
    ];
    assert_eq!(coins_after_tax(&spent), Err(RelayError::Validation));
}

#[test]
fn the_first_phase_records_the_balance() {
    let mut balances: Store<u128> = Store::new();
    let message =
        forward_difference_msg(&mut balances, &env(), token(), TARGET.to_string(), true, Ok(70));
    assert_eq!(
        message,
        Ok(CosmosMsg::Execute {
            contract_addr: Address::Human(SELF.to_string()),
            msg: WasmPayload::Router(RouterMsg::ForwardDifferenceAndInitiateBridgeTransfer {
                asset_info: token(),
                to: TARGET.to_string(),
            }),
            funds: vec![],
        })
    );
    assert_eq!(balances.get(b"terra1token"), Some(&70));
    let plain_forward =
        forward_difference_msg(&mut balances, &env(), token(), TARGET.to_string(), false, Ok(80));
    assert_eq!(
        plain_forward,
        Ok(CosmosMsg::Execute {
            contract_addr: Address::Human(SELF.to_string()),
            msg: WasmPayload::Proxy(ProxyMsg::ForwardDifference {
                asset_info: token(),
                to: TARGET.to_string(),
            }),
            funds: vec![],
        })
    );
    assert_eq!(balances.get(b"terra1token"), Some(&80));
    assert_eq!(balances.len(), 1);
    assert_eq!(
        forward_difference_msg(&mut balances, &env(), token(), TARGET.to_string(), false, Err("unread".to_string())),
        Err(RelayError::Upstream { reason: "unread".to_string() })
    );
    assert_eq!(balances.get(b"terra1token"), Some(&80));
}

#[test]
fn the_second_phase_pays_exactly_the_difference() {
    let mut balances: Store<u128> = Store::new();
    forward_difference_msg(&mut balances, &env(), token(), TARGET.to_string(), false, Ok(70))
        .unwrap();
    let result = forward_difference(
        &mut balances,
        &env(),
        &from(SELF),
        token(),
        TARGET.to_string(),
        false,
        Ok(1_070),
    );
    assert_eq!(
        result,
        Ok(Response {
            messages: vec![plain(CosmosMsg::Transfer {
                asset: Asset { info: token(), amount: 1_000, tax_levies: 0 },
                recipient: TARGET.to_string(),
            })]
        })
    );
}

#[test]
fn what_arrives_in_between_is_forwarded_too() {
    let mut balances: Store<u128> = Store::new();
    forward_difference_msg(&mut balances, &env(), stable(), TARGET.to_string(), true, Ok(100))
        .unwrap();
    let gained = 400u128;
    let unrelated = 25u128;
    let result = forward_difference(
        &mut balances,
        &env(),
        &from(SELF),
        stable(),
        TARGET.to_string(),
        true,
        Ok(100 + gained + unrelated),
    );
    assert_eq!(
        result,
        Ok(Response {
            messages: vec![
                plain(CosmosMsg::Transfer {
                asset: Asset { info: stable(), amount: 425, tax_levies: 0 },
                recipient: TARGET.to_string(),
            }),
                plain(CosmosMsg::Execute {
                    contract_addr: Address::Human(TARGET.to_string()),
                    msg: WasmPayload::Gateway(GatewayMsg::SendAsset {
                        asset: Asset { info: stable(), amount: 425, tax_levies: 1 },
                    }),
                    funds: vec![],
                }),
            ]
        })
    );
}

#[test]
fn a_token_is_relayed_in_full() {
    let mut balances: Store<u128> = Store::new();
    forward_difference_msg(&mut balances, &env(), token(), TARGET.to_string(), true, Ok(0))
        .unwrap();
    let result =
        forward_difference(&mut balances, &env(), &from(SELF), token(), TARGET.to_string(), true, Ok(9));
    assert_eq!(
        result,
        Ok(Response {
            messages: vec![
                plain(CosmosMsg::Transfer {
                asset: Asset { info: token(), amount: 9, tax_levies: 0 },
                recipient: TARGET.to_string(),
            }),
                plain(CosmosMsg::Execute {
                    contract_addr: Address::Human(TARGET.to_string()),
                    msg: WasmPayload::Gateway(GatewayMsg::SendAsset {
                        asset: Asset { info: token(), amount: 9, tax_levies: 0 },
                    }),
                    funds: vec![],
                }),
            ]
        })
    );
}

#[test]
fn an_unchanged_balance_forwards_nothing() {
    let mut balances: Store<u128> = Store::new();
    forward_difference_msg(&mut balances, &env(), token(), TARGET.to_string(), false, Ok(u128::MAX))
        .unwrap();
    let result = forward_difference(
        &mut balances,
        &env(),
        &from(SELF),
        token(),
        TARGET.to_string(),
        false,
        Ok(u128::MAX),
    );
    assert_eq!(
        result,
        Ok(Response {
            messages: vec![plain(CosmosMsg::Transfer {
                asset: Asset { info: token(), amount: 0, tax_levies: 0 },
                recipient: TARGET.to_string(),
            })]
        })
    );
}

#[test]
fn the_second_phase_refusals() {
    let mut balances: Store<u128> = Store::new();
    forward_difference_msg(&mut balances, &env(), token(), TARGET.to_string(), false, Ok(70))
        .unwrap();
    assert_eq!(
        forward_difference(
            &mut balances,
            &env(),
            &from(TARGET),
            token(),
            TARGET.to_string(),
            false,
            Ok(80)
        ),
        Err(RelayError::Unauthorized)
    );
    assert_eq!(
        forward_difference(
            &mut balances,
            &env(),
            &from(SELF),
            stable(),
            TARGET.to_string(),
            false,
            Ok(80)
        ),
        Err(RelayError::NotFound)
    );
    assert_eq!(
        forward_difference(&mut balances, &env(), &from(SELF), token(), TARGET.to_string(), false, Err("unread".to_string())),
        Err(RelayError::Upstream { reason: "unread".to_string() })
    );
    assert_eq!(
        forward_difference(
            &mut balances,
            &env(),
            &from(SELF),
            token(),
            TARGET.to_string(),
            false,
            Ok(69)
        ),
        Err(RelayError::Validation)
    );
}

#[test]
fn store_keeps_one_value_per_key() {
    let mut store: Store<u128> = Store::new();
    assert_eq!(store.len(), 0);
    assert!(!store.contains(b"a"));
    store.insert(b"a".to_vec(), 1);
    store.insert(b"b".to_vec(), 2);
    store.insert(b"a".to_vec(), 3);
    store.insert(Vec::new(), 4);
    assert_eq!(store.len(), 3);
    assert_eq!(store.get(b"a"), Some(&3));
    assert_eq!(store.get(b"b"), Some(&2));
    assert_eq!(store.get(b""), Some(&4));
    assert_eq!(store.get(b"ab"), None);
    assert!(store.contains(b"b"));
    let mut seen: Vec<(Vec<u8>, u128)> = Vec::new();
    for i in 0..store.len() {
        seen.push((store.key_at(i).clone(), *store.value_at(i)));
    }
    seen.sort();
    assert_eq!(seen, vec![(vec![], 4), (b"a".to_vec(), 3), (b"b".to_vec(), 2)]);
}

#[test]
fn a_recorded_balance_serves_one_payment() {
    let mut balances: Store<u128> = Store::new();
    forward_difference_msg(&mut balances, &env(), token(), TARGET.to_string(), false, Ok(70))
        .unwrap();
    forward_difference_msg(&mut balances, &env(), stable(), TARGET.to_string(), false, Ok(5))
        .unwrap();
    let first = forward_difference(
        &mut balances,
        &env(),
        &from(SELF),
        token(),
        TARGET.to_string(),
        false,
        Ok(100),
    );
    assert!(first.is_ok());
    assert_eq!(balances.get(b"terra1token"), None);
    assert_eq!(balances.get(b"uusd"), Some(&5));
    assert_eq!(balances.len(), 1);
    let second = forward_difference(
        &mut balances,
        &env(),
        &from(SELF),
        token(),
        TARGET.to_string(),
        false,
        Ok(130),
    );
    assert_eq!(second, Err(RelayError::NotFound));
    assert_eq!(balances.len(), 1);
    forward_difference_msg(&mut balances, &env(), token(), TARGET.to_string(), false, Ok(130))
        .unwrap();
    let third = forward_difference(
        &mut balances,
        &env(),
        &from(SELF),
        token(),
        TARGET.to_string(),
        false,
        Ok(131),
    );
    assert_eq!(
        third,
        Ok(Response {
            messages: vec![plain(CosmosMsg::Transfer {
                asset: Asset { info: token(), amount: 1, tax_levies: 0 },
                recipient: TARGET.to_string(),
            })]
        })
    );
}

#[test]
fn a_refused_payment_keeps_the_recorded_balance() {
    let mut balances: Store<u128> = Store::new();
    forward_difference_msg(&mut balances, &env(), token(), TARGET.to_string(), false, Ok(70))
        .unwrap();
    let refused = forward_difference(
        &mut balances,
        &env(),
        &from(SELF),
        token(),
        TARGET.to_string(),
        false,
        Err("balance query failed".to_string()),
    );
    assert_eq!(refused, Err(RelayError::Upstream { reason: "balance query failed".to_string() }));
    assert_eq!(balances.get(b"terra1token"), Some(&70));
}

#[test]
fn store_forgets_what_is_removed() {
    let mut store: Store<u128> = Store::new();
    store.insert(b"a".to_vec(), 1);
    store.insert(b"b".to_vec(), 2);
    store.insert(b"c".to_vec(), 3);
    store.remove(b"b");
    store.remove(b"x");
    assert_eq!(store.len(), 2);
    assert_eq!(store.get(b"a"), Some(&1));
    assert_eq!(store.get(b"b"), None);
    assert_eq!(store.get(b"c"), Some(&3));
    store.remove(b"a");
    store.remove(b"c");
    assert_eq!(store.len(), 0);
    store.insert(b"b".to_vec(), 4);
    assert_eq!(store.get(b"b"), Some(&4));
}
