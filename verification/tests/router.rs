use crossanchor::anchor::{
    Cw20HookMsg as AnchorHook, DistributorConfigResponse, ExecuteMsg as AnchorMsg,
    MarketConfigResponse, OverseerConfigResponse, VoteOption,
};
use crossanchor::asset::{Address, Asset, AssetInfo, Coin, Uint256};
use crossanchor::cw20::{Cw20ExecuteMsg, HookMsg};
use crossanchor::error::RelayError;
use crossanchor::message::{
    CosmosMsg, Env, MessageInfo, Reply, ReplyOn, ReplyResult, Response, SubMsg, WasmPayload,
};
use crossanchor::proxy::msg::{
    Cw20HookMsg as ProxyHook, ExecuteMsg as ProxyMsg, InstantiateMsg as ProxyInstantiateMsg,
    MigrateMsg as ProxyMigrateMsg,
};
use crossanchor::router::borrows::{
    borrow_stable, claim_rewards, find_proxy, lock_collateral, migrate_address_proxy_msg,
    repay_stable, unlock_collateral,
};
use crossanchor::router::contract::{
    add_bridges, execute, forwarded_asset, initialize_address_proxy, instantiate, migrate,
    named_user, query,
    receive_cw20, register_proxy, reply, update_config, QueryResponse, INSTANTIATE_REPLY_ID,
};
use crossanchor::router::deposits::{deposit_stable, redeem_stable};
use crossanchor::router::gov::{cast_vote, stake_voting_tokens, unstake_voting_tokens};
use crossanchor::router::helpers::check_whitelisted;
use crossanchor::router::msg::{
    Cw20HookMsg, ExecuteMsg, InstantiateMsg, MigrateMsg, QueryMsg,
};
use crossanchor::router::state::{bridge_key, proxy_key, RemoteUser, Router};

const OWNER: &str = "terra1owner";
const GATEWAY: &str = "terra1gateway";
const SELF: &str = "terra1router";
const MARKET: &str = "terra1market";
const OVERSEER: &str = "terra1overseer";
const ATERRA: &str = "terra1aust";
const ANC: &str = "terra1anc";
const GOV: &str = "terra1gov";
const PROXY: &str = "terra1proxy";
const CHAIN: u16 = 2;

fn env() -> Env {
    Env { contract_address: SELF.to_string(), canonical_address: vec![0x5E; 20] }
}

fn user() -> Vec<u8> {
    let mut address = vec![0u8; 31];
    address.push(1);
    address
}

fn call(sender: &str, funds: Vec<Coin>) -> MessageInfo {
    MessageInfo { sender: sender.to_string(), funds }
}

fn uusd(amount: u128, tax_levies: u8) -> Coin {
    Coin { denom: "uusd".to_string(), amount, tax_levies }
}

fn fresh_router() -> Router {
    instantiate(
        InstantiateMsg {
            address_proxy_code_id: 7,
            owner: OWNER.to_string(),
            overseer_address: OVERSEER.to_string(),
            anc_gov_address: GOV.to_string(),
        },
        OverseerConfigResponse { market_contract: MARKET.to_string() },
        MarketConfigResponse {
            aterra_contract: ATERRA.to_string(),
            distributor_contract: "terra1distributor".to_string(),
        },
        DistributorConfigResponse { anchor_token: ANC.to_string() },
    )
}

fn trusting_router() -> Router {
    let mut state = fresh_router();
    add_bridges(&mut state, &call(OWNER, vec![]), &vec![GATEWAY.to_string()]).unwrap();
    state
}

fn instantiate_report(address: &str) -> Vec<u8> {
    let mut data = vec![0x0A, address.len() as u8];
    data.extend_from_slice(address.as_bytes());
    data.extend_from_slice(&[0x12, 0x03, 1, 2, 3]);
    data
}

fn provisioned_router() -> Router {
    let mut state = trusting_router();
    initialize_address_proxy(&mut state, &env(), &call(GATEWAY, vec![]), CHAIN, &user()).unwrap();
    let reported = reply(
        &mut state,
        Reply {
            id: INSTANTIATE_REPLY_ID,
            result: ReplyResult::Done { data: Some(instantiate_report(PROXY)) },
        },
    );
    assert_eq!(reported, Ok(Response { messages: vec![] }));
    state
}

fn plain(msg: CosmosMsg) -> SubMsg {
    SubMsg { id: 0, msg, reply_on: ReplyOn::Never }
}

fn migrate_proxy() -> SubMsg {
    plain(CosmosMsg::Migrate {
        contract_addr: PROXY.to_string(),
        new_code_id: 7,
        msg: ProxyMigrateMsg {},
    })
}

fn proxy_call(msg: ProxyMsg, funds: Vec<Coin>) -> SubMsg {
    plain(CosmosMsg::Execute {
        contract_addr: Address::Human(PROXY.to_string()),
        msg: WasmPayload::Proxy(msg),
        funds,
    })
}

fn forward_to_gateway(asset_info: AssetInfo) -> SubMsg {
    plain(CosmosMsg::Execute {
        contract_addr: Address::Human(SELF.to_string()),
        msg: WasmPayload::Router(ExecuteMsg::ForwardDifferenceAndInitiateBridgeTransfer {
            asset_info,
            to: GATEWAY.to_string(),
        }),
        funds: vec![],
    })
}

fn token(address: &str) -> AssetInfo {
    AssetInfo::Token { contract_addr: Address::Human(address.to_string()) }
}

fn stable() -> AssetInfo {
    AssetInfo::NativeToken { denom: "uusd".to_string() }
}

#[test]
fn router_instantiate_reads_the_three_answers() {
    let state = fresh_router();
    assert_eq!(state.config.owner, OWNER);
    assert_eq!(state.config.address_proxy_code_id, 7);
    assert_eq!(state.config.market_address, MARKET);
    assert_eq!(state.config.overseer_address, OVERSEER);
    assert_eq!(state.config.aterra_address, ATERRA);
    assert_eq!(state.config.anc_token, ANC);
    assert_eq!(state.config.anc_gov_address, GOV);
    assert_eq!(state.current_address_proxy, None);
    assert_eq!(state.whitelisted_bridges.len(), 0);
    assert_eq!(state.address_proxies.len(), 0);
    assert_eq!(state.forward_balances.len(), 0);
}

#[test]
fn only_the_owner_updates_the_configuration() {
    let mut state = fresh_router();
    assert_eq!(
        update_config(&mut state, &call(GATEWAY, vec![]), Some("terra1thief".to_string()), None),
        Err(RelayError::Unauthorized)
    );
    assert_eq!(state.config.owner, OWNER);
    assert_eq!(
        update_config(&mut state, &call(OWNER, vec![]), None, Some(9)),
        Ok(Response { messages: vec![] })
    );
    assert_eq!(state.config.owner, OWNER);
    assert_eq!(state.config.address_proxy_code_id, 9);
    assert_eq!(
        execute(
            &mut state,
            &env(),
            &call(OWNER, vec![]),
            ExecuteMsg::UpdateConfig { owner: Some("terra1heir".to_string()), address_proxy_code_id: None },
            Err("unread".to_string())
        ),
        Ok(Response { messages: vec![] })
    );
    assert_eq!(state.config.owner, "terra1heir");
    assert_eq!(state.config.address_proxy_code_id, 9);
    assert_eq!(
        update_config(&mut state, &call(OWNER, vec![]), None, Some(1)),
        Err(RelayError::Unauthorized)
    );
}

#[test]
fn only_the_owner_adds_gateways() {
    let mut state = fresh_router();
    assert_eq!(
        add_bridges(&mut state, &call(GATEWAY, vec![]), &vec![GATEWAY.to_string()]),
        Err(RelayError::Unauthorized)
    );
    assert_eq!(check_whitelisted(&state.whitelisted_bridges, GATEWAY), Err(RelayError::Unauthorized));
    assert_eq!(
        add_bridges(
            &mut state,
            &call(OWNER, vec![]),
            &vec![GATEWAY.to_string(), "terra1other".to_string(), GATEWAY.to_string()]
        ),
        Ok(Response { messages: vec![] })
    );
    assert_eq!(check_whitelisted(&state.whitelisted_bridges, GATEWAY), Ok(()));
    assert_eq!(check_whitelisted(&state.whitelisted_bridges, "terra1other"), Ok(()));
    assert_eq!(
        check_whitelisted(&state.whitelisted_bridges, "terra1gatewa"),
        Err(RelayError::Unauthorized)
    );
    assert_eq!(state.whitelisted_bridges.len(), 2);
    assert_eq!(bridge_key("ab"), vec![b'a', b'b']);
    assert_eq!(proxy_key(0x0102, &[7, 8]), vec![1, 2, 7, 8]);
}

#[test]
fn provisioning_asks_for_a_proxy_once() {
    let mut state = trusting_router();
    let first = initialize_address_proxy(&mut state, &env(), &call(GATEWAY, vec![]), CHAIN, &user());
    assert_eq!(
        first,
        Ok(Response {
            messages: vec![SubMsg {
                id: INSTANTIATE_REPLY_ID,
                msg: CosmosMsg::Instantiate {
                    admin: Some(SELF.to_string()),
                    code_id: 7,
                    msg: ProxyInstantiateMsg {
                        market_address: MARKET.to_string(),
                        overseer_address: OVERSEER.to_string(),
                        anc_gov_address: GOV.to_string(),
                        aterra_address: ATERRA.to_string(),
                        anc_token: ANC.to_string(),
                        core_address: SELF.to_string(),
                        chain_id: CHAIN,
                        address: user(),
                    },
                    funds: vec![],
                    label: String::new(),
                },
                reply_on: ReplyOn::Success,
            }]
        })
    );
    assert_eq!(
        state.current_address_proxy,
        Some(RemoteUser { chain_id: CHAIN, address: user() })
    );
    assert_eq!(find_proxy(&state, CHAIN, &user()), None);
}

#[test]
fn provisioning_a_provisioned_user_is_a_success_without_effect() {
    let mut state = provisioned_router();
    state.current_address_proxy = None;
    let again = execute(
        &mut state,
        &env(),
        &call(GATEWAY, vec![]),
        ExecuteMsg::InitializeAddressProxy { chain_id: CHAIN, address: user() },
        Err("unread".to_string()),
    );
    assert_eq!(again, Ok(Response { messages: vec![] }));
    assert_eq!(state.current_address_proxy, None);
    assert_eq!(state.address_proxies.len(), 1);
    assert_eq!(find_proxy(&state, CHAIN, &user()), Some(PROXY.to_string()));
}

#[test]
fn the_report_on_a_creation_names_the_proxy() {
    let state = provisioned_router();
    assert_eq!(find_proxy(&state, CHAIN, &user()), Some(PROXY.to_string()));
    assert_eq!(
        query(&state, QueryMsg::TerraAddress { sender_chain: CHAIN, sender_address: user() }),
        Ok(QueryResponse::TerraAddress(PROXY.to_string()))
    );
    assert_eq!(
        query(&state, QueryMsg::TerraAddress { sender_chain: 3, sender_address: user() }),
        Err(RelayError::NotFound)
    );
    assert_eq!(
        query(&state, QueryMsg::TerraAddress { sender_chain: CHAIN, sender_address: vec![1] }),
        Err(RelayError::NotFound)
    );
    match query(&state, QueryMsg::Config {}) {
        Ok(QueryResponse::Config(config)) => assert_eq!(config, state.config),
        other => panic!("unexpected answer {:?}", other),
    }
}

#[test]
fn a_report_with_fields_in_another_order_is_read_too() {
    let mut state = trusting_router();
    initialize_address_proxy(&mut state, &env(), &call(GATEWAY, vec![]), CHAIN, &user()).unwrap();
    let mut data = vec![0x12, 0x02, 9, 9, 0x0A, 0x06];
    data.extend_from_slice(b"terra2");
    let reported =
        reply(&mut state, Reply { id: 0, result: ReplyResult::Done { data: Some(data) } });
    assert_eq!(reported, Ok(Response { messages: vec![] }));
    assert_eq!(find_proxy(&state, CHAIN, &user()), Some("terra2".to_string()));
}

#[test]
fn a_report_that_cannot_be_read_is_refused() {
    let mut state = trusting_router();
    initialize_address_proxy(&mut state, &env(), &call(GATEWAY, vec![]), CHAIN, &user()).unwrap();
    let truncated =
        reply(&mut state, Reply { id: 0, result: ReplyResult::Done { data: Some(vec![0x0A, 0x05, b'a']) } });
    assert_eq!(truncated, Err(RelayError::Validation));
    let no_data = reply(&mut state, Reply { id: 0, result: ReplyResult::Done { data: None } });
    assert_eq!(no_data, Err(RelayError::Validation));
    let failed = reply(
        &mut state,
        Reply { id: 0, result: ReplyResult::Failed { reason: "out of gas".to_string() } },
    );
    assert_eq!(failed, Err(RelayError::Upstream { reason: "out of gas".to_string() }));
    assert_eq!(find_proxy(&state, CHAIN, &user()), None);
    assert_eq!(register_proxy(&mut state, None), Err(RelayError::Validation));
}

#[test]
fn a_report_without_a_request_is_refused() {
    let mut state = trusting_router();
    let reported = reply(
        &mut state,
        Reply { id: 0, result: ReplyResult::Done { data: Some(instantiate_report(PROXY)) } },
    );
    assert_eq!(reported, Err(RelayError::NotFound));
    assert_eq!(register_proxy(&mut state, Some(PROXY.to_string())), Err(RelayError::NotFound));
    assert_eq!(state.address_proxies.len(), 0);
}

#[test]
fn a_later_request_overwrites_the_user_in_the_making() {
    let mut state = trusting_router();
    initialize_address_proxy(&mut state, &env(), &call(GATEWAY, vec![]), CHAIN, &user()).unwrap();
    initialize_address_proxy(&mut state, &env(), &call(GATEWAY, vec![]), 4, &[9; 32]).unwrap();
    register_proxy(&mut state, Some(PROXY.to_string())).unwrap();
    assert_eq!(find_proxy(&state, 4, &[9; 32]), Some(PROXY.to_string()));
    assert_eq!(find_proxy(&state, CHAIN, &user()), None);
}

#[test]
fn deposit_goes_to_the_market_and_receipts_are_forwarded() {
    let mut state = trusting_router();
    let result = deposit_stable(&mut state, &env(), &call(GATEWAY, vec![uusd(1_000, 0)]), Ok(40));
    assert_eq!(
        result,
        Ok(Response {
            messages: vec![
                plain(CosmosMsg::Execute {
                    contract_addr: Address::Human(MARKET.to_string()),
                    msg: WasmPayload::Anchor(AnchorMsg::DepositStable {}),
                    funds: vec![uusd(1_000, 1)],
                }),
                forward_to_gateway(token(ATERRA)),
            ]
        })
    );
    assert_eq!(state.forward_balances.get(ATERRA.as_bytes()), Some(&40));
}

#[test]
fn deposit_is_for_gateways_only_and_needs_the_balance() {
    let mut state = trusting_router();
    assert_eq!(
        deposit_stable(&mut state, &env(), &call("terra1stranger", vec![uusd(1, 0)]), Ok(40)),
        Err(RelayError::Unauthorized)
    );
    assert_eq!(
        deposit_stable(&mut state, &env(), &call(GATEWAY, vec![uusd(1, 0)]), Err("unread".to_string())),
        Err(RelayError::Upstream { reason: "unread".to_string() })
    );
    assert_eq!(
        deposit_stable(&mut state, &env(), &call(GATEWAY, vec![uusd(1, 255)]), Ok(40)),
        Err(RelayError::Validation)
    );
    assert_eq!(state.forward_balances.len(), 0);
}

#[test]
fn redeem_sends_receipts_to_the_market_and_forwards_stable_coins() {
    let mut state = trusting_router();
    let result = redeem_stable(
        &mut state,
        &env(),
        GATEWAY.to_string(),
        ATERRA.to_string(),
        500,
        Ok(12),
    );
    assert_eq!(
        result,
        Ok(Response {
            messages: vec![
                plain(CosmosMsg::Execute {
                    contract_addr: Address::Human(ATERRA.to_string()),
                    msg: WasmPayload::Cw20(Cw20ExecuteMsg::Send {
                        contract: MARKET.to_string(),
                        amount: 500,
                        msg: HookMsg::Anchor(AnchorHook::RedeemStable {}),
                    }),
                    funds: vec![],
                }),
                forward_to_gateway(stable()),
            ]
        })
    );
    assert_eq!(state.forward_balances.get(b"uusd"), Some(&12));
}

#[test]
fn tokens_are_taken_from_gateways_only() {
    let mut state = provisioned_router();
    let hook = || Cw20HookMsg::RedeemStable { sender_chain: CHAIN, sender_address: user() };
    assert_eq!(
        receive_cw20(
            &mut state,
            &env(),
            &call(ATERRA, vec![]),
            "terra1stranger".to_string(),
            5,
            hook(),
            Ok(1)
        ),
        Err(RelayError::Unauthorized)
    );
    let redeemed = execute(
        &mut state,
        &env(),
        &call(ATERRA, vec![]),
        ExecuteMsg::Receive { sender: GATEWAY.to_string(), amount: 5, msg: hook() },
        Ok(1),
    );
    assert_eq!(redeemed.unwrap().messages.len(), 2);
    let locked = receive_cw20(
        &mut state,
        &env(),
        &call("terra1bluna", vec![]),
        GATEWAY.to_string(),
        6,
        Cw20HookMsg::LockCollateral { sender_chain: CHAIN, sender_address: user() },
        Err("unread".to_string()),
    );
    assert_eq!(
        locked,
        lock_collateral(&state, CHAIN, user(), "terra1bluna".to_string(), 6)
    );
}

#[test]
fn lock_collateral_refreshes_the_proxy_and_hands_the_tokens_on() {
    let state = provisioned_router();
    assert_eq!(
        lock_collateral(&state, CHAIN, user(), "terra1bluna".to_string(), 6),
        Ok(Response {
            messages: vec![
                migrate_proxy(),
                plain(CosmosMsg::Execute {
                    contract_addr: Address::Human("terra1bluna".to_string()),
                    msg: WasmPayload::Cw20(Cw20ExecuteMsg::Send {
                        contract: PROXY.to_string(),
                        amount: 6,
                        msg: HookMsg::Proxy(ProxyHook::LockCollateral {}),
                    }),
                    funds: vec![],
                }),
            ]
        })
    );
    assert_eq!(
        lock_collateral(&state, 9, user(), "terra1bluna".to_string(), 6),
        Err(RelayError::NotFound)
    );
    assert_eq!(
        migrate_address_proxy_msg(&state.config, PROXY),
        CosmosMsg::Migrate { contract_addr: PROXY.to_string(), new_code_id: 7, msg: ProxyMigrateMsg {} }
    );
}

#[test]
fn repay_hands_the_coins_on_less_the_tax() {
    let state = provisioned_router();
    assert_eq!(
        repay_stable(&state, &call(GATEWAY, vec![uusd(300, 2), uusd(1, 0)]), CHAIN, &user()),
        Ok(Response {
            messages: vec![
                migrate_proxy(),
                proxy_call(ProxyMsg::RepayStable {}, vec![uusd(300, 3), uusd(1, 1)]),
            ]
        })
    );
    assert_eq!(
        repay_stable(&state, &call("terra1stranger", vec![]), CHAIN, &user()),
        Err(RelayError::Unauthorized)
    );
    assert_eq!(
        repay_stable(&state, &call(GATEWAY, vec![]), CHAIN, &[0; 32]),
        Err(RelayError::NotFound)
    );
}

#[test]
fn unlock_collateral_is_forwarded() {
    let mut state = provisioned_router();
    let asset = || Asset { info: token("terra1bluna"), amount: 500, tax_levies: 0 };
    let result =
        unlock_collateral(&mut state, &env(), &call(GATEWAY, vec![]), CHAIN, user(), asset(), Ok(3));
    assert_eq!(
        result,
        Ok(Response {
            messages: vec![
                migrate_proxy(),
                proxy_call(ProxyMsg::UnlockCollateral { asset: asset() }, vec![]),
                forward_to_gateway(token("terra1bluna")),
            ]
        })
    );
    assert_eq!(state.forward_balances.get(b"terra1bluna"), Some(&3));
}

#[test]
fn borrow_is_forwarded_in_stable_coins() {
    let mut state = provisioned_router();
    let amount = Uint256 { high: 0, low: 77 };
    let result =
        borrow_stable(&mut state, &env(), &call(GATEWAY, vec![]), CHAIN, user(), amount, Ok(0));
    assert_eq!(
        result,
        Ok(Response {
            messages: vec![
                migrate_proxy(),
                proxy_call(ProxyMsg::BorrowStable { borrow_amount: amount }, vec![]),
                forward_to_gateway(stable()),
            ]
        })
    );
    assert_eq!(state.forward_balances.get(b"uusd"), Some(&0));
}

#[test]
fn claim_is_forwarded_in_the_reward_token() {
    let mut state = provisioned_router();
    let result = execute(
        &mut state,
        &env(),
        &call(GATEWAY, vec![uusd(4, 0)]),
        ExecuteMsg::ClaimRewards { sender_chain: CHAIN, sender_address: user() },
        Ok(9),
    );
    assert_eq!(
        result,
        Ok(Response {
            messages: vec![
                migrate_proxy(),
                proxy_call(ProxyMsg::ClaimRewards {}, vec![uusd(4, 1)]),
                forward_to_gateway(token(ANC)),
            ]
        })
    );
    assert_eq!(state.forward_balances.get(ANC.as_bytes()), Some(&9));
    assert_eq!(
        claim_rewards(&mut state, &env(), &call(GATEWAY, vec![]), 5, user(), Ok(9)),
        Err(RelayError::NotFound)
    );
    assert_eq!(
        claim_rewards(&mut state, &env(), &call("terra1stranger", vec![]), CHAIN, user(), Ok(9)),
        Err(RelayError::Unauthorized)
    );
    assert_eq!(
        claim_rewards(&mut state, &env(), &call(GATEWAY, vec![]), CHAIN, user(), Err("unread".to_string())),
        Err(RelayError::Upstream { reason: "unread".to_string() })
    );
}

#[test]
fn operations_on_an_unprovisioned_user_are_not_found() {
    let mut state = trusting_router();
    let asset = Asset { info: token("terra1bluna"), amount: 500, tax_levies: 0 };
    assert_eq!(
        unlock_collateral(&mut state, &env(), &call(GATEWAY, vec![]), CHAIN, user(), asset, Ok(3)),
        Err(RelayError::NotFound)
    );
    assert_eq!(
        borrow_stable(
            &mut state,
            &env(),
            &call(GATEWAY, vec![]),
            CHAIN,
            user(),
            Uint256 { high: 0, low: 1 },
            Ok(3)
        ),
        Err(RelayError::NotFound)
    );
    assert_eq!(state.forward_balances.len(), 0);
}

#[test]
fn governance_is_passed_on() {
    let state = provisioned_router();
    let info = call(GATEWAY, vec![]);
    let amount = Uint256 { high: 1, low: 2 };
    assert_eq!(
        stake_voting_tokens(&state, &info, CHAIN, user(), amount),
        Ok(Response {
            messages: vec![proxy_call(ProxyMsg::StakeVotingTokens { stake_amount: amount }, vec![])]
        })
    );
    assert_eq!(
        unstake_voting_tokens(&state, &info, CHAIN, user(), amount),
        Ok(Response {
            messages: vec![proxy_call(
                ProxyMsg::WithdrawVotingTokens { unstake_amount: amount },
                vec![]
            )]
        })
    );
    assert_eq!(
        cast_vote(&state, &info, CHAIN, user(), 3, VoteOption::No, 11),
        Ok(Response {
            messages: vec![proxy_call(
                ProxyMsg::CastVote { poll_id: 3, vote: VoteOption::No, amount: 11 },
                vec![]
            )]
        })
    );
    assert_eq!(
        cast_vote(&state, &call("terra1stranger", vec![]), CHAIN, user(), 3, VoteOption::Yes, 11),
        Err(RelayError::Unauthorized)
    );
    assert_eq!(
        stake_voting_tokens(&state, &info, 8, user(), amount),
        Err(RelayError::NotFound)
    );
}

#[test]
fn forwarded_asset_names_the_balance_to_read() {
    let state = fresh_router();
    let config = &state.config;
    assert_eq!(
        forwarded_asset(config, &ExecuteMsg::DepositStable { sender_chain: 1, sender_address: vec![] }),
        Some(token(ATERRA))
    );
    assert_eq!(
        forwarded_asset(config, &ExecuteMsg::ClaimRewards { sender_chain: 1, sender_address: vec![] }),
        Some(token(ANC))
    );
    assert_eq!(
        forwarded_asset(
            config,
            &ExecuteMsg::BorrowStable {
                sender_chain: 1,
                sender_address: vec![],
                borrow_amount: Uint256 { high: 0, low: 0 }
            }
        ),
        Some(stable())
    );
    assert_eq!(
        forwarded_asset(
            config,
            &ExecuteMsg::Receive {
                sender: GATEWAY.to_string(),
                amount: 1,
                msg: Cw20HookMsg::RedeemStable { sender_chain: 1, sender_address: vec![] }
            }
        ),
        Some(stable())
    );
    assert_eq!(
        forwarded_asset(
            config,
            &ExecuteMsg::Receive {
                sender: GATEWAY.to_string(),
                amount: 1,
                msg: Cw20HookMsg::LockCollateral { sender_chain: 1, sender_address: vec![] }
            }
        ),
        None
    );
    assert_eq!(
        forwarded_asset(
            config,
            &ExecuteMsg::UnlockCollateral {
                sender_chain: 1,
                sender_address: vec![],
                asset: Asset { info: token("terra1bluna"), amount: 1, tax_levies: 0 }
            }
        ),
        Some(token("terra1bluna"))
    );
    assert_eq!(
        forwarded_asset(
            config,
            &ExecuteMsg::ForwardDifferenceAndInitiateBridgeTransfer {
                asset_info: stable(),
                to: GATEWAY.to_string()
            }
        ),
        Some(stable())
    );
    assert_eq!(
        forwarded_asset(config, &ExecuteMsg::RepayStable { sender_chain: 1, sender_address: vec![] }),
        None
    );
    assert_eq!(forwarded_asset(config, &ExecuteMsg::AddBridges { bridges: vec![] }), None);
}

#[test]
fn router_migration_does_nothing() {
    assert_eq!(migrate(MigrateMsg {}), Response { messages: vec![] });
}

#[test]
fn named_user_is_the_user_of_the_call() {
    let someone = || RemoteUser { chain_id: CHAIN, address: user() };
    assert_eq!(
        named_user(&ExecuteMsg::InitializeAddressProxy { chain_id: CHAIN, address: user() }),
        Some(someone())
    );
    assert_eq!(
        named_user(&ExecuteMsg::ClaimRewards { sender_chain: CHAIN, sender_address: user() }),
        Some(someone())
    );
    assert_eq!(
        named_user(&ExecuteMsg::Receive {
            sender: GATEWAY.to_string(),
            amount: 1,
            msg: Cw20HookMsg::LockCollateral { sender_chain: CHAIN, sender_address: user() },
        }),
        Some(someone())
    );
    assert_eq!(named_user(&ExecuteMsg::AddBridges { bridges: vec![] }), None);
    assert_eq!(
        named_user(&ExecuteMsg::ForwardDifferenceAndInitiateBridgeTransfer {
            asset_info: stable(),
            to: GATEWAY.to_string(),
        }),
        None
    );
}

#[test]
fn provisioning_is_for_gateways_only() {
    let mut state = trusting_router();
    let refused =
        initialize_address_proxy(&mut state, &env(), &call("terra1stranger", vec![]), CHAIN, &user());
    assert_eq!(refused, Err(RelayError::Unauthorized));
    assert_eq!(state.current_address_proxy, None);
    assert_eq!(state.address_proxies.len(), 0);
    let by_owner = execute(
        &mut state,
        &env(),
        &call(OWNER, vec![]),
        ExecuteMsg::InitializeAddressProxy { chain_id: CHAIN, address: user() },
        Err("unread".to_string()),
    );
    assert_eq!(by_owner, Err(RelayError::Unauthorized));
    assert_eq!(state.current_address_proxy, None);
    let mut provisioned = provisioned_router();
    provisioned.current_address_proxy = None;
    let refused_again = initialize_address_proxy(
        &mut provisioned,
        &env(),
        &call("terra1stranger", vec![]),
        CHAIN,
        &user(),
    );
    assert_eq!(refused_again, Err(RelayError::Unauthorized));
    assert_eq!(provisioned.current_address_proxy, None);
    assert_eq!(provisioned.address_proxies.len(), 1);
}
