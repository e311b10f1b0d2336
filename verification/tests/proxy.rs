use crossanchor::anchor::{
    Cw20HookMsg as AnchorHook, ExecuteMsg as AnchorMsg, VoteOption, WhitelistResponse,
    WhitelistResponseElem,
};
use crossanchor::asset::{Address, Asset, AssetInfo, Coin, Uint256};
use crossanchor::cw20::{Cw20ExecuteMsg, HookMsg};
use crossanchor::error::RelayError;
use crossanchor::message::{CosmosMsg, Env, MessageInfo, ReplyOn, Response, SubMsg, WasmPayload};
use crossanchor::proxy::contract::{
    borrow_stable, cast_vote, claim_rewards, custody_token, execute, forwarded_asset, instantiate,
    lock_collateral, migrate, query, query_custody_contract, receive_cw20, repay_stable,
    stake_voting_tokens, unlock_collateral, unstake_voting_tokens, Lookup,
};
use crossanchor::proxy::msg::{Cw20HookMsg, ExecuteMsg, InstantiateMsg, MigrateMsg, QueryMsg};
use crossanchor::proxy::state::Proxy;

const ROUTER: &str = "terra1router";
const SELF: &str = "terra1proxy";
const MARKET: &str = "terra1market";
const OVERSEER: &str = "terra1overseer";
const ATERRA: &str = "terra1aust";
const ANC: &str = "terra1anc";
const GOV: &str = "terra1gov";
const BLUNA: &str = "terra1bluna";
const CUSTODY: &str = "terra1custody";

fn env() -> Env {
    Env { contract_address: SELF.to_string(), canonical_address: vec![0x7C; 20] }
}

fn call(sender: &str, funds: Vec<Coin>) -> MessageInfo {
    MessageInfo { sender: sender.to_string(), funds }
}

fn fresh_proxy() -> Proxy {
    instantiate(InstantiateMsg {
        market_address: MARKET.to_string(),
        overseer_address: OVERSEER.to_string(),
        anc_gov_address: GOV.to_string(),
        aterra_address: ATERRA.to_string(),
        anc_token: ANC.to_string(),
        core_address: ROUTER.to_string(),
        chain_id: 2,
        address: vec![1; 32],
    })
}

fn whitelist() -> Result<WhitelistResponse, String> {
    Ok(WhitelistResponse {
        elems: vec![
            WhitelistResponseElem {
                custody_contract: CUSTODY.to_string(),
                collateral_token: BLUNA.to_string(),
            },
            WhitelistResponseElem {
                custody_contract: "terra1second".to_string(),
                collateral_token: "terra1beth".to_string(),
            },
        ],
    })
}

fn nothing() -> Lookup {
    Lookup { balance: Err("unread".to_string()), whitelist: Err("unread".to_string()) }
}

fn plain(msg: CosmosMsg) -> SubMsg {
    SubMsg { id: 0, msg, reply_on: ReplyOn::Never }
}

fn anchor_call(contract: &str, msg: AnchorMsg, funds: Vec<Coin>) -> SubMsg {
    plain(CosmosMsg::Execute {
        contract_addr: Address::Human(contract.to_string()),
        msg: WasmPayload::Anchor(msg),
        funds,
    })
}

fn forward_to_router(asset_info: AssetInfo) -> SubMsg {
    plain(CosmosMsg::Execute {
        contract_addr: Address::Human(SELF.to_string()),
        msg: WasmPayload::Proxy(ExecuteMsg::ForwardDifference {
            asset_info,
            to: ROUTER.to_string(),
        }),
        funds: vec![],
    })
}

fn token(address: &str) -> AssetInfo {
    AssetInfo::Token { contract_addr: Address::Human(address.to_string()) }
}

fn stable() -> AssetInfo {
    AssetInfo::NativeToken { denom: "uusd".to_string() }
}

#[test]
fn proxy_instantiate_keeps_the_message() {
    let state = fresh_proxy();
    assert_eq!(state.config.core_address, ROUTER);
    assert_eq!(state.config.market_address, MARKET);
    assert_eq!(state.config.overseer_address, OVERSEER);
    assert_eq!(state.config.aterra_address, ATERRA);
    assert_eq!(state.config.anc_token, ANC);
    assert_eq!(state.config.anc_gov_address, GOV);
    assert_eq!(state.config.chain_id, 2);
    assert_eq!(state.config.address, vec![1; 32]);
    assert_eq!(state.forward_balances.len(), 0);
}

#[test]
fn a_proxy_takes_calls_from_the_router_and_itself_only() {
    let mut state = fresh_proxy();
    let stake = || ExecuteMsg::StakeVotingTokens { stake_amount: Uint256 { high: 0, low: 1 } };
    assert_eq!(
        execute(&mut state, &env(), &call("terra1stranger", vec![]), stake(), &nothing()),
        Err(RelayError::Unauthorized)
    );
    assert!(execute(&mut state, &env(), &call(ROUTER, vec![]), stake(), &nothing()).is_ok());
    assert!(execute(&mut state, &env(), &call(SELF, vec![]), stake(), &nothing()).is_ok());
}

#[test]
fn a_proxy_takes_tokens_that_the_router_sent_only() {
    let mut state = fresh_proxy();
    let lookup = Lookup { balance: Err("unread".to_string()), whitelist: whitelist() };
    let receive = |sender: &str| ExecuteMsg::Receive {
        sender: sender.to_string(),
        amount: 5,
        msg: Cw20HookMsg::LockCollateral {},
    };
    assert_eq!(
        execute(&mut state, &env(), &call(ROUTER, vec![]), receive("terra1stranger"), &lookup),
        Err(RelayError::Unauthorized)
    );
    assert_eq!(
        execute(&mut state, &env(), &call(BLUNA, vec![]), receive(SELF), &lookup),
        Err(RelayError::Unauthorized)
    );
    assert_eq!(
        execute(&mut state, &env(), &call(BLUNA, vec![]), receive(ROUTER), &lookup),
        lock_collateral(&state, BLUNA.to_string(), 5, &whitelist())
    );
}

#[test]
fn governance_calls_go_to_the_governance_contract() {
    let state = fresh_proxy();
    let amount = Uint256 { high: 3, low: 4 };
    assert_eq!(
        stake_voting_tokens(&state, amount),
        Response {
            messages: vec![anchor_call(
                GOV,
                AnchorMsg::StakeVotingTokens { stake_amount: amount },
                vec![]
            )]
        }
    );
    assert_eq!(
        unstake_voting_tokens(&state, amount),
        Response {
            messages: vec![anchor_call(
                GOV,
                AnchorMsg::WithdrawVotingTokens { unstake_amount: amount },
                vec![]
            )]
        }
    );
    assert_eq!(
        cast_vote(&state, 8, VoteOption::Yes, 21),
        Response {
            messages: vec![anchor_call(
                GOV,
                AnchorMsg::CastVote { poll_id: 8, vote: VoteOption::Yes, amount: 21 },
                vec![]
            )]
        }
    );
}

#[test]
fn proxy_claim_forwards_the_reward_token() {
    let mut state = fresh_proxy();
    assert_eq!(
        claim_rewards(&mut state, &env(), Ok(15)),
        Ok(Response {
            messages: vec![
                anchor_call(MARKET, AnchorMsg::ClaimRewards { to: None }, vec![]),
                forward_to_router(token(ANC)),
            ]
        })
    );
    assert_eq!(state.forward_balances.get(ANC.as_bytes()), Some(&15));
    assert_eq!(
        claim_rewards(&mut state, &env(), Err("balance query failed".to_string())),
        Err(RelayError::Upstream { reason: "balance query failed".to_string() })
    );
    assert_eq!(state.forward_balances.get(ANC.as_bytes()), Some(&15));
}

#[test]
fn proxy_borrow_forwards_stable_coins() {
    let mut state = fresh_proxy();
    let amount = Uint256 { high: 0, low: 900 };
    assert_eq!(
        borrow_stable(&mut state, &env(), amount, Ok(1)),
        Ok(Response {
            messages: vec![
                anchor_call(
                    MARKET,
                    AnchorMsg::BorrowStable { borrow_amount: amount, to: None },
                    vec![]
                ),
                forward_to_router(stable()),
            ]
        })
    );
    assert_eq!(state.forward_balances.get(b"uusd"), Some(&1));
}

#[test]
fn proxy_repay_sends_the_coins_less_the_tax() {
    let state = fresh_proxy();
    let coin = |tax_levies: u8| Coin { denom: "uusd".to_string(), amount: 60, tax_levies };
    assert_eq!(
        repay_stable(&state, &call(ROUTER, vec![coin(0)])),
        Ok(Response { messages: vec![anchor_call(MARKET, AnchorMsg::RepayStable {}, vec![coin(1)])] })
    );
    assert_eq!(repay_stable(&state, &call(ROUTER, vec![coin(255)])), Err(RelayError::Validation));
}

#[test]
fn the_custody_contract_is_the_first_that_the_overseer_names() {
    assert_eq!(query_custody_contract(&whitelist()), Ok(CUSTODY.to_string()));
    assert_eq!(
        query_custody_contract(&Ok(WhitelistResponse { elems: vec![] })),
        Err(RelayError::NotFound)
    );
    assert_eq!(
        query_custody_contract(&Err("overseer is paused".to_string())),
        Err(RelayError::Upstream { reason: "overseer is paused".to_string() })
    );
}

#[test]
fn proxy_lock_deposits_and_locks() {
    let state = fresh_proxy();
    let lookup = Lookup { balance: Err("unread".to_string()), whitelist: whitelist() };
    assert_eq!(
        receive_cw20(&state, &call(BLUNA, vec![]), 77, Cw20HookMsg::LockCollateral {}, &lookup),
        Ok(Response {
            messages: vec![
                plain(CosmosMsg::Execute {
                    contract_addr: Address::Human(BLUNA.to_string()),
                    msg: WasmPayload::Cw20(Cw20ExecuteMsg::Send {
                        contract: CUSTODY.to_string(),
                        amount: 77,
                        msg: HookMsg::Anchor(AnchorHook::DepositCollateral {}),
                    }),
                    funds: vec![],
                }),
                anchor_call(
                    OVERSEER,
                    AnchorMsg::LockCollateral {
                        collaterals: vec![(Address::Human(BLUNA.to_string()), Uint256 { high: 0, low: 77 })],
                    },
                    vec![]
                ),
            ]
        })
    );
    assert_eq!(
        lock_collateral(&state, BLUNA.to_string(), 77, &Err("unread".to_string())),
        Err(RelayError::Upstream { reason: "unread".to_string() })
    );
}

#[test]
fn proxy_unlock_withdraws_and_forwards() {
    let mut state = fresh_proxy();
    let lookup = Lookup { balance: Ok(4), whitelist: whitelist() };
    let asset = Asset { info: token(BLUNA), amount: 500, tax_levies: 0 };
    assert_eq!(
        unlock_collateral(&mut state, &env(), asset, &lookup),
        Ok(Response {
            messages: vec![
                anchor_call(
                    OVERSEER,
                    AnchorMsg::UnlockCollateral {
                        collaterals: vec![(Address::Human(BLUNA.to_string()), Uint256 { high: 0, low: 500 })],
                    },
                    vec![]
                ),
                anchor_call(
                    CUSTODY,
                    AnchorMsg::WithdrawCollateral { amount: Some(Uint256 { high: 0, low: 500 }) },
                    vec![]
                ),
                forward_to_router(token(BLUNA)),
            ]
        })
    );
    assert_eq!(state.forward_balances.get(BLUNA.as_bytes()), Some(&4));
}

#[test]
fn proxy_unlock_refusals() {
    let mut state = fresh_proxy();
    let coins = Asset { info: stable(), amount: 500, tax_levies: 0 };
    assert_eq!(
        unlock_collateral(&mut state, &env(), coins, &Lookup { balance: Ok(4), whitelist: whitelist() }),
        Err(RelayError::Validation)
    );
    let asset = || Asset { info: token(BLUNA), amount: 500, tax_levies: 0 };
    assert_eq!(
        unlock_collateral(&mut state, &env(), asset(), &Lookup { balance: Ok(4), whitelist: Err("unread".to_string()) }),
        Err(RelayError::Upstream { reason: "unread".to_string() })
    );
    assert_eq!(
        unlock_collateral(
            &mut state,
            &env(),
            asset(),
            &Lookup { balance: Ok(4), whitelist: Ok(WhitelistResponse { elems: vec![] }) }
        ),
        Err(RelayError::NotFound)
    );
    assert_eq!(
        unlock_collateral(&mut state, &env(), asset(), &Lookup { balance: Err("unread".to_string()), whitelist: whitelist() }),
        Err(RelayError::Upstream { reason: "unread".to_string() })
    );
    assert_eq!(state.forward_balances.len(), 0);
}

#[test]
fn proxy_forwards_to_the_router_without_a_relay() {
    let mut state = fresh_proxy();
    claim_rewards(&mut state, &env(), Ok(15)).unwrap();
    let result = execute(
        &mut state,
        &env(),
        &call(SELF, vec![]),
        ExecuteMsg::ForwardDifference { asset_info: token(ANC), to: ROUTER.to_string() },
        &Lookup { balance: Ok(40), whitelist: Err("unread".to_string()) },
    );
    assert_eq!(
        result,
        Ok(Response {
            messages: vec![plain(CosmosMsg::Transfer {
                asset: Asset { info: token(ANC), amount: 25, tax_levies: 0 },
                recipient: ROUTER.to_string(),
            })]
        })
    );
    let from_router = execute(
        &mut state,
        &env(),
        &call(ROUTER, vec![]),
        ExecuteMsg::ForwardDifference { asset_info: token(ANC), to: ROUTER.to_string() },
        &Lookup { balance: Ok(40), whitelist: Err("unread".to_string()) },
    );
    assert_eq!(from_router, Err(RelayError::Unauthorized));
}

#[test]
fn proxy_planning_names_what_to_look_up() {
    let state = fresh_proxy();
    let info = call(BLUNA, vec![]);
    let unlock = ExecuteMsg::UnlockCollateral {
        asset: Asset { info: token(BLUNA), amount: 1, tax_levies: 0 },
    };
    let receive = ExecuteMsg::Receive {
        sender: ROUTER.to_string(),
        amount: 1,
        msg: Cw20HookMsg::LockCollateral {},
    };
    assert_eq!(forwarded_asset(&state.config, &unlock), Some(token(BLUNA)));
    assert_eq!(forwarded_asset(&state.config, &ExecuteMsg::ClaimRewards {}), Some(token(ANC)));
    assert_eq!(
        forwarded_asset(
            &state.config,
            &ExecuteMsg::BorrowStable { borrow_amount: Uint256 { high: 0, low: 0 } }
        ),
        Some(stable())
    );
    assert_eq!(forwarded_asset(&state.config, &receive), None);
    assert_eq!(forwarded_asset(&state.config, &ExecuteMsg::RepayStable {}), None);
    assert_eq!(custody_token(&info, &unlock), Some(Address::Human(BLUNA.to_string())));
    assert_eq!(custody_token(&info, &receive), Some(Address::Human(BLUNA.to_string())));
    assert_eq!(custody_token(&info, &ExecuteMsg::ClaimRewards {}), None);
    assert_eq!(
        custody_token(
            &info,
            &ExecuteMsg::UnlockCollateral {
                asset: Asset { info: stable(), amount: 1, tax_levies: 0 }
            }
        ),
        None
    );
}

#[test]
fn a_proxy_answers_nothing_and_migrates_to_nothing() {
    assert_eq!(query(QueryMsg::Empty {}), Vec::<u8>::new());
    assert_eq!(migrate(MigrateMsg {}), Response { messages: vec![] });
}
