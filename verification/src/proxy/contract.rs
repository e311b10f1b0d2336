//! A proxy's entry points.
//!
//! A proxy takes calls from the router and from itself only. It hands each
//! operation to the money market in its own name, and forwards what the
//! operation pays out to the router. What it has to ask of the chain is asked
//! before the call, and the answers are handed in as a [`Lookup`].

use crate::anchor::{whitelist_answer_view, VoteOption, WhitelistResponse, WhitelistResponseView};
use crate::anchor;
use crate::asset::{coins_view, no_coins, Address, Asset, AssetInfo, Coin, Uint256};
use crate::common::{coins_after_tax, forward_difference, forward_difference_msg};
use crate::cw20::{Cw20ExecuteMsg, HookMsg};
use crate::error::RelayError;
use crate::message::{plain, CosmosMsg, Env, MessageInfo, Response, ResponseView, WasmPayload};
use crate::proxy::model::{
    anchor_call, custody_contract_spec, custody_token_spec, forwarded_asset_spec, widen,
};
use crate::proxy::msg::{Cw20HookMsg, ExecuteMsg, InstantiateMsg, MigrateMsg, QueryMsg};
use crate::proxy::state::{Config, ConfigView, Proxy, ProxyView};
use crate::store::Store;
use vstd::prelude::*;
use vstd::string::StringExecFns;

verus! {

/// What the chain answered for one call.
#[derive(Debug, PartialEq, Eq)]
pub struct Lookup {
    /// The proxy's balance now of the asset that the call forwards, or the
    /// reason for which it could not be read.
    pub balance: Result<u128, String>,
    /// The overseer's answer on the collateral that the call moves, or the
    /// reason for which it gave none.
    pub whitelist: Result<WhitelistResponse, String>,
}

/// What a [`Lookup`] holds, as mathematical values.
pub struct LookupView {
    pub balance: Result<u128, String>,
    pub whitelist: Result<WhitelistResponseView, String>,
}

impl View for Lookup {
    type V = LookupView;

    open spec fn view(&self) -> LookupView {
        LookupView { balance: self.balance, whitelist: whitelist_answer_view(self.whitelist) }
    }
}

/// A proxy for the remote user that the message names.
pub fn instantiate(msg: InstantiateMsg) -> (state: Proxy)
    ensures
        state@ == (ProxyView {
            config: ConfigView {
                core_address: msg.core_address@,
                market_address: msg.market_address@,
                overseer_address: msg.overseer_address@,
                aterra_address: msg.aterra_address@,
                anc_token: msg.anc_token@,
                anc_gov_address: msg.anc_gov_address@,
                chain_id: msg.chain_id,
                address: msg.address@,
            },
            forward_balances: Map::empty(),
        }),
{
    Proxy {
        config: Config {
            core_address: msg.core_address,
            market_address: msg.market_address,
            overseer_address: msg.overseer_address,
            aterra_address: msg.aterra_address,
            anc_token: msg.anc_token,
            anc_gov_address: msg.anc_gov_address,
            chain_id: msg.chain_id,
            address: msg.address,
        },
        forward_balances: Store::new(),
    }
}

/// The asset whose balance `execute` wants to be handed for `msg`, if any.
pub fn forwarded_asset(config: &Config, msg: &ExecuteMsg) -> (asset: Option<AssetInfo>)
    ensures
        match asset {
            Some(a) => forwarded_asset_spec(config@, msg@) == Some(a@),
            None => forwarded_asset_spec(config@, msg@) is None,
        },
{
    match msg {
        ExecuteMsg::UnlockCollateral { asset } => Some(asset.info.clone()),
        ExecuteMsg::BorrowStable { .. } => Some(
            AssetInfo::NativeToken { denom: String::from_str("uusd") },
        ),
        ExecuteMsg::ClaimRewards {  } => Some(
            AssetInfo::Token { contract_addr: Address::Human(config.anc_token.clone()) },
        ),
        ExecuteMsg::ForwardDifference { asset_info, .. } => Some(asset_info.clone()),
        _ => None,
    }
}

/// The collateral on which `execute` wants the overseer's answer for `msg`, if any.
pub fn custody_token(info: &MessageInfo, msg: &ExecuteMsg) -> (token: Option<Address>)
    ensures
        match token {
            Some(t) => custody_token_spec(info.sender@, msg@) == Some(t@),
            None => custody_token_spec(info.sender@, msg@) is None,
        },
{
    match msg {
        ExecuteMsg::Receive { .. } => Some(Address::Human(info.sender.clone())),
        ExecuteMsg::UnlockCollateral { asset } => match &asset.info {
            AssetInfo::Token { contract_addr } => Some(contract_addr.clone()),
            AssetInfo::NativeToken { .. } => None,
        },
        _ => None,
    }
}

fn balance_of(lookup: &Lookup) -> (balance: Result<u128, String>)
    ensures
        balance == lookup.balance,
{
    match &lookup.balance {
        Ok(amount) => Ok(*amount),
        Err(reason) => Err(reason.clone()),
    }
}

fn call_anchor(contract: String, msg: anchor::ExecuteMsg, funds: Vec<Coin>) -> (message: CosmosMsg)
    ensures
        message@ == anchor_call(contract@, msg@, coins_view(funds@)),
{
    CosmosMsg::Execute {
        contract_addr: Address::Human(contract),
        msg: WasmPayload::Anchor(msg),
        funds,
    }
}

fn one_collateral(token: Address, amount: u128) -> (list: Vec<(Address, Uint256)>)
    ensures
        anchor::collaterals_view(list@) == seq![(token@, widen(amount))],
{
    let mut list: Vec<(Address, Uint256)> = Vec::new();
    list.push((token, Uint256 { high: 0, low: amount }));
    assert(anchor::collaterals_view(list@) =~= seq![(token@, widen(amount))]);
    list
}

fn finish_with_forward(
    state: &mut Proxy,
    env: &Env,
    response: Response,
    asset_info: AssetInfo,
    balance: Result<u128, String>,
) -> (result: Result<Response, RelayError>)
    ensures
        match result {
            Ok(r) => old(state)@.forwarding(
                env.contract_address@,
                response@.messages,
                asset_info@,
                balance,
            ) == Ok::<(ProxyView, ResponseView), RelayError>((final(state)@, r@)),
            Err(e) => old(state)@.forwarding(
                env.contract_address@,
                response@.messages,
                asset_info@,
                balance,
            ) == Err::<(ProxyView, ResponseView), RelayError>(e) && final(state)@ == old(state)@,
        },
{
    let mut response = response;
    let to = state.config.core_address.clone();
    match forward_difference_msg(&mut state.forward_balances, env, asset_info, to, false, balance) {
        Ok(message) => {
            response.add_message(message);
            Ok(response)
        },
        Err(e) => Err(e),
    }
}

fn governance(state: &Proxy, msg: anchor::ExecuteMsg) -> (response: Response)
    ensures
        response@ == state@.governance(msg@),
{
    let mut response = Response::new();
    response.add_message(call_anchor(state.config.anc_gov_address.clone(), msg, no_coins()));
    assert(response@.messages =~= state@.governance(msg@).messages);
    response
}

/// Runs a call.
pub fn execute(state: &mut Proxy, env: &Env, info: &MessageInfo, msg: ExecuteMsg, lookup: &Lookup) -> (
    result: Result<Response, RelayError>)
    ensures
        match result {
            Ok(r) => old(state)@.execute(
                env.contract_address@,
                info.sender@,
                coins_view(info.funds@),
                msg@,
                lookup@,
            ) == Ok::<(ProxyView, ResponseView), RelayError>((final(state)@, r@)),
            Err(e) => old(state)@.execute(
                env.contract_address@,
                info.sender@,
                coins_view(info.funds@),
                msg@,
                lookup@,
            ) == Err::<(ProxyView, ResponseView), RelayError>(e) && final(state)@ == old(state)@,
        },
{
    let authorized = match &msg {
        ExecuteMsg::Receive { sender, .. } => *sender == state.config.core_address,
        _ => info.sender == state.config.core_address || info.sender == env.contract_address,
    };
    if !authorized {
        return Err(RelayError::Unauthorized);
    }
    match msg {
        ExecuteMsg::Receive { sender, amount, msg } => receive_cw20(state, info, amount, msg, lookup),
        ExecuteMsg::RepayStable {  } => repay_stable(state, info),
        ExecuteMsg::UnlockCollateral { asset } => unlock_collateral(state, env, asset, lookup),
        ExecuteMsg::BorrowStable { borrow_amount } => borrow_stable(
            state,
            env,
            borrow_amount,
            balance_of(lookup),
        ),
        ExecuteMsg::ClaimRewards {  } => claim_rewards(state, env, balance_of(lookup)),
        ExecuteMsg::ForwardDifference { asset_info, to } => forward_difference(
            &mut state.forward_balances,
            env,
            info,
            asset_info,
            to,
            false,
            balance_of(lookup),
        ),
        ExecuteMsg::StakeVotingTokens { stake_amount } => Ok(stake_voting_tokens(state, stake_amount)),
        ExecuteMsg::WithdrawVotingTokens { unstake_amount } => Ok(
            unstake_voting_tokens(state, unstake_amount),
        ),
        ExecuteMsg::CastVote { poll_id, vote, amount } => Ok(cast_vote(state, poll_id, vote, amount)),
    }
}

/// Stakes governance tokens.
pub fn stake_voting_tokens(state: &Proxy, stake_amount: Uint256) -> (response: Response)
    ensures
        response@ == state@.governance(anchor::ExecuteMsgView::StakeVotingTokens { stake_amount }),
{
    governance(state, anchor::ExecuteMsg::StakeVotingTokens { stake_amount })
}

/// Withdraws staked governance tokens.
pub fn unstake_voting_tokens(state: &Proxy, unstake_amount: Uint256) -> (response: Response)
    ensures
        response@ == state@.governance(
            anchor::ExecuteMsgView::WithdrawVotingTokens { unstake_amount },
        ),
{
    governance(state, anchor::ExecuteMsg::WithdrawVotingTokens { unstake_amount })
}

/// Votes on a poll.
pub fn cast_vote(state: &Proxy, poll_id: u64, vote: VoteOption, amount: u128) -> (response: Response)
    ensures
        response@ == state@.governance(anchor::ExecuteMsgView::CastVote { poll_id, vote, amount }),
{
    governance(state, anchor::ExecuteMsg::CastVote { poll_id, vote, amount })
}

/// Claims the rewards of the position, and forwards them. `balance` is the
/// proxy's balance of the reward token now.
pub fn claim_rewards(state: &mut Proxy, env: &Env, balance: Result<u128, String>) -> (result: Result<
    Response,
    RelayError,
>)
    ensures
        match result {
            Ok(r) => old(state)@.claim_rewards(env.contract_address@, balance) == Ok::<
                (ProxyView, ResponseView),
                RelayError,
            >((final(state)@, r@)),
            Err(e) => old(state)@.claim_rewards(env.contract_address@, balance) == Err::<
                (ProxyView, ResponseView),
                RelayError,
            >(e) && final(state)@ == old(state)@,
        },
{
    let mut response = Response::new();
    response.add_message(
        call_anchor(
            state.config.market_address.clone(),
            anchor::ExecuteMsg::ClaimRewards { to: None },
            no_coins(),
        ),
    );
    assert(response@.messages =~= seq![
        plain(
            anchor_call(
                old(state)@.config.market_address,
                anchor::ExecuteMsgView::ClaimRewards { to: None },
                Seq::empty(),
            ),
        ),
    ]);
    let reward = AssetInfo::Token { contract_addr: Address::Human(state.config.anc_token.clone()) };
    finish_with_forward(state, env, response, reward, balance)
}

/// Borrows stable coins, and forwards them. `balance` is the proxy's balance
/// of stable coins now.
pub fn borrow_stable(
    state: &mut Proxy,
    env: &Env,
    borrow_amount: Uint256,
    balance: Result<u128, String>,
) -> (result: Result<Response, RelayError>)
    ensures
        match result {
            Ok(r) => old(state)@.borrow_stable(env.contract_address@, borrow_amount, balance) == Ok::<
                (ProxyView, ResponseView),
                RelayError,
            >((final(state)@, r@)),
            Err(e) => old(state)@.borrow_stable(env.contract_address@, borrow_amount, balance)
                == Err::<(ProxyView, ResponseView), RelayError>(e) && final(state)@ == old(state)@,
        },
{
    let mut response = Response::new();
    response.add_message(
        call_anchor(
            state.config.market_address.clone(),
            anchor::ExecuteMsg::BorrowStable { borrow_amount, to: None },
            no_coins(),
        ),
    );
    assert(response@.messages =~= seq![
        plain(
            anchor_call(
                old(state)@.config.market_address,
                anchor::ExecuteMsgView::BorrowStable { borrow_amount, to: None },
                Seq::empty(),
            ),
        ),
    ]);
    finish_with_forward(
        state,
        env,
        response,
        AssetInfo::NativeToken { denom: String::from_str("uusd") },
        balance,
    )
}

/// Repays with the coins that came with the call.
pub fn repay_stable(state: &Proxy, info: &MessageInfo) -> (result: Result<Response, RelayError>)
    ensures
        match result {
            Ok(r) => state@.repay_stable(coins_view(info.funds@)) == Ok::<ResponseView, RelayError>(
                r@,
            ),
            Err(e) => state@.repay_stable(coins_view(info.funds@)) == Err::<
                ResponseView,
                RelayError,
            >(e),
        },
{
    let funds = match coins_after_tax(&info.funds) {
        Ok(funds) => funds,
        Err(e) => {
            return Err(e);
        },
    };
    let mut response = Response::new();
    response.add_message(
        call_anchor(state.config.market_address.clone(), anchor::ExecuteMsg::RepayStable {  }, funds),
    );
    assert(response@.messages =~= state@.repay_stable(coins_view(info.funds@))->Ok_0.messages);
    Ok(response)
}

/// Takes in tokens that have arrived: collateral to lock.
pub fn receive_cw20(
    state: &Proxy,
    info: &MessageInfo,
    amount: u128,
    msg: Cw20HookMsg,
    lookup: &Lookup,
) -> (result: Result<Response, RelayError>)
    ensures
        match result {
            Ok(r) => state@.lock_collateral(info.sender@, amount, lookup@.whitelist) == Ok::<
                ResponseView,
                RelayError,
            >(r@),
            Err(e) => state@.lock_collateral(info.sender@, amount, lookup@.whitelist) == Err::<
                ResponseView,
                RelayError,
            >(e),
        },
{
    match msg {
        Cw20HookMsg::LockCollateral {  } => lock_collateral(
            state,
            info.sender.clone(),
            amount,
            &lookup.whitelist,
        ),
    }
}

/// The custody contract of a collateral, from the overseer's answer.
pub fn query_custody_contract(whitelist: &Result<WhitelistResponse, String>) -> (custody: Result<
    String,
    RelayError,
>)
    ensures
        match custody {
            Ok(c) => custody_contract_spec(whitelist_answer_view(*whitelist)) == Ok::<
                Seq<char>,
                RelayError,
            >(c@),
            Err(e) => custody_contract_spec(whitelist_answer_view(*whitelist)) == Err::<
                Seq<char>,
                RelayError,
            >(e),
        },
{
    match whitelist {
        Err(reason) => Err(RelayError::Upstream { reason: reason.clone() }),
        Ok(answer) => {
            if answer.elems.len() == 0 {
                Err(RelayError::NotFound)
            } else {
                Ok(answer.elems[0].custody_contract.clone())
            }
        },
    }
}

/// Deposits collateral with its custody contract and locks it.
pub fn lock_collateral(
    state: &Proxy,
    collateral_token: String,
    amount: u128,
    whitelist: &Result<WhitelistResponse, String>,
) -> (result: Result<Response, RelayError>)
    ensures
        match result {
            Ok(r) => state@.lock_collateral(
                collateral_token@,
                amount,
                whitelist_answer_view(*whitelist),
            ) == Ok::<ResponseView, RelayError>(r@),
            Err(e) => state@.lock_collateral(
                collateral_token@,
                amount,
                whitelist_answer_view(*whitelist),
            ) == Err::<ResponseView, RelayError>(e),
        },
{
    let custody = match query_custody_contract(whitelist) {
        Ok(custody) => custody,
        Err(e) => {
            return Err(e);
        },
    };
    let mut response = Response::new();
    response.add_message(
        CosmosMsg::Execute {
            contract_addr: Address::Human(collateral_token.clone()),
            msg: WasmPayload::Cw20(
                Cw20ExecuteMsg::Send {
                    contract: custody,
                    amount,
                    msg: HookMsg::Anchor(anchor::Cw20HookMsg::DepositCollateral {  }),
                },
            ),
            funds: no_coins(),
        },
    );
    response.add_message(
        call_anchor(
            state.config.overseer_address.clone(),
            anchor::ExecuteMsg::LockCollateral {
                collaterals: one_collateral(Address::Human(collateral_token), amount),
            },
            no_coins(),
        ),
    );
    assert(response@.messages =~= state@.lock_collateral(
        collateral_token@,
        amount,
        whitelist_answer_view(*whitelist),
    )->Ok_0.messages);
    Ok(response)
}

/// Unlocks collateral, withdraws it, and forwards it.
pub fn unlock_collateral(state: &mut Proxy, env: &Env, asset: Asset, lookup: &Lookup) -> (result:
    Result<Response, RelayError>)
    ensures
        match result {
            Ok(r) => old(state)@.unlock_collateral(env.contract_address@, asset@, lookup@) == Ok::<
                (ProxyView, ResponseView),
                RelayError,
            >((final(state)@, r@)),
            Err(e) => old(state)@.unlock_collateral(env.contract_address@, asset@, lookup@) == Err::<
                (ProxyView, ResponseView),
                RelayError,
            >(e) && final(state)@ == old(state)@,
        },
{
    let collateral_token = match &asset.info {
        AssetInfo::Token { contract_addr } => contract_addr.clone(),
        AssetInfo::NativeToken { .. } => {
            return Err(RelayError::Validation);
        },
    };
    let amount = asset.amount;
    let custody = match query_custody_contract(&lookup.whitelist) {
        Ok(custody) => custody,
        Err(e) => {
            return Err(e);
        },
    };
    let mut response = Response::new();
    response.add_message(
        call_anchor(
            state.config.overseer_address.clone(),
            anchor::ExecuteMsg::UnlockCollateral {
                collaterals: one_collateral(collateral_token, amount),
            },
            no_coins(),
        ),
    );
    response.add_message(
        call_anchor(
            custody,
            anchor::ExecuteMsg::WithdrawCollateral {
                amount: Some(Uint256 { high: 0, low: amount }),
            },
            no_coins(),
        ),
    );
    assert(response@.messages =~= seq![
        plain(
            anchor_call(
                old(state)@.config.overseer_address,
                anchor::ExecuteMsgView::UnlockCollateral {
                    collaterals: seq![(collateral_token@, widen(amount))],
                },
                Seq::empty(),
            ),
        ),
        plain(
            anchor_call(
                custody@,
                anchor::ExecuteMsgView::WithdrawCollateral { amount: Some(widen(amount)) },
                Seq::empty(),
            ),
        ),
    ]);
    finish_with_forward(state, env, response, asset.info, balance_of(lookup))
}

/// Answers a question: a proxy has nothing to tell.
pub fn query(msg: QueryMsg) -> (answer: Vec<u8>)
    ensures
        answer@ == Seq::<u8>::empty(),
{
    Vec::new()
}

/// Moves the proxy to new code: nothing is to be done.
pub fn migrate(msg: MigrateMsg) -> (response: Response)
    ensures
        response@ == ResponseView::empty(),
{
    Response::new()
}

} // verus!
