//! The router's entry points.
//!
//! A call that is rejected leaves the state as it was. Where a call forwards
//! what an operation pays out, the router's balance of the asset at the time
//! of the call is handed in as `balance`; [`forwarded_asset`] says which asset
//! that is.

use crate::anchor::{DistributorConfigResponse, MarketConfigResponse, OverseerConfigResponse};
use crate::asset::{coins_view, no_coins, text_option_view, texts_view, Address, AssetInfo};
use crate::byte_utils::clone_bytes;
use crate::common::forward_difference;
use crate::error::RelayError;
use crate::message::{
    CosmosMsg, Env, MessageInfo, Reply, ReplyOn, ReplyResult, Response, ResponseView, SubMsg,
};
use crate::proxy;
use crate::router::borrows::{
    borrow_stable, claim_rewards, lock_collateral, repay_stable, unlock_collateral,
};
use crate::router::deposits::{deposit_stable, redeem_stable};
use crate::router::gov::{cast_vote, stake_voting_tokens, unstake_voting_tokens};
use crate::router::helpers::check_whitelisted;
use crate::router::model::{
    forwarded_asset_spec, instantiate_proxy_message, named_user_spec, with_bridges,
};
use crate::router::msg::{Cw20HookMsg, ExecuteMsg, InstantiateMsg, MigrateMsg, QueryMsg};
use crate::router::state::{
    bridge_key, proxy_key, Config, ConfigView, RemoteUser, Router, RouterView,
};
use crate::store::Store;
use vstd::prelude::*;
use vstd::string::StringExecFns;

verus! {

/// The id under which the router hears that a proxy has been made.
pub const INSTANTIATE_REPLY_ID: u64 = 0;

/// The error of the `protobuf` crate.
#[verifier::external_type_specification]
#[verifier::external_body]
pub struct ExProtobufError(protobuf::ProtobufError);

/// The address that the chain's report on a creation names: what the
/// `protobuf` crate reads as the text in field 1 of `data`, a message with a
/// text in field 1 and bytes in field 2; or nothing, where the crate refuses
/// `data`.
pub uninterp spec fn instantiate_response_address(data: Seq<u8>) -> Option<Seq<char>>;

/// `Message::parse_from_bytes` of the `protobuf` crate, on the message type
/// `Any`, which has the report's layout: a text in field 1 and bytes in field
/// 2. The result is the text that the crate read in field 1.
#[verifier::external_body]
fn parse_instantiate_response(data: &[u8]) -> (parsed: Result<String, protobuf::ProtobufError>)
    ensures
        match parsed {
            Ok(address) => instantiate_response_address(data@) == Some(address@),
            Err(_) => instantiate_response_address(data@) is None,
        },
{
    let report: protobuf::well_known_types::Any = protobuf::Message::parse_from_bytes(data)?;
    Ok(report.type_url)
}

/// A router with no proxy, no trusted gateway and no balance recorded. The
/// three answers are those of the overseer that the message names, of the
/// market that the overseer names, and of the distributor that the market names.
pub fn instantiate(
    msg: InstantiateMsg,
    overseer_config: OverseerConfigResponse,
    market_config: MarketConfigResponse,
    distributor_config: DistributorConfigResponse,
) -> (state: Router)
    ensures
        state@ == (RouterView {
            config: ConfigView {
                owner: msg.owner@,
                address_proxy_code_id: msg.address_proxy_code_id,
                market_address: overseer_config.market_contract@,
                overseer_address: msg.overseer_address@,
                aterra_address: market_config.aterra_contract@,
                anc_token: distributor_config.anchor_token@,
                anc_gov_address: msg.anc_gov_address@,
            },
            current_address_proxy: None,
            whitelisted_bridges: Map::empty(),
            address_proxies: Map::empty(),
            forward_balances: Map::empty(),
        }),
{
    Router {
        config: Config {
            owner: msg.owner,
            address_proxy_code_id: msg.address_proxy_code_id,
            market_address: overseer_config.market_contract,
            overseer_address: msg.overseer_address,
            aterra_address: market_config.aterra_contract,
            anc_token: distributor_config.anchor_token,
            anc_gov_address: msg.anc_gov_address,
        },
        current_address_proxy: None,
        whitelisted_bridges: Store::new(),
        address_proxies: Store::new(),
        forward_balances: Store::new(),
    }
}

/// The asset whose balance `execute` wants to be handed for `msg`, if any.
pub fn forwarded_asset(config: &Config, msg: &ExecuteMsg) -> (asset: Option<AssetInfo>)
    ensures
        match asset {
            Some(a) => forwarded_asset_spec(config@, msg@) == Some(a@),
            None => forwarded_asset_spec(config@, msg@) is None,
        },
{
    match msg {
        ExecuteMsg::DepositStable { .. } => Some(
            AssetInfo::Token { contract_addr: Address::Human(config.aterra_address.clone()) },
        ),
        ExecuteMsg::Receive { msg: Cw20HookMsg::RedeemStable { .. }, .. } => Some(
            AssetInfo::NativeToken { denom: String::from_str("uusd") },
        ),
        ExecuteMsg::UnlockCollateral { asset, .. } => Some(asset.info.clone()),
        ExecuteMsg::BorrowStable { .. } => Some(
            AssetInfo::NativeToken { denom: String::from_str("uusd") },
        ),
        ExecuteMsg::ClaimRewards { .. } => Some(
            AssetInfo::Token { contract_addr: Address::Human(config.anc_token.clone()) },
        ),
        ExecuteMsg::ForwardDifferenceAndInitiateBridgeTransfer { asset_info, .. } => Some(
            asset_info.clone(),
        ),
        _ => None,
    }
}

/// The user in whose name a call is made, if it is made in one's name.
pub fn named_user(msg: &ExecuteMsg) -> (user: Option<RemoteUser>)
    ensures
        match user {
            Some(u) => named_user_spec(msg@) == Some(u@),
            None => named_user_spec(msg@) is None,
        },
{
    match msg {
        ExecuteMsg::InitializeAddressProxy { chain_id, address } => Some(
            RemoteUser { chain_id: *chain_id, address: clone_bytes(address) },
        ),
        ExecuteMsg::Receive {
            msg: Cw20HookMsg::RedeemStable { sender_chain, sender_address },
            ..
        } => Some(RemoteUser { chain_id: *sender_chain, address: clone_bytes(sender_address) }),
        ExecuteMsg::Receive {
            msg: Cw20HookMsg::LockCollateral { sender_chain, sender_address },
            ..
        } => Some(RemoteUser { chain_id: *sender_chain, address: clone_bytes(sender_address) }),
        ExecuteMsg::DepositStable { sender_chain, sender_address } => Some(
            RemoteUser { chain_id: *sender_chain, address: clone_bytes(sender_address) },
        ),
        ExecuteMsg::RepayStable { sender_chain, sender_address } => Some(
            RemoteUser { chain_id: *sender_chain, address: clone_bytes(sender_address) },
        ),
        ExecuteMsg::UnlockCollateral { sender_chain, sender_address, .. } => Some(
            RemoteUser { chain_id: *sender_chain, address: clone_bytes(sender_address) },
        ),
        ExecuteMsg::BorrowStable { sender_chain, sender_address, .. } => Some(
            RemoteUser { chain_id: *sender_chain, address: clone_bytes(sender_address) },
        ),
        ExecuteMsg::ClaimRewards { sender_chain, sender_address } => Some(
            RemoteUser { chain_id: *sender_chain, address: clone_bytes(sender_address) },
        ),
        ExecuteMsg::StakeVotingTokens { sender_chain, sender_address, .. } => Some(
            RemoteUser { chain_id: *sender_chain, address: clone_bytes(sender_address) },
        ),
        ExecuteMsg::WithdrawVotingTokens { sender_chain, sender_address, .. } => Some(
            RemoteUser { chain_id: *sender_chain, address: clone_bytes(sender_address) },
        ),
        ExecuteMsg::CastVote { sender_chain, sender_address, .. } => Some(
            RemoteUser { chain_id: *sender_chain, address: clone_bytes(sender_address) },
        ),
        _ => None,
    }
}

/// Runs a call.
pub fn execute(
    state: &mut Router,
    env: &Env,
    info: &MessageInfo,
    msg: ExecuteMsg,
    balance: Result<u128, String>,
) -> (result: Result<Response, RelayError>)
    ensures
        match result {
            Ok(r) => old(state)@.execute(
                env.contract_address@,
                info.sender@,
                coins_view(info.funds@),
                msg@,
                balance,
            ) == Ok::<(RouterView, ResponseView), RelayError>((final(state)@, r@)),
            Err(e) => old(state)@.execute(
                env.contract_address@,
                info.sender@,
                coins_view(info.funds@),
                msg@,
                balance,
            ) == Err::<(RouterView, ResponseView), RelayError>(e) && final(state)@ == old(state)@,
        },
{
    match msg {
        ExecuteMsg::Receive { sender, amount, msg } => receive_cw20(
            state,
            env,
            info,
            sender,
            amount,
            msg,
            balance,
        ),
        ExecuteMsg::InitializeAddressProxy { chain_id, address } => initialize_address_proxy(
            state,
            env,
            info,
            chain_id,
            address.as_slice(),
        ),
        ExecuteMsg::DepositStable { .. } => deposit_stable(state, env, info, balance),
        ExecuteMsg::RepayStable { sender_chain, sender_address } => repay_stable(
            state,
            info,
            sender_chain,
            sender_address.as_slice(),
        ),
        ExecuteMsg::UnlockCollateral { sender_chain, sender_address, asset } => unlock_collateral(
            state,
            env,
            info,
            sender_chain,
            sender_address,
            asset,
            balance,
        ),
        ExecuteMsg::BorrowStable { sender_chain, sender_address, borrow_amount } => borrow_stable(
            state,
            env,
            info,
            sender_chain,
            sender_address,
            borrow_amount,
            balance,
        ),
        ExecuteMsg::ClaimRewards { sender_chain, sender_address } => claim_rewards(
            state,
            env,
            info,
            sender_chain,
            sender_address,
            balance,
        ),
        ExecuteMsg::AddBridges { bridges } => add_bridges(state, info, &bridges),
        ExecuteMsg::ForwardDifferenceAndInitiateBridgeTransfer { asset_info, to } => {
            forward_difference(
                &mut state.forward_balances,
                env,
                info,
                asset_info,
                to,
                true,
                balance,
            )
        },
        ExecuteMsg::UpdateConfig { owner, address_proxy_code_id } => update_config(
            state,
            info,
            owner,
            address_proxy_code_id,
        ),
        ExecuteMsg::StakeVotingTokens { sender_chain, sender_address, stake_amount } => {
            stake_voting_tokens(state, info, sender_chain, sender_address, stake_amount)
        },
        ExecuteMsg::WithdrawVotingTokens { sender_chain, sender_address, unstake_amount } => {
            unstake_voting_tokens(state, info, sender_chain, sender_address, unstake_amount)
        },
        ExecuteMsg::CastVote { sender_chain, sender_address, poll_id, vote, amount } => cast_vote(
            state,
            info,
            sender_chain,
            sender_address,
            poll_id,
            vote,
            amount,
        ),
    }
}

/// Changes the owner, the code of the proxies, or both. Owner only.
pub fn update_config(
    state: &mut Router,
    info: &MessageInfo,
    owner: Option<String>,
    address_proxy_code_id: Option<u64>,
) -> (result: Result<Response, RelayError>)
    ensures
        match result {
            Ok(r) => old(state)@.update_config(
                info.sender@,
                text_option_view(owner),
                address_proxy_code_id,
            ) == Ok::<(RouterView, ResponseView), RelayError>((final(state)@, r@)),
            Err(e) => old(state)@.update_config(
                info.sender@,
                text_option_view(owner),
                address_proxy_code_id,
            ) == Err::<(RouterView, ResponseView), RelayError>(e) && final(state)@ == old(state)@,
        },
{
    if state.config.owner != info.sender {
        return Err(RelayError::Unauthorized);
    }
    match owner {
        Some(new_owner) => {
            state.config.owner = new_owner;
        },
        None => {},
    }
    match address_proxy_code_id {
        Some(id) => {
            state.config.address_proxy_code_id = id;
        },
        None => {},
    }
    Ok(Response::new())
}

/// Takes in tokens that have arrived. `balance` is the router's balance of
/// stable coins now, for a redemption.
pub fn receive_cw20(
    state: &mut Router,
    env: &Env,
    info: &MessageInfo,
    sender: String,
    amount: u128,
    msg: Cw20HookMsg,
    balance: Result<u128, String>,
) -> (result: Result<Response, RelayError>)
    ensures
        match result {
            Ok(r) => old(state)@.receive_cw20(
                env.contract_address@,
                info.sender@,
                sender@,
                amount,
                msg@,
                balance,
            ) == Ok::<(RouterView, ResponseView), RelayError>((final(state)@, r@)),
            Err(e) => old(state)@.receive_cw20(
                env.contract_address@,
                info.sender@,
                sender@,
                amount,
                msg@,
                balance,
            ) == Err::<(RouterView, ResponseView), RelayError>(e) && final(state)@ == old(state)@,
        },
{
    match check_whitelisted(&state.whitelisted_bridges, sender.as_str()) {
        Ok(_) => {},
        Err(e) => {
            return Err(e);
        },
    }
    match msg {
        Cw20HookMsg::LockCollateral { sender_chain, sender_address } => lock_collateral(
            state,
            sender_chain,
            sender_address,
            info.sender.clone(),
            amount,
        ),
        Cw20HookMsg::RedeemStable { .. } => redeem_stable(
            state,
            env,
            sender,
            info.sender.clone(),
            amount,
            balance,
        ),
    }
}

/// Names gateways to trust. Owner only.
pub fn add_bridges(state: &mut Router, info: &MessageInfo, bridges: &Vec<String>) -> (result:
    Result<Response, RelayError>)
    ensures
        match result {
            Ok(r) => old(state)@.add_bridges(info.sender@, texts_view(bridges@)) == Ok::<
                (RouterView, ResponseView),
                RelayError,
            >((final(state)@, r@)),
            Err(e) => old(state)@.add_bridges(info.sender@, texts_view(bridges@)) == Err::<
                (RouterView, ResponseView),
                RelayError,
            >(e) && final(state)@ == old(state)@,
        },
{
    if state.config.owner != info.sender {
        return Err(RelayError::Unauthorized);
    }
    let mut i: usize = 0;
    assert(texts_view(bridges@).take(0) =~= Seq::<Seq<char>>::empty());
    while i < bridges.len()
        invariant
            0 <= i <= bridges@.len(),
                state@ == (RouterView {
                whitelisted_bridges: with_bridges(
                    old(state)@.whitelisted_bridges,
                    texts_view(bridges@).take(i as int),
                ),
                ..old(state)@
            }),
        decreases bridges@.len() - i,
    {
        assert(texts_view(bridges@).take(i + 1).drop_last() =~= texts_view(bridges@).take(
            i as int,
        ));
        state.whitelisted_bridges.insert(bridge_key(bridges[i].as_str()), true);
        i += 1;
    }
    assert(texts_view(bridges@).take(bridges@.len() as int) =~= texts_view(bridges@));
    Ok(Response::new())
}

/// Makes sure that a user has a proxy. Gateways only.
pub fn initialize_address_proxy(
    state: &mut Router,
    env: &Env,
    info: &MessageInfo,
    chain_id: u16,
    address: &[u8],
) -> (result: Result<Response, RelayError>)
    ensures
        match result {
            Ok(r) => old(state)@.initialize_address_proxy(
                env.contract_address@,
                info.sender@,
                chain_id,
                address@,
            ) == Ok::<(RouterView, ResponseView), RelayError>((final(state)@, r@)),
            Err(e) => old(state)@.initialize_address_proxy(
                env.contract_address@,
                info.sender@,
                chain_id,
                address@,
            ) == Err::<(RouterView, ResponseView), RelayError>(e) && final(state)@ == old(state)@,
        },
{
    match check_whitelisted(&state.whitelisted_bridges, info.sender.as_str()) {
        Ok(_) => {},
        Err(e) => {
            return Err(e);
        },
    }
    let key = proxy_key(chain_id, address);
    if state.address_proxies.contains(key.as_slice()) {
        return Ok(Response::new());
    }
    let user_address = vstd::slice::slice_to_vec(address);
    state.current_address_proxy = Some(
        RemoteUser { chain_id, address: vstd::slice::slice_to_vec(address) },
    );
    let mut response = Response::new();
    response.add_submessage(
        SubMsg {
            id: INSTANTIATE_REPLY_ID,
            msg: CosmosMsg::Instantiate {
                admin: Some(env.contract_address.clone()),
                code_id: state.config.address_proxy_code_id,
                msg: proxy::msg::InstantiateMsg {
                    market_address: state.config.market_address.clone(),
                    overseer_address: state.config.overseer_address.clone(),
                    anc_gov_address: state.config.anc_gov_address.clone(),
                    aterra_address: state.config.aterra_address.clone(),
                    anc_token: state.config.anc_token.clone(),
                    core_address: env.contract_address.clone(),
                    chain_id,
                    address: user_address,
                },
                funds: no_coins(),
                label: String::new(),
            },
            reply_on: ReplyOn::Success,
        },
    );
    assert(response@.messages =~= seq![
        instantiate_proxy_message(old(state)@.config, env.contract_address@, chain_id, address@),
    ]);
    Ok(response)
}

/// Records the proxy of the user whose proxy was being made. `address` is
/// what the chain's report names, if it could be read.
pub fn register_proxy(state: &mut Router, address: Option<String>) -> (result: Result<
    Response,
    RelayError,
>)
    ensures
        match result {
            Ok(r) => old(state)@.register_proxy(text_option_view(address)) == Ok::<
                (RouterView, ResponseView),
                RelayError,
            >((final(state)@, r@)),
            Err(e) => old(state)@.register_proxy(text_option_view(address)) == Err::<
                (RouterView, ResponseView),
                RelayError,
            >(e) && final(state)@ == old(state)@,
        },
{
    let proxy = match address {
        Some(proxy) => proxy,
        None => {
            return Err(RelayError::Validation);
        },
    };
    let key = match &state.current_address_proxy {
        Some(user) => proxy_key(user.chain_id, user.address.as_slice()),
        None => {
            return Err(RelayError::NotFound);
        },
    };
    state.address_proxies.insert(key, proxy);
    Ok(Response::new())
}

/// What the router makes of the chain's report on a creation.
pub fn reply(state: &mut Router, msg: Reply) -> (result: Result<Response, RelayError>)
    ensures
        match result {
            Ok(r) => old(state)@.reply(msg.result.failure(), msg.result.data()) == Ok::<
                (RouterView, ResponseView),
                RelayError,
            >((final(state)@, r@)),
            Err(e) => old(state)@.reply(msg.result.failure(), msg.result.data()) == Err::<
                (RouterView, ResponseView),
                RelayError,
            >(e) && final(state)@ == old(state)@,
        },
{
    let data = match msg.result {
        ReplyResult::Failed { reason } => {
            return Err(RelayError::Upstream { reason });
        },
        ReplyResult::Done { data: None } => {
            return Err(RelayError::Validation);
        },
        ReplyResult::Done { data: Some(data) } => data,
    };
    let address = match parse_instantiate_response(data.as_slice()) {
        Ok(address) => Some(address),
        Err(_) => None,
    };
    register_proxy(state, address)
}

/// The answer to a question.
#[derive(Clone, Debug, PartialEq, Eq)]
pub enum QueryResponse {
    Config(Config),
    TerraAddress(String),
}

/// Answers a question: the configuration, or the proxy of a user.
pub fn query(state: &Router, msg: QueryMsg) -> (answer: Result<QueryResponse, RelayError>)
    ensures
        match msg {
            QueryMsg::Config {  } => answer matches Ok(QueryResponse::Config(config)) && config@
                == state@.config,
            QueryMsg::TerraAddress { sender_chain, sender_address } => match answer {
                Ok(QueryResponse::TerraAddress(address)) => state@.provisioned(
                    sender_chain,
                    sender_address@,
                ) && state@.proxy_of(sender_chain, sender_address@) == address@,
                Ok(_) => false,
                Err(e) => !state@.provisioned(sender_chain, sender_address@) && e
                    == RelayError::NotFound,
            },
        },
{
    match msg {
        QueryMsg::Config {  } => Ok(QueryResponse::Config(state.config.clone())),
        QueryMsg::TerraAddress { sender_chain, sender_address } => {
            let key = proxy_key(sender_chain, sender_address.as_slice());
            match state.address_proxies.get(key.as_slice()) {
                Some(address) => Ok(QueryResponse::TerraAddress(address.clone())),
                None => Err(RelayError::NotFound),
            }
        },
    }
}

/// Moves the router to new code: nothing is to be done.
pub fn migrate(msg: MigrateMsg) -> (response: Response)
    ensures
        response@ == ResponseView::empty(),
{
    Response::new()
}

} // verus!
