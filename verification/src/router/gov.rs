//! Governance: staking, unstaking and voting are handed on to the user's
//! proxy as they are.

use crate::anchor::VoteOption;
use crate::asset::{no_coins, Address, Uint256};
use crate::error::RelayError;
use crate::message::{plain, CosmosMsg, MessageInfo, Response, ResponseView, WasmPayload};
use crate::proxy;
use crate::router::borrows::find_proxy;
use crate::router::helpers::check_whitelisted;
use crate::router::model::proxy_call;
use crate::router::state::Router;
use vstd::prelude::*;

verus! {

fn pass_to_proxy(
    state: &Router,
    info: &MessageInfo,
    sender_chain: u16,
    sender_address: Vec<u8>,
    msg: proxy::msg::ExecuteMsg,
) -> (result: Result<Response, RelayError>)
    ensures
        match result {
            Ok(r) => state@.pass_to_proxy(info.sender@, sender_chain, sender_address@, msg@) == Ok::<
                ResponseView,
                RelayError,
            >(r@),
            Err(e) => state@.pass_to_proxy(info.sender@, sender_chain, sender_address@, msg@)
                == Err::<ResponseView, RelayError>(e),
        },
{
    match check_whitelisted(&state.whitelisted_bridges, info.sender.as_str()) {
        Ok(_) => {},
        Err(e) => {
            return Err(e);
        },
    }
    let proxy = match find_proxy(state, sender_chain, sender_address.as_slice()) {
        Some(proxy) => proxy,
        None => {
            return Err(RelayError::NotFound);
        },
    };
    let mut response = Response::new();
    response.add_message(
        CosmosMsg::Execute {
            contract_addr: Address::Human(proxy),
            msg: WasmPayload::Proxy(msg),
            funds: no_coins(),
        },
    );
    assert(response@.messages =~= seq![plain(proxy_call(proxy@, msg@, Seq::empty()))]);
    Ok(response)
}

/// Has the user's proxy stake governance tokens.
pub fn stake_voting_tokens(
    state: &Router,
    info: &MessageInfo,
    sender_chain: u16,
    sender_address: Vec<u8>,
    stake_amount: Uint256,
) -> (result: Result<Response, RelayError>)
    ensures
        match result {
            Ok(r) => state@.pass_to_proxy(
                info.sender@,
                sender_chain,
                sender_address@,
                proxy::msg::ExecuteMsgView::StakeVotingTokens { stake_amount },
            ) == Ok::<ResponseView, RelayError>(r@),
            Err(e) => state@.pass_to_proxy(
                info.sender@,
                sender_chain,
                sender_address@,
                proxy::msg::ExecuteMsgView::StakeVotingTokens { stake_amount },
            ) == Err::<ResponseView, RelayError>(e),
        },
{
    pass_to_proxy(
        state,
        info,
        sender_chain,
        sender_address,
        proxy::msg::ExecuteMsg::StakeVotingTokens { stake_amount },
    )
}

/// Has the user's proxy withdraw staked governance tokens.
pub fn unstake_voting_tokens(
    state: &Router,
    info: &MessageInfo,
    sender_chain: u16,
    sender_address: Vec<u8>,
    unstake_amount: Uint256,
) -> (result: Result<Response, RelayError>)
    ensures
        match result {
            Ok(r) => state@.pass_to_proxy(
                info.sender@,
                sender_chain,
                sender_address@,
                proxy::msg::ExecuteMsgView::WithdrawVotingTokens { unstake_amount },
            ) == Ok::<ResponseView, RelayError>(r@),
            Err(e) => state@.pass_to_proxy(
                info.sender@,
                sender_chain,
                sender_address@,
                proxy::msg::ExecuteMsgView::WithdrawVotingTokens { unstake_amount },
            ) == Err::<ResponseView, RelayError>(e),
        },
{
    pass_to_proxy(
        state,
        info,
        sender_chain,
        sender_address,
        proxy::msg::ExecuteMsg::WithdrawVotingTokens { unstake_amount },
    )
}

/// Has the user's proxy vote on a poll.
pub fn cast_vote(
    state: &Router,
    info: &MessageInfo,
    sender_chain: u16,
    sender_address: Vec<u8>,
    poll_id: u64,
    vote: VoteOption,
    amount: u128,
) -> (result: Result<Response, RelayError>)
    ensures
        match result {
            Ok(r) => state@.pass_to_proxy(
                info.sender@,
                sender_chain,
                sender_address@,
                proxy::msg::ExecuteMsgView::CastVote { poll_id, vote, amount },
            ) == Ok::<ResponseView, RelayError>(r@),
            Err(e) => state@.pass_to_proxy(
                info.sender@,
                sender_chain,
                sender_address@,
                proxy::msg::ExecuteMsgView::CastVote { poll_id, vote, amount },
            ) == Err::<ResponseView, RelayError>(e),
        },
{
    pass_to_proxy(
        state,
        info,
        sender_chain,
        sender_address,
        proxy::msg::ExecuteMsg::CastVote { poll_id, vote, amount },
    )
}

} // verus!
