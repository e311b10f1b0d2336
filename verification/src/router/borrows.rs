//! The operations on a user's own position. Each finds the user's proxy,
//! brings the proxy to the current code, and hands the operation on to it;
//! where the operation pays out, what it pays is forwarded to the gateway
//! that asked.

use crate::asset::{coins_view, no_coins, Address, Asset, AssetInfo, Uint256};
use crate::common::{coins_after_tax, coins_after_tax_spec, forward_difference_msg};
use crate::cw20::{Cw20ExecuteMsg, HookMsg};
use crate::error::RelayError;
use crate::message::{plain, CosmosMsg, Env, MessageInfo, Response, ResponseView, WasmPayload};
use crate::proxy;
use crate::router::helpers::check_whitelisted;
use crate::router::model::{migrate_address_proxy_message, proxy_call};
use crate::router::state::{proxy_key, Config, Router, RouterView};
use vstd::prelude::*;
use vstd::string::StringExecFns;

verus! {

/// The address of the user's proxy, if the user has one.
pub fn find_proxy(state: &Router, sender_chain: u16, sender_address: &[u8]) -> (proxy: Option<
    String,
>)
    ensures
        match proxy {
            Some(address) => state@.provisioned(sender_chain, sender_address@) && state@.proxy_of(
                sender_chain,
                sender_address@,
            ) == address@,
            None => !state@.provisioned(sender_chain, sender_address@),
        },
{
    let key = proxy_key(sender_chain, sender_address);
    match state.address_proxies.get(key.as_slice()) {
        Some(address) => Some(address.clone()),
        None => None,
    }
}

/// The end of an operation that pays out: the first phase of forwarding.
pub(crate) fn finish_with_forward(
    state: &mut Router,
    env: &Env,
    response: Response,
    asset_info: AssetInfo,
    to: String,
    balance: Result<u128, String>,
) -> (result: Result<Response, RelayError>)
    ensures
        match result {
            Ok(r) => old(state)@.forwarding(
                env.contract_address@,
                response@.messages,
                asset_info@,
                to@,
                balance,
            ) == Ok::<(RouterView, ResponseView), RelayError>((final(state)@, r@)),
            Err(e) => old(state)@.forwarding(
                env.contract_address@,
                response@.messages,
                asset_info@,
                to@,
                balance,
            ) == Err::<(RouterView, ResponseView), RelayError>(e) && final(state)@ == old(state)@,
        },
{
    let mut response = response;
    match forward_difference_msg(&mut state.forward_balances, env, asset_info, to, true, balance) {
        Ok(message) => {
            response.add_message(message);
            Ok(response)
        },
        Err(e) => Err(e),
    }
}

/// The message that brings a proxy to the current code.
pub fn migrate_address_proxy_msg(config: &Config, address_proxy_addr: &str) -> (message: CosmosMsg)
    ensures
        message@ == migrate_address_proxy_message(config@, address_proxy_addr@),
{
    CosmosMsg::Migrate {
        contract_addr: String::from_str(address_proxy_addr),
        new_code_id: config.address_proxy_code_id,
        msg: proxy::msg::MigrateMsg {  },
    }
}

/// Hands collateral that has arrived on to the user's proxy.
pub fn lock_collateral(
    state: &Router,
    sender_chain: u16,
    sender_address: Vec<u8>,
    collateral_address: String,
    collateral_amount: u128,
) -> (result: Result<Response, RelayError>)
    ensures
        match result {
            Ok(r) => state@.lock_collateral(
                sender_chain,
                sender_address@,
                collateral_address@,
                collateral_amount,
            ) == Ok::<ResponseView, RelayError>(r@),
            Err(e) => state@.lock_collateral(
                sender_chain,
                sender_address@,
                collateral_address@,
                collateral_amount,
            ) == Err::<ResponseView, RelayError>(e),
        },
{
    let proxy = match find_proxy(state, sender_chain, sender_address.as_slice()) {
        Some(proxy) => proxy,
        None => {
            return Err(RelayError::NotFound);
        },
    };
    let mut response = Response::new();
    response.add_message(migrate_address_proxy_msg(&state.config, proxy.as_str()));
    response.add_message(
        CosmosMsg::Execute {
            contract_addr: Address::Human(collateral_address),
            msg: WasmPayload::Cw20(
                Cw20ExecuteMsg::Send {
                    contract: proxy,
                    amount: collateral_amount,
                    msg: HookMsg::Proxy(proxy::msg::Cw20HookMsg::LockCollateral {  }),
                },
            ),
            funds: no_coins(),
        },
    );
    assert(response@.messages =~= state@.lock_collateral(
        sender_chain,
        sender_address@,
        collateral_address@,
        collateral_amount,
    )->Ok_0.messages);
    Ok(response)
}

/// Hands a repayment on to the user's proxy.
pub fn repay_stable(
    state: &Router,
    info: &MessageInfo,
    sender_chain: u16,
    sender_address: &[u8],
) -> (result: Result<Response, RelayError>)
    ensures
        match result {
            Ok(r) => state@.repay_stable(
                info.sender@,
                coins_view(info.funds@),
                sender_chain,
                sender_address@,
            ) == Ok::<ResponseView, RelayError>(r@),
            Err(e) => state@.repay_stable(
                info.sender@,
                coins_view(info.funds@),
                sender_chain,
                sender_address@,
            ) == Err::<ResponseView, RelayError>(e),
        },
{
    match check_whitelisted(&state.whitelisted_bridges, info.sender.as_str()) {
        Ok(_) => {},
        Err(e) => {
            return Err(e);
        },
    }
    let proxy = match find_proxy(state, sender_chain, sender_address) {
        Some(proxy) => proxy,
        None => {
            return Err(RelayError::NotFound);
        },
    };
    let funds = match coins_after_tax(&info.funds) {
        Ok(funds) => funds,
        Err(e) => {
            return Err(e);
        },
    };
    let mut response = Response::new();
    response.add_message(migrate_address_proxy_msg(&state.config, proxy.as_str()));
    response.add_message(
        CosmosMsg::Execute {
            contract_addr: Address::Human(proxy),
            msg: WasmPayload::Proxy(proxy::msg::ExecuteMsg::RepayStable {  }),
            funds,
        },
    );
    assert(response@.messages =~= state@.repay_stable(
        info.sender@,
        coins_view(info.funds@),
        sender_chain,
        sender_address@,
    )->Ok_0.messages);
    Ok(response)
}

/// Has the user's proxy unlock and withdraw collateral, and forwards it.
/// `balance` is the router's balance of the collateral now.
pub fn unlock_collateral(
    state: &mut Router,
    env: &Env,
    info: &MessageInfo,
    sender_chain: u16,
    sender_address: Vec<u8>,
    asset: Asset,
    balance: Result<u128, String>,
) -> (result: Result<Response, RelayError>)
    ensures
        match result {
            Ok(r) => old(state)@.unlock_collateral(
                env.contract_address@,
                info.sender@,
                coins_view(info.funds@),
                sender_chain,
                sender_address@,
                asset@,
                balance,
            ) == Ok::<(RouterView, ResponseView), RelayError>((final(state)@, r@)),
            Err(e) => old(state)@.unlock_collateral(
                env.contract_address@,
                info.sender@,
                coins_view(info.funds@),
                sender_chain,
                sender_address@,
                asset@,
                balance,
            ) == Err::<(RouterView, ResponseView), RelayError>(e) && final(state)@ == old(state)@,
        },
{
    match check_whitelisted(&state.whitelisted_bridges, info.sender.as_str()) {
        Ok(_) => {},
        Err(e) => {
            return Err(e);
        },
    }
    let proxy = match find_proxy(state, sender_chain, sender_address.as_slice()) {
        Some(proxy) => proxy,
        None => {
            return Err(RelayError::NotFound);
        },
    };
    let funds = match coins_after_tax(&info.funds) {
        Ok(funds) => funds,
        Err(e) => {
            return Err(e);
        },
    };
    let mut response = Response::new();
    response.add_message(migrate_address_proxy_msg(&state.config, proxy.as_str()));
    response.add_message(
        CosmosMsg::Execute {
            contract_addr: Address::Human(proxy),
            msg: WasmPayload::Proxy(
                proxy::msg::ExecuteMsg::UnlockCollateral { asset: asset.clone() },
            ),
            funds,
        },
    );
    assert(response@.messages =~= seq![
        plain(migrate_address_proxy_message(old(state)@.config, proxy@)),
        plain(
            proxy_call(
                proxy@,
                proxy::msg::ExecuteMsgView::UnlockCollateral { asset: asset@ },
                coins_after_tax_spec(coins_view(info.funds@))->Ok_0,
            ),
        ),
    ]);
    finish_with_forward(state, env, response, asset.info, info.sender.clone(), balance)
}

/// Has the user's proxy borrow stable coins, and forwards them. `balance` is
/// the router's balance of stable coins now.
pub fn borrow_stable(
    state: &mut Router,
    env: &Env,
    info: &MessageInfo,
    sender_chain: u16,
    sender_address: Vec<u8>,
    borrow_amount: Uint256,
    balance: Result<u128, String>,
) -> (result: Result<Response, RelayError>)
    ensures
        match result {
            Ok(r) => old(state)@.borrow_stable(
                env.contract_address@,
                info.sender@,
                sender_chain,
                sender_address@,
                borrow_amount,
                balance,
            ) == Ok::<(RouterView, ResponseView), RelayError>((final(state)@, r@)),
            Err(e) => old(state)@.borrow_stable(
                env.contract_address@,
                info.sender@,
                sender_chain,
                sender_address@,
                borrow_amount,
                balance,
            ) == Err::<(RouterView, ResponseView), RelayError>(e) && final(state)@ == old(state)@,
        },
{
    match check_whitelisted(&state.whitelisted_bridges, info.sender.as_str()) {
        Ok(_) => {},
        Err(e) => {
            return Err(e);
        },
    }
    let proxy = match find_proxy(state, sender_chain, sender_address.as_slice()) {
        Some(proxy) => proxy,
        None => {
            return Err(RelayError::NotFound);
        },
    };
    let mut response = Response::new();
    response.add_message(migrate_address_proxy_msg(&state.config, proxy.as_str()));
    response.add_message(
        CosmosMsg::Execute {
            contract_addr: Address::Human(proxy),
            msg: WasmPayload::Proxy(proxy::msg::ExecuteMsg::BorrowStable { borrow_amount }),
            funds: no_coins(),
        },
    );
    assert(response@.messages =~= seq![
        plain(migrate_address_proxy_message(old(state)@.config, proxy@)),
        plain(
            proxy_call(
                proxy@,
                proxy::msg::ExecuteMsgView::BorrowStable { borrow_amount },
                Seq::empty(),
            ),
        ),
    ]);
    finish_with_forward(
        state,
        env,
        response,
        AssetInfo::NativeToken { denom: String::from_str("uusd") },
        info.sender.clone(),
        balance,
    )
}

/// Has the user's proxy claim its rewards, and forwards them. `balance` is
/// the router's balance of the reward token now.
pub fn claim_rewards(
    state: &mut Router,
    env: &Env,
    info: &MessageInfo,
    sender_chain: u16,
    sender_address: Vec<u8>,
    balance: Result<u128, String>,
) -> (result: Result<Response, RelayError>)
    ensures
        match result {
            Ok(r) => old(state)@.claim_rewards(
                env.contract_address@,
                info.sender@,
                coins_view(info.funds@),
                sender_chain,
                sender_address@,
                balance,
            ) == Ok::<(RouterView, ResponseView), RelayError>((final(state)@, r@)),
            Err(e) => old(state)@.claim_rewards(
                env.contract_address@,
                info.sender@,
                coins_view(info.funds@),
                sender_chain,
                sender_address@,
                balance,
            ) == Err::<(RouterView, ResponseView), RelayError>(e) && final(state)@ == old(state)@,
        },
{
    match check_whitelisted(&state.whitelisted_bridges, info.sender.as_str()) {
        Ok(_) => {},
        Err(e) => {
            return Err(e);
        },
    }
    let proxy = match find_proxy(state, sender_chain, sender_address.as_slice()) {
        Some(proxy) => proxy,
        None => {
            return Err(RelayError::NotFound);
        },
    };
    let funds = match coins_after_tax(&info.funds) {
        Ok(funds) => funds,
        Err(e) => {
            return Err(e);
        },
    };
    let mut response = Response::new();
    response.add_message(migrate_address_proxy_msg(&state.config, proxy.as_str()));
    response.add_message(
        CosmosMsg::Execute {
            contract_addr: Address::Human(proxy),
            msg: WasmPayload::Proxy(proxy::msg::ExecuteMsg::ClaimRewards {  }),
            funds,
        },
    );
    assert(response@.messages =~= seq![
        plain(migrate_address_proxy_message(old(state)@.config, proxy@)),
        plain(
            proxy_call(
                proxy@,
                proxy::msg::ExecuteMsgView::ClaimRewards,
                coins_after_tax_spec(coins_view(info.funds@))->Ok_0,
            ),
        ),
    ]);
    let reward = AssetInfo::Token { contract_addr: Address::Human(state.config.anc_token.clone()) };
    finish_with_forward(state, env, response, reward, info.sender.clone(), balance)
}

} // verus!
