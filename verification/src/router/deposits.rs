//! Deposits into the money market and redemptions from it. Both are made in
//! the router's own name; what they pay is forwarded to the gateway that asked.

use crate::anchor;
use crate::asset::{coins_view, no_coins, Address, AddressView, AssetInfo};
use crate::common::{coins_after_tax, coins_after_tax_spec};
use crate::cw20::{Cw20ExecuteMsg, Cw20ExecuteMsgView, HookMsg, HookMsgView};
use crate::error::RelayError;
use crate::message::{
    plain, CosmosMsg, CosmosMsgView, Env, MessageInfo, Response, ResponseView, WasmPayload,
    WasmPayloadView,
};
use crate::router::borrows::finish_with_forward;
use crate::router::helpers::check_whitelisted;
use crate::router::state::{Router, RouterView};
use vstd::prelude::*;
use vstd::string::StringExecFns;

verus! {

/// Redeems receipt tokens that have arrived. `balance` is the router's
/// balance of stable coins now.
pub fn redeem_stable(
    state: &mut Router,
    env: &Env,
    bridge_address: String,
    contract_address: String,
    amount: u128,
    balance: Result<u128, String>,
) -> (result: Result<Response, RelayError>)
    ensures
        match result {
            Ok(r) => old(state)@.redeem_stable(
                env.contract_address@,
                bridge_address@,
                contract_address@,
                amount,
                balance,
            ) == Ok::<(RouterView, ResponseView), RelayError>((final(state)@, r@)),
            Err(e) => old(state)@.redeem_stable(
                env.contract_address@,
                bridge_address@,
                contract_address@,
                amount,
                balance,
            ) == Err::<(RouterView, ResponseView), RelayError>(e) && final(state)@ == old(state)@,
        },
{
    let mut response = Response::new();
    response.add_message(
        CosmosMsg::Execute {
            contract_addr: Address::Human(contract_address),
            msg: WasmPayload::Cw20(
                Cw20ExecuteMsg::Send {
                    contract: state.config.market_address.clone(),
                    amount,
                    msg: HookMsg::Anchor(anchor::Cw20HookMsg::RedeemStable {  }),
                },
            ),
            funds: no_coins(),
        },
    );
    assert(response@.messages =~= seq![
        plain(
            CosmosMsgView::Execute {
                contract_addr: AddressView::Human(contract_address@),
                msg: WasmPayloadView::Cw20(
                    Cw20ExecuteMsgView::Send {
                        contract: old(state)@.config.market_address,
                        amount,
                        msg: HookMsgView::Anchor(anchor::Cw20HookMsg::RedeemStable {  }),
                    },
                ),
                funds: Seq::empty(),
            },
        ),
    ]);
    finish_with_forward(
        state,
        env,
        response,
        AssetInfo::NativeToken { denom: String::from_str("uusd") },
        bridge_address,
        balance,
    )
}

/// Deposits the coins that came with the call. `balance` is the router's
/// balance of receipt tokens now.
pub fn deposit_stable(
    state: &mut Router,
    env: &Env,
    info: &MessageInfo,
    balance: Result<u128, String>,
) -> (result: Result<Response, RelayError>)
    ensures
        match result {
            Ok(r) => old(state)@.deposit_stable(
                env.contract_address@,
                info.sender@,
                coins_view(info.funds@),
                balance,
            ) == Ok::<(RouterView, ResponseView), RelayError>((final(state)@, r@)),
            Err(e) => old(state)@.deposit_stable(
                env.contract_address@,
                info.sender@,
                coins_view(info.funds@),
                balance,
            ) == Err::<(RouterView, ResponseView), RelayError>(e) && final(state)@ == old(state)@,
        },
{
    match check_whitelisted(&state.whitelisted_bridges, info.sender.as_str()) {
        Ok(_) => {},
        Err(e) => {
            return Err(e);
        },
    }
    let funds = match coins_after_tax(&info.funds) {
        Ok(funds) => funds,
        Err(e) => {
            return Err(e);
        },
    };
    let mut response = Response::new();
    response.add_message(
        CosmosMsg::Execute {
            contract_addr: Address::Human(state.config.market_address.clone()),
            msg: WasmPayload::Anchor(anchor::ExecuteMsg::DepositStable {  }),
            funds,
        },
    );
    assert(response@.messages =~= seq![
        plain(
            CosmosMsgView::Execute {
                contract_addr: AddressView::Human(old(state)@.config.market_address),
                msg: WasmPayloadView::Anchor(anchor::ExecuteMsgView::DepositStable),
                funds: coins_after_tax_spec(coins_view(info.funds@))->Ok_0,
            },
        ),
    ]);
    let receipt = AssetInfo::Token {
        contract_addr: Address::Human(state.config.aterra_address.clone()),
    };
    finish_with_forward(state, env, response, receipt, info.sender.clone(), balance)
}

} // verus!
