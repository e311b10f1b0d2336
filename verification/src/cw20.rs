//! The calls to a token contract that the relay makes.

use crate::anchor;
use crate::proxy;
use crate::router;
use vstd::prelude::*;

verus! {

/// What rides along with a token transfer, for the contract that receives it.
#[derive(Clone, Debug, PartialEq, Eq)]
pub enum HookMsg {
    Router(router::msg::Cw20HookMsg),
    Proxy(proxy::msg::Cw20HookMsg),
    Anchor(anchor::Cw20HookMsg),
}

/// What a [`HookMsg`] holds, as mathematical values.
pub enum HookMsgView {
    Router(router::msg::Cw20HookMsgView),
    Proxy(proxy::msg::Cw20HookMsg),
    Anchor(anchor::Cw20HookMsg),
}

impl View for HookMsg {
    type V = HookMsgView;

    open spec fn view(&self) -> HookMsgView {
        match self {
            HookMsg::Router(m) => HookMsgView::Router(m@),
            HookMsg::Proxy(m) => HookMsgView::Proxy(*m),
            HookMsg::Anchor(m) => HookMsgView::Anchor(*m),
        }
    }
}

/// A call to a token contract.
#[derive(Clone, Debug, PartialEq, Eq)]
pub enum Cw20ExecuteMsg {
    /// Move `amount` to the contract `contract` and tell it what for.
    Send { contract: String, amount: u128, msg: HookMsg },
    /// Let `spender` draw `amount` more, without a time limit.
    IncreaseAllowance { spender: String, amount: u128 },
}

/// What a [`Cw20ExecuteMsg`] holds, as mathematical values.
pub enum Cw20ExecuteMsgView {
    Send { contract: Seq<char>, amount: u128, msg: HookMsgView },
    IncreaseAllowance { spender: Seq<char>, amount: u128 },
}

impl View for Cw20ExecuteMsg {
    type V = Cw20ExecuteMsgView;

    open spec fn view(&self) -> Cw20ExecuteMsgView {
        match self {
            Cw20ExecuteMsg::Send { contract, amount, msg } => Cw20ExecuteMsgView::Send {
                contract: contract@,
                amount: *amount,
                msg: msg@,
            },
            Cw20ExecuteMsg::IncreaseAllowance { spender, amount } => {
                Cw20ExecuteMsgView::IncreaseAllowance { spender: spender@, amount: *amount }
            },
        }
    }
}

} // verus!
