//! What a call is handed by the chain, and what it hands back: the messages
//! that the chain is to deliver once the call has returned.

use crate::anchor;
use crate::asset::{
    coins_view, text_option_view, Address, AddressView, Asset, AssetView, Coin, CoinView,
};
use crate::cw20::{Cw20ExecuteMsg, Cw20ExecuteMsgView};
use crate::gateway;
use crate::proxy;
use crate::router;
use crate::wormhole::{
    WormholeCoreBridgeExecuteMsg, WormholeCoreBridgeExecuteMsgView, WormholeTokenBridgeExecuteMsg,
    WormholeTokenBridgeExecuteMsgView,
};
use vstd::prelude::*;

verus! {

/// The contract that a call runs in.
#[derive(Clone, Debug, PartialEq, Eq)]
pub struct Env {
    /// The contract's address, in textual form.
    pub contract_address: String,
    /// The contract's address, in 20-byte form.
    pub canonical_address: Vec<u8>,
}

/// Who makes a call, and the coins that come with it.
#[derive(Clone, Debug, PartialEq, Eq)]
pub struct MessageInfo {
    pub sender: String,
    pub funds: Vec<Coin>,
}

/// The body of a call to a contract, by the contract that understands it.
#[derive(Clone, Debug, PartialEq, Eq)]
pub enum WasmPayload {
    Gateway(gateway::msg::ExecuteMsg),
    Router(router::msg::ExecuteMsg),
    Proxy(proxy::msg::ExecuteMsg),
    Anchor(anchor::ExecuteMsg),
    Cw20(Cw20ExecuteMsg),
    CoreBridge(WormholeCoreBridgeExecuteMsg),
    TokenBridge(WormholeTokenBridgeExecuteMsg),
}

/// What a [`WasmPayload`] holds, as mathematical values.
pub enum WasmPayloadView {
    Gateway(gateway::msg::ExecuteMsgView),
    Router(router::msg::ExecuteMsgView),
    Proxy(proxy::msg::ExecuteMsgView),
    Anchor(anchor::ExecuteMsgView),
    Cw20(Cw20ExecuteMsgView),
    CoreBridge(WormholeCoreBridgeExecuteMsgView),
    TokenBridge(WormholeTokenBridgeExecuteMsgView),
}

impl View for WasmPayload {
    type V = WasmPayloadView;

    open spec fn view(&self) -> WasmPayloadView {
        match self {
            WasmPayload::Gateway(m) => WasmPayloadView::Gateway(m@),
            WasmPayload::Router(m) => WasmPayloadView::Router(m@),
            WasmPayload::Proxy(m) => WasmPayloadView::Proxy(m@),
            WasmPayload::Anchor(m) => WasmPayloadView::Anchor(m@),
            WasmPayload::Cw20(m) => WasmPayloadView::Cw20(m@),
            WasmPayload::CoreBridge(m) => WasmPayloadView::CoreBridge(m@),
            WasmPayload::TokenBridge(m) => WasmPayloadView::TokenBridge(m@),
        }
    }
}

/// A message for the chain to deliver.
#[allow(inconsistent_fields)]
#[derive(Clone, Debug, PartialEq, Eq)]
pub enum CosmosMsg {
    /// Call a contract, with coins.
    Execute { contract_addr: Address, msg: WasmPayload, funds: Vec<Coin> },
    /// Create a proxy from the code `code_id`.
    Instantiate {
        admin: Option<String>,
        code_id: u64,
        msg: proxy::msg::InstantiateMsg,
        funds: Vec<Coin>,
        label: String,
    },
    /// Move a proxy to the code `new_code_id`.
    Migrate { contract_addr: String, new_code_id: u64, msg: proxy::msg::MigrateMsg },
    /// Pay a sum to an account, in the way in which the asset moves: coins
    /// are sent by the chain, less the tax; tokens are transferred by their
    /// contract.
    Transfer { asset: Asset, recipient: String },
}

/// What a [`CosmosMsg`] holds, as mathematical values.
#[allow(inconsistent_fields)]
pub enum CosmosMsgView {
    Execute { contract_addr: AddressView, msg: WasmPayloadView, funds: Seq<CoinView> },
    Instantiate {
        admin: Option<Seq<char>>,
        code_id: u64,
        msg: proxy::msg::InstantiateMsgView,
        funds: Seq<CoinView>,
        label: Seq<char>,
    },
    Migrate { contract_addr: Seq<char>, new_code_id: u64, msg: proxy::msg::MigrateMsg },
    Transfer { asset: AssetView, recipient: Seq<char> },
}

impl View for CosmosMsg {
    type V = CosmosMsgView;

    open spec fn view(&self) -> CosmosMsgView {
        match self {
            CosmosMsg::Execute { contract_addr, msg, funds } => CosmosMsgView::Execute {
                contract_addr: contract_addr@,
                msg: msg@,
                funds: coins_view(funds@),
            },
            CosmosMsg::Instantiate { admin, code_id, msg, funds, label } => {
                CosmosMsgView::Instantiate {
                    admin: text_option_view(*admin),
                    code_id: *code_id,
                    msg: msg@,
                    funds: coins_view(funds@),
                    label: label@,
                }
            },
            CosmosMsg::Migrate { contract_addr, new_code_id, msg } => CosmosMsgView::Migrate {
                contract_addr: contract_addr@,
                new_code_id: *new_code_id,
                msg: *msg,
            },
            CosmosMsg::Transfer { asset, recipient } => CosmosMsgView::Transfer {
                asset: asset@,
                recipient: recipient@,
            },
        }
    }
}

/// When the sender of a message wants to hear how it went.
#[derive(Clone, Copy, Debug, PartialEq, Eq, Structural)]
pub enum ReplyOn {
    Always,
    Error,
    Success,
    Never,
}

/// A message with the sender's wish to hear of its outcome under `id`.
#[derive(Clone, Debug, PartialEq, Eq)]
pub struct SubMsg {
    pub id: u64,
    pub msg: CosmosMsg,
    pub reply_on: ReplyOn,
}

/// What a [`SubMsg`] holds, as mathematical values.
pub struct SubMsgView {
    pub id: u64,
    pub msg: CosmosMsgView,
    pub reply_on: ReplyOn,
}

impl View for SubMsg {
    type V = SubMsgView;

    open spec fn view(&self) -> SubMsgView {
        SubMsgView { id: self.id, msg: self.msg@, reply_on: self.reply_on }
    }
}

/// A message whose outcome the sender does not want to hear of.
pub open spec fn plain(msg: CosmosMsgView) -> SubMsgView {
    SubMsgView { id: 0, msg, reply_on: ReplyOn::Never }
}

/// What a call that succeeds hands back: messages, to be delivered in order.
#[derive(Clone, Debug, PartialEq, Eq)]
pub struct Response {
    pub messages: Vec<SubMsg>,
}

/// What a [`Response`] holds, as mathematical values.
pub struct ResponseView {
    pub messages: Seq<SubMsgView>,
}

impl View for Response {
    type V = ResponseView;

    open spec fn view(&self) -> ResponseView {
        ResponseView { messages: Seq::new(self.messages@.len(), |i: int| self.messages@[i]@) }
    }
}

impl ResponseView {
    /// The response with no message.
    pub open spec fn empty() -> ResponseView {
        ResponseView { messages: Seq::empty() }
    }

    /// The response that holds `messages`.
    pub open spec fn of(messages: Seq<SubMsgView>) -> ResponseView {
        ResponseView { messages }
    }
}

impl Response {
    /// A response with no message.
    pub fn new() -> (response: Response)
        ensures
            response@ == ResponseView::empty(),
    {
        let response = Response { messages: Vec::new() };
        assert(response@.messages =~= Seq::empty());
        response
    }

    /// Adds a message whose outcome is not reported back.
    pub fn add_message(&mut self, msg: CosmosMsg)
        ensures
            final(self)@.messages == old(self)@.messages.push(plain(msg@)),
    {
        self.add_submessage(SubMsg { id: 0, msg, reply_on: ReplyOn::Never });
    }

    /// Adds a message as it is.
    pub fn add_submessage(&mut self, msg: SubMsg)
        ensures
            final(self)@.messages == old(self)@.messages.push(msg@),
    {
        self.messages.push(msg);
        assert(self@.messages =~= old(self)@.messages.push(msg@));
    }
}

/// How a message went of which the sender wanted to hear.
#[derive(Clone, Debug, PartialEq, Eq)]
pub enum ReplyResult {
    /// It went through, and left these data.
    Done { data: Option<Vec<u8>> },
    /// It failed, for this reason.
    Failed { reason: String },
}

impl ReplyResult {
    /// The reason for which the message failed, if it did.
    pub open spec fn failure(self) -> Option<String> {
        match self {
            ReplyResult::Done { .. } => None,
            ReplyResult::Failed { reason } => Some(reason),
        }
    }

    /// The data that the message left, if it went through and left any.
    pub open spec fn data(self) -> Option<Seq<u8>> {
        match self {
            ReplyResult::Done { data: Some(bytes) } => Some(bytes@),
            _ => None,
        }
    }
}

/// The chain's report on the message that was sent under `id`.
#[derive(Clone, Debug, PartialEq, Eq)]
pub struct Reply {
    pub id: u64,
    pub result: ReplyResult,
}

} // verus!
