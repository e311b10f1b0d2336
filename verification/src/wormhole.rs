//! What the attestation network hands to the relay and takes from it.

use crate::asset::{Asset, AssetView};
use crate::byte_utils::{
    be_uint, clone_bytes, field, get_bytes32, get_u16, get_u256, get_u8, slice_bytes,
};
use crate::error::RelayError;
use vstd::prelude::*;

verus! {

/// An attestation that the oracle has verified and taken apart.
#[derive(Clone, Debug, PartialEq, Eq)]
pub struct ParsedVAA {
    pub version: u8,
    pub guardian_set_index: u32,
    pub timestamp: u32,
    pub nonce: u32,
    pub len_signers: u8,
    pub emitter_chain: u16,
    pub emitter_address: Vec<u8>,
    pub sequence: u64,
    pub consistency_level: u8,
    pub payload: Vec<u8>,
    pub hash: Vec<u8>,
}

/// What a [`ParsedVAA`] holds, as mathematical values.
pub struct ParsedVAAView {
    pub version: u8,
    pub guardian_set_index: u32,
    pub timestamp: u32,
    pub nonce: u32,
    pub len_signers: u8,
    pub emitter_chain: u16,
    pub emitter_address: Seq<u8>,
    pub sequence: u64,
    pub consistency_level: u8,
    pub payload: Seq<u8>,
    pub hash: Seq<u8>,
}

impl View for ParsedVAA {
    type V = ParsedVAAView;

    open spec fn view(&self) -> ParsedVAAView {
        ParsedVAAView {
            version: self.version,
            guardian_set_index: self.guardian_set_index,
            timestamp: self.timestamp,
            nonce: self.nonce,
            len_signers: self.len_signers,
            emitter_chain: self.emitter_chain,
            emitter_address: self.emitter_address@,
            sequence: self.sequence,
            consistency_level: self.consistency_level,
            payload: self.payload@,
            hash: self.hash@,
        }
    }
}

/// The view of an attestation that may be absent.
pub open spec fn vaa_option_view(vaa: Option<ParsedVAA>) -> Option<ParsedVAAView> {
    match vaa {
        Some(v) => Some(v@),
        None => None,
    }
}

/// A question to the attestation oracle.
#[derive(Clone, Debug, PartialEq, Eq)]
pub enum WormholeCoreBridgeQueryMsg {
    VerifyVAA { vaa: Vec<u8>, block_time: u64 },
}

/// A call to the attestation oracle.
#[derive(Clone, Debug, PartialEq, Eq)]
pub enum WormholeCoreBridgeExecuteMsg {
    SubmitVAA { vaa: Vec<u8> },
    /// Publish `message` as an attestation of this contract.
    PostMessage { message: Vec<u8>, nonce: u32 },
}

/// What a [`WormholeCoreBridgeExecuteMsg`] holds, as mathematical values.
pub enum WormholeCoreBridgeExecuteMsgView {
    SubmitVAA { vaa: Seq<u8> },
    PostMessage { message: Seq<u8>, nonce: u32 },
}

impl View for WormholeCoreBridgeExecuteMsg {
    type V = WormholeCoreBridgeExecuteMsgView;

    open spec fn view(&self) -> WormholeCoreBridgeExecuteMsgView {
        match self {
            WormholeCoreBridgeExecuteMsg::SubmitVAA { vaa } => {
                WormholeCoreBridgeExecuteMsgView::SubmitVAA { vaa: vaa@ }
            },
            WormholeCoreBridgeExecuteMsg::PostMessage { message, nonce } => {
                WormholeCoreBridgeExecuteMsgView::PostMessage { message: message@, nonce: *nonce }
            },
        }
    }
}

/// A call to the transfer oracle.
#[derive(Clone, Debug, PartialEq, Eq)]
pub enum WormholeTokenBridgeExecuteMsg {
    /// Hand over the native coins that come with the call, for a transfer that follows.
    DepositTokens {  },
    /// Send `asset` to `recipient` on chain `recipient_chain`.
    InitiateTransfer { asset: Asset, recipient_chain: u16, recipient: Vec<u8>, fee: u128, nonce: u32 },
    /// Complete the transfer that the attestation `data` attests.
    SubmitVaa { data: Vec<u8> },
}

/// What a [`WormholeTokenBridgeExecuteMsg`] holds, as mathematical values.
pub enum WormholeTokenBridgeExecuteMsgView {
    DepositTokens,
    InitiateTransfer {
        asset: AssetView,
        recipient_chain: u16,
        recipient: Seq<u8>,
        fee: u128,
        nonce: u32,
    },
    SubmitVaa { data: Seq<u8> },
}

impl View for WormholeTokenBridgeExecuteMsg {
    type V = WormholeTokenBridgeExecuteMsgView;

    open spec fn view(&self) -> WormholeTokenBridgeExecuteMsgView {
        match self {
            WormholeTokenBridgeExecuteMsg::DepositTokens {  } => {
                WormholeTokenBridgeExecuteMsgView::DepositTokens
            },
            WormholeTokenBridgeExecuteMsg::InitiateTransfer {
                asset,
                recipient_chain,
                recipient,
                fee,
                nonce,
            } => WormholeTokenBridgeExecuteMsgView::InitiateTransfer {
                asset: asset@,
                recipient_chain: *recipient_chain,
                recipient: recipient@,
                fee: *fee,
                nonce: *nonce,
            },
            WormholeTokenBridgeExecuteMsg::SubmitVaa { data } => {
                WormholeTokenBridgeExecuteMsgView::SubmitVaa { data: data@ }
            },
        }
    }
}

/// The kinds of message that the transfer oracle attests.
pub struct Action;

impl Action {
    /// A transfer of an asset.
    pub const TRANSFER: u8 = 1;

    /// A description of an asset.
    pub const ATTEST_META: u8 = 2;
}

/// A message of the transfer oracle: one byte that says what it is, then its body.
#[derive(Clone, Debug, PartialEq, Eq)]
pub struct TokenBridgeMessage {
    pub action: u8,
    pub payload: Vec<u8>,
}

/// What a [`TokenBridgeMessage`] holds, as mathematical values.
pub struct TokenBridgeMessageView {
    pub action: u8,
    pub payload: Seq<u8>,
}

impl View for TokenBridgeMessage {
    type V = TokenBridgeMessageView;

    open spec fn view(&self) -> TokenBridgeMessageView {
        TokenBridgeMessageView { action: self.action, payload: self.payload@ }
    }
}

impl TokenBridgeMessageView {
    /// The message that `data` spells: its first byte, and the rest. Empty
    /// data spell none.
    pub open spec fn deserialize(data: Seq<u8>) -> Result<TokenBridgeMessageView, RelayError> {
        if data.len() >= 1 {
            Ok(TokenBridgeMessageView { action: data[0], payload: data.subrange(1, data.len() as int) })
        } else {
            Err(RelayError::Validation)
        }
    }
}

impl TokenBridgeMessage {
    /// Takes a message of the transfer oracle apart.
    pub fn deserialize(data: &[u8]) -> (message: Result<TokenBridgeMessage, RelayError>)
        ensures
            match message {
                Ok(m) => TokenBridgeMessageView::deserialize(data@) == Ok::<
                    TokenBridgeMessageView,
                    RelayError,
                >(m@),
                Err(e) => TokenBridgeMessageView::deserialize(data@) == Err::<
                    TokenBridgeMessageView,
                    RelayError,
                >(e),
            },
    {
        if data.len() < 1 {
            return Err(RelayError::Validation);
        }
        let action = get_u8(data, 0);
        let payload = slice_bytes(data, 1, data.len());
        Ok(TokenBridgeMessage { action, payload })
    }
}

/// The number of bytes of a transfer: 32 of amount, 32 of token address, 2 of
/// token chain, 32 of recipient, 2 of recipient chain, 32 of fee.
pub const TRANSFER_INFO_LEN: usize = 132;

/// The body of a transfer message. The two 256-bit sums are given as their
/// high and low 128 bits.
#[derive(Debug, PartialEq, Eq)]
pub struct TransferInfo {
    pub amount: (u128, u128),
    pub token_address: Vec<u8>,
    pub token_chain: u16,
    pub recipient: Vec<u8>,
    pub recipient_chain: u16,
    pub fee: (u128, u128),
}

/// What a [`TransferInfo`] holds, as mathematical values.
pub struct TransferInfoView {
    pub amount: (u128, u128),
    pub token_address: Seq<u8>,
    pub token_chain: u16,
    pub recipient: Seq<u8>,
    pub recipient_chain: u16,
    pub fee: (u128, u128),
}

impl View for TransferInfo {
    type V = TransferInfoView;

    open spec fn view(&self) -> TransferInfoView {
        TransferInfoView {
            amount: self.amount,
            token_address: self.token_address@,
            token_chain: self.token_chain,
            recipient: self.recipient@,
            recipient_chain: self.recipient_chain,
            fee: self.fee,
        }
    }
}

impl Clone for TransferInfo {
    fn clone(&self) -> (copy: Self)
        ensures
            copy@ == self@,
    {
        TransferInfo {
            amount: self.amount,
            token_address: clone_bytes(&self.token_address),
            token_chain: self.token_chain,
            recipient: clone_bytes(&self.recipient),
            recipient_chain: self.recipient_chain,
            fee: self.fee,
        }
    }
}

impl TransferInfoView {
    /// The transfer that `data` spell, field by field, big-endian. Data
    /// shorter than a transfer spell none; what follows the fee is not read.
    pub open spec fn deserialize(data: Seq<u8>) -> Result<TransferInfoView, RelayError> {
        if data.len() >= TRANSFER_INFO_LEN {
            Ok(
                TransferInfoView {
                    amount: (be_uint(field(data, 0, 16)) as u128, be_uint(field(data, 16, 16)) as u128),
                    token_address: field(data, 32, 32),
                    token_chain: be_uint(field(data, 64, 2)) as u16,
                    recipient: field(data, 66, 32),
                    recipient_chain: be_uint(field(data, 98, 2)) as u16,
                    fee: (be_uint(field(data, 100, 16)) as u128, be_uint(field(data, 116, 16)) as u128),
                },
            )
        } else {
            Err(RelayError::Validation)
        }
    }
}

impl TransferInfo {
    /// Takes the body of a transfer message apart.
    pub fn deserialize(data: &[u8]) -> (info: Result<TransferInfo, RelayError>)
        ensures
            match info {
                Ok(i) => TransferInfoView::deserialize(data@) == Ok::<TransferInfoView, RelayError>(
                    i@,
                ),
                Err(e) => TransferInfoView::deserialize(data@) == Err::<
                    TransferInfoView,
                    RelayError,
                >(e),
            },
    {
        if data.len() < TRANSFER_INFO_LEN {
            return Err(RelayError::Validation);
        }
        let amount = get_u256(data, 0);
        let token_address = get_bytes32(data, 32);
        let token_chain = get_u16(data, 64);
        let recipient = get_bytes32(data, 66);
        let recipient_chain = get_u16(data, 98);
        let fee = get_u256(data, 100);
        Ok(TransferInfo { amount, token_address, token_chain, recipient, recipient_chain, fee })
    }
}

} // verus!
