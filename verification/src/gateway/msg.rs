//! The messages that the gateway understands.

use crate::asset::{bytes_option_view, Asset, AssetView};
use vstd::prelude::*;

verus! {

/// What the gateway is created with.
#[derive(Clone, Debug, PartialEq, Eq)]
pub struct InstantiateMsg {
    pub owner: String,
    pub wormhole_core_bridge_addr: String,
    pub wormhole_token_bridge_addr: String,
    pub cross_anchor_core_addr: String,
    pub aust_cw20_addr: String,
}

/// A call to the gateway.
#[derive(Clone, Debug, PartialEq, Eq)]
pub enum ExecuteMsg {
    /// An attested instruction of a remote user, with the attestation of the
    /// transfer that accompanies it, if one does.
    ProcessAnchorMessage { instruction_vaa: Vec<u8>, option_token_transfer_vaa: Option<Vec<u8>> },
    /// Router only: relay this sum to the user whose instruction is pending.
    SendAsset { asset: Asset },
    /// Owner only: trust `address` as the gateway of chain `chain_id`.
    RegisterWormholeChainInfo { chain_id: u16, address: Vec<u8> },
}

/// What an [`ExecuteMsg`] holds, as mathematical values.
pub enum ExecuteMsgView {
    ProcessAnchorMessage { instruction_vaa: Seq<u8>, option_token_transfer_vaa: Option<Seq<u8>> },
    SendAsset { asset: AssetView },
    RegisterWormholeChainInfo { chain_id: u16, address: Seq<u8> },
}

impl View for ExecuteMsg {
    type V = ExecuteMsgView;

    open spec fn view(&self) -> ExecuteMsgView {
        match self {
            ExecuteMsg::ProcessAnchorMessage { instruction_vaa, option_token_transfer_vaa } => {
                ExecuteMsgView::ProcessAnchorMessage {
                    instruction_vaa: instruction_vaa@,
                    option_token_transfer_vaa: bytes_option_view(*option_token_transfer_vaa),
                }
            },
            ExecuteMsg::SendAsset { asset } => ExecuteMsgView::SendAsset { asset: asset@ },
            ExecuteMsg::RegisterWormholeChainInfo { chain_id, address } => {
                ExecuteMsgView::RegisterWormholeChainInfo { chain_id: *chain_id, address: address@ }
            },
        }
    }
}

/// What the gateway is migrated with: nothing.
#[derive(Clone, Copy, Debug, PartialEq, Eq, Structural)]
pub struct MigrateMsg {}

/// A question to the gateway.
#[derive(Clone, Copy, Debug, PartialEq, Eq, Structural)]
pub enum QueryMsg {
    /// What is recorded of the instruction with this sequence from this chain.
    SequenceInfo { chain_id: u16, sequence: u64 },
}

} // verus!
