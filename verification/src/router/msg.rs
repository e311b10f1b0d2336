//! The messages that the router understands.

use crate::anchor::VoteOption;
use crate::asset::{
    text_option_view, texts_view, Asset, AssetInfo, AssetInfoView, AssetView, Uint256,
};
use vstd::prelude::*;

verus! {

/// What the router is created with.
#[derive(Clone, Debug, PartialEq, Eq)]
pub struct InstantiateMsg {
    pub address_proxy_code_id: u64,
    pub owner: String,
    pub overseer_address: String,
    pub anc_gov_address: String,
}

/// What a token transfer to the router is for.
#[derive(Clone, Debug, PartialEq, Eq)]
pub enum Cw20HookMsg {
    /// Redeem the receipt tokens that came with the message for stable coins.
    RedeemStable { sender_chain: u16, sender_address: Vec<u8> },
    /// Deposit the tokens and lock them as collateral of the remote user.
    LockCollateral { sender_chain: u16, sender_address: Vec<u8> },
}

/// What a [`Cw20HookMsg`] holds, as mathematical values.
pub enum Cw20HookMsgView {
    RedeemStable { sender_chain: u16, sender_address: Seq<u8> },
    LockCollateral { sender_chain: u16, sender_address: Seq<u8> },
}

impl View for Cw20HookMsg {
    type V = Cw20HookMsgView;

    open spec fn view(&self) -> Cw20HookMsgView {
        match self {
            Cw20HookMsg::RedeemStable { sender_chain, sender_address } => {
                Cw20HookMsgView::RedeemStable {
                    sender_chain: *sender_chain,
                    sender_address: sender_address@,
                }
            },
            Cw20HookMsg::LockCollateral { sender_chain, sender_address } => {
                Cw20HookMsgView::LockCollateral {
                    sender_chain: *sender_chain,
                    sender_address: sender_address@,
                }
            },
        }
    }
}

/// A call to the router.
#[derive(Clone, Debug, PartialEq, Eq)]
pub enum ExecuteMsg {
    /// Make sure that the remote user has a proxy.
    InitializeAddressProxy { chain_id: u16, address: Vec<u8> },
    /// Tokens have arrived: `sender` sent `amount` of the calling token contract.
    Receive { sender: String, amount: u128, msg: Cw20HookMsg },
    DepositStable { sender_chain: u16, sender_address: Vec<u8> },
    RepayStable { sender_chain: u16, sender_address: Vec<u8> },
    /// Unlock collateral and withdraw it from custody.
    UnlockCollateral { sender_chain: u16, sender_address: Vec<u8>, asset: Asset },
    BorrowStable { sender_chain: u16, sender_address: Vec<u8>, borrow_amount: Uint256 },
    ClaimRewards { sender_chain: u16, sender_address: Vec<u8> },
    StakeVotingTokens { sender_chain: u16, sender_address: Vec<u8>, stake_amount: Uint256 },
    WithdrawVotingTokens { sender_chain: u16, sender_address: Vec<u8>, unstake_amount: Uint256 },
    CastVote {
        sender_chain: u16,
        sender_address: Vec<u8>,
        poll_id: u64,
        vote: VoteOption,
        amount: u128,
    },
    /// Owner only: trust these callers as gateways.
    AddBridges { bridges: Vec<String> },
    /// Owner only.
    UpdateConfig { owner: Option<String>, address_proxy_code_id: Option<u64> },
    /// The second phase of forwarding; only the router itself may send it.
    ForwardDifferenceAndInitiateBridgeTransfer { asset_info: AssetInfo, to: String },
}

/// What an [`ExecuteMsg`] holds, as mathematical values.
pub enum ExecuteMsgView {
    InitializeAddressProxy { chain_id: u16, address: Seq<u8> },
    Receive { sender: Seq<char>, amount: u128, msg: Cw20HookMsgView },
    DepositStable { sender_chain: u16, sender_address: Seq<u8> },
    RepayStable { sender_chain: u16, sender_address: Seq<u8> },
    UnlockCollateral { sender_chain: u16, sender_address: Seq<u8>, asset: AssetView },
    BorrowStable { sender_chain: u16, sender_address: Seq<u8>, borrow_amount: Uint256 },
    ClaimRewards { sender_chain: u16, sender_address: Seq<u8> },
    StakeVotingTokens { sender_chain: u16, sender_address: Seq<u8>, stake_amount: Uint256 },
    WithdrawVotingTokens { sender_chain: u16, sender_address: Seq<u8>, unstake_amount: Uint256 },
    CastVote {
        sender_chain: u16,
        sender_address: Seq<u8>,
        poll_id: u64,
        vote: VoteOption,
        amount: u128,
    },
    AddBridges { bridges: Seq<Seq<char>> },
    UpdateConfig { owner: Option<Seq<char>>, address_proxy_code_id: Option<u64> },
    ForwardDifferenceAndInitiateBridgeTransfer { asset_info: AssetInfoView, to: Seq<char> },
}

impl View for ExecuteMsg {
    type V = ExecuteMsgView;

    open spec fn view(&self) -> ExecuteMsgView {
        match self {
            ExecuteMsg::InitializeAddressProxy { chain_id, address } => {
                ExecuteMsgView::InitializeAddressProxy { chain_id: *chain_id, address: address@ }
            },
            ExecuteMsg::Receive { sender, amount, msg } => ExecuteMsgView::Receive {
                sender: sender@,
                amount: *amount,
                msg: msg@,
            },
            ExecuteMsg::DepositStable { sender_chain, sender_address } => {
                ExecuteMsgView::DepositStable {
                    sender_chain: *sender_chain,
                    sender_address: sender_address@,
                }
            },
            ExecuteMsg::RepayStable { sender_chain, sender_address } => {
                ExecuteMsgView::RepayStable {
                    sender_chain: *sender_chain,
                    sender_address: sender_address@,
                }
            },
            ExecuteMsg::UnlockCollateral { sender_chain, sender_address, asset } => {
                ExecuteMsgView::UnlockCollateral {
                    sender_chain: *sender_chain,
                    sender_address: sender_address@,
                    asset: asset@,
                }
            },
            ExecuteMsg::BorrowStable { sender_chain, sender_address, borrow_amount } => {
                ExecuteMsgView::BorrowStable {
                    sender_chain: *sender_chain,
                    sender_address: sender_address@,
                    borrow_amount: *borrow_amount,
                }
            },
            ExecuteMsg::ClaimRewards { sender_chain, sender_address } => {
                ExecuteMsgView::ClaimRewards {
                    sender_chain: *sender_chain,
                    sender_address: sender_address@,
                }
            },
            ExecuteMsg::StakeVotingTokens { sender_chain, sender_address, stake_amount } => {
                ExecuteMsgView::StakeVotingTokens {
                    sender_chain: *sender_chain,
                    sender_address: sender_address@,
                    stake_amount: *stake_amount,
                }
            },
            ExecuteMsg::WithdrawVotingTokens { sender_chain, sender_address, unstake_amount } => {
                ExecuteMsgView::WithdrawVotingTokens {
                    sender_chain: *sender_chain,
                    sender_address: sender_address@,
                    unstake_amount: *unstake_amount,
                }
            },
            ExecuteMsg::CastVote { sender_chain, sender_address, poll_id, vote, amount } => {
                ExecuteMsgView::CastVote {
                    sender_chain: *sender_chain,
                    sender_address: sender_address@,
                    poll_id: *poll_id,
                    vote: *vote,
                    amount: *amount,
                }
            },
            ExecuteMsg::AddBridges { bridges } => ExecuteMsgView::AddBridges {
                bridges: texts_view(bridges@),
            },
            ExecuteMsg::UpdateConfig { owner, address_proxy_code_id } => {
                ExecuteMsgView::UpdateConfig {
                    owner: text_option_view(*owner),
                    address_proxy_code_id: *address_proxy_code_id,
                }
            },
            ExecuteMsg::ForwardDifferenceAndInitiateBridgeTransfer { asset_info, to } => {
                ExecuteMsgView::ForwardDifferenceAndInitiateBridgeTransfer {
                    asset_info: asset_info@,
                    to: to@,
                }
            },
        }
    }
}

/// What the router is migrated with: nothing.
#[derive(Clone, Copy, Debug, PartialEq, Eq, Structural)]
pub struct MigrateMsg {}

/// A question to the router.
#[derive(Clone, Debug, PartialEq, Eq)]
pub enum QueryMsg {
    Config {  },
    /// The address of the proxy of a remote user.
    TerraAddress { sender_chain: u16, sender_address: Vec<u8> },
}

} // verus!
