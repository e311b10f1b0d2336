//! The messages that a proxy understands.

use crate::anchor::VoteOption;
use crate::asset::{Asset, AssetInfo, AssetInfoView, AssetView, Uint256};
use vstd::prelude::*;

verus! {

/// What a proxy is created with.
#[derive(Clone, Debug, PartialEq, Eq)]
pub struct InstantiateMsg {
    pub market_address: String,
    pub overseer_address: String,
    pub anc_gov_address: String,
    pub aterra_address: String,
    pub anc_token: String,
    pub core_address: String,
    pub chain_id: u16,
    pub address: Vec<u8>,
}

/// What an [`InstantiateMsg`] holds, as mathematical values.
pub struct InstantiateMsgView {
    pub market_address: Seq<char>,
    pub overseer_address: Seq<char>,
    pub anc_gov_address: Seq<char>,
    pub aterra_address: Seq<char>,
    pub anc_token: Seq<char>,
    pub core_address: Seq<char>,
    pub chain_id: u16,
    pub address: Seq<u8>,
}

impl View for InstantiateMsg {
    type V = InstantiateMsgView;

    open spec fn view(&self) -> InstantiateMsgView {
        InstantiateMsgView {
            market_address: self.market_address@,
            overseer_address: self.overseer_address@,
            anc_gov_address: self.anc_gov_address@,
            aterra_address: self.aterra_address@,
            anc_token: self.anc_token@,
            core_address: self.core_address@,
            chain_id: self.chain_id,
            address: self.address@,
        }
    }
}

/// What a token transfer to a proxy is for.
#[derive(Clone, Copy, Debug, PartialEq, Eq, Structural)]
pub enum Cw20HookMsg {
    /// Deposit the tokens with their custody contract and lock them as collateral.
    LockCollateral {  },
}

/// A call to a proxy.
#[derive(Clone, Debug, PartialEq, Eq)]
pub enum ExecuteMsg {
    /// Tokens have arrived: `sender` sent `amount` of the calling token contract.
    Receive { sender: String, amount: u128, msg: Cw20HookMsg },
    RepayStable {  },
    /// Unlock collateral and withdraw it from custody.
    UnlockCollateral { asset: Asset },
    BorrowStable { borrow_amount: Uint256 },
    ClaimRewards {  },
    /// The second phase of forwarding; only the proxy itself may send it.
    ForwardDifference { asset_info: AssetInfo, to: String },
    StakeVotingTokens { stake_amount: Uint256 },
    WithdrawVotingTokens { unstake_amount: Uint256 },
    CastVote { poll_id: u64, vote: VoteOption, amount: u128 },
}

/// What an [`ExecuteMsg`] holds, as mathematical values.
pub enum ExecuteMsgView {
    Receive { sender: Seq<char>, amount: u128, msg: Cw20HookMsg },
    RepayStable,
    UnlockCollateral { asset: AssetView },
    BorrowStable { borrow_amount: Uint256 },
    ClaimRewards,
    ForwardDifference { asset_info: AssetInfoView, to: Seq<char> },
    StakeVotingTokens { stake_amount: Uint256 },
    WithdrawVotingTokens { unstake_amount: Uint256 },
    CastVote { poll_id: u64, vote: VoteOption, amount: u128 },
}

impl View for ExecuteMsg {
    type V = ExecuteMsgView;

    open spec fn view(&self) -> ExecuteMsgView {
        match self {
            ExecuteMsg::Receive { sender, amount, msg } => ExecuteMsgView::Receive {
                sender: sender@,
                amount: *amount,
                msg: *msg,
            },
            ExecuteMsg::RepayStable {  } => ExecuteMsgView::RepayStable,
            ExecuteMsg::UnlockCollateral { asset } => ExecuteMsgView::UnlockCollateral {
                asset: asset@,
            },
            ExecuteMsg::BorrowStable { borrow_amount } => ExecuteMsgView::BorrowStable {
                borrow_amount: *borrow_amount,
            },
            ExecuteMsg::ClaimRewards {  } => ExecuteMsgView::ClaimRewards,
            ExecuteMsg::ForwardDifference { asset_info, to } => ExecuteMsgView::ForwardDifference {
                asset_info: asset_info@,
                to: to@,
            },
            ExecuteMsg::StakeVotingTokens { stake_amount } => ExecuteMsgView::StakeVotingTokens {
                stake_amount: *stake_amount,
            },
            ExecuteMsg::WithdrawVotingTokens {
                unstake_amount,
            } => ExecuteMsgView::WithdrawVotingTokens { unstake_amount: *unstake_amount },
            ExecuteMsg::CastVote { poll_id, vote, amount } => ExecuteMsgView::CastVote {
                poll_id: *poll_id,
                vote: *vote,
                amount: *amount,
            },
        }
    }
}

/// What a proxy is migrated with: nothing.
#[derive(Clone, Copy, Debug, PartialEq, Eq, Structural)]
pub struct MigrateMsg {}

/// A question to a proxy. A proxy keeps nothing that can be asked for: the
/// one question has no content, and its answer is empty.
#[derive(Clone, Copy, Debug, PartialEq, Eq, Structural)]
pub enum QueryMsg {
    Empty {  },
}

} // verus!
