//! The messages that the money market understands, and the answers that the
//! relay reads from it.

use crate::asset::{text_option_view, Address, AddressView, Uint256};
use vstd::prelude::*;

verus! {

/// A vote on a governance poll. The relay passes it on unread.
#[derive(Clone, Copy, Debug, PartialEq, Eq, Structural)]
pub enum VoteOption {
    Yes,
    No,
}

/// What the relay reads of the market's configuration.
#[derive(Clone, Debug, PartialEq, Eq)]
pub struct MarketConfigResponse {
    pub aterra_contract: String,
    pub distributor_contract: String,
}

/// What the relay reads of the distributor's configuration.
#[derive(Clone, Debug, PartialEq, Eq)]
pub struct DistributorConfigResponse {
    pub anchor_token: String,
}

/// What the relay reads of the overseer's configuration.
#[derive(Clone, Debug, PartialEq, Eq)]
pub struct OverseerConfigResponse {
    pub market_contract: String,
}

/// The views of a list of collateral tokens, each with a sum of it, in order.
pub open spec fn collaterals_view(list: Seq<(Address, Uint256)>) -> Seq<(AddressView, Uint256)> {
    Seq::new(list.len(), |i: int| (list[i].0@, list[i].1))
}

/// A call to one of the money market's contracts.
#[allow(inconsistent_fields)]
#[derive(Clone, Debug, PartialEq, Eq)]
pub enum ExecuteMsg {
    /// To the overseer: lock these sums of these collateral tokens.
    LockCollateral { collaterals: Vec<(Address, Uint256)> },
    /// To the overseer: unlock these sums of these collateral tokens.
    UnlockCollateral { collaterals: Vec<(Address, Uint256)> },
    /// To governance.
    StakeVotingTokens { stake_amount: Uint256 },
    /// To governance.
    WithdrawVotingTokens { unstake_amount: Uint256 },
    /// To governance.
    CastVote { poll_id: u64, vote: VoteOption, amount: u128 },
    /// To the market.
    DepositStable {  },
    /// To the market.
    BorrowStable { borrow_amount: Uint256, to: Option<String> },
    /// To the market.
    RepayStable {  },
    /// To the market.
    ClaimRewards { to: Option<String> },
    /// To a custody contract.
    WithdrawCollateral { amount: Option<Uint256> },
}

/// What an [`ExecuteMsg`] holds, as mathematical values.
#[allow(inconsistent_fields)]
pub enum ExecuteMsgView {
    LockCollateral { collaterals: Seq<(AddressView, Uint256)> },
    UnlockCollateral { collaterals: Seq<(AddressView, Uint256)> },
    StakeVotingTokens { stake_amount: Uint256 },
    WithdrawVotingTokens { unstake_amount: Uint256 },
    CastVote { poll_id: u64, vote: VoteOption, amount: u128 },
    DepositStable,
    BorrowStable { borrow_amount: Uint256, to: Option<Seq<char>> },
    RepayStable,
    ClaimRewards { to: Option<Seq<char>> },
    WithdrawCollateral { amount: Option<Uint256> },
}

impl View for ExecuteMsg {
    type V = ExecuteMsgView;

    open spec fn view(&self) -> ExecuteMsgView {
        match self {
            ExecuteMsg::LockCollateral { collaterals } => ExecuteMsgView::LockCollateral {
                collaterals: collaterals_view(collaterals@),
            },
            ExecuteMsg::UnlockCollateral { collaterals } => ExecuteMsgView::UnlockCollateral {
                collaterals: collaterals_view(collaterals@),
            },
            ExecuteMsg::StakeVotingTokens { stake_amount } => ExecuteMsgView::StakeVotingTokens {
                stake_amount: *stake_amount,
            },
            ExecuteMsg::WithdrawVotingTokens {
                unstake_amount,
            } => ExecuteMsgView::WithdrawVotingTokens { unstake_amount: *unstake_amount },
            ExecuteMsg::CastVote { poll_id, vote, amount } => ExecuteMsgView::CastVote {
                poll_id: *poll_id,
                vote: *vote,
                amount: *amount,
            },
            ExecuteMsg::DepositStable {  } => ExecuteMsgView::DepositStable,
            ExecuteMsg::BorrowStable { borrow_amount, to } => ExecuteMsgView::BorrowStable {
                borrow_amount: *borrow_amount,
                to: text_option_view(*to),
            },
            ExecuteMsg::RepayStable {  } => ExecuteMsgView::RepayStable,
            ExecuteMsg::ClaimRewards { to } => ExecuteMsgView::ClaimRewards {
                to: text_option_view(*to),
            },
            ExecuteMsg::WithdrawCollateral { amount } => ExecuteMsgView::WithdrawCollateral {
                amount: *amount,
            },
        }
    }
}

/// A question to the market or the overseer.
#[derive(Clone, Debug, PartialEq, Eq)]
pub enum QueryMsg {
    /// To the market, the overseer and the distributor.
    Config {  },
    /// To the overseer: the custody contracts of the collaterals it accepts.
    Whitelist { collateral_token: Option<String>, start_after: Option<String>, limit: Option<u32> },
}

/// What a token transfer to a money-market contract is for.
#[derive(Clone, Copy, Debug, PartialEq, Eq, Structural)]
pub enum Cw20HookMsg {
    /// To a custody contract.
    DepositCollateral {  },
    /// To the market.
    RedeemStable {  },
}

/// What the relay reads of one accepted collateral.
#[derive(Clone, Debug, PartialEq, Eq)]
pub struct WhitelistResponseElem {
    pub custody_contract: String,
    pub collateral_token: String,
}

/// What a [`WhitelistResponseElem`] holds, as mathematical values.
pub struct WhitelistResponseElemView {
    pub custody_contract: Seq<char>,
    pub collateral_token: Seq<char>,
}

impl View for WhitelistResponseElem {
    type V = WhitelistResponseElemView;

    open spec fn view(&self) -> WhitelistResponseElemView {
        WhitelistResponseElemView {
            custody_contract: self.custody_contract@,
            collateral_token: self.collateral_token@,
        }
    }
}

/// The overseer's answer to a whitelist question.
#[derive(Clone, Debug, PartialEq, Eq)]
pub struct WhitelistResponse {
    pub elems: Vec<WhitelistResponseElem>,
}

/// What a [`WhitelistResponse`] holds, as mathematical values.
pub struct WhitelistResponseView {
    pub elems: Seq<WhitelistResponseElemView>,
}

impl View for WhitelistResponse {
    type V = WhitelistResponseView;

    open spec fn view(&self) -> WhitelistResponseView {
        WhitelistResponseView { elems: Seq::new(self.elems@.len(), |i: int| self.elems@[i]@) }
    }
}

/// The view of an answer, or the reason for which none was given.
pub open spec fn whitelist_answer_view(answer: Result<WhitelistResponse, String>) -> Result<
    WhitelistResponseView,
    String,
> {
    match answer {
        Ok(a) => Ok(a@),
        Err(reason) => Err(reason),
    }
}

} // verus!
