//! What a proxy does, as a function of its state and of what it is handed.
//!
//! The state is a [`ProxyView`](crate::proxy::state::ProxyView): the
//! configuration and the balances recorded. A call either is rejected, for
//! one reason, or gives the state after it and the messages to deliver.

use crate::anchor::WhitelistResponseView;
use crate::anchor;
use crate::asset::{AddressView, AssetInfoView, AssetView, CoinView, Uint256};
use crate::common::{coins_after_tax_spec, forward_difference_msg_spec, forward_difference_spec};
use crate::cw20::{Cw20ExecuteMsgView, HookMsgView};
use crate::error::RelayError;
use crate::message::{plain, CosmosMsgView, ResponseView, SubMsgView, WasmPayloadView};
use crate::proxy::contract::LookupView;
use crate::proxy::msg::ExecuteMsgView;
use crate::proxy::state::{ConfigView, ProxyView};
use crate::router::model::stable_denom;
use crate::store::written_back;
use vstd::prelude::*;

verus! {

/// The custody contract of a collateral: the one that the overseer's answer
/// names first. Where the overseer gave no answer, its reason is handed on.
pub open spec fn custody_contract_spec(whitelist: Result<WhitelistResponseView, String>) -> Result<
    Seq<char>,
    RelayError,
> {
    match whitelist {
        Err(reason) => Err(RelayError::Upstream { reason }),
        Ok(answer) => if answer.elems.len() == 0 {
            Err(RelayError::NotFound)
        } else {
            Ok(answer.elems[0].custody_contract)
        },
    }
}

/// A call to a contract of the money market.
pub open spec fn anchor_call(
    contract: Seq<char>,
    msg: anchor::ExecuteMsgView,
    funds: Seq<CoinView>,
) -> CosmosMsgView {
    CosmosMsgView::Execute {
        contract_addr: AddressView::Human(contract),
        msg: WasmPayloadView::Anchor(msg),
        funds,
    }
}

/// A sum of at most 128 bits as one of 256.
pub open spec fn widen(amount: u128) -> Uint256 {
    Uint256 { high: 0, low: amount }
}

/// The asset whose balance a call records or reads, if it does either.
pub open spec fn forwarded_asset_spec(config: ConfigView, msg: ExecuteMsgView) -> Option<
    AssetInfoView,
> {
    match msg {
        ExecuteMsgView::UnlockCollateral { asset } => Some(asset.info),
        ExecuteMsgView::BorrowStable { .. } => Some(
            AssetInfoView::NativeToken { denom: stable_denom() },
        ),
        ExecuteMsgView::ClaimRewards => Some(
            AssetInfoView::Token { contract_addr: AddressView::Human(config.anc_token) },
        ),
        ExecuteMsgView::ForwardDifference { asset_info, .. } => Some(asset_info),
        _ => None,
    }
}

/// The collateral of whose custody a call needs to know, if it moves any.
pub open spec fn custody_token_spec(sender: Seq<char>, msg: ExecuteMsgView) -> Option<AddressView> {
    match msg {
        ExecuteMsgView::Receive { .. } => Some(AddressView::Human(sender)),
        ExecuteMsgView::UnlockCollateral {
            asset: AssetView { info: AssetInfoView::Token { contract_addr }, .. },
        } => Some(contract_addr),
        _ => None,
    }
}

impl ProxyView {
    /// Whether the call comes from the router or from the proxy itself; for
    /// tokens that arrive, whether the router sent them.
    pub open spec fn authorized(
        self,
        contract_address: Seq<char>,
        sender: Seq<char>,
        msg: ExecuteMsgView,
    ) -> bool {
        match msg {
            ExecuteMsgView::Receive { sender: token_sender, .. } => token_sender
                == self.config.core_address,
            _ => sender == self.config.core_address || sender == contract_address,
        }
    }

    /// The end of an operation that pays out: after the messages `before`,
    /// the first phase of forwarding the asset to the router.
    pub open spec fn forwarding(
        self,
        contract_address: Seq<char>,
        before: Seq<SubMsgView>,
        asset_info: AssetInfoView,
        balance: Result<u128, String>,
    ) -> Result<(ProxyView, ResponseView), RelayError> {
        match forward_difference_msg_spec(
            self.forward_balances,
            contract_address,
            asset_info,
            self.config.core_address,
            false,
            balance,
        ) {
            Err(e) => Err(e),
            Ok((balances, message)) => Ok(
                (
                    ProxyView { forward_balances: balances, ..self },
                    ResponseView::of(before.push(plain(message))),
                ),
            ),
        }
    }

    /// Hands a governance call to the governance contract.
    pub open spec fn governance(self, msg: anchor::ExecuteMsgView) -> ResponseView {
        ResponseView::of(seq![plain(anchor_call(self.config.anc_gov_address, msg, Seq::empty()))])
    }

    /// Claims the rewards of the position, and forwards them.
    pub open spec fn claim_rewards(
        self,
        contract_address: Seq<char>,
        balance: Result<u128, String>,
    ) -> Result<(ProxyView, ResponseView), RelayError> {
        self.forwarding(
            contract_address,
            seq![
                plain(
                    anchor_call(
                        self.config.market_address,
                        anchor::ExecuteMsgView::ClaimRewards { to: None },
                        Seq::empty(),
                    ),
                ),
            ],
            AssetInfoView::Token { contract_addr: AddressView::Human(self.config.anc_token) },
            balance,
        )
    }

    /// Borrows stable coins, and forwards them.
    pub open spec fn borrow_stable(
        self,
        contract_address: Seq<char>,
        borrow_amount: Uint256,
        balance: Result<u128, String>,
    ) -> Result<(ProxyView, ResponseView), RelayError> {
        self.forwarding(
            contract_address,
            seq![
                plain(
                    anchor_call(
                        self.config.market_address,
                        anchor::ExecuteMsgView::BorrowStable { borrow_amount, to: None },
                        Seq::empty(),
                    ),
                ),
            ],
            AssetInfoView::NativeToken { denom: stable_denom() },
            balance,
        )
    }

    /// Repays with the coins that came, less the tax.
    pub open spec fn repay_stable(self, funds: Seq<CoinView>) -> Result<ResponseView, RelayError> {
        match coins_after_tax_spec(funds) {
            Err(e) => Err(e),
            Ok(left) => Ok(
                ResponseView::of(
                    seq![
                        plain(
                            anchor_call(
                                self.config.market_address,
                                anchor::ExecuteMsgView::RepayStable,
                                left,
                            ),
                        ),
                    ],
                ),
            ),
        }
    }

    /// Deposits collateral that has arrived with its custody contract, and
    /// locks it with the overseer.
    pub open spec fn lock_collateral(
        self,
        collateral_token: Seq<char>,
        amount: u128,
        whitelist: Result<WhitelistResponseView, String>,
    ) -> Result<ResponseView, RelayError> {
        match custody_contract_spec(whitelist) {
            Err(e) => Err(e),
            Ok(custody) => Ok(
                ResponseView::of(
                    seq![
                        plain(
                            CosmosMsgView::Execute {
                                contract_addr: AddressView::Human(collateral_token),
                                msg: WasmPayloadView::Cw20(
                                    Cw20ExecuteMsgView::Send {
                                        contract: custody,
                                        amount,
                                        msg: HookMsgView::Anchor(
                                            anchor::Cw20HookMsg::DepositCollateral {  },
                                        ),
                                    },
                                ),
                                funds: Seq::empty(),
                            },
                        ),
                        plain(
                            anchor_call(
                                self.config.overseer_address,
                                anchor::ExecuteMsgView::LockCollateral {
                                    collaterals: seq![
                                        (AddressView::Human(collateral_token), widen(amount)),
                                    ],
                                },
                                Seq::empty(),
                            ),
                        ),
                    ],
                ),
            ),
        }
    }

    /// Unlocks collateral with the overseer, withdraws it from its custody
    /// contract, and forwards it. Only a token can be collateral.
    pub open spec fn unlock_collateral(
        self,
        contract_address: Seq<char>,
        asset: AssetView,
        lookup: LookupView,
    ) -> Result<(ProxyView, ResponseView), RelayError> {
        match asset.info {
            AssetInfoView::NativeToken { .. } => Err(RelayError::Validation),
            AssetInfoView::Token { contract_addr } => match custody_contract_spec(
                lookup.whitelist,
            ) {
                Err(e) => Err(e),
                Ok(custody) => self.forwarding(
                    contract_address,
                    seq![
                        plain(
                            anchor_call(
                                self.config.overseer_address,
                                anchor::ExecuteMsgView::UnlockCollateral {
                                    collaterals: seq![(contract_addr, widen(asset.amount))],
                                },
                                Seq::empty(),
                            ),
                        ),
                        plain(
                            anchor_call(
                                custody,
                                anchor::ExecuteMsgView::WithdrawCollateral {
                                    amount: Some(widen(asset.amount)),
                                },
                                Seq::empty(),
                            ),
                        ),
                    ],
                    asset.info,
                    lookup.balance,
                ),
            },
        }
    }

    /// What a call does, by the kind of message.
    pub open spec fn execute(
        self,
        contract_address: Seq<char>,
        sender: Seq<char>,
        funds: Seq<CoinView>,
        msg: ExecuteMsgView,
        lookup: LookupView,
    ) -> Result<(ProxyView, ResponseView), RelayError> {
        if !self.authorized(contract_address, sender, msg) {
            Err(RelayError::Unauthorized)
        } else {
            match msg {
                ExecuteMsgView::Receive { amount, .. } => match self.lock_collateral(
                    sender,
                    amount,
                    lookup.whitelist,
                ) {
                    Ok(response) => Ok((self, response)),
                    Err(e) => Err(e),
                },
                ExecuteMsgView::RepayStable => match self.repay_stable(funds) {
                    Ok(response) => Ok((self, response)),
                    Err(e) => Err(e),
                },
                ExecuteMsgView::UnlockCollateral { asset } => self.unlock_collateral(
                    contract_address,
                    asset,
                    lookup,
                ),
                ExecuteMsgView::BorrowStable { borrow_amount } => self.borrow_stable(
                    contract_address,
                    borrow_amount,
                    lookup.balance,
                ),
                ExecuteMsgView::ClaimRewards => self.claim_rewards(contract_address, lookup.balance),
                ExecuteMsgView::ForwardDifference { asset_info, to } => {
                    match forward_difference_spec(
                        self.forward_balances,
                        contract_address,
                        sender,
                        asset_info,
                        to,
                        false,
                        lookup.balance,
                    ) {
                        Ok((balances, response)) => Ok(
                            (ProxyView { forward_balances: balances, ..self }, response),
                        ),
                        Err(e) => Err(e),
                    }
                },
                ExecuteMsgView::StakeVotingTokens { stake_amount } => Ok(
                    (
                        self,
                        self.governance(anchor::ExecuteMsgView::StakeVotingTokens { stake_amount }),
                    ),
                ),
                ExecuteMsgView::WithdrawVotingTokens { unstake_amount } => Ok(
                    (
                        self,
                        self.governance(
                            anchor::ExecuteMsgView::WithdrawVotingTokens { unstake_amount },
                        ),
                    ),
                ),
                ExecuteMsgView::CastVote { poll_id, vote, amount } => Ok(
                    (
                        self,
                        self.governance(anchor::ExecuteMsgView::CastVote { poll_id, vote, amount }),
                    ),
                ),
            }
        }
    }
}

impl ProxyView {
    /// Whether `self` holds a part of what `full` holds: the same
    /// configuration, and a part of the balances recorded.
    pub open spec fn part_of(self, full: ProxyView) -> bool {
        &&& self.config == full.config
        &&& self.forward_balances.submap_of(full.forward_balances)
    }

    /// `self` after `part`, a part of it, was worked on and became
    /// `part_after`: the records that the part held are replaced by those
    /// that it holds after, and all others are as they were.
    pub open spec fn overwritten_with(self, part: ProxyView, part_after: ProxyView) -> ProxyView {
        ProxyView {
            config: part_after.config,
            forward_balances: written_back(
                self.forward_balances,
                part.forward_balances,
                part_after.forward_balances,
            ),
        }
    }
}

} // verus!
