//! What the router does, as a function of its state and of what it is handed.
//!
//! The state is a [`RouterView`](crate::router::state::RouterView): the
//! configuration, the user whose proxy is being made, and the tables as
//! maps. A call either is rejected, for one reason, or gives the state after
//! it and the messages to deliver.

use crate::anchor;
use crate::asset::{AddressView, AssetInfoView, AssetView, CoinView, Uint256};
use crate::common::{coins_after_tax_spec, forward_difference_msg_spec, forward_difference_spec};
use crate::cw20::{Cw20ExecuteMsgView, HookMsgView};
use crate::error::RelayError;
use crate::message::{plain, CosmosMsgView, ReplyOn, ResponseView, SubMsgView, WasmPayloadView};
use crate::proxy;
use crate::router::contract::{instantiate_response_address, INSTANTIATE_REPLY_ID};
use crate::router::msg::{Cw20HookMsgView, ExecuteMsgView};
use crate::router::state::{spec_bridge_key, spec_proxy_key, ConfigView, RemoteUserView, RouterView};
use crate::store::{loaded, written_back};
use vstd::prelude::*;

verus! {

/// The table `bridges` with each of `added` in it.
pub open spec fn with_bridges(bridges: Map<Seq<u8>, bool>, added: Seq<Seq<char>>) -> Map<
    Seq<u8>,
    bool,
>
    decreases added.len(),
{
    if added.len() == 0 {
        bridges
    } else {
        with_bridges(bridges, added.drop_last()).insert(spec_bridge_key(added.last()), true)
    }
}

/// The request to the chain to make a proxy for a user. The router wants to
/// hear of it when it is made.
pub open spec fn instantiate_proxy_message(
    config: ConfigView,
    contract_address: Seq<char>,
    chain_id: u16,
    address: Seq<u8>,
) -> SubMsgView {
    SubMsgView {
        id: INSTANTIATE_REPLY_ID,
        msg: CosmosMsgView::Instantiate {
            admin: Some(contract_address),
            code_id: config.address_proxy_code_id,
            msg: proxy::msg::InstantiateMsgView {
                market_address: config.market_address,
                overseer_address: config.overseer_address,
                anc_gov_address: config.anc_gov_address,
                aterra_address: config.aterra_address,
                anc_token: config.anc_token,
                core_address: contract_address,
                chain_id,
                address,
            },
            funds: Seq::empty(),
            label: Seq::empty(),
        },
        reply_on: ReplyOn::Success,
    }
}

/// The asset whose balance a call records or reads, if it does either.
pub open spec fn forwarded_asset_spec(config: ConfigView, msg: ExecuteMsgView) -> Option<
    AssetInfoView,
> {
    match msg {
        ExecuteMsgView::DepositStable { .. } => Some(
            AssetInfoView::Token { contract_addr: AddressView::Human(config.aterra_address) },
        ),
        ExecuteMsgView::Receive { msg: Cw20HookMsgView::RedeemStable { .. }, .. } => Some(
            AssetInfoView::NativeToken { denom: stable_denom() },
        ),
        ExecuteMsgView::UnlockCollateral { asset, .. } => Some(asset.info),
        ExecuteMsgView::BorrowStable { .. } => Some(
            AssetInfoView::NativeToken { denom: stable_denom() },
        ),
        ExecuteMsgView::ClaimRewards { .. } => Some(
            AssetInfoView::Token { contract_addr: AddressView::Human(config.anc_token) },
        ),
        ExecuteMsgView::ForwardDifferenceAndInitiateBridgeTransfer { asset_info, .. } => Some(
            asset_info,
        ),
        _ => None,
    }
}

/// The user in whose name a call is made, if it is made in one's name.
pub open spec fn named_user_spec(msg: ExecuteMsgView) -> Option<RemoteUserView> {
    match msg {
        ExecuteMsgView::InitializeAddressProxy { chain_id, address } => Some(
            RemoteUserView { chain_id, address },
        ),
        ExecuteMsgView::Receive {
            msg: Cw20HookMsgView::RedeemStable { sender_chain, sender_address },
            ..
        } => Some(RemoteUserView { chain_id: sender_chain, address: sender_address }),
        ExecuteMsgView::Receive {
            msg: Cw20HookMsgView::LockCollateral { sender_chain, sender_address },
            ..
        } => Some(RemoteUserView { chain_id: sender_chain, address: sender_address }),
        ExecuteMsgView::DepositStable { sender_chain, sender_address } => Some(
            RemoteUserView { chain_id: sender_chain, address: sender_address },
        ),
        ExecuteMsgView::RepayStable { sender_chain, sender_address } => Some(
            RemoteUserView { chain_id: sender_chain, address: sender_address },
        ),
        ExecuteMsgView::UnlockCollateral { sender_chain, sender_address, .. } => Some(
            RemoteUserView { chain_id: sender_chain, address: sender_address },
        ),
        ExecuteMsgView::BorrowStable { sender_chain, sender_address, .. } => Some(
            RemoteUserView { chain_id: sender_chain, address: sender_address },
        ),
        ExecuteMsgView::ClaimRewards { sender_chain, sender_address } => Some(
            RemoteUserView { chain_id: sender_chain, address: sender_address },
        ),
        ExecuteMsgView::StakeVotingTokens { sender_chain, sender_address, .. } => Some(
            RemoteUserView { chain_id: sender_chain, address: sender_address },
        ),
        ExecuteMsgView::WithdrawVotingTokens { sender_chain, sender_address, .. } => Some(
            RemoteUserView { chain_id: sender_chain, address: sender_address },
        ),
        ExecuteMsgView::CastVote { sender_chain, sender_address, .. } => Some(
            RemoteUserView { chain_id: sender_chain, address: sender_address },
        ),
        _ => None,
    }
}

/// The gateway that sent the tokens of which a call tells, if it tells of any.
pub open spec fn token_sender_spec(msg: ExecuteMsgView) -> Option<Seq<char>> {
    match msg {
        ExecuteMsgView::Receive { sender, .. } => Some(sender),
        _ => None,
    }
}

/// A result without a change of state, as one with the state it left.
pub open spec fn unchanged(state: RouterView, result: Result<ResponseView, RelayError>) -> Result<
    (RouterView, ResponseView),
    RelayError,
> {
    match result {
        Ok(response) => Ok((state, response)),
        Err(e) => Err(e),
    }
}

impl RouterView {
    /// The owner changes the owner, the code of the proxies, or both.
    pub open spec fn update_config(
        self,
        sender: Seq<char>,
        owner: Option<Seq<char>>,
        address_proxy_code_id: Option<u64>,
    ) -> Result<(RouterView, ResponseView), RelayError> {
        if sender != self.config.owner {
            Err(RelayError::Unauthorized)
        } else {
            Ok(
                (
                    RouterView {
                        config: ConfigView {
                            owner: match owner {
                                Some(o) => o,
                                None => self.config.owner,
                            },
                            address_proxy_code_id: match address_proxy_code_id {
                                Some(id) => id,
                                None => self.config.address_proxy_code_id,
                            },
                            ..self.config
                        },
                        ..self
                    },
                    ResponseView::empty(),
                ),
            )
        }
    }

    /// The owner names gateways to trust.
    pub open spec fn add_bridges(self, sender: Seq<char>, bridges: Seq<Seq<char>>) -> Result<
        (RouterView, ResponseView),
        RelayError,
    > {
        if sender != self.config.owner {
            Err(RelayError::Unauthorized)
        } else {
            Ok(
                (
                    RouterView {
                        whitelisted_bridges: with_bridges(self.whitelisted_bridges, bridges),
                        ..self
                    },
                    ResponseView::empty(),
                ),
            )
        }
    }

    /// Makes sure that a user has a proxy, for a trusted gateway. For a user
    /// who has one, nothing is done. For another, the user is noted as the
    /// one whose proxy is being made, and the chain is asked to make it.
    pub open spec fn initialize_address_proxy(
        self,
        contract_address: Seq<char>,
        sender: Seq<char>,
        chain_id: u16,
        address: Seq<u8>,
    ) -> Result<(RouterView, ResponseView), RelayError> {
        if !self.whitelisted(sender) {
            Err(RelayError::Unauthorized)
        } else if self.provisioned(chain_id, address) {
            Ok((self, ResponseView::empty()))
        } else {
            Ok(
                (
                    RouterView {
                        current_address_proxy: Some(RemoteUserView { chain_id, address }),
                        ..self
                    },
                    ResponseView::of(
                        seq![
                            instantiate_proxy_message(
                                self.config,
                                contract_address,
                                chain_id,
                                address,
                            ),
                        ],
                    ),
                ),
            )
        }
    }

    /// Records `address` as the proxy of the user whose proxy was being made.
    pub open spec fn register_proxy(self, address: Option<Seq<char>>) -> Result<
        (RouterView, ResponseView),
        RelayError,
    > {
        match address {
            None => Err(RelayError::Validation),
            Some(proxy) => match self.current_address_proxy {
                None => Err(RelayError::NotFound),
                Some(user) => Ok(
                    (
                        RouterView {
                            address_proxies: self.address_proxies.insert(
                                spec_proxy_key(user.chain_id, user.address),
                                proxy,
                            ),
                            ..self
                        },
                        ResponseView::empty(),
                    ),
                ),
            },
        }
    }

    /// What the router makes of the chain's report on a creation: the proxy
    /// that the report names is recorded. A report of a failure is refused
    /// for the reason that it gives, and one without data is refused.
    pub open spec fn reply(self, failure: Option<String>, data: Option<Seq<u8>>) -> Result<
        (RouterView, ResponseView),
        RelayError,
    > {
        if failure is Some {
            Err(RelayError::Upstream { reason: failure->Some_0 })
        } else {
            match data {
                None => Err(RelayError::Validation),
                Some(bytes) => self.register_proxy(instantiate_response_address(bytes)),
            }
        }
    }

    /// Tokens have arrived from `sender`, which must be a trusted gateway:
    /// collateral is handed on to the user's proxy; receipt tokens are redeemed.
    pub open spec fn receive_cw20(
        self,
        contract_address: Seq<char>,
        token_address: Seq<char>,
        sender: Seq<char>,
        amount: u128,
        msg: Cw20HookMsgView,
        balance: Result<u128, String>,
    ) -> Result<(RouterView, ResponseView), RelayError> {
        if !self.whitelisted(sender) {
            Err(RelayError::Unauthorized)
        } else {
            match msg {
                Cw20HookMsgView::LockCollateral { sender_chain, sender_address } => unchanged(
                    self,
                    self.lock_collateral(sender_chain, sender_address, token_address, amount),
                ),
                Cw20HookMsgView::RedeemStable { .. } => self.redeem_stable(
                    contract_address,
                    sender,
                    token_address,
                    amount,
                    balance,
                ),
            }
        }
    }

    /// What a call does, by the kind of message.
    pub open spec fn execute(
        self,
        contract_address: Seq<char>,
        sender: Seq<char>,
        funds: Seq<CoinView>,
        msg: ExecuteMsgView,
        balance: Result<u128, String>,
    ) -> Result<(RouterView, ResponseView), RelayError> {
        match msg {
            ExecuteMsgView::Receive { sender: token_sender, amount, msg } => self.receive_cw20(
                contract_address,
                sender,
                token_sender,
                amount,
                msg,
                balance,
            ),
            ExecuteMsgView::InitializeAddressProxy { chain_id, address } => {
                self.initialize_address_proxy(contract_address, sender, chain_id, address)
            },
            ExecuteMsgView::DepositStable { .. } => self.deposit_stable(
                contract_address,
                sender,
                funds,
                balance,
            ),
            ExecuteMsgView::RepayStable { sender_chain, sender_address } => unchanged(
                self,
                self.repay_stable(sender, funds, sender_chain, sender_address),
            ),
            ExecuteMsgView::UnlockCollateral { sender_chain, sender_address, asset } => {
                self.unlock_collateral(
                    contract_address,
                    sender,
                    funds,
                    sender_chain,
                    sender_address,
                    asset,
                    balance,
                )
            },
            ExecuteMsgView::BorrowStable { sender_chain, sender_address, borrow_amount } => {
                self.borrow_stable(
                    contract_address,
                    sender,
                    sender_chain,
                    sender_address,
                    borrow_amount,
                    balance,
                )
            },
            ExecuteMsgView::ClaimRewards { sender_chain, sender_address } => self.claim_rewards(
                contract_address,
                sender,
                funds,
                sender_chain,
                sender_address,
                balance,
            ),
            ExecuteMsgView::AddBridges { bridges } => self.add_bridges(sender, bridges),
            ExecuteMsgView::ForwardDifferenceAndInitiateBridgeTransfer { asset_info, to } => {
                match forward_difference_spec(
                    self.forward_balances,
                    contract_address,
                    sender,
                    asset_info,
                    to,
                    true,
                    balance,
                ) {
                    Ok((balances, response)) => Ok(
                        (RouterView { forward_balances: balances, ..self }, response),
                    ),
                    Err(e) => Err(e),
                }
            },
            ExecuteMsgView::UpdateConfig { owner, address_proxy_code_id } => self.update_config(
                sender,
                owner,
                address_proxy_code_id,
            ),
            ExecuteMsgView::StakeVotingTokens { sender_chain, sender_address, stake_amount } => {
                unchanged(
                    self,
                    self.pass_to_proxy(
                        sender,
                        sender_chain,
                        sender_address,
                        proxy::msg::ExecuteMsgView::StakeVotingTokens { stake_amount },
                    ),
                )
            },
            ExecuteMsgView::WithdrawVotingTokens {
                sender_chain,
                sender_address,
                unstake_amount,
            } => unchanged(
                self,
                self.pass_to_proxy(
                    sender,
                    sender_chain,
                    sender_address,
                    proxy::msg::ExecuteMsgView::WithdrawVotingTokens { unstake_amount },
                ),
            ),
            ExecuteMsgView::CastVote { sender_chain, sender_address, poll_id, vote, amount } => {
                unchanged(
                    self,
                    self.pass_to_proxy(
                        sender,
                        sender_chain,
                        sender_address,
                        proxy::msg::ExecuteMsgView::CastVote { poll_id, vote, amount },
                    ),
                )
            },
        }
    }
}

impl RouterView {
    /// Whether `self` holds a part of what `full` holds: the same
    /// configuration and user in the making, and in each table a part of the
    /// entries of `full`.
    pub open spec fn part_of(self, full: RouterView) -> bool {
        &&& self.config == full.config
        &&& self.current_address_proxy == full.current_address_proxy
        &&& self.whitelisted_bridges.submap_of(full.whitelisted_bridges)
        &&& self.address_proxies.submap_of(full.address_proxies)
        &&& self.forward_balances.submap_of(full.forward_balances)
    }

    /// `self` after `part`, a part of it, was worked on and became
    /// `part_after`: the records that the part held are replaced by those
    /// that it holds after, and all others are as they were.
    pub open spec fn overwritten_with(self, part: RouterView, part_after: RouterView) -> RouterView {
        RouterView {
            config: part_after.config,
            current_address_proxy: part_after.current_address_proxy,
            whitelisted_bridges: written_back(
                self.whitelisted_bridges,
                part.whitelisted_bridges,
                part_after.whitelisted_bridges,
            ),
            address_proxies: written_back(
                self.address_proxies,
                part.address_proxies,
                part_after.address_proxies,
            ),
            forward_balances: written_back(
                self.forward_balances,
                part.forward_balances,
                part_after.forward_balances,
            ),
        }
    }

    /// Whether `self`, a part of `full`, holds every record of `full` that a
    /// call reads: the trust in the caller and in the sender of the tokens,
    /// the proxy of the user that the call names, and the balance recorded
    /// for the asset that the call forwards.
    pub open spec fn holds_what_is_read(
        self,
        full: RouterView,
        sender: Seq<char>,
        msg: ExecuteMsgView,
    ) -> bool {
        &&& loaded(self.whitelisted_bridges, full.whitelisted_bridges, spec_bridge_key(sender))
        &&& token_sender_spec(msg) is Some ==> loaded(
            self.whitelisted_bridges,
            full.whitelisted_bridges,
            spec_bridge_key(token_sender_spec(msg)->Some_0),
        )
        &&& named_user_spec(msg) is Some ==> loaded(
            self.address_proxies,
            full.address_proxies,
            spec_proxy_key(
                named_user_spec(msg)->Some_0.chain_id,
                named_user_spec(msg)->Some_0.address,
            ),
        )
        &&& forwarded_asset_spec(full.config, msg) is Some ==> loaded(
            self.forward_balances,
            full.forward_balances,
            forwarded_asset_spec(full.config, msg)->Some_0.key(),
        )
    }
}

/// The stable coin of the money market.
pub open spec fn stable_denom() -> Seq<char> {
    "uusd"@
}

/// The message that brings a proxy to the current code.
pub open spec fn migrate_address_proxy_message(config: ConfigView, proxy: Seq<char>) -> CosmosMsgView {
    CosmosMsgView::Migrate {
        contract_addr: proxy,
        new_code_id: config.address_proxy_code_id,
        msg: proxy::msg::MigrateMsg {  },
    }
}

/// A call to a proxy.
pub open spec fn proxy_call(
    proxy: Seq<char>,
    msg: proxy::msg::ExecuteMsgView,
    funds: Seq<CoinView>,
) -> CosmosMsgView {
    CosmosMsgView::Execute {
        contract_addr: AddressView::Human(proxy),
        msg: WasmPayloadView::Proxy(msg),
        funds,
    }
}

impl RouterView {
    /// The end of an operation that pays out: after the messages `before`,
    /// the first phase of forwarding the asset to `to`, with a relay.
    pub open spec fn forwarding(
        self,
        contract_address: Seq<char>,
        before: Seq<SubMsgView>,
        asset_info: AssetInfoView,
        to: Seq<char>,
        balance: Result<u128, String>,
    ) -> Result<(RouterView, ResponseView), RelayError> {
        match forward_difference_msg_spec(
            self.forward_balances,
            contract_address,
            asset_info,
            to,
            true,
            balance,
        ) {
            Err(e) => Err(e),
            Ok((balances, message)) => Ok(
                (
                    RouterView { forward_balances: balances, ..self },
                    ResponseView::of(before.push(plain(message))),
                ),
            ),
        }
    }

    /// Hands collateral that has arrived on to the user's proxy.
    pub open spec fn lock_collateral(
        self,
        sender_chain: u16,
        sender_address: Seq<u8>,
        collateral_address: Seq<char>,
        collateral_amount: u128,
    ) -> Result<ResponseView, RelayError> {
        if !self.provisioned(sender_chain, sender_address) {
            Err(RelayError::NotFound)
        } else {
            let proxy = self.proxy_of(sender_chain, sender_address);
            Ok(
                ResponseView::of(
                    seq![
                        plain(migrate_address_proxy_message(self.config, proxy)),
                        plain(
                            CosmosMsgView::Execute {
                                contract_addr: AddressView::Human(collateral_address),
                                msg: WasmPayloadView::Cw20(
                                    Cw20ExecuteMsgView::Send {
                                        contract: proxy,
                                        amount: collateral_amount,
                                        msg: HookMsgView::Proxy(
                                            proxy::msg::Cw20HookMsg::LockCollateral {  },
                                        ),
                                    },
                                ),
                                funds: Seq::empty(),
                            },
                        ),
                    ],
                ),
            )
        }
    }

    /// Hands a repayment on to the user's proxy, with the coins that came, less the tax.
    pub open spec fn repay_stable(
        self,
        sender: Seq<char>,
        funds: Seq<CoinView>,
        sender_chain: u16,
        sender_address: Seq<u8>,
    ) -> Result<ResponseView, RelayError> {
        if !self.whitelisted(sender) {
            Err(RelayError::Unauthorized)
        } else if !self.provisioned(sender_chain, sender_address) {
            Err(RelayError::NotFound)
        } else {
            let proxy = self.proxy_of(sender_chain, sender_address);
            match coins_after_tax_spec(funds) {
                Err(e) => Err(e),
                Ok(left) => Ok(
                    ResponseView::of(
                        seq![
                            plain(migrate_address_proxy_message(self.config, proxy)),
                            plain(proxy_call(proxy, proxy::msg::ExecuteMsgView::RepayStable, left)),
                        ],
                    ),
                ),
            }
        }
    }

    /// Has the user's proxy unlock and withdraw collateral, and forwards it.
    pub open spec fn unlock_collateral(
        self,
        contract_address: Seq<char>,
        sender: Seq<char>,
        funds: Seq<CoinView>,
        sender_chain: u16,
        sender_address: Seq<u8>,
        asset: AssetView,
        balance: Result<u128, String>,
    ) -> Result<(RouterView, ResponseView), RelayError> {
        if !self.whitelisted(sender) {
            Err(RelayError::Unauthorized)
        } else if !self.provisioned(sender_chain, sender_address) {
            Err(RelayError::NotFound)
        } else {
            let proxy = self.proxy_of(sender_chain, sender_address);
            match coins_after_tax_spec(funds) {
                Err(e) => Err(e),
                Ok(left) => self.forwarding(
                    contract_address,
                    seq![
                        plain(migrate_address_proxy_message(self.config, proxy)),
                        plain(
                            proxy_call(
                                proxy,
                                proxy::msg::ExecuteMsgView::UnlockCollateral { asset },
                                left,
                            ),
                        ),
                    ],
                    asset.info,
                    sender,
                    balance,
                ),
            }
        }
    }

    /// Has the user's proxy borrow stable coins, and forwards them.
    pub open spec fn borrow_stable(
        self,
        contract_address: Seq<char>,
        sender: Seq<char>,
        sender_chain: u16,
        sender_address: Seq<u8>,
        borrow_amount: Uint256,
        balance: Result<u128, String>,
    ) -> Result<(RouterView, ResponseView), RelayError> {
        if !self.whitelisted(sender) {
            Err(RelayError::Unauthorized)
        } else if !self.provisioned(sender_chain, sender_address) {
            Err(RelayError::NotFound)
        } else {
            let proxy = self.proxy_of(sender_chain, sender_address);
            self.forwarding(
                contract_address,
                seq![
                    plain(migrate_address_proxy_message(self.config, proxy)),
                    plain(
                        proxy_call(
                            proxy,
                            proxy::msg::ExecuteMsgView::BorrowStable { borrow_amount },
                            Seq::empty(),
                        ),
                    ),
                ],
                AssetInfoView::NativeToken { denom: stable_denom() },
                sender,
                balance,
            )
        }
    }

    /// Has the user's proxy claim its rewards, and forwards them.
    pub open spec fn claim_rewards(
        self,
        contract_address: Seq<char>,
        sender: Seq<char>,
        funds: Seq<CoinView>,
        sender_chain: u16,
        sender_address: Seq<u8>,
        balance: Result<u128, String>,
    ) -> Result<(RouterView, ResponseView), RelayError> {
        if !self.whitelisted(sender) {
            Err(RelayError::Unauthorized)
        } else if !self.provisioned(sender_chain, sender_address) {
            Err(RelayError::NotFound)
        } else {
            let proxy = self.proxy_of(sender_chain, sender_address);
            match coins_after_tax_spec(funds) {
                Err(e) => Err(e),
                Ok(left) => self.forwarding(
                    contract_address,
                    seq![
                        plain(migrate_address_proxy_message(self.config, proxy)),
                        plain(proxy_call(proxy, proxy::msg::ExecuteMsgView::ClaimRewards, left)),
                    ],
                    AssetInfoView::Token {
                        contract_addr: AddressView::Human(self.config.anc_token),
                    },
                    sender,
                    balance,
                ),
            }
        }
    }
}

impl RouterView {
    /// Sends receipt tokens that have arrived to the market for redemption,
    /// and forwards the stable coins that come back to the gateway.
    pub open spec fn redeem_stable(
        self,
        contract_address: Seq<char>,
        bridge_address: Seq<char>,
        token_address: Seq<char>,
        amount: u128,
        balance: Result<u128, String>,
    ) -> Result<(RouterView, ResponseView), RelayError> {
        self.forwarding(
            contract_address,
            seq![
                plain(
                    CosmosMsgView::Execute {
                        contract_addr: AddressView::Human(token_address),
                        msg: WasmPayloadView::Cw20(
                            Cw20ExecuteMsgView::Send {
                                contract: self.config.market_address,
                                amount,
                                msg: HookMsgView::Anchor(anchor::Cw20HookMsg::RedeemStable {  }),
                            },
                        ),
                        funds: Seq::empty(),
                    },
                ),
            ],
            AssetInfoView::NativeToken { denom: stable_denom() },
            bridge_address,
            balance,
        )
    }

    /// Deposits the coins that came, less the tax, in the market, and
    /// forwards the receipt tokens that come back to the gateway.
    pub open spec fn deposit_stable(
        self,
        contract_address: Seq<char>,
        sender: Seq<char>,
        funds: Seq<CoinView>,
        balance: Result<u128, String>,
    ) -> Result<(RouterView, ResponseView), RelayError> {
        if !self.whitelisted(sender) {
            Err(RelayError::Unauthorized)
        } else {
            match coins_after_tax_spec(funds) {
                Err(e) => Err(e),
                Ok(left) => self.forwarding(
                    contract_address,
                    seq![
                        plain(
                            CosmosMsgView::Execute {
                                contract_addr: AddressView::Human(self.config.market_address),
                                msg: WasmPayloadView::Anchor(anchor::ExecuteMsgView::DepositStable),
                                funds: left,
                            },
                        ),
                    ],
                    AssetInfoView::Token {
                        contract_addr: AddressView::Human(self.config.aterra_address),
                    },
                    sender,
                    balance,
                ),
            }
        }
    }
}

impl RouterView {
    /// Hands `msg` on to the user's proxy, for a trusted gateway.
    pub open spec fn pass_to_proxy(
        self,
        sender: Seq<char>,
        sender_chain: u16,
        sender_address: Seq<u8>,
        msg: proxy::msg::ExecuteMsgView,
    ) -> Result<ResponseView, RelayError> {
        if !self.whitelisted(sender) {
            Err(RelayError::Unauthorized)
        } else if !self.provisioned(sender_chain, sender_address) {
            Err(RelayError::NotFound)
        } else {
            Ok(
                ResponseView::of(
                    seq![
                        plain(
                            proxy_call(
                                self.proxy_of(sender_chain, sender_address),
                                msg,
                                Seq::empty(),
                            ),
                        ),
                    ],
                ),
            )
        }
    }
}

} // verus!
