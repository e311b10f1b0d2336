//! What the gateway does, as a function of its state and of what it is handed.
//!
//! The state is a [`GatewayView`](crate::gateway::state::GatewayView): the
//! configuration, the tables as maps, and the pending transfer. A call
//! either is rejected, for one reason, or gives the state after it and the
//! messages to deliver.

use crate::asset::{AddressView, AssetInfoView, AssetView, CoinView};
use crate::byte_utils::extended_address;
use crate::cw20::{Cw20ExecuteMsgView, HookMsgView};
use crate::error::RelayError;
use crate::gateway::contract::{
    OracleView, TOKEN_TRANSFER_INFO_NONCE, TOKEN_TRANSFER_NONCE, TOKEN_TRANSFER_SUBMIT_VAA_MSG_ID,
    WORMHOLE_TERRA_NATIVE_TOKEN_INDICATOR,
};
use crate::gateway::instruction::{InstructionView, OperationView};
use crate::gateway::state::{
    spec_chain_key, spec_sequence_key, ConfigView, GatewayView, OutgoingTokenTransferInfoView,
    SequenceInfo, TERRA_CHAIN_ID,
};
use crate::message::{plain, CosmosMsgView, ReplyOn, ResponseView, SubMsgView, WasmPayloadView};
use crate::router;
use crate::store::{loaded, written_back};
use crate::wormhole::{
    Action, ParsedVAAView, TokenBridgeMessageView, TransferInfoView,
    WormholeCoreBridgeExecuteMsgView, WormholeTokenBridgeExecuteMsgView,
};
use vstd::prelude::*;
use vstd::utf8::{decode_utf8, valid_utf8};

verus! {

/// The reason with which the transfer oracle refuses a transfer that was
/// completed before.
pub open spec fn already_executed() -> Seq<char> {
    "Generic error: VaaAlreadyExecuted: execute wasm contract failed"@
}

/// `bytes` without its zero bytes.
pub open spec fn without_zeros(bytes: Seq<u8>) -> Seq<u8>
    decreases bytes.len(),
{
    if bytes.len() == 0 {
        Seq::<u8>::empty()
    } else if bytes.last() != 0 {
        without_zeros(bytes.drop_last()).push(bytes.last())
    } else {
        without_zeros(bytes.drop_last())
    }
}

/// The asset that a transfer brings: the low 128 bits of its sum less those of
/// its fee, in the native denomination that the token address spells after its
/// marker byte, or in the token whose address the last 20 bytes are. A native
/// sum has been taxed once on its way to the gateway. A transfer of a token of
/// another chain, with a fee above its sum, with a token address of another
/// length than 32, or with a denomination that is no text, brings none.
pub open spec fn parse_token_transfer_asset_spec(info: TransferInfoView) -> Result<
    AssetView,
    RelayError,
> {
    if info.token_chain != TERRA_CHAIN_ID || info.fee.1 > info.amount.1 || info.token_address.len()
        != 32 {
        Err(RelayError::Validation)
    } else if info.token_address[0] == WORMHOLE_TERRA_NATIVE_TOKEN_INDICATOR {
        let denom = without_zeros(info.token_address.subrange(1, 32));
        if valid_utf8(denom) {
            Ok(
                AssetView {
                    info: AssetInfoView::NativeToken { denom: decode_utf8(denom) },
                    amount: (info.amount.1 - info.fee.1) as u128,
                    tax_levies: 1,
                },
            )
        } else {
            Err(RelayError::Validation)
        }
    } else {
        Ok(
            AssetView {
                info: AssetInfoView::Token {
                    contract_addr: AddressView::Canonical(info.token_address.subrange(12, 32)),
                },
                amount: (info.amount.1 - info.fee.1) as u128,
                tax_levies: 0,
            },
        )
    }
}

/// The asset that the companion transfer brings, if the transfer is the one
/// that the instruction declares: attested by the instruction's chain under
/// the declared sequence, and addressed to this gateway on the host chain.
pub open spec fn process_token_transfer_message_spec(
    canonical_address: Seq<u8>,
    expected_emitter_chain: u16,
    expected_sequence: u64,
    vaa: ParsedVAAView,
) -> Result<AssetView, RelayError> {
    if vaa.emitter_chain != expected_emitter_chain || vaa.sequence != expected_sequence {
        Err(RelayError::Correlation)
    } else {
        match TokenBridgeMessageView::deserialize(vaa.payload) {
            Err(e) => Err(e),
            Ok(message) => if message.action != Action::TRANSFER {
                Err(RelayError::Validation)
            } else {
                match TransferInfoView::deserialize(message.payload) {
                    Err(e) => Err(e),
                    Ok(info) => if info.recipient_chain != TERRA_CHAIN_ID || info.recipient
                        != extended_address(canonical_address) {
                        Err(RelayError::Correlation)
                    } else {
                        parse_token_transfer_asset_spec(info)
                    },
                }
            },
        }
    }
}

/// A call to the router.
pub open spec fn core_execute_message(
    config: ConfigView,
    msg: router::msg::ExecuteMsgView,
    funds: Seq<CoinView>,
) -> CosmosMsgView {
    CosmosMsgView::Execute {
        contract_addr: AddressView::Human(config.cross_anchor_core_addr),
        msg: WasmPayloadView::Router(msg),
        funds,
    }
}

/// The request to make sure that the user has a proxy, for an operation that
/// needs one.
pub open spec fn provision_messages(
    config: ConfigView,
    sender_chain: u16,
    instruction: InstructionView,
) -> Seq<SubMsgView> {
    if instruction.operation.opcode().spec_is_borrow_op() {
        seq![
            plain(
                core_execute_message(
                    config,
                    router::msg::ExecuteMsgView::InitializeAddressProxy {
                        chain_id: sender_chain,
                        address: instruction.sender_address,
                    },
                    Seq::empty(),
                ),
            ),
        ]
    } else {
        Seq::empty()
    }
}

/// The submission that completes the companion transfer. The gateway hears
/// of it only if it fails.
pub open spec fn submit_transfer_message(config: ConfigView, transfer_vaa: Seq<u8>) -> SubMsgView {
    SubMsgView {
        id: TOKEN_TRANSFER_SUBMIT_VAA_MSG_ID,
        msg: CosmosMsgView::Execute {
            contract_addr: AddressView::Human(config.wormhole_token_bridge_addr),
            msg: WasmPayloadView::TokenBridge(
                WormholeTokenBridgeExecuteMsgView::SubmitVaa { data: transfer_vaa },
            ),
            funds: Seq::empty(),
        },
        reply_on: ReplyOn::Error,
    }
}

/// The hand-over of `asset`, a token, to the router, with `hook` to say what for.
pub open spec fn token_send_message(
    config: ConfigView,
    asset: AssetView,
    hook: router::msg::Cw20HookMsgView,
) -> Result<CosmosMsgView, RelayError> {
    match asset.info {
        AssetInfoView::Token { contract_addr } => Ok(
            CosmosMsgView::Execute {
                contract_addr,
                msg: WasmPayloadView::Cw20(
                    Cw20ExecuteMsgView::Send {
                        contract: config.cross_anchor_core_addr,
                        amount: asset.amount,
                        msg: HookMsgView::Router(hook),
                    },
                ),
                funds: Seq::empty(),
            },
        ),
        AssetInfoView::NativeToken { .. } => Err(RelayError::Validation),
    }
}

/// The call to the router that carries `asset`, a native sum, as its coins.
pub open spec fn coin_call_message(
    config: ConfigView,
    asset: AssetView,
    msg: router::msg::ExecuteMsgView,
) -> Result<CosmosMsgView, RelayError> {
    match asset.deduct_tax() {
        Ok(coin) => Ok(core_execute_message(config, msg, seq![coin])),
        Err(e) => Err(e),
    }
}

/// The router operation of an instruction that brings `asset` in: a deposit
/// or a repayment takes a native sum as coins; a redemption or a collateral
/// takes a token.
pub open spec fn incoming_operation_message(
    config: ConfigView,
    sender_chain: u16,
    instruction: InstructionView,
    asset: AssetView,
) -> Result<CosmosMsgView, RelayError> {
    let sender_address = instruction.sender_address;
    match instruction.operation {
        OperationView::DepositStable { .. } => coin_call_message(
            config,
            asset,
            router::msg::ExecuteMsgView::DepositStable { sender_chain, sender_address },
        ),
        OperationView::RepayStable { .. } => coin_call_message(
            config,
            asset,
            router::msg::ExecuteMsgView::RepayStable { sender_chain, sender_address },
        ),
        OperationView::RedeemStable { .. } => token_send_message(
            config,
            asset,
            router::msg::Cw20HookMsgView::RedeemStable { sender_chain, sender_address },
        ),
        OperationView::LockCollateral { .. } => token_send_message(
            config,
            asset,
            router::msg::Cw20HookMsgView::LockCollateral { sender_chain, sender_address },
        ),
        _ => Err(RelayError::Validation),
    }
}

/// The router operation of an instruction that brings nothing in. The token
/// to unlock is named by the last 20 of the 32 bytes of its address.
pub open spec fn direct_operation_message(
    config: ConfigView,
    sender_chain: u16,
    instruction: InstructionView,
) -> Result<CosmosMsgView, RelayError> {
    let sender_address = instruction.sender_address;
    match instruction.operation {
        OperationView::UnlockCollateral { token_address, amount } => if token_address.len() != 32 {
            Err(RelayError::Validation)
        } else {
            Ok(
                core_execute_message(
                    config,
                    router::msg::ExecuteMsgView::UnlockCollateral {
                        sender_chain,
                        sender_address,
                        asset: AssetView {
                            info: AssetInfoView::Token {
                                contract_addr: AddressView::Canonical(
                                    token_address.subrange(12, 32),
                                ),
                            },
                            amount,
                            tax_levies: 0,
                        },
                    },
                    Seq::empty(),
                ),
            )
        },
        OperationView::BorrowStable { amount } => Ok(
            core_execute_message(
                config,
                router::msg::ExecuteMsgView::BorrowStable {
                    sender_chain,
                    sender_address,
                    borrow_amount: amount,
                },
                Seq::empty(),
            ),
        ),
        OperationView::ClaimRewards => Ok(
            core_execute_message(
                config,
                router::msg::ExecuteMsgView::ClaimRewards { sender_chain, sender_address },
                Seq::empty(),
            ),
        ),
        _ => Err(RelayError::Validation),
    }
}

/// The messages that carry an instruction out, after the request for a
/// proxy: with a transfer coming in, the completion of that transfer and the
/// router operation with what it brought; without one, the router operation.
pub open spec fn operation_messages(
    config: ConfigView,
    canonical_address: Seq<u8>,
    sender_chain: u16,
    instruction: InstructionView,
    transfer_vaa: Option<Seq<u8>>,
    token_transfer: Option<ParsedVAAView>,
) -> Result<Seq<SubMsgView>, RelayError> {
    match instruction.operation.expected_sequence() {
        Some(expected_sequence) => match (transfer_vaa, token_transfer) {
            (Some(raw), Some(vaa)) => match process_token_transfer_message_spec(
                canonical_address,
                sender_chain,
                expected_sequence,
                vaa,
            ) {
                Err(e) => Err(e),
                Ok(asset) => match incoming_operation_message(
                    config,
                    sender_chain,
                    instruction,
                    asset,
                ) {
                    Err(e) => Err(e),
                    Ok(msg) => Ok(seq![submit_transfer_message(config, raw), plain(msg)]),
                },
            },
            _ => Err(RelayError::AttestationInvalid),
        },
        None => match direct_operation_message(config, sender_chain, instruction) {
            Err(e) => Err(e),
            Ok(msg) => Ok(seq![plain(msg)]),
        },
    }
}

impl GatewayView {
    /// Whether `address` is the gateway that is trusted on chain `chain_id`.
    pub open spec fn registered(self, chain_id: u16, address: Seq<u8>) -> bool {
        self.chain_registrations.contains_key(spec_chain_key(chain_id))
            && self.chain_registrations[spec_chain_key(chain_id)] == address
    }

    /// Whether the gateway takes an attested instruction up, and the
    /// instruction that it takes up. In this order: the oracle must have
    /// vouched for the attestation; its emitter must be the gateway registered
    /// for its chain; its hash must be new; its payload must spell an
    /// instruction; and where a transfer goes out in answer, the sequence of
    /// that transfer must be known.
    pub open spec fn accept(self, oracle: OracleView) -> Result<InstructionView, RelayError> {
        match oracle.instruction {
            None => Err(RelayError::AttestationInvalid),
            Some(vaa) => if !self.registered(vaa.emitter_chain, vaa.emitter_address) {
                Err(RelayError::UnknownEmitter)
            } else if self.completed(vaa.hash) {
                Err(RelayError::Replay)
            } else {
                match InstructionView::decode(vaa.payload) {
                    Err(e) => Err(e),
                    Ok(instruction) => if instruction.operation.opcode().spec_has_outgoing()
                        && oracle.next_sequence is Err {
                        Err(RelayError::Upstream { reason: oracle.next_sequence->Err_0 })
                    } else {
                        Ok(instruction)
                    },
                }
            },
        }
    }

    /// The state after an instruction has been taken up: its hash is marked,
    /// it is recorded under its chain and sequence, and the transfer that
    /// goes out in answer, if one does, is noted as pending.
    pub open spec fn recorded(self, oracle: OracleView, instruction: InstructionView) -> GatewayView {
        let vaa = oracle.instruction->Some_0;
        let outgoing = instruction.operation.opcode().spec_has_outgoing();
        GatewayView {
            completed_instructions: self.completed_instructions.insert(vaa.hash, true),
            sequences: self.sequences.insert(
                spec_sequence_key(vaa.emitter_chain, vaa.sequence),
                SequenceInfo { outgoing_sequence_expected: outgoing, outgoing_sequence: None },
            ),
            outgoing_transfer: if outgoing {
                Some(
                    OutgoingTokenTransferInfoView {
                        chain_id: vaa.emitter_chain,
                        token_recipient_address: instruction.sender_address,
                        token_transfer_sequence: oracle.next_sequence->Ok_0,
                        instruction_sequence: vaa.sequence,
                    },
                )
            } else {
                self.outgoing_transfer
            },
            ..self
        }
    }

    /// What the gateway does with an attested instruction. The instruction
    /// must be one that the gateway takes up, and the companion transfer, if
    /// the operation has one, must be the declared one. Then the state is as
    /// [`Self::recorded`] says, and the messages are: the request for a proxy
    /// where the operation needs one, then the operation's own.
    pub open spec fn process_anchor_message(
        self,
        canonical_address: Seq<u8>,
        transfer_vaa: Option<Seq<u8>>,
        oracle: OracleView,
    ) -> Result<(GatewayView, ResponseView), RelayError> {
        match self.accept(oracle) {
            Err(e) => Err(e),
            Ok(instruction) => {
                let sender_chain = oracle.instruction->Some_0.emitter_chain;
                match operation_messages(
                    self.config,
                    canonical_address,
                    sender_chain,
                    instruction,
                    transfer_vaa,
                    oracle.token_transfer,
                ) {
                    Err(e) => Err(e),
                    Ok(messages) => Ok(
                        (
                            self.recorded(oracle, instruction),
                            ResponseView::of(
                                provision_messages(self.config, sender_chain, instruction)
                                    + messages,
                            ),
                        ),
                    ),
                }
            },
        }
    }

    /// What the gateway does when the owner registers the gateway of a chain.
    pub open spec fn register_wormhole_chain_info(
        self,
        sender: Seq<char>,
        chain_id: u16,
        address: Seq<u8>,
    ) -> Result<(GatewayView, ResponseView), RelayError> {
        if sender != self.config.owner {
            Err(RelayError::Unauthorized)
        } else {
            Ok(
                (
                    GatewayView {
                        chain_registrations: self.chain_registrations.insert(
                            spec_chain_key(chain_id),
                            address,
                        ),
                        ..self
                    },
                    ResponseView::empty(),
                ),
            )
        }
    }

    /// What the gateway does when the router hands it a sum to relay, which
    /// it does only while a transfer is pending: a native sum is handed to
    /// the transfer oracle as coins, less the tax; for a token the oracle is
    /// allowed to draw the sum. The pending transfer says where the sum
    /// goes, and the instruction that it answers is
    /// recorded with the sequence under which the sum goes out. Then the
    /// transfer is started, to the gateway of the user's chain, and an
    /// attestation tells that gateway whom it is for. The pending transfer
    /// is used up by this: after the relay none is pending.
    pub open spec fn send_asset(
        self,
        sender: Seq<char>,
        asset: AssetView,
        next_sequence: Result<u64, String>,
    ) -> Result<(GatewayView, ResponseView), RelayError> {
        if sender != self.config.cross_anchor_core_addr {
            Err(RelayError::Unauthorized)
        } else {
            match self.outgoing_transfer {
                None => Err(RelayError::NotFound),
                Some(pending) => match funding(self.config, asset) {
                    Err(e) => Err(e),
                    Ok((funding_message, sent)) => if !self.chain_registrations.contains_key(
                        spec_chain_key(pending.chain_id),
                    ) {
                        Err(RelayError::NotFound)
                    } else {
                        match next_sequence {
                            Err(reason) => Err(RelayError::Upstream { reason }),
                            Ok(outgoing_sequence) => Ok(
                                (
                                    GatewayView {
                                        sequences: self.sequences.insert(
                                            spec_sequence_key(
                                                pending.chain_id,
                                                pending.instruction_sequence,
                                            ),
                                            SequenceInfo {
                                                outgoing_sequence_expected: true,
                                                outgoing_sequence: Some(outgoing_sequence),
                                            },
                                        ),
                                        outgoing_transfer: None,
                                        ..self
                                    },
                                    ResponseView::of(
                                        seq![
                                            plain(funding_message),
                                            plain(
                                                initiate_transfer_message(
                                                    self.config,
                                                    sent,
                                                    pending.chain_id,
                                                    self.chain_registrations[spec_chain_key(
                                                        pending.chain_id,
                                                    )],
                                                ),
                                            ),
                                            plain(post_message(self.config, pending)),
                                        ],
                                    ),
                                ),
                            ),
                        }
                    },
                },
            }
        }
    }
}

/// How the transfer oracle gets hold of a sum that it is to send: the message
/// that hands it over, and the sum that the oracle will then send.
pub open spec fn funding(config: ConfigView, asset: AssetView) -> Result<
    (CosmosMsgView, AssetView),
    RelayError,
> {
    match asset.info {
        AssetInfoView::NativeToken { .. } => match asset.deduct_tax() {
            Err(e) => Err(e),
            Ok(coin) => Ok(
                (
                    CosmosMsgView::Execute {
                        contract_addr: AddressView::Human(config.wormhole_token_bridge_addr),
                        msg: WasmPayloadView::TokenBridge(
                            WormholeTokenBridgeExecuteMsgView::DepositTokens,
                        ),
                        funds: seq![coin],
                    },
                    AssetView { info: asset.info, amount: coin.amount, tax_levies: coin.tax_levies },
                ),
            ),
        },
        AssetInfoView::Token { contract_addr } => Ok(
            (
                CosmosMsgView::Execute {
                    contract_addr,
                    msg: WasmPayloadView::Cw20(
                        Cw20ExecuteMsgView::IncreaseAllowance {
                            spender: config.wormhole_token_bridge_addr,
                            amount: asset.amount,
                        },
                    ),
                    funds: Seq::empty(),
                },
                asset,
            ),
        ),
    }
}

/// The start of a transfer of `asset` to `recipient` on chain `recipient_chain`, free of fee.
pub open spec fn initiate_transfer_message(
    config: ConfigView,
    asset: AssetView,
    recipient_chain: u16,
    recipient: Seq<u8>,
) -> CosmosMsgView {
    CosmosMsgView::Execute {
        contract_addr: AddressView::Human(config.wormhole_token_bridge_addr),
        msg: WasmPayloadView::TokenBridge(
            WormholeTokenBridgeExecuteMsgView::InitiateTransfer {
                asset,
                recipient_chain,
                recipient,
                fee: 0,
                nonce: TOKEN_TRANSFER_NONCE,
            },
        ),
        funds: Seq::empty(),
    }
}

/// The publication of what ties a transfer to its instruction.
pub open spec fn post_message(
    config: ConfigView,
    pending: OutgoingTokenTransferInfoView,
) -> CosmosMsgView {
    CosmosMsgView::Execute {
        contract_addr: AddressView::Human(config.wormhole_core_bridge_addr),
        msg: WasmPayloadView::CoreBridge(
            WormholeCoreBridgeExecuteMsgView::PostMessage {
                message: pending.serialize(),
                nonce: TOKEN_TRANSFER_INFO_NONCE,
            },
        ),
        funds: Seq::empty(),
    }
}

/// What the gateway makes of the report on a transfer completion: a
/// completion that failed because the transfer was completed before is as
/// good as done; any other failure fails, and its reason is handed on as it
/// came; and no other report is expected.
pub open spec fn reply_spec(id: u64, failure: Option<String>) -> Result<ResponseView, RelayError> {
    if id != TOKEN_TRANSFER_SUBMIT_VAA_MSG_ID {
        Err(RelayError::Validation)
    } else {
        match failure {
            Some(reason) => if reason@ == already_executed() {
                Ok(ResponseView::empty())
            } else {
                Err(RelayError::Upstream { reason })
            },
            None => Err(RelayError::Validation),
        }
    }
}

impl GatewayView {
    /// What a call does, by the kind of message.
    pub open spec fn execute(
        self,
        canonical_address: Seq<u8>,
        sender: Seq<char>,
        msg: crate::gateway::msg::ExecuteMsgView,
        oracle: OracleView,
    ) -> Result<(GatewayView, ResponseView), RelayError> {
        match msg {
            crate::gateway::msg::ExecuteMsgView::ProcessAnchorMessage {
                instruction_vaa,
                option_token_transfer_vaa,
            } => self.process_anchor_message(canonical_address, option_token_transfer_vaa, oracle),
            crate::gateway::msg::ExecuteMsgView::SendAsset { asset } => self.send_asset(
                sender,
                asset,
                oracle.next_sequence,
            ),
            crate::gateway::msg::ExecuteMsgView::RegisterWormholeChainInfo {
                chain_id,
                address,
            } => self.register_wormhole_chain_info(sender, chain_id, address),
        }
    }
}

impl GatewayView {
    /// Whether `self` holds a part of what `full` holds: the same
    /// configuration and pending transfer, and in each table a part of the
    /// entries of `full`.
    pub open spec fn part_of(self, full: GatewayView) -> bool {
        &&& self.config == full.config
        &&& self.outgoing_transfer == full.outgoing_transfer
        &&& self.chain_registrations.submap_of(full.chain_registrations)
        &&& self.completed_instructions.submap_of(full.completed_instructions)
        &&& self.sequences.submap_of(full.sequences)
    }

    /// `self` after `part`, a part of it, was worked on and became
    /// `part_after`: the records that the part held are replaced by those
    /// that it holds after, and all others are as they were.
    pub open spec fn overwritten_with(self, part: GatewayView, part_after: GatewayView) -> GatewayView {
        GatewayView {
            config: part_after.config,
            outgoing_transfer: part_after.outgoing_transfer,
            chain_registrations: written_back(
                self.chain_registrations,
                part.chain_registrations,
                part_after.chain_registrations,
            ),
            completed_instructions: written_back(
                self.completed_instructions,
                part.completed_instructions,
                part_after.completed_instructions,
            ),
            sequences: written_back(
                self.sequences,
                part.sequences,
                part_after.sequences,
            ),
        }
    }

    /// Whether `self`, a part of `full`, holds every record of `full` that a
    /// call reads: for an instruction, the gateway registered for its chain
    /// and the mark on its hash; for a relay, the gateway registered for the
    /// chain of the pending transfer.
    pub open spec fn holds_what_is_read(
        self,
        full: GatewayView,
        msg: crate::gateway::msg::ExecuteMsgView,
        oracle: OracleView,
    ) -> bool {
        match msg {
            crate::gateway::msg::ExecuteMsgView::ProcessAnchorMessage { .. } => {
                oracle.instruction is Some ==> {
                    &&& loaded(
                        self.chain_registrations,
                        full.chain_registrations,
                        spec_chain_key(oracle.instruction->Some_0.emitter_chain),
                    )
                    &&& loaded(
                        self.completed_instructions,
                        full.completed_instructions,
                        oracle.instruction->Some_0.hash,
                    )
                }
            },
            crate::gateway::msg::ExecuteMsgView::SendAsset { .. } => {
                full.outgoing_transfer is Some ==> loaded(
                    self.chain_registrations,
                    full.chain_registrations,
                    spec_chain_key(full.outgoing_transfer->Some_0.chain_id),
                )
            },
            crate::gateway::msg::ExecuteMsgView::RegisterWormholeChainInfo { .. } => true,
        }
    }
}

} // verus!
