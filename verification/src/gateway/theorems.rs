//! What holds of the gateway, whatever its state and whatever it is handed.

use crate::asset::AssetView;
use crate::byte_utils::extended_address;
use crate::error::RelayError;
use crate::gateway::contract::{OracleView, TOKEN_TRANSFER_SUBMIT_VAA_MSG_ID};
use crate::gateway::instruction::InstructionView;
use crate::gateway::model::{
    already_executed, process_token_transfer_message_spec, reply_spec,
};
use crate::gateway::state::{
    lemma_chain_key_injective, lemma_sequence_key_injective, spec_chain_key, spec_sequence_key,
    GatewayView, SequenceInfo, TERRA_CHAIN_ID,
};
use crate::message::ResponseView;
use crate::wormhole::{Action, ParsedVAAView, TokenBridgeMessageView, TransferInfoView};
use vstd::prelude::*;

verus! {

/// Every call needs its role: the owner alone registers the gateway of a
/// chain, and the router alone has a sum relayed. Anyone may hand in an
/// attested instruction.
pub proof fn lemma_calls_need_their_role(
    state: GatewayView,
    canonical_address: Seq<u8>,
    sender: Seq<char>,
    msg: crate::gateway::msg::ExecuteMsgView,
    oracle: OracleView,
    other_sender: Seq<char>,
)
    ensures
        ({
            let result = state.execute(canonical_address, sender, msg, oracle);
            let refused = result == Err::<(GatewayView, ResponseView), RelayError>(
                RelayError::Unauthorized,
            );
            match msg {
                crate::gateway::msg::ExecuteMsgView::RegisterWormholeChainInfo { .. } => {
                    &&& sender != state.config.owner ==> refused
                    &&& sender == state.config.owner ==> result is Ok
                },
                crate::gateway::msg::ExecuteMsgView::SendAsset { .. } => sender
                    != state.config.cross_anchor_core_addr ==> refused,
                crate::gateway::msg::ExecuteMsgView::ProcessAnchorMessage { .. } => result
                    == state.execute(canonical_address, other_sender, msg, oracle),
            }
        }),
{
}

/// An instruction is processed once: after a call that has processed an
/// attestation, every call with the same attestation is rejected as a
/// replay, whatever else it is handed.
pub proof fn lemma_replay_is_rejected(
    state: GatewayView,
    canonical_address: Seq<u8>,
    transfer_vaa: Option<Seq<u8>>,
    oracle: OracleView,
    again_canonical_address: Seq<u8>,
    again_transfer_vaa: Option<Seq<u8>>,
    again_oracle: OracleView,
)
    requires
        state.process_anchor_message(canonical_address, transfer_vaa, oracle) is Ok,
        again_oracle.instruction == oracle.instruction,
    ensures
        ({
            let after = state.process_anchor_message(canonical_address, transfer_vaa, oracle)->Ok_0.0;
            after.process_anchor_message(again_canonical_address, again_transfer_vaa, again_oracle)
                == Err::<(GatewayView, ResponseView), RelayError>(RelayError::Replay)
        }),
{
}

/// What a processed instruction leaves behind: its hash is marked, it is
/// recorded under its chain and sequence with no outgoing sequence yet, and
/// the registrations and the configuration are as they were.
pub proof fn lemma_processing_records_instruction(
    state: GatewayView,
    canonical_address: Seq<u8>,
    transfer_vaa: Option<Seq<u8>>,
    oracle: OracleView,
)
    requires
        state.process_anchor_message(canonical_address, transfer_vaa, oracle) is Ok,
    ensures
        ({
            let after = state.process_anchor_message(canonical_address, transfer_vaa, oracle)->Ok_0.0;
            let vaa = oracle.instruction->Some_0;
            let key = spec_sequence_key(vaa.emitter_chain, vaa.sequence);
            &&& !state.completed(vaa.hash)
            &&& after.completed(vaa.hash)
            &&& after.sequences.contains_key(key)
            &&& after.sequences[key].outgoing_sequence is None
            &&& after.sequences[key].outgoing_sequence_expected == InstructionView::decode(
                vaa.payload,
            )->Ok_0.operation.opcode().spec_has_outgoing()
            &&& after.chain_registrations == state.chain_registrations
            &&& after.config == state.config
        }),
{
}

/// Processing an instruction leaves what is recorded of every other
/// instruction as it was.
pub proof fn lemma_processing_touches_one_record(
    state: GatewayView,
    canonical_address: Seq<u8>,
    transfer_vaa: Option<Seq<u8>>,
    oracle: OracleView,
    chain_id: u16,
    sequence: u64,
)
    requires
        state.process_anchor_message(canonical_address, transfer_vaa, oracle) is Ok,
        chain_id != oracle.instruction->Some_0.emitter_chain || sequence
            != oracle.instruction->Some_0.sequence,
    ensures
        ({
            let after = state.process_anchor_message(canonical_address, transfer_vaa, oracle)->Ok_0.0;
            let key = spec_sequence_key(chain_id, sequence);
            &&& after.sequences.contains_key(key) == state.sequences.contains_key(key)
            &&& after.sequences[key] == state.sequences[key]
        }),
{
    let vaa = oracle.instruction->Some_0;
    if spec_sequence_key(chain_id, sequence) == spec_sequence_key(vaa.emitter_chain, vaa.sequence) {
        lemma_sequence_key_injective(chain_id, sequence, vaa.emitter_chain, vaa.sequence);
    }
}

/// Registering the gateway of one chain leaves the gateways of all other
/// chains as they were.
pub proof fn lemma_registration_touches_one_chain(
    state: GatewayView,
    sender: Seq<char>,
    chain_id: u16,
    address: Seq<u8>,
    other_chain: u16,
    other_address: Seq<u8>,
)
    requires
        state.register_wormhole_chain_info(sender, chain_id, address) is Ok,
        other_chain != chain_id,
    ensures
        ({
            let after = state.register_wormhole_chain_info(sender, chain_id, address)->Ok_0.0;
            &&& after.registered(chain_id, address)
            &&& after.registered(other_chain, other_address) == state.registered(
                other_chain,
                other_address,
            )
        }),
{
    if spec_chain_key(other_chain) == spec_chain_key(chain_id) {
        lemma_chain_key_injective(other_chain, chain_id);
    }
}

/// A transfer that another chain attests than the instruction's, or that
/// carries another sequence than the instruction declares, is not the
/// companion of the instruction, whatever else it says.
pub proof fn lemma_uncorrelated_transfer_is_refused(
    canonical_address: Seq<u8>,
    expected_emitter_chain: u16,
    expected_sequence: u64,
    vaa: ParsedVAAView,
)
    requires
        vaa.emitter_chain != expected_emitter_chain || vaa.sequence != expected_sequence,
    ensures
        process_token_transfer_message_spec(
            canonical_address,
            expected_emitter_chain,
            expected_sequence,
            vaa,
        ) == Err::<AssetView, RelayError>(RelayError::Correlation),
{
}

/// A companion transfer that another chain attests, or that carries another
/// sequence than the instruction declares, is refused as not correlated: the
/// instruction is not processed.
pub proof fn lemma_mismatched_transfer_is_refused(
    state: GatewayView,
    canonical_address: Seq<u8>,
    transfer_vaa: Seq<u8>,
    oracle: OracleView,
)
    requires
        state.accept(oracle) is Ok,
        state.accept(oracle)->Ok_0.operation.expected_sequence() is Some,
        oracle.token_transfer is Some,
        oracle.token_transfer->Some_0.emitter_chain != oracle.instruction->Some_0.emitter_chain
            || oracle.token_transfer->Some_0.sequence != state.accept(
            oracle,
        )->Ok_0.operation.expected_sequence()->Some_0,
    ensures
        state.process_anchor_message(canonical_address, Some(transfer_vaa), oracle) == Err::<
            (GatewayView, ResponseView),
            RelayError,
        >(RelayError::Correlation),
{
}

/// A companion transfer that is addressed to another chain or to another
/// contract than this gateway is refused as not correlated.
pub proof fn lemma_misaddressed_transfer_is_refused(
    canonical_address: Seq<u8>,
    expected_emitter_chain: u16,
    expected_sequence: u64,
    vaa: ParsedVAAView,
)
    requires
        vaa.emitter_chain == expected_emitter_chain,
        vaa.sequence == expected_sequence,
        TokenBridgeMessageView::deserialize(vaa.payload) is Ok,
        TokenBridgeMessageView::deserialize(vaa.payload)->Ok_0.action == Action::TRANSFER,
        TransferInfoView::deserialize(
            TokenBridgeMessageView::deserialize(vaa.payload)->Ok_0.payload,
        ) is Ok,
        ({
            let info = TransferInfoView::deserialize(
                TokenBridgeMessageView::deserialize(vaa.payload)->Ok_0.payload,
            )->Ok_0;
            info.recipient_chain != TERRA_CHAIN_ID || info.recipient != extended_address(
                canonical_address,
            )
        }),
    ensures
        process_token_transfer_message_spec(
            canonical_address,
            expected_emitter_chain,
            expected_sequence,
            vaa,
        ) == Err::<AssetView, RelayError>(RelayError::Correlation),
{
}

/// An instruction from a chain without a registered gateway, or from another
/// emitter than the registered one, is refused.
pub proof fn lemma_unknown_emitter_is_refused(
    state: GatewayView,
    canonical_address: Seq<u8>,
    transfer_vaa: Option<Seq<u8>>,
    oracle: OracleView,
)
    requires
        oracle.instruction is Some,
        !state.registered(
            oracle.instruction->Some_0.emitter_chain,
            oracle.instruction->Some_0.emitter_address,
        ),
    ensures
        state.process_anchor_message(canonical_address, transfer_vaa, oracle) == Err::<
            (GatewayView, ResponseView),
            RelayError,
        >(RelayError::UnknownEmitter),
{
}

/// A transfer completion that failed for another reason than having been
/// completed before fails the call, and the reason comes back as it came.
pub proof fn lemma_failure_reason_is_handed_on(reason: String)
    requires
        reason@ != already_executed(),
    ensures
        reply_spec(TOKEN_TRANSFER_SUBMIT_VAA_MSG_ID, Some(reason)) == Err::<
            ResponseView,
            RelayError,
        >(RelayError::Upstream { reason }),
{
}

/// A relay records the sequence under which the sum goes out against the
/// instruction that it answers, uses the pending transfer up, and touches
/// nothing else.
pub proof fn lemma_relay_records_outgoing_sequence(
    state: GatewayView,
    sender: Seq<char>,
    asset: AssetView,
    next_sequence: Result<u64, String>,
)
    requires
        state.send_asset(sender, asset, next_sequence) is Ok,
    ensures
        ({
            let after = state.send_asset(sender, asset, next_sequence)->Ok_0.0;
            let pending = state.outgoing_transfer->Some_0;
            let key = spec_sequence_key(pending.chain_id, pending.instruction_sequence);
            &&& sender == state.config.cross_anchor_core_addr
            &&& state.outgoing_transfer is Some
            &&& after.sequences.contains_key(key)
            &&& after.sequences[key] == SequenceInfo {
                outgoing_sequence_expected: true,
                outgoing_sequence: Some(next_sequence->Ok_0),
            }
            &&& forall|other: Seq<u8>|
                other != key ==> after.sequences.contains_key(other)
                    == state.sequences.contains_key(other) && after.sequences[other]
                    == state.sequences[other]
            &&& after.completed_instructions == state.completed_instructions
            &&& after.chain_registrations == state.chain_registrations
            &&& after.outgoing_transfer is None
        }),
{
}

/// A pending transfer is relayed once: after a relay, every further relay
/// is refused for want of a pending transfer, whatever sum it is handed,
/// until an instruction with a transfer going out is processed.
pub proof fn lemma_pending_transfer_is_relayed_once(
    state: GatewayView,
    sender: Seq<char>,
    asset: AssetView,
    next_sequence: Result<u64, String>,
    again_asset: AssetView,
    again_next_sequence: Result<u64, String>,
)
    requires
        state.send_asset(sender, asset, next_sequence) is Ok,
    ensures
        ({
            let after = state.send_asset(sender, asset, next_sequence)->Ok_0.0;
            after.send_asset(sender, again_asset, again_next_sequence) == Err::<
                (GatewayView, ResponseView),
                RelayError,
            >(RelayError::NotFound)
        }),
{
}

/// A call can be run on a part of the state: where the part holds every
/// record that the call reads, the call is rejected on the part exactly when
/// it is rejected on the whole, and for the same reason; and where it
/// succeeds, it hands back the same messages, and the whole state after the
/// call is the whole state before it with the records that the part held
/// replaced by those that the part holds after the call.
pub proof fn lemma_a_part_suffices(
    full: GatewayView,
    part: GatewayView,
    canonical_address: Seq<u8>,
    sender: Seq<char>,
    msg: crate::gateway::msg::ExecuteMsgView,
    oracle: OracleView,
)
    requires
        part.part_of(full),
        part.holds_what_is_read(full, msg, oracle),
    ensures
        match (
            full.execute(canonical_address, sender, msg, oracle),
            part.execute(canonical_address, sender, msg, oracle),
        ) {
            (Ok((full_after, response)), Ok((part_after, part_response))) => {
                &&& response == part_response
                &&& full_after == full.overwritten_with(part, part_after)
                &&& part_after.part_of(full_after)
            },
            (Err(e), Err(part_e)) => e == part_e,
            _ => false,
        },
{
    let whole = full.execute(canonical_address, sender, msg, oracle);
    let piece = part.execute(canonical_address, sender, msg, oracle);
    if whole is Ok {
        assert(piece is Ok);
        let full_after = whole->Ok_0.0;
        let part_after = piece->Ok_0.0;
        let merged = full.overwritten_with(part, part_after);
        assert(full_after.chain_registrations =~= merged.chain_registrations);
        assert(full_after.completed_instructions =~= merged.completed_instructions);
        assert(full_after.sequences =~= merged.sequences);
    }
}

} // verus!
