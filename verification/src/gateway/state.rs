//! What the gateway keeps between calls.

use crate::byte_utils::{
    be_bytes, lemma_be_bytes_injective, lemma_be_bytes_len, pow256, put_bytes, put_u16, put_u64,
};
use crate::store::Store;
use vstd::prelude::*;

verus! {

/// The number of the host chain among the chains of the attestation network.
pub const TERRA_CHAIN_ID: u16 = 3;

/// The contracts that the gateway works with, and its owner.
#[derive(Clone, Debug, PartialEq, Eq)]
pub struct Config {
    pub owner: String,
    pub wormhole_core_bridge_addr: String,
    pub wormhole_token_bridge_addr: String,
    pub cross_anchor_core_addr: String,
    pub aust_cw20_addr: String,
}

/// What a [`Config`] holds, as mathematical values.
pub struct ConfigView {
    pub owner: Seq<char>,
    pub wormhole_core_bridge_addr: Seq<char>,
    pub wormhole_token_bridge_addr: Seq<char>,
    pub cross_anchor_core_addr: Seq<char>,
    pub aust_cw20_addr: Seq<char>,
}

impl View for Config {
    type V = ConfigView;

    open spec fn view(&self) -> ConfigView {
        ConfigView {
            owner: self.owner@,
            wormhole_core_bridge_addr: self.wormhole_core_bridge_addr@,
            wormhole_token_bridge_addr: self.wormhole_token_bridge_addr@,
            cross_anchor_core_addr: self.cross_anchor_core_addr@,
            aust_cw20_addr: self.aust_cw20_addr@,
        }
    }
}

/// What is recorded of an instruction that was processed: whether a transfer
/// goes out in answer to it, and that transfer's sequence once it is known.
#[derive(Clone, Copy, Debug, PartialEq, Eq, Structural)]
pub struct SequenceInfo {
    pub outgoing_sequence_expected: bool,
    pub outgoing_sequence: Option<u64>,
}

impl View for SequenceInfo {
    type V = SequenceInfo;

    open spec fn view(&self) -> SequenceInfo {
        *self
    }
}

/// The transfer that is to go out in answer to the instruction last
/// processed: to whom, and the two sequences that tie it to the instruction.
#[derive(Clone, Debug, PartialEq, Eq)]
pub struct OutgoingTokenTransferInfo {
    pub chain_id: u16,
    pub token_recipient_address: Vec<u8>,
    /// The sequence of the transfer that goes out.
    pub token_transfer_sequence: u64,
    /// The sequence of the instruction that the transfer answers.
    pub instruction_sequence: u64,
}

/// What an [`OutgoingTokenTransferInfo`] holds, as mathematical values.
pub struct OutgoingTokenTransferInfoView {
    pub chain_id: u16,
    pub token_recipient_address: Seq<u8>,
    pub token_transfer_sequence: u64,
    pub instruction_sequence: u64,
}

impl View for OutgoingTokenTransferInfo {
    type V = OutgoingTokenTransferInfoView;

    open spec fn view(&self) -> OutgoingTokenTransferInfoView {
        OutgoingTokenTransferInfoView {
            chain_id: self.chain_id,
            token_recipient_address: self.token_recipient_address@,
            token_transfer_sequence: self.token_transfer_sequence,
            instruction_sequence: self.instruction_sequence,
        }
    }
}

impl OutgoingTokenTransferInfoView {
    /// The bytes that tell the remote gateway of the transfer: the chain in
    /// two bytes, the recipient, and the two sequences in eight bytes each.
    pub open spec fn serialize(self) -> Seq<u8> {
        be_bytes(self.chain_id as nat, 2) + self.token_recipient_address + be_bytes(
            self.token_transfer_sequence as nat,
            8,
        ) + be_bytes(self.instruction_sequence as nat, 8)
    }
}

impl OutgoingTokenTransferInfo {
    /// The bytes that tell the remote gateway of the transfer.
    pub fn serialize(&self) -> (bytes: Vec<u8>)
        ensures
            bytes@ == self@.serialize(),
    {
        let mut bytes: Vec<u8> = Vec::new();
        put_u16(&mut bytes, self.chain_id);
        put_bytes(&mut bytes, self.token_recipient_address.as_slice());
        put_u64(&mut bytes, self.token_transfer_sequence);
        put_u64(&mut bytes, self.instruction_sequence);
        assert(bytes@ =~= self@.serialize());
        bytes
    }
}

/// The view of a pending transfer that may be absent.
pub open spec fn transfer_option_view(
    transfer: Option<OutgoingTokenTransferInfo>,
) -> Option<OutgoingTokenTransferInfoView> {
    match transfer {
        Some(t) => Some(t@),
        None => None,
    }
}

/// The key of a chain's registration: the chain's number in two bytes.
pub open spec fn spec_chain_key(chain_id: u16) -> Seq<u8> {
    be_bytes(chain_id as nat, 2)
}

/// The key of an instruction's record: the chain's number in two bytes, then
/// the instruction's sequence in eight.
pub open spec fn spec_sequence_key(chain_id: u16, sequence: u64) -> Seq<u8> {
    be_bytes(chain_id as nat, 2) + be_bytes(sequence as nat, 8)
}

/// The key of a chain's registration.
pub fn chain_key(chain_id: u16) -> (key: Vec<u8>)
    ensures
        key@ == spec_chain_key(chain_id),
{
    let mut key: Vec<u8> = Vec::new();
    put_u16(&mut key, chain_id);
    assert(key@ =~= spec_chain_key(chain_id));
    key
}

/// The key of an instruction's record.
pub fn sequence_key(chain_id: u16, sequence: u64) -> (key: Vec<u8>)
    ensures
        key@ == spec_sequence_key(chain_id, sequence),
{
    let mut key: Vec<u8> = Vec::new();
    put_u16(&mut key, chain_id);
    put_u64(&mut key, sequence);
    assert(key@ =~= spec_sequence_key(chain_id, sequence));
    key
}

/// Two chains have the same key only if they are the same chain.
pub proof fn lemma_chain_key_injective(a: u16, b: u16)
    requires
        spec_chain_key(a) == spec_chain_key(b),
    ensures
        a == b,
{
    reveal_with_fuel(pow256, 3);
    lemma_be_bytes_injective(a as nat, b as nat, 2);
}

/// Two instructions have the same key only if they have the same chain and
/// the same sequence.
pub proof fn lemma_sequence_key_injective(chain_a: u16, seq_a: u64, chain_b: u16, seq_b: u64)
    requires
        spec_sequence_key(chain_a, seq_a) == spec_sequence_key(chain_b, seq_b),
    ensures
        chain_a == chain_b,
        seq_a == seq_b,
{
    let key_a = spec_sequence_key(chain_a, seq_a);
    let key_b = spec_sequence_key(chain_b, seq_b);
    lemma_be_bytes_len(chain_a as nat, 2);
    lemma_be_bytes_len(chain_b as nat, 2);
    lemma_be_bytes_len(seq_a as nat, 8);
    lemma_be_bytes_len(seq_b as nat, 8);
    assert(key_a.subrange(0, 2) =~= be_bytes(chain_a as nat, 2));
    assert(key_b.subrange(0, 2) =~= be_bytes(chain_b as nat, 2));
    assert(key_a.subrange(2, 10) =~= be_bytes(seq_a as nat, 8));
    assert(key_b.subrange(2, 10) =~= be_bytes(seq_b as nat, 8));
    reveal_with_fuel(pow256, 9);
    lemma_be_bytes_injective(chain_a as nat, chain_b as nat, 2);
    lemma_be_bytes_injective(seq_a as nat, seq_b as nat, 8);
}

/// The gateway's state.
#[derive(Debug)]
pub struct Gateway {
    pub config: Config,
    /// For each remote chain, by [`spec_chain_key`], the gateway trusted there.
    pub chain_registrations: Store<Vec<u8>>,
    /// The instructions that were processed, by their hash.
    pub completed_instructions: Store<bool>,
    /// What is recorded of each processed instruction, by [`spec_sequence_key`].
    pub sequences: Store<SequenceInfo>,
    /// The transfer that is to go out next.
    pub outgoing_transfer: Option<OutgoingTokenTransferInfo>,
}

/// What a [`Gateway`] holds, as mathematical values.
pub struct GatewayView {
    pub config: ConfigView,
    pub chain_registrations: Map<Seq<u8>, Seq<u8>>,
    pub completed_instructions: Map<Seq<u8>, bool>,
    pub sequences: Map<Seq<u8>, SequenceInfo>,
    pub outgoing_transfer: Option<OutgoingTokenTransferInfoView>,
}

impl View for Gateway {
    type V = GatewayView;

    open spec fn view(&self) -> GatewayView {
        GatewayView {
            config: self.config@,
            chain_registrations: self.chain_registrations@,
            completed_instructions: self.completed_instructions@,
            sequences: self.sequences@,
            outgoing_transfer: transfer_option_view(self.outgoing_transfer),
        }
    }
}

impl GatewayView {
    /// Whether the instruction with this hash was processed.
    pub open spec fn completed(self, hash: Seq<u8>) -> bool {
        self.completed_instructions.contains_key(hash) && self.completed_instructions[hash]
    }
}

} // verus!
