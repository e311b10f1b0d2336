//! The instruction codec.
//!
//! An instruction is one byte of operation code, the 32 bytes of the sender's
//! address, and a body whose layout the operation fixes. All numbers are
//! big-endian.
//!
//! | operation                                   | body                                   |
//! |---------------------------------------------|----------------------------------------|
//! | deposit, redeem, repay, lock collateral     | 8 bytes: sequence of the transfer in   |
//! | unlock collateral                           | 32 bytes of token address, 16 of sum   |
//! | borrow                                      | 32 bytes of sum                        |
//! | claim rewards                               | none                                   |

use crate::asset::Uint256;
use crate::byte_utils::{be_uint, field, get_bytes32, get_u128_be, get_u256, get_u64, get_u8};
use crate::error::RelayError;
use crate::gateway::util::Opcode;
use vstd::prelude::*;

verus! {

/// The number of bytes before the body: the operation code and the sender's address.
pub const HEADER_LEN: usize = 33;

/// What an instruction asks for, with what its body says.
#[allow(inconsistent_fields)]
#[derive(Clone, Debug, PartialEq, Eq)]
pub enum Operation {
    DepositStable { expected_sequence: u64 },
    RedeemStable { expected_sequence: u64 },
    RepayStable { expected_sequence: u64 },
    LockCollateral { expected_sequence: u64 },
    UnlockCollateral { token_address: Vec<u8>, amount: u128 },
    BorrowStable { amount: Uint256 },
    ClaimRewards,
}

/// What an [`Operation`] holds, as mathematical values.
#[allow(inconsistent_fields)]
pub enum OperationView {
    DepositStable { expected_sequence: u64 },
    RedeemStable { expected_sequence: u64 },
    RepayStable { expected_sequence: u64 },
    LockCollateral { expected_sequence: u64 },
    UnlockCollateral { token_address: Seq<u8>, amount: u128 },
    BorrowStable { amount: Uint256 },
    ClaimRewards,
}

impl View for Operation {
    type V = OperationView;

    open spec fn view(&self) -> OperationView {
        match self {
            Operation::DepositStable { expected_sequence } => OperationView::DepositStable {
                expected_sequence: *expected_sequence,
            },
            Operation::RedeemStable { expected_sequence } => OperationView::RedeemStable {
                expected_sequence: *expected_sequence,
            },
            Operation::RepayStable { expected_sequence } => OperationView::RepayStable {
                expected_sequence: *expected_sequence,
            },
            Operation::LockCollateral { expected_sequence } => OperationView::LockCollateral {
                expected_sequence: *expected_sequence,
            },
            Operation::UnlockCollateral { token_address, amount } => {
                OperationView::UnlockCollateral { token_address: token_address@, amount: *amount }
            },
            Operation::BorrowStable { amount } => OperationView::BorrowStable { amount: *amount },
            Operation::ClaimRewards => OperationView::ClaimRewards,
        }
    }
}

impl OperationView {
    /// The operation code.
    pub open spec fn opcode(self) -> Opcode {
        match self {
            OperationView::DepositStable { .. } => Opcode::DepositStable,
            OperationView::RedeemStable { .. } => Opcode::RedeemStable,
            OperationView::RepayStable { .. } => Opcode::RepayStable,
            OperationView::LockCollateral { .. } => Opcode::LockCollateral,
            OperationView::UnlockCollateral { .. } => Opcode::UnlockCollateral,
            OperationView::BorrowStable { .. } => Opcode::BorrowStable,
            OperationView::ClaimRewards => Opcode::ClaimRewards,
        }
    }

    /// The sequence of the transfer that comes in with the instruction, for
    /// an operation with one.
    pub open spec fn expected_sequence(self) -> Option<u64> {
        match self {
            OperationView::DepositStable { expected_sequence } => Some(expected_sequence),
            OperationView::RedeemStable { expected_sequence } => Some(expected_sequence),
            OperationView::RepayStable { expected_sequence } => Some(expected_sequence),
            OperationView::LockCollateral { expected_sequence } => Some(expected_sequence),
            _ => None,
        }
    }
}

impl Operation {
    /// The operation code.
    pub fn opcode(&self) -> (opcode: Opcode)
        ensures
            opcode == self@.opcode(),
    {
        match self {
            Operation::DepositStable { .. } => Opcode::DepositStable,
            Operation::RedeemStable { .. } => Opcode::RedeemStable,
            Operation::RepayStable { .. } => Opcode::RepayStable,
            Operation::LockCollateral { .. } => Opcode::LockCollateral,
            Operation::UnlockCollateral { .. } => Opcode::UnlockCollateral,
            Operation::BorrowStable { .. } => Opcode::BorrowStable,
            Operation::ClaimRewards => Opcode::ClaimRewards,
        }
    }

    /// The sequence of the transfer that comes in with the instruction, for
    /// an operation with one.
    pub fn expected_sequence(&self) -> (sequence: Option<u64>)
        ensures
            sequence == self@.expected_sequence(),
    {
        match self {
            Operation::DepositStable { expected_sequence } => Some(*expected_sequence),
            Operation::RedeemStable { expected_sequence } => Some(*expected_sequence),
            Operation::RepayStable { expected_sequence } => Some(*expected_sequence),
            Operation::LockCollateral { expected_sequence } => Some(*expected_sequence),
            _ => None,
        }
    }
}

/// An instruction of a remote user, taken apart.
#[derive(Clone, Debug, PartialEq, Eq)]
pub struct Instruction {
    /// The user's address on the remote chain, in 32 bytes.
    pub sender_address: Vec<u8>,
    pub operation: Operation,
}

/// What an [`Instruction`] holds, as mathematical values.
pub struct InstructionView {
    pub sender_address: Seq<u8>,
    pub operation: OperationView,
}

impl View for Instruction {
    type V = InstructionView;

    open spec fn view(&self) -> InstructionView {
        InstructionView { sender_address: self.sender_address@, operation: self.operation@ }
    }
}

/// The body that `bytes` hold for the operation `opcode`, read at its fixed offsets.
pub open spec fn body_of(opcode: Opcode, bytes: Seq<u8>) -> OperationView {
    let sequence = be_uint(field(bytes, HEADER_LEN as int, 8)) as u64;
    match opcode {
        Opcode::DepositStable => OperationView::DepositStable { expected_sequence: sequence },
        Opcode::RedeemStable => OperationView::RedeemStable { expected_sequence: sequence },
        Opcode::RepayStable => OperationView::RepayStable { expected_sequence: sequence },
        Opcode::LockCollateral => OperationView::LockCollateral { expected_sequence: sequence },
        Opcode::UnlockCollateral => OperationView::UnlockCollateral {
            token_address: field(bytes, HEADER_LEN as int, 32),
            amount: be_uint(field(bytes, HEADER_LEN + 32, 16)) as u128,
        },
        Opcode::BorrowStable => OperationView::BorrowStable {
            amount: Uint256 {
                high: be_uint(field(bytes, HEADER_LEN as int, 16)) as u128,
                low: be_uint(field(bytes, HEADER_LEN + 16, 16)) as u128,
            },
        },
        Opcode::ClaimRewards => OperationView::ClaimRewards,
    }
}

impl InstructionView {
    /// The instruction that `bytes` spell. Bytes that stop before the end of
    /// the header, whose first byte is none of the seven operation codes, or
    /// whose length is not the header's plus the body's, spell none.
    pub open spec fn decode(bytes: Seq<u8>) -> Result<InstructionView, RelayError> {
        if bytes.len() < HEADER_LEN {
            Err(RelayError::Validation)
        } else {
            match Opcode::spec_from_byte(bytes[0]) {
                None => Err(RelayError::Validation),
                Some(opcode) => if bytes.len() != HEADER_LEN + opcode.spec_body_len() {
                    Err(RelayError::Validation)
                } else {
                    Ok(
                        InstructionView {
                            sender_address: field(bytes, 1, 32),
                            operation: body_of(opcode, bytes),
                        },
                    )
                },
            }
        }
    }
}

impl Instruction {
    /// Takes an instruction apart.
    pub fn decode(bytes: &[u8]) -> (instruction: Result<Instruction, RelayError>)
        ensures
            match instruction {
                Ok(i) => InstructionView::decode(bytes@) == Ok::<InstructionView, RelayError>(i@),
                Err(e) => InstructionView::decode(bytes@) == Err::<InstructionView, RelayError>(e),
            },
    {
        if bytes.len() < HEADER_LEN {
            return Err(RelayError::Validation);
        }
        let opcode = match Opcode::from_byte(get_u8(bytes, 0)) {
            Some(opcode) => opcode,
            None => {
                return Err(RelayError::Validation);
            },
        };
        if bytes.len() - HEADER_LEN != opcode.body_len() {
            return Err(RelayError::Validation);
        }
        let sender_address = get_bytes32(bytes, 1);
        let operation = match opcode {
            Opcode::DepositStable => Operation::DepositStable {
                expected_sequence: get_u64(bytes, HEADER_LEN),
            },
            Opcode::RedeemStable => Operation::RedeemStable {
                expected_sequence: get_u64(bytes, HEADER_LEN),
            },
            Opcode::RepayStable => Operation::RepayStable {
                expected_sequence: get_u64(bytes, HEADER_LEN),
            },
            Opcode::LockCollateral => Operation::LockCollateral {
                expected_sequence: get_u64(bytes, HEADER_LEN),
            },
            Opcode::UnlockCollateral => Operation::UnlockCollateral {
                token_address: get_bytes32(bytes, HEADER_LEN),
                amount: get_u128_be(bytes, HEADER_LEN + 32),
            },
            Opcode::BorrowStable => {
                let (high, low) = get_u256(bytes, HEADER_LEN);
                Operation::BorrowStable { amount: Uint256 { high, low } }
            },
            Opcode::ClaimRewards => Operation::ClaimRewards,
        };
        Ok(Instruction { sender_address, operation })
    }
}

/// Decoding gives, for each of the seven operation codes, an instruction with
/// that operation, the sender read from bytes 1 to 32, and the body read at
/// the operation's offsets; it gives one exactly when the bytes are as long as
/// the header and the operation's body; and every other first byte is refused.
pub proof fn lemma_decode_selects_layout(bytes: Seq<u8>)
    ensures
        InstructionView::decode(bytes) is Ok <==> bytes.len() >= HEADER_LEN && Opcode::spec_from_byte(
            bytes[0],
        ) is Some && bytes.len() == HEADER_LEN + Opcode::spec_from_byte(
            bytes[0],
        )->Some_0.spec_body_len(),
        InstructionView::decode(bytes) is Err ==> InstructionView::decode(bytes)->Err_0
            == RelayError::Validation,
        InstructionView::decode(bytes) is Ok ==> {
            let decoded = InstructionView::decode(bytes)->Ok_0;
            &&& decoded.operation.opcode().spec_byte() == bytes[0]
            &&& decoded.sender_address == bytes.subrange(1, 33)
            &&& decoded.operation == body_of(decoded.operation.opcode(), bytes)
        },
{
}

} // verus!
