//! Operation codes.
//!
//! An operation code is one byte. Its top bit says that a transfer comes in
//! with the instruction, the next bit that a transfer goes out in answer to
//! it, and the low six bits number the operation among those with the same
//! two bits.

use vstd::prelude::*;

verus! {

/// The bit of an operation code that says: a transfer comes in with the instruction.
pub const FLAG_INCOMING_TRANSFER: u8 = 0x80;

/// The bit of an operation code that says: a transfer goes out in answer.
pub const FLAG_OUTGOING_TRANSFER: u8 = 0x40;

/// Both transfer bits.
pub const FLAG_BOTH_TRANSFERS: u8 = 0xC0;

/// Neither transfer bit.
pub const FLAG_NO_ASSC_TRANSFER: u8 = 0x00;

/// The low six bits: the number of the operation among those with the same flags.
pub const ACTION_MASK: u8 = 0x3F;

/// Deposit stable coins: a transfer in, a transfer out, number 0.
pub const OP_CODE_DEPOSIT_STABLE: u8 = 0xC0;

/// Redeem receipt tokens: a transfer in, a transfer out, number 1.
pub const OP_CODE_REDEEM_STABLE: u8 = 0xC1;

/// Repay a loan: a transfer in, number 0.
pub const OP_CODE_REPAY_STABLE: u8 = 0x80;

/// Lock collateral: a transfer in, number 1.
pub const OP_CODE_LOCK_COLLATERAL: u8 = 0x81;

/// Unlock collateral: a transfer out, number 0.
pub const OP_CODE_UNLOCK_COLLATERAL: u8 = 0x40;

/// Borrow stable coins: a transfer out, number 1.
pub const OP_CODE_BORROW_STABLE: u8 = 0x41;

/// Claim rewards: a transfer out, number 2.
pub const OP_CODE_CLAIM_REWARDS: u8 = 0x42;

/// Which transfers accompany an operation.
#[derive(Clone, Copy, Debug, PartialEq, Eq, Structural)]
pub enum Direction {
    /// A transfer comes in; none goes out.
    Incoming,
    /// A transfer goes out; none comes in.
    Outgoing,
    /// A transfer comes in and another goes out.
    Both,
}

/// The seven operations that a remote user can ask for.
#[derive(Clone, Copy, Debug, PartialEq, Eq, Structural)]
pub enum Opcode {
    DepositStable,
    RedeemStable,
    RepayStable,
    LockCollateral,
    UnlockCollateral,
    BorrowStable,
    ClaimRewards,
}

impl Opcode {
    /// The byte that stands for the operation.
    pub open spec fn spec_byte(self) -> u8 {
        match self {
            Opcode::DepositStable => OP_CODE_DEPOSIT_STABLE,
            Opcode::RedeemStable => OP_CODE_REDEEM_STABLE,
            Opcode::RepayStable => OP_CODE_REPAY_STABLE,
            Opcode::LockCollateral => OP_CODE_LOCK_COLLATERAL,
            Opcode::UnlockCollateral => OP_CODE_UNLOCK_COLLATERAL,
            Opcode::BorrowStable => OP_CODE_BORROW_STABLE,
            Opcode::ClaimRewards => OP_CODE_CLAIM_REWARDS,
        }
    }

    /// The operation that `byte` stands for, if it stands for one.
    pub open spec fn spec_from_byte(byte: u8) -> Option<Opcode> {
        if byte == OP_CODE_DEPOSIT_STABLE {
            Some(Opcode::DepositStable)
        } else if byte == OP_CODE_REDEEM_STABLE {
            Some(Opcode::RedeemStable)
        } else if byte == OP_CODE_REPAY_STABLE {
            Some(Opcode::RepayStable)
        } else if byte == OP_CODE_LOCK_COLLATERAL {
            Some(Opcode::LockCollateral)
        } else if byte == OP_CODE_UNLOCK_COLLATERAL {
            Some(Opcode::UnlockCollateral)
        } else if byte == OP_CODE_BORROW_STABLE {
            Some(Opcode::BorrowStable)
        } else if byte == OP_CODE_CLAIM_REWARDS {
            Some(Opcode::ClaimRewards)
        } else {
            None
        }
    }

    /// Which transfers accompany the operation.
    pub open spec fn spec_direction(self) -> Direction {
        match self {
            Opcode::DepositStable | Opcode::RedeemStable => Direction::Both,
            Opcode::RepayStable | Opcode::LockCollateral => Direction::Incoming,
            Opcode::UnlockCollateral | Opcode::BorrowStable | Opcode::ClaimRewards => {
                Direction::Outgoing
            },
        }
    }

    /// The number of the operation among those with the same direction.
    pub open spec fn spec_action(self) -> u8 {
        match self {
            Opcode::DepositStable | Opcode::RepayStable | Opcode::UnlockCollateral => 0,
            Opcode::RedeemStable | Opcode::LockCollateral | Opcode::BorrowStable => 1,
            Opcode::ClaimRewards => 2,
        }
    }

    /// Whether a transfer comes in with the instruction.
    pub open spec fn spec_has_incoming(self) -> bool {
        self.spec_direction() != Direction::Outgoing
    }

    /// Whether a transfer goes out in answer to the instruction.
    pub open spec fn spec_has_outgoing(self) -> bool {
        self.spec_direction() != Direction::Incoming
    }

    /// Whether the operation works on the user's own position in the money
    /// market, and so needs the user's proxy.
    pub open spec fn spec_is_borrow_op(self) -> bool {
        match self {
            Opcode::RepayStable
            | Opcode::UnlockCollateral
            | Opcode::BorrowStable
            | Opcode::ClaimRewards
            | Opcode::LockCollateral => true,
            Opcode::DepositStable | Opcode::RedeemStable => false,
        }
    }

    /// The number of bytes that follow the header of an instruction with
    /// this operation.
    pub open spec fn spec_body_len(self) -> nat {
        match self {
            Opcode::DepositStable
            | Opcode::RedeemStable
            | Opcode::RepayStable
            | Opcode::LockCollateral => 8,
            Opcode::UnlockCollateral => 48,
            Opcode::BorrowStable => 32,
            Opcode::ClaimRewards => 0,
        }
    }

    /// The byte that stands for the operation.
    pub fn byte(self) -> (byte: u8)
        ensures
            byte == self.spec_byte(),
    {
        match self {
            Opcode::DepositStable => OP_CODE_DEPOSIT_STABLE,
            Opcode::RedeemStable => OP_CODE_REDEEM_STABLE,
            Opcode::RepayStable => OP_CODE_REPAY_STABLE,
            Opcode::LockCollateral => OP_CODE_LOCK_COLLATERAL,
            Opcode::UnlockCollateral => OP_CODE_UNLOCK_COLLATERAL,
            Opcode::BorrowStable => OP_CODE_BORROW_STABLE,
            Opcode::ClaimRewards => OP_CODE_CLAIM_REWARDS,
        }
    }

    /// The operation that `byte` stands for, if it stands for one.
    pub fn from_byte(byte: u8) -> (opcode: Option<Opcode>)
        ensures
            opcode == Opcode::spec_from_byte(byte),
    {
        if byte == OP_CODE_DEPOSIT_STABLE {
            Some(Opcode::DepositStable)
        } else if byte == OP_CODE_REDEEM_STABLE {
            Some(Opcode::RedeemStable)
        } else if byte == OP_CODE_REPAY_STABLE {
            Some(Opcode::RepayStable)
        } else if byte == OP_CODE_LOCK_COLLATERAL {
            Some(Opcode::LockCollateral)
        } else if byte == OP_CODE_UNLOCK_COLLATERAL {
            Some(Opcode::UnlockCollateral)
        } else if byte == OP_CODE_BORROW_STABLE {
            Some(Opcode::BorrowStable)
        } else if byte == OP_CODE_CLAIM_REWARDS {
            Some(Opcode::ClaimRewards)
        } else {
            None
        }
    }

    /// Which transfers accompany the operation.
    pub fn direction(self) -> (direction: Direction)
        ensures
            direction == self.spec_direction(),
    {
        match self {
            Opcode::DepositStable | Opcode::RedeemStable => Direction::Both,
            Opcode::RepayStable | Opcode::LockCollateral => Direction::Incoming,
            Opcode::UnlockCollateral | Opcode::BorrowStable | Opcode::ClaimRewards => {
                Direction::Outgoing
            },
        }
    }

    /// Whether a transfer comes in with the instruction.
    pub fn has_incoming(self) -> (incoming: bool)
        ensures
            incoming == self.spec_has_incoming(),
            incoming == (self.spec_byte() & FLAG_INCOMING_TRANSFER != 0),
    {
        proof {
            lemma_opcode_bits(self);
        }
        self.byte() & FLAG_INCOMING_TRANSFER != 0
    }

    /// Whether a transfer goes out in answer to the instruction.
    pub fn has_outgoing(self) -> (outgoing: bool)
        ensures
            outgoing == self.spec_has_outgoing(),
            outgoing == (self.spec_byte() & FLAG_OUTGOING_TRANSFER != 0),
    {
        proof {
            lemma_opcode_bits(self);
        }
        self.byte() & FLAG_OUTGOING_TRANSFER != 0
    }

    /// Whether the operation needs the user's proxy.
    pub fn is_borrow_op(self) -> (borrow: bool)
        ensures
            borrow == self.spec_is_borrow_op(),
    {
        match self {
            Opcode::RepayStable
            | Opcode::UnlockCollateral
            | Opcode::BorrowStable
            | Opcode::ClaimRewards
            | Opcode::LockCollateral => true,
            Opcode::DepositStable | Opcode::RedeemStable => false,
        }
    }

    /// The number of bytes that follow the header of an instruction with
    /// this operation.
    pub fn body_len(self) -> (len: usize)
        ensures
            len == self.spec_body_len(),
    {
        match self {
            Opcode::DepositStable
            | Opcode::RedeemStable
            | Opcode::RepayStable
            | Opcode::LockCollateral => 8,
            Opcode::UnlockCollateral => 48,
            Opcode::BorrowStable => 32,
            Opcode::ClaimRewards => 0,
        }
    }
}

/// The byte of an operation is made of its direction, in the two top bits,
/// and of its number, in the six low bits; and the byte gives the operation back.
pub proof fn lemma_opcode_bits(opcode: Opcode)
    ensures
        (opcode.spec_byte() & FLAG_INCOMING_TRANSFER != 0) == opcode.spec_has_incoming(),
        (opcode.spec_byte() & FLAG_OUTGOING_TRANSFER != 0) == opcode.spec_has_outgoing(),
        opcode.spec_byte() & ACTION_MASK == opcode.spec_action(),
        Opcode::spec_from_byte(opcode.spec_byte()) == Some(opcode),
{
    assert(0xC0u8 & 0x80u8 == 0x80u8 && 0xC0u8 & 0x40u8 == 0x40u8 && 0xC0u8 & 0x3Fu8 == 0u8)
        by (bit_vector);
    assert(0xC1u8 & 0x80u8 == 0x80u8 && 0xC1u8 & 0x40u8 == 0x40u8 && 0xC1u8 & 0x3Fu8 == 1u8)
        by (bit_vector);
    assert(0x80u8 & 0x80u8 == 0x80u8 && 0x80u8 & 0x40u8 == 0u8 && 0x80u8 & 0x3Fu8 == 0u8)
        by (bit_vector);
    assert(0x81u8 & 0x80u8 == 0x80u8 && 0x81u8 & 0x40u8 == 0u8 && 0x81u8 & 0x3Fu8 == 1u8)
        by (bit_vector);
    assert(0x40u8 & 0x80u8 == 0u8 && 0x40u8 & 0x40u8 == 0x40u8 && 0x40u8 & 0x3Fu8 == 0u8)
        by (bit_vector);
    assert(0x41u8 & 0x80u8 == 0u8 && 0x41u8 & 0x40u8 == 0x40u8 && 0x41u8 & 0x3Fu8 == 1u8)
        by (bit_vector);
    assert(0x42u8 & 0x80u8 == 0u8 && 0x42u8 & 0x40u8 == 0x40u8 && 0x42u8 & 0x3Fu8 == 2u8)
        by (bit_vector);
}

/// The next sequence of an emitter, from what the attestation oracle has
/// recorded for it: the recorded number, or 0 for an emitter that has not
/// published yet.
pub fn get_next_sequence(recorded: Option<u64>) -> (next: u64)
    ensures
        next == match recorded {
            Some(sequence) => sequence,
            None => 0,
        },
{
    match recorded {
        Some(sequence) => sequence,
        None => 0,
    }
}

} // verus!
