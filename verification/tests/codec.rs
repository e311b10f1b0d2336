use crossanchor::asset::Uint256;
use crossanchor::byte_utils::{
    bytes_eq, extend_address_to_32, get_address, get_bytes32, get_u128_be, get_u16, get_u256,
    get_u64, get_u8, put_bytes, put_u16, put_u64,
};
use crossanchor::error::RelayError;
use crossanchor::gateway::instruction::{Instruction, Operation, HEADER_LEN};
use crossanchor::gateway::util::{
    get_next_sequence, Direction, Opcode, FLAG_BOTH_TRANSFERS, FLAG_INCOMING_TRANSFER,
    FLAG_NO_ASSC_TRANSFER, FLAG_OUTGOING_TRANSFER, OP_CODE_BORROW_STABLE, OP_CODE_CLAIM_REWARDS,
    OP_CODE_DEPOSIT_STABLE, OP_CODE_LOCK_COLLATERAL, OP_CODE_REDEEM_STABLE, OP_CODE_REPAY_STABLE,
    OP_CODE_UNLOCK_COLLATERAL,
};
use crossanchor::wormhole::{Action, TokenBridgeMessage, TransferInfo, TRANSFER_INFO_LEN};

fn sender() -> Vec<u8> {
    let mut address = vec![0u8; 31];
    address.push(1);
    address
}

fn header(opcode: u8) -> Vec<u8> {
    let mut bytes = vec![opcode];
    bytes.extend_from_slice(&sender());
    bytes
}

fn with_sequence(opcode: u8, sequence: u64) -> Vec<u8> {
    let mut bytes = header(opcode);
    bytes.extend_from_slice(&sequence.to_be_bytes());
    bytes
}

#[test]
fn opcode_bytes_are_flags_over_actions() {
    assert_eq!(OP_CODE_DEPOSIT_STABLE, 0 | FLAG_BOTH_TRANSFERS);
    assert_eq!(OP_CODE_REDEEM_STABLE, 1 | FLAG_BOTH_TRANSFERS);
    assert_eq!(OP_CODE_REPAY_STABLE, 0 | FLAG_INCOMING_TRANSFER);
    assert_eq!(OP_CODE_LOCK_COLLATERAL, 1 | FLAG_INCOMING_TRANSFER);
    assert_eq!(OP_CODE_UNLOCK_COLLATERAL, 0 | FLAG_OUTGOING_TRANSFER);
    assert_eq!(OP_CODE_BORROW_STABLE, 1 | FLAG_OUTGOING_TRANSFER);
    assert_eq!(OP_CODE_CLAIM_REWARDS, 2 | FLAG_OUTGOING_TRANSFER);
    assert_eq!(FLAG_BOTH_TRANSFERS, FLAG_INCOMING_TRANSFER | FLAG_OUTGOING_TRANSFER);
    assert_eq!(FLAG_NO_ASSC_TRANSFER, 0);
}

#[test]
fn opcode_round_trips_through_its_byte() {
    let all = [
        Opcode::DepositStable,
        Opcode::RedeemStable,
        Opcode::RepayStable,
        Opcode::LockCollateral,
        Opcode::UnlockCollateral,
        Opcode::BorrowStable,
        Opcode::ClaimRewards,
    ];
    for opcode in all {
        assert_eq!(Opcode::from_byte(opcode.byte()), Some(opcode));
        assert_eq!(opcode.has_incoming(), opcode.byte() & 0x80 != 0);
        assert_eq!(opcode.has_outgoing(), opcode.byte() & 0x40 != 0);
    }
    let known: Vec<u8> = all.iter().map(|o| o.byte()).collect();
    for byte in 0u8..=255 {
        if !known.contains(&byte) {
            assert_eq!(Opcode::from_byte(byte), None);
        }
    }
}

#[test]
fn opcode_directions_and_families() {
    assert_eq!(Opcode::DepositStable.direction(), Direction::Both);
    assert_eq!(Opcode::RedeemStable.direction(), Direction::Both);
    assert_eq!(Opcode::RepayStable.direction(), Direction::Incoming);
    assert_eq!(Opcode::LockCollateral.direction(), Direction::Incoming);
    assert_eq!(Opcode::UnlockCollateral.direction(), Direction::Outgoing);
    assert_eq!(Opcode::BorrowStable.direction(), Direction::Outgoing);
    assert_eq!(Opcode::ClaimRewards.direction(), Direction::Outgoing);
    assert!(!Opcode::DepositStable.is_borrow_op());
    assert!(!Opcode::RedeemStable.is_borrow_op());
    assert!(Opcode::RepayStable.is_borrow_op());
    assert!(Opcode::LockCollateral.is_borrow_op());
    assert!(Opcode::UnlockCollateral.is_borrow_op());
    assert!(Opcode::BorrowStable.is_borrow_op());
    assert!(Opcode::ClaimRewards.is_borrow_op());
    assert_eq!(Opcode::DepositStable.body_len(), 8);
    assert_eq!(Opcode::UnlockCollateral.body_len(), 48);
    assert_eq!(Opcode::BorrowStable.body_len(), 32);
    assert_eq!(Opcode::ClaimRewards.body_len(), 0);
}

#[test]
fn decode_deposit_reads_the_expected_sequence() {
    let instruction = Instruction::decode(&with_sequence(0xC0, 258)).unwrap();
    assert_eq!(instruction.sender_address, sender());
    assert_eq!(instruction.operation, Operation::DepositStable { expected_sequence: 258 });
    assert_eq!(instruction.operation.opcode(), Opcode::DepositStable);
    assert_eq!(instruction.operation.expected_sequence(), Some(258));
}

#[test]
fn decode_redeem_repay_and_lock_read_the_expected_sequence() {
    assert_eq!(
        Instruction::decode(&with_sequence(0xC1, u64::MAX)).unwrap().operation,
        Operation::RedeemStable { expected_sequence: u64::MAX }
    );
    assert_eq!(
        Instruction::decode(&with_sequence(0x80, 0)).unwrap().operation,
        Operation::RepayStable { expected_sequence: 0 }
    );
    assert_eq!(
        Instruction::decode(&with_sequence(0x81, 0x0102030405060708)).unwrap().operation,
        Operation::LockCollateral { expected_sequence: 0x0102030405060708 }
    );
}

#[test]
fn decode_unlock_reads_token_and_sum() {
    let mut bytes = header(0x40);
    let mut token = vec![0u8; 12];
    token.extend_from_slice(&[7u8; 20]);
    bytes.extend_from_slice(&token);
    bytes.extend_from_slice(&500u128.to_be_bytes());
    let instruction = Instruction::decode(&bytes).unwrap();
    assert_eq!(
        instruction.operation,
        Operation::UnlockCollateral { token_address: token, amount: 500 }
    );
    assert_eq!(instruction.operation.expected_sequence(), None);
}

#[test]
fn decode_borrow_reads_a_256_bit_sum() {
    let mut bytes = header(0x41);
    let mut amount = [0u8; 32];
    amount[15] = 7;
    amount[31] = 9;
    bytes.extend_from_slice(&amount);
    let instruction = Instruction::decode(&bytes).unwrap();
    assert_eq!(
        instruction.operation,
        Operation::BorrowStable { amount: Uint256 { high: 7, low: 9 } }
    );
}

#[test]
fn decode_claim_has_no_body() {
    let instruction = Instruction::decode(&header(0x42)).unwrap();
    assert_eq!(instruction.operation, Operation::ClaimRewards);
    assert_eq!(instruction.sender_address, sender());
}

#[test]
fn decode_refuses_a_short_header() {
    assert_eq!(Instruction::decode(&[]), Err(RelayError::Validation));
    assert_eq!(Instruction::decode(&[0xC0u8; 32]), Err(RelayError::Validation));
    assert_eq!(HEADER_LEN, 33);
}

#[test]
fn decode_refuses_truncated_bodies() {
    for opcode in [0xC0u8, 0xC1, 0x80, 0x81] {
        let mut bytes = with_sequence(opcode, 1);
        bytes.pop();
        assert_eq!(Instruction::decode(&bytes), Err(RelayError::Validation));
    }
    let mut unlock = header(0x40);
    unlock.extend_from_slice(&[0u8; 47]);
    assert_eq!(Instruction::decode(&unlock), Err(RelayError::Validation));
    let mut borrow = header(0x41);
    borrow.extend_from_slice(&[0u8; 31]);
    assert_eq!(Instruction::decode(&borrow), Err(RelayError::Validation));
}

#[test]
fn decode_refuses_oversized_bodies() {
    for opcode in [0xC0u8, 0xC1, 0x80, 0x81] {
        let mut bytes = with_sequence(opcode, 1);
        bytes.push(0);
        assert_eq!(Instruction::decode(&bytes), Err(RelayError::Validation));
    }
    let mut unlock = header(0x40);
    unlock.extend_from_slice(&[0u8; 49]);
    assert_eq!(Instruction::decode(&unlock), Err(RelayError::Validation));
    let mut borrow = header(0x41);
    borrow.extend_from_slice(&[0u8; 33]);
    assert_eq!(Instruction::decode(&borrow), Err(RelayError::Validation));
    let mut claim = header(0x42);
    claim.push(0);
    assert_eq!(Instruction::decode(&claim), Err(RelayError::Validation));
}

#[test]
fn decode_refuses_undefined_opcodes() {
    for opcode in [0x00u8, 0x01, 0x3F, 0x43, 0x82, 0xC2, 0xFF] {
        for body in [0usize, 8, 32, 48] {
            let mut bytes = header(opcode);
            bytes.extend_from_slice(&vec![0u8; body]);
            assert_eq!(Instruction::decode(&bytes), Err(RelayError::Validation));
        }
    }
}

#[test]
fn big_endian_readers_read_exact_values() {
    let data: Vec<u8> = (1u8..=40).collect();
    assert_eq!(get_u8(&data, 3), 4);
    assert_eq!(get_u16(&data, 0), 0x0102);
    assert_eq!(get_u16(&data, 38), 0x2728);
    assert_eq!(get_u64(&data, 1), 0x0203040506070809);
    assert_eq!(get_u128_be(&data, 0), 0x0102030405060708090a0b0c0d0e0f10);
    assert_eq!(
        get_u256(&data, 2),
        (0x030405060708090a0b0c0d0e0f101112, 0x131415161718191a1b1c1d1e1f202122)
    );
    assert_eq!(get_bytes32(&data, 8), (9u8..=40).collect::<Vec<u8>>());
    assert_eq!(get_address(&data, 0), (13u8..=32).collect::<Vec<u8>>());
    assert_eq!(get_u128_be(&[0xFFu8; 16], 0), u128::MAX);
    assert_eq!(get_u64(&[0xFFu8; 8], 0), u64::MAX);
}

#[test]
fn big_endian_writers_write_exact_bytes() {
    let mut out = vec![9u8];
    put_u16(&mut out, 0x0203);
    put_u64(&mut out, 0x0405060708090a0b);
    put_bytes(&mut out, &[0xEE, 0xFF]);
    assert_eq!(out, vec![9, 2, 3, 4, 5, 6, 7, 8, 9, 10, 11, 0xEE, 0xFF]);
    let mut zero = Vec::new();
    put_u64(&mut zero, 0);
    put_u16(&mut zero, u16::MAX);
    assert_eq!(zero, vec![0, 0, 0, 0, 0, 0, 0, 0, 0xFF, 0xFF]);
}

#[test]
fn writers_and_readers_round_trip() {
    for value in [0u64, 1, 255, 256, 0xDEADBEEF, u64::MAX] {
        let mut out = Vec::new();
        put_u64(&mut out, value);
        assert_eq!(out, value.to_be_bytes().to_vec());
        assert_eq!(get_u64(&out, 0), value);
    }
    for value in [0u16, 1, 255, 256, u16::MAX] {
        let mut out = Vec::new();
        put_u16(&mut out, value);
        assert_eq!(out, value.to_be_bytes().to_vec());
        assert_eq!(get_u16(&out, 0), value);
    }
}

#[test]
fn extended_address_is_padded_on_the_left() {
    let extended = extend_address_to_32(&[5u8; 20]);
    let mut expected = vec![0u8; 12];
    expected.extend_from_slice(&[5u8; 20]);
    assert_eq!(extended, expected);
    assert_eq!(extend_address_to_32(&[]), vec![0u8; 12]);
}

#[test]
fn bytes_eq_compares_contents() {
    assert!(bytes_eq(&[], &[]));
    assert!(bytes_eq(&[1, 2, 3], &[1, 2, 3]));
    assert!(!bytes_eq(&[1, 2, 3], &[1, 2, 4]));
    assert!(!bytes_eq(&[1, 2, 3], &[1, 2]));
}

#[test]
fn next_sequence_of_an_unseen_emitter_is_zero() {
    assert_eq!(get_next_sequence(None), 0);
    assert_eq!(get_next_sequence(Some(0)), 0);
    assert_eq!(get_next_sequence(Some(17)), 17);
}

#[test]
fn token_bridge_message_splits_action_from_body() {
    let message = TokenBridgeMessage::deserialize(&[1, 9, 8, 7]).unwrap();
    assert_eq!(message.action, Action::TRANSFER);
    assert_eq!(message.payload, vec![9, 8, 7]);
    let bare = TokenBridgeMessage::deserialize(&[2]).unwrap();
    assert_eq!(bare.action, Action::ATTEST_META);
    assert_eq!(bare.payload, Vec::<u8>::new());
    assert_eq!(TokenBridgeMessage::deserialize(&[]), Err(RelayError::Validation));
}

#[test]
fn transfer_info_reads_each_field_at_its_offset() {
    let mut data = Vec::new();
    data.extend_from_slice(&3u128.to_be_bytes());
    data.extend_from_slice(&1_000_000u128.to_be_bytes());
    data.extend_from_slice(&[0xAB; 32]);
    data.extend_from_slice(&3u16.to_be_bytes());
    data.extend_from_slice(&[0xCD; 32]);
    data.extend_from_slice(&0x0102u16.to_be_bytes());
    data.extend_from_slice(&0u128.to_be_bytes());
    data.extend_from_slice(&250u128.to_be_bytes());
    assert_eq!(data.len(), TRANSFER_INFO_LEN);
    let info = TransferInfo::deserialize(&data).unwrap();
    assert_eq!(info.amount, (3, 1_000_000));
    assert_eq!(info.token_address, vec![0xAB; 32]);
    assert_eq!(info.token_chain, 3);
    assert_eq!(info.recipient, vec![0xCD; 32]);
    assert_eq!(info.recipient_chain, 0x0102);
    assert_eq!(info.fee, (0, 250));
    data.push(0x77);
    assert_eq!(TransferInfo::deserialize(&data).unwrap().fee, (0, 250));
    data.truncate(TRANSFER_INFO_LEN - 1);
    assert_eq!(TransferInfo::deserialize(&data), Err(RelayError::Validation));
}
