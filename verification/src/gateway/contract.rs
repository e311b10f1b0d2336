//! The gateway's entry points.
//!
//! A call that is rejected leaves the state as it was. A call that succeeds
//! changes the state and hands back the messages to deliver, in order. What
//! the gateway has to ask of the attestation network is asked before the
//! call, and the answers are handed in as an [`Oracle`]; an answer that is
//! missing fails the call only if the call needs it.

use crate::asset::{
    bytes_option_view, coins_view, no_coins, one_coin, Address, Asset, AssetInfo, AssetView, Coin,
};
use crate::byte_utils::{bytes_eq, clone_bytes, extend_address_to_32, get_address};
use crate::cw20::{Cw20ExecuteMsg, HookMsg};
use crate::error::RelayError;
use crate::gateway::instruction::{Instruction, Operation};
use crate::gateway::model::{
    coin_call_message, core_execute_message, direct_operation_message, funding,
    incoming_operation_message, parse_token_transfer_asset_spec,
    process_token_transfer_message_spec, provision_messages, reply_spec, submit_transfer_message,
    token_send_message, without_zeros,
};
use crate::gateway::msg::{ExecuteMsg, InstantiateMsg, MigrateMsg, QueryMsg};
use crate::gateway::state::{
    chain_key, sequence_key, spec_sequence_key, Config, ConfigView, Gateway, GatewayView,
    OutgoingTokenTransferInfo, SequenceInfo, TERRA_CHAIN_ID,
};
use crate::message::{
    plain, CosmosMsg, CosmosMsgView, Env, MessageInfo, Reply, ReplyOn, ReplyResult, Response,
    ResponseView, SubMsg, WasmPayload,
};
use crate::router;
use crate::store::Store;
use crate::wormhole::{
    vaa_option_view, Action, ParsedVAA, ParsedVAAView, TokenBridgeMessage, TransferInfo,
    WormholeCoreBridgeExecuteMsg, WormholeTokenBridgeExecuteMsg,
};
use vstd::prelude::*;
use vstd::string::StringExecFns;
use vstd::utf8::{encode_utf8, encode_utf8_decode_utf8, valid_utf8};

verus! {

/// The id under which the gateway hears of a transfer completion that failed.
pub const TOKEN_TRANSFER_SUBMIT_VAA_MSG_ID: u64 = 0;

/// The nonce of every transfer that the gateway sends out.
pub const TOKEN_TRANSFER_NONCE: u32 = 135792468;

/// The nonce of every attestation that tells of such a transfer.
pub const TOKEN_TRANSFER_INFO_NONCE: u32 = 24680135;

/// The first byte of the token address of a native denomination.
pub const WORMHOLE_TERRA_NATIVE_TOKEN_INDICATOR: u8 = 1;

/// What the attestation network answered for one call.
#[derive(Debug, PartialEq, Eq)]
pub struct Oracle {
    /// The instruction's attestation, verified and taken apart; `None` if the
    /// oracle did not vouch for it.
    pub instruction: Option<ParsedVAA>,
    /// The same for the attestation of the companion transfer.
    pub token_transfer: Option<ParsedVAA>,
    /// The next sequence of the emitter of the transfer that goes out: the
    /// transfer oracle's for an instruction, the gateway's own for a relay;
    /// or the reason for which it could not be read.
    pub next_sequence: Result<u64, String>,
}

/// What an [`Oracle`] holds, as mathematical values.
pub struct OracleView {
    pub instruction: Option<ParsedVAAView>,
    pub token_transfer: Option<ParsedVAAView>,
    pub next_sequence: Result<u64, String>,
}

impl View for Oracle {
    type V = OracleView;

    open spec fn view(&self) -> OracleView {
        OracleView {
            instruction: vaa_option_view(self.instruction),
            token_transfer: vaa_option_view(self.token_transfer),
            next_sequence: self.next_sequence,
        }
    }
}

/// The error of `String::from_utf8`.
#[verifier::external_type_specification]
#[verifier::external_body]
pub struct ExFromUtf8Error(std::string::FromUtf8Error);

/// `String::from_utf8` of std: it succeeds exactly on the byte strings that
/// are valid UTF-8, and the text that it gives has those bytes as its encoding.
#[verifier::external_body]
fn text_from_utf8(bytes: Vec<u8>) -> (text: Result<String, std::string::FromUtf8Error>)
    ensures
        text is Ok <==> valid_utf8(bytes@),
        text is Ok ==> encode_utf8(text->Ok_0@) == bytes@,
{
    String::from_utf8(bytes)
}

fn next_sequence_of(oracle: &Oracle) -> (next_sequence: Result<u64, String>)
    ensures
        next_sequence == oracle.next_sequence,
{
    match &oracle.next_sequence {
        Ok(sequence) => Ok(*sequence),
        Err(reason) => Err(reason.clone()),
    }
}

/// A gateway that has processed nothing yet.
pub fn instantiate(msg: InstantiateMsg) -> (state: Gateway)
    ensures
        state@ == (GatewayView {
            config: ConfigView {
                owner: msg.owner@,
                wormhole_core_bridge_addr: msg.wormhole_core_bridge_addr@,
                wormhole_token_bridge_addr: msg.wormhole_token_bridge_addr@,
                cross_anchor_core_addr: msg.cross_anchor_core_addr@,
                aust_cw20_addr: msg.aust_cw20_addr@,
            },
            chain_registrations: Map::empty(),
            completed_instructions: Map::empty(),
            sequences: Map::empty(),
            outgoing_transfer: None,
        }),
{
    Gateway {
        config: Config {
            owner: msg.owner,
            wormhole_core_bridge_addr: msg.wormhole_core_bridge_addr,
            wormhole_token_bridge_addr: msg.wormhole_token_bridge_addr,
            cross_anchor_core_addr: msg.cross_anchor_core_addr,
            aust_cw20_addr: msg.aust_cw20_addr,
        },
        chain_registrations: Store::new(),
        completed_instructions: Store::new(),
        sequences: Store::new(),
        outgoing_transfer: None,
    }
}

/// Runs a call.
pub fn execute(
    state: &mut Gateway,
    env: &Env,
    info: &MessageInfo,
    msg: ExecuteMsg,
    oracle: &Oracle,
) -> (result: Result<Response, RelayError>)
    ensures
        match result {
            Ok(response) => old(state)@.execute(
                env.canonical_address@,
                info.sender@,
                msg@,
                oracle@,
            ) == Ok::<(GatewayView, ResponseView), RelayError>((final(state)@, response@)),
            Err(e) => old(state)@.execute(env.canonical_address@, info.sender@, msg@, oracle@)
                == Err::<(GatewayView, ResponseView), RelayError>(e) && final(state)@ == old(
                state,
            )@,
        },
{
    match msg {
        ExecuteMsg::ProcessAnchorMessage { instruction_vaa, option_token_transfer_vaa } => {
            process_anchor_message(state, env, option_token_transfer_vaa, oracle)
        },
        ExecuteMsg::SendAsset { asset } => send_asset(state, info, asset, next_sequence_of(oracle)),
        ExecuteMsg::RegisterWormholeChainInfo { chain_id, address } => {
            register_wormhole_chain_info(state, info, chain_id, address)
        },
    }
}

/// Answers a question: what is recorded of an instruction.
pub fn query(state: &Gateway, msg: QueryMsg) -> (answer: Result<SequenceInfo, RelayError>)
    ensures
        match msg {
            QueryMsg::SequenceInfo { chain_id, sequence } => match answer {
                Ok(info) => state@.sequences.contains_key(spec_sequence_key(chain_id, sequence))
                    && state@.sequences[spec_sequence_key(chain_id, sequence)] == info,
                Err(e) => !state@.sequences.contains_key(spec_sequence_key(chain_id, sequence))
                    && e == RelayError::NotFound,
            },
        },
{
    match msg {
        QueryMsg::SequenceInfo { chain_id, sequence } => {
            let key = sequence_key(chain_id, sequence);
            match state.sequences.get(key.as_slice()) {
                Some(info) => Ok(*info),
                None => Err(RelayError::NotFound),
            }
        },
    }
}

/// Registers the gateway of a remote chain. Owner only.
pub fn register_wormhole_chain_info(
    state: &mut Gateway,
    info: &MessageInfo,
    chain_id: u16,
    address: Vec<u8>,
) -> (result: Result<Response, RelayError>)
    ensures
        match result {
            Ok(response) => old(state)@.register_wormhole_chain_info(
                info.sender@,
                chain_id,
                address@,
            ) == Ok::<(GatewayView, ResponseView), RelayError>((final(state)@, response@)),
            Err(e) => old(state)@.register_wormhole_chain_info(info.sender@, chain_id, address@)
                == Err::<(GatewayView, ResponseView), RelayError>(e) && final(state)@ == old(
                state,
            )@,
        },
{
    if info.sender != state.config.owner {
        return Err(RelayError::Unauthorized);
    }
    state.chain_registrations.insert(chain_key(chain_id), address);
    Ok(Response::new())
}

/// A call to the router.
pub fn create_core_execute_message(
    config: &Config,
    msg: router::msg::ExecuteMsg,
    funds: Vec<Coin>,
) -> (message: CosmosMsg)
    ensures
        message@ == core_execute_message(config@, msg@, coins_view(funds@)),
{
    CosmosMsg::Execute {
        contract_addr: Address::Human(config.cross_anchor_core_addr.clone()),
        msg: WasmPayload::Router(msg),
        funds,
    }
}

fn strip_zeros(bytes: &Vec<u8>) -> (out: Vec<u8>)
    requires
        bytes@.len() == 32,
    ensures
        out@ == without_zeros(bytes@.subrange(1, 32)),
{
    let mut out: Vec<u8> = Vec::new();
    let mut i: usize = 1;
    assert(bytes@.subrange(1, 1) =~= Seq::<u8>::empty());
    while i < 32
        invariant
            bytes@.len() == 32,
            1 <= i <= 32,
            out@ == without_zeros(bytes@.subrange(1, i as int)),
        decreases 32 - i,
    {
        assert(bytes@.subrange(1, i + 1).drop_last() =~= bytes@.subrange(1, i as int));
        if bytes[i] != 0 {
            out.push(bytes[i]);
        }
        i += 1;
    }
    out
}

/// The asset that a transfer brings.
pub fn parse_token_transfer_asset(transfer_info: TransferInfo) -> (asset: Result<Asset, RelayError>)
    ensures
        match asset {
            Ok(a) => parse_token_transfer_asset_spec(transfer_info@) == Ok::<AssetView, RelayError>(
                a@,
            ),
            Err(e) => parse_token_transfer_asset_spec(transfer_info@) == Err::<
                AssetView,
                RelayError,
            >(e),
        },
{
    if transfer_info.token_chain != TERRA_CHAIN_ID || transfer_info.fee.1 > transfer_info.amount.1
        || transfer_info.token_address.len() != 32 {
        return Err(RelayError::Validation);
    }
    let amount: u128 = transfer_info.amount.1 - transfer_info.fee.1;
    if transfer_info.token_address[0] == WORMHOLE_TERRA_NATIVE_TOKEN_INDICATOR {
        let denom = strip_zeros(&transfer_info.token_address);
        match text_from_utf8(denom) {
            Ok(text) => {
                proof {
                    encode_utf8_decode_utf8(text@);
                }
                Ok(Asset { info: AssetInfo::NativeToken { denom: text }, amount, tax_levies: 1 })
            },
            Err(_) => Err(RelayError::Validation),
        }
    } else {
        Ok(
            Asset {
                info: AssetInfo::Token {
                    contract_addr: Address::Canonical(
                        get_address(transfer_info.token_address.as_slice(), 0),
                    ),
                },
                amount,
                tax_levies: 0,
            },
        )
    }
}

/// The asset that the companion transfer brings, if the transfer is the one
/// that the instruction declares.
pub fn process_token_transfer_message(
    env: &Env,
    expected_emitter_chain: u16,
    expected_sequence: u64,
    token_transfer_vaa: &ParsedVAA,
) -> (asset: Result<Asset, RelayError>)
    ensures
        match asset {
            Ok(a) => process_token_transfer_message_spec(
                env.canonical_address@,
                expected_emitter_chain,
                expected_sequence,
                token_transfer_vaa@,
            ) == Ok::<AssetView, RelayError>(a@),
            Err(e) => process_token_transfer_message_spec(
                env.canonical_address@,
                expected_emitter_chain,
                expected_sequence,
                token_transfer_vaa@,
            ) == Err::<AssetView, RelayError>(e),
        },
{
    if expected_emitter_chain != token_transfer_vaa.emitter_chain || expected_sequence
        != token_transfer_vaa.sequence {
        return Err(RelayError::Correlation);
    }
    let message = match TokenBridgeMessage::deserialize(token_transfer_vaa.payload.as_slice()) {
        Ok(message) => message,
        Err(e) => {
            return Err(e);
        },
    };
    if message.action != Action::TRANSFER {
        return Err(RelayError::Validation);
    }
    let transfer_info = match TransferInfo::deserialize(message.payload.as_slice()) {
        Ok(info) => info,
        Err(e) => {
            return Err(e);
        },
    };
    let own = extend_address_to_32(env.canonical_address.as_slice());
    if transfer_info.recipient_chain != TERRA_CHAIN_ID || !bytes_eq(
        transfer_info.recipient.as_slice(),
        own.as_slice(),
    ) {
        return Err(RelayError::Correlation);
    }
    parse_token_transfer_asset(transfer_info)
}

fn coin_call(config: &Config, asset: &Asset, msg: router::msg::ExecuteMsg) -> (message: Result<
    CosmosMsg,
    RelayError,
>)
    ensures
        match message {
            Ok(m) => coin_call_message(config@, asset@, msg@) == Ok::<CosmosMsgView, RelayError>(
                m@,
            ),
            Err(e) => coin_call_message(config@, asset@, msg@) == Err::<CosmosMsgView, RelayError>(
                e,
            ),
        },
{
    match asset.deduct_tax() {
        Ok(coin) => Ok(create_core_execute_message(config, msg, one_coin(coin))),
        Err(e) => Err(e),
    }
}

fn token_send(config: &Config, asset: Asset, hook: router::msg::Cw20HookMsg) -> (message: Result<
    CosmosMsg,
    RelayError,
>)
    ensures
        match message {
            Ok(m) => token_send_message(config@, asset@, hook@) == Ok::<CosmosMsgView, RelayError>(
                m@,
            ),
            Err(e) => token_send_message(config@, asset@, hook@) == Err::<
                CosmosMsgView,
                RelayError,
            >(e),
        },
{
    match asset.info {
        AssetInfo::Token { contract_addr } => Ok(
            CosmosMsg::Execute {
                contract_addr,
                msg: WasmPayload::Cw20(
                    Cw20ExecuteMsg::Send {
                        contract: config.cross_anchor_core_addr.clone(),
                        amount: asset.amount,
                        msg: HookMsg::Router(hook),
                    },
                ),
                funds: no_coins(),
            },
        ),
        AssetInfo::NativeToken { .. } => Err(RelayError::Validation),
    }
}

fn incoming_operation(
    config: &Config,
    sender_chain: u16,
    instruction: &Instruction,
    asset: Asset,
) -> (message: Result<CosmosMsg, RelayError>)
    ensures
        match message {
            Ok(m) => incoming_operation_message(config@, sender_chain, instruction@, asset@) == Ok::<
                CosmosMsgView,
                RelayError,
            >(m@),
            Err(e) => incoming_operation_message(config@, sender_chain, instruction@, asset@)
                == Err::<CosmosMsgView, RelayError>(e),
        },
{
    let sender_address = clone_bytes(&instruction.sender_address);
    match &instruction.operation {
        Operation::DepositStable { .. } => coin_call(
            config,
            &asset,
            router::msg::ExecuteMsg::DepositStable { sender_chain, sender_address },
        ),
        Operation::RepayStable { .. } => coin_call(
            config,
            &asset,
            router::msg::ExecuteMsg::RepayStable { sender_chain, sender_address },
        ),
        Operation::RedeemStable { .. } => token_send(
            config,
            asset,
            router::msg::Cw20HookMsg::RedeemStable { sender_chain, sender_address },
        ),
        Operation::LockCollateral { .. } => token_send(
            config,
            asset,
            router::msg::Cw20HookMsg::LockCollateral { sender_chain, sender_address },
        ),
        _ => Err(RelayError::Validation),
    }
}

fn direct_operation(config: &Config, sender_chain: u16, instruction: &Instruction) -> (message:
    Result<CosmosMsg, RelayError>)
    ensures
        match message {
            Ok(m) => direct_operation_message(config@, sender_chain, instruction@) == Ok::<
                CosmosMsgView,
                RelayError,
            >(m@),
            Err(e) => direct_operation_message(config@, sender_chain, instruction@) == Err::<
                CosmosMsgView,
                RelayError,
            >(e),
        },
{
    let sender_address = clone_bytes(&instruction.sender_address);
    match &instruction.operation {
        Operation::UnlockCollateral { token_address, amount } => {
            if token_address.len() != 32 {
                return Err(RelayError::Validation);
            }
            Ok(
                create_core_execute_message(
                    config,
                    router::msg::ExecuteMsg::UnlockCollateral {
                        sender_chain,
                        sender_address,
                        asset: Asset {
                            info: AssetInfo::Token {
                                contract_addr: Address::Canonical(
                                    get_address(token_address.as_slice(), 0),
                                ),
                            },
                            amount: *amount,
                            tax_levies: 0,
                        },
                    },
                    no_coins(),
                ),
            )
        },
        Operation::BorrowStable { amount } => Ok(
            create_core_execute_message(
                config,
                router::msg::ExecuteMsg::BorrowStable {
                    sender_chain,
                    sender_address,
                    borrow_amount: *amount,
                },
                no_coins(),
            ),
        ),
        Operation::ClaimRewards => Ok(
            create_core_execute_message(
                config,
                router::msg::ExecuteMsg::ClaimRewards { sender_chain, sender_address },
                no_coins(),
            ),
        ),
        _ => Err(RelayError::Validation),
    }
}

/// Processes an attested instruction of a remote user.
pub fn process_anchor_message(
    state: &mut Gateway,
    env: &Env,
    option_token_transfer_vaa: Option<Vec<u8>>,
    oracle: &Oracle,
) -> (result: Result<Response, RelayError>)
    ensures
        match result {
            Ok(response) => old(state)@.process_anchor_message(
                env.canonical_address@,
                bytes_option_view(option_token_transfer_vaa),
                oracle@,
            ) == Ok::<(GatewayView, ResponseView), RelayError>((final(state)@, response@)),
            Err(e) => old(state)@.process_anchor_message(
                env.canonical_address@,
                bytes_option_view(option_token_transfer_vaa),
                oracle@,
            ) == Err::<(GatewayView, ResponseView), RelayError>(e) && final(state)@ == old(
                state,
            )@,
        },
{
    let vaa = match &oracle.instruction {
        Some(vaa) => vaa,
        None => {
            return Err(RelayError::AttestationInvalid);
        },
    };
    let sender_chain = vaa.emitter_chain;
    let registration_key = chain_key(sender_chain);
    match state.chain_registrations.get(registration_key.as_slice()) {
        Some(expected) => {
            if !bytes_eq(expected.as_slice(), vaa.emitter_address.as_slice()) {
                return Err(RelayError::UnknownEmitter);
            }
        },
        None => {
            return Err(RelayError::UnknownEmitter);
        },
    }
    match state.completed_instructions.get(vaa.hash.as_slice()) {
        Some(done) => {
            if *done {
                return Err(RelayError::Replay);
            }
        },
        None => {},
    }
    let instruction = match Instruction::decode(vaa.payload.as_slice()) {
        Ok(instruction) => instruction,
        Err(e) => {
            return Err(e);
        },
    };
    let opcode = instruction.operation.opcode();
    let outgoing = opcode.has_outgoing();
    let next_sequence: u64 = match &oracle.next_sequence {
        Ok(sequence) => *sequence,
        Err(reason) => {
            if outgoing {
                return Err(RelayError::Upstream { reason: reason.clone() });
            }
            0
        },
    };
    let mut response = Response::new();
    if opcode.is_borrow_op() {
        response.add_message(
            create_core_execute_message(
                &state.config,
                router::msg::ExecuteMsg::InitializeAddressProxy {
                    chain_id: sender_chain,
                    address: clone_bytes(&instruction.sender_address),
                },
                no_coins(),
            ),
        );
    }
    let ghost provision = response@.messages;
    assert(provision =~= provision_messages(old(state)@.config, sender_chain, instruction@));
    match instruction.operation.expected_sequence() {
        Some(expected_sequence) => {
            let raw = match option_token_transfer_vaa {
                Some(raw) => raw,
                None => {
                    return Err(RelayError::AttestationInvalid);
                },
            };
            let transfer = match &oracle.token_transfer {
                Some(transfer) => transfer,
                None => {
                    return Err(RelayError::AttestationInvalid);
                },
            };
            let asset = match process_token_transfer_message(
                env,
                sender_chain,
                expected_sequence,
                transfer,
            ) {
                Ok(asset) => asset,
                Err(e) => {
                    return Err(e);
                },
            };
            let operation = match incoming_operation(
                &state.config,
                sender_chain,
                &instruction,
                asset,
            ) {
                Ok(operation) => operation,
                Err(e) => {
                    return Err(e);
                },
            };
            response.add_submessage(
                SubMsg {
                    id: TOKEN_TRANSFER_SUBMIT_VAA_MSG_ID,
                    msg: CosmosMsg::Execute {
                        contract_addr: Address::Human(
                            state.config.wormhole_token_bridge_addr.clone(),
                        ),
                        msg: WasmPayload::TokenBridge(
                            WormholeTokenBridgeExecuteMsg::SubmitVaa { data: raw },
                        ),
                        funds: no_coins(),
                    },
                    reply_on: ReplyOn::Error,
                },
            );
            response.add_message(operation);
            assert(response@.messages =~= provision + seq![
                submit_transfer_message(old(state)@.config, raw@),
                plain(operation@),
            ]);
        },
        None => {
            let operation = match direct_operation(&state.config, sender_chain, &instruction) {
                Ok(operation) => operation,
                Err(e) => {
                    return Err(e);
                },
            };
            response.add_message(operation);
            assert(response@.messages =~= provision + seq![plain(operation@)]);
        },
    }
    state.completed_instructions.insert(clone_bytes(&vaa.hash), true);
    state.sequences.insert(
        sequence_key(sender_chain, vaa.sequence),
        SequenceInfo { outgoing_sequence_expected: outgoing, outgoing_sequence: None },
    );
    if outgoing {
        state.outgoing_transfer = Some(
            OutgoingTokenTransferInfo {
                chain_id: sender_chain,
                token_recipient_address: instruction.sender_address,
                token_transfer_sequence: next_sequence,
                instruction_sequence: vaa.sequence,
            },
        );
    }
    Ok(response)
}

/// What the gateway makes of the report on a transfer completion.
pub fn reply(msg: Reply) -> (result: Result<Response, RelayError>)
    ensures
        match result {
            Ok(response) => reply_spec(msg.id, msg.result.failure()) == Ok::<
                ResponseView,
                RelayError,
            >(response@),
            Err(e) => reply_spec(msg.id, msg.result.failure()) == Err::<ResponseView, RelayError>(
                e,
            ),
        },
{
    if msg.id != TOKEN_TRANSFER_SUBMIT_VAA_MSG_ID {
        return Err(RelayError::Validation);
    }
    match msg.result {
        ReplyResult::Failed { reason } => {
            let benign = String::from_str(
                "Generic error: VaaAlreadyExecuted: execute wasm contract failed",
            );
            if reason == benign {
                Ok(Response::new())
            } else {
                Err(RelayError::Upstream { reason })
            }
        },
        ReplyResult::Done { .. } => Err(RelayError::Validation),
    }
}

/// Relays a sum to the user whose instruction is pending. Router only.
pub fn send_asset(
    state: &mut Gateway,
    info: &MessageInfo,
    asset: Asset,
    next_sequence: Result<u64, String>,
) -> (result: Result<Response, RelayError>)
    ensures
        match result {
            Ok(response) => old(state)@.send_asset(info.sender@, asset@, next_sequence) == Ok::<
                (GatewayView, ResponseView),
                RelayError,
            >((final(state)@, response@)),
            Err(e) => old(state)@.send_asset(info.sender@, asset@, next_sequence) == Err::<
                (GatewayView, ResponseView),
                RelayError,
            >(e) && final(state)@ == old(state)@,
        },
{
    if info.sender != state.config.cross_anchor_core_addr {
        return Err(RelayError::Unauthorized);
    }
    let pending = match &state.outgoing_transfer {
        Some(pending) => pending,
        None => {
            return Err(RelayError::NotFound);
        },
    };
    let mut response = Response::new();
    let sent: Asset = if asset.is_native_token() {
        let coin = match asset.deduct_tax() {
            Ok(coin) => coin,
            Err(e) => {
                return Err(e);
            },
        };
        let sent = Asset { info: asset.info, amount: coin.amount, tax_levies: coin.tax_levies };
        response.add_message(
            CosmosMsg::Execute {
                contract_addr: Address::Human(state.config.wormhole_token_bridge_addr.clone()),
                msg: WasmPayload::TokenBridge(WormholeTokenBridgeExecuteMsg::DepositTokens {  }),
                funds: one_coin(coin),
            },
        );
        sent
    } else {
        let token = match &asset.info {
            AssetInfo::Token { contract_addr } => contract_addr.clone(),
            AssetInfo::NativeToken { .. } => {
                return Err(RelayError::Validation);
            },
        };
        response.add_message(
            CosmosMsg::Execute {
                contract_addr: token,
                msg: WasmPayload::Cw20(
                    Cw20ExecuteMsg::IncreaseAllowance {
                        spender: state.config.wormhole_token_bridge_addr.clone(),
                        amount: asset.amount,
                    },
                ),
                funds: no_coins(),
            },
        );
        asset
    };
    let ghost funded = response@.messages;
    assert(funded =~= seq![plain(funding(old(state)@.config, asset@)->Ok_0.0)]);
    let registration_key = chain_key(pending.chain_id);
    let recipient = match state.chain_registrations.get(registration_key.as_slice()) {
        Some(address) => clone_bytes(address),
        None => {
            return Err(RelayError::NotFound);
        },
    };
    let outgoing_sequence = match next_sequence {
        Ok(sequence) => sequence,
        Err(reason) => {
            return Err(RelayError::Upstream { reason });
        },
    };
    let record_key = sequence_key(pending.chain_id, pending.instruction_sequence);
    response.add_message(
        CosmosMsg::Execute {
            contract_addr: Address::Human(state.config.wormhole_token_bridge_addr.clone()),
            msg: WasmPayload::TokenBridge(
                WormholeTokenBridgeExecuteMsg::InitiateTransfer {
                    asset: sent,
                    recipient_chain: pending.chain_id,
                    recipient,
                    fee: 0,
                    nonce: TOKEN_TRANSFER_NONCE,
                },
            ),
            funds: no_coins(),
        },
    );
    response.add_message(
        CosmosMsg::Execute {
            contract_addr: Address::Human(state.config.wormhole_core_bridge_addr.clone()),
            msg: WasmPayload::CoreBridge(
                WormholeCoreBridgeExecuteMsg::PostMessage {
                    message: pending.serialize(),
                    nonce: TOKEN_TRANSFER_INFO_NONCE,
                },
            ),
            funds: no_coins(),
        },
    );
    assert(response@.messages =~= old(state)@.send_asset(
        info.sender@,
        asset@,
        next_sequence,
    )->Ok_0.1.messages);
    state.sequences.insert(
        record_key,
        SequenceInfo { outgoing_sequence_expected: true, outgoing_sequence: Some(outgoing_sequence) },
    );
    state.outgoing_transfer = None;
    Ok(response)
}

/// Moves the gateway to new code: nothing is to be done.
pub fn migrate(msg: MigrateMsg) -> (response: Response)
    ensures
        response@ == ResponseView::empty(),
{
    Response::new()
}

} // verus!
