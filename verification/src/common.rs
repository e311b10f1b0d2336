//! Forwarding what a call brings in.
//!
//! A contract cannot know what an operation that it triggers will pay it. So
//! it forwards in two phases. Before the operation it records its balance of
//! the asset and sends itself a message that is delivered after the
//! operation. When that message arrives it reads its balance again and pays
//! on the difference: exactly the balance now less the balance recorded,
//! whatever else may have been paid in between. A balance recorded serves
//! one payment.

use crate::asset::{
    coins_view, no_coins, Address, AddressView, Asset, AssetInfo, AssetInfoView, AssetView, Coin,
    CoinView,
};
use crate::error::RelayError;
use crate::gateway;
use crate::message::{
    plain, CosmosMsg, CosmosMsgView, Env, MessageInfo, Response, ResponseView, WasmPayload,
    WasmPayloadView,
};
use crate::proxy;
use crate::router;
use crate::store::Store;
use vstd::prelude::*;

verus! {

/// The coin that is left of `coin` after one more levy of the transfer tax.
pub open spec fn taxed(coin: CoinView) -> CoinView {
    CoinView { denom: coin.denom, amount: coin.amount, tax_levies: (coin.tax_levies + 1) as u8 }
}

/// What is left of each of `coins` after one more levy of the transfer tax.
/// The levies of one coin cannot be counted past 255.
pub open spec fn coins_after_tax_spec(coins: Seq<CoinView>) -> Result<Seq<CoinView>, RelayError> {
    if exists|i: int| 0 <= i < coins.len() && (#[trigger] coins[i]).tax_levies == u8::MAX {
        Err(RelayError::Validation)
    } else {
        Ok(Seq::new(coins.len(), |i: int| taxed(coins[i])))
    }
}

/// What is left of each of `coins` after one more levy of the transfer tax.
pub fn coins_after_tax(coins: &Vec<Coin>) -> (left: Result<Vec<Coin>, RelayError>)
    ensures
        match left {
            Ok(l) => coins_after_tax_spec(coins_view(coins@)) == Ok::<Seq<CoinView>, RelayError>(
                coins_view(l@),
            ),
            Err(e) => coins_after_tax_spec(coins_view(coins@)) == Err::<Seq<CoinView>, RelayError>(
                e,
            ),
        },
{
    let mut left: Vec<Coin> = Vec::new();
    let mut i: usize = 0;
    while i < coins.len()
        invariant
            0 <= i <= coins@.len(),
            left@.len() == i,
            forall|j: int| 0 <= j < i ==> (#[trigger] coins_view(coins@)[j]).tax_levies != u8::MAX,
            forall|j: int| 0 <= j < i ==> (#[trigger] left@[j])@ == taxed(coins@[j]@),
        decreases coins@.len() - i,
    {
        let coin = &coins[i];
        if coin.tax_levies == u8::MAX {
            assert(coins_view(coins@)[i as int].tax_levies == u8::MAX);
            return Err(RelayError::Validation);
        }
        left.push(
            Coin { denom: coin.denom.clone(), amount: coin.amount, tax_levies: coin.tax_levies + 1 },
        );
        i += 1;
    }
    assert(coins_view(left@) =~= Seq::new(
        coins_view(coins@).len(),
        |i: int| taxed(coins_view(coins@)[i]),
    ));
    Ok(left)
}

/// The message that a contract sends itself for the second phase.
pub open spec fn forward_self_message(
    contract_address: Seq<char>,
    asset_info: AssetInfoView,
    to: Seq<char>,
    initiate_bridge_transfer: bool,
) -> CosmosMsgView {
    CosmosMsgView::Execute {
        contract_addr: AddressView::Human(contract_address),
        msg: if initiate_bridge_transfer {
            WasmPayloadView::Router(
                router::msg::ExecuteMsgView::ForwardDifferenceAndInitiateBridgeTransfer {
                    asset_info,
                    to,
                },
            )
        } else {
            WasmPayloadView::Proxy(proxy::msg::ExecuteMsgView::ForwardDifference { asset_info, to })
        },
        funds: Seq::empty(),
    }
}

/// The first phase: the balances with `balance` recorded for the asset, and
/// the message to oneself. Where the balance could not be read, the reason
/// is handed on.
pub open spec fn forward_difference_msg_spec(
    balances: Map<Seq<u8>, u128>,
    contract_address: Seq<char>,
    asset_info: AssetInfoView,
    to: Seq<char>,
    initiate_bridge_transfer: bool,
    balance: Result<u128, String>,
) -> Result<(Map<Seq<u8>, u128>, CosmosMsgView), RelayError> {
    match balance {
        Err(reason) => Err(RelayError::Upstream { reason }),
        Ok(current) => Ok(
            (
                balances.insert(asset_info.key(), current),
                forward_self_message(contract_address, asset_info, to, initiate_bridge_transfer),
            ),
        ),
    }
}

/// The payment of `asset` to `recipient`.
pub open spec fn payment_message(asset: AssetView, recipient: Seq<char>) -> CosmosMsgView {
    CosmosMsgView::Transfer { asset, recipient }
}

/// The request to the gateway `to` to relay `asset`, which has just been paid
/// to it: a native sum has lost the tax on the way.
pub open spec fn relay_message(asset: AssetView, to: Seq<char>) -> CosmosMsgView {
    CosmosMsgView::Execute {
        contract_addr: AddressView::Human(to),
        msg: WasmPayloadView::Gateway(
            gateway::msg::ExecuteMsgView::SendAsset {
                asset: if asset.is_native_token() {
                    AssetView { tax_levies: 1, ..asset }
                } else {
                    asset
                },
            },
        ),
        funds: Seq::empty(),
    }
}

/// The second phase. Only the contract itself may start it. It pays `to` the
/// balance now less the balance recorded, and, where the payment is to be
/// relayed, asks `to` to send it on. The balance recorded is used up by this:
/// after the payment none is recorded for the asset. It fails where no
/// balance was recorded for the asset, where the balance now cannot be read,
/// and where the balance now is below the one recorded.
pub open spec fn forward_difference_spec(
    balances: Map<Seq<u8>, u128>,
    contract_address: Seq<char>,
    sender: Seq<char>,
    asset_info: AssetInfoView,
    to: Seq<char>,
    initiate_bridge_transfer: bool,
    balance: Result<u128, String>,
) -> Result<(Map<Seq<u8>, u128>, ResponseView), RelayError> {
    if sender != contract_address {
        Err(RelayError::Unauthorized)
    } else if !balances.contains_key(asset_info.key()) {
        Err(RelayError::NotFound)
    } else {
        match balance {
            Err(reason) => Err(RelayError::Upstream { reason }),
            Ok(current) => if current < balances[asset_info.key()] {
                Err(RelayError::Validation)
            } else {
                let asset = AssetView {
                    info: asset_info,
                    amount: (current - balances[asset_info.key()]) as u128,
                    tax_levies: 0,
                };
                Ok(
                    (
                        balances.remove(asset_info.key()),
                        ResponseView::of(
                            if initiate_bridge_transfer {
                                seq![
                                    plain(payment_message(asset, to)),
                                    plain(relay_message(asset, to)),
                                ]
                            } else {
                                seq![plain(payment_message(asset, to))]
                            },
                        ),
                    ),
                )
            },
        }
    }
}

/// Forwarding pays exactly the difference: where the first phase recorded
/// the balance `snapshot` and the second phase finds the balance `current`,
/// the second phase pays `current - snapshot` of the asset to the target,
/// and is refused where `current` is below `snapshot`. What else was
/// recorded, and what arrived in between, plays no part. The balance
/// recorded serves once: after the payment a second phase for the asset is
/// refused until a first phase has recorded a balance again.
pub proof fn lemma_forward_pays_difference(
    balances: Map<Seq<u8>, u128>,
    contract_address: Seq<char>,
    asset_info: AssetInfoView,
    to: Seq<char>,
    initiate_bridge_transfer: bool,
    snapshot: u128,
    current: u128,
    again: Result<u128, String>,
)
    ensures
        ({
            let first = forward_difference_msg_spec(
                balances,
                contract_address,
                asset_info,
                to,
                initiate_bridge_transfer,
                Ok(snapshot),
            );
            let second = forward_difference_spec(
                first->Ok_0.0,
                contract_address,
                contract_address,
                asset_info,
                to,
                initiate_bridge_transfer,
                Ok(current),
            );
            &&& first is Ok
            &&& first->Ok_0.0[asset_info.key()] == snapshot
            &&& current < snapshot ==> second == Err::<
                (Map<Seq<u8>, u128>, ResponseView),
                RelayError,
            >(RelayError::Validation)
            &&& current >= snapshot ==> {
                &&& second is Ok
                &&& second->Ok_0.0 == first->Ok_0.0.remove(asset_info.key())
                &&& forward_difference_spec(
                    second->Ok_0.0,
                    contract_address,
                    contract_address,
                    asset_info,
                    to,
                    initiate_bridge_transfer,
                    again,
                ) == Err::<(Map<Seq<u8>, u128>, ResponseView), RelayError>(RelayError::NotFound)
                &&& second->Ok_0.1.messages.len() == if initiate_bridge_transfer {
                    2int
                } else {
                    1int
                }
                &&& second->Ok_0.1.messages[0] == plain(
                    CosmosMsgView::Transfer {
                        asset: AssetView {
                            info: asset_info,
                            amount: (current - snapshot) as u128,
                            tax_levies: 0,
                        },
                        recipient: to,
                    },
                )
            }
        }),
{
}

/// The second phase is for the contract alone: a call from anyone else is refused.
pub proof fn lemma_forward_is_for_self_only(
    balances: Map<Seq<u8>, u128>,
    contract_address: Seq<char>,
    sender: Seq<char>,
    asset_info: AssetInfoView,
    to: Seq<char>,
    initiate_bridge_transfer: bool,
    balance: Result<u128, String>,
)
    requires
        sender != contract_address,
    ensures
        forward_difference_spec(
            balances,
            contract_address,
            sender,
            asset_info,
            to,
            initiate_bridge_transfer,
            balance,
        ) == Err::<(Map<Seq<u8>, u128>, ResponseView), RelayError>(RelayError::Unauthorized),
{
}

/// The first phase of forwarding: records `balance`, the contract's balance
/// of the asset now, and gives the message that starts the second phase.
pub fn forward_difference_msg(
    balances: &mut Store<u128>,
    env: &Env,
    asset_info: AssetInfo,
    to: String,
    initiate_bridge_transfer: bool,
    balance: Result<u128, String>,
) -> (message: Result<CosmosMsg, RelayError>)
    ensures
        match message {
            Ok(m) => forward_difference_msg_spec(
                old(balances)@,
                env.contract_address@,
                asset_info@,
                to@,
                initiate_bridge_transfer,
                balance,
            ) == Ok::<(Map<Seq<u8>, u128>, CosmosMsgView), RelayError>((final(balances)@, m@)),
            Err(e) => forward_difference_msg_spec(
                old(balances)@,
                env.contract_address@,
                asset_info@,
                to@,
                initiate_bridge_transfer,
                balance,
            ) == Err::<(Map<Seq<u8>, u128>, CosmosMsgView), RelayError>(e) && final(balances)@
                == old(balances)@,
        },
{
    let current = match balance {
        Ok(current) => current,
        Err(reason) => {
            return Err(RelayError::Upstream { reason });
        },
    };
    balances.insert(asset_info.key(), current);
    let funds = no_coins();
    Ok(
        CosmosMsg::Execute {
            contract_addr: Address::Human(env.contract_address.clone()),
            msg: if initiate_bridge_transfer {
                WasmPayload::Router(
                    router::msg::ExecuteMsg::ForwardDifferenceAndInitiateBridgeTransfer {
                        asset_info,
                        to,
                    },
                )
            } else {
                WasmPayload::Proxy(proxy::msg::ExecuteMsg::ForwardDifference { asset_info, to })
            },
            funds,
        },
    )
}

/// The second phase of forwarding: pays on what has come in since the first,
/// and forgets the balance that the first recorded. `balance` is the
/// contract's balance of the asset now.
pub fn forward_difference(
    balances: &mut Store<u128>,
    env: &Env,
    info: &MessageInfo,
    asset_info: AssetInfo,
    to: String,
    initiate_bridge_transfer: bool,
    balance: Result<u128, String>,
) -> (result: Result<Response, RelayError>)
    ensures
        match result {
            Ok(response) => forward_difference_spec(
                old(balances)@,
                env.contract_address@,
                info.sender@,
                asset_info@,
                to@,
                initiate_bridge_transfer,
                balance,
            ) == Ok::<(Map<Seq<u8>, u128>, ResponseView), RelayError>(
                (final(balances)@, response@),
            ),
            Err(e) => forward_difference_spec(
                old(balances)@,
                env.contract_address@,
                info.sender@,
                asset_info@,
                to@,
                initiate_bridge_transfer,
                balance,
            ) == Err::<(Map<Seq<u8>, u128>, ResponseView), RelayError>(e) && final(balances)@
                == old(balances)@,
        },
{
    if info.sender != env.contract_address {
        return Err(RelayError::Unauthorized);
    }
    let key = asset_info.key();
    let old_balance: u128 = match balances.get(key.as_slice()) {
        Some(recorded) => *recorded,
        None => {
            return Err(RelayError::NotFound);
        },
    };
    let current = match balance {
        Ok(current) => current,
        Err(reason) => {
            return Err(RelayError::Upstream { reason });
        },
    };
    if current < old_balance {
        return Err(RelayError::Validation);
    }
    let mut asset = Asset { info: asset_info, amount: current - old_balance, tax_levies: 0 };
    let mut response = Response::new();
    response.add_message(CosmosMsg::Transfer { asset: asset.clone(), recipient: to.clone() });
    if initiate_bridge_transfer {
        if asset.is_native_token() {
            asset.tax_levies = 1;
        }
        response.add_message(
            CosmosMsg::Execute {
                contract_addr: Address::Human(to),
                msg: WasmPayload::Gateway(gateway::msg::ExecuteMsg::SendAsset { asset }),
                funds: no_coins(),
            },
        );
    }
    assert(response@.messages =~= forward_difference_spec(
        old(balances)@,
        env.contract_address@,
        info.sender@,
        asset_info@,
        to@,
        initiate_bridge_transfer,
        balance,
    )->Ok_0.1.messages);
    balances.remove(key.as_slice());
    Ok(response)
}

} // verus!
