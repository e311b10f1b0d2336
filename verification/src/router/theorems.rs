//! What holds of the router, whatever its state and whatever it is handed.

use crate::asset::CoinView;
use crate::error::RelayError;
use crate::message::ResponseView;
use crate::proxy;
use crate::router::model::{forwarded_asset_spec, instantiate_proxy_message, with_bridges};
use crate::router::msg::ExecuteMsgView;
use crate::router::state::{lemma_proxy_key_injective, spec_proxy_key, RouterView};
use crate::store::written_back;
use vstd::prelude::*;

verus! {

/// Every call needs its role: the owner alone changes the configuration and
/// names gateways; a trusted gateway alone asks for operations in a user's
/// name, and tokens are taken from a trusted gateway alone; the router alone
/// starts the second phase of forwarding. To ask that a user be given a
/// proxy is an operation in the user's name like the others.
pub proof fn lemma_calls_need_their_role(
    state: RouterView,
    contract_address: Seq<char>,
    sender: Seq<char>,
    funds: Seq<CoinView>,
    msg: ExecuteMsgView,
    balance: Result<u128, String>,
)
    ensures
        ({
            let result = state.execute(contract_address, sender, funds, msg, balance);
            let refused = result == Err::<(RouterView, ResponseView), RelayError>(
                RelayError::Unauthorized,
            );
            match msg {
                ExecuteMsgView::AddBridges { .. } | ExecuteMsgView::UpdateConfig { .. } => sender
                    != state.config.owner ==> refused,
                ExecuteMsgView::Receive { sender: token_sender, .. } => !state.whitelisted(
                    token_sender,
                ) ==> refused,
                ExecuteMsgView::ForwardDifferenceAndInitiateBridgeTransfer { .. } => sender
                    != contract_address ==> refused,
                _ => !state.whitelisted(sender) ==> refused,
            }
        }),
{
}

/// Provisioning is idempotent: for a user who has a proxy, the request of a
/// trusted gateway succeeds, changes nothing and asks for no creation.
pub proof fn lemma_provisioning_is_idempotent(
    state: RouterView,
    contract_address: Seq<char>,
    sender: Seq<char>,
    chain_id: u16,
    address: Seq<u8>,
)
    requires
        state.whitelisted(sender),
        state.provisioned(chain_id, address),
    ensures
        state.initialize_address_proxy(contract_address, sender, chain_id, address) == Ok::<
            (RouterView, ResponseView),
            RelayError,
        >((state, ResponseView::empty())),
{
}

/// Provisioning is for trusted gateways: the request of anyone else is
/// refused, whether the user has a proxy or not, and asks for no creation.
pub proof fn lemma_provisioning_is_for_gateways_only(
    state: RouterView,
    contract_address: Seq<char>,
    sender: Seq<char>,
    chain_id: u16,
    address: Seq<u8>,
)
    requires
        !state.whitelisted(sender),
    ensures
        state.initialize_address_proxy(contract_address, sender, chain_id, address) == Err::<
            (RouterView, ResponseView),
            RelayError,
        >(RelayError::Unauthorized),
{
}

/// From request to proxy: once the chain has reported the proxy that a
/// trusted gateway asked for, the user has that proxy, and every further
/// request of the gateway for the user is a success without effect.
pub proof fn lemma_provisioned_after_report(
    state: RouterView,
    contract_address: Seq<char>,
    sender: Seq<char>,
    chain_id: u16,
    address: Seq<u8>,
    proxy: Seq<char>,
)
    requires
        state.whitelisted(sender),
        !state.provisioned(chain_id, address),
    ensures
        ({
            let requested = state.initialize_address_proxy(
                contract_address,
                sender,
                chain_id,
                address,
            );
            let reported = requested->Ok_0.0.register_proxy(Some(proxy));
            &&& requested is Ok
            &&& requested->Ok_0.1.messages == seq![
                instantiate_proxy_message(state.config, contract_address, chain_id, address),
            ]
            &&& reported is Ok
            &&& reported->Ok_0.0.provisioned(chain_id, address)
            &&& reported->Ok_0.0.proxy_of(chain_id, address) == proxy
            &&& reported->Ok_0.0.initialize_address_proxy(
                contract_address,
                sender,
                chain_id,
                address,
            ) == Ok::<(RouterView, ResponseView), RelayError>(
                (reported->Ok_0.0, ResponseView::empty()),
            )
        }),
{
}

/// Recording a proxy for one user leaves the proxies of all other users as
/// they were.
pub proof fn lemma_report_touches_one_user(
    state: RouterView,
    proxy: Seq<char>,
    chain_id: u16,
    address: Seq<u8>,
)
    requires
        state.register_proxy(Some(proxy)) is Ok,
        chain_id != state.current_address_proxy->Some_0.chain_id || address
            != state.current_address_proxy->Some_0.address,
    ensures
        ({
            let after = state.register_proxy(Some(proxy))->Ok_0.0;
            &&& after.provisioned(chain_id, address) == state.provisioned(chain_id, address)
            &&& after.proxy_of(chain_id, address) == state.proxy_of(chain_id, address)
        }),
{
    let user = state.current_address_proxy->Some_0;
    if spec_proxy_key(chain_id, address) == spec_proxy_key(user.chain_id, user.address) {
        lemma_proxy_key_injective(chain_id, address, user.chain_id, user.address);
    }
}

/// A call for which no asset is forwarded does not read the balance that it
/// is handed.
pub proof fn lemma_balance_unread_without_forwarded_asset(
    state: RouterView,
    contract_address: Seq<char>,
    sender: Seq<char>,
    funds: Seq<CoinView>,
    msg: ExecuteMsgView,
    balance: Result<u128, String>,
    other_balance: Result<u128, String>,
)
    requires
        forwarded_asset_spec(state.config, msg) is None,
    ensures
        state.execute(contract_address, sender, funds, msg, balance) == state.execute(
            contract_address,
            sender,
            funds,
            msg,
            other_balance,
        ),
{
}

proof fn lemma_with_bridges_over_a_part(
    full: Map<Seq<u8>, bool>,
    part: Map<Seq<u8>, bool>,
    added: Seq<Seq<char>>,
)
    requires
        part.submap_of(full),
    ensures
        with_bridges(part, added).submap_of(with_bridges(full, added)),
        part.dom().subset_of(with_bridges(part, added).dom()),
        with_bridges(full, added) =~= written_back(full, part, with_bridges(part, added)),
    decreases added.len(),
{
    if added.len() > 0 {
        lemma_with_bridges_over_a_part(full, part, added.drop_last());
    }
}

/// A call can be run on a part of the state: where the part holds every
/// record that the call reads, the call is rejected on the part exactly when
/// it is rejected on the whole, and for the same reason; and where it
/// succeeds, it hands back the same messages, and the whole state after the
/// call is the whole state before it with the records that the part held
/// replaced by those that the part holds after the call.
pub proof fn lemma_a_part_suffices(
    full: RouterView,
    part: RouterView,
    contract_address: Seq<char>,
    sender: Seq<char>,
    funds: Seq<CoinView>,
    msg: ExecuteMsgView,
    balance: Result<u128, String>,
)
    requires
        part.part_of(full),
        part.holds_what_is_read(full, sender, msg),
    ensures
        match (
            full.execute(contract_address, sender, funds, msg, balance),
            part.execute(contract_address, sender, funds, msg, balance),
        ) {
            (Ok((full_after, response)), Ok((part_after, part_response))) => {
                &&& response == part_response
                &&& full_after == full.overwritten_with(part, part_after)
                &&& part_after.part_of(full_after)
            },
            (Err(e), Err(part_e)) => e == part_e,
            _ => false,
        },
{
    let whole = full.execute(contract_address, sender, funds, msg, balance);
    let piece = part.execute(contract_address, sender, funds, msg, balance);
    if let ExecuteMsgView::AddBridges { bridges } = msg {
        lemma_with_bridges_over_a_part(full.whitelisted_bridges, part.whitelisted_bridges, bridges);
    }
    if whole is Ok {
        assert(piece is Ok);
        let full_after = whole->Ok_0.0;
        let part_after = piece->Ok_0.0;
        let merged = full.overwritten_with(part, part_after);
        assert(full_after.whitelisted_bridges =~= merged.whitelisted_bridges);
        assert(full_after.address_proxies =~= merged.address_proxies);
        assert(full_after.forward_balances =~= merged.forward_balances);
    }
}

/// The chain's report on a creation can be taken on a part of the state, whatever
/// the part holds of the tables.
pub proof fn lemma_a_part_suffices_for_a_report(
    full: RouterView,
    part: RouterView,
    failure: Option<String>,
    data: Option<Seq<u8>>,
)
    requires
        part.part_of(full),
    ensures
        match (full.reply(failure, data), part.reply(failure, data)) {
            (Ok((full_after, response)), Ok((part_after, part_response))) => {
                &&& response == part_response
                &&& full_after == full.overwritten_with(part, part_after)
                &&& part_after.part_of(full_after)
            },
            (Err(e), Err(part_e)) => e == part_e,
            _ => false,
        },
{
    let whole = full.reply(failure, data);
    let piece = part.reply(failure, data);
    if whole is Ok {
        let full_after = whole->Ok_0.0;
        let merged = full.overwritten_with(part, piece->Ok_0.0);
        assert(full_after.whitelisted_bridges =~= merged.whitelisted_bridges);
        assert(full_after.address_proxies =~= merged.address_proxies);
        assert(full_after.forward_balances =~= merged.forward_balances);
    }
}

} // verus!
