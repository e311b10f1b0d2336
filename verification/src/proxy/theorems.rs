//! What holds of a proxy, whatever its state and whatever it is handed.

use crate::asset::CoinView;
use crate::error::RelayError;
use crate::message::ResponseView;
use crate::proxy::contract::LookupView;
use crate::proxy::model::forwarded_asset_spec;
use crate::proxy::msg::ExecuteMsgView;
use crate::proxy::state::ProxyView;
use crate::store::loaded;
use vstd::prelude::*;

verus! {

/// A proxy is the router's alone: a call from anyone but the router and the
/// proxy itself is refused, and so are tokens that another than the router sent.
pub proof fn lemma_calls_need_their_role(
    state: ProxyView,
    contract_address: Seq<char>,
    sender: Seq<char>,
    funds: Seq<CoinView>,
    msg: ExecuteMsgView,
    lookup: LookupView,
)
    requires
        match msg {
            ExecuteMsgView::Receive { sender: token_sender, .. } => token_sender
                != state.config.core_address,
            _ => sender != state.config.core_address && sender != contract_address,
        },
    ensures
        state.execute(contract_address, sender, funds, msg, lookup) == Err::<
            (ProxyView, ResponseView),
            RelayError,
        >(RelayError::Unauthorized),
{
}

/// A call can be run on a part of the state: where the part holds the
/// balance recorded for the asset that the call forwards, the call is
/// rejected on the part exactly when it is rejected on the whole, and for the
/// same reason; and where it succeeds, it hands back the same messages, and
/// the whole state after the call is the whole state before it with the
/// records that the part held replaced by those that it holds after the call.
pub proof fn lemma_a_part_suffices(
    full: ProxyView,
    part: ProxyView,
    contract_address: Seq<char>,
    sender: Seq<char>,
    funds: Seq<CoinView>,
    msg: ExecuteMsgView,
    lookup: LookupView,
)
    requires
        part.part_of(full),
        forwarded_asset_spec(full.config, msg) is Some ==> loaded(
            part.forward_balances,
            full.forward_balances,
            forwarded_asset_spec(full.config, msg)->Some_0.key(),
        ),
    ensures
        match (
            full.execute(contract_address, sender, funds, msg, lookup),
            part.execute(contract_address, sender, funds, msg, lookup),
        ) {
            (Ok((full_after, response)), Ok((part_after, part_response))) => {
                &&& response == part_response
                &&& full_after == full.overwritten_with(part, part_after)
                &&& part_after.part_of(full_after)
            },
            (Err(e), Err(part_e)) => e == part_e,
            _ => false,
        },
{
    let whole = full.execute(contract_address, sender, funds, msg, lookup);
    let piece = part.execute(contract_address, sender, funds, msg, lookup);
    if whole is Ok {
        assert(piece is Ok);
        let merged = full.overwritten_with(part, piece->Ok_0.0);
        assert(whole->Ok_0.0.forward_balances =~= merged.forward_balances);
    }
}

} // verus!
