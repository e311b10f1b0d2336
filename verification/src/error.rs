//! The reasons for which a call is rejected.

use vstd::prelude::*;

verus! {

/// Why a top-level call was rejected. A rejected call changes no state and
/// emits no message.
#[derive(Clone, Debug, PartialEq, Eq)]
pub enum RelayError {
    /// The caller does not hold the role that the entry point asks for.
    Unauthorized,
    /// A message is truncated, oversized, or names something undefined.
    Validation,
    /// The attestation oracle did not vouch for an attestation that the call needs.
    AttestationInvalid,
    /// The instruction comes from a chain without a registered gateway, or
    /// from another emitter than the registered one.
    UnknownEmitter,
    /// The instruction has been processed before.
    Replay,
    /// The companion transfer does not match what the instruction declares.
    Correlation,
    /// A proxy, a pending transfer or another record that the call needs is absent.
    NotFound,
    /// A collaborator failed, for the reason that it gave: the reason is
    /// handed on as it came.
    Upstream { reason: String },
}

} // verus!
