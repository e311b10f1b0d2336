//! The check that every operation for a remote user starts with.

use crate::error::RelayError;
use crate::router::state::{bridge_key, spec_bridge_key};
use crate::store::Store;
use vstd::prelude::*;

verus! {

/// Passes if `sender` is a trusted gateway.
pub fn check_whitelisted(whitelisted_bridges: &Store<bool>, sender: &str) -> (result: Result<
    (),
    RelayError,
>)
    ensures
        match result {
            Ok(_) => whitelisted_bridges@.contains_key(spec_bridge_key(sender@)),
            Err(e) => !whitelisted_bridges@.contains_key(spec_bridge_key(sender@)) && e
                == RelayError::Unauthorized,
        },
{
    let key = bridge_key(sender);
    if whitelisted_bridges.contains(key.as_slice()) {
        Ok(())
    } else {
        Err(RelayError::Unauthorized)
    }
}

} // verus!
