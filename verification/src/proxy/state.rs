//! What a proxy keeps between calls.

use crate::store::Store;
use vstd::prelude::*;

verus! {

/// The contracts that a proxy works with, and the remote user whose position it holds.
#[derive(Clone, Debug, PartialEq, Eq)]
pub struct Config {
    pub core_address: String,
    pub market_address: String,
    pub overseer_address: String,
    pub aterra_address: String,
    pub anc_token: String,
    pub anc_gov_address: String,
    pub chain_id: u16,
    pub address: Vec<u8>,
}

/// What a [`Config`] holds, as mathematical values.
pub struct ConfigView {
    pub core_address: Seq<char>,
    pub market_address: Seq<char>,
    pub overseer_address: Seq<char>,
    pub aterra_address: Seq<char>,
    pub anc_token: Seq<char>,
    pub anc_gov_address: Seq<char>,
    pub chain_id: u16,
    pub address: Seq<u8>,
}

impl View for Config {
    type V = ConfigView;

    open spec fn view(&self) -> ConfigView {
        ConfigView {
            core_address: self.core_address@,
            market_address: self.market_address@,
            overseer_address: self.overseer_address@,
            aterra_address: self.aterra_address@,
            anc_token: self.anc_token@,
            anc_gov_address: self.anc_gov_address@,
            chain_id: self.chain_id,
            address: self.address@,
        }
    }
}

/// A proxy's state.
#[derive(Debug)]
pub struct Proxy {
    pub config: Config,
    /// The balances recorded for forwarding, by the asset's key.
    pub forward_balances: Store<u128>,
}

/// What a [`Proxy`] holds, as mathematical values.
pub struct ProxyView {
    pub config: ConfigView,
    pub forward_balances: Map<Seq<u8>, u128>,
}

impl View for Proxy {
    type V = ProxyView;

    open spec fn view(&self) -> ProxyView {
        ProxyView { config: self.config@, forward_balances: self.forward_balances@ }
    }
}

} // verus!
