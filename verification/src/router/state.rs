//! What the router keeps between calls.

use crate::byte_utils::{
    be_bytes, lemma_be_bytes_injective, lemma_be_bytes_len, pow256, put_bytes, put_u16,
};
use crate::store::Store;
use vstd::prelude::*;
use vstd::slice::slice_to_vec;
use vstd::utf8::encode_utf8;

verus! {

/// The contracts that the router works with, its owner, and the code that it
/// makes proxies from.
#[derive(Debug, PartialEq, Eq)]
pub struct Config {
    pub owner: String,
    pub address_proxy_code_id: u64,
    pub market_address: String,
    pub overseer_address: String,
    pub aterra_address: String,
    pub anc_token: String,
    pub anc_gov_address: String,
}

/// What a [`Config`] holds, as mathematical values.
pub struct ConfigView {
    pub owner: Seq<char>,
    pub address_proxy_code_id: u64,
    pub market_address: Seq<char>,
    pub overseer_address: Seq<char>,
    pub aterra_address: Seq<char>,
    pub anc_token: Seq<char>,
    pub anc_gov_address: Seq<char>,
}

impl View for Config {
    type V = ConfigView;

    open spec fn view(&self) -> ConfigView {
        ConfigView {
            owner: self.owner@,
            address_proxy_code_id: self.address_proxy_code_id,
            market_address: self.market_address@,
            overseer_address: self.overseer_address@,
            aterra_address: self.aterra_address@,
            anc_token: self.anc_token@,
            anc_gov_address: self.anc_gov_address@,
        }
    }
}

impl Clone for Config {
    fn clone(&self) -> (copy: Self)
        ensures
            copy@ == self@,
    {
        Config {
            owner: self.owner.clone(),
            address_proxy_code_id: self.address_proxy_code_id,
            market_address: self.market_address.clone(),
            overseer_address: self.overseer_address.clone(),
            aterra_address: self.aterra_address.clone(),
            anc_token: self.anc_token.clone(),
            anc_gov_address: self.anc_gov_address.clone(),
        }
    }
}

/// A remote user: a chain and an address on it.
#[derive(Clone, Debug, PartialEq, Eq)]
pub struct RemoteUser {
    pub chain_id: u16,
    pub address: Vec<u8>,
}

/// What a [`RemoteUser`] holds, as mathematical values.
pub struct RemoteUserView {
    pub chain_id: u16,
    pub address: Seq<u8>,
}

impl View for RemoteUser {
    type V = RemoteUserView;

    open spec fn view(&self) -> RemoteUserView {
        RemoteUserView { chain_id: self.chain_id, address: self.address@ }
    }
}

/// The view of a remote user that may be absent.
pub open spec fn user_option_view(user: Option<RemoteUser>) -> Option<RemoteUserView> {
    match user {
        Some(u) => Some(u@),
        None => None,
    }
}

/// The key of a user's proxy: the chain's number in two bytes, then the address.
pub open spec fn spec_proxy_key(chain_id: u16, address: Seq<u8>) -> Seq<u8> {
    be_bytes(chain_id as nat, 2) + address
}

/// The key of a trusted gateway: the bytes of its address.
pub open spec fn spec_bridge_key(address: Seq<char>) -> Seq<u8> {
    encode_utf8(address)
}

/// The key of a user's proxy.
pub fn proxy_key(chain_id: u16, address: &[u8]) -> (key: Vec<u8>)
    ensures
        key@ == spec_proxy_key(chain_id, address@),
{
    let mut key: Vec<u8> = Vec::new();
    put_u16(&mut key, chain_id);
    put_bytes(&mut key, address);
    assert(key@ =~= spec_proxy_key(chain_id, address@));
    key
}

/// The key of a trusted gateway.
pub fn bridge_key(address: &str) -> (key: Vec<u8>)
    ensures
        key@ == spec_bridge_key(address@),
{
    slice_to_vec(address.as_bytes())
}

/// Two users have the same key only if they are the same user.
pub proof fn lemma_proxy_key_injective(
    chain_a: u16,
    address_a: Seq<u8>,
    chain_b: u16,
    address_b: Seq<u8>,
)
    requires
        spec_proxy_key(chain_a, address_a) == spec_proxy_key(chain_b, address_b),
    ensures
        chain_a == chain_b,
        address_a == address_b,
{
    let key_a = spec_proxy_key(chain_a, address_a);
    let key_b = spec_proxy_key(chain_b, address_b);
    lemma_be_bytes_len(chain_a as nat, 2);
    lemma_be_bytes_len(chain_b as nat, 2);
    assert(key_a.subrange(0, 2) =~= be_bytes(chain_a as nat, 2));
    assert(key_b.subrange(0, 2) =~= be_bytes(chain_b as nat, 2));
    assert(key_a.subrange(2, key_a.len() as int) =~= address_a);
    assert(key_b.subrange(2, key_b.len() as int) =~= address_b);
    reveal_with_fuel(pow256, 3);
    lemma_be_bytes_injective(chain_a as nat, chain_b as nat, 2);
}

/// The router's state.
#[derive(Debug)]
pub struct Router {
    pub config: Config,
    /// The user whose proxy is being made.
    pub current_address_proxy: Option<RemoteUser>,
    /// The gateways that may ask for operations, by [`spec_bridge_key`].
    pub whitelisted_bridges: Store<bool>,
    /// The address of each user's proxy, by [`spec_proxy_key`].
    pub address_proxies: Store<String>,
    /// The balances recorded for forwarding, by the asset's key.
    pub forward_balances: Store<u128>,
}

/// What a [`Router`] holds, as mathematical values.
pub struct RouterView {
    pub config: ConfigView,
    pub current_address_proxy: Option<RemoteUserView>,
    pub whitelisted_bridges: Map<Seq<u8>, bool>,
    pub address_proxies: Map<Seq<u8>, Seq<char>>,
    pub forward_balances: Map<Seq<u8>, u128>,
}

impl View for Router {
    type V = RouterView;

    open spec fn view(&self) -> RouterView {
        RouterView {
            config: self.config@,
            current_address_proxy: user_option_view(self.current_address_proxy),
            whitelisted_bridges: self.whitelisted_bridges@,
            address_proxies: self.address_proxies@,
            forward_balances: self.forward_balances@,
        }
    }
}

impl RouterView {
    /// Whether `sender` is a trusted gateway.
    pub open spec fn whitelisted(self, sender: Seq<char>) -> bool {
        self.whitelisted_bridges.contains_key(spec_bridge_key(sender))
    }

    /// Whether the user has a proxy.
    pub open spec fn provisioned(self, chain_id: u16, address: Seq<u8>) -> bool {
        self.address_proxies.contains_key(spec_proxy_key(chain_id, address))
    }

    /// The address of the user's proxy.
    pub open spec fn proxy_of(self, chain_id: u16, address: Seq<u8>) -> Seq<char> {
        self.address_proxies[spec_proxy_key(chain_id, address)]
    }
}

} // verus!
