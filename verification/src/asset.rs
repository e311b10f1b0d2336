//! Assets, sums of money and the addresses that name them.
//!
//! The chain levies a tax on every transfer of a native denomination, at a
//! rate that only the chain knows. A sum that still has to pass through such
//! transfers is therefore written as the sum before tax together with the
//! number of times the tax will be taken: `tax_levies`. A sum that has arrived
//! has `tax_levies == 0`.

use crate::error::RelayError;
use vstd::prelude::*;
use vstd::slice::slice_to_vec;
use vstd::utf8::encode_utf8;

verus! {

/// An unsigned 256-bit number, as its high and low 128 bits.
#[derive(Clone, Copy, Debug, PartialEq, Eq, Structural)]
pub struct Uint256 {
    pub high: u128,
    pub low: u128,
}

/// The address of a contract: in the chain's textual form, or in the 20-byte
/// form in which attestations carry it.
#[derive(Debug, PartialEq, Eq)]
pub enum Address {
    Human(String),
    Canonical(Vec<u8>),
}

/// What an [`Address`] holds, as mathematical values.
pub enum AddressView {
    Human(Seq<char>),
    Canonical(Seq<u8>),
}

impl View for Address {
    type V = AddressView;

    open spec fn view(&self) -> AddressView {
        match self {
            Address::Human(text) => AddressView::Human(text@),
            Address::Canonical(bytes) => AddressView::Canonical(bytes@),
        }
    }
}

impl Clone for Address {
    fn clone(&self) -> (copy: Self)
        ensures
            copy@ == self@,
    {
        match self {
            Address::Human(text) => Address::Human(text.clone()),
            Address::Canonical(bytes) => Address::Canonical(slice_to_vec(bytes.as_slice())),
        }
    }
}

/// What kind of asset a sum is in: a token contract, or a native denomination.
#[derive(Debug, PartialEq, Eq)]
pub enum AssetInfo {
    Token { contract_addr: Address },
    NativeToken { denom: String },
}

/// What an [`AssetInfo`] holds, as mathematical values.
pub enum AssetInfoView {
    Token { contract_addr: AddressView },
    NativeToken { denom: Seq<char> },
}

impl View for AssetInfo {
    type V = AssetInfoView;

    open spec fn view(&self) -> AssetInfoView {
        match self {
            AssetInfo::Token { contract_addr } => AssetInfoView::Token {
                contract_addr: contract_addr@,
            },
            AssetInfo::NativeToken { denom } => AssetInfoView::NativeToken { denom: denom@ },
        }
    }
}

impl Clone for AssetInfo {
    fn clone(&self) -> (copy: Self)
        ensures
            copy@ == self@,
    {
        match self {
            AssetInfo::Token { contract_addr } => AssetInfo::Token {
                contract_addr: contract_addr.clone(),
            },
            AssetInfo::NativeToken { denom } => AssetInfo::NativeToken { denom: denom.clone() },
        }
    }
}

impl AssetInfoView {
    /// Whether the asset is a native denomination.
    pub open spec fn is_native_token(self) -> bool {
        self is NativeToken
    }

    /// The key under which a balance of this asset is recorded: the bytes of
    /// the denomination or of the contract address.
    pub open spec fn key(self) -> Seq<u8> {
        match self {
            AssetInfoView::NativeToken { denom } => encode_utf8(denom),
            AssetInfoView::Token { contract_addr: AddressView::Human(text) } => encode_utf8(text),
            AssetInfoView::Token { contract_addr: AddressView::Canonical(bytes) } => bytes,
        }
    }
}

impl AssetInfo {
    /// Whether the asset is a native denomination.
    pub fn is_native_token(&self) -> (native: bool)
        ensures
            native == self@.is_native_token(),
    {
        match self {
            AssetInfo::NativeToken { .. } => true,
            AssetInfo::Token { .. } => false,
        }
    }

    /// The key under which a balance of this asset is recorded.
    pub fn key(&self) -> (key: Vec<u8>)
        ensures
            key@ == self@.key(),
    {
        match self {
            AssetInfo::NativeToken { denom } => slice_to_vec(denom.as_str().as_bytes()),
            AssetInfo::Token { contract_addr: Address::Human(text) } => slice_to_vec(
                text.as_str().as_bytes(),
            ),
            AssetInfo::Token { contract_addr: Address::Canonical(bytes) } => slice_to_vec(
                bytes.as_slice(),
            ),
        }
    }
}

/// A sum of an asset.
#[derive(Debug, PartialEq, Eq)]
pub struct Asset {
    pub info: AssetInfo,
    /// The sum before the tax that is still to be taken.
    pub amount: u128,
    /// How many times the transfer tax is still to be taken from `amount`.
    pub tax_levies: u8,
}

/// What an [`Asset`] holds, as mathematical values.
pub struct AssetView {
    pub info: AssetInfoView,
    pub amount: u128,
    pub tax_levies: u8,
}

impl View for Asset {
    type V = AssetView;

    open spec fn view(&self) -> AssetView {
        AssetView { info: self.info@, amount: self.amount, tax_levies: self.tax_levies }
    }
}

impl Clone for Asset {
    fn clone(&self) -> (copy: Self)
        ensures
            copy@ == self@,
    {
        Asset { info: self.info.clone(), amount: self.amount, tax_levies: self.tax_levies }
    }
}

/// A sum of a native denomination.
#[derive(Clone, Debug, PartialEq, Eq)]
pub struct Coin {
    pub denom: String,
    /// The sum before the tax that is still to be taken.
    pub amount: u128,
    /// How many times the transfer tax is still to be taken from `amount`.
    pub tax_levies: u8,
}

/// What a [`Coin`] holds, as mathematical values.
pub struct CoinView {
    pub denom: Seq<char>,
    pub amount: u128,
    pub tax_levies: u8,
}

impl View for Coin {
    type V = CoinView;

    open spec fn view(&self) -> CoinView {
        CoinView { denom: self.denom@, amount: self.amount, tax_levies: self.tax_levies }
    }
}

/// The view of a text that may be absent.
pub open spec fn text_option_view(text: Option<String>) -> Option<Seq<char>> {
    match text {
        Some(t) => Some(t@),
        None => None,
    }
}

/// The views of a list of texts, in order.
pub open spec fn texts_view(texts: Seq<String>) -> Seq<Seq<char>> {
    Seq::new(texts.len(), |i: int| texts[i]@)
}

/// The view of a byte string that may be absent.
pub open spec fn bytes_option_view(bytes: Option<Vec<u8>>) -> Option<Seq<u8>> {
    match bytes {
        Some(b) => Some(b@),
        None => None,
    }
}

/// The views of a list of coins, in order.
pub open spec fn coins_view(coins: Seq<Coin>) -> Seq<CoinView> {
    Seq::new(coins.len(), |i: int| coins[i]@)
}

impl AssetView {
    /// Whether the asset is a native denomination.
    pub open spec fn is_native_token(self) -> bool {
        self.info.is_native_token()
    }

    /// The coin that is left of a native sum after one more levy of the
    /// transfer tax. A token sum bears no tax and cannot be turned into a
    /// coin; the levies of one sum cannot be counted past 255.
    pub open spec fn deduct_tax(self) -> Result<CoinView, RelayError> {
        match self.info {
            AssetInfoView::NativeToken { denom } => if self.tax_levies < u8::MAX {
                Ok(
                    CoinView {
                        denom,
                        amount: self.amount,
                        tax_levies: (self.tax_levies + 1) as u8,
                    },
                )
            } else {
                Err(RelayError::Validation)
            },
            AssetInfoView::Token { .. } => Err(RelayError::Validation),
        }
    }
}

impl Asset {
    /// Whether the asset is a native denomination.
    pub fn is_native_token(&self) -> (native: bool)
        ensures
            native == self@.is_native_token(),
    {
        self.info.is_native_token()
    }

    /// The coin that is left of this sum after one more levy of the transfer tax.
    pub fn deduct_tax(&self) -> (coin: Result<Coin, RelayError>)
        ensures
            match coin {
                Ok(c) => self@.deduct_tax() == Ok::<CoinView, RelayError>(c@),
                Err(e) => self@.deduct_tax() == Err::<CoinView, RelayError>(e),
            },
    {
        match &self.info {
            AssetInfo::NativeToken { denom } => {
                if self.tax_levies < u8::MAX {
                    Ok(
                        Coin {
                            denom: denom.clone(),
                            amount: self.amount,
                            tax_levies: self.tax_levies + 1,
                        },
                    )
                } else {
                    Err(RelayError::Validation)
                }
            },
            AssetInfo::Token { .. } => Err(RelayError::Validation),
        }
    }
}

/// No coins.
pub(crate) fn no_coins() -> (coins: Vec<Coin>)
    ensures
        coins_view(coins@) == Seq::<CoinView>::empty(),
{
    let coins: Vec<Coin> = Vec::new();
    assert(coins_view(coins@) =~= Seq::<CoinView>::empty());
    coins
}

/// One coin.
pub(crate) fn one_coin(coin: Coin) -> (coins: Vec<Coin>)
    ensures
        coins_view(coins@) == seq![coin@],
{
    let mut coins: Vec<Coin> = Vec::new();
    coins.push(coin);
    assert(coins_view(coins@) =~= seq![coin@]);
    coins
}

} // verus!
