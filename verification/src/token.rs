//! Assets that a pair holds: a CW20 token contract or a native bank denomination.

use vstd::prelude::*;

verus! {

/// The abstract identity of an asset.
pub enum AssetId {
    Cw20(Seq<char>),
    Native(Seq<char>),
}

/// An asset of a pair: the address of a CW20 token contract, or a native denomination.
#[derive(Debug, Clone)]
pub enum TokenInfo {
    CW20Token { contract_addr: String },
    NativeToken { denom: String },
}

impl View for TokenInfo {
    type V = AssetId;

    open spec fn view(&self) -> AssetId {
        match self {
            TokenInfo::CW20Token { contract_addr } => AssetId::Cw20(contract_addr@),
            TokenInfo::NativeToken { denom } => AssetId::Native(denom@),
        }
    }
}

/// The characters that identify an asset: the contract address or the denomination.
pub open spec fn asset_chars(t: AssetId) -> Seq<char> {
    match t {
        AssetId::Cw20(s) => s,
        AssetId::Native(s) => s,
    }
}

/// The UTF-8 bytes of the characters that identify an asset.
pub open spec fn asset_bytes(t: AssetId) -> Seq<u8> {
    vstd::utf8::encode_utf8(asset_chars(t))
}

impl TokenInfo {
    /// The bytes of the contract address or of the denomination.
    pub fn get_as_bytes(&self) -> (b: &[u8])
        ensures
            b@ == asset_bytes(self@),
    {
        match self {
            TokenInfo::CW20Token { contract_addr } => contract_addr.as_str().as_bytes(),
            TokenInfo::NativeToken { denom } => denom.as_str().as_bytes(),
        }
    }

    /// A copy of this asset.
    pub fn copied(&self) -> (r: TokenInfo)
        ensures
            r == *self,
    {
        match self {
            TokenInfo::CW20Token { contract_addr } => TokenInfo::CW20Token {
                contract_addr: contract_addr.clone(),
            },
            TokenInfo::NativeToken { denom } => TokenInfo::NativeToken { denom: denom.clone() },
        }
    }

    /// Whether this is a native denomination.
    pub fn is_native(&self) -> (b: bool)
        ensures
            b <==> self@ is Native,
    {
        match self {
            TokenInfo::CW20Token { .. } => false,
            TokenInfo::NativeToken { .. } => true,
        }
    }
}

impl PartialEq for TokenInfo {
    fn eq(&self, other: &Self) -> (r: bool) {
        match (self, other) {
            (TokenInfo::CW20Token { contract_addr: a }, TokenInfo::CW20Token { contract_addr: b }) => *a == *b,
            (TokenInfo::NativeToken { denom: a }, TokenInfo::NativeToken { denom: b }) => *a == *b,
            _ => false,
        }
    }
}

impl vstd::std_specs::cmp::PartialEqSpecImpl for TokenInfo {
    open spec fn obeys_eq_spec() -> bool {
        true
    }

    open spec fn eq_spec(&self, other: &TokenInfo) -> bool {
        self@ == other@
    }
}

/// An amount of an asset.
#[derive(Debug, Clone)]
pub struct Token {
    pub info: TokenInfo,
    pub amount: u128,
}

/// An asset's identity keeps its kind and its string, and its bytes are the
/// UTF-8 encoding of the contract address or of the denomination.
pub proof fn law_asset_identity(t: TokenInfo)
    ensures
        match t {
            TokenInfo::CW20Token { contract_addr } => {
                &&& t@ == AssetId::Cw20(contract_addr@)
                &&& asset_bytes(t@) == vstd::utf8::encode_utf8(contract_addr@)
            },
            TokenInfo::NativeToken { denom } => {
                &&& t@ == AssetId::Native(denom@)
                &&& asset_bytes(t@) == vstd::utf8::encode_utf8(denom@)
            },
        },
{
}

} // verus!
