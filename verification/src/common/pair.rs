//! Asset descriptors and pair records shared by the registry and the pair
//! record contract.
//!
//! An asset is described in human-readable form ([`AssetMeta`]) at the
//! call boundary and in canonical form ([`AssetMetaRaw`]) once resolved
//! through the host's address service. A pair record ([`Pair`]) carries
//! the identity derived from the canonical forms of its two assets,
//! concatenated in the order the caller supplied them; equality of pairs,
//! in contrast, is order-insensitive. The two concerns are deliberately
//! kept separate.

use vstd::prelude::*;

use crate::common::api::AddressApi;
use crate::common::bytes::{bytes_eq, concat_bytes, copy_bytes, lemma_concat_injective};
use crate::common::error::ContractError;

verus! {

/// The identity of a pair whose resolved assets are `a` and `b`, in the
/// order the caller supplied them: the concatenation `a ++ b`.
pub open spec fn id_of(a: Seq<u8>, b: Seq<u8>) -> Seq<u8> {
    a + b
}

/// Whether a stored identity belongs to the unordered pair `{a, b}`:
/// both orders of concatenation are accepted.
pub open spec fn id_matches(id: Seq<u8>, a: Seq<u8>, b: Seq<u8>) -> bool {
    id == id_of(a, b) || id == id_of(b, a)
}

/// For fixed-width resolved assets, matching an identity derived from
/// `{a, b}` against `{c, d}` is exactly unordered equality of the two
/// pairs: identity derivation is order-sensitive, but the identity still
/// determines the unordered pair.
pub proof fn lemma_id_matches_is_unordered_eq(a: Seq<u8>, b: Seq<u8>, c: Seq<u8>, d: Seq<u8>)
    requires
        a.len() == b.len() == c.len() == d.len(),
    ensures
        id_matches(id_of(a, b), c, d) == ((a == c && b == d) || (a == d && b == c)),
{
    if id_of(a, b) == id_of(c, d) {
        lemma_concat_injective(a, b, c, d);
    }
    if id_of(a, b) == id_of(d, c) {
        lemma_concat_injective(a, b, d, c);
    }
}

/// Whether the stored identity `id` belongs to the unordered pair of the
/// resolved assets `a` and `b`, checking both orders of concatenation.
pub fn id_matches_bytes(id: &Vec<u8>, a: &[u8], b: &[u8]) -> (r: bool)
    ensures
        r == id_matches(id@, a@, b@),
{
    let ab = concat_bytes(a, b);
    if bytes_eq(id.as_slice(), ab.as_slice()) {
        return true;
    }
    let ba = concat_bytes(b, a);
    bytes_eq(id.as_slice(), ba.as_slice())
}

/// A tradable asset in human-readable form: a token contract identified
/// by its account address. Modeled as a tagged union so that further
/// asset kinds can be added.
#[derive(Debug)]
pub enum AssetMeta {
    Token { contract_addr: String },
}

impl View for AssetMeta {
    type V = Seq<char>;

    open spec fn view(&self) -> Seq<char> {
        match self {
            AssetMeta::Token { contract_addr } => contract_addr@,
        }
    }
}

impl Clone for AssetMeta {
    /// The clone describes the same asset.
    fn clone(&self) -> (res: Self)
        ensures
            res@ == self@,
    {
        match self {
            AssetMeta::Token { contract_addr } => AssetMeta::Token {
                contract_addr: contract_addr.clone(),
            },
        }
    }
}

impl PartialEq for AssetMeta {
    /// Equality of descriptors is equality of the identifying address.
    fn eq(&self, other: &Self) -> (r: bool) {
        match (self, other) {
            (
                AssetMeta::Token { contract_addr: a },
                AssetMeta::Token { contract_addr: b },
            ) => *a == *b,
        }
    }
}

impl vstd::std_specs::cmp::PartialEqSpecImpl for AssetMeta {
    open spec fn obeys_eq_spec() -> bool {
        true
    }

    open spec fn eq_spec(&self, other: &Self) -> bool {
        self@ == other@
    }
}

impl AssetMeta {
    /// The account address identifying the asset.
    pub fn address(&self) -> (r: &String)
        ensures
            r@ == self@,
    {
        match self {
            AssetMeta::Token { contract_addr } => contract_addr,
        }
    }

    /// Resolves the descriptor to its canonical form through the host's
    /// address service; fails with a resolution error exactly when the
    /// address is not resolvable.
    pub fn to_raw(&self, api: &AddressApi) -> (r: Result<AssetMetaRaw, ContractError>)
        ensures
            match r {
                Ok(raw) => api.canon_of(self@) == Some(raw@) && (api.wf() ==> raw@.len()
                    == api.canon_len),
                Err(e) => api.canon_of(self@) is None && e == ContractError::Resolution,
            },
    {
        match self {
            AssetMeta::Token { contract_addr } => match api.canonical_address(contract_addr) {
                Ok(canon) => Ok(AssetMetaRaw::Token { contract_addr: canon }),
                Err(e) => Err(e),
            },
        }
    }
}

/// A tradable asset in canonical (resolved) form.
#[derive(Debug, PartialEq, Eq)]
pub enum AssetMetaRaw {
    Token { contract_addr: Vec<u8> },
}

impl View for AssetMetaRaw {
    type V = Seq<u8>;

    open spec fn view(&self) -> Seq<u8> {
        match self {
            AssetMetaRaw::Token { contract_addr } => contract_addr@,
        }
    }
}

impl Clone for AssetMetaRaw {
    /// The clone carries the same canonical bytes.
    fn clone(&self) -> (res: Self)
        ensures
            res@ == self@,
    {
        match self {
            AssetMetaRaw::Token { contract_addr } => AssetMetaRaw::Token {
                contract_addr: copy_bytes(contract_addr),
            },
        }
    }
}

impl AssetMetaRaw {
    /// Resolves the canonical form back to a human-readable descriptor;
    /// fails with a resolution error exactly when the canonical form is
    /// not registered with the host's address service.
    pub fn to_human(&self, api: &AddressApi) -> (r: Result<AssetMeta, ContractError>)
        ensures
            match r {
                Ok(meta) => api.human_of(self@) == Some(meta@),
                Err(e) => api.human_of(self@) is None && e == ContractError::Resolution,
            },
    {
        match self {
            AssetMetaRaw::Token { contract_addr } => match api.human_address(contract_addr) {
                Ok(human) => Ok(AssetMeta::Token { contract_addr: human }),
                Err(e) => Err(e),
            },
        }
    }

    /// The canonical bytes of the asset, the material of identity
    /// derivation.
    pub fn as_bytes(&self) -> (r: &[u8])
        ensures
            r@ == self@,
    {
        match self {
            AssetMetaRaw::Token { contract_addr } => contract_addr.as_slice(),
        }
    }
}

/// An asset together with an amount, in human-readable form. The amount
/// plays no part in identity or equality.
#[derive(Debug, Clone)]
pub struct Asset {
    pub meta: AssetMeta,
    pub amount: u128,
}

impl PartialEq for Asset {
    /// Assets compare by their descriptor alone; the amount is ignored.
    fn eq(&self, other: &Self) -> (r: bool) {
        self.meta == other.meta
    }
}

impl vstd::std_specs::cmp::PartialEqSpecImpl for Asset {
    open spec fn obeys_eq_spec() -> bool {
        true
    }

    open spec fn eq_spec(&self, other: &Self) -> bool {
        self.meta@ == other.meta@
    }
}

impl Asset {
    /// Resolves the descriptor, keeping the amount.
    pub fn to_raw(&self, api: &AddressApi) -> (r: Result<AssetRaw, ContractError>)
        ensures
            match r {
                Ok(raw) => api.canon_of(self.meta@) == Some(raw.meta@) && raw.amount
                    == self.amount,
                Err(e) => api.canon_of(self.meta@) is None && e == ContractError::Resolution,
            },
    {
        match self.meta.to_raw(api) {
            Ok(meta) => Ok(AssetRaw { meta, amount: self.amount }),
            Err(e) => Err(e),
        }
    }
}

/// An asset together with an amount, in canonical form.
#[derive(Debug, Clone, PartialEq, Eq)]
pub struct AssetRaw {
    pub meta: AssetMetaRaw,
    pub amount: u128,
}

impl AssetRaw {
    /// Resolves the descriptor back to human-readable form, keeping the
    /// amount.
    pub fn to_human(&self, api: &AddressApi) -> (r: Result<Asset, ContractError>)
        ensures
            match r {
                Ok(asset) => api.human_of(self.meta@) == Some(asset.meta@) && asset.amount
                    == self.amount,
                Err(e) => api.human_of(self.meta@) is None && e == ContractError::Resolution,
            },
    {
        match self.meta.to_human(api) {
            Ok(meta) => Ok(Asset { meta, amount: self.amount }),
            Err(e) => Err(e),
        }
    }
}

/// The mathematical content of a pair record: its derived identity, the
/// two asset descriptors as supplied, and the address of the registry
/// that owns the record.
pub struct PairView {
    pub id: Seq<u8>,
    pub assets: (Seq<char>, Seq<char>),
    pub contract_addr: Seq<char>,
}

/// A pair record: the registry's persisted entity for one trading pair.
///
/// `id` is derived from the canonical forms of the two assets in the
/// order supplied at creation; `assets` keeps the human-readable
/// descriptors in that same order; `contract_addr` is the address of the
/// registry that created the record.
#[derive(Debug)]
pub struct Pair {
    pub id: Vec<u8>,
    pub assets: [AssetMeta; 2],
    pub contract_addr: String,
}

impl View for Pair {
    type V = PairView;

    open spec fn view(&self) -> PairView {
        PairView {
            id: self.id@,
            assets: (self.assets@[0]@, self.assets@[1]@),
            contract_addr: self.contract_addr@,
        }
    }
}

impl Clone for Pair {
    /// The clone describes the same record.
    fn clone(&self) -> (res: Self)
        ensures
            res@ == self@,
    {
        let res = Pair {
            id: copy_bytes(&self.id),
            assets: [self.assets[0].clone(), self.assets[1].clone()],
            contract_addr: self.contract_addr.clone(),
        };
        res
    }
}

impl PartialEq for Pair {
    /// Pairs are equal when they hold the same two assets, in either
    /// order.
    fn eq(&self, other: &Self) -> (r: bool) {
        (self.assets[0] == other.assets[0] && self.assets[1] == other.assets[1]) || (self.assets[0]
            == other.assets[1] && self.assets[1] == other.assets[0])
    }
}

impl vstd::std_specs::cmp::PartialEqSpecImpl for Pair {
    open spec fn obeys_eq_spec() -> bool {
        true
    }

    open spec fn eq_spec(&self, other: &Self) -> bool {
        (self@.assets.0 == other@.assets.0 && self@.assets.1 == other@.assets.1) || (self@.assets.0
            == other@.assets.1 && self@.assets.1 == other@.assets.0)
    }
}

impl Pair {
    /// Builds the record for `assets` owned by the registry at
    /// `contract_addr`: resolves both descriptors and derives the
    /// identity from the canonical forms in the supplied order. Fails
    /// with a resolution error, and builds nothing, exactly when either
    /// descriptor is not resolvable.
    pub fn new(assets: &[AssetMeta; 2], contract_addr: String, api: &AddressApi) -> (r: Result<
        Pair,
        ContractError,
    >)
        ensures
            match r {
                Ok(p) => {
                    &&& api.canon_of(assets@[0]@) is Some
                    &&& api.canon_of(assets@[1]@) is Some
                    &&& p@.id == id_of(api.canon_of(assets@[0]@)->0, api.canon_of(assets@[1]@)->0)
                    &&& p@.assets.0 == assets@[0]@
                    &&& p@.assets.1 == assets@[1]@
                    &&& p@.contract_addr == contract_addr@
                },
                Err(e) => (api.canon_of(assets@[0]@) is None || api.canon_of(assets@[1]@) is None)
                    && e == ContractError::Resolution,
            },
    {
        let raw0 = match assets[0].to_raw(api) {
            Ok(raw) => raw,
            Err(e) => {
                return Err(e);
            },
        };
        let raw1 = match assets[1].to_raw(api) {
            Ok(raw) => raw,
            Err(e) => {
                return Err(e);
            },
        };
        let id = concat_bytes(raw0.as_bytes(), raw1.as_bytes());
        Ok(Pair { id, assets: [assets[0].clone(), assets[1].clone()], contract_addr })
    }

    /// Resolves the whole record to canonical form: both assets and the
    /// owning registry's address. The identity is carried over unchanged.
    pub fn to_raw(&self, api: &AddressApi) -> (r: Result<PairRaw, ContractError>)
        ensures
            match r {
                Ok(raw) => {
                    &&& raw@.id == self@.id
                    &&& api.canon_of(self@.assets.0) == Some(raw@.assets.0)
                    &&& api.canon_of(self@.assets.1) == Some(raw@.assets.1)
                    &&& api.canon_of(self@.contract_addr) == Some(raw@.contract_addr)
                },
                Err(e) => (api.canon_of(self@.assets.0) is None || api.canon_of(self@.assets.1)
                    is None || api.canon_of(self@.contract_addr) is None) && e
                    == ContractError::Resolution,
            },
    {
        let raw0 = match self.assets[0].to_raw(api) {
            Ok(raw) => raw,
            Err(e) => {
                return Err(e);
            },
        };
        let raw1 = match self.assets[1].to_raw(api) {
            Ok(raw) => raw,
            Err(e) => {
                return Err(e);
            },
        };
        let contract_addr = match api.canonical_address(&self.contract_addr) {
            Ok(canon) => canon,
            Err(e) => {
                return Err(e);
            },
        };
        Ok(PairRaw { id: copy_bytes(&self.id), assets: [raw0, raw1], contract_addr })
    }
}

/// The mathematical content of a fully canonical pair record.
pub struct PairRawView {
    pub id: Seq<u8>,
    pub assets: (Seq<u8>, Seq<u8>),
    pub contract_addr: Seq<u8>,
}

/// A pair record in fully canonical form: what the pair record contract
/// persists.
#[derive(Debug, PartialEq, Eq)]
pub struct PairRaw {
    pub id: Vec<u8>,
    pub assets: [AssetMetaRaw; 2],
    pub contract_addr: Vec<u8>,
}

impl Clone for PairRaw {
    /// The clone describes the same canonical record.
    fn clone(&self) -> (res: Self)
        ensures
            res@ == self@,
    {
        let res = PairRaw {
            id: copy_bytes(&self.id),
            assets: [self.assets[0].clone(), self.assets[1].clone()],
            contract_addr: copy_bytes(&self.contract_addr),
        };
        res
    }
}

impl View for PairRaw {
    type V = PairRawView;

    open spec fn view(&self) -> PairRawView {
        PairRawView {
            id: self.id@,
            assets: (self.assets@[0]@, self.assets@[1]@),
            contract_addr: self.contract_addr@,
        }
    }
}

impl PairRaw {
    /// Resolves the whole record back to human-readable form. The
    /// identity is carried over unchanged.
    pub fn to_human(&self, api: &AddressApi) -> (r: Result<Pair, ContractError>)
        ensures
            match r {
                Ok(pair) => {
                    &&& pair@.id == self@.id
                    &&& api.human_of(self@.assets.0) == Some(pair@.assets.0)
                    &&& api.human_of(self@.assets.1) == Some(pair@.assets.1)
                    &&& api.human_of(self@.contract_addr) == Some(pair@.contract_addr)
                },
                Err(e) => (api.human_of(self@.assets.0) is None || api.human_of(self@.assets.1)
                    is None || api.human_of(self@.contract_addr) is None) && e
                    == ContractError::Resolution,
            },
    {
        let meta0 = match self.assets[0].to_human(api) {
            Ok(meta) => meta,
            Err(e) => {
                return Err(e);
            },
        };
        let meta1 = match self.assets[1].to_human(api) {
            Ok(meta) => meta,
            Err(e) => {
                return Err(e);
            },
        };
        let contract_addr = match api.human_address(&self.contract_addr) {
            Ok(human) => human,
            Err(e) => {
                return Err(e);
            },
        };
        Ok(Pair { id: copy_bytes(&self.id), assets: [meta0, meta1], contract_addr })
    }
}

/// The initialization payload handed to a freshly instantiated pair
/// record contract: the two asset descriptors, in creation order.
#[derive(Debug, Clone)]
pub struct PairInitMsg {
    pub assets_meta: [AssetMeta; 2],
}

} // verus!
