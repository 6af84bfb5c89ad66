//! The registry's persisted state: a singleton configuration slot and an
//! append-only, insertion-ordered log of pair records, together with the
//! reverse-order scan the creation protocol and the queries rely on and
//! the uniqueness invariant the protocol maintains over the log.

use vstd::prelude::*;

use crate::common::api::AddressApi;
use crate::common::bytes::{bytes_eq, concat_bytes};
use crate::common::error::ContractError;
use crate::common::pair::{
    id_matches, id_matches_bytes, id_of, lemma_id_matches_is_unordered_eq, Pair, PairView,
};

verus! {

/// The registry's one-time configuration: the code template used to
/// instantiate a new pair record contract.
#[derive(Debug, Clone, Copy, PartialEq, Eq, Structural)]
pub struct State {
    pub pair_code_id: u64,
}

/// A token descriptor as the registry's state module records it; the
/// single current kind is a token contract address.
#[derive(Debug, Clone, PartialEq)]
pub struct Token {
    pub contract_addr: String,
}

impl Token {
    /// Resolves the token's address to canonical form through the host's
    /// address service.
    pub fn to_raw(&self, api: &AddressApi) -> (r: Result<TokenRaw, ContractError>)
        ensures
            match r {
                Ok(raw) => api.canon_of(self.contract_addr@) == Some(raw.contract_addr@),
                Err(e) => api.canon_of(self.contract_addr@) is None && e
                    == ContractError::Resolution,
            },
    {
        match api.canonical_address(&self.contract_addr) {
            Ok(canon) => Ok(TokenRaw { contract_addr: canon }),
            Err(e) => Err(e),
        }
    }
}

/// A token descriptor in canonical form.
#[derive(Debug, Clone, PartialEq, Eq)]
pub struct TokenRaw {
    pub contract_addr: Vec<u8>,
}

impl TokenRaw {
    /// The canonical bytes of the token, the material of identity
    /// derivation.
    pub fn as_bytes(&self) -> (r: &[u8])
        ensures
            r@ == self.contract_addr@,
    {
        self.contract_addr.as_slice()
    }
}

/// The two descriptors of a pair, in caller-supplied order.
pub type Assets = [Token; 2];

/// The two descriptors of a pair in canonical form, in the same order.
pub type AssetsRaw = [TokenRaw; 2];

/// A pair entity as the registry's state module records it.
#[derive(Debug, Clone, PartialEq)]
pub struct PairInfo {
    pub id: Vec<u8>,
    pub assets: Assets,
}

impl PairInfo {
    /// Derives a pair's identity: the canonical bytes of the two assets,
    /// concatenated in the order supplied. Deliberately not normalized;
    /// order-insensitivity is the duplicate check's concern.
    pub fn create_id(assets: &AssetsRaw) -> (r: Vec<u8>)
        ensures
            r@ == id_of(assets@[0].contract_addr@, assets@[1].contract_addr@),
    {
        concat_bytes(assets[0].as_bytes(), assets[1].as_bytes())
    }
}

/// The mathematical content of the registry's storage.
pub struct FactoryStorageView {
    pub state: Option<State>,
    pub pairs: Seq<PairView>,
}

/// The registry's storage: the configuration singleton and the pair log.
///
/// The log is append-only: records are added at the end, never mutated
/// or removed. A store that has never been written to holds `None` and
/// an empty log, which is a valid state distinct from a storage fault.
#[derive(Debug)]
pub struct FactoryStorage {
    pub state: Option<State>,
    pub pairs: Vec<Pair>,
}

impl View for FactoryStorage {
    type V = FactoryStorageView;

    open spec fn view(&self) -> FactoryStorageView {
        FactoryStorageView {
            state: self.state,
            pairs: Seq::new(self.pairs@.len(), |i: int| self.pairs@[i]@),
        }
    }
}

/// The first record of `pairs`, scanned from the most recently appended
/// to the oldest, whose identity belongs to the unordered pair `{a, b}`.
pub open spec fn find_match(pairs: Seq<PairView>, a: Seq<u8>, b: Seq<u8>) -> Option<PairView>
    decreases pairs.len(),
{
    if pairs.len() == 0 {
        None
    } else if id_matches(pairs.last().id, a, b) {
        Some(pairs.last())
    } else {
        find_match(pairs.drop_last(), a, b)
    }
}

/// The first record of `pairs`, in the same reverse scan order, whose
/// identity is exactly `id`.
pub open spec fn find_by_id(pairs: Seq<PairView>, id: Seq<u8>) -> Option<PairView>
    decreases pairs.len(),
{
    if pairs.len() == 0 {
        None
    } else if pairs.last().id == id {
        Some(pairs.last())
    } else {
        find_by_id(pairs.drop_last(), id)
    }
}

/// A failed scan means no record in the log matches.
pub proof fn lemma_find_match_none(pairs: Seq<PairView>, a: Seq<u8>, b: Seq<u8>)
    requires
        find_match(pairs, a, b) is None,
    ensures
        forall|i: int| 0 <= i < pairs.len() ==> !id_matches((#[trigger] pairs[i]).id, a, b),
    decreases pairs.len(),
{
    if pairs.len() > 0 {
        lemma_find_match_none(pairs.drop_last(), a, b);
        assert forall|i: int| 0 <= i < pairs.len() implies !id_matches(
            (#[trigger] pairs[i]).id,
            a,
            b,
        ) by {
            if i < pairs.len() - 1 {
                assert(pairs.drop_last()[i] == pairs[i]);
            }
        }
    }
}

/// The reverse scan is order-independent in the two resolved assets.
pub proof fn lemma_find_match_symmetric(pairs: Seq<PairView>, a: Seq<u8>, b: Seq<u8>)
    ensures
        find_match(pairs, a, b) == find_match(pairs, b, a),
    decreases pairs.len(),
{
    if pairs.len() > 0 {
        lemma_find_match_symmetric(pairs.drop_last(), a, b);
    }
}

/// A record whose identity matches `{a, b}` is found by the scan as soon
/// as it is appended: the scan starts from the newest record.
pub proof fn lemma_find_match_push(pairs: Seq<PairView>, p: PairView, a: Seq<u8>, b: Seq<u8>)
    requires
        id_matches(p.id, a, b),
    ensures
        find_match(pairs.push(p), a, b) == Some(p),
{
    assert(pairs.push(p).last() == p);
}

/// Reverse-scan precedence: the scan returns the most recently appended
/// matching record — the record at the highest matching position.
pub proof fn lemma_find_match_latest(pairs: Seq<PairView>, a: Seq<u8>, b: Seq<u8>, i: int)
    requires
        0 <= i < pairs.len(),
        id_matches(pairs[i].id, a, b),
        forall|j: int| i < j < pairs.len() ==> !id_matches((#[trigger] pairs[j]).id, a, b),
    ensures
        find_match(pairs, a, b) == Some(pairs[i]),
    decreases pairs.len(),
{
    if i == pairs.len() - 1 {
        assert(pairs.last() == pairs[i]);
    } else {
        assert(!id_matches(pairs.last().id, a, b));
        assert(forall|j: int|
            i < j < pairs.drop_last().len() ==> !id_matches(
                (#[trigger] pairs.drop_last()[j]).id,
                a,
                b,
            ));
        assert(pairs.drop_last()[i] == pairs[i]);
        lemma_find_match_latest(pairs.drop_last(), a, b, i);
    }
}

/// Whether a stored record is resolvable by `api` and carries the
/// identity derived from its own assets' canonical forms, in order.
pub open spec fn record_resolved(api: AddressApi, p: PairView) -> bool {
    &&& api.canon_of(p.assets.0) is Some
    &&& api.canon_of(p.assets.1) is Some
    &&& p.id == id_of(record_canon0(api, p), record_canon1(api, p))
}

/// The canonical form of a stored record's first asset.
pub open spec fn record_canon0(api: AddressApi, p: PairView) -> Seq<u8> {
    api.canon_of(p.assets.0)->0
}

/// The canonical form of a stored record's second asset.
pub open spec fn record_canon1(api: AddressApi, p: PairView) -> Seq<u8> {
    api.canon_of(p.assets.1)->0
}

/// The registry's central invariant: every stored record is resolved and
/// carries its derived identity, and no two records describe the same
/// unordered pair of canonical assets.
pub open spec fn registry_wf(api: AddressApi, pairs: Seq<PairView>) -> bool {
    &&& forall|i: int| 0 <= i < pairs.len() ==> record_resolved(api, #[trigger] pairs[i])
    &&& forall|i: int, j: int|
        0 <= i < pairs.len() && 0 <= j < pairs.len() && i != j ==> !id_matches(
            (#[trigger] pairs[i]).id,
            record_canon0(api, #[trigger] pairs[j]),
            record_canon1(api, pairs[j]),
        )
}

/// A registry that has never been written to satisfies the invariant;
/// together with [`lemma_registry_wf_push`] and the creation protocol's
/// contract, every registry grown only through `create_pair` keeps it.
pub proof fn lemma_registry_wf_empty(api: AddressApi)
    ensures
        registry_wf(api, Seq::<PairView>::empty()),
{
}

/// Appending a record that resolves to a pair not yet in the log
/// preserves the registry invariant.
pub proof fn lemma_registry_wf_push(api: AddressApi, pairs: Seq<PairView>, p: PairView)
    requires
        api.wf(),
        registry_wf(api, pairs),
        record_resolved(api, p),
        find_match(pairs, record_canon0(api, p), record_canon1(api, p)) is None,
    ensures
        registry_wf(api, pairs.push(p)),
{
    let ca = record_canon0(api, p);
    let cb = record_canon1(api, p);
    lemma_find_match_none(pairs, ca, cb);
    api.lemma_canon_len(p.assets.0);
    api.lemma_canon_len(p.assets.1);
    let new_pairs = pairs.push(p);
    assert forall|i: int|
        0 <= i < new_pairs.len() implies record_resolved(api, #[trigger] new_pairs[i]) by {
        if i < pairs.len() {
            assert(new_pairs[i] == pairs[i]);
        } else {
            assert(new_pairs[i] == p);
        }
    }
    assert forall|i: int, j: int|
        0 <= i < new_pairs.len() && 0 <= j < new_pairs.len() && i != j implies !id_matches(
        (#[trigger] new_pairs[i]).id,
        record_canon0(api, #[trigger] new_pairs[j]),
        record_canon1(api, new_pairs[j]),
    ) by {
        if i < pairs.len() && j < pairs.len() {
            assert(new_pairs[i] == pairs[i]);
            assert(new_pairs[j] == pairs[j]);
        } else if j == pairs.len() {
            // The old record `pairs[i]` against the new record `p`.
            assert(new_pairs[i] == pairs[i]);
            assert(new_pairs[j] == p);
            let c0 = record_canon0(api, pairs[i]);
            let c1 = record_canon1(api, pairs[i]);
            api.lemma_canon_len(pairs[i].assets.0);
            api.lemma_canon_len(pairs[i].assets.1);
            lemma_id_matches_is_unordered_eq(c0, c1, ca, cb);
            assert(!id_matches(pairs[i].id, ca, cb));
        } else {
            // The new record `p` against an old record `pairs[j]`.
            assert(new_pairs[i] == p);
            assert(new_pairs[j] == pairs[j]);
            let c0 = record_canon0(api, pairs[j]);
            let c1 = record_canon1(api, pairs[j]);
            api.lemma_canon_len(pairs[j].assets.0);
            api.lemma_canon_len(pairs[j].assets.1);
            lemma_id_matches_is_unordered_eq(ca, cb, c0, c1);
            lemma_id_matches_is_unordered_eq(c0, c1, ca, cb);
            assert(!id_matches(pairs[j].id, ca, cb));
        }
    }
}

/// Under the registry invariant, at most one record matches any given
/// unordered pair of fixed-width canonical assets: the positions of any
/// two matching records coincide.
pub proof fn lemma_registry_at_most_one(
    api: AddressApi,
    pairs: Seq<PairView>,
    a: Seq<u8>,
    b: Seq<u8>,
    i: int,
    j: int,
)
    requires
        api.wf(),
        registry_wf(api, pairs),
        a.len() == api.canon_len,
        b.len() == api.canon_len,
        0 <= i < pairs.len(),
        0 <= j < pairs.len(),
        id_matches(pairs[i].id, a, b),
        id_matches(pairs[j].id, a, b),
    ensures
        i == j,
{
    if i != j {
        let c0i = record_canon0(api, pairs[i]);
        let c1i = record_canon1(api, pairs[i]);
        let c0j = record_canon0(api, pairs[j]);
        let c1j = record_canon1(api, pairs[j]);
        api.lemma_canon_len(pairs[i].assets.0);
        api.lemma_canon_len(pairs[i].assets.1);
        api.lemma_canon_len(pairs[j].assets.0);
        api.lemma_canon_len(pairs[j].assets.1);
        lemma_id_matches_is_unordered_eq(c0i, c1i, a, b);
        lemma_id_matches_is_unordered_eq(c0j, c1j, a, b);
        lemma_id_matches_is_unordered_eq(c0i, c1i, c0j, c1j);
        assert(id_matches(pairs[i].id, c0j, c1j));
        assert(false);
    }
}

impl FactoryStorage {
    /// A store that has never been written to.
    pub fn new() -> (s: Self)
        ensures
            s@.state is None,
            s@.pairs.len() == 0,
    {
        FactoryStorage { state: None, pairs: Vec::new() }
    }

    /// Appends one record at the end of the log. Append is the only way
    /// the log grows, and nothing ever removes or rewrites a record.
    pub fn append(&mut self, record: Pair)
        ensures
            final(self)@.state == old(self)@.state,
            final(self)@.pairs == old(self)@.pairs.push(record@),
    {
        self.pairs.push(record);
        proof {
            assert(self@.pairs =~= old(self)@.pairs.push(record@));
        }
    }

    /// Scans the log in reverse insertion order for the first record
    /// whose identity belongs to the unordered pair `{a, b}`.
    pub fn find_pair(&self, a: &[u8], b: &[u8]) -> (r: Option<Pair>)
        ensures
            match r {
                Some(p) => find_match(self@.pairs, a@, b@) == Some(p@),
                None => find_match(self@.pairs, a@, b@) is None,
            },
    {
        let mut idx = self.pairs.len();
        proof {
            assert(self@.pairs.take(idx as int) =~= self@.pairs);
        }
        while idx > 0
            invariant
                idx <= self.pairs@.len(),
                self@.pairs.len() == self.pairs@.len(),
                find_match(self@.pairs, a@, b@) == find_match(
                    self@.pairs.take(idx as int),
                    a@,
                    b@,
                ),
            decreases idx,
        {
            idx = idx - 1;
            let record = &self.pairs[idx];
            proof {
                assert(self@.pairs.take(idx + 1 as int).last() == self@.pairs[idx as int]);
                assert(self@.pairs.take(idx + 1 as int).drop_last() =~= self@.pairs.take(
                    idx as int,
                ));
            }
            if id_matches_bytes(&record.id, a, b) {
                return Some(record.clone());
            }
        }
        proof {
            assert(self@.pairs.take(0) =~= Seq::<PairView>::empty());
        }
        None
    }

    /// Scans the log in reverse insertion order for the first record with
    /// exactly the given identity.
    pub fn find_by_identity(&self, identity: &[u8]) -> (r: Option<Pair>)
        ensures
            match r {
                Some(p) => find_by_id(self@.pairs, identity@) == Some(p@),
                None => find_by_id(self@.pairs, identity@) is None,
            },
    {
        let mut idx = self.pairs.len();
        proof {
            assert(self@.pairs.take(idx as int) =~= self@.pairs);
        }
        while idx > 0
            invariant
                idx <= self.pairs@.len(),
                self@.pairs.len() == self.pairs@.len(),
                find_by_id(self@.pairs, identity@) == find_by_id(
                    self@.pairs.take(idx as int),
                    identity@,
                ),
            decreases idx,
        {
            idx = idx - 1;
            let record = &self.pairs[idx];
            proof {
                assert(self@.pairs.take(idx + 1 as int).last() == self@.pairs[idx as int]);
                assert(self@.pairs.take(idx + 1 as int).drop_last() =~= self@.pairs.take(
                    idx as int,
                ));
            }
            if bytes_eq(record.id.as_slice(), identity) {
                return Some(record.clone());
            }
        }
        proof {
            assert(self@.pairs.take(0) =~= Seq::<PairView>::empty());
        }
        None
    }
}

/// Saves the registry's configuration singleton.
pub fn config(storage: &mut FactoryStorage, state: State)
    ensures
        final(storage)@.state == Some(state),
        final(storage)@.pairs == old(storage)@.pairs,
{
    storage.state = Some(state);
    proof {
        assert(storage@.pairs =~= old(storage)@.pairs);
    }
}

/// Loads the registry's configuration singleton; fails if the registry
/// was never initialized.
pub fn config_read(storage: &FactoryStorage) -> (r: Result<State, ContractError>)
    ensures
        match r {
            Ok(s) => storage@.state == Some(s),
            Err(e) => storage@.state is None && e == ContractError::Uninitialized,
        },
{
    match storage.state {
        Some(s) => Ok(s),
        None => Err(ContractError::Uninitialized),
    }
}

} // verus!
