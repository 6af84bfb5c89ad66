//! A model of the host's address-canonicalization service.
//!
//! The host maps human-readable account identifiers to fixed-width
//! canonical byte strings and back; both directions are fallible. The
//! service is modeled as a finite table of registered addresses, so that
//! both conversions are deterministic, partial, and inverse to each other,
//! which is all the contracts rely on.

use vstd::prelude::*;

use crate::common::bytes::{bytes_eq, copy_bytes};
use crate::common::error::ContractError;

verus! {

/// The canonicalization table: each entry pairs a human-readable address
/// with its canonical form. `canon_len` is the fixed width of every
/// canonical address the service hands out.
pub struct AddressApi {
    pub entries: Vec<(String, Vec<u8>)>,
    pub canon_len: usize,
}

/// The canonical form registered for `human`, scanning entries in order.
pub open spec fn lookup_canon(entries: Seq<(String, Vec<u8>)>, human: Seq<char>) -> Option<
    Seq<u8>,
>
    decreases entries.len(),
{
    if entries.len() == 0 {
        None
    } else if entries[0].0@ == human {
        Some(entries[0].1@)
    } else {
        lookup_canon(entries.drop_first(), human)
    }
}

/// The human-readable form registered for `canon`, scanning entries in order.
pub open spec fn lookup_human(entries: Seq<(String, Vec<u8>)>, canon: Seq<u8>) -> Option<
    Seq<char>,
>
    decreases entries.len(),
{
    if entries.len() == 0 {
        None
    } else if entries[0].1@ == canon {
        Some(entries[0].0@)
    } else {
        lookup_human(entries.drop_first(), canon)
    }
}

/// A successful canonical lookup names some entry of the table.
pub proof fn lemma_lookup_canon_some(entries: Seq<(String, Vec<u8>)>, human: Seq<char>)
    requires
        lookup_canon(entries, human) is Some,
    ensures
        exists|i: int|
            0 <= i < entries.len() && entries[i].0@ == human && lookup_canon(entries, human)
                == Some(entries[i].1@),
    decreases entries.len(),
{
    if entries.len() > 0 && entries[0].0@ != human {
        lemma_lookup_canon_some(entries.drop_first(), human);
        let i = choose|i: int|
            0 <= i < entries.drop_first().len() && entries.drop_first()[i].0@ == human
                && lookup_canon(entries.drop_first(), human) == Some(entries.drop_first()[i].1@);
        assert(entries[i + 1].0@ == human);
        assert(lookup_canon(entries, human) == Some(entries[i + 1].1@));
    }
}

/// A failed canonical lookup means no entry carries that human form.
pub proof fn lemma_lookup_canon_none(entries: Seq<(String, Vec<u8>)>, human: Seq<char>)
    requires
        lookup_canon(entries, human) is None,
    ensures
        forall|i: int| 0 <= i < entries.len() ==> (#[trigger] entries[i]).0@ != human,
    decreases entries.len(),
{
    if entries.len() > 0 {
        lemma_lookup_canon_none(entries.drop_first(), human);
        assert forall|i: int| 0 <= i < entries.len() implies (#[trigger] entries[i]).0@
            != human by {
            if i > 0 {
                assert(entries.drop_first()[i - 1] == entries[i]);
            }
        }
    }
}

/// A failed human lookup means no entry carries that canonical form.
pub proof fn lemma_lookup_human_none(entries: Seq<(String, Vec<u8>)>, canon: Seq<u8>)
    requires
        lookup_human(entries, canon) is None,
    ensures
        forall|i: int| 0 <= i < entries.len() ==> (#[trigger] entries[i]).1@ != canon,
    decreases entries.len(),
{
    if entries.len() > 0 {
        lemma_lookup_human_none(entries.drop_first(), canon);
        assert forall|i: int| 0 <= i < entries.len() implies (#[trigger] entries[i]).1@
            != canon by {
            if i > 0 {
                assert(entries.drop_first()[i - 1] == entries[i]);
            }
        }
    }
}

/// Appending an entry leaves every lookup that already succeeded unchanged,
/// and resolves the new entry's human form if it was absent before.
pub proof fn lemma_lookup_canon_push(
    entries: Seq<(String, Vec<u8>)>,
    entry: (String, Vec<u8>),
    human: Seq<char>,
)
    ensures
        lookup_canon(entries.push(entry), human) == (if lookup_canon(entries, human) is Some {
            lookup_canon(entries, human)
        } else if entry.0@ == human {
            Some(entry.1@)
        } else {
            None
        }),
    decreases entries.len(),
{
    if entries.len() == 0 {
        assert(entries.push(entry)[0] == entry);
        assert(entries.push(entry).drop_first() =~= Seq::<(String, Vec<u8>)>::empty());
        if entry.0@ == human {
            assert(lookup_canon(entries.push(entry), human) == Some(entry.1@));
        } else {
            assert(lookup_canon(Seq::<(String, Vec<u8>)>::empty(), human) is None);
            assert(lookup_canon(entries.push(entry), human) is None);
        }
    } else {
        assert(entries.push(entry)[0] == entries[0]);
        let rest = entries.drop_first();
        assert(entries.push(entry).drop_first() =~= rest.push(entry));
        lemma_lookup_canon_push(rest, entry, human);
        if entries[0].0@ == human {
            assert(lookup_canon(entries, human) == Some(entries[0].1@));
            assert(lookup_canon(entries.push(entry), human) == Some(entries[0].1@));
        } else {
            assert(lookup_canon(entries, human) == lookup_canon(rest, human));
            assert(lookup_canon(entries.push(entry), human) == lookup_canon(
                rest.push(entry),
                human,
            ));
        }
    }
}

/// The same, for the canonical-to-human direction.
pub proof fn lemma_lookup_human_push(
    entries: Seq<(String, Vec<u8>)>,
    entry: (String, Vec<u8>),
    canon: Seq<u8>,
)
    ensures
        lookup_human(entries.push(entry), canon) == (if lookup_human(entries, canon) is Some {
            lookup_human(entries, canon)
        } else if entry.1@ == canon {
            Some(entry.0@)
        } else {
            None
        }),
    decreases entries.len(),
{
    if entries.len() == 0 {
        assert(entries.push(entry)[0] == entry);
        assert(entries.push(entry).drop_first() =~= Seq::<(String, Vec<u8>)>::empty());
        if entry.1@ == canon {
            assert(lookup_human(entries.push(entry), canon) == Some(entry.0@));
        } else {
            assert(lookup_human(Seq::<(String, Vec<u8>)>::empty(), canon) is None);
            assert(lookup_human(entries.push(entry), canon) is None);
        }
    } else {
        assert(entries.push(entry)[0] == entries[0]);
        let rest = entries.drop_first();
        assert(entries.push(entry).drop_first() =~= rest.push(entry));
        lemma_lookup_human_push(rest, entry, canon);
        if entries[0].1@ == canon {
            assert(lookup_human(entries, canon) == Some(entries[0].0@));
            assert(lookup_human(entries.push(entry), canon) == Some(entries[0].0@));
        } else {
            assert(lookup_human(entries, canon) == lookup_human(rest, canon));
            assert(lookup_human(entries.push(entry), canon) == lookup_human(
                rest.push(entry),
                canon,
            ));
        }
    }
}

impl AddressApi {
    /// The canonical form this service resolves `human` to, if any.
    pub open spec fn canon_of(&self, human: Seq<char>) -> Option<Seq<u8>> {
        lookup_canon(self.entries@, human)
    }

    /// The human-readable form this service resolves `canon` to, if any.
    pub open spec fn human_of(&self, canon: Seq<u8>) -> Option<Seq<char>> {
        lookup_human(self.entries@, canon)
    }

    /// Well-formedness of the table: canonical forms all have the fixed
    /// width, and the table is a bijection between the registered human
    /// and canonical forms.
    pub open spec fn wf(&self) -> bool {
        &&& 0 < self.canon_len
        &&& forall|i: int|
            0 <= i < self.entries@.len() ==> (#[trigger] self.entries@[i]).1@.len()
                == self.canon_len
        &&& forall|i: int, j: int|
            0 <= i < j < self.entries@.len() ==> #[trigger] self.entries@[i].0@
                != #[trigger] self.entries@[j].0@
        &&& forall|i: int, j: int|
            0 <= i < j < self.entries@.len() ==> #[trigger] self.entries@[i].1@
                != #[trigger] self.entries@[j].1@
    }

    /// Under well-formedness, every canonical form the service hands out
    /// has the fixed width.
    pub proof fn lemma_canon_len(&self, human: Seq<char>)
        requires
            self.wf(),
            self.canon_of(human) is Some,
        ensures
            self.canon_of(human)->0.len() == self.canon_len,
    {
        lemma_lookup_canon_some(self.entries@, human);
    }

    /// An empty service that resolves nothing.
    pub fn new(canon_len: usize) -> (api: AddressApi)
        ensures
            api.entries@ =~= Seq::<(String, Vec<u8>)>::empty(),
            api.canon_len == canon_len,
            0 < canon_len ==> api.wf(),
    {
        AddressApi { entries: Vec::new(), canon_len }
    }

    /// Registers one address. The entry is accepted exactly when the
    /// canonical form has the fixed width and neither side of the entry is
    /// registered yet; a rejected entry leaves the table unchanged.
    pub fn register(&mut self, human: String, canon: Vec<u8>) -> (ok: bool)
        ensures
            final(self).canon_len == old(self).canon_len,
            ok == (0 < old(self).canon_len && canon@.len() == old(self).canon_len && old(
                self,
            ).canon_of(human@) is None && old(self).human_of(canon@) is None),
            !ok ==> final(self).entries@ == old(self).entries@,
            ok ==> final(self).entries@ == old(self).entries@.push((human, canon)),
            ok ==> final(self).canon_of(human@) == Some(canon@),
            ok ==> final(self).human_of(canon@) == Some(human@),
            ok && old(self).wf() ==> final(self).wf(),
            forall|h: Seq<char>|
                old(self).canon_of(h) is Some ==> final(self).canon_of(h) == old(self).canon_of(
                    h,
                ),
            forall|c: Seq<u8>|
                old(self).human_of(c) is Some ==> final(self).human_of(c) == old(self).human_of(
                    c,
                ),
    {
        if self.canon_len == 0 || canon.len() != self.canon_len {
            return false;
        }
        let human_taken = match self.canonical_address(&human) {
            Ok(_) => true,
            Err(_) => false,
        };
        if human_taken {
            return false;
        }
        let canon_taken = match self.human_address(&canon) {
            Ok(_) => true,
            Err(_) => false,
        };
        if canon_taken {
            return false;
        }
        proof {
            let entries = self.entries@;
            let entry = (human, canon);
            lemma_lookup_canon_none(entries, human@);
            lemma_lookup_human_none(entries, canon@);
            lemma_lookup_canon_push(entries, entry, human@);
            lemma_lookup_human_push(entries, entry, canon@);
            assert forall|h: Seq<char>| lookup_canon(entries, h) is Some implies lookup_canon(
                entries.push(entry),
                h,
            ) == lookup_canon(entries, h) by {
                lemma_lookup_canon_push(entries, entry, h);
            }
            assert forall|c: Seq<u8>| lookup_human(entries, c) is Some implies lookup_human(
                entries.push(entry),
                c,
            ) == lookup_human(entries, c) by {
                lemma_lookup_human_push(entries, entry, c);
            }
        }
        let ghost old_entries = self.entries@;
        self.entries.push((human, canon));
        proof {
            if old(self).wf() {
                let new_entries = self.entries@;
                assert forall|i: int, j: int|
                    0 <= i < j < new_entries.len() implies #[trigger] new_entries[i].0@
                    != #[trigger] new_entries[j].0@ by {
                    if j == new_entries.len() - 1 {
                        assert(new_entries[i] == old_entries[i]);
                    } else {
                        assert(new_entries[i] == old_entries[i]);
                        assert(new_entries[j] == old_entries[j]);
                    }
                }
                assert forall|i: int, j: int|
                    0 <= i < j < new_entries.len() implies #[trigger] new_entries[i].1@
                    != #[trigger] new_entries[j].1@ by {
                    if j == new_entries.len() - 1 {
                        assert(new_entries[i] == old_entries[i]);
                    } else {
                        assert(new_entries[i] == old_entries[i]);
                        assert(new_entries[j] == old_entries[j]);
                    }
                }
                assert forall|i: int|
                    0 <= i < new_entries.len() implies (#[trigger] new_entries[i]).1@.len()
                    == self.canon_len by {
                    if i < new_entries.len() - 1 {
                        assert(new_entries[i] == old_entries[i]);
                    }
                }
            }
        }
        true
    }

    /// Resolves a human-readable address to its canonical form, failing
    /// with a resolution error when the address is not registered.
    pub fn canonical_address(&self, human: &String) -> (r: Result<Vec<u8>, ContractError>)
        ensures
            match r {
                Ok(c) => self.canon_of(human@) == Some(c@) && (self.wf() ==> c@.len()
                    == self.canon_len),
                Err(e) => self.canon_of(human@) is None && e == ContractError::Resolution,
            },
    {
        let n = self.entries.len();
        let mut i: usize = 0;
        proof {
            assert(self.entries@.skip(0) =~= self.entries@);
        }
        while i < n
            invariant
                i <= n,
                n == self.entries@.len(),
                lookup_canon(self.entries@, human@) == lookup_canon(
                    self.entries@.skip(i as int),
                    human@,
                ),
            decreases n - i,
        {
            let entry = &self.entries[i];
            proof {
                assert(self.entries@.skip(i as int)[0] == self.entries@[i as int]);
                assert(self.entries@.skip(i as int).drop_first() =~= self.entries@.skip(
                    i + 1 as int,
                ));
            }
            if entry.0 == *human {
                let c = copy_bytes(&entry.1);
                proof {
                    if self.wf() {
                        self.lemma_canon_len(human@);
                    }
                }
                return Ok(c);
            }
            i += 1;
        }
        proof {
            assert(self.entries@.skip(n as int) =~= Seq::<(String, Vec<u8>)>::empty());
        }
        Err(ContractError::Resolution)
    }

    /// Resolves a canonical address back to its human-readable form,
    /// failing with a resolution error when it is not registered.
    pub fn human_address(&self, canon: &Vec<u8>) -> (r: Result<String, ContractError>)
        ensures
            match r {
                Ok(h) => self.human_of(canon@) == Some(h@),
                Err(e) => self.human_of(canon@) is None && e == ContractError::Resolution,
            },
    {
        let n = self.entries.len();
        let mut i: usize = 0;
        proof {
            assert(self.entries@.skip(0) =~= self.entries@);
        }
        while i < n
            invariant
                i <= n,
                n == self.entries@.len(),
                lookup_human(self.entries@, canon@) == lookup_human(
                    self.entries@.skip(i as int),
                    canon@,
                ),
            decreases n - i,
        {
            let entry = &self.entries[i];
            proof {
                assert(self.entries@.skip(i as int)[0] == self.entries@[i as int]);
                assert(self.entries@.skip(i as int).drop_first() =~= self.entries@.skip(
                    i + 1 as int,
                ));
            }
            if bytes_eq(entry.1.as_slice(), canon.as_slice()) {
                return Ok(entry.0.clone());
            }
            i += 1;
        }
        proof {
            assert(self.entries@.skip(n as int) =~= Seq::<(String, Vec<u8>)>::empty());
        }
        Err(ContractError::Resolution)
    }
}

} // verus!
