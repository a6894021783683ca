//! The store of escrow records, per-owner nonces and the creation counter.

use vstd::prelude::*;
use crate::assoc::{assoc, lemma_assoc_at, lemma_assoc_push, lemma_assoc_update};
use crate::bytes::same_bytes;
use crate::transfer::is_destination_side;
use crate::types::{Address, EscrowError, EscrowRecord};

verus! {

/// What the registry holds, as mathematical maps.
pub struct RegistryState {
    /// The record stored under each identifier.
    pub escrows: Map<[u8; 32], EscrowRecord>,
    /// The time up to which each record's storage is paid for.
    pub expiries: Map<[u8; 32], u64>,
    /// The last nonce that each owner has used.
    pub nonces: Map<Address, u64>,
    /// How many source-side escrows have been created.
    pub created: nat,
}

impl RegistryState {
    /// The registry that holds nothing.
    pub open spec fn empty() -> RegistryState {
        RegistryState {
            escrows: Map::empty(),
            expiries: Map::empty(),
            nonces: Map::empty(),
            created: 0,
        }
    }

    /// The record under `id`, if there is one.
    pub open spec fn record(self, id: [u8; 32]) -> Option<EscrowRecord> {
        if self.escrows.contains_key(id) {
            Some(self.escrows[id])
        } else {
            None
        }
    }

    /// The expiry of the record under `id`, if there is one.
    pub open spec fn expiry(self, id: [u8; 32]) -> Option<u64> {
        if self.expiries.contains_key(id) {
            Some(self.expiries[id])
        } else {
            None
        }
    }

    /// The last nonce of `owner`; zero for an owner that has used none.
    pub open spec fn last_nonce(self, owner: Address) -> u64 {
        if self.nonces.contains_key(owner) {
            self.nonces[owner]
        } else {
            0
        }
    }

    /// The state after `record` has been stored as a new entry that expires
    /// at `expiry`.
    pub open spec fn with_new(self, record: EscrowRecord, expiry: u64) -> RegistryState {
        RegistryState {
            escrows: self.escrows.insert(record.id, record),
            expiries: self.expiries.insert(record.id, expiry),
            nonces: self.nonces,
            created: if record.destination_side() {
                self.created
            } else {
                self.created + 1
            },
        }
    }

    /// The state after the record under `record.id` has been overwritten.
    pub open spec fn with_record(self, record: EscrowRecord) -> RegistryState {
        RegistryState { escrows: self.escrows.insert(record.id, record), ..self }
    }

    /// The state after `owner` has used the nonce `n`.
    pub open spec fn with_nonce(self, owner: Address, n: u64) -> RegistryState {
        RegistryState { nonces: self.nonces.insert(owner, n), ..self }
    }

    /// The state after the expiry under `id` has been set.
    pub open spec fn with_expiry(self, id: [u8; 32], expiry: u64) -> RegistryState {
        RegistryState { expiries: self.expiries.insert(id, expiry), ..self }
    }
}

/// The escrow records by identifier, the last nonce of each owner, and the
/// count of source-side creations. Records are never removed.
pub struct EscrowRegistry {
    ids: Vec<[u8; 32]>,
    records: Vec<EscrowRecord>,
    expiries: Vec<u64>,
    owners: Vec<Address>,
    lasts: Vec<u64>,
    counter: u64,
}

impl View for EscrowRegistry {
    type V = RegistryState;

    closed spec fn view(&self) -> RegistryState {
        RegistryState {
            escrows: assoc(self.ids@, self.records@),
            expiries: assoc(self.ids@, self.expiries@),
            nonces: assoc(self.owners@, self.lasts@),
            created: self.counter as nat,
        }
    }
}

impl EscrowRegistry {
    /// No identifier and no owner is held twice, every record is stored under
    /// its own identifier, and the counter does not exceed the records held.
    pub closed spec fn wf(&self) -> bool {
        &&& self.ids@.no_duplicates()
        &&& self.records@.len() == self.ids@.len()
        &&& self.expiries@.len() == self.ids@.len()
        &&& forall|i: int| 0 <= i < self.ids@.len() ==> (#[trigger] self.records@[i]).id == self.ids@[i]
        &&& self.owners@.no_duplicates()
        &&& self.lasts@.len() == self.owners@.len()
        &&& self.counter <= self.ids@.len()
    }

    /// In a well-formed registry every record is stored under its own
    /// identifier, and records and expiries have the same identifiers.
    pub proof fn lemma_keyed(&self)
        requires
            self.wf(),
        ensures
            self@.escrows.dom() == self@.expiries.dom(),
            forall|id: [u8; 32]| #[trigger]
                self@.escrows.contains_key(id) ==> self@.escrows[id].id == id,
    {
        assert(self@.escrows.dom() =~= self@.expiries.dom());
        assert forall|id: [u8; 32]| #[trigger]
            self@.escrows.contains_key(id) implies self@.escrows[id].id == id by {
            let i = self.ids@.index_of(id);
            lemma_assoc_at(self.ids@, self.records@, i);
        }
    }

    /// The registry that holds nothing.
    pub fn new() -> (r: EscrowRegistry)
        ensures
            r.wf(),
            r@ == RegistryState::empty(),
    {
        let r = EscrowRegistry {
            ids: Vec::new(),
            records: Vec::new(),
            expiries: Vec::new(),
            owners: Vec::new(),
            lasts: Vec::new(),
            counter: 0,
        };
        assert(r@.escrows =~= Map::empty());
        assert(r@.expiries =~= Map::empty());
        assert(r@.nonces =~= Map::empty());
        r
    }

    fn position(&self, id: &[u8; 32]) -> (r: Option<usize>)
        ensures
            match r {
                Some(i) => i < self.ids@.len() && self.ids@[i as int] == *id,
                None => !self.ids@.contains(*id),
            },
    {
        let n = self.ids.len();
        let mut i: usize = 0;
        while i < n
            invariant
                i <= n,
                n == self.ids@.len(),
                forall|k: int| 0 <= k < i ==> self.ids@[k] != *id,
            decreases n - i,
        {
            if same_bytes(&self.ids[i], id) {
                return Some(i);
            }
            i = i + 1;
        }
        None
    }

    fn owner_position(&self, owner: &Address) -> (r: Option<usize>)
        ensures
            match r {
                Some(i) => i < self.owners@.len() && self.owners@[i as int] == *owner,
                None => !self.owners@.contains(*owner),
            },
    {
        let n = self.owners.len();
        let mut i: usize = 0;
        while i < n
            invariant
                i <= n,
                n == self.owners@.len(),
                forall|k: int| 0 <= k < i ==> self.owners@[k] != *owner,
            decreases n - i,
        {
            if self.owners[i].same_as(owner) {
                return Some(i);
            }
            i = i + 1;
        }
        None
    }

    /// The record under `id`, or `None` where there is none.
    pub fn get(&self, id: &[u8; 32]) -> (r: Option<EscrowRecord>)
        requires
            self.wf(),
        ensures
            r == self@.record(*id),
            r matches Some(rec) ==> rec.id == *id,
    {
        match self.position(id) {
            Some(i) => {
                proof {
                    lemma_assoc_at(self.ids@, self.records@, i as int);
                }
                Some(self.records[i])
            },
            None => None,
        }
    }

    /// The expiry of the record under `id`, or `None` where there is none.
    pub fn expiry(&self, id: &[u8; 32]) -> (r: Option<u64>)
        requires
            self.wf(),
        ensures
            r == self@.expiry(*id),
    {
        match self.position(id) {
            Some(i) => {
                proof {
                    lemma_assoc_at(self.ids@, self.expiries@, i as int);
                }
                Some(self.expiries[i])
            },
            None => None,
        }
    }

    /// Stores `record` under its identifier with the expiry `expiry`, and
    /// counts it where it is source-side. Fails with `AlreadyExists`, and
    /// changes nothing, where the identifier is taken.
    pub fn create(&mut self, record: EscrowRecord, expiry: u64) -> (r: Result<(), EscrowError>)
        requires
            old(self).wf(),
        ensures
            final(self).wf(),
            old(self)@.escrows.contains_key(record.id) ==> r == Err::<(), EscrowError>(
                EscrowError::AlreadyExists,
            ) && final(self)@ == old(self)@,
            !old(self)@.escrows.contains_key(record.id) ==> r == Ok::<(), EscrowError>(())
                && final(self)@ == old(self)@.with_new(record, expiry),
    {
        match self.position(&record.id) {
            Some(i) => {
                proof {
                    lemma_assoc_at(self.ids@, self.records@, i as int);
                }
                Err(EscrowError::AlreadyExists)
            },
            None => {
                proof {
                    lemma_assoc_push(self.ids@, self.records@, record.id, record);
                    lemma_assoc_push(self.ids@, self.expiries@, record.id, expiry);
                }
                self.ids.push(record.id);
                self.records.push(record);
                self.expiries.push(expiry);
                if !is_destination_side(&record) {
                    let held = self.ids.len();
                    assert(self.counter < held);
                    self.counter = self.counter + 1;
                }
                Ok(())
            },
        }
    }

    /// Overwrites the record stored under `record.id`. Fails with `NotFound`,
    /// and changes nothing, where there is none.
    pub fn update(&mut self, record: EscrowRecord) -> (r: Result<(), EscrowError>)
        requires
            old(self).wf(),
        ensures
            final(self).wf(),
            !old(self)@.escrows.contains_key(record.id) ==> r == Err::<(), EscrowError>(
                EscrowError::NotFound,
            ) && final(self)@ == old(self)@,
            old(self)@.escrows.contains_key(record.id) ==> r == Ok::<(), EscrowError>(())
                && final(self)@ == old(self)@.with_record(record),
    {
        match self.position(&record.id) {
            Some(i) => {
                proof {
                    lemma_assoc_at(self.ids@, self.records@, i as int);
                    lemma_assoc_update(self.ids@, self.records@, i as int, record);
                }
                self.records[i] = record;
                Ok(())
            },
            None => Err(EscrowError::NotFound),
        }
    }

    /// Moves the expiry of the record under `id` out to `new_expiry` where
    /// that is later than the present one, and returns the expiry that holds
    /// afterwards. Fails with `NotFound` where there is no such record.
    pub fn extend_expiry(&mut self, id: &[u8; 32], new_expiry: u64) -> (r: Result<
        u64,
        EscrowError,
    >)
        requires
            old(self).wf(),
        ensures
            final(self).wf(),
            match old(self)@.expiry(*id) {
                None => r == Err::<u64, EscrowError>(EscrowError::NotFound) && final(self)@ == old(
                    self,
                )@,
                Some(e) => {
                    let later = if new_expiry > e {
                        new_expiry
                    } else {
                        e
                    };
                    r == Ok::<u64, EscrowError>(later) && final(self)@ == old(self)@.with_expiry(
                        *id,
                        later,
                    )
                },
            },
    {
        match self.position(id) {
            Some(i) => {
                proof {
                    lemma_assoc_at(self.ids@, self.expiries@, i as int);
                }
                let present = self.expiries[i];
                let later = if new_expiry > present {
                    new_expiry
                } else {
                    present
                };
                proof {
                    lemma_assoc_update(self.ids@, self.expiries@, i as int, later);
                }
                self.expiries[i] = later;
                Ok(later)
            },
            None => Err(EscrowError::NotFound),
        }
    }

    /// How many source-side escrows have been created.
    pub fn creation_count(&self) -> (r: u64)
        ensures
            r == self@.created,
    {
        self.counter
    }

    /// The last nonce that `owner` has used; zero where there is none.
    pub fn last_nonce(&self, owner: &Address) -> (r: u64)
        requires
            self.wf(),
        ensures
            r == self@.last_nonce(*owner),
    {
        match self.owner_position(owner) {
            Some(i) => {
                proof {
                    lemma_assoc_at(self.owners@, self.lasts@, i as int);
                }
                self.lasts[i]
            },
            None => 0,
        }
    }

    /// Records `n` as the last nonce of `owner`.
    pub fn set_nonce(&mut self, owner: Address, n: u64)
        requires
            old(self).wf(),
        ensures
            final(self).wf(),
            final(self)@ == old(self)@.with_nonce(owner, n),
    {
        match self.owner_position(&owner) {
            Some(i) => {
                proof {
                    lemma_assoc_at(self.owners@, self.lasts@, i as int);
                    lemma_assoc_update(self.owners@, self.lasts@, i as int, n);
                }
                self.lasts[i] = n;
            },
            None => {
                proof {
                    lemma_assoc_push(self.owners@, self.lasts@, owner, n);
                }
                self.owners.push(owner);
                self.lasts.push(n);
            },
        }
    }
}

} // verus!
