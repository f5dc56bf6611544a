//! The record store: an arena of records keyed by their derived addresses.
//!
//! The surrounding ledger runtime stores each record at an address derived
//! from its seed path, which makes the address an implicit uniqueness index:
//! creating a record fails if its address is already occupied, and closing
//! it frees the address entirely. The store models that contract as an
//! explicit keyed mapping with init semantics, so a host without a ledger
//! can run the protocol against it.

use vstd::prelude::*;
use crate::addr::Addr;
use crate::addr::lemma_merchant_key_deterministic;
use crate::errors::StorageError;
use crate::escrow::Escrow;
use crate::listing::Listing;
use crate::marketplace::Marketplace;
use crate::merchant::Merchant;
use crate::merchant::RegisterMerchant;
use crate::merchant::register_merchant;

verus! {

/// Any persistent record of the protocol, as stored at its derived address.
#[derive(Clone, Copy, Debug, PartialEq, Eq, Structural)]
pub enum Record {
    Marketplace(Marketplace),
    Merchant(Merchant),
    Listing(Listing),
    Escrow(Escrow),
}

/// One occupied address.
#[derive(Clone, Copy, Debug, PartialEq, Eq, Structural)]
pub struct Slot {
    pub key: Addr,
    pub record: Record,
}

/// The arena of live records. Its invariant is the runtime's uniqueness
/// guarantee: no address holds two records.
pub struct Store {
    pub slots: Vec<Slot>,
}

impl Store {
    /// No two live records share an address.
    pub open spec fn wf(self) -> bool {
        forall|i: int, j: int|
            0 <= i < j < self.slots@.len() ==> self.slots@[i].key != self.slots@[j].key
    }

    /// A record lives at `key`.
    pub open spec fn contains_key(self, key: Addr) -> bool {
        exists|i: int| 0 <= i < self.slots@.len() && self.slots@[i].key == key
    }

    /// Position of the record living at `key`.
    pub open spec fn index_of(self, key: Addr) -> int {
        choose|i: int| 0 <= i < self.slots@.len() && self.slots@[i].key == key
    }

    /// The record living at `key`.
    pub open spec fn record_at(self, key: Addr) -> Record
        recommends
            self.contains_key(key),
    {
        self.slots@[self.index_of(key)].record
    }

    /// In a well-formed store, an address determines its slot: any position
    /// whose slot carries `key` is the position the lookup specs name.
    pub proof fn lemma_unique_index(self, i: int, key: Addr)
        requires
            self.wf(),
            0 <= i < self.slots@.len(),
            self.slots@[i].key == key,
        ensures
            self.contains_key(key),
            self.index_of(key) == i,
            self.record_at(key) == self.slots@[i].record,
    {
        let j = self.index_of(key);
        if i != j {
            if i < j {
                assert(self.slots@[i].key != self.slots@[j].key);
            } else {
                assert(self.slots@[j].key != self.slots@[i].key);
            }
        }
    }

    /// An empty store: no address is occupied.
    pub fn new() -> (r: Store)
        ensures
            r.wf(),
            forall|k: Addr| !r.contains_key(k),
            r.slots@.len() == 0,
    {
        Store { slots: Vec::new() }
    }

    /// Finds the position of the record at `key`, if the address is
    /// occupied.
    fn find(&self, key: Addr) -> (r: Option<usize>)
        ensures
            r is Some <==> self.contains_key(key),
            r matches Some(i) ==> 0 <= i < self.slots@.len() && self.slots@[i as int].key == key,
    {
        let n = self.slots.len();
        let mut i: usize = 0;
        while i < n
            invariant
                n == self.slots@.len(),
                0 <= i <= n,
                forall|j: int| 0 <= j < i ==> self.slots@[j].key != key,
            decreases n - i,
        {
            if self.slots[i].key == key {
                return Some(i);
            }
            i = i + 1;
        }
        None
    }

    /// Whether a record lives at `key`.
    pub fn contains(&self, key: Addr) -> (r: bool)
        ensures
            r == self.contains_key(key),
    {
        self.find(key).is_some()
    }

    /// Reads the record at `key`, if the address is occupied.
    pub fn get(&self, key: Addr) -> (r: Option<Record>)
        requires
            self.wf(),
        ensures
            r is Some <==> self.contains_key(key),
            r matches Some(rec) ==> rec == self.record_at(key),
    {
        match self.find(key) {
            Some(i) => {
                proof {
                    self.lemma_unique_index(i as int, key);
                }
                Some(self.slots[i].record)
            },
            None => None,
        }
    }

    /// Creates a record at `key` with init semantics: fails with
    /// `AlreadyExists`, changing nothing, if the address is occupied — no
    /// record is ever overwritten or resurrected in place.
    pub fn create(&mut self, key: Addr, record: Record) -> (r: Result<(), StorageError>)
        requires
            old(self).wf(),
        ensures
            r is Ok <==> !old(self).contains_key(key),
            r is Err ==> r == Err::<(), StorageError>(StorageError::AlreadyExists) && *final(self)
                == *old(self),
            r is Ok ==> {
                &&& final(self).wf()
                &&& final(self).contains_key(key)
                &&& final(self).record_at(key) == record
                &&& forall|k2: Addr|
                    k2 != key ==> final(self).contains_key(k2) == old(self).contains_key(k2)
                &&& forall|k2: Addr|
                    k2 != key && old(self).contains_key(k2) ==> final(self).record_at(k2) == old(
                        self,
                    ).record_at(k2)
            },
    {
        if self.find(key).is_some() {
            return Err(StorageError::AlreadyExists);
        }
        let ghost pre = *self;
        let n = self.slots.len();
        self.slots.push(Slot { key, record });
        proof {
            assert forall|i: int, j: int|
                0 <= i < j < self.slots@.len() implies self.slots@[i].key != self.slots@[j].key by {
                if j < n {
                    assert(pre.slots@[i].key != pre.slots@[j].key);
                } else {
                    assert(pre.slots@[i].key != key);
                }
            }
            self.lemma_unique_index(n as int, key);
            assert forall|k2: Addr|
                k2 != key implies self.contains_key(k2) == pre.contains_key(k2) by {
                if self.contains_key(k2) {
                    let i = choose|i: int|
                        0 <= i < self.slots@.len() && self.slots@[i].key == k2;
                    assert(i < n && pre.slots@[i].key == k2);
                }
                if pre.contains_key(k2) {
                    let i = choose|i: int|
                        0 <= i < pre.slots@.len() && pre.slots@[i].key == k2;
                    assert(self.slots@[i].key == k2);
                }
            }
            assert forall|k2: Addr|
                k2 != key && pre.contains_key(k2) implies self.record_at(k2) == pre.record_at(
                k2,
            ) by {
                let i = pre.index_of(k2);
                pre.lemma_unique_index(i, k2);
                self.lemma_unique_index(i, k2);
            }
        }
        Ok(())
    }

    /// Replaces the record at `key`, which must be occupied; fails with
    /// `NotFound`, changing nothing, otherwise.
    pub fn put(&mut self, key: Addr, record: Record) -> (r: Result<(), StorageError>)
        requires
            old(self).wf(),
        ensures
            r is Ok <==> old(self).contains_key(key),
            r is Err ==> r == Err::<(), StorageError>(StorageError::NotFound) && *final(self)
                == *old(self),
            r is Ok ==> {
                &&& final(self).wf()
                &&& final(self).contains_key(key)
                &&& final(self).record_at(key) == record
                &&& forall|k2: Addr|
                    k2 != key ==> final(self).contains_key(k2) == old(self).contains_key(k2)
                &&& forall|k2: Addr|
                    k2 != key && old(self).contains_key(k2) ==> final(self).record_at(k2) == old(
                        self,
                    ).record_at(k2)
            },
    {
        match self.remove(key) {
            Ok(_) => {},
            Err(e) => {
                return Err(e);
            },
        }
        let ghost mid = *self;
        match self.create(key, record) {
            Ok(_) => {},
            Err(_) => {
                proof {
                    assert(!mid.contains_key(key));
                }
            },
        }
        Ok(())
    }

    /// Destroys the record at `key`, freeing the address entirely; fails
    /// with `NotFound`, changing nothing, if no record lives there. A later
    /// creation at the same address starts from a fresh record: the
    /// destroyed state is gone.
    pub fn remove(&mut self, key: Addr) -> (r: Result<Record, StorageError>)
        requires
            old(self).wf(),
        ensures
            r is Ok <==> old(self).contains_key(key),
            r is Err ==> r == Err::<Record, StorageError>(StorageError::NotFound) && *final(self)
                == *old(self),
            r matches Ok(rec) ==> rec == old(self).record_at(key),
            r is Ok ==> {
                &&& final(self).wf()
                &&& !final(self).contains_key(key)
                &&& forall|k2: Addr|
                    k2 != key ==> final(self).contains_key(k2) == old(self).contains_key(k2)
                &&& forall|k2: Addr|
                    k2 != key && old(self).contains_key(k2) ==> final(self).record_at(k2) == old(
                        self,
                    ).record_at(k2)
            },
    {
        let i = match self.find(key) {
            Some(i) => i,
            None => {
                return Err(StorageError::NotFound);
            },
        };
        let ghost pre = *self;
        let slot = self.slots.remove(i);
        proof {
            pre.lemma_unique_index(i as int, key);
            assert forall|a: int, b: int|
                0 <= a < b < self.slots@.len() implies self.slots@[a].key != self.slots@[b].key by {
                let a0 = if a < i { a } else { a + 1 };
                let b0 = if b < i { b } else { b + 1 };
                assert(self.slots@[a] == pre.slots@[a0]);
                assert(self.slots@[b] == pre.slots@[b0]);
                assert(pre.slots@[a0].key != pre.slots@[b0].key);
            }
            assert forall|j: int|
                0 <= j < self.slots@.len() implies self.slots@[j].key != key by {
                let j0 = if j < i { j } else { j + 1 };
                assert(self.slots@[j] == pre.slots@[j0]);
                if j0 != i {
                    if j0 < i {
                        assert(pre.slots@[j0].key != pre.slots@[i as int].key);
                    } else {
                        assert(pre.slots@[i as int].key != pre.slots@[j0].key);
                    }
                }
            }
            assert forall|k2: Addr|
                k2 != key implies self.contains_key(k2) == pre.contains_key(k2) by {
                if self.contains_key(k2) {
                    let j = choose|j: int|
                        0 <= j < self.slots@.len() && self.slots@[j].key == k2;
                    let j0 = if j < i { j } else { j + 1 };
                    assert(self.slots@[j] == pre.slots@[j0]);
                }
                if pre.contains_key(k2) {
                    let j0 = choose|j0: int|
                        0 <= j0 < pre.slots@.len() && pre.slots@[j0].key == k2;
                    let j = if j0 < i { j0 } else { j0 - 1 };
                    assert(j0 != i);
                    assert(self.slots@[j] == pre.slots@[j0]);
                }
            }
            assert forall|k2: Addr|
                k2 != key && pre.contains_key(k2) implies self.record_at(k2) == pre.record_at(
                k2,
            ) by {
                let j0 = pre.index_of(k2);
                pre.lemma_unique_index(j0, k2);
                assert(j0 != i);
                let j = if j0 < i { j0 } else { j0 - 1 };
                assert(self.slots@[j] == pre.slots@[j0]);
                self.lemma_unique_index(j, k2);
            }
        }
        Ok(slot.record)
    }

    /// Runs a merchant registration against the store: requires the
    /// marketplace record to exist, builds the merchant record, and creates
    /// it at its derived address with init semantics. Registering the same
    /// (marketplace, owner) pair twice therefore fails on the second call
    /// with `AlreadyExists`, and the store — the first registration's record
    /// included — is left exactly as it was.
    pub fn register_merchant(&mut self, ctx: &RegisterMerchant) -> (r: Result<(), StorageError>)
        requires
            old(self).wf(),
            ctx.wf(),
        ensures
            r is Ok <==> old(self).contains_key(ctx.marketplace_key) && !old(self).contains_key(
                ctx.merchant_key,
            ),
            r is Err ==> *final(self) == *old(self),
            r == Err::<(), StorageError>(StorageError::NotFound) <==> !old(self).contains_key(
                ctx.marketplace_key,
            ),
            r == Err::<(), StorageError>(StorageError::AlreadyExists) <==> old(self).contains_key(
                ctx.marketplace_key,
            ) && old(self).contains_key(ctx.merchant_key),
            r is Ok ==> {
                &&& final(self).wf()
                &&& final(self).contains_key(ctx.merchant_key)
                &&& final(self).record_at(ctx.merchant_key) == Record::Merchant(
                    Merchant {
                        marketplace: ctx.marketplace_key,
                        owner: ctx.owner,
                        verified: false,
                        bump: ctx.merchant_bump,
                    },
                )
                &&& forall|k2: Addr|
                    k2 != ctx.merchant_key ==> final(self).contains_key(k2) == old(
                        self,
                    ).contains_key(k2)
                &&& forall|k2: Addr|
                    k2 != ctx.merchant_key && old(self).contains_key(k2) ==> final(self).record_at(
                        k2,
                    ) == old(self).record_at(k2)
            },
    {
        if !self.contains(ctx.marketplace_key) {
            return Err(StorageError::NotFound);
        }
        let merchant = register_merchant(ctx);
        self.create(ctx.merchant_key, Record::Merchant(merchant))
    }
}

/// Duplicate registrations are rejected: address derivation is
/// deterministic, so a second registration for the same (marketplace,
/// owner) pair aims at the very address the first one occupied, and its
/// creation must fail with `AlreadyExists` by `Store::register_merchant`'s
/// contract, altering no record.
pub proof fn lemma_duplicate_registration_rejected(
    s: Store,
    ctx1: RegisterMerchant,
    ctx2: RegisterMerchant,
)
    requires
        ctx1.wf(),
        ctx2.wf(),
        ctx1.marketplace_key == ctx2.marketplace_key,
        ctx1.owner == ctx2.owner,
        s.contains_key(ctx1.merchant_key),
    ensures
        s.contains_key(ctx2.merchant_key),
{
    lemma_merchant_key_deterministic(
        ctx1.merchant_key,
        ctx2.merchant_key,
        ctx1.marketplace_key,
        ctx1.owner,
    );
}

} // verus!
