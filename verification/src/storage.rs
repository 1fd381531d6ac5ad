//! The storage gateway: the persistence capability the worker records
//! delivery state through, the in-memory implementation of it, and the
//! shared lock-guarded handle under which the worker reaches it.

use vstd::prelude::*;

use crate::status::arc_clone;

verus! {

/// The delivery state the worker records for one tracked message.
#[derive(Clone, Copy, Debug, PartialEq, Eq, Structural)]
pub enum DeliveryState {
    /// Accepted by the worker; the delivery procedure has not finished.
    Queued,
    /// The delivery procedure reported success.
    Sent,
    /// The delivery procedure reported failure.
    Failed,
}

/// Why a single gateway write was refused. A refused write leaves the
/// gateway unchanged.
#[derive(Clone, Copy, Debug, PartialEq, Eq, Structural)]
pub enum StorageError {
    /// `create` was given an identifier that is already tracked.
    AlreadyExists,
    /// `update` was given an identifier that is not tracked.
    NotFound,
}

/// The persistence capability consumed by the worker: per-item delivery
/// state, addressed by a unique identifier.
///
/// Both methods are invoked only from the worker's execution context, under
/// the exclusive-write guard the coordinator supplies; an implementation
/// needs no synchronization of its own.
pub trait MailstromStorage: Sized {
    /// The tracked items, as a map from identifier to delivery state.
    spec fn gateway(&self) -> Map<Seq<char>, DeliveryState>;

    /// Begin tracking a new item. Refused exactly when the identifier is
    /// already tracked; a refused write changes nothing.
    fn create(&mut self, id: &String, state: DeliveryState) -> (r: Result<(), StorageError>)
        ensures
            r is Ok <==> !old(self).gateway().contains_key(id@),
            r is Ok ==> final(self).gateway() == old(self).gateway().insert(id@, state),
            r is Err ==> final(self).gateway() == old(self).gateway(),
    ;

    /// Replace the state of a tracked item. Refused exactly when the
    /// identifier is not tracked; a refused write changes nothing.
    fn update(&mut self, id: &String, state: DeliveryState) -> (r: Result<(), StorageError>)
        ensures
            r is Ok <==> old(self).gateway().contains_key(id@),
            r is Ok ==> final(self).gateway() == old(self).gateway().insert(id@, state),
            r is Err ==> final(self).gateway() == old(self).gateway(),
    ;
}

/// The map described by a sequence of records, later records superseding
/// earlier ones with the same identifier.
pub open spec fn map_of(items: Seq<(String, DeliveryState)>) -> Map<Seq<char>, DeliveryState>
    decreases items.len(),
{
    if items.len() == 0 {
        Map::empty()
    } else {
        map_of(items.drop_last()).insert(items.last().0@, items.last().1)
    }
}

/// No two records carry the same identifier.
pub open spec fn distinct_ids(items: Seq<(String, DeliveryState)>) -> bool {
    forall|i: int, j: int| 0 <= i < j < items.len() ==> items[i].0@ != items[j].0@
}

/// An identifier is in the described map exactly when some record carries it.
proof fn lemma_map_of_contains(items: Seq<(String, DeliveryState)>, key: Seq<char>)
    ensures
        map_of(items).contains_key(key) <==> exists|i: int|
            0 <= i < items.len() && items[i].0@ == key,
    decreases items.len(),
{
    if items.len() > 0 {
        lemma_map_of_contains(items.drop_last(), key);
        if items.last().0@ != key && map_of(items).contains_key(key) {
            let i = choose|i: int| 0 <= i < items.drop_last().len() && items.drop_last()[i].0@
                == key;
            assert(items[i].0@ == key);
        }
        if exists|i: int| 0 <= i < items.len() && items[i].0@ == key {
            let i = choose|i: int| 0 <= i < items.len() && items[i].0@ == key;
            if i < items.len() - 1 {
                assert(items.drop_last()[i].0@ == key);
            }
        }
    }
}

/// Replacing the state carried by one record replaces that identifier's
/// entry in the described map, provided identifiers are distinct.
proof fn lemma_map_of_update(items: Seq<(String, DeliveryState)>, i: int, v: DeliveryState)
    requires
        distinct_ids(items),
        0 <= i < items.len(),
    ensures
        map_of(items.update(i, (items[i].0, v))) == map_of(items).insert(items[i].0@, v),
    decreases items.len(),
{
    let updated = items.update(i, (items[i].0, v));
    let key = items[i].0@;
    if i == items.len() - 1 {
        assert(updated.drop_last() =~= items.drop_last());
        assert(map_of(items.drop_last()).insert(key, items[i].1).insert(key, v) =~= map_of(
            items.drop_last(),
        ).insert(key, v));
    } else {
        assert(updated.drop_last() =~= items.drop_last().update(i, (items[i].0, v)));
        assert(distinct_ids(items.drop_last())) by {
            assert(forall|p: int, q: int|
                0 <= p < q < items.drop_last().len() ==> items.drop_last()[p].0@
                    != items.drop_last()[q].0@) by {
                assert(forall|p: int, q: int|
                    0 <= p < q < items.len() - 1 ==> items[p].0@ != items[q].0@);
            }
        }
        lemma_map_of_update(items.drop_last(), i, v);
        let last_key = items.last().0@;
        assert(key != last_key);
        assert(map_of(items.drop_last()).insert(key, v).insert(last_key, items.last().1) =~= map_of(
            items.drop_last(),
        ).insert(last_key, items.last().1).insert(key, v));
    }
}

/// With distinct identifiers, the described map holds exactly one entry per
/// record.
proof fn lemma_map_of_len(items: Seq<(String, DeliveryState)>)
    requires
        distinct_ids(items),
    ensures
        map_of(items).dom().finite(),
        map_of(items).dom().len() == items.len(),
    decreases items.len(),
{
    if items.len() > 0 {
        assert(distinct_ids(items.drop_last())) by {
            assert(forall|p: int, q: int|
                0 <= p < q < items.len() - 1 ==> items[p].0@ != items[q].0@);
        }
        lemma_map_of_len(items.drop_last());
        lemma_map_of_contains(items.drop_last(), items.last().0@);
        assert(forall|j: int|
            0 <= j < items.drop_last().len() ==> items.drop_last()[j].0@ != items.last().0@);
        assert(!map_of(items.drop_last()).contains_key(items.last().0@));
        assert(map_of(items).dom() =~= map_of(items.drop_last()).dom().insert(items.last().0@));
    }
}

/// An in-memory storage gateway: a growable list of records with distinct
/// identifiers, kept in the order the items were first tracked.
pub struct MemoryStorage {
    items: Vec<(String, DeliveryState)>,
}

impl Clone for MemoryStorage {
    /// A reader's copy: the same records in the same order, so the same map.
    fn clone(&self) -> (r: MemoryStorage)
        ensures
            r.records() == self.records(),
            r.gateway() == self.gateway(),
    {
        proof {
            use_type_invariant(self);
        }
        let mut items: Vec<(String, DeliveryState)> = Vec::new();
        let mut i: usize = 0;
        while i < self.items.len()
            invariant
                i <= self.items@.len(),
                items@.len() == i,
                forall|j: int| 0 <= j < i ==> items@[j] == self.items@[j],
            decreases self.items@.len() - i,
        {
            items.push((self.items[i].0.clone(), self.items[i].1));
            i = i + 1;
        }
        proof {
            assert(items@ =~= self.items@);
        }
        MemoryStorage { items }
    }
}

impl MemoryStorage {
    #[verifier::type_invariant]
    spec fn inv(self) -> bool {
        distinct_ids(self.items@)
    }

    /// The records in the order the items were first tracked.
    pub closed spec fn records(&self) -> Seq<(String, DeliveryState)> {
        self.items@
    }

    /// An empty gateway.
    pub fn new() -> (r: MemoryStorage)
        ensures
            r.gateway() == Map::<Seq<char>, DeliveryState>::empty(),
            r.records() == Seq::<(String, DeliveryState)>::empty(),
    {
        MemoryStorage { items: Vec::new() }
    }

    /// The position of the record carrying `id`, if one does.
    fn find(&self, id: &String) -> (r: Option<usize>)
        ensures
            match r {
                Some(i) => i < self.items@.len() && self.items@[i as int].0@ == id@,
                None => forall|j: int| 0 <= j < self.items@.len() ==> self.items@[j].0@ != id@,
            },
    {
        let mut i: usize = 0;
        while i < self.items.len()
            invariant
                i <= self.items@.len(),
                forall|j: int| 0 <= j < i ==> self.items@[j].0@ != id@,
            decreases self.items@.len() - i,
        {
            if self.items[i].0 == *id {
                return Some(i);
            }
            i = i + 1;
        }
        None
    }

    /// How many items the gateway tracks.
    pub fn count(&self) -> (r: usize)
        ensures
            r == self.gateway().dom().len(),
            r == self.records().len(),
    {
        proof {
            use_type_invariant(self);
            lemma_map_of_len(self.items@);
        }
        self.items.len()
    }

    /// The tracked identifiers, in the order the items were first tracked.
    pub fn ids(&self) -> (r: Vec<String>)
        ensures
            r@.len() == self.records().len(),
            forall|i: int| 0 <= i < r@.len() ==> r@[i]@ == self.records()[i].0@,
    {
        let mut out: Vec<String> = Vec::new();
        let mut i: usize = 0;
        while i < self.items.len()
            invariant
                i <= self.items@.len(),
                out@.len() == i,
                forall|j: int| 0 <= j < i ==> out@[j]@ == self.items@[j].0@,
            decreases self.items@.len() - i,
        {
            out.push(self.items[i].0.clone());
            i = i + 1;
        }
        out
    }

    /// The state recorded for `id`, if that item is tracked.
    pub fn state_of(&self, id: &String) -> (r: Option<DeliveryState>)
        ensures
            match r {
                Some(s) => self.gateway().contains_key(id@) && self.gateway()[id@] == s,
                None => !self.gateway().contains_key(id@),
            },
    {
        proof {
            use_type_invariant(self);
            lemma_map_of_contains(self.items@, id@);
        }
        match self.find(id) {
            Some(i) => {
                proof {
                    lemma_map_of_index(self.items@, i as int);
                }
                Some(self.items[i].1)
            },
            None => None,
        }
    }
}

/// The entry for a record's identifier is that record's state, provided
/// identifiers are distinct.
proof fn lemma_map_of_index(items: Seq<(String, DeliveryState)>, i: int)
    requires
        distinct_ids(items),
        0 <= i < items.len(),
    ensures
        map_of(items).contains_key(items[i].0@),
        map_of(items)[items[i].0@] == items[i].1,
    decreases items.len(),
{
    if i == items.len() - 1 {
    } else {
        assert(distinct_ids(items.drop_last())) by {
            assert(forall|p: int, q: int|
                0 <= p < q < items.len() - 1 ==> items[p].0@ != items[q].0@);
        }
        lemma_map_of_index(items.drop_last(), i);
        assert(items.drop_last()[i] == items[i]);
        assert(items[i].0@ != items.last().0@);
    }
}

impl MailstromStorage for MemoryStorage {
    closed spec fn gateway(&self) -> Map<Seq<char>, DeliveryState> {
        map_of(self.items@)
    }

    fn create(&mut self, id: &String, state: DeliveryState) -> (r: Result<(), StorageError>)
        ensures
            r matches Err(e) ==> e == StorageError::AlreadyExists && old(self).gateway()
                .contains_key(id@),
            final(self).records() == if r is Ok {
                old(self).records().push((*id, state))
            } else {
                old(self).records()
            },
    {
        proof {
            use_type_invariant(&*self);
            lemma_map_of_contains(self.items@, id@);
        }
        match self.find(id) {
            Some(i) => {
                proof {
                    assert(exists|j: int|
                        0 <= j < self.items@.len() && self.items@[j].0@ == id@) by {
                        assert(self.items@[i as int].0@ == id@);
                    }
                }
                Err(StorageError::AlreadyExists)
            },
            None => {
                let ghost before = self.items@;
                let mut taken: Vec<(String, DeliveryState)> = Vec::new();
                core::mem::swap(&mut self.items, &mut taken);
                let entry = (id.clone(), state);
                proof {
                    assert(entry.0@ == id@);
                    let pushed = before.push(entry);
                    assert forall|p: int, q: int| 0 <= p < q < pushed.len() implies pushed[p].0@
                        != pushed[q].0@ by {
                        assert(pushed[p] == before[p]);
                        if q == pushed.len() - 1 {
                            assert(pushed[q] == entry);
                        } else {
                            assert(pushed[q] == before[q]);
                        }
                    }
                    assert(distinct_ids(pushed));
                }
                taken.push(entry);
                core::mem::swap(&mut self.items, &mut taken);
                proof {
                    assert(self.items@.drop_last() =~= before);
                    assert(self.items@.last().0@ == id@);
                }
                Ok(())
            },
        }
    }

    fn update(&mut self, id: &String, state: DeliveryState) -> (r: Result<(), StorageError>)
        ensures
            r matches Err(e) ==> e == StorageError::NotFound && !old(self).gateway().contains_key(
                id@,
            ) && final(self).records() == old(self).records(),
            final(self).records().len() == old(self).records().len(),
            r is Ok ==> forall|j: int| 0 <= j < old(self).records().len() ==> final(self).records()[j]
                == (if old(self).records()[j].0@ == id@ {
                    (old(self).records()[j].0, state)
                } else {
                    old(self).records()[j]
                }),
    {
        proof {
            use_type_invariant(&*self);
            lemma_map_of_contains(self.items@, id@);
        }
        match self.find(id) {
            Some(i) => {
                let ghost before = self.items@;
                let mut taken: Vec<(String, DeliveryState)> = Vec::new();
                core::mem::swap(&mut self.items, &mut taken);
                let next = (taken[i].0.clone(), state);
                proof {
                    assert(next.0 == before[i as int].0);
                    let updated = before.update(i as int, next);
                    assert forall|p: int, q: int| 0 <= p < q < updated.len() implies updated[p].0@
                        != updated[q].0@ by {
                        assert(updated[p].0@ == before[p].0@);
                        assert(updated[q].0@ == before[q].0@);
                    }
                    assert(distinct_ids(updated));
                    assert(exists|j: int| 0 <= j < before.len() && before[j].0@ == id@) by {
                        assert(before[i as int].0@ == id@);
                    }
                }
                taken.set(i, next);
                core::mem::swap(&mut self.items, &mut taken);
                proof {
                    assert(self.items@ =~= before.update(i as int, (before[i as int].0, state)));
                    lemma_map_of_update(before, i as int, state);
                }
                Ok(())
            },
            None => Err(StorageError::NotFound),
        }
    }
}

#[verifier::external_type_specification]
#[verifier::external_body]
#[verifier::reject_recursive_types(T)]
pub struct ExRwLock<T: ?Sized>(std::sync::RwLock<T>);

/// Relies on std::sync::RwLock::new: a fresh, unpoisoned lock guarding
/// `value`.
#[verifier::external_body]
fn new_lock<S>(value: Option<S>) -> (r: std::sync::RwLock<Option<S>>) {
    std::sync::RwLock::new(value)
}

/// Relies on std::sync::RwLock::write and Option::take: removes and returns
/// whatever the lock guards, leaving the slot empty. The outer `None` means
/// the lock is poisoned and nothing was touched.
#[verifier::external_body]
fn lock_take<S>(lock: &std::sync::RwLock<Option<S>>) -> (r: Option<Option<S>>) {
    match lock.write() {
        Ok(mut guard) => Some(guard.take()),
        Err(_) => None,
    }
}

/// Relies on std::sync::RwLock::write: stores `value` in the guarded slot.
/// `false` means the lock is poisoned and the slot is unchanged.
#[verifier::external_body]
fn lock_put<S>(lock: &std::sync::RwLock<Option<S>>, value: S) -> (r: bool) {
    match lock.write() {
        Ok(mut guard) => {
            *guard = Some(value);
            true
        },
        Err(_) => false,
    }
}

/// Relies on std::sync::RwLock::read and the gateway's own Clone: a copy of
/// the guarded value. `None` means the lock is poisoned or the slot is
/// momentarily empty (the worker holds the gateway).
#[verifier::external_body]
fn lock_snapshot<S: Clone>(lock: &std::sync::RwLock<Option<S>>) -> (r: Option<S>) {
    match lock.read() {
        Ok(guard) => (*guard).clone(),
        Err(_) => None,
    }
}

/// The shared, lock-guarded handle under which the storage gateway lives.
/// The coordinator's handle and its worker each hold one; the gateway is
/// destroyed only when both are gone.
///
/// Write discipline (by construction, not locally checkable): in this core
/// exactly one execution context — the worker — takes the gateway out,
/// writes to it, and puts it back; readers only snapshot.
#[verifier::reject_recursive_types(S)]
pub struct StorageHandle<S> {
    lock: std::sync::Arc<std::sync::RwLock<Option<S>>>,
}

impl<S> StorageHandle<S> {
    /// Wrap a caller-supplied gateway for shared ownership.
    pub fn new(storage: S) -> StorageHandle<S> {
        StorageHandle { lock: std::sync::Arc::new(new_lock(Some(storage))) }
    }

    /// Another handle on the same guarded gateway, for the other side of the
    /// owner/worker split.
    pub fn share(&self) -> (r: StorageHandle<S>)
        ensures
            r == *self,
    {
        StorageHandle { lock: arc_clone(&self.lock) }
    }

    /// Take exclusive possession of the gateway for a batch of writes.
    /// `None` means the gateway is unusable: the lock is poisoned, or the
    /// slot is empty because a previous possession was never returned.
    pub fn take(&self) -> Option<S> {
        match lock_take(&self.lock) {
            Some(slot) => slot,
            None => None,
        }
    }

    /// Return the gateway after a batch of writes. `false` means the lock is
    /// poisoned and the gateway is lost.
    pub fn put(&self, storage: S) -> bool {
        lock_put(&self.lock, storage)
    }

    /// A reader's copy of the gateway as last put back; never blocks the
    /// worker for long. `None` means the gateway is unusable or momentarily
    /// taken.
    pub fn snapshot(&self) -> Option<S> where S: Clone {
        lock_snapshot(&self.lock)
    }
}

} // verus!
