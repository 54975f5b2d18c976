use vstd::prelude::*;
use vstd::string::*;

use crate::booking::{
    approved, denied, entry_for, plan_resolution, prepare_booking, submission_acceptable, Resolution,
};
use crate::error::AppError;
use crate::models::{Booking, BookingListParams, BookingStatus, CreateBooking, WhitelistEntry};
use crate::phone::parse_outcome;

verus! {

/// Bookings and whitelist entries held in memory, with identifiers drawn from a
/// counter.
pub struct MemoryStore {
    bookings: Vec<Booking>,
    entries: Vec<WhitelistEntry>,
    next_id: u128,
}

/// Writes staged against a `MemoryStore`: a new whitelist entry and an updated
/// booking. They reach the store together, on `commit`, or not at all.
pub struct Transaction {
    entry: Option<WhitelistEntry>,
    update: Option<(usize, Booking)>,
    next_id: u128,
    base_bookings: Ghost<Seq<Booking>>,
    base_entries: Ghost<Seq<WhitelistEntry>>,
}

/// The test that a listing for `status` puts each booking to: none when no
/// status is given.
pub open spec fn listed(status: Option<BookingStatus>) -> spec_fn(Booking) -> bool {
    |b: Booking| status matches Some(s) ==> b.status == s
}

/// Whether some booking of `bs` has identifier `id`.
pub open spec fn has_booking(bs: Seq<Booking>, id: u128) -> bool {
    exists|i: int| 0 <= i < bs.len() && (#[trigger] bs[i]).id == id
}

impl MemoryStore {
    pub closed spec fn bookings(&self) -> Seq<Booking> {
        self.bookings@
    }

    pub closed spec fn entries(&self) -> Seq<WhitelistEntry> {
        self.entries@
    }

    /// The identifier that the next record will get.
    pub closed spec fn next_id(&self) -> u128 {
        self.next_id
    }

    /// Every booking is well formed, and every identifier is below the counter
    /// and used once.
    pub open spec fn wf(&self) -> bool {
        &&& forall|i: int| 0 <= i < self.bookings().len() ==> (#[trigger] self.bookings()[i]).wf()
        &&& forall|i: int| 0 <= i < self.bookings().len() ==> (#[trigger] self.bookings()[i]).id < self.next_id()
        &&& forall|i: int| 0 <= i < self.entries().len() ==> (#[trigger] self.entries()[i]).id < self.next_id()
        &&& forall|i: int, j: int|
            0 <= i < j < self.bookings().len() ==> (#[trigger] self.bookings()[i]).id != (#[trigger] self.bookings()[j]).id
        &&& forall|i: int, j: int|
            0 <= i < j < self.entries().len() ==> (#[trigger] self.entries()[i]).id != (#[trigger] self.entries()[j]).id
    }

    /// The index of the booking with identifier `id`, if there is one.
    pub open spec fn index_of(&self, id: u128) -> Option<int> {
        if has_booking(self.bookings(), id) {
            Some(choose|i: int| 0 <= i < self.bookings().len() && (#[trigger] self.bookings()[i]).id == id)
        } else {
            None
        }
    }

    /// An empty store.
    pub fn new() -> (r: MemoryStore)
        ensures
            r.wf(),
            r.bookings().len() == 0,
            r.entries().len() == 0,
    {
        MemoryStore { bookings: Vec::new(), entries: Vec::new(), next_id: 1 }
    }

    /// How many bookings are stored.
    pub fn booking_count(&self) -> (r: usize)
        ensures
            r == self.bookings().len(),
    {
        self.bookings.len()
    }

    /// How many whitelist entries are stored.
    pub fn entry_count(&self) -> (r: usize)
        ensures
            r == self.entries().len(),
    {
        self.entries.len()
    }

    /// The position of the booking with identifier `id`.
    fn find_index(&self, id: u128) -> (r: Option<usize>)
        requires
            self.wf(),
        ensures
            r matches Some(i) ==> i < self.bookings().len() && self.bookings()[i as int].id == id
                && self.index_of(id) == Some(i as int),
            r is None <==> self.index_of(id) is None,
    {
        let mut i: usize = 0;
        while i < self.bookings.len()
            invariant
                self.wf(),
                i <= self.bookings@.len(),
                forall|j: int| 0 <= j < i ==> (#[trigger] self.bookings@[j]).id != id,
            decreases self.bookings@.len() - i,
        {
            if self.bookings[i].id == id {
                assert(has_booking(self.bookings(), id));
                let ghost k = self.index_of(id)->0;
                assert(self.bookings()[k].id == id);
                assert(k == i) by {
                    if k < i {
                        assert(self.bookings()[k].id != id);
                    } else if k > i {
                        assert(0 <= i < k < self.bookings().len());
                        assert(self.bookings()[i as int].id != self.bookings()[k].id);
                    }
                }
                return Some(i);
            }
            i = i + 1;
        }
        None
    }

    /// The booking with identifier `id`, if there is one.
    pub fn find_booking_by_id(&self, id: u128) -> (r: Option<Booking>)
        requires
            self.wf(),
        ensures
            r is None <==> self.index_of(id) is None,
            r matches Some(b) ==> b == self.bookings()[self.index_of(id)->0],
    {
        match self.find_index(id) {
            Some(i) => Some(self.bookings[i].duplicate()),
            None => None,
        }
    }

    /// The whitelist entry with identifier `id`, if there is one.
    pub fn find_entry_by_id(&self, id: u128) -> (r: Option<WhitelistEntry>)
        ensures
            r is None <==> forall|i: int| 0 <= i < self.entries().len() ==> (#[trigger] self.entries()[i]).id != id,
            r matches Some(e) ==> e.id == id && self.entries().contains(e),
    {
        let mut i: usize = 0;
        while i < self.entries.len()
            invariant
                i <= self.entries@.len(),
                forall|j: int| 0 <= j < i ==> (#[trigger] self.entries@[j]).id != id,
            decreases self.entries@.len() - i,
        {
            if self.entries[i].id == id {
                let e = self.entries[i].clone_entry();
                assert(self.entries()[i as int] == e);
                return Some(e);
            }
            i = i + 1;
        }
        None
    }

    /// The bookings that `params` asks for, in the order they were stored.
    pub fn list_bookings(&self, params: &BookingListParams) -> (r: Vec<Booking>)
        ensures
            r@ == self.bookings().filter(listed(params.status)),
    {
        let ghost keep = listed(params.status);
        let mut r: Vec<Booking> = Vec::new();
        let mut i: usize = 0;
        while i < self.bookings.len()
            invariant
                keep == listed(params.status),
                i <= self.bookings@.len(),
                r@ == self.bookings@.subrange(0, i as int).filter(keep),
            decreases self.bookings@.len() - i,
        {
            proof {
                let s = self.bookings@.subrange(0, i as int + 1);
                assert(s.drop_last() =~= self.bookings@.subrange(0, i as int));
                assert(s.last() == self.bookings@[i as int]);
                reveal(Seq::filter);
                assert(s.filter(keep) == if keep(s.last()) {
                    s.drop_last().filter(keep).push(s.last())
                } else {
                    s.drop_last().filter(keep)
                });
            }
            let ghost before = r@;
            if params.admits(&self.bookings[i]) {
                r.push(self.bookings[i].duplicate());
                assert(keep(self.bookings@[i as int]));
                assert(r@ == before.push(self.bookings@[i as int]));
            } else {
                assert(!keep(self.bookings@[i as int]));
            }
            assert(r@ == self.bookings@.subrange(0, i as int + 1).filter(keep));
            i = i + 1;
        }
        assert(self.bookings@.subrange(0, i as int) =~= self.bookings@);
        r
    }

    /// Stores a new pending booking for `input`, created at `now`.
    ///
    /// Fails with `BadRequest` when the phone does not parse or the e-mail
    /// holds no `@`, and with `Database` when identifiers have run out; the
    /// store is then unchanged.
    pub fn submit(&mut self, input: &CreateBooking, now: i64) -> (r: Result<Booking, AppError>)
        requires
            old(self).wf(),
        ensures
            final(self).wf(),
            !submission_acceptable(*input) ==> r matches Err(AppError::BadRequest(_)),
            submission_acceptable(*input) && old(self).next_id() == u128::MAX
                ==> r matches Err(AppError::Database(_)),
            submission_acceptable(*input) && old(self).next_id() < u128::MAX ==> r is Ok,
            r matches Ok(b) ==> {
                &&& b.id == old(self).next_id()
                &&& !has_booking(old(self).bookings(), b.id)
                &&& Ok::<Seq<char>, crate::phone::PhoneRejection>(b.caller_phone@) == parse_outcome(input.caller_phone@)
                &&& b.caller_name == input.caller_name
                &&& b.caller_email == input.caller_email
                &&& b.call_reason == input.call_reason
                &&& b.status == BookingStatus::Pending
                &&& b.created_at == now
                &&& b.resolved_at is None
                &&& b.whitelist_entry_id is None
                &&& final(self).bookings() == old(self).bookings().push(b)
                &&& final(self).entries() == old(self).entries()
            },
            r is Err ==> final(self).bookings() == old(self).bookings() && final(self).entries() == old(self).entries(),
    {
        let nb = prepare_booking(input)?;
        if self.next_id == u128::MAX {
            return Err(AppError::Database(String::from_str("identifiers exhausted")));
        }
        let id = self.next_id;
        let b = nb.into_pending(id, now);
        let stored = b.duplicate();
        self.bookings.push(stored);
        self.next_id = id + 1;
        assert(forall|i: int| 0 <= i < old(self).bookings().len() ==> (#[trigger] old(self).bookings()[i]).id != id);
        assert(self.bookings()[self.bookings().len() - 1] == b);
        Ok(b)
    }

    /// Opens a transaction on this store.
    pub fn begin(&self) -> (tx: Transaction)
        ensures
            tx.open_on(self),
            tx.staged_entry() is None,
            tx.staged_update() is None,
    {
        Transaction {
            entry: None,
            update: None,
            next_id: self.next_id,
            base_bookings: Ghost(self.bookings@),
            base_entries: Ghost(self.entries@),
        }
    }

    /// Applies every write staged in `tx`, all together.
    pub fn commit(&mut self, tx: Transaction)
        requires
            old(self).wf(),
            tx.open_on(old(self)),
            tx.staged_entry() is Some <==> tx.staged_update() is Some,
        ensures
            final(self).wf(),
            tx.staged_entry() is None ==> final(self).bookings() == old(self).bookings()
                && final(self).entries() == old(self).entries(),
            tx.staged_entry() matches Some(e) ==> final(self).entries() == old(self).entries().push(e),
            tx.staged_update() matches Some((i, b)) ==> final(self).bookings() == old(self).bookings().update(i as int, b),
    {
        let Transaction { entry, update, next_id, base_bookings: _, base_entries: _ } = tx;
        match (entry, update) {
            (Some(e), Some((i, b))) => {
                let ghost old_bookings = self.bookings@;
                self.entries.push(e);
                self.bookings.set(i, b);
                self.next_id = next_id;
                assert forall|j: int, k: int| 0 <= j < k < self.bookings().len() implies
                    (#[trigger] self.bookings()[j]).id != (#[trigger] self.bookings()[k]).id by {
                    assert(old_bookings[j].id != old_bookings[k].id);
                }
            },
            _ => {},
        }
    }

    /// Resolves the booking `id` to `target` at `now`.
    ///
    /// Fails with `NotFound` when no booking has that identifier, `Conflict`
    /// when it is already resolved, and `BadRequest` when `target` is
    /// `Pending`; the store is then unchanged. Denial updates the booking
    /// alone. Approval adds a whitelist entry for the caller and points the
    /// booking at it, in one transaction: both writes happen or neither.
    pub fn resolve(&mut self, id: u128, target: BookingStatus, now: i64) -> (r: Result<Booking, AppError>)
        requires
            old(self).wf(),
        ensures
            final(self).wf(),
            r is Err ==> final(self).bookings() == old(self).bookings() && final(self).entries() == old(self).entries(),
            old(self).index_of(id) is None ==> r == Err::<Booking, AppError>(AppError::NotFound),
            old(self).index_of(id) matches Some(i) ==> {
                let b = old(self).bookings()[i];
                &&& b.status != BookingStatus::Pending ==> r == Err::<Booking, AppError>(AppError::Conflict)
                &&& b.status == BookingStatus::Pending && target == BookingStatus::Pending
                    ==> (r matches Err(AppError::BadRequest(_)))
                &&& b.status == BookingStatus::Pending && target == BookingStatus::Denied ==> {
                    &&& r == Ok::<Booking, AppError>(denied(b, now))
                    &&& final(self).bookings() == old(self).bookings().update(i, denied(b, now))
                    &&& final(self).entries() == old(self).entries()
                }
                &&& b.status == BookingStatus::Pending && target == BookingStatus::Approved
                    && old(self).next_id() == u128::MAX ==> (r matches Err(AppError::Database(_)))
                &&& b.status == BookingStatus::Pending && target == BookingStatus::Approved
                    && old(self).next_id() < u128::MAX ==> {
                    let eid = old(self).next_id();
                    &&& r == Ok::<Booking, AppError>(approved(b, eid, now))
                    &&& final(self).bookings() == old(self).bookings().update(i, approved(b, eid, now))
                    &&& final(self).entries() == old(self).entries().push(entry_for(b, eid, now))
                }
            },
    {
        let idx = self.find_index(id);
        let existing = match idx {
            Some(i) => Some(&self.bookings[i]),
            None => None,
        };
        let plan = plan_resolution(existing, target)?;
        let i = idx.unwrap();
        match plan {
            Resolution::Deny => {
                let b = self.bookings[i].deny(now);
                let stored = b.duplicate();
                let ghost old_bookings = self.bookings@;
                self.bookings.set(i, stored);
                assert forall|j: int, k: int| 0 <= j < k < self.bookings().len() implies
                    (#[trigger] self.bookings()[j]).id != (#[trigger] self.bookings()[k]).id by {
                    assert(old_bookings[j].id != old_bookings[k].id);
                }
                Ok(b)
            },
            Resolution::Approve => {
                let mut tx = self.begin();
                let b = self.bookings[i].duplicate();
                let entry = tx.insert_whitelist_entry(self, &b, now)?;
                let updated = tx.update_booking_approved(self, id, entry.id, now)?;
                self.commit(tx);
                Ok(updated)
            },
        }
    }
}

impl Transaction {
    /// The bookings of the store when the transaction began.
    pub closed spec fn base_bookings(&self) -> Seq<Booking> {
        self.base_bookings@
    }

    /// The whitelist entries of the store when the transaction began.
    pub closed spec fn base_entries(&self) -> Seq<WhitelistEntry> {
        self.base_entries@
    }

    pub closed spec fn staged_entry(&self) -> Option<WhitelistEntry> {
        self.entry
    }

    pub closed spec fn staged_update(&self) -> Option<(usize, Booking)> {
        self.update
    }

    /// The transaction was opened on `store` as it stands, and what it stages
    /// keeps the store well formed.
    pub closed spec fn open_on(&self, store: &MemoryStore) -> bool {
        &&& self.base_bookings@ == store.bookings@
        &&& self.base_entries@ == store.entries@
        &&& store.next_id <= self.next_id
        &&& (self.entry is None ==> self.next_id == store.next_id)
        &&& (self.entry matches Some(e) ==> {
            &&& e.id == store.next_id
            &&& self.next_id == store.next_id + 1
        })
        &&& (self.update matches Some((i, b)) ==> {
            &&& i < store.bookings@.len()
            &&& b.wf()
            &&& b.id == store.bookings@[i as int].id
            &&& self.entry is Some
            &&& b.whitelist_entry_id == Some(self.entry->0.id)
        })
    }

    /// Stages a whitelist entry for the caller of `b`, created at `now`, and
    /// returns it.
    ///
    /// Fails with `Database` when identifiers have run out.
    pub fn insert_whitelist_entry(&mut self, store: &MemoryStore, b: &Booking, now: i64) -> (r: Result<WhitelistEntry, AppError>)
        requires
            old(self).open_on(store),
            old(self).staged_entry() is None,
        ensures
            final(self).open_on(store),
            final(self).staged_update() == old(self).staged_update(),
            store.next_id() == u128::MAX ==> (r matches Err(AppError::Database(_))) && final(self).staged_entry() is None,
            store.next_id() < u128::MAX ==> r == Ok::<WhitelistEntry, AppError>(entry_for(*b, store.next_id(), now))
                && final(self).staged_entry() == Some(entry_for(*b, store.next_id(), now)),
    {
        if self.next_id == u128::MAX {
            return Err(AppError::Database(String::from_str("identifiers exhausted")));
        }
        let id = self.next_id;
        let e = WhitelistEntry::for_booking(b, id, now);
        let staged = WhitelistEntry::for_booking(b, id, now);
        self.entry = Some(staged);
        self.next_id = id + 1;
        Ok(e)
    }

    /// Stages the approval of the booking `id` with the whitelist entry
    /// `entry_id`, at `now`, and returns the booking as it will be.
    ///
    /// The update touches only a pending booking: it fails with `Conflict` when
    /// the booking is resolved, `NotFound` when it is absent, and `BadRequest`
    /// when `entry_id` is not the entry staged in this transaction.
    pub fn update_booking_approved(&mut self, store: &MemoryStore, id: u128, entry_id: u128, now: i64) -> (r: Result<Booking, AppError>)
        requires
            store.wf(),
            old(self).open_on(store),
            old(self).staged_update() is None,
        ensures
            final(self).open_on(store),
            final(self).staged_entry() == old(self).staged_entry(),
            r is Err ==> final(self).staged_update() is None,
            store.index_of(id) is None ==> r == Err::<Booking, AppError>(AppError::NotFound),
            store.index_of(id) matches Some(i) ==> {
                let b = store.bookings()[i];
                &&& b.status != BookingStatus::Pending ==> r == Err::<Booking, AppError>(AppError::Conflict)
                &&& b.status == BookingStatus::Pending && old(self).staged_entry() is Some
                    && old(self).staged_entry()->0.id == entry_id
                    ==> r == Ok::<Booking, AppError>(approved(b, entry_id, now))
                        && final(self).staged_update() == Some((i as usize, approved(b, entry_id, now)))
                &&& b.status == BookingStatus::Pending && !(old(self).staged_entry() is Some
                    && old(self).staged_entry()->0.id == entry_id) ==> (r matches Err(AppError::BadRequest(_)))
            },
    {
        let i = match store.find_index(id) {
            Some(i) => i,
            None => {
                return Err(AppError::NotFound);
            },
        };
        if store.bookings[i].status != BookingStatus::Pending {
            return Err(AppError::Conflict);
        }
        match &self.entry {
            Some(e) => {
                if e.id != entry_id {
                    return Err(AppError::BadRequest(String::from_str("unknown whitelist entry")));
                }
            },
            None => {
                return Err(AppError::BadRequest(String::from_str("unknown whitelist entry")));
            },
        }
        let b = store.bookings[i].approve(entry_id, now);
        let staged = b.duplicate();
        self.update = Some((i, staged));
        Ok(b)
    }
}

/// In a well-formed store, the booking found under an identifier is the one
/// booking that carries it.
pub proof fn lemma_index_of_unique(store: &MemoryStore, id: u128, i: int)
    requires
        store.wf(),
        0 <= i < store.bookings().len(),
        store.bookings()[i].id == id,
    ensures
        store.index_of(id) == Some(i),
{
    assert(has_booking(store.bookings(), id));
    let k = store.index_of(id)->0;
    if k < i {
        assert(store.bookings()[k].id != store.bookings()[i].id);
    } else if k > i {
        assert(store.bookings()[i].id != store.bookings()[k].id);
    }
}

/// Writes staged in an open transaction are invisible: while it is open, the
/// store holds exactly the bookings and whitelist entries it held when the
/// transaction began, whatever the transaction has staged or failed to stage.
pub proof fn lemma_open_transaction_invisible(store: &MemoryStore, tx: &Transaction)
    requires
        tx.open_on(store),
    ensures
        store.bookings() == tx.base_bookings(),
        store.entries() == tx.base_entries(),
{
}

} // verus!
