//! The table of live workers of one host session.
//!
//! The table owns one entry per live worker, under the worker's identifier,
//! and the counter from which identifiers are taken. What an entry holds (a
//! thread to join, a handle) is the caller's: the table only keeps it.

use std::collections::HashMap;
use vstd::prelude::*;
use vstd::std_specs::hash::*;

verus! {

/// The identifier of a worker within one host session.
pub type WorkerId = u32;

/// The table as a mathematical value: the live entries and the next
/// identifier to hand out.
pub struct HostTableView<E> {
    pub entries: Map<WorkerId, E>,
    pub next_id: WorkerId,
}

impl<E> HostTableView<E> {
    /// While the counter can hand out identifiers, every live identifier
    /// lies below it: what it hands out next names no live worker.
    pub open spec fn wf(self) -> bool {
        forall|id: WorkerId|
            #[trigger] self.entries.contains_key(id) && self.can_allocate() ==> id < self.next_id
    }

    /// Whether `id` names a live worker.
    pub open spec fn is_live(self, id: WorkerId) -> bool {
        self.entries.contains_key(id)
    }

    /// Whether the counter can still hand out an identifier.
    pub open spec fn can_allocate(self) -> bool {
        self.next_id < u32::MAX
    }

    /// The table after an identifier was handed out.
    pub open spec fn allocate(self) -> HostTableView<E> {
        if self.can_allocate() {
            HostTableView { entries: self.entries, next_id: (self.next_id + 1) as u32 }
        } else {
            self
        }
    }

    /// The counter after an entry was stored under `id`: past `id`, as far
    /// as the counter reaches, and never lower than it was.
    pub open spec fn counter_past(self, id: WorkerId) -> WorkerId {
        if id < self.next_id {
            self.next_id
        } else if id < u32::MAX {
            (id + 1) as u32
        } else {
            u32::MAX
        }
    }

    /// The table after `entry` was stored under `id`: unchanged if `id` is
    /// live; else the entry is live under `id` and the counter is past `id`.
    pub open spec fn insert(self, id: WorkerId, entry: E) -> HostTableView<E> {
        if self.is_live(id) {
            self
        } else {
            HostTableView {
                entries: self.entries.insert(id, entry),
                next_id: self.counter_past(id),
            }
        }
    }

    /// The table after the entry of `id` was taken out.
    pub open spec fn remove(self, id: WorkerId) -> HostTableView<E> {
        HostTableView { entries: self.entries.remove(id), next_id: self.next_id }
    }

    /// The entry of `id`, if it is live.
    pub open spec fn get(self, id: WorkerId) -> Option<E> {
        if self.entries.contains_key(id) {
            Some(self.entries[id])
        } else {
            None
        }
    }

    /// The table after a worker was created with `entry`: it takes the next
    /// identifier, and the entry is stored under it.
    pub open spec fn create(self, entry: E) -> HostTableView<E> {
        if self.can_allocate() {
            self.allocate().insert(self.next_id, entry)
        } else {
            self
        }
    }

    /// The table after one step of a session.
    pub open spec fn step(self, step: TableStep<E>) -> HostTableView<E> {
        match step {
            TableStep::Create(entry) => self.create(entry),
            TableStep::Reclaim(id) => self.remove(id),
        }
    }

    /// The table after the steps of a session, in their order.
    pub open spec fn run(self, steps: Seq<TableStep<E>>) -> HostTableView<E>
        decreases steps.len(),
    {
        if steps.len() == 0 {
            self
        } else {
            self.step(steps[0]).run(steps.drop_first())
        }
    }
}

/// What a session does to its table: it creates a worker, or it reclaims one.
pub enum TableStep<E> {
    Create(E),
    Reclaim(WorkerId),
}

/// The identifier of a new worker names no other live worker: before the
/// creation it is not live, after it it is, and every other entry is as it
/// was.
pub proof fn law_created_id_is_unique<E>(table: HostTableView<E>, entry: E)
    requires
        table.wf(),
        table.can_allocate(),
    ensures
        !table.is_live(table.next_id),
        table.create(entry).wf(),
        table.create(entry).entries == table.entries.insert(table.next_id, entry),
        table.create(entry).next_id == table.next_id + 1,
{
}

/// Identifiers are never reused. Whatever a session goes on to do, its
/// counter does not fall, and an identifier that the counter has passed and
/// that names no live worker never names one again.
pub proof fn law_ids_are_never_reused<E>(table: HostTableView<E>, steps: Seq<TableStep<E>>)
    requires
        table.wf(),
    ensures
        table.run(steps).wf(),
        table.run(steps).next_id >= table.next_id,
        forall|id: WorkerId|
            !table.is_live(id) && (id < table.next_id || !table.can_allocate()) ==> !#[trigger] table.run(
                steps,
            ).is_live(id),
    decreases steps.len(),
{
    if steps.len() > 0 {
        let next = table.step(steps[0]);
        law_ids_are_never_reused(next, steps.drop_first());
    }
}

/// A worker is reclaimed once. Taking the entry of a live worker out hands
/// it out; taking it out again hands out nothing and changes nothing.
pub proof fn law_reclaim_happens_once<E>(table: HostTableView<E>, id: WorkerId)
    requires
        table.wf(),
    ensures
        table.remove(id).wf(),
        table.is_live(id) ==> table.get(id) is Some,
        table.remove(id).get(id) is None,
        table.remove(id).remove(id) == table.remove(id),
{
    assert(table.remove(id).entries.remove(id) =~= table.remove(id).entries);
}

/// An entry that the table did not take: its identifier names a live worker.
#[derive(Debug, PartialEq, Eq)]
pub struct Occupied<E> {
    pub entry: E,
}

/// The table of live workers. Every table that this module hands out is
/// well formed (`wf` of its view), and every method keeps it so.
pub struct HostTable<E> {
    workers: HashMap<WorkerId, E>,
    next_worker_id: WorkerId,
}

impl<E> View for HostTable<E> {
    type V = HostTableView<E>;

    closed spec fn view(&self) -> HostTableView<E> {
        HostTableView { entries: self.workers@, next_id: self.next_worker_id }
    }
}

impl<E> HostTable<E> {
    /// An empty table whose counter starts at zero.
    pub fn new() -> (table: Self)
        ensures
            table@.entries == Map::<WorkerId, E>::empty(),
            table@.next_id == 0,
            table@.wf(),
    {
        HostTable { workers: HashMap::new(), next_worker_id: 0 }
    }

    /// An empty table whose counter starts at `first_id`, for a session that
    /// handed out the identifiers below it before.
    pub fn starting_at(first_id: WorkerId) -> (table: Self)
        ensures
            table@.entries == Map::<WorkerId, E>::empty(),
            table@.next_id == first_id,
            table@.wf(),
    {
        HostTable { workers: HashMap::new(), next_worker_id: first_id }
    }

    /// Hands out the next identifier. Identifiers strictly increase and none
    /// is handed out twice, so the one returned names no live worker. Returns
    /// `None`, and changes nothing, once the counter is exhausted.
    pub fn allocate_id(&mut self) -> (id: Option<WorkerId>)
        requires
            old(self)@.wf(),
        ensures
            final(self)@.wf(),
            final(self)@ == old(self)@.allocate(),
            id == (if old(self)@.can_allocate() {
                Some(old(self)@.next_id)
            } else {
                None
            }),
            id matches Some(fresh) ==> !old(self)@.is_live(fresh) && !final(self)@.is_live(fresh),
    {
        if self.next_worker_id < u32::MAX {
            let id: WorkerId = self.next_worker_id;
            self.next_worker_id = id + 1;
            assert(self@.entries == old(self)@.entries);
            Some(id)
        } else {
            None
        }
    }

    /// Stores `entry` under `id`. Fails, handing the entry back and changing
    /// nothing, if `id` already names a live worker. An identifier that the
    /// counter has not reached moves the counter past it, so that it is not
    /// handed out while it is live.
    pub fn insert(&mut self, id: WorkerId, entry: E) -> (stored: Result<(), Occupied<E>>)
        requires
            old(self)@.wf(),
        ensures
            final(self)@.wf(),
            final(self)@ == old(self)@.insert(id, entry),
            stored is Ok <==> !old(self)@.is_live(id),
            stored is Ok ==> final(self)@.get(id) == Some(entry),
            stored matches Err(occupied) ==> occupied.entry == entry,
    {
        broadcast use group_hash_axioms;

        if self.workers.contains_key(&id) {
            Err(Occupied { entry })
        } else {
            if id >= self.next_worker_id {
                self.next_worker_id = if id < u32::MAX {
                    id + 1
                } else {
                    u32::MAX
                };
            }
            self.workers.insert(id, entry);
            assert(self@.entries == old(self)@.entries.insert(id, entry));
            Ok(())
        }
    }

    /// The entry of `id`, without taking it out.
    pub fn get(&self, id: WorkerId) -> (entry: Option<&E>)
        ensures
            match entry {
                Some(e) => self@.get(id) == Some(*e),
                None => self@.get(id) is None,
            },
    {
        broadcast use group_hash_axioms;

        self.workers.get(&id)
    }

    /// Whether `id` names a live worker.
    pub fn contains(&self, id: WorkerId) -> (live: bool)
        ensures
            live == self@.is_live(id),
    {
        broadcast use group_hash_axioms;

        self.workers.contains_key(&id)
    }

    /// Takes the entry of `id` out of the table. Returns `None`, and changes
    /// nothing, if `id` names no live worker: taking an entry out twice hands
    /// it out once.
    pub fn remove(&mut self, id: WorkerId) -> (entry: Option<E>)
        requires
            old(self)@.wf(),
        ensures
            final(self)@.wf(),
            final(self)@ == old(self)@.remove(id),
            entry == old(self)@.get(id),
            !final(self)@.is_live(id),
            !old(self)@.is_live(id) ==> final(self)@ == old(self)@,
    {
        broadcast use group_hash_axioms;

        let entry = self.workers.remove(&id);
        assert(!old(self)@.is_live(id) ==> self@.entries =~= old(self)@.entries);
        entry
    }

    /// The number of live workers.
    pub fn len(&self) -> (n: usize)
        ensures
            n == self@.entries.len(),
    {
        broadcast use group_hash_axioms;

        self.workers.len()
    }

    /// The identifier that `allocate_id` hands out next.
    pub fn next_id(&self) -> (id: WorkerId)
        ensures
            id == self@.next_id,
    {
        self.next_worker_id
    }
}

} // verus!
