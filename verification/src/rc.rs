//! Immutable reference counted pointers.
//!
//! A cell holds a payload and the number of handles that refer to it. A handle
//! is made together with its cell, duplicated by `clone`, and given up by
//! `release`; the cell is freed when its last handle is released. The payload
//! can be read through any handle and never changed.

use crate::count::{clones, releases, Step};
use crate::kinds::{Freeze, Send};
use core::marker::PhantomData;
use vstd::prelude::*;

verus! {

/// What a handle stands for: the slot of its cell, and the name under which the
/// cell counts this handle among its owners.
pub struct Handle {
    pub slot: nat,
    pub id: nat,
}

/// A cell as contracts see it.
pub struct RcCell<T> {
    /// The payload.
    pub value: T,
    /// The number of handles that refer to the cell.
    pub count: nat,
    /// The names of those handles.
    pub owners: Set<nat>,
}

/// The count of a cell is the number of its owners, and a cell that exists has
/// at least one.
pub open spec fn cell_ok<T>(cell: RcCell<T>) -> bool {
    &&& cell.owners.finite()
    &&& cell.owners.len() == cell.count
    &&& cell.count >= 1
}

/// `h` refers to a cell of `cells` that counts it among its owners.
pub open spec fn live<T>(cells: Map<nat, RcCell<T>>, h: Handle) -> bool {
    cells.dom().contains(h.slot) && cells[h.slot].owners.contains(h.id)
}

/// The payload that is read through `h`.
pub open spec fn observed<T>(cells: Map<nat, RcCell<T>>, h: Handle) -> T {
    cells[h.slot].value
}

/// The cells after a cell for `value` was made at `h.slot`, owned by `h` alone.
pub open spec fn allocated<T>(cells: Map<nat, RcCell<T>>, h: Handle, value: T) -> Map<
    nat,
    RcCell<T>,
> {
    cells.insert(h.slot, RcCell { value, count: 1, owners: Set::empty().insert(h.id) })
}

/// The cells after the cell at `slot` got one more owner, `id`.
pub open spec fn shared<T>(cells: Map<nat, RcCell<T>>, slot: nat, id: nat) -> Map<nat, RcCell<T>> {
    cells.insert(
        slot,
        RcCell {
            value: cells[slot].value,
            count: cells[slot].count + 1,
            owners: cells[slot].owners.insert(id),
        },
    )
}

/// The cells after `h` gave up its share: the cell is freed if `h` was its last
/// owner, and has one owner less otherwise.
pub open spec fn released<T>(cells: Map<nat, RcCell<T>>, h: Handle) -> Map<nat, RcCell<T>> {
    if cells[h.slot].count == 1 {
        cells.remove(h.slot)
    } else {
        cells.insert(
            h.slot,
            RcCell {
                value: cells[h.slot].value,
                count: (cells[h.slot].count - 1) as nat,
                owners: cells[h.slot].owners.remove(h.id),
            },
        )
    }
}

struct RcBox<T> {
    value: T,
    count: usize,
    owners: Ghost<Set<nat>>,
    fresh: Ghost<nat>,
}

impl<T> RcBox<T> {
    spec fn cell(self) -> RcCell<T> {
        RcCell { value: self.value, count: self.count as nat, owners: self.owners@ }
    }

    spec fn names_below_fresh(self) -> bool {
        forall|id: nat| self.owners@.contains(id) ==> id < self.fresh@
    }
}

/// The cells of one task's `Rc` handles.
pub struct RcHeap<T> {
    /// The slots: each holds a cell, boxed, or is empty.
    cells: Vec<Option<Box<RcBox<T>>>>,
    /// The empty slots that held a cell before, to be used again.
    free: Vec<usize>,
}

impl<T> View for RcHeap<T> {
    type V = Map<nat, RcCell<T>>;

    closed spec fn view(&self) -> Map<nat, RcCell<T>> {
        Map::new(
            |slot: nat| slot < self.cells@.len() && self.cells@[slot as int] is Some,
            |slot: nat| self.cells@[slot as int]->0.cell(),
        )
    }
}

impl<T> RcHeap<T> {
    /// What the heap keeps to itself: every owner's name was handed out by its
    /// cell, and the slots that are kept to be used again are empty, each of
    /// them kept once.
    pub closed spec fn inv(&self) -> bool {
        &&& forall|i: int|
            0 <= i < self.cells@.len() && (#[trigger] self.cells@[i]) is Some
                ==> self.cells@[i]->0.names_below_fresh()
        &&& forall|k: int|
            0 <= k < self.free@.len() ==> (#[trigger] self.free@[k]) < self.cells@.len()
                && self.cells@[self.free@[k] as int] is None
        &&& forall|k: int, l: int|
            0 <= k < l < self.free@.len() ==> self.free@[k] != self.free@[l]
    }

    /// Every cell of the heap counts its owners, and has one at least.
    pub open spec fn wf(&self) -> bool {
        &&& self.inv()
        &&& forall|slot: nat| self@.dom().contains(slot) ==> cell_ok(#[trigger] self@[slot])
    }

    /// A heap without cells.
    pub fn new() -> (heap: RcHeap<T>)
        ensures
            heap.wf(),
            heap@ == Map::<nat, RcCell<T>>::empty(),
    {
        RcHeap { cells: Vec::new(), free: Vec::new() }
    }

    /// Whether a cell stands at `slot`.
    pub fn is_allocated(&self, slot: usize) -> (r: bool)
        ensures
            r == self@.dom().contains(slot as nat),
    {
        slot < self.cells.len() && self.cells[slot].is_some()
    }

    /// Makes a cell for `value` with a count of one, in a slot that was freed
    /// or else in a new one, and returns the slot. The payload is moved into
    /// the cell.
    fn allocate(&mut self, value: T) -> (slot: usize)
        requires
            old(self).wf(),
        ensures
            final(self).wf(),
            !old(self)@.dom().contains(slot as nat),
            final(self)@ == allocated(old(self)@, Handle { slot: slot as nat, id: 0 }, value),
    {
        let owners = Ghost(Set::<nat>::empty().insert(0));
        let cell = Box::new(RcBox { value, count: 1, owners, fresh: Ghost(1) });
        let slot = match self.free.pop() {
            Some(slot) => {
                self.cells[slot] = Some(cell);
                slot
            },
            None => {
                self.cells.push(Some(cell));
                self.cells.len() - 1
            },
        };
        assert(self@ =~= allocated(old(self)@, Handle { slot: slot as nat, id: 0 }, value));
        slot
    }

    /// Frees the cell at `slot`: its payload is dropped, its memory is given
    /// back, and the slot is empty until a new cell is made in it.
    fn deallocate(&mut self, slot: usize)
        requires
            old(self).inv(),
            old(self)@.dom().contains(slot as nat),
        ensures
            final(self).inv(),
            final(self)@ == old(self)@.remove(slot as nat),
    {
        self.cells[slot] = None;
        self.free.push(slot);
    }
}

/// Immutable reference counted pointer type.
///
/// A handle owns one share of its cell's count until it is released. A handle
/// that was released, or whose share was taken out of it, is empty.
///
/// A handle is never `Send`, and `Freeze` only if its payload is: a payload
/// that holds handles cannot be changed, so that cells never form a cycle.
pub struct Rc<T> {
    slot: Option<usize>,
    id: Ghost<nat>,
    marker: PhantomData<std::rc::Rc<T>>,
}

impl<T: Freeze> Freeze for Rc<T> {

}

impl<T> View for Rc<T> {
    type V = Option<Handle>;

    closed spec fn view(&self) -> Option<Handle> {
        match self.slot {
            Some(slot) => Some(Handle { slot: slot as nat, id: self.id@ }),
            None => None,
        }
    }
}

impl<T> Rc<T> {
    /// The handle holds a share of a cell of `heap`.
    pub open spec fn valid_in(&self, heap: &RcHeap<T>) -> bool {
        self@ is Some && live(heap@, self@->0)
    }

    fn new(heap: &mut RcHeap<T>, value: T) -> (rc: Rc<T>)
        requires
            old(heap).wf(),
        ensures
            final(heap).wf(),
            rc@ is Some,
            !old(heap)@.dom().contains(rc@->0.slot),
            final(heap)@ == allocated(old(heap)@, rc@->0, value),
    {
        let slot = heap.allocate(value);
        Rc { slot: Some(slot), id: Ghost(0), marker: PhantomData }
    }

    /// The payload of the handle's cell, for reading. The reference borrows the
    /// handle and the heap, so it is good for no longer than the handle holds
    /// its share, and nothing changes the payload: any number of readers may
    /// hold such a reference at once.
    pub fn borrow<'r>(&'r self, heap: &'r RcHeap<T>) -> (value: &'r T)
        requires
            heap.wf(),
            self.valid_in(heap),
        ensures
            *value == observed(heap@, self@->0),
    {
        match &heap.cells[self.slot.unwrap()] {
            Some(cell) => &cell.value,
            None => vstd::pervasive::unreached(),
        }
    }

    /// Return a shallow copy of the reference counted pointer: a second handle
    /// to the same cell, which counts one owner more.
    pub fn clone(&self, heap: &mut RcHeap<T>) -> (rc: Rc<T>)
        requires
            old(heap).wf(),
            self.valid_in(old(heap)),
            old(heap)@[self@->0.slot].count < usize::MAX,
        ensures
            final(heap).wf(),
            rc@ is Some,
            rc@->0.slot == self@->0.slot,
            !old(heap)@[self@->0.slot].owners.contains(rc@->0.id),
            final(heap)@ == shared(old(heap)@, self@->0.slot, rc@->0.id),
    {
        let slot = self.slot.unwrap();
        let ghost id = heap.cells@[slot as int]->0.fresh@;
        match &mut heap.cells[slot] {
            Some(cell) => {
                cell.count = cell.count + 1;
                proof {
                    cell.owners@ = cell.owners@.insert(id);
                    cell.fresh@ = id + 1;
                }
            },
            None => {},
        }
        assert(heap@ =~= shared(old(heap)@, slot as nat, id));
        Rc { slot: Some(slot), id: Ghost(id), marker: PhantomData }
    }

    /// The number of handles that refer to this handle's cell.
    pub fn count(&self, heap: &RcHeap<T>) -> (n: usize)
        requires
            heap.wf(),
            self.valid_in(heap),
        ensures
            n == heap@[self@->0.slot].count,
    {
        match &heap.cells[self.slot.unwrap()] {
            Some(cell) => cell.count,
            None => vstd::pervasive::unreached(),
        }
    }

    /// The slot of the handle's cell, or `None` for an empty handle.
    pub fn slot(&self) -> (slot: Option<usize>)
        ensures
            slot is Some == self@ is Some,
            slot is Some ==> slot->0 == self@->0.slot,
    {
        self.slot
    }

    /// Whether the handle holds no share: it was released, or its share was
    /// taken out of it.
    pub fn is_empty(&self) -> (r: bool)
        ensures
            r == self@ is None,
    {
        self.slot.is_none()
    }

    /// Moves the share out into a new handle and leaves this one empty, so that
    /// releasing both gives the share up once.
    pub fn take(&mut self) -> (rc: Rc<T>)
        ensures
            rc@ == old(self)@,
            final(self)@ is None,
    {
        let slot = self.slot.take();
        Rc { slot, id: Ghost(self.id@), marker: PhantomData }
    }

    /// Gives up the handle's share and leaves the handle empty. The cell loses
    /// one owner, and is freed, payload and all, if that was its last. On an
    /// empty handle this does nothing.
    pub fn release(&mut self, heap: &mut RcHeap<T>)
        requires
            old(heap).wf(),
            old(self)@ is Some ==> live(old(heap)@, old(self)@->0),
        ensures
            final(heap).wf(),
            final(self)@ is None,
            old(self)@ is None ==> final(heap)@ == old(heap)@,
            old(self)@ is Some ==> final(heap)@ == released(old(heap)@, old(self)@->0),
    {
        match self.slot {
            Some(slot) => {
                let ghost id = self.id@;
                let mut last = false;
                match &mut heap.cells[slot] {
                    Some(cell) => {
                        cell.count = cell.count - 1;
                        proof {
                            cell.owners@ = cell.owners@.remove(id);
                        }
                        last = cell.count == 0;
                    },
                    None => {},
                }
                if last {
                    heap.deallocate(slot);
                }
                assert(heap@ =~= released(old(heap)@, old(self)@->0));
                self.slot = None;
            },
            None => {},
        }
    }
}

impl<T: Clone> Rc<T> {
    /// Return a deep copy of the reference counted pointer: a handle to a new
    /// cell, which holds a clone of the payload and shares nothing with the
    /// cell of this handle.
    pub fn deep_clone(&self, heap: &mut RcHeap<T>) -> (rc: Rc<T>)
        requires
            old(heap).wf(),
            self.valid_in(old(heap)),
        ensures
            final(heap).wf(),
            rc@ is Some,
            !old(heap)@.dom().contains(rc@->0.slot),
            cloned(observed(old(heap)@, self@->0), observed(final(heap)@, rc@->0)),
            final(heap)@ == allocated(old(heap)@, rc@->0, observed(final(heap)@, rc@->0)),
    {
        let value = self.borrow(heap).clone();
        Rc::new(heap, value)
    }
}

/// A handle to a new cell that holds `value`, for a payload that owns what it
/// holds.
pub fn rc_from_owned<T: Send>(heap: &mut RcHeap<T>, value: T) -> (rc: Rc<T>)
    requires
        old(heap).wf(),
    ensures
        final(heap).wf(),
        rc@ is Some,
        !old(heap)@.dom().contains(rc@->0.slot),
        final(heap)@ == allocated(old(heap)@, rc@->0, value),
{
    Rc::new(heap, value)
}

/// A handle to a new cell that holds `value`, for a payload that is deeply
/// immutable.
pub fn rc_from_const<T: Freeze>(heap: &mut RcHeap<T>, value: T) -> (rc: Rc<T>)
    requires
        old(heap).wf(),
    ensures
        final(heap).wf(),
        rc@ is Some,
        !old(heap)@.dom().contains(rc@->0.slot),
        final(heap)@ == allocated(old(heap)@, rc@->0, value),
{
    Rc::new(heap, value)
}

/// The event can happen to the cell at `slot`: a clone needs a cell and a name
/// that the cell has not in use, a release needs a handle that owns a share.
pub open spec fn step_ok<T>(cells: Map<nat, RcCell<T>>, slot: nat, step: Step) -> bool {
    match step {
        Step::Clone { id } => cells.dom().contains(slot) && !cells[slot].owners.contains(id),
        Step::Release { id } => live(cells, Handle { slot, id }),
    }
}

/// The cells after the event.
pub open spec fn after_step<T>(cells: Map<nat, RcCell<T>>, slot: nat, step: Step) -> Map<
    nat,
    RcCell<T>,
> {
    match step {
        Step::Clone { id } => shared(cells, slot, id),
        Step::Release { id } => released(cells, Handle { slot, id }),
    }
}

/// The cells after the events of `steps`, in their order.
pub open spec fn after_steps<T>(cells: Map<nat, RcCell<T>>, slot: nat, steps: Seq<Step>) -> Map<
    nat,
    RcCell<T>,
>
    decreases steps.len(),
{
    if steps.len() == 0 {
        cells
    } else {
        after_step(after_steps(cells, slot, steps.drop_last()), slot, steps.last())
    }
}

/// Each event of `steps` can happen when its turn comes.
pub open spec fn steps_ok<T>(cells: Map<nat, RcCell<T>>, slot: nat, steps: Seq<Step>) -> bool
    decreases steps.len(),
{
    steps.len() == 0 || (steps_ok(cells, slot, steps.drop_last()) && step_ok(
        after_steps(cells, slot, steps.drop_last()),
        slot,
        steps.last(),
    ))
}

/// Reading through a handle right after its cell was made observes the value
/// that the cell was made from, and the handle is the cell's only owner.
pub proof fn lemma_construction_is_observed<T>(cells: Map<nat, RcCell<T>>, h: Handle, value: T)
    ensures
        live(allocated(cells, h, value), h),
        observed(allocated(cells, h, value), h) == value,
        cell_ok(allocated(cells, h, value)[h.slot]),
        allocated(cells, h, value)[h.slot].count == 1,
{
}

/// A shallow copy refers to the cell of its source: both handles own a share of
/// it and observe the same payload, and no other cell is made or changed.
pub proof fn lemma_clone_shares_cell<T>(cells: Map<nat, RcCell<T>>, h: Handle, id: nat)
    requires
        live(cells, h),
        !cells[h.slot].owners.contains(id),
    ensures
        live(shared(cells, h.slot, id), h),
        live(shared(cells, h.slot, id), Handle { slot: h.slot, id }),
        observed(shared(cells, h.slot, id), Handle { slot: h.slot, id }) == observed(cells, h),
        shared(cells, h.slot, id).dom() == cells.dom(),
        forall|s: nat| s != h.slot ==> shared(cells, h.slot, id)[s] == cells[s],
{
}

/// A deep copy refers to a cell of its own: the cell of the source is as it
/// was, with the owners and the count it had, and releasing either handle
/// leaves the other one its cell and its payload.
pub proof fn lemma_deep_clone_is_independent<T>(
    cells: Map<nat, RcCell<T>>,
    h: Handle,
    copy: Handle,
    value: T,
)
    requires
        live(cells, h),
        !cells.dom().contains(copy.slot),
    ensures
        allocated(cells, copy, value)[h.slot] == cells[h.slot],
        live(released(allocated(cells, copy, value), h), copy),
        observed(released(allocated(cells, copy, value), h), copy) == value,
        live(released(allocated(cells, copy, value), copy), h),
        observed(released(allocated(cells, copy, value), copy), h) == observed(cells, h),
{
}

/// The count of a cell is the number of handles that were made for it and not
/// released since. After any events that can happen to a cell, the cell is
/// freed if and only if as many handles were released as the cell counted at
/// first and were cloned since; until then it holds its payload and counts
/// the handles that are left. No event touches another cell.
pub proof fn lemma_count_invariant<T>(cells: Map<nat, RcCell<T>>, slot: nat, steps: Seq<Step>)
    requires
        cells.dom().contains(slot),
        cell_ok(cells[slot]),
        steps_ok(cells, slot, steps),
    ensures
        releases(steps) <= cells[slot].count + clones(steps),
        after_steps(cells, slot, steps).dom().contains(slot) <==> releases(steps)
            < cells[slot].count + clones(steps),
        after_steps(cells, slot, steps).dom().contains(slot) ==> {
            let cell = after_steps(cells, slot, steps)[slot];
            &&& cell_ok(cell)
            &&& cell.count == cells[slot].count + clones(steps) - releases(steps)
            &&& cell.value == cells[slot].value
        },
        after_steps(cells, slot, steps).remove(slot) == cells.remove(slot),
    decreases steps.len(),
{
    if steps.len() > 0 {
        lemma_count_invariant(cells, slot, steps.drop_last());
    }
}

/// A cell is freed once: in any events that can happen to a cell, the cell is
/// there before each of them, so that only the last one can free it, and
/// nothing can happen to a cell that was freed.
pub proof fn lemma_freed_once<T>(cells: Map<nat, RcCell<T>>, slot: nat, steps: Seq<Step>, k: int)
    requires
        steps_ok(cells, slot, steps),
        0 <= k < steps.len(),
    ensures
        after_steps(cells, slot, steps.take(k)).dom().contains(slot),
    decreases steps.len(),
{
    if k < steps.len() - 1 {
        assert(steps.take(k) =~= steps.drop_last().take(k));
        lemma_freed_once(cells, slot, steps.drop_last(), k);
    }
}

/// A cell that was made with one handle is freed exactly when one handle more
/// was released than were cloned.
pub proof fn lemma_freed_with_last_handle<T>(
    cells: Map<nat, RcCell<T>>,
    h: Handle,
    value: T,
    steps: Seq<Step>,
)
    requires
        steps_ok(allocated(cells, h, value), h.slot, steps),
    ensures
        !after_steps(allocated(cells, h, value), h.slot, steps).dom().contains(h.slot)
            <==> releases(steps) == 1 + clones(steps),
{
    lemma_count_invariant(allocated(cells, h, value), h.slot, steps);
}

} // verus!
