//! Mutable reference counted pointers.
//!
//! The cells are counted as those of `Rc` are. Each cell keeps, besides, a tag
//! that says how its payload is borrowed at the moment. A payload is read
//! inside `with_borrow` and changed inside `with_mut_borrow`; the tag is
//! tested when such a scope is entered, so that a payload is never read while
//! it is being changed, nor changed by two scopes at once, through whichever
//! handles the scopes were entered.

use crate::count::{clones, releases, Step};
use crate::kinds::{Freeze, Send};
use core::marker::PhantomData;
use vstd::prelude::*;

verus! {

/// How the payload of a cell is borrowed.
#[derive(Clone, Copy, PartialEq, Eq, Structural, Debug)]
pub enum Borrow {
    /// A scope is changing the payload.
    Mutable,
    /// One scope or more are reading the payload.
    Immutable,
    /// No scope is open.
    Nothing,
}

impl Borrow {
    /// A scope that reads may be entered unless one that changes is open.
    pub open spec fn admits_shared(self) -> bool {
        self != Borrow::Mutable
    }

    /// A scope that changes may be entered only while no scope is open.
    pub open spec fn admits_exclusive(self) -> bool {
        self == Borrow::Nothing
    }
}

/// The refusal to enter a scope: the borrow that was open on the cell.
#[derive(Clone, Copy, PartialEq, Eq, Structural, Debug)]
pub struct AliasingViolation {
    pub active: Borrow,
}

/// What a handle stands for: the slot of its cell, and the name under which the
/// cell counts this handle among its owners.
pub struct MutHandle {
    pub slot: nat,
    pub id: nat,
}

/// A cell as contracts see it.
pub struct RcMutCell<T> {
    /// The payload.
    pub value: T,
    /// The number of handles that refer to the cell.
    pub count: nat,
    /// The names of those handles.
    pub owners: Set<nat>,
    /// How the payload is borrowed.
    pub borrow: Borrow,
}

/// The count of a cell is the number of its owners, and a cell that exists has
/// at least one.
pub open spec fn cell_ok<T>(cell: RcMutCell<T>) -> bool {
    &&& cell.owners.finite()
    &&& cell.owners.len() == cell.count
    &&& cell.count >= 1
}

/// `h` refers to a cell of `cells` that counts it among its owners.
pub open spec fn live<T>(cells: Map<nat, RcMutCell<T>>, h: MutHandle) -> bool {
    cells.dom().contains(h.slot) && cells[h.slot].owners.contains(h.id)
}

/// The payload that is read through `h`.
pub open spec fn observed<T>(cells: Map<nat, RcMutCell<T>>, h: MutHandle) -> T {
    cells[h.slot].value
}

/// The cells after a cell for `value` was made at `h.slot`, owned by `h` alone
/// and not borrowed.
pub open spec fn allocated<T>(cells: Map<nat, RcMutCell<T>>, h: MutHandle, value: T) -> Map<
    nat,
    RcMutCell<T>,
> {
    cells.insert(
        h.slot,
        RcMutCell {
            value,
            count: 1,
            owners: Set::empty().insert(h.id),
            borrow: Borrow::Nothing,
        },
    )
}

/// The cells after the cell at `slot` got one more owner, `id`.
pub open spec fn shared<T>(cells: Map<nat, RcMutCell<T>>, slot: nat, id: nat) -> Map<
    nat,
    RcMutCell<T>,
> {
    cells.insert(
        slot,
        RcMutCell {
            value: cells[slot].value,
            count: cells[slot].count + 1,
            owners: cells[slot].owners.insert(id),
            borrow: cells[slot].borrow,
        },
    )
}

/// The cells after `h` gave up its share: the cell is freed if `h` was its last
/// owner, and has one owner less otherwise.
pub open spec fn released<T>(cells: Map<nat, RcMutCell<T>>, h: MutHandle) -> Map<
    nat,
    RcMutCell<T>,
> {
    if cells[h.slot].count == 1 {
        cells.remove(h.slot)
    } else {
        cells.insert(
            h.slot,
            RcMutCell {
                value: cells[h.slot].value,
                count: (cells[h.slot].count - 1) as nat,
                owners: cells[h.slot].owners.remove(h.id),
                borrow: cells[h.slot].borrow,
            },
        )
    }
}

/// The cells with the tag of the cell at `slot` set to `borrow`.
pub open spec fn tagged<T>(cells: Map<nat, RcMutCell<T>>, slot: nat, borrow: Borrow) -> Map<
    nat,
    RcMutCell<T>,
> {
    cells.insert(
        slot,
        RcMutCell {
            value: cells[slot].value,
            count: cells[slot].count,
            owners: cells[slot].owners,
            borrow,
        },
    )
}

/// The cells with the payload of the cell at `slot` replaced by `value`.
pub open spec fn written<T>(cells: Map<nat, RcMutCell<T>>, slot: nat, value: T) -> Map<
    nat,
    RcMutCell<T>,
> {
    cells.insert(
        slot,
        RcMutCell {
            value,
            count: cells[slot].count,
            owners: cells[slot].owners,
            borrow: cells[slot].borrow,
        },
    )
}

struct RcMutBox<T> {
    value: T,
    count: usize,
    borrow: Borrow,
    owners: Ghost<Set<nat>>,
    fresh: Ghost<nat>,
}

impl<T> RcMutBox<T> {
    spec fn cell(self) -> RcMutCell<T> {
        RcMutCell {
            value: self.value,
            count: self.count as nat,
            owners: self.owners@,
            borrow: self.borrow,
        }
    }

    spec fn names_below_fresh(self) -> bool {
        forall|id: nat| self.owners@.contains(id) ==> id < self.fresh@
    }
}

/// The cells of one task's `RcMut` handles.
pub struct RcMutHeap<T> {
    /// The slots: each holds a cell, boxed, or is empty.
    cells: Vec<Option<Box<RcMutBox<T>>>>,
    /// The empty slots that held a cell before, to be used again.
    free: Vec<usize>,
}

impl<T> View for RcMutHeap<T> {
    type V = Map<nat, RcMutCell<T>>;

    closed spec fn view(&self) -> Map<nat, RcMutCell<T>> {
        Map::new(
            |slot: nat| slot < self.cells@.len() && self.cells@[slot as int] is Some,
            |slot: nat| self.cells@[slot as int]->0.cell(),
        )
    }
}

impl<T> RcMutHeap<T> {
    /// What the heap keeps to itself: every owner's name was handed out by its
    /// cell, and the slots that are kept to be used again are empty, each of
    /// them kept once.
    pub closed spec fn inv(&self) -> bool {
        &&& forall|i: int|
            0 <= i < self.cells@.len() && (#[trigger] self.cells@[i]) is Some
                ==> self.cells@[i]->0.names_below_fresh()
        &&& forall|k: int|
            0 <= k < self.free@.len() ==> (#[trigger] self.free@[k]) < self.cells@.len()
                && self.cells@[self.free@[k] as int] is None
        &&& forall|k: int, l: int|
            0 <= k < l < self.free@.len() ==> self.free@[k] != self.free@[l]
    }

    /// Every cell of the heap counts its owners, and has one at least.
    pub open spec fn wf(&self) -> bool {
        &&& self.inv()
        &&& forall|slot: nat| self@.dom().contains(slot) ==> cell_ok(#[trigger] self@[slot])
    }

    /// A heap without cells.
    pub fn new() -> (heap: RcMutHeap<T>)
        ensures
            heap.wf(),
            heap@ == Map::<nat, RcMutCell<T>>::empty(),
    {
        RcMutHeap { cells: Vec::new(), free: Vec::new() }
    }

    /// Whether a cell stands at `slot`.
    pub fn is_allocated(&self, slot: usize) -> (r: bool)
        ensures
            r == self@.dom().contains(slot as nat),
    {
        slot < self.cells.len() && self.cells[slot].is_some()
    }

    /// Makes a cell for `value` with a count of one and no borrow, in a slot
    /// that was freed or else in a new one, and returns the slot. The payload
    /// is moved into the cell.
    fn allocate(&mut self, value: T) -> (slot: usize)
        requires
            old(self).wf(),
        ensures
            final(self).wf(),
            !old(self)@.dom().contains(slot as nat),
            final(self)@ == allocated(old(self)@, MutHandle { slot: slot as nat, id: 0 }, value),
    {
        let owners = Ghost(Set::<nat>::empty().insert(0));
        let cell = Box::new(
            RcMutBox { value, count: 1, borrow: Borrow::Nothing, owners, fresh: Ghost(1) },
        );
        let slot = match self.free.pop() {
            Some(slot) => {
                self.cells[slot] = Some(cell);
                slot
            },
            None => {
                self.cells.push(Some(cell));
                self.cells.len() - 1
            },
        };
        assert(self@ =~= allocated(old(self)@, MutHandle { slot: slot as nat, id: 0 }, value));
        slot
    }

    /// Frees the cell at `slot`: its payload is dropped, its memory is given
    /// back, and the slot is empty until a new cell is made in it.
    fn deallocate(&mut self, slot: usize)
        requires
            old(self).inv(),
            old(self)@.dom().contains(slot as nat),
        ensures
            final(self).inv(),
            final(self)@ == old(self)@.remove(slot as nat),
    {
        self.cells[slot] = None;
        self.free.push(slot);
    }

    /// Sets the tag of the cell at `slot`, and returns the tag it had.
    fn retag(&mut self, slot: usize, borrow: Borrow) -> (previous: Borrow)
        requires
            old(self).wf(),
            old(self)@.dom().contains(slot as nat),
        ensures
            final(self).wf(),
            previous == old(self)@[slot as nat].borrow,
            final(self)@ == tagged(old(self)@, slot as nat, borrow),
    {
        let mut previous = Borrow::Nothing;
        match &mut self.cells[slot] {
            Some(cell) => {
                previous = cell.borrow;
                cell.borrow = borrow;
            },
            None => {},
        }
        assert(self@ =~= tagged(old(self)@, slot as nat, borrow));
        previous
    }
}

/// Mutable reference counted pointer type.
///
/// A handle owns one share of its cell's count until it is released. A handle
/// that was released, or whose share was taken out of it, is empty.
///
/// A handle is never `Send` and never `Freeze`: no payload can hold one, so
/// that cells never form a cycle.
pub struct RcMut<T> {
    slot: Option<usize>,
    id: Ghost<nat>,
    marker: PhantomData<std::rc::Rc<T>>,
}

impl<T> View for RcMut<T> {
    type V = Option<MutHandle>;

    closed spec fn view(&self) -> Option<MutHandle> {
        match self.slot {
            Some(slot) => Some(MutHandle { slot: slot as nat, id: self.id@ }),
            None => None,
        }
    }
}

impl<T> RcMut<T> {
    /// The handle holds a share of a cell of `heap`.
    pub open spec fn valid_in(&self, heap: &RcMutHeap<T>) -> bool {
        self@ is Some && live(heap@, self@->0)
    }

    fn new(heap: &mut RcMutHeap<T>, value: T) -> (rc: RcMut<T>)
        requires
            old(heap).wf(),
        ensures
            final(heap).wf(),
            rc@ is Some,
            !old(heap)@.dom().contains(rc@->0.slot),
            final(heap)@ == allocated(old(heap)@, rc@->0, value),
    {
        let slot = heap.allocate(value);
        RcMut { slot: Some(slot), id: Ghost(0), marker: PhantomData }
    }

    /// How the payload of the handle's cell is borrowed at the moment.
    pub fn borrow_state(&self, heap: &RcMutHeap<T>) -> (borrow: Borrow)
        requires
            heap.wf(),
            self.valid_in(heap),
        ensures
            borrow == heap@[self@->0.slot].borrow,
    {
        match &heap.cells[self.slot.unwrap()] {
            Some(cell) => cell.borrow,
            None => vstd::pervasive::unreached(),
        }
    }

    /// The payload, for reading, inside a scope that reads.
    pub fn get<'r>(&'r self, heap: &'r RcMutHeap<T>) -> (value: &'r T)
        requires
            heap.wf(),
            self.valid_in(heap),
            heap@[self@->0.slot].borrow == Borrow::Immutable,
        ensures
            *value == observed(heap@, self@->0),
    {
        match &heap.cells[self.slot.unwrap()] {
            Some(cell) => &cell.value,
            None => vstd::pervasive::unreached(),
        }
    }

    /// The payload, for changing, inside the scope that changes it. What the
    /// reference holds when it is given back is the cell's new payload.
    pub fn get_mut<'r>(&'r self, heap: &'r mut RcMutHeap<T>) -> (value: &'r mut T)
        requires
            old(heap).wf(),
            self.valid_in(old(heap)),
            old(heap)@[self@->0.slot].borrow == Borrow::Mutable,
        ensures
            *value == observed(old(heap)@, self@->0),
            final(heap).wf(),
            final(heap)@ == written(old(heap)@, self@->0.slot, *final(value)),
    {
        let slot = self.slot.unwrap();
        let value = match &mut heap.cells[slot] {
            Some(cell) => &mut cell.value,
            None => vstd::pervasive::unreached(),
        };
        assert(after_borrow(*heap)@ =~= written(old(heap)@, slot as nat, *final(value)));
        value
    }

    /// Runs `f` inside a scope that reads the payload: the cell is tagged
    /// `Immutable` while `f` runs and gets back the tag it had when `f` has
    /// returned, so that scopes that read may be nested.
    ///
    /// The cell must not be tagged `Mutable`. `f` must leave this handle its share.
    pub fn with_borrow<U, F: FnOnce(&mut RcMutHeap<T>) -> U>(
        &self,
        heap: &mut RcMutHeap<T>,
        f: F,
    ) -> (res: U)
        requires
            old(heap).wf(),
            self.valid_in(old(heap)),
            old(heap)@[self@->0.slot].borrow.admits_shared(),
            forall|h: &mut RcMutHeap<T>|
                h.wf() && h@ == tagged(old(heap)@, self@->0.slot, Borrow::Immutable)
                    ==> f.requires((h,)),
            forall|h: &mut RcMutHeap<T>, u: U|
                h.wf() && h@ == tagged(old(heap)@, self@->0.slot, Borrow::Immutable)
                    && f.ensures((h,), u) ==> final(h).wf() && live(final(h)@, self@->0),
        ensures
            final(heap).wf(),
            exists|h: &mut RcMutHeap<T>|
                h.wf() && h@ == tagged(old(heap)@, self@->0.slot, Borrow::Immutable)
                    && f.ensures((h,), res) && final(heap)@ == tagged(
                    final(h)@,
                    self@->0.slot,
                    old(heap)@[self@->0.slot].borrow,
                ),
    {
        let slot = self.slot.unwrap();
        let previous = heap.retag(slot, Borrow::Immutable);
        let res = f(heap);
        heap.retag(slot, previous);
        res
    }

    /// Runs `f` inside the scope that changes the payload: the cell is tagged
    /// `Mutable` while `f` runs and `Nothing` when `f` has returned.
    ///
    /// The cell must be tagged `Nothing`. `f` must leave this handle its share.
    pub fn with_mut_borrow<U, F: FnOnce(&mut RcMutHeap<T>) -> U>(
        &self,
        heap: &mut RcMutHeap<T>,
        f: F,
    ) -> (res: U)
        requires
            old(heap).wf(),
            self.valid_in(old(heap)),
            old(heap)@[self@->0.slot].borrow.admits_exclusive(),
            forall|h: &mut RcMutHeap<T>|
                h.wf() && h@ == tagged(old(heap)@, self@->0.slot, Borrow::Mutable)
                    ==> f.requires((h,)),
            forall|h: &mut RcMutHeap<T>, u: U|
                h.wf() && h@ == tagged(old(heap)@, self@->0.slot, Borrow::Mutable)
                    && f.ensures((h,), u) ==> final(h).wf() && live(final(h)@, self@->0),
        ensures
            final(heap).wf(),
            exists|h: &mut RcMutHeap<T>|
                h.wf() && h@ == tagged(old(heap)@, self@->0.slot, Borrow::Mutable)
                    && f.ensures((h,), res) && final(heap)@ == tagged(
                    final(h)@,
                    self@->0.slot,
                    Borrow::Nothing,
                ),
    {
        let slot = self.slot.unwrap();
        heap.retag(slot, Borrow::Mutable);
        let res = f(heap);
        heap.retag(slot, Borrow::Nothing);
        res
    }

    /// Enters a scope that reads the payload, as `with_borrow` does, if the
    /// cell admits one, and refuses otherwise: while the payload is being
    /// changed, nothing is run and nothing is changed.
    pub fn try_with_borrow<U, F: FnOnce(&mut RcMutHeap<T>) -> U>(
        &self,
        heap: &mut RcMutHeap<T>,
        f: F,
    ) -> (res: Result<U, AliasingViolation>)
        requires
            old(heap).wf(),
            self.valid_in(old(heap)),
            old(heap)@[self@->0.slot].borrow.admits_shared() ==> forall|h: &mut RcMutHeap<T>|
                h.wf() && h@ == tagged(old(heap)@, self@->0.slot, Borrow::Immutable)
                    ==> f.requires((h,)),
            old(heap)@[self@->0.slot].borrow.admits_shared() ==> forall|h: &mut RcMutHeap<T>, u: U|
                h.wf() && h@ == tagged(old(heap)@, self@->0.slot, Borrow::Immutable)
                    && f.ensures((h,), u) ==> final(h).wf() && live(final(h)@, self@->0),
        ensures
            final(heap).wf(),
            res is Ok <==> old(heap)@[self@->0.slot].borrow.admits_shared(),
            res is Err ==> res->Err_0.active == old(heap)@[self@->0.slot].borrow && final(heap)@
                == old(heap)@,
            res is Ok ==> exists|h: &mut RcMutHeap<T>|
                h.wf() && h@ == tagged(old(heap)@, self@->0.slot, Borrow::Immutable)
                    && f.ensures((h,), res->Ok_0) && final(heap)@ == tagged(
                    final(h)@,
                    self@->0.slot,
                    old(heap)@[self@->0.slot].borrow,
                ),
    {
        let active = self.borrow_state(heap);
        match active {
            Borrow::Mutable => Err(AliasingViolation { active }),
            _ => Ok(self.with_borrow(heap, f)),
        }
    }

    /// Enters the scope that changes the payload, as `with_mut_borrow` does, if
    /// the cell admits it, and refuses otherwise: while any scope is open on
    /// the cell, nothing is run and nothing is changed.
    pub fn try_with_mut_borrow<U, F: FnOnce(&mut RcMutHeap<T>) -> U>(
        &self,
        heap: &mut RcMutHeap<T>,
        f: F,
    ) -> (res: Result<U, AliasingViolation>)
        requires
            old(heap).wf(),
            self.valid_in(old(heap)),
            old(heap)@[self@->0.slot].borrow.admits_exclusive() ==> forall|h: &mut RcMutHeap<T>|
                h.wf() && h@ == tagged(old(heap)@, self@->0.slot, Borrow::Mutable)
                    ==> f.requires((h,)),
            old(heap)@[self@->0.slot].borrow.admits_exclusive() ==> forall|h: &mut RcMutHeap<T>, u: U|
                h.wf() && h@ == tagged(old(heap)@, self@->0.slot, Borrow::Mutable)
                    && f.ensures((h,), u) ==> final(h).wf() && live(final(h)@, self@->0),
        ensures
            final(heap).wf(),
            res is Ok <==> old(heap)@[self@->0.slot].borrow.admits_exclusive(),
            res is Err ==> res->Err_0.active == old(heap)@[self@->0.slot].borrow && final(heap)@
                == old(heap)@,
            res is Ok ==> exists|h: &mut RcMutHeap<T>|
                h.wf() && h@ == tagged(old(heap)@, self@->0.slot, Borrow::Mutable)
                    && f.ensures((h,), res->Ok_0) && final(heap)@ == tagged(
                    final(h)@,
                    self@->0.slot,
                    Borrow::Nothing,
                ),
    {
        let active = self.borrow_state(heap);
        match active {
            Borrow::Nothing => Ok(self.with_mut_borrow(heap, f)),
            _ => Err(AliasingViolation { active }),
        }
    }

    /// Return a shallow copy of the reference counted pointer: a second handle
    /// to the same cell, which counts one owner more. The two handles see one
    /// payload and one tag.
    pub fn clone(&self, heap: &mut RcMutHeap<T>) -> (rc: RcMut<T>)
        requires
            old(heap).wf(),
            self.valid_in(old(heap)),
            old(heap)@[self@->0.slot].count < usize::MAX,
        ensures
            final(heap).wf(),
            rc@ is Some,
            rc@->0.slot == self@->0.slot,
            !old(heap)@[self@->0.slot].owners.contains(rc@->0.id),
            final(heap)@ == shared(old(heap)@, self@->0.slot, rc@->0.id),
    {
        let slot = self.slot.unwrap();
        let ghost id = heap.cells@[slot as int]->0.fresh@;
        match &mut heap.cells[slot] {
            Some(cell) => {
                cell.count = cell.count + 1;
                proof {
                    cell.owners@ = cell.owners@.insert(id);
                    cell.fresh@ = id + 1;
                }
            },
            None => {},
        }
        assert(heap@ =~= shared(old(heap)@, slot as nat, id));
        RcMut { slot: Some(slot), id: Ghost(id), marker: PhantomData }
    }

    /// The number of handles that refer to this handle's cell.
    pub fn count(&self, heap: &RcMutHeap<T>) -> (n: usize)
        requires
            heap.wf(),
            self.valid_in(heap),
        ensures
            n == heap@[self@->0.slot].count,
    {
        match &heap.cells[self.slot.unwrap()] {
            Some(cell) => cell.count,
            None => vstd::pervasive::unreached(),
        }
    }

    /// The slot of the handle's cell, or `None` for an empty handle.
    pub fn slot(&self) -> (slot: Option<usize>)
        ensures
            slot is Some == self@ is Some,
            slot is Some ==> slot->0 == self@->0.slot,
    {
        self.slot
    }

    /// Whether the handle holds no share: it was released, or its share was
    /// taken out of it.
    pub fn is_empty(&self) -> (r: bool)
        ensures
            r == self@ is None,
    {
        self.slot.is_none()
    }

    /// Moves the share out into a new handle and leaves this one empty, so that
    /// releasing both gives the share up once.
    pub fn take(&mut self) -> (rc: RcMut<T>)
        ensures
            rc@ == old(self)@,
            final(self)@ is None,
    {
        let slot = self.slot.take();
        RcMut { slot, id: Ghost(self.id@), marker: PhantomData }
    }

    /// Gives up the handle's share and leaves the handle empty. The cell loses
    /// one owner, and is freed, payload and all, if that was its last; how the
    /// cell is borrowed plays no part. On an empty handle this does nothing.
    pub fn release(&mut self, heap: &mut RcMutHeap<T>)
        requires
            old(heap).wf(),
            old(self)@ is Some ==> live(old(heap)@, old(self)@->0),
        ensures
            final(heap).wf(),
            final(self)@ is None,
            old(self)@ is None ==> final(heap)@ == old(heap)@,
            old(self)@ is Some ==> final(heap)@ == released(old(heap)@, old(self)@->0),
    {
        match self.slot {
            Some(slot) => {
                let ghost id = self.id@;
                let mut last = false;
                match &mut heap.cells[slot] {
                    Some(cell) => {
                        cell.count = cell.count - 1;
                        proof {
                            cell.owners@ = cell.owners@.remove(id);
                        }
                        last = cell.count == 0;
                    },
                    None => {},
                }
                if last {
                    heap.deallocate(slot);
                }
                assert(heap@ =~= released(old(heap)@, old(self)@->0));
                self.slot = None;
            },
            None => {},
        }
    }
}

impl<T: Clone> RcMut<T> {
    /// Return a deep copy of the reference counted pointer: a handle to a new
    /// cell, not borrowed, which holds a clone of the payload and shares
    /// nothing with the cell of this handle. The payload is read inside a
    /// scope of its own, so the cell must not be tagged `Mutable`.
    pub fn deep_clone(&self, heap: &mut RcMutHeap<T>) -> (rc: RcMut<T>)
        requires
            old(heap).wf(),
            self.valid_in(old(heap)),
            old(heap)@[self@->0.slot].borrow.admits_shared(),
        ensures
            final(heap).wf(),
            rc@ is Some,
            !old(heap)@.dom().contains(rc@->0.slot),
            cloned(observed(old(heap)@, self@->0), observed(final(heap)@, rc@->0)),
            final(heap)@ == allocated(old(heap)@, rc@->0, observed(final(heap)@, rc@->0)),
    {
        let ghost before = heap@;
        let ghost this = self@->0;
        let copy = |h: &mut RcMutHeap<T>| -> (rc: RcMut<T>)
            requires
                h.wf(),
                h@ == tagged(before, this.slot, Borrow::Immutable),
            ensures
                final(h).wf(),
                rc@ is Some,
                !old(h)@.dom().contains(rc@.unwrap().slot),
                cloned(observed(old(h)@, this), observed(final(h)@, rc@.unwrap())),
                final(h)@ == allocated(old(h)@, rc@.unwrap(), observed(final(h)@, rc@.unwrap())),
            {
                let value = self.get(h).clone();
                RcMut::new(h, value)
            };
        self.with_borrow(heap, copy)
    }
}

/// A handle to a new cell that holds `value` and is not borrowed, for a payload
/// that owns what it holds.
pub fn rc_mut_from_owned<T: Send>(heap: &mut RcMutHeap<T>, value: T) -> (rc: RcMut<T>)
    requires
        old(heap).wf(),
    ensures
        final(heap).wf(),
        rc@ is Some,
        !old(heap)@.dom().contains(rc@->0.slot),
        final(heap)@ == allocated(old(heap)@, rc@->0, value),
{
    RcMut::new(heap, value)
}

/// A handle to a new cell that holds `value` and is not borrowed, for a payload
/// that is deeply immutable.
pub fn rc_mut_from_const<T: Freeze>(heap: &mut RcMutHeap<T>, value: T) -> (rc: RcMut<T>)
    requires
        old(heap).wf(),
    ensures
        final(heap).wf(),
        rc@ is Some,
        !old(heap)@.dom().contains(rc@->0.slot),
        final(heap)@ == allocated(old(heap)@, rc@->0, value),
{
    RcMut::new(heap, value)
}

/// The event can happen to the cell at `slot`: a clone needs a cell and a name
/// that the cell has not in use, a release needs a handle that owns a share.
pub open spec fn step_ok<T>(cells: Map<nat, RcMutCell<T>>, slot: nat, step: Step) -> bool {
    match step {
        Step::Clone { id } => cells.dom().contains(slot) && !cells[slot].owners.contains(id),
        Step::Release { id } => live(cells, MutHandle { slot, id }),
    }
}

/// The cells after the event.
pub open spec fn after_step<T>(cells: Map<nat, RcMutCell<T>>, slot: nat, step: Step) -> Map<
    nat,
    RcMutCell<T>,
> {
    match step {
        Step::Clone { id } => shared(cells, slot, id),
        Step::Release { id } => released(cells, MutHandle { slot, id }),
    }
}

/// The cells after the events of `steps`, in their order.
pub open spec fn after_steps<T>(cells: Map<nat, RcMutCell<T>>, slot: nat, steps: Seq<Step>) -> Map<
    nat,
    RcMutCell<T>,
>
    decreases steps.len(),
{
    if steps.len() == 0 {
        cells
    } else {
        after_step(after_steps(cells, slot, steps.drop_last()), slot, steps.last())
    }
}

/// Each event of `steps` can happen when its turn comes.
pub open spec fn steps_ok<T>(cells: Map<nat, RcMutCell<T>>, slot: nat, steps: Seq<Step>) -> bool
    decreases steps.len(),
{
    steps.len() == 0 || (steps_ok(cells, slot, steps.drop_last()) && step_ok(
        after_steps(cells, slot, steps.drop_last()),
        slot,
        steps.last(),
    ))
}

/// Reading through a handle right after its cell was made observes the value
/// that the cell was made from; the handle is the cell's only owner, and the
/// cell is not borrowed.
pub proof fn lemma_construction_is_observed<T>(cells: Map<nat, RcMutCell<T>>, h: MutHandle, value: T)
    ensures
        live(allocated(cells, h, value), h),
        observed(allocated(cells, h, value), h) == value,
        cell_ok(allocated(cells, h, value)[h.slot]),
        allocated(cells, h, value)[h.slot].count == 1,
        allocated(cells, h, value)[h.slot].borrow == Borrow::Nothing,
{
}

/// A shallow copy refers to the cell of its source: both handles own a share of
/// it and observe the same payload, and no other cell is made or changed.
pub proof fn lemma_clone_shares_cell<T>(cells: Map<nat, RcMutCell<T>>, h: MutHandle, id: nat)
    requires
        live(cells, h),
        !cells[h.slot].owners.contains(id),
    ensures
        live(shared(cells, h.slot, id), h),
        live(shared(cells, h.slot, id), MutHandle { slot: h.slot, id }),
        observed(shared(cells, h.slot, id), MutHandle { slot: h.slot, id }) == observed(cells, h),
        shared(cells, h.slot, id).dom() == cells.dom(),
        forall|s: nat| s != h.slot ==> shared(cells, h.slot, id)[s] == cells[s],
{
}

/// A deep copy refers to a cell of its own: the cell of the source is as it
/// was, with the owners and the count it had, and releasing either handle
/// leaves the other one its cell and its payload.
pub proof fn lemma_deep_clone_is_independent<T>(
    cells: Map<nat, RcMutCell<T>>,
    h: MutHandle,
    copy: MutHandle,
    value: T,
)
    requires
        live(cells, h),
        !cells.dom().contains(copy.slot),
    ensures
        allocated(cells, copy, value)[h.slot] == cells[h.slot],
        live(released(allocated(cells, copy, value), h), copy),
        observed(released(allocated(cells, copy, value), h), copy) == value,
        live(released(allocated(cells, copy, value), copy), h),
        observed(released(allocated(cells, copy, value), copy), h) == observed(cells, h),
{
}

/// The count of a cell is the number of handles that were made for it and not
/// released since. After any events that can happen to a cell, the cell is
/// freed if and only if as many handles were released as the cell counted at
/// first and were cloned since; until then it holds its payload and its tag,
/// and counts the handles that are left. No event touches another cell.
pub proof fn lemma_count_invariant<T>(cells: Map<nat, RcMutCell<T>>, slot: nat, steps: Seq<Step>)
    requires
        cells.dom().contains(slot),
        cell_ok(cells[slot]),
        steps_ok(cells, slot, steps),
    ensures
        releases(steps) <= cells[slot].count + clones(steps),
        after_steps(cells, slot, steps).dom().contains(slot) <==> releases(steps)
            < cells[slot].count + clones(steps),
        after_steps(cells, slot, steps).dom().contains(slot) ==> {
            let cell = after_steps(cells, slot, steps)[slot];
            &&& cell_ok(cell)
            &&& cell.count == cells[slot].count + clones(steps) - releases(steps)
            &&& cell.value == cells[slot].value
            &&& cell.borrow == cells[slot].borrow
        },
        after_steps(cells, slot, steps).remove(slot) == cells.remove(slot),
    decreases steps.len(),
{
    if steps.len() > 0 {
        lemma_count_invariant(cells, slot, steps.drop_last());
    }
}

/// A cell is freed once: in any events that can happen to a cell, the cell is
/// there before each of them, so that only the last one can free it, and
/// nothing can happen to a cell that was freed.
pub proof fn lemma_freed_once<T>(cells: Map<nat, RcMutCell<T>>, slot: nat, steps: Seq<Step>, k: int)
    requires
        steps_ok(cells, slot, steps),
        0 <= k < steps.len(),
    ensures
        after_steps(cells, slot, steps.take(k)).dom().contains(slot),
    decreases steps.len(),
{
    if k < steps.len() - 1 {
        assert(steps.take(k) =~= steps.drop_last().take(k));
        lemma_freed_once(cells, slot, steps.drop_last(), k);
    }
}

/// A cell that was made with one handle is freed exactly when one handle more
/// was released than were cloned.
pub proof fn lemma_freed_with_last_handle<T>(
    cells: Map<nat, RcMutCell<T>>,
    h: MutHandle,
    value: T,
    steps: Seq<Step>,
)
    requires
        steps_ok(allocated(cells, h, value), h.slot, steps),
    ensures
        !after_steps(allocated(cells, h, value), h.slot, steps).dom().contains(h.slot)
            <==> releases(steps) == 1 + clones(steps),
{
    lemma_count_invariant(allocated(cells, h, value), h.slot, steps);
}

/// A shallow copy is an alias: what is written through one handle of a cell is
/// observed through every other, and all of them see one tag.
pub proof fn lemma_clone_is_alias<T>(
    cells: Map<nat, RcMutCell<T>>,
    h: MutHandle,
    id: nat,
    value: T,
    borrow: Borrow,
)
    requires
        live(cells, h),
        !cells[h.slot].owners.contains(id),
    ensures
        ({
            let copy = MutHandle { slot: h.slot, id };
            let both = shared(cells, h.slot, id);
            &&& observed(written(both, h.slot, value), copy) == value
            &&& observed(written(both, copy.slot, value), h) == value
            &&& tagged(both, h.slot, borrow)[copy.slot].borrow == borrow
            &&& tagged(both, copy.slot, borrow)[h.slot].borrow == borrow
        }),
{
}

/// A deep copy is no alias: what is written through the source after the copy
/// was made is never observed through the copy, nor the other way round, and
/// a scope that is open on one of the two cells is not open on the other.
pub proof fn lemma_deep_clone_is_no_alias<T>(
    cells: Map<nat, RcMutCell<T>>,
    h: MutHandle,
    copy: MutHandle,
    cloned_value: T,
    value: T,
    borrow: Borrow,
)
    requires
        live(cells, h),
        !cells.dom().contains(copy.slot),
    ensures
        ({
            let both = allocated(cells, copy, cloned_value);
            &&& observed(written(both, h.slot, value), copy) == cloned_value
            &&& observed(written(both, copy.slot, value), h) == observed(cells, h)
            &&& tagged(both, h.slot, borrow)[copy.slot].borrow == Borrow::Nothing
            &&& tagged(both, copy.slot, borrow)[h.slot].borrow == cells[h.slot].borrow
        }),
{
}

/// A scope leaves nothing behind. A scope that reads, entered on a cell that
/// admits it and left again, gives the cell back as it was, tag and all, so
/// that such scopes can be nested; the scope that changes the payload, entered
/// on a cell that admits it and left again, gives back a cell that is not
/// borrowed. Neither changes the count or the owners.
pub proof fn lemma_scope_leaves_no_trace<T>(cells: Map<nat, RcMutCell<T>>, slot: nat)
    requires
        cells.dom().contains(slot),
    ensures
        cells[slot].borrow.admits_shared() ==> tagged(
            tagged(cells, slot, Borrow::Immutable),
            slot,
            cells[slot].borrow,
        ) == cells,
        cells[slot].borrow.admits_exclusive() ==> tagged(
            tagged(cells, slot, Borrow::Mutable),
            slot,
            Borrow::Nothing,
        ) == cells,
{
}

/// The tag decides alone what may be entered. While a scope reads, more scopes
/// that read may be entered and none that changes; while a scope changes the
/// payload, no scope may be entered at all; while no scope is open, either may.
pub proof fn lemma_borrow_states(borrow: Borrow)
    ensures
        borrow == Borrow::Nothing ==> borrow.admits_shared() && borrow.admits_exclusive(),
        borrow == Borrow::Immutable ==> borrow.admits_shared() && !borrow.admits_exclusive(),
        borrow == Borrow::Mutable ==> !borrow.admits_shared() && !borrow.admits_exclusive(),
{
}

} // verus!
