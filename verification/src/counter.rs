//! The identifier allocator: a single monotonic counter, durable in
//! stable memory, shared by every entity type so that ids are unique
//! across all four maps.
//!
//! The counter value lives in an `ic_stable_structures::Cell`, which
//! writes every new value to its backing memory before updating the
//! cached value. The memory type `DefaultMemoryImpl` is an alias for
//! `Rc<RefCell<Vec<u8>>>` off-chain, which Verus cannot carry in a
//! signature, so the cell is held inside an opaque struct and reached
//! only through the trusted functions below.

use vstd::prelude::*;

verus! {

/// Holds an `ic_stable_structures::Cell<u64, DefaultMemoryImpl>`.
/// Opaque to the verifier; its stored value is named by
/// `counter_value`.
#[verifier::external_body]
pub struct CounterCell {
    cell: ic_stable_structures::Cell<u64, ic_stable_structures::DefaultMemoryImpl>,
}

/// The value a counter cell currently stores.
pub uninterp spec fn counter_value(c: CounterCell) -> u64;

/// Relies on `ic_stable_structures::Cell::init`: on a fresh memory it
/// writes the given default value and caches it, so the cell starts
/// at 0.
#[verifier::external_body]
fn counter_cell_new() -> (c: CounterCell)
    ensures
        counter_value(c) == 0,
{
    CounterCell {
        cell: ic_stable_structures::Cell::init(
            ic_stable_structures::DefaultMemoryImpl::default(),
            0,
        ),
    }
}

/// Relies on `ic_stable_structures::Cell::get`: returns the cached
/// value, which `init` and `set` keep equal to what the memory holds.
#[verifier::external_body]
fn counter_cell_get(c: &CounterCell) -> (r: u64)
    ensures
        r == counter_value(*c),
{
    *c.cell.get()
}

/// Relies on `ic_stable_structures::Cell::set`: writes the value to
/// the backing memory and then caches it. A failed memory write
/// aborts inside `set` before the cached value changes, so the stored
/// value and the visible value never diverge; persistence failure is
/// fatal by design.
#[verifier::external_body]
fn counter_cell_set(c: &mut CounterCell, v: u64)
    ensures
        counter_value(*final(c)) == v,
{
    c.cell.set(v);
}

/// The allocator that every create operation draws from.
pub struct IdAllocator {
    cell: CounterCell,
}

impl IdAllocator {
    /// The last value handed out; 0 before any allocation.
    pub closed spec fn value(self) -> u64 {
        counter_value(self.cell)
    }

    /// A fresh allocator, starting at 0 so that the first id is 1.
    pub fn new() -> (a: Self)
        ensures
            a.value() == 0,
    {
        IdAllocator { cell: counter_cell_new() }
    }

    /// The last value handed out, read from the cell.
    pub fn current(&self) -> (r: u64)
        ensures
            r == self.value(),
    {
        counter_cell_get(&self.cell)
    }

    /// Durably advance the counter by one and return the new value.
    /// Values are strictly increasing, so no value is returned twice.
    pub fn increment_id(&mut self) -> (id: u64)
        requires
            old(self).value() < u64::MAX,
        ensures
            id == old(self).value() + 1,
            final(self).value() == id,
    {
        let current: u64 = counter_cell_get(&self.cell);
        let next: u64 = current + 1;
        counter_cell_set(&mut self.cell, next);
        next
    }
}

} // verus!
