//! Mutating a vector through a shared reference to a `Cell`.
use std::cell::Cell;
use vstd::prelude::*;

verus! {

/// `std::cell::Cell`, a single-threaded mutable memory location.
#[verifier::external_type_specification]
#[verifier::external_body]
#[verifier::reject_recursive_types(T)]
pub struct ExCell<T: ?Sized>(Cell<T>);

/// Calls `Cell::take`, which moves the contents out and leaves the default
/// value. The contents of a cell are not visible to Verus: nothing is
/// promised of the value returned.
#[verifier::external_body]
fn cell_take<T: Default>(cell: &Cell<T>) -> T {
    cell.take()
}

/// Calls `Cell::set`, which replaces the contents. Nothing is stated: the
/// contents of a cell are not visible to Verus.
#[verifier::external_body]
fn cell_set<T>(cell: &Cell<T>, val: T) {
    cell.set(val)
}

/// Pushes `11` onto the vector held in `v`: takes it out, pushes, and puts
/// it back.
pub fn cell_vec(v: &Cell<Vec<i32>>) {
    let mut v_2 = cell_take(v);
    v_2.push(11);
    cell_set(v, v_2);
}

} // verus!
