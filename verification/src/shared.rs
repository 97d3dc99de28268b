//! The one communication channel between a pool and the handles it has
//! issued: a count of closed workers awaiting reuse, kept in a shared cell.
//!
//! A handle cannot hand its worker back to the pool by value: the caller only
//! ever calls `close()` on the handle itself. The pool therefore shares a
//! `Rc<Cell<u32>>` with every handle it issues; a handle's first close bumps
//! the count, and the pool reads and decrements it when a request can be
//! served by reuse. The cell's content is invisible to the verifier, so no
//! contract here claims anything about the value read back: every function
//! that consumes a count is verified for all possible values of it.

use std::cell::Cell;
use std::rc::Rc;
use vstd::prelude::*;

verus! {

#[verifier::external_type_specification]
#[verifier::external_body]
#[verifier::reject_recursive_types(T)]
pub struct ExCell<T: ?Sized>(Cell<T>);

/// Relies on `Cell::new`: makes the cell that will hold the count of
/// recyclable workers.
#[verifier::external_body]
pub(crate) fn new_count_cell(v: u32) -> (c: Cell<u32>) {
    Cell::new(v)
}

/// Relies on `Cell::get`: reads the current count. The cell is aliased by
/// every handle the pool has issued, so nothing is promised of the value.
#[verifier::external_body]
pub(crate) fn read_count(c: &Rc<Cell<u32>>) -> (n: u32) {
    c.get()
}

/// Relies on `Cell::set`: stores a new count into the shared cell.
#[verifier::external_body]
pub(crate) fn write_count(c: &Rc<Cell<u32>>, n: u32) {
    c.set(n);
}

/// Relies on `Rc::clone`: returns another handle to the same shared cell.
#[verifier::external_body]
pub(crate) fn share(c: &Rc<Cell<u32>>) -> (r: Rc<Cell<u32>>)
    ensures
        r == *c,
{
    Rc::clone(c)
}

} // verus!
