//! Ordering constraints between the readers and the writers of one slot.
//!
//! An [`OrderingEdge`] is a directed "run before" relationship between two
//! access-sets. It is produced on demand and consumed by the host scheduler's
//! constraint-configuration mechanism; this crate does not itself store or
//! execute it. Construction cannot fail.

use vstd::prelude::*;

use crate::markers::read_of;
use crate::markers::write_of;
use crate::markers::AccessSet;
use crate::markers::Reads;
use crate::markers::SlotId;
use crate::markers::Writes;

verus! {

/// A directed constraint: every member of `before` runs to completion before
/// any member of `after` starts.
#[derive(Clone, Copy, PartialEq, Eq, Structural, Hash, Debug)]
pub struct OrderingEdge {
    /// The access-set whose members run first.
    pub before: AccessSet,
    /// The access-set whose members run after.
    pub after: AccessSet,
}

/// Constraint that all writes to `slot` are executed before the first read.
#[must_use]
pub fn write_before_read(slot: SlotId) -> (e: OrderingEdge)
    ensures
        e.before == write_of(slot),
        e.after == read_of(slot),
{
    let before = Writes { slot }.access_set();
    let after = Reads { slot }.access_set();
    OrderingEdge { before, after }
}

/// Constraint that all reads from `slot` are executed before the first write.
#[must_use]
pub fn read_before_write(slot: SlotId) -> (e: OrderingEdge)
    ensures
        e.before == read_of(slot),
        e.after == write_of(slot),
{
    let before = Reads { slot }.access_set();
    let after = Writes { slot }.access_set();
    OrderingEdge { before, after }
}

} // verus!
