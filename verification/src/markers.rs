//! Identities for slots and for the access-sets that group their readers and
//! writers.
//!
//! A slot is an addressable piece of shared state (a component kind, a
//! resource, an event type, or any caller-chosen tag). An access-set is the
//! logical grouping of all systems that read (or write) one slot; it carries
//! no payload beyond its identity, which is exactly the pair of a direction
//! and a slot identity.

use vstd::prelude::*;

use crate::automagic::ParamShape;
use crate::config::SystemConfig;

verus! {

/// Identity of one slot: a stable fingerprint of the slot's marker type,
/// computed once by the host and compared by value, so that the same slot
/// always yields the same access-sets no matter where inference happens.
#[derive(Clone, Copy, PartialEq, Eq, Structural, Hash, Debug)]
pub struct SlotId {
    pub key: u64,
}

/// Whether an access-set groups the readers or the writers of its slot.
#[derive(Clone, Copy, PartialEq, Eq, Structural, Hash, Debug)]
pub enum Direction {
    Read,
    Write,
}

/// Identity of one access-set: the grouping of all systems that read
/// (or write, by `direction`) the slot named by `slot`. Two access-sets are
/// the same set exactly when both fields agree.
#[derive(Clone, Copy, PartialEq, Eq, Structural, Hash, Debug)]
pub struct AccessSet {
    pub direction: Direction,
    pub slot: SlotId,
}

/// The read access-set of `slot`.
pub open spec fn read_of(slot: SlotId) -> AccessSet {
    AccessSet { direction: Direction::Read, slot }
}

/// The write access-set of `slot`.
pub open spec fn write_of(slot: SlotId) -> AccessSet {
    AccessSet { direction: Direction::Write, slot }
}

/// Handle naming the access-set of all systems that read the value of a slot.
#[derive(Clone, Copy, PartialEq, Eq, Structural, Hash, Debug)]
pub struct Reads {
    pub slot: SlotId,
}

impl Reads {
    /// The access-set this handle names.
    pub fn access_set(&self) -> (s: AccessSet)
        ensures
            s == read_of(self.slot),
    {
        AccessSet { direction: Direction::Read, slot: self.slot }
    }
}

/// Handle naming the access-set of all systems that write to a slot.
#[derive(Clone, Copy, PartialEq, Eq, Structural, Hash, Debug)]
pub struct Writes {
    pub slot: SlotId,
}

impl Writes {
    /// The access-set this handle names.
    pub fn access_set(&self) -> (s: AccessSet)
        ensures
            s == write_of(self.slot),
    {
        AccessSet { direction: Direction::Write, slot: self.slot }
    }
}

/// Manual read/write marking for systems and system configurations.
///
/// `reads` and `writes` cover effects that inference cannot see (for example
/// mutations issued through a deferred-mutation handle): they fold the system
/// into the named access-set directly, and chain freely with inference, which
/// is purely additive over the memberships already applied.
pub trait IntoSystemRW: Sized {
    /// The declared parameter list of the underlying system.
    spec fn pre_params(self) -> Seq<ParamShape>;

    /// The access-set memberships already applied.
    spec fn pre_sets(self) -> Set<AccessSet>;

    /// Wraps into a configuration, adding no membership.
    fn into_config(self) -> (c: SystemConfig)
        ensures
            c.params() == self.pre_params(),
            c.memberships() == self.pre_sets(),
    ;

    /// Declares that the system reads the value of `slot`.
    fn reads(self, slot: SlotId) -> (c: SystemConfig)
        ensures
            c.params() == self.pre_params(),
            c.memberships() == self.pre_sets().insert(read_of(slot)),
    ;

    /// Declares that the system writes to `slot`.
    fn writes(self, slot: SlotId) -> (c: SystemConfig)
        ensures
            c.params() == self.pre_params(),
            c.memberships() == self.pre_sets().insert(write_of(slot)),
    ;
}

} // verus!
