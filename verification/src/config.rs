//! Systems and their scheduling configuration.
//!
//! A [`System`] is a schedulable unit of work described, for this crate's
//! purposes, by the shapes of its declared parameters. A [`SystemConfig`]
//! is a system together with the access-set memberships applied to it so
//! far; the host scheduler consumes it as a declarative record of which
//! named groups the system belongs to.

use vstd::prelude::*;

use crate::automagic::ParamShape;
use crate::markers::AccessSet;
use crate::markers::IntoSystemRW;
use crate::markers::Reads;
use crate::markers::SlotId;
use crate::markers::Writes;

verus! {

/// A schedulable unit of work: its declared parameter list, by shape.
pub struct System {
    /// The shapes of the system's declared parameters, in declaration order.
    pub params: Vec<ParamShape>,
}

/// A system tagged with the access-sets it belongs to.
///
/// Membership is a set: folding a system into the same access-set twice is
/// idempotent, and adding memberships never removes or overrides the ones
/// already present.
pub struct SystemConfig {
    system: System,
    sets: Vec<AccessSet>,
}

/// Whether `v` holds `s`.
fn vec_contains_set(v: &Vec<AccessSet>, s: &AccessSet) -> (r: bool)
    ensures
        r == v@.contains(*s),
{
    let mut i: usize = 0;
    while i < v.len()
        invariant
            0 <= i <= v@.len(),
            forall|k: int| 0 <= k < i ==> v@[k] != *s,
        decreases v@.len() - i,
    {
        if v[i] == *s {
            return true;
        }
        i = i + 1;
    }
    false
}

impl SystemConfig {
    #[verifier::type_invariant]
    spec fn inv(self) -> bool {
        self.sets@.no_duplicates()
    }

    /// The declared parameter list of the underlying system.
    pub closed spec fn params(&self) -> Seq<ParamShape> {
        self.system.params@
    }

    /// The access-sets this system has been folded into.
    pub closed spec fn memberships(&self) -> Set<AccessSet> {
        self.sets@.to_set()
    }

    /// Wraps a system with no membership applied yet.
    pub fn new(system: System) -> (c: SystemConfig)
        ensures
            c.params() == system.params@,
            c.memberships() == Set::<AccessSet>::empty(),
    {
        let c = SystemConfig { system, sets: Vec::new() };
        proof {
            assert(c.memberships() =~= Set::<AccessSet>::empty());
        }
        c
    }

    /// Folds the system into one more access-set. Purely additive, and
    /// idempotent: membership is a set.
    pub fn in_set(self, s: AccessSet) -> (c: SystemConfig)
        ensures
            c.params() == self.params(),
            c.memberships() == self.memberships().insert(s),
    {
        proof {
            use_type_invariant(&self);
        }
        let SystemConfig { system, mut sets } = self;
        if vec_contains_set(&sets, &s) {
            proof {
                assert(sets@.to_set() =~= sets@.to_set().insert(s));
            }
        } else {
            let ghost old_sets = sets@;
            sets.push(s);
            proof {
                assert(sets@.no_duplicates()) by {
                    assert(forall|k: int| 0 <= k < old_sets.len() ==> sets@[k] == old_sets[k]);
                }
                assert(sets@.to_set() =~= old_sets.to_set().insert(s)) by {
                    assert forall|a: AccessSet| sets@.contains(a) implies old_sets.contains(a) || a
                        == s by {
                        let k = choose|k: int| 0 <= k < sets@.len() && sets@[k] == a;
                        if k < old_sets.len() {
                            assert(old_sets[k] == a);
                        }
                    }
                    assert forall|a: AccessSet| old_sets.contains(a) implies sets@.contains(a) by {
                        let k = choose|k: int| 0 <= k < old_sets.len() && old_sets[k] == a;
                        assert(sets@[k] == a);
                    }
                    assert(sets@[sets@.len() - 1] == s);
                }
            }
        }
        SystemConfig { system, sets }
    }

    /// Whether this system is a member of the access-set `s`.
    pub fn is_member(&self, s: &AccessSet) -> (r: bool)
        ensures
            r == self.memberships().contains(*s),
    {
        vec_contains_set(&self.sets, s)
    }

    /// How many distinct access-sets this system belongs to.
    pub fn membership_count(&self) -> (n: usize)
        ensures
            n == self.memberships().len(),
    {
        proof {
            use_type_invariant(self);
            self.sets@.unique_seq_to_set();
        }
        self.sets.len()
    }

    /// The memberships as a duplicate-free list, for a host to walk.
    pub fn membership_list(&self) -> (v: Vec<AccessSet>)
        ensures
            v@.to_set() == self.memberships(),
            v@.no_duplicates(),
    {
        proof {
            use_type_invariant(self);
        }
        let mut v: Vec<AccessSet> = Vec::new();
        let mut i: usize = 0;
        while i < self.sets.len()
            invariant
                0 <= i <= self.sets@.len(),
                v@ == self.sets@.subrange(0, i as int),
            decreases self.sets@.len() - i,
        {
            v.push(self.sets[i]);
            proof {
                assert(v@ =~= self.sets@.subrange(0, i + 1));
            }
            i = i + 1;
        }
        proof {
            assert(v@ =~= self.sets@);
        }
        v
    }

    /// The underlying system.
    pub fn system(&self) -> (s: &System)
        ensures
            s.params@ == self.params(),
    {
        &self.system
    }
}

impl IntoSystemRW for System {
    open spec fn pre_params(self) -> Seq<ParamShape> {
        self.params@
    }

    open spec fn pre_sets(self) -> Set<AccessSet> {
        Set::empty()
    }

    fn into_config(self) -> (c: SystemConfig) {
        SystemConfig::new(self)
    }

    fn reads(self, slot: SlotId) -> (c: SystemConfig) {
        SystemConfig::new(self).in_set(Reads { slot }.access_set())
    }

    fn writes(self, slot: SlotId) -> (c: SystemConfig) {
        SystemConfig::new(self).in_set(Writes { slot }.access_set())
    }
}

impl IntoSystemRW for SystemConfig {
    open spec fn pre_params(self) -> Seq<ParamShape> {
        self.params()
    }

    open spec fn pre_sets(self) -> Set<AccessSet> {
        self.memberships()
    }

    fn into_config(self) -> (c: SystemConfig) {
        self
    }

    fn reads(self, slot: SlotId) -> (c: SystemConfig) {
        self.in_set(Reads { slot }.access_set())
    }

    fn writes(self, slot: SlotId) -> (c: SystemConfig) {
        self.in_set(Writes { slot }.access_set())
    }
}

} // verus!
