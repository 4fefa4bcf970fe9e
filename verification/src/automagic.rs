//! Structural classification of system parameters into access-sets.
//!
//! A system's declared parameter list is described by [`ParamShape`] values.
//! The classifier walks a shape and decides, for every part of it, whether it
//! is a read of some slot, a write of some slot, a nested structure to descend
//! into, or an access with no automatic meaning. The result is the set of
//! access-sets the system belongs to; the inference entry points fold a whole
//! parameter list into a system's configuration.

use vstd::prelude::*;

use crate::config::System;
use crate::config::SystemConfig;
use crate::markers::read_of;
use crate::markers::write_of;
use crate::markers::AccessSet;
use crate::markers::Direction;
use crate::markers::IntoSystemRW;
use crate::markers::SlotId;

verus! {

/// Shape of one declared system parameter.
///
/// The catalogue is closed: every legal parameter shape maps to exactly one
/// handling rule, and classification is total. Shapes with no automatic
/// read/write meaning are listed explicitly as [`ParamShape::Infra`] rather
/// than silently skipped.
pub enum ParamShape {
    /// Immutable access to the event stream of a slot.
    EventReader(SlotId),
    /// Write-producing access to the event stream of a slot.
    EventWriter(SlotId),
    /// Immutable access to a shared resource slot.
    Res(SlotId),
    /// Mutable access to a shared resource slot.
    ResMut(SlotId),
    /// Immutable access to a thread-affine global slot.
    NonSend(SlotId),
    /// Mutable access to a thread-affine global slot.
    NonSendMut(SlotId),
    /// An optional wrapper: classified exactly as the wrapped shape.
    Optional(Box<ParamShape>),
    /// A parameter-set: a fixed list of alternatives of which one is live at
    /// a time. Classified conservatively as the union of all alternatives.
    ParamSet(Vec<ParamShape>),
    /// A data query over rows: per-row field accesses plus filter predicates.
    Query(Vec<QueryField>, Vec<QueryFilter>),
    /// A host-infrastructure parameter with no automatic classification:
    /// a deferred-mutation handle, a raw world handle, diagnostics, local
    /// scratch storage, system identity, and the like. Any effect it has must
    /// be declared manually.
    Infra,
}

/// Shape of one field inside a data query's row.
pub enum QueryField {
    /// Immutable per-row reference to a component slot.
    ReadField(SlotId),
    /// Mutable per-row reference to a component slot.
    WriteField(SlotId),
    /// "Does this row have this component" presence check: a read.
    HasField(SlotId),
    /// Debug-name projection: identity-only, but it must fetch the name
    /// component, so it reads the slot holding that component.
    NameField(SlotId),
    /// Row identifier projection: no automatic classification.
    RowIdField,
    /// A host-infrastructure per-row projection (raw row locations, filtered
    /// or restricted row views, engine-internal row kinds): no automatic
    /// classification.
    InfraField,
    /// An optional wrapper: classified exactly as the wrapped field.
    OptionalField(Box<QueryField>),
    /// A list of alternative fields of which any may be live: classified as
    /// the union of all members.
    AnyOfFields(Vec<QueryField>),
    /// A tuple of several fields: classified member by member.
    FieldGroup(Vec<QueryField>),
}

/// Shape of one filter predicate inside a data query.
///
/// Filters only ever gate on presence or change of a component, so every
/// leaf filter is a read of its slot.
pub enum QueryFilter {
    /// "This component was added this tick".
    AddedFilter(SlotId),
    /// "This component changed this tick".
    ChangedFilter(SlotId),
    /// "This row has this component".
    WithFilter(SlotId),
    /// "This row lacks this component".
    WithoutFilter(SlotId),
    /// A disjunction of filters: classified member by member.
    OrFilters(Vec<QueryFilter>),
    /// A tuple of several filters: classified member by member.
    FilterGroup(Vec<QueryFilter>),
}

/// The access-sets induced by one query field.
pub open spec fn field_accesses(f: QueryField) -> Set<AccessSet>
    decreases f, 1int,
{
    match f {
        QueryField::ReadField(slot) => set![read_of(slot)],
        QueryField::WriteField(slot) => set![write_of(slot)],
        QueryField::HasField(slot) => set![read_of(slot)],
        QueryField::NameField(slot) => set![read_of(slot)],
        QueryField::RowIdField => Set::empty(),
        QueryField::InfraField => Set::empty(),
        QueryField::OptionalField(inner) => field_accesses(*inner),
        QueryField::AnyOfFields(members) => fields_accesses(members@),
        QueryField::FieldGroup(members) => fields_accesses(members@),
    }
}

/// The access-sets induced by a list of query fields: the union over the list.
pub open spec fn fields_accesses(s: Seq<QueryField>) -> Set<AccessSet>
    decreases s, 0int,
{
    if s.len() == 0 {
        Set::empty()
    } else {
        field_accesses(s[0]).union(fields_accesses(s.subrange(1, s.len() as int)))
    }
}

/// The access-sets induced by one query filter.
pub open spec fn filter_accesses(f: QueryFilter) -> Set<AccessSet>
    decreases f, 1int,
{
    match f {
        QueryFilter::AddedFilter(slot) => set![read_of(slot)],
        QueryFilter::ChangedFilter(slot) => set![read_of(slot)],
        QueryFilter::WithFilter(slot) => set![read_of(slot)],
        QueryFilter::WithoutFilter(slot) => set![read_of(slot)],
        QueryFilter::OrFilters(members) => filters_accesses(members@),
        QueryFilter::FilterGroup(members) => filters_accesses(members@),
    }
}

/// The access-sets induced by a list of query filters: the union over the
/// list.
pub open spec fn filters_accesses(s: Seq<QueryFilter>) -> Set<AccessSet>
    decreases s, 0int,
{
    if s.len() == 0 {
        Set::empty()
    } else {
        filter_accesses(s[0]).union(filters_accesses(s.subrange(1, s.len() as int)))
    }
}

/// The access-sets induced by one parameter shape.
pub open spec fn param_accesses(p: ParamShape) -> Set<AccessSet>
    decreases p, 1int,
{
    match p {
        ParamShape::EventReader(slot) => set![read_of(slot)],
        ParamShape::EventWriter(slot) => set![write_of(slot)],
        ParamShape::Res(slot) => set![read_of(slot)],
        ParamShape::ResMut(slot) => set![write_of(slot)],
        ParamShape::NonSend(slot) => set![read_of(slot)],
        ParamShape::NonSendMut(slot) => set![write_of(slot)],
        ParamShape::Optional(inner) => param_accesses(*inner),
        ParamShape::ParamSet(alternatives) => params_accesses(alternatives@),
        ParamShape::Query(fields, filters) => fields_accesses(fields@).union(
            filters_accesses(filters@),
        ),
        ParamShape::Infra => Set::empty(),
    }
}

/// The access-sets induced by a whole parameter list: the union over the
/// list. This is what inference folds a system into.
pub open spec fn params_accesses(s: Seq<ParamShape>) -> Set<AccessSet>
    decreases s, 0int,
{
    if s.len() == 0 {
        Set::empty()
    } else {
        param_accesses(s[0]).union(params_accesses(s.subrange(1, s.len() as int)))
    }
}

/// Pushes the access-sets induced by one query field onto `acc`.
fn push_field_accesses(acc: &mut Vec<AccessSet>, f: &QueryField)
    ensures
        final (acc)@.to_set() == old(acc)@.to_set().union(field_accesses(*f)),
    decreases *f, 0int,
{
    broadcast use vstd::prelude::Seq::lemma_push_to_set_commute;

    match f {
        QueryField::ReadField(slot) => {
            acc.push(AccessSet { direction: Direction::Read, slot: *slot });
            proof {
                assert(acc@.to_set() =~= old(acc)@.to_set().union(field_accesses(*f)));
            }
        },
        QueryField::WriteField(slot) => {
            acc.push(AccessSet { direction: Direction::Write, slot: *slot });
            proof {
                assert(acc@.to_set() =~= old(acc)@.to_set().union(field_accesses(*f)));
            }
        },
        QueryField::HasField(slot) => {
            acc.push(AccessSet { direction: Direction::Read, slot: *slot });
            proof {
                assert(acc@.to_set() =~= old(acc)@.to_set().union(field_accesses(*f)));
            }
        },
        QueryField::NameField(slot) => {
            acc.push(AccessSet { direction: Direction::Read, slot: *slot });
            proof {
                assert(acc@.to_set() =~= old(acc)@.to_set().union(field_accesses(*f)));
            }
        },
        QueryField::RowIdField => {
            proof {
                assert(acc@.to_set() =~= old(acc)@.to_set().union(field_accesses(*f)));
            }
        },
        QueryField::InfraField => {
            proof {
                assert(acc@.to_set() =~= old(acc)@.to_set().union(field_accesses(*f)));
            }
        },
        QueryField::OptionalField(inner) => {
            push_field_accesses(acc, inner);
        },
        QueryField::AnyOfFields(members) => {
            push_field_list_accesses(acc, members, 0);
            proof {
                assert(members@.subrange(0, members@.len() as int) =~= members@);
            }
        },
        QueryField::FieldGroup(members) => {
            push_field_list_accesses(acc, members, 0);
            proof {
                assert(members@.subrange(0, members@.len() as int) =~= members@);
            }
        },
    }
}

/// Pushes the access-sets induced by the query fields from index `i` on.
fn push_field_list_accesses(acc: &mut Vec<AccessSet>, fs: &Vec<QueryField>, i: usize)
    requires
        i <= fs@.len(),
    ensures
        final (acc)@.to_set() == old(acc)@.to_set().union(
            fields_accesses(fs@.subrange(i as int, fs@.len() as int)),
        ),
    decreases fs@, fs@.len() - i,
{
    if i == fs.len() {
        proof {
            assert(fields_accesses(fs@.subrange(i as int, fs@.len() as int))
                =~= Set::<AccessSet>::empty());
            assert(acc@.to_set() =~= acc@.to_set().union(Set::<AccessSet>::empty()));
        }
    } else {
        let ghost acc0 = acc@;
        push_field_accesses(acc, &fs[i]);
        push_field_list_accesses(acc, fs, i + 1);
        proof {
            let s = fs@.subrange(i as int, fs@.len() as int);
            assert(s[0] == fs@[i as int]);
            assert(s.subrange(1, s.len() as int) =~= fs@.subrange(i + 1, fs@.len() as int));
            assert(acc@.to_set() =~= acc0.to_set().union(fields_accesses(s)));
        }
    }
}

/// Pushes the access-sets induced by one query filter onto `acc`.
fn push_filter_accesses(acc: &mut Vec<AccessSet>, f: &QueryFilter)
    ensures
        final (acc)@.to_set() == old(acc)@.to_set().union(filter_accesses(*f)),
    decreases *f, 0int,
{
    broadcast use vstd::prelude::Seq::lemma_push_to_set_commute;

    match f {
        QueryFilter::AddedFilter(slot) => {
            acc.push(AccessSet { direction: Direction::Read, slot: *slot });
            proof {
                assert(acc@.to_set() =~= old(acc)@.to_set().union(filter_accesses(*f)));
            }
        },
        QueryFilter::ChangedFilter(slot) => {
            acc.push(AccessSet { direction: Direction::Read, slot: *slot });
            proof {
                assert(acc@.to_set() =~= old(acc)@.to_set().union(filter_accesses(*f)));
            }
        },
        QueryFilter::WithFilter(slot) => {
            acc.push(AccessSet { direction: Direction::Read, slot: *slot });
            proof {
                assert(acc@.to_set() =~= old(acc)@.to_set().union(filter_accesses(*f)));
            }
        },
        QueryFilter::WithoutFilter(slot) => {
            acc.push(AccessSet { direction: Direction::Read, slot: *slot });
            proof {
                assert(acc@.to_set() =~= old(acc)@.to_set().union(filter_accesses(*f)));
            }
        },
        QueryFilter::OrFilters(members) => {
            push_filter_list_accesses(acc, members, 0);
            proof {
                assert(members@.subrange(0, members@.len() as int) =~= members@);
            }
        },
        QueryFilter::FilterGroup(members) => {
            push_filter_list_accesses(acc, members, 0);
            proof {
                assert(members@.subrange(0, members@.len() as int) =~= members@);
            }
        },
    }
}

/// Pushes the access-sets induced by the query filters from index `i` on.
fn push_filter_list_accesses(acc: &mut Vec<AccessSet>, fs: &Vec<QueryFilter>, i: usize)
    requires
        i <= fs@.len(),
    ensures
        final (acc)@.to_set() == old(acc)@.to_set().union(
            filters_accesses(fs@.subrange(i as int, fs@.len() as int)),
        ),
    decreases fs@, fs@.len() - i,
{
    if i == fs.len() {
        proof {
            assert(filters_accesses(fs@.subrange(i as int, fs@.len() as int))
                =~= Set::<AccessSet>::empty());
            assert(acc@.to_set() =~= acc@.to_set().union(Set::<AccessSet>::empty()));
        }
    } else {
        let ghost acc0 = acc@;
        push_filter_accesses(acc, &fs[i]);
        push_filter_list_accesses(acc, fs, i + 1);
        proof {
            let s = fs@.subrange(i as int, fs@.len() as int);
            assert(s[0] == fs@[i as int]);
            assert(s.subrange(1, s.len() as int) =~= fs@.subrange(i + 1, fs@.len() as int));
            assert(acc@.to_set() =~= acc0.to_set().union(filters_accesses(s)));
        }
    }
}

/// Pushes the access-sets induced by one parameter shape onto `acc`.
fn push_param_accesses(acc: &mut Vec<AccessSet>, p: &ParamShape)
    ensures
        final (acc)@.to_set() == old(acc)@.to_set().union(param_accesses(*p)),
    decreases *p, 0int,
{
    broadcast use vstd::prelude::Seq::lemma_push_to_set_commute;

    match p {
        ParamShape::EventReader(slot) => {
            acc.push(AccessSet { direction: Direction::Read, slot: *slot });
            proof {
                assert(acc@.to_set() =~= old(acc)@.to_set().union(param_accesses(*p)));
            }
        },
        ParamShape::EventWriter(slot) => {
            acc.push(AccessSet { direction: Direction::Write, slot: *slot });
            proof {
                assert(acc@.to_set() =~= old(acc)@.to_set().union(param_accesses(*p)));
            }
        },
        ParamShape::Res(slot) => {
            acc.push(AccessSet { direction: Direction::Read, slot: *slot });
            proof {
                assert(acc@.to_set() =~= old(acc)@.to_set().union(param_accesses(*p)));
            }
        },
        ParamShape::ResMut(slot) => {
            acc.push(AccessSet { direction: Direction::Write, slot: *slot });
            proof {
                assert(acc@.to_set() =~= old(acc)@.to_set().union(param_accesses(*p)));
            }
        },
        ParamShape::NonSend(slot) => {
            acc.push(AccessSet { direction: Direction::Read, slot: *slot });
            proof {
                assert(acc@.to_set() =~= old(acc)@.to_set().union(param_accesses(*p)));
            }
        },
        ParamShape::NonSendMut(slot) => {
            acc.push(AccessSet { direction: Direction::Write, slot: *slot });
            proof {
                assert(acc@.to_set() =~= old(acc)@.to_set().union(param_accesses(*p)));
            }
        },
        ParamShape::Optional(inner) => {
            push_param_accesses(acc, inner);
        },
        ParamShape::ParamSet(alternatives) => {
            push_param_list_accesses(acc, alternatives, 0);
            proof {
                assert(alternatives@.subrange(0, alternatives@.len() as int) =~= alternatives@);
            }
        },
        ParamShape::Query(fields, filters) => {
            let ghost acc0 = acc@;
            push_field_list_accesses(acc, fields, 0);
            push_filter_list_accesses(acc, filters, 0);
            proof {
                assert(fields@.subrange(0, fields@.len() as int) =~= fields@);
                assert(filters@.subrange(0, filters@.len() as int) =~= filters@);
                assert(acc@.to_set() =~= acc0.to_set().union(param_accesses(*p)));
            }
        },
        ParamShape::Infra => {
            proof {
                assert(acc@.to_set() =~= old(acc)@.to_set().union(param_accesses(*p)));
            }
        },
    }
}

/// Pushes the access-sets induced by the parameters from index `i` on.
fn push_param_list_accesses(acc: &mut Vec<AccessSet>, ps: &Vec<ParamShape>, i: usize)
    requires
        i <= ps@.len(),
    ensures
        final (acc)@.to_set() == old(acc)@.to_set().union(
            params_accesses(ps@.subrange(i as int, ps@.len() as int)),
        ),
    decreases ps@, ps@.len() - i,
{
    if i == ps.len() {
        proof {
            assert(params_accesses(ps@.subrange(i as int, ps@.len() as int))
                =~= Set::<AccessSet>::empty());
            assert(acc@.to_set() =~= acc@.to_set().union(Set::<AccessSet>::empty()));
        }
    } else {
        let ghost acc0 = acc@;
        push_param_accesses(acc, &ps[i]);
        push_param_list_accesses(acc, ps, i + 1);
        proof {
            let s = ps@.subrange(i as int, ps@.len() as int);
            assert(s[0] == ps@[i as int]);
            assert(s.subrange(1, s.len() as int) =~= ps@.subrange(i + 1, ps@.len() as int));
            assert(acc@.to_set() =~= acc0.to_set().union(params_accesses(s)));
        }
    }
}

/// The access-sets induced by a whole parameter list, as a list a fold can
/// walk. Duplicates may occur; folding them in is idempotent.
fn params_access_list(params: &Vec<ParamShape>) -> (v: Vec<AccessSet>)
    ensures
        v@.to_set() == params_accesses(params@),
{
    let mut v: Vec<AccessSet> = Vec::new();
    push_param_list_accesses(&mut v, params, 0);
    proof {
        assert(params@.subrange(0, params@.len() as int) =~= params@);
        assert(Seq::<AccessSet>::empty().to_set() =~= Set::<AccessSet>::empty());
        assert(v@.to_set() =~= params_accesses(params@));
    }
    v
}

/// Folds a system into every access-set in `sets`, in order.
fn fold_into_sets(cfg: SystemConfig, sets: &Vec<AccessSet>) -> (r: SystemConfig)
    ensures
        r.params() == cfg.params(),
        r.memberships() == cfg.memberships().union(sets@.to_set()),
{
    let ghost orig_params = cfg.params();
    let ghost orig_sets = cfg.memberships();
    let mut cur = cfg;
    let mut i: usize = 0;
    proof {
        assert(sets@.subrange(0, 0).to_set() =~= Set::<AccessSet>::empty());
        assert(orig_sets.union(Set::<AccessSet>::empty()) =~= orig_sets);
    }
    while i < sets.len()
        invariant
            0 <= i <= sets@.len(),
            cur.params() == orig_params,
            cur.memberships() == orig_sets.union(sets@.subrange(0, i as int).to_set()),
        decreases sets@.len() - i,
    {
        cur = cur.in_set(sets[i]);
        proof {
            let pre = sets@.subrange(0, i as int);
            let x = sets@[i as int];
            pre.lemma_push_to_set_commute(x);
            assert(pre.push(x).to_set() =~= pre.to_set().insert(x));
            assert(sets@.subrange(0, i + 1) =~= pre.push(x));
            assert(orig_sets.union(pre.to_set()).insert(x) =~= orig_sets.union(
                sets@.subrange(0, i + 1).to_set(),
            ));
        }
        i = i + 1;
    }
    proof {
        assert(sets@.subrange(0, sets@.len() as int) =~= sets@);
    }
    cur
}

/// A system whose auto-sets can be inferred from its declared parameter list.
pub trait InferFlow: IntoSystemRW {
    /// Runs the capability classifier over the declared parameter list and
    /// hands the system back folded into every induced access-set.
    ///
    /// Inference is purely additive: memberships applied before this call,
    /// manually or by an earlier inference, all remain. It only sees the
    /// declared parameter list, so an effect issued through a
    /// deferred-mutation handle must still be marked manually.
    fn in_auto_sets(self) -> (c: SystemConfig)
        ensures
            c.params() == self.pre_params(),
            c.memberships() == self.pre_sets().union(params_accesses(self.pre_params())),
    ;
}

impl InferFlow for System {
    fn in_auto_sets(self) -> (c: SystemConfig) {
        let accesses = params_access_list(&self.params);
        let cfg = SystemConfig::new(self);
        fold_into_sets(cfg, &accesses)
    }
}

impl InferFlow for SystemConfig {
    fn in_auto_sets(self) -> (c: SystemConfig) {
        let accesses = params_access_list(&self.system().params);
        fold_into_sets(self, &accesses)
    }
}

/// A group of systems whose auto-sets can be inferred one by one.
pub trait InferFlowEach: Sized {
    /// The systems in the group, in order.
    spec fn group(self) -> Seq<System>;

    /// Infers auto-sets for every system of the group independently: the
    /// element at each position is configured exactly as `in_auto_sets`
    /// configures the system at that position, memberships and parameter
    /// list alike.
    fn each_in_auto_sets(self) -> (cs: Vec<SystemConfig>)
        ensures
            cs@.len() == self.group().len(),
            forall|i: int|
                0 <= i < cs@.len() ==> (#[trigger] cs@[i]).params() == self.group()[i].params@
                    && cs@[i].memberships() == params_accesses(self.group()[i].params@),
    ;
}

impl InferFlowEach for Vec<System> {
    open spec fn group(self) -> Seq<System> {
        self@
    }

    fn each_in_auto_sets(self) -> (cs: Vec<SystemConfig>) {
        let ghost orig = self@;
        let mut rest = self;
        let mut cs: Vec<SystemConfig> = Vec::new();
        proof {
            assert(rest@ =~= orig.subrange(0, orig.len() as int));
        }
        while rest.len() > 0
            invariant
                cs@.len() + rest@.len() == orig.len(),
                rest@ == orig.subrange(cs@.len() as int, orig.len() as int),
                forall|i: int|
                    0 <= i < cs@.len() ==> (#[trigger] cs@[i]).params() == orig[i].params@
                        && cs@[i].memberships() == params_accesses(orig[i].params@),
            decreases rest@.len(),
    {
            let ghost done = cs@.len() as int;
            let sys = rest.remove(0);
            proof {
                assert(sys == orig[done]);
                assert(rest@ =~= orig.subrange(done + 1, orig.len() as int));
            }
            let tagged = sys.in_auto_sets();
            proof {
                assert(tagged.memberships() =~= params_accesses(orig[done].params@));
            }
            cs.push(tagged);
        }
        cs
    }
}

impl InferFlowEach for (System,) {
    open spec fn group(self) -> Seq<System> {
        seq![self.0]
    }

    fn each_in_auto_sets(self) -> (cs: Vec<SystemConfig>) {
        let ghost g = self.group();
        let (s0,) = self;
        let c0 = s0.in_auto_sets();
        proof {
            assert(c0.memberships() =~= params_accesses(g[0].params@));
        }
        let mut cs: Vec<SystemConfig> = Vec::new();
        cs.push(c0);
        proof {
            assert(cs@ =~= seq![c0]);
        }
        cs
    }
}

impl InferFlowEach for (System, System) {
    open spec fn group(self) -> Seq<System> {
        seq![self.0, self.1]
    }

    fn each_in_auto_sets(self) -> (cs: Vec<SystemConfig>) {
        let ghost g = self.group();
        let (s0, s1) = self;
        let c0 = s0.in_auto_sets();
        let c1 = s1.in_auto_sets();
        proof {
            assert(c0.memberships() =~= params_accesses(g[0].params@));
            assert(c1.memberships() =~= params_accesses(g[1].params@));
        }
        let mut cs: Vec<SystemConfig> = Vec::new();
        cs.push(c0);
        cs.push(c1);
        proof {
            assert(cs@ =~= seq![c0, c1]);
        }
        cs
    }
}

impl InferFlowEach for (System, System, System) {
    open spec fn group(self) -> Seq<System> {
        seq![self.0, self.1, self.2]
    }

    fn each_in_auto_sets(self) -> (cs: Vec<SystemConfig>) {
        let ghost g = self.group();
        let (s0, s1, s2) = self;
        let c0 = s0.in_auto_sets();
        let c1 = s1.in_auto_sets();
        let c2 = s2.in_auto_sets();
        proof {
            assert(c0.memberships() =~= params_accesses(g[0].params@));
            assert(c1.memberships() =~= params_accesses(g[1].params@));
            assert(c2.memberships() =~= params_accesses(g[2].params@));
        }
        let mut cs: Vec<SystemConfig> = Vec::new();
        cs.push(c0);
        cs.push(c1);
        cs.push(c2);
        proof {
            assert(cs@ =~= seq![c0, c1, c2]);
        }
        cs
    }
}

} // verus!
