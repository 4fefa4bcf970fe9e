//! The guarantees of capability inference, stated as theorems.
//!
//! Each law speaks about [`params_accesses`], the set of access-sets that
//! inference induces for a declared parameter list: by the contract of
//! [`InferFlow::in_auto_sets`](crate::automagic::InferFlow::in_auto_sets),
//! a system inferred with no prior memberships belongs to exactly that set.

use vstd::prelude::*;

use crate::automagic::field_accesses;
use crate::automagic::fields_accesses;
use crate::automagic::filter_accesses;
use crate::automagic::filters_accesses;
use crate::automagic::param_accesses;
use crate::automagic::params_accesses;
use crate::automagic::ParamShape;
use crate::automagic::QueryField;
use crate::automagic::QueryFilter;
use crate::config::System;
use crate::markers::read_of;
use crate::markers::write_of;
use crate::markers::AccessSet;
use crate::markers::SlotId;

verus! {

/// One step of the union over a parameter list.
proof fn lemma_params_unfold(s: Seq<ParamShape>)
    requires
        s.len() > 0,
    ensures
        params_accesses(s) == param_accesses(s[0]).union(
            params_accesses(s.subrange(1, s.len() as int)),
        ),
{
}

/// One step of the union over a field list.
proof fn lemma_fields_unfold(s: Seq<QueryField>)
    requires
        s.len() > 0,
    ensures
        fields_accesses(s) == field_accesses(s[0]).union(
            fields_accesses(s.subrange(1, s.len() as int)),
        ),
{
}

/// One step of the union over a filter list.
proof fn lemma_filters_unfold(s: Seq<QueryFilter>)
    requires
        s.len() > 0,
    ensures
        filters_accesses(s) == filter_accesses(s[0]).union(
            filters_accesses(s.subrange(1, s.len() as int)),
        ),
{
}

/// A one-parameter list induces exactly what its parameter induces.
proof fn lemma_single_param(p: ParamShape)
    ensures
        params_accesses(seq![p]) == param_accesses(p),
{
    let s = seq![p];
    assert(s[0] == p);
    lemma_params_unfold(s);
    assert(s.subrange(1, 1) =~= Seq::<ParamShape>::empty());
    assert(params_accesses(Seq::<ParamShape>::empty()) =~= Set::<AccessSet>::empty());
    assert(params_accesses(s) =~= param_accesses(p));
}

/// A one-field list induces exactly what its field induces.
proof fn lemma_single_field(f: QueryField)
    ensures
        fields_accesses(seq![f]) == field_accesses(f),
{
    let s = seq![f];
    assert(s[0] == f);
    lemma_fields_unfold(s);
    assert(s.subrange(1, 1) =~= Seq::<QueryField>::empty());
    assert(fields_accesses(Seq::<QueryField>::empty()) =~= Set::<AccessSet>::empty());
    assert(fields_accesses(s) =~= field_accesses(f));
}

/// A one-filter list induces exactly what its filter induces.
proof fn lemma_single_filter(f: QueryFilter)
    ensures
        filters_accesses(seq![f]) == filter_accesses(f),
{
    let s = seq![f];
    assert(s[0] == f);
    lemma_filters_unfold(s);
    assert(s.subrange(1, 1) =~= Seq::<QueryFilter>::empty());
    assert(filters_accesses(Seq::<QueryFilter>::empty()) =~= Set::<AccessSet>::empty());
    assert(filters_accesses(s) =~= filter_accesses(f));
}

/// Classification has no ordering dependency between parameters: the
/// access-sets induced by a parameter list split over concatenation, so each
/// parameter's contribution to the result is independent of its position in
/// the list.
pub proof fn lemma_params_accesses_concat(s1: Seq<ParamShape>, s2: Seq<ParamShape>)
    ensures
        params_accesses(s1 + s2) == params_accesses(s1).union(params_accesses(s2)),
    decreases s1.len(),
{
    if s1.len() == 0 {
        assert(s1 + s2 =~= s2);
        assert(params_accesses(s1) =~= Set::<AccessSet>::empty());
        assert(params_accesses(s1).union(params_accesses(s2)) =~= params_accesses(s2));
    } else {
        lemma_params_unfold(s1);
        lemma_params_unfold(s1 + s2);
        assert((s1 + s2)[0] == s1[0]);
        assert((s1 + s2).subrange(1, (s1 + s2).len() as int) =~= s1.subrange(
            1,
            s1.len() as int,
        ) + s2);
        lemma_params_accesses_concat(s1.subrange(1, s1.len() as int), s2);
        assert(params_accesses(s1 + s2) =~= params_accesses(s1).union(params_accesses(s2)));
    }
}

/// For any event slot `e` and any two systems, one whose only parameter is
/// read-only access to the event stream of `e` and one whose only parameter
/// is write-producing access to it: inference folds the first into the read
/// set of `e` and not its write set, and the second into the write set and
/// not the read set.
pub proof fn lemma_event_reader_writer_flow(e: SlotId, t1: System, t2: System)
    requires
        t1.params@ == seq![ParamShape::EventReader(e)],
        t2.params@ == seq![ParamShape::EventWriter(e)],
    ensures
        params_accesses(t1.params@).contains(read_of(e)),
        !params_accesses(t1.params@).contains(write_of(e)),
        params_accesses(t2.params@).contains(write_of(e)),
        !params_accesses(t2.params@).contains(read_of(e)),
{
    lemma_single_param(ParamShape::EventReader(e));
    lemma_single_param(ParamShape::EventWriter(e));
}

/// A system declaring an immutable access to one resource and a mutable
/// access to another, distinct resource is folded into exactly the read set
/// of the first and the write set of the second, and into no other
/// access-set.
pub proof fn lemma_distinct_resources_exact(r1: SlotId, r2: SlotId, t: System)
    requires
        r1 != r2,
        t.params@ == seq![ParamShape::Res(r1), ParamShape::ResMut(r2)],
    ensures
        params_accesses(t.params@) == set![read_of(r1), write_of(r2)],
{
    let s = t.params@;
    assert(s[0] == ParamShape::Res(r1));
    lemma_params_unfold(s);
    assert(s.subrange(1, 2) =~= seq![ParamShape::ResMut(r2)]);
    lemma_single_param(ParamShape::ResMut(r2));
    assert(param_accesses(ParamShape::Res(r1)) =~= set![read_of(r1)]);
    assert(param_accesses(ParamShape::ResMut(r2)) =~= set![write_of(r2)]);
    assert(params_accesses(s) =~= set![read_of(r1), write_of(r2)]);
}

/// A system whose only parameter is a deferred-mutation handle (or any other
/// opt-out infrastructure parameter) gains no access-set membership from
/// inference: absence of inference is a contract, not an omission.
pub proof fn lemma_infra_only_no_membership(t: System)
    requires
        t.params@ == seq![ParamShape::Infra],
    ensures
        params_accesses(t.params@) == Set::<AccessSet>::empty(),
{
    lemma_single_param(ParamShape::Infra);
}

/// A system taking a row query over an immutable field of slot `a`, a
/// mutable field of slot `b` and a presence check of slot `c`, filtered by
/// "`d` was added or `e` changed", is folded into exactly: the read set of
/// `a`, the write set of `b`, and the read sets of `c`, `d` and `e`.
pub proof fn lemma_query_flow(t: System, a: SlotId, b: SlotId, c: SlotId, d: SlotId, e: SlotId)
    requires
        t.params@.len() == 1,
        t.params@[0] matches ParamShape::Query(fields, filters)
            && fields@ == seq![
                QueryField::ReadField(a),
                QueryField::WriteField(b),
                QueryField::HasField(c),
            ]
            && filters@.len() == 1
            && (filters@[0] matches QueryFilter::OrFilters(alts)
                && alts@ == seq![QueryFilter::AddedFilter(d), QueryFilter::ChangedFilter(e)]),
    ensures
        params_accesses(t.params@) == set![
            read_of(a),
            write_of(b),
            read_of(c),
            read_of(d),
            read_of(e),
        ],
{
    let q = t.params@[0];
    assert(t.params@ =~= seq![q]);
    lemma_single_param(q);
    let fields = q->Query_0;
    let filters = q->Query_1;

    let fs = fields@;
    assert(fs[0] == QueryField::ReadField(a));
    lemma_fields_unfold(fs);
    assert(fs.subrange(1, 3) =~= seq![QueryField::WriteField(b), QueryField::HasField(c)]);
    let f12 = seq![QueryField::WriteField(b), QueryField::HasField(c)];
    assert(f12[0] == QueryField::WriteField(b));
    lemma_fields_unfold(f12);
    assert(f12.subrange(1, 2) =~= seq![QueryField::HasField(c)]);
    lemma_single_field(QueryField::HasField(c));
    assert(field_accesses(QueryField::ReadField(a)) =~= set![read_of(a)]);
    assert(field_accesses(QueryField::WriteField(b)) =~= set![write_of(b)]);
    assert(field_accesses(QueryField::HasField(c)) =~= set![read_of(c)]);
    assert(fields_accesses(fs) =~= set![read_of(a), write_of(b), read_of(c)]);

    let or_filter = filters@[0];
    let alts = or_filter->OrFilters_0;
    let alt_seq = alts@;
    assert(alt_seq[0] == QueryFilter::AddedFilter(d));
    lemma_filters_unfold(alt_seq);
    assert(alt_seq.subrange(1, 2) =~= seq![QueryFilter::ChangedFilter(e)]);
    lemma_single_filter(QueryFilter::ChangedFilter(e));
    assert(filter_accesses(QueryFilter::AddedFilter(d)) =~= set![read_of(d)]);
    assert(filter_accesses(QueryFilter::ChangedFilter(e)) =~= set![read_of(e)]);
    assert(filters_accesses(alt_seq) =~= set![read_of(d), read_of(e)]);
    assert(filter_accesses(or_filter) =~= set![read_of(d), read_of(e)]);
    assert(filters@ =~= seq![or_filter]);
    lemma_single_filter(or_filter);
    assert(filters_accesses(filters@) =~= set![read_of(d), read_of(e)]);

    assert(param_accesses(q) == fields_accesses(fs).union(filters_accesses(filters@)));
    assert(param_accesses(q) =~= set![
        read_of(a),
        write_of(b),
        read_of(c),
        read_of(d),
        read_of(e),
    ]);
}

/// A system taking a parameter-set with two alternatives, one reading one
/// resource and one writing another, is folded into both the read set of the
/// first and the write set of the second, even though only one alternative
/// is live per invocation: alternatives are classified conservatively, as
/// the union over all of them.
pub proof fn lemma_param_set_union(t: System, r1: SlotId, r2: SlotId)
    requires
        t.params@.len() == 1,
        t.params@[0] matches ParamShape::ParamSet(alts)
            && alts@ == seq![ParamShape::Res(r1), ParamShape::ResMut(r2)],
    ensures
        params_accesses(t.params@).contains(read_of(r1)),
        params_accesses(t.params@).contains(write_of(r2)),
        params_accesses(t.params@) == set![read_of(r1), write_of(r2)],
{
    let q = t.params@[0];
    assert(t.params@ =~= seq![q]);
    lemma_single_param(q);
    let alts = q->ParamSet_0;
    let alt_seq = alts@;
    assert(alt_seq[0] == ParamShape::Res(r1));
    lemma_params_unfold(alt_seq);
    assert(alt_seq.subrange(1, 2) =~= seq![ParamShape::ResMut(r2)]);
    lemma_single_param(ParamShape::ResMut(r2));
    assert(param_accesses(ParamShape::Res(r1)) =~= set![read_of(r1)]);
    assert(param_accesses(ParamShape::ResMut(r2)) =~= set![write_of(r2)]);
    assert(params_accesses(alt_seq) =~= set![read_of(r1), write_of(r2)]);
    assert(param_accesses(q) == params_accesses(alt_seq));
    assert(params_accesses(t.params@) =~= set![read_of(r1), write_of(r2)]);
}

} // verus!
