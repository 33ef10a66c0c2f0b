//! What holds of an appliance as a whole: its units, and what it reports of them.

use super::appliance::{
    function_reports, is_served_on, is_unit, scope_reports, values_seen, FunctionView,
    HvacApplianceView, HvacEventView, HvacUnitView, ScopeView,
};
use super::learning_laws::{
    law_learning_again_changes_nothing, law_learning_setpoints_again_teaches_nothing,
};
use super::peer::HvacPeerView;
use super::setpoint::SetpointsView;
use super::system_function::SystemFunctionView;
use crate::address::{FeatureAddressView, UnitIdView};
use crate::assoc::{law_lookup_after_store, lemma_place, lookup, place_of};
use crate::model::{HvacSystemFunctionType, Payload, SetpointId};
use crate::number::Number;
use crate::seqs::{first_index, lemma_first_index, lemma_first_index_is};
use crate::spine::EngineView;
use crate::time::Duration;
use crate::usecases::monitoring::appliance::UnitPeerView;
use vstd::prelude::*;

verus! {

/// No two units are the same.
pub open spec fn distinct_units(appliance: HvacApplianceView) -> bool {
    forall|i: int, j: int|
        0 <= i < j < appliance.units.len() ==> (#[trigger] appliance.units[i]).id != (
        #[trigger] appliance.units[j]).id
}

/// Use cases of one entity gather on one unit, and those of different entities on different
/// ones: attaching keeps the units distinct, and adds one exactly for an entity that is new.
pub proof fn law_use_cases_gather_on_their_unit(
    appliance: HvacApplianceView,
    engine: EngineView,
    peer: HvacPeerView,
    now: Duration,
)
    requires
        distinct_units(appliance),
    ensures
        ({
            let after = appliance.attached(engine, peer, now).0;
            &&& distinct_units(after)
            &&& after.units.len() == appliance.units.len() + if appliance.unit(
                peer.unit(),
            ) is Some {
                0int
            } else {
                1int
            }
        }),
{
    lemma_first_index(appliance.units, is_unit(peer.unit()));
    let after = appliance.attached(engine, peer, now).0;
    assert forall|i: int, j: int| 0 <= i < j < after.units.len() implies (
    #[trigger] after.units[i]).id != (#[trigger] after.units[j]).id by {
        if j < appliance.units.len() {
            assert(appliance.units[i].id != appliance.units[j].id);
        } else {
            assert(!is_unit(peer.unit())(appliance.units[i]));
        }
    }
}

/// What is known of a function is kept when its use case is attached again.
pub proof fn law_attaching_again_keeps_what_is_known(
    unit: HvacUnitView,
    peer: HvacPeerView,
    kind: HvacSystemFunctionType,
)
    requires
        unit.function(kind) is Some,
    ensures
        unit.taking_up(peer).function(kind) == unit.function(kind),
{
    let wanted = super::appliance::of_kind(kind);
    let after = unit.taking_up(peer);
    lemma_first_index(unit.functions, wanted);
    let index = first_index(unit.functions, wanted)->0;
    assert forall|i: int| 0 <= i < index implies !wanted(#[trigger] after.functions[i]) by {
        assert(!wanted(unit.functions[i]));
    }
    crate::seqs::lemma_first_index_is(after.functions, wanted, index);
}

/// Units do not hear each other: data of a feature reaches the one unit that the feature belongs
/// to, and leaves every other unit as it was; data of a feature that is not followed reaches none.
pub proof fn law_units_do_not_hear_each_other(
    appliance: HvacApplianceView,
    feature: FeatureAddressView,
    data: Payload,
)
    ensures
        ({
            let (after, events) = appliance.informed(feature, data);
            &&& after.units.len() == appliance.units.len()
            &&& forall|i: int|
                0 <= i < appliance.units.len() && !(#[trigger] appliance.units[i]).serves(
                    feature,
                ) ==> after.units[i] == appliance.units[i]
            &&& (forall|i: int|
                0 <= i < appliance.units.len() ==> !(#[trigger] appliance.units[i]).serves(
                    feature,
                )) ==> after == appliance && events.len() == 0
        }),
{
    lemma_first_index(appliance.units, is_served_on(feature));
    match first_index(appliance.units, is_served_on(feature)) {
        Some(index) => {
            assert(appliance.units[index].serves(feature));
        },
        None => {},
    }
}

/// Only changes are reported: a mode or an overrun that is notified again as it was gives no
/// event, and a function is reported as described once.
pub proof fn law_only_changes_are_reported(
    function: FunctionView,
    unit: UnitIdView,
    data: Payload,
)
    ensures
        ({
            let after = function.informed(data);
            let events = function.reports(unit, data);
            &&& forall|i: int|
                0 <= i < events.len() && (#[trigger] events[i]) is ModeChanged ==> function.mode
                    != after.mode && after.mode == Some(events[i]->ModeChanged_id)
            &&& forall|i: int|
                0 <= i < events.len() && (#[trigger] events[i]) is OverrunChanged
                    ==> function.overrun != after.overrun && after.overrun == Some(
                    events[i]->OverrunChanged_report,
                )
            &&& forall|i: int|
                0 <= i < events.len() && (#[trigger] events[i]) is FunctionDescribed
                    ==> !function.described && after.described
            &&& function.described ==> after.described
        }),
{
}

/// A change of mode is never lost: where the mode is another and its kind is known, it is
/// reported.
pub proof fn law_changes_of_mode_are_reported(
    function: FunctionView,
    unit: UnitIdView,
    data: Payload,
)
    requires
        SystemFunctionView::concerns(data),
        function.reader.learned(data).mode() is Some,
        function.reader.learned(data).mode_id() != function.mode,
    ensures
        function.reports(unit, data).contains(
            (HvacEventView::ModeChanged {
                unit,
                function: function.kind,
                mode: function.reader.learned(data).mode()->0,
                id: function.reader.learned(data).mode_id()->0,
            }),
        ),
{
    let events = function.reports(unit, data);
    let reader = function.reader.learned(data);
    let place = if !function.described && reader.complete() {
        1int
    } else {
        0int
    };
    assert(events[place] == (HvacEventView::ModeChanged {
        unit,
        function: function.kind,
        mode: reader.mode()->0,
        id: reader.mode_id()->0,
    }));
}

/// A thermometer and a setpoint on one entity of a device answer to one key.
pub proof fn law_one_entity_is_one_unit(peer: HvacPeerView, thermometer: UnitPeerView)
    requires
        peer.device == thermometer.device,
        thermometer.measurement matches Some(feature) && feature.path() == peer.hvac.path(),
    ensures
        peer.unit() == thermometer.unit(),
{
}

/// Whether nothing but the end of an overrun is reported.
pub open spec fn only_ends(events: Seq<HvacEventView>) -> bool {
    forall|i: int| 0 <= i < events.len() ==> (#[trigger] events[i]) is OverrunFinished
}

proof fn lemma_function_repeats(function: FunctionView, unit: UnitIdView, data: Payload)
    ensures
        only_ends(function.informed(data).reports(unit, data)),
        !(data is HvacOverrunListData) ==> function.informed(data).reports(unit, data).len() == 0,
{
    law_learning_again_changes_nothing(function.reader, data);
}

proof fn lemma_functions_repeat(
    functions: Seq<FunctionView>,
    after: Seq<FunctionView>,
    unit: UnitIdView,
    data: Payload,
)
    requires
        after.len() == functions.len(),
        forall|i: int|
            0 <= i < functions.len() ==> #[trigger] after[i] == functions[i].informed(data),
    ensures
        only_ends(function_reports(after, unit, data)),
        !(data is HvacOverrunListData) ==> function_reports(after, unit, data).len() == 0,
    decreases functions.len(),
{
    if functions.len() > 0 {
        let (rest, done) = (functions.drop_last(), after.drop_last());
        assert forall|i: int| 0 <= i < rest.len() implies #[trigger] done[i]
            == rest[i].informed(data) by {
            assert(after[i] == functions[i].informed(data));
        }
        lemma_functions_repeat(rest, done, unit, data);
        let index = functions.len() - 1;
        assert(after[index] == functions[index].informed(data));
        lemma_function_repeats(functions[index], unit, data);
        let before = function_reports(done, unit, data);
        let added = after.last().reports(unit, data);
        assert forall|i: int| 0 <= i < (before + added).len() implies (
        #[trigger] (before + added)[i]) is OverrunFinished by {
            if i < before.len() {
                assert(before[i] is OverrunFinished);
            } else {
                assert(added[i - before.len()] is OverrunFinished);
            }
        }
    }
}

/// What is looked at is seen.
proof fn lemma_seen(
    reader: SetpointsView,
    seen: Seq<(SetpointId, Number)>,
    unit: UnitIdView,
    setpoints: Seq<SetpointId>,
    id: SetpointId,
)
    ensures
        setpoints.contains(id) && lookup(reader.values, id) is Some ==> lookup(
            values_seen(reader, seen, unit, setpoints).0,
            id,
        ) == lookup(reader.values, id),
    decreases setpoints.len(),
{
    if setpoints.len() > 0 {
        let rest = setpoints.drop_last();
        lemma_seen(reader, seen, unit, rest, id);
        let before = values_seen(reader, seen, unit, rest).0;
        if let Some(degrees) = lookup(reader.values, setpoints.last()) {
            law_lookup_after_store(before, setpoints.last(), degrees, id);
        }
        if setpoints.contains(id) && id != setpoints.last() {
            let k = choose|k: int| 0 <= k < setpoints.len() && setpoints[k] == id;
            assert(rest[k] == id);
        }
    }
}

/// What was seen is not reported.
proof fn lemma_nothing_new(
    reader: SetpointsView,
    seen: Seq<(SetpointId, Number)>,
    unit: UnitIdView,
    setpoints: Seq<SetpointId>,
)
    requires
        forall|k: int|
            0 <= k < setpoints.len() && lookup(reader.values, #[trigger] setpoints[k]) is Some
                ==> lookup(seen, setpoints[k]) == lookup(reader.values, setpoints[k]),
    ensures
        values_seen(reader, seen, unit, setpoints) == (seen, Seq::<HvacEventView>::empty()),
    decreases setpoints.len(),
{
    if setpoints.len() > 0 {
        let rest = setpoints.drop_last();
        assert forall|k: int|
            0 <= k < rest.len() && lookup(reader.values, #[trigger] rest[k]) is Some implies lookup(
            seen,
            rest[k],
        ) == lookup(reader.values, rest[k]) by {
            assert(rest[k] == setpoints[k]);
        }
        lemma_nothing_new(reader, seen, unit, rest);
        assert(setpoints.last() == setpoints[setpoints.len() - 1]);
    }
}

proof fn lemma_scope_repeats(scope: ScopeView, unit: UnitIdView, data: Payload)
    ensures
        scope.informed(unit, data).0.informed(unit, data).1 == Seq::<HvacEventView>::empty(),
{
    if SetpointsView::concerns(data) {
        let once = scope.reader.learned(data);
        let twice = once.learned(data);
        let looked_at = ScopeView::setpoints(once);
        let again = ScopeView::setpoints(twice);
        let seen = scope.informed(unit, data).0.seen;
        law_learning_setpoints_again_teaches_nothing(scope.reader, data, SetpointId(0));
        assert forall|k: int|
            0 <= k < again.len() && lookup(twice.values, #[trigger] again[k]) is Some implies lookup(
            seen,
            again[k],
        ) == lookup(twice.values, again[k]) by {
            let id = again[k];
            law_learning_setpoints_again_teaches_nothing(scope.reader, data, id);
            lemma_place(twice.temperatures, id);
            lemma_place(once.temperatures, id);
            assert(twice.temperatures[k].0 == id);
            let place = place_of(once.temperatures, id)->0;
            assert(looked_at[place] == id);
            lemma_seen(once, scope.seen, unit, looked_at, id);
        }
        lemma_nothing_new(twice, seen, unit, again);
    }
}

proof fn lemma_scopes_repeat(
    scopes: Seq<ScopeView>,
    after: Seq<ScopeView>,
    unit: UnitIdView,
    data: Payload,
)
    requires
        after.len() == scopes.len(),
        forall|i: int|
            0 <= i < scopes.len() ==> #[trigger] after[i] == scopes[i].informed(unit, data).0,
    ensures
        scope_reports(after, unit, data) == Seq::<HvacEventView>::empty(),
    decreases scopes.len(),
{
    if scopes.len() > 0 {
        let (rest, done) = (scopes.drop_last(), after.drop_last());
        assert forall|i: int| 0 <= i < rest.len() implies #[trigger] done[i] == rest[i].informed(
            unit,
            data,
        ).0 by {
            assert(after[i] == scopes[i].informed(unit, data).0);
        }
        lemma_scopes_repeat(rest, done, unit, data);
        let index = scopes.len() - 1;
        assert(after[index] == scopes[index].informed(unit, data).0);
        lemma_scope_repeats(scopes[index], unit, data);
        assert(scope_reports(after, unit, data) =~= Seq::<HvacEventView>::empty());
    }
}

/// A notification that is repeated reports no change: nothing is reported the second time but the
/// end of an overrun, where the notification announces one.
pub proof fn law_repeated_notifications_report_no_change(
    appliance: HvacApplianceView,
    feature: FeatureAddressView,
    data: Payload,
)
    ensures
        ({
            let events = appliance.informed(feature, data).0.informed(feature, data).1;
            &&& only_ends(events)
            &&& !(data is HvacOverrunListData) ==> events == Seq::<HvacEventView>::empty()
        }),
{
    let wanted = is_served_on(feature);
    lemma_first_index(appliance.units, wanted);
    let once = appliance.informed(feature, data).0;
    if let Some(index) = first_index(appliance.units, wanted) {
        let unit = appliance.units[index];
        let after = unit.informed(data).0;
        assert(once.units[index] == after);
        assert forall|i: int| 0 <= i < index implies !wanted(#[trigger] once.units[i]) by {
            assert(!wanted(appliance.units[i]));
        }
        assert(wanted(after));
        lemma_first_index_is(once.units, wanted, index);
        lemma_functions_repeat(unit.functions, after.functions, unit.id, data);
        lemma_scopes_repeat(unit.scopes, after.scopes, unit.id, data);
        let events = once.informed(feature, data).1;
        assert(events =~= function_reports(after.functions, unit.id, data));
        if !(data is HvacOverrunListData) {
            assert(events =~= Seq::<HvacEventView>::empty());
        }
    }
}

} // verus!
