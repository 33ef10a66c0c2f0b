//! What an appliance is told of its units: every change, once, and nothing that is no change.

use super::appliance::{
    for_function, function_reports, is_elsewhere, is_other_unit, is_served_on, is_unit, of_kind,
    scope_reports, values_seen, FunctionView, HvacApplianceView, HvacEventView, HvacUnitView,
    ScopeView,
};
use super::function_among;
use super::peer::HvacPeerView;
use super::setpoint::{valid_count, SetpointsView};
use super::system_function::{
    own_mode_id, state_of_function, state_of_overrun, ModeRefused, Request, SystemFunctionView,
};
use crate::address::{FeatureAddressView, UnitIdView};
use crate::assoc::{law_lookup_after_store, lookup};
use crate::model::{
    HvacOperationModeType, HvacOverrunData, HvacOverrunId, HvacOverrunStatus,
    HvacSystemFunctionData, HvacSystemFunctionDescriptionData, HvacSystemFunctionId,
    HvacSystemFunctionType, Payload, SetpointId,
};
use crate::number::Number;
use crate::seqs::{
    first_index, lemma_filtered, lemma_first_index, lemma_first_index_is, lemma_no_first_index,
};
use crate::spine::{EngineView, SpineEvent};
use crate::time::Duration;
use vstd::prelude::*;

verus! {

/// Of the setpoints that are looked at, each has the value that was read as the one last seen, and
/// is reported exactly if that is another than was seen before.
pub proof fn law_changed_values_are_reported(
    reader: SetpointsView,
    seen: Seq<(SetpointId, Number)>,
    unit: UnitIdView,
    setpoints: Seq<SetpointId>,
    id: SetpointId,
    degrees: Number,
)
    ensures
        ({
            let (after, events) = values_seen(reader, seen, unit, setpoints);
            let event = HvacEventView::SetpointChanged { unit, setpoint: id, degrees };
            let read = setpoints.contains(id) && lookup(reader.values, id) == Some(degrees);
            &&& read ==> lookup(after, id) == Some(degrees)
            &&& !setpoints.contains(id) || lookup(reader.values, id) is None ==> lookup(after, id)
                == lookup(seen, id)
            &&& events.contains(event) <==> read && lookup(seen, id) != Some(degrees)
            &&& forall|i: int|
                0 <= i < events.len() ==> (#[trigger] events[i]) is SetpointChanged
                    && events[i]->SetpointChanged_unit == unit
        }),
    decreases setpoints.len(),
{
    if setpoints.len() > 0 {
        let rest = setpoints.drop_last();
        law_changed_values_are_reported(reader, seen, unit, rest, id, degrees);
        let (before, earlier) = values_seen(reader, seen, unit, rest);
        let (after, events) = values_seen(reader, seen, unit, setpoints);
        let last = setpoints[setpoints.len() - 1];
        let event = HvacEventView::SetpointChanged { unit, setpoint: id, degrees };
        assert(setpoints.contains(id) <==> rest.contains(id) || last == id) by {
            if setpoints.contains(id) {
                let i = choose|i: int| 0 <= i < setpoints.len() && setpoints[i] == id;
                if i < rest.len() {
                    assert(rest[i] == id);
                }
            }
            if rest.contains(id) {
                let i = choose|i: int| 0 <= i < rest.len() && rest[i] == id;
                assert(setpoints[i] == id);
            }
            if last == id {
                assert(setpoints[setpoints.len() - 1] == id);
            }
        }
        if let Some(read) = lookup(reader.values, last) {
            law_lookup_after_store(before, last, read, id);
            if lookup(before, last) != Some(read) {
                let added = HvacEventView::SetpointChanged {
                    unit,
                    setpoint: last,
                    degrees: read,
                };
                assert(events == earlier.push(added));
                assert(events[events.len() - 1] == added);
                assert(events.contains(event) <==> earlier.contains(event) || added == event) by {
                    if events.contains(event) {
                        let k = choose|k: int| 0 <= k < events.len() && events[k] == event;
                        if k < earlier.len() {
                            assert(earlier[k] == event);
                        }
                    }
                    if earlier.contains(event) {
                        let k = choose|k: int| 0 <= k < earlier.len() && earlier[k] == event;
                        assert(events[k] == event);
                    }
                }
            }
        }
    }
}

/// A scope takes in what arrives of its setpoints, reports each collected setpoint whose value
/// changed, and serves the same functions as before.
pub proof fn law_scopes_take_in_what_arrives(
    scope: ScopeView,
    unit: UnitIdView,
    data: Payload,
    place: int,
    degrees: Number,
)
    requires
        SetpointsView::concerns(data),
        0 <= place < scope.reader.learned(data).temperatures.len(),
    ensures
        ({
            let (after, events) = scope.informed(unit, data);
            let id = after.reader.temperatures[place].0;
            &&& after.reader == scope.reader.learned(data)
            &&& after.scope == scope.scope && after.functions == scope.functions
            &&& lookup(after.reader.values, id) == Some(degrees) ==> lookup(after.seen, id) == Some(
                degrees,
            )
            &&& lookup(after.reader.values, id) == Some(degrees) && lookup(scope.seen, id) != Some(
                degrees,
            ) <==> events.contains(
                (HvacEventView::SetpointChanged { unit, setpoint: id, degrees }),
            )
        }),
{
    let reader = scope.reader.learned(data);
    let setpoints = ScopeView::setpoints(reader);
    let id = reader.temperatures[place].0;
    assert(setpoints[place] == id);
    assert(setpoints.contains(id));
    law_changed_values_are_reported(reader, scope.seen, unit, setpoints, id, degrees);
}

/// What is not about setpoints leaves a scope alone.
pub proof fn law_scopes_ignore_what_is_not_theirs(scope: ScopeView, unit: UnitIdView, data: Payload)
    requires
        !SetpointsView::concerns(data),
    ensures
        scope.informed(unit, data).0 == scope,
        scope.informed(unit, data).1.len() == 0,
{
}

proof fn lemma_function_reports(
    functions: Seq<FunctionView>,
    unit: UnitIdView,
    data: Payload,
    index: int,
    event: HvacEventView,
)
    requires
        0 <= index < functions.len(),
        functions[index].reports(unit, data).contains(event),
    ensures
        function_reports(functions, unit, data).contains(event),
    decreases functions.len(),
{
    let rest = functions.drop_last();
    let all = function_reports(functions, unit, data);
    let earlier = function_reports(rest, unit, data);
    let last = functions[functions.len() - 1].reports(unit, data);
    assert(all == earlier + last);
    if index == functions.len() - 1 {
        let k = choose|k: int| 0 <= k < last.len() && last[k] == event;
        assert(all[earlier.len() + k] == event);
    } else {
        assert(rest[index] == functions[index]);
        lemma_function_reports(rest, unit, data, index, event);
        let k = choose|k: int| 0 <= k < earlier.len() && earlier[k] == event;
        assert(all[k] == event);
    }
}

proof fn lemma_scope_reports(
    scopes: Seq<ScopeView>,
    unit: UnitIdView,
    data: Payload,
    index: int,
    event: HvacEventView,
)
    requires
        0 <= index < scopes.len(),
        scopes[index].informed(unit, data).1.contains(event),
    ensures
        scope_reports(scopes, unit, data).contains(event),
    decreases scopes.len(),
{
    let rest = scopes.drop_last();
    let all = scope_reports(scopes, unit, data);
    let earlier = scope_reports(rest, unit, data);
    let last = scopes[scopes.len() - 1].informed(unit, data).1;
    assert(all == earlier + last);
    if index == scopes.len() - 1 {
        let k = choose|k: int| 0 <= k < last.len() && last[k] == event;
        assert(all[earlier.len() + k] == event);
    } else {
        assert(rest[index] == scopes[index]);
        lemma_scope_reports(rest, unit, data, index, event);
        let k = choose|k: int| 0 <= k < earlier.len() && earlier[k] == event;
        assert(all[k] == event);
    }
}

/// What a function or a scope of a unit has to report, the unit reports, and what a unit reports
/// the appliance does, whichever of its features the data came from.
pub proof fn law_reports_reach_the_application(
    appliance: HvacApplianceView,
    feature: FeatureAddressView,
    data: Payload,
    index: int,
    place: int,
    event: HvacEventView,
)
    requires
        first_index(appliance.units, is_served_on(feature)) == Some(index),
    ensures
        ({
            let unit = appliance.units[index];
            let events = appliance.informed(feature, data).1;
            &&& 0 <= place < unit.functions.len() && unit.functions[place].reports(
                unit.id,
                data,
            ).contains(event) ==> events.contains(event)
            &&& 0 <= place < unit.scopes.len() && unit.scopes[place].informed(
                unit.id,
                data,
            ).1.contains(event) ==> events.contains(event)
        }),
{
    let unit = appliance.units[index];
    let functions = function_reports(unit.functions, unit.id, data);
    let scopes = scope_reports(unit.scopes, unit.id, data);
    let events = appliance.informed(feature, data).1;
    lemma_first_index(appliance.units, is_served_on(feature));
    assert(events == functions + scopes);
    if 0 <= place < unit.functions.len() && unit.functions[place].reports(unit.id, data).contains(
        event,
    ) {
        lemma_function_reports(unit.functions, unit.id, data, place, event);
        let k = choose|k: int| 0 <= k < functions.len() && functions[k] == event;
        assert(events[k] == event);
    }
    if 0 <= place < unit.scopes.len() && unit.scopes[place].informed(unit.id, data).1.contains(
        event,
    ) {
        lemma_scope_reports(unit.scopes, unit.id, data, place, event);
        let k = choose|k: int| 0 <= k < scopes.len() && scopes[k] == event;
        assert(events[functions.len() + k] == event);
    }
}

/// A unit is served by its own features: the one for modes, and the one for setpoints.
pub proof fn law_units_are_served_by_their_features(
    unit: HvacUnitView,
    feature: FeatureAddressView,
)
    ensures
        unit.serves(feature) <==> feature.device == Some(unit.id.device) && (
        unit.hvac.shares_feature(feature) || (unit.setpoint matches Some(setpoint)
            && setpoint.shares_feature(feature))),
{
}

/// Replies and notifications are taken in alike, and nothing else is.
pub proof fn law_replies_and_notifications_are_taken_in(
    appliance: HvacApplianceView,
    event: SpineEvent,
)
    ensures
        event matches SpineEvent::ReplyReceived { feature, resolved } ==> appliance.stepped(event)
            == appliance.informed(feature@, resolved@),
        event matches SpineEvent::DataNotified { feature, resolved } ==> appliance.stepped(event)
            == appliance.informed(feature@, resolved@),
        !(event is ReplyReceived) && !(event is DataNotified) ==> appliance.stepped(event).0
            == appliance && appliance.stepped(event).1.len() == 0,
{
}

/// Attaching a use case that controls modes adds its function, one that controls temperatures its
/// scope, each once, with nothing known of it yet; the features are those it was found with, and
/// what is known of everything else stays.
pub proof fn law_attaching_adds_what_is_new(unit: HvacUnitView, peer: HvacPeerView)
    ensures
        ({
            let after = unit.taking_up(peer);
            let kind = peer.subject.function;
            &&& after.id == unit.id && after.hvac == peer.hvac
            &&& peer.setpoint is Some ==> after.setpoint == peer.setpoint
            &&& peer.setpoint is None ==> after.setpoint == unit.setpoint
            &&& peer.subject.scope is None ==> after.scopes == unit.scopes
            &&& peer.subject.scope is None && unit.function(kind) is Some ==> after.functions
                == unit.functions
            &&& peer.subject.scope is None && unit.function(kind) is None ==> {
                let added = after.functions.last();
                &&& after.functions.drop_last() == unit.functions
                &&& after.functions.len() == unit.functions.len() + 1
                &&& added.kind == kind && added.reader.kind == kind && added.reader.overrun_type
                    == peer.subject.overrun
                &&& added.reader.function is None && added.reader.modes.len() == 0
                    && added.reader.states.len() == 0 && added.reader.related.len() == 0
                &&& !added.described && added.mode is None && added.overrun is None
            }
            &&& peer.subject.scope matches Some(scope) ==> {
                &&& after.functions == unit.functions
                &&& match first_index(unit.scopes, super::appliance::of_scope(scope)) {
                    Some(index) => after.scopes.len() == unit.scopes.len()
                        && after.scopes[index].functions.contains(kind)
                        && after.scopes[index].reader == unit.scopes[index].reader
                        && after.scopes[index].seen == unit.scopes[index].seen && (forall|i: int|
                        0 <= i < unit.scopes.len() && i != index ==> (#[trigger] after.scopes[i])
                            == unit.scopes[i]),
                    None => after.scopes.drop_last() == unit.scopes && after.scopes.len()
                        == unit.scopes.len() + 1 && after.scopes.last().scope == scope
                        && after.scopes.last().functions.len() == 1
                        && after.scopes.last().functions[0] == kind
                        && after.scopes.last().reader.scope == scope
                        && after.scopes.last().reader.temperatures.len() == 0
                        && after.scopes.last().reader.values.len() == 0
                        && after.scopes.last().seen.len() == 0,
                }
            }
        }),
{
    let after = unit.taking_up(peer);
    assert(unit.function(peer.subject.function) is None && peer.subject.scope is None
        ==> after.functions.drop_last() =~= unit.functions);
    if let Some(scope) = peer.subject.scope {
        lemma_first_index(unit.scopes, super::appliance::of_scope(scope));
        if let Some(index) = first_index(unit.scopes, super::appliance::of_scope(scope)) {
            let served = after.scopes[index].functions;
            if !unit.scopes[index].functions.contains(peer.subject.function) {
                assert(served[served.len() - 1] == peer.subject.function);
            }
        } else {
            assert(after.scopes.drop_last() =~= unit.scopes);
        }
    }
}

/// Attaching follows the unit, and leaves every other unit as it was.
pub proof fn law_attaching_leaves_other_units(
    appliance: HvacApplianceView,
    engine: EngineView,
    peer: HvacPeerView,
    now: Duration,
)
    ensures
        ({
            let (after, sent, following) = appliance.attached(engine, peer, now);
            &&& after.client == appliance.client
            &&& (sent, following) == peer.followed(engine, appliance.client, now)
            &&& forall|i: int|
                0 <= i < appliance.units.len() && (#[trigger] appliance.units[i]).id != peer.unit()
                    ==> after.units[i] == appliance.units[i]
        }),
{
    lemma_first_index(appliance.units, is_unit(peer.unit()));
    if let Some(index) = first_index(appliance.units, is_unit(peer.unit())) {
        assert(is_unit(peer.unit())(appliance.units[index]));
    }
}

/// A function is found by its kind: the first description of it gives its number.
pub proof fn law_a_function_is_found_by_its_kind(
    reader: SystemFunctionView,
    entries: Seq<HvacSystemFunctionDescriptionData>,
    at: int,
    id: HvacSystemFunctionId,
)
    requires
        0 <= at < entries.len(),
        entries[at].system_function_id == Some(id),
        entries[at].system_function_type == Some(reader.kind),
        forall|i: int|
            0 <= i < at ==> (#[trigger] entries[i]).system_function_type != Some(reader.kind),
    ensures
        ({
            let after = reader.learned(
                Payload::HvacSystemFunctionDescriptionListData(Some(entries)),
            );
            &&& after.function == Some(id)
            &&& after == SystemFunctionView { function: after.function, ..reader }
        }),
{
    lemma_first_index_is(entries, super::describes_kind(reader.kind), at);
}

/// A description that does not name the function leaves its number as it was known.
pub proof fn law_other_functions_are_not_taken(
    reader: SystemFunctionView,
    entries: Seq<HvacSystemFunctionDescriptionData>,
)
    requires
        forall|i: int|
            0 <= i < entries.len() ==> (#[trigger] entries[i]).system_function_type != Some(
                reader.kind,
            ),
    ensures
        reader.learned(Payload::HvacSystemFunctionDescriptionListData(Some(entries))) == reader,
        function_among(
            Payload::HvacSystemFunctionDescriptionListData(Some(entries)),
            reader.kind,
        ) is None,
{
    lemma_no_first_index(entries, super::describes_kind(reader.kind));
}

/// How many setpoints a mode may use: one where it is simply on or saves energy, up to four where
/// it chooses among them, at most one where it is off, and any number up to four otherwise.
pub proof fn law_modes_use_so_many_setpoints(mode: HvacOperationModeType, count: nat)
    ensures
        mode is On || mode is Eco ==> (valid_count(mode, count) <==> count == 1),
        mode is Auto ==> (valid_count(mode, count) <==> 1 <= count <= 4),
        mode is Off ==> (valid_count(mode, count) <==> count <= 1),
        mode is Other ==> (valid_count(mode, count) <==> count <= 4),
{
}

/// The modes that a device numbers itself have numbers of their own.
pub proof fn law_own_modes_are_numbered_apart(a: HvacOperationModeType, b: HvacOperationModeType)
    ensures
        own_mode_id(a) is Some <==> !(a is Other),
        a != b && own_mode_id(a) is Some ==> own_mode_id(a) != own_mode_id(b),
{
}

/// What is known of a unit is found under its own key, of a function under its own kind, and of
/// setpoints under a function that they serve; and it is found wherever it is there.
pub proof fn law_what_is_known_is_found_under_its_key(
    appliance: HvacApplianceView,
    id: UnitIdView,
    unit: HvacUnitView,
    kind: HvacSystemFunctionType,
    index: int,
)
    ensures
        appliance.unit(id) matches Some(found) ==> found.id == id && appliance.units.contains(found),
        0 <= index < appliance.units.len() && appliance.units[index].id == id ==> appliance.unit(
            id,
        ) is Some,
        unit.function(kind) matches Some(found) ==> found.kind == kind && unit.functions.contains(
            found,
        ),
        0 <= index < unit.functions.len() && unit.functions[index].kind == kind ==> unit.function(
            kind,
        ) is Some,
        unit.setpoints_of(kind) matches Some(reader) ==> exists|i: int|
            0 <= i < unit.scopes.len() && (#[trigger] unit.scopes[i]).reader == reader
                && unit.scopes[i].functions.contains(kind),
        0 <= index < unit.scopes.len() && unit.scopes[index].functions.contains(kind)
            ==> unit.setpoints_of(kind) is Some,
        appliance.reader(id, kind) == match appliance.unit(id) {
            Some(found) => match found.function(kind) {
                Some(function) => Some(function.reader),
                None => None,
            },
            None => None,
        },
        appliance.setpoints(id, kind) == match appliance.unit(id) {
            Some(found) => found.setpoints_of(kind),
            None => None,
        },
{
    lemma_first_index(appliance.units, is_unit(id));
    lemma_first_index(unit.functions, of_kind(kind));
    lemma_first_index(unit.scopes, for_function(kind));
    if let Some(i) = first_index(appliance.units, is_unit(id)) {
        assert(is_unit(id)(appliance.units[i]));
    } else if 0 <= index < appliance.units.len() {
        assert(!is_unit(id)(appliance.units[index]));
    }
    if let Some(i) = first_index(unit.functions, of_kind(kind)) {
        assert(of_kind(kind)(unit.functions[i]));
    } else if 0 <= index < unit.functions.len() {
        assert(!of_kind(kind)(unit.functions[index]));
    }
    if let Some(i) = first_index(unit.scopes, for_function(kind)) {
        assert(for_function(kind)(unit.scopes[i]));
    } else if 0 <= index < unit.scopes.len() {
        assert(!for_function(kind)(unit.scopes[index]));
    }
}

/// Detaching a unit forgets that unit, and detaching a device all of its units; every other one is
/// kept as it was.
pub proof fn law_detaching_forgets_what_is_detached(
    units: Seq<HvacUnitView>,
    id: UnitIdView,
    device: Seq<char>,
    index: int,
    at: int,
)
    requires
        0 <= index < units.len(),
    ensures
        ({
            let one = units.filter(is_other_unit(id));
            let all = units.filter(is_elsewhere(device));
            &&& one.contains(units[index]) <==> units[index].id != id
            &&& all.contains(units[index]) <==> units[index].id.device != device
            &&& 0 <= at < one.len() ==> units.contains(one[at]) && one[at].id != id
            &&& 0 <= at < all.len() ==> units.contains(all[at]) && all[at].id.device != device
        }),
{
    broadcast use vstd::seq_lib::group_filter_ensures;

    lemma_filtered(units, is_other_unit(id));
    lemma_filtered(units, is_elsewhere(device));
    let one = units.filter(is_other_unit(id));
    let all = units.filter(is_elsewhere(device));
    assert(units.contains(units[index]));
    if units[index].id != id {
        assert(is_other_unit(id)(units[index]));
    } else if one.contains(units[index]) {
        assert(is_other_unit(id)(units[index]));
    }
    if units[index].id.device != device {
        assert(is_elsewhere(device)(units[index]));
    } else if all.contains(units[index]) {
        assert(is_elsewhere(device)(units[index]));
    }
    if 0 <= at < one.len() {
        assert(is_other_unit(id)(one[at]));
    }
    if 0 <= at < all.len() {
        assert(is_elsewhere(device)(all[at]));
    }
}

/// What a server is asked: the state that the first entry for its overrun gives is the start where
/// it is active or running, the stop where it is inactive, and nothing otherwise; the mode that the
/// first entry for its function gives is set if the function has it and may change it.
pub proof fn law_requests_are_read_from_the_entry_for_it(
    reader: SystemFunctionView,
    overruns: Seq<HvacOverrunData>,
    states: Seq<HvacSystemFunctionData>,
    at: int,
    overrun: HvacOverrunId,
    function: HvacSystemFunctionId,
)
    ensures
        reader.overrun_id() == Some(overrun) && 0 <= at < overruns.len() && overruns[at].overrun_id
            == Some(overrun) && (forall|i: int|
            0 <= i < at ==> (#[trigger] overruns[i]).overrun_id != Some(overrun)) ==> ({
            let asked = reader.requested(Payload::HvacOverrunListData(Some(overruns)));
            &&& overruns[at].overrun_status == Some(HvacOverrunStatus::Active)
                || overruns[at].overrun_status == Some(HvacOverrunStatus::Running) <==> asked
                == Ok::<Request, ModeRefused>(Request::StartOverrun(overrun))
            &&& overruns[at].overrun_status == Some(HvacOverrunStatus::Inactive) <==> asked
                == Ok::<Request, ModeRefused>(Request::StopOverrun(overrun))
            &&& overruns[at].overrun_status is None ==> asked == Err::<Request, ModeRefused>(
                ModeRefused::NotAddressed,
            )
        }),
        reader.function == Some(function) && 0 <= at < states.len()
            && states[at].system_function_id == Some(function) && (forall|i: int|
            0 <= i < at ==> (#[trigger] states[i]).system_function_id != Some(function)) ==> ({
            let asked = reader.requested(Payload::HvacSystemFunctionListData(Some(states)));
            &&& states[at].current_operation_mode_id is None ==> asked == Err::<
                Request,
                ModeRefused,
            >(ModeRefused::NotRelated)
            &&& states[at].current_operation_mode_id matches Some(mode) ==> (asked == Ok::<
                Request,
                ModeRefused,
            >(Request::SetMode(mode)) <==> reader.related_modes().contains(mode)
                && reader.changeable() != Some(false)) && (!reader.related_modes().contains(mode)
                ==> asked == Err::<Request, ModeRefused>(ModeRefused::NotRelated)) && (
            reader.related_modes().contains(mode) && reader.changeable() == Some(false) ==> asked
                == Err::<Request, ModeRefused>(ModeRefused::NotChangeable))
        }),
{
    if 0 <= at < overruns.len() && overruns[at].overrun_id == Some(overrun) && (forall|i: int|
        0 <= i < at ==> (#[trigger] overruns[i]).overrun_id != Some(overrun)) {
        lemma_first_index_is(overruns, state_of_overrun(overrun), at);
    }
    if 0 <= at < states.len() && states[at].system_function_id == Some(function) && (forall|i: int|
        0 <= i < at ==> (#[trigger] states[i]).system_function_id != Some(function)) {
        lemma_first_index_is(states, state_of_function(function), at);
    }
}

/// A refusal to change what may not be changed is told apart from not knowing what is meant.
pub proof fn law_refusals_have_their_error(refusal: ModeRefused)
    ensures
        refusal is NotChangeable ==> refusal.number() is CommandRejected,
        !(refusal is NotChangeable) ==> refusal.number() is DestinationUnknown,
{
}

} // verus!
