//! What an appliance sends: what was asked for, to the feature that serves it, or nothing.

use super::appliance::{FunctionView, HvacApplianceView, HvacEventView, HvacUnitView};
use super::peer::{asking, HvacPeerView};
use super::setpoint::{value_of, Constraints, ModeKey, SetpointsView, WriteRefused};
use super::system_function::{
    state_of_function, state_of_overrun, ModeRefused, Request, SystemFunctionView,
};
use super::{is_mode, mode_id_of};
use crate::address::{FeatureAddressView, UnitIdView};
use crate::assoc::lookup;
use crate::model::{
    entries_of, HvacOperationModeId, HvacOperationModeType, HvacOverrunStatus,
    HvacSystemFunctionId, HvacSystemFunctionType, MsgCounter, Payload, ScaledNumber, SetpointId,
};
use crate::number::Number;
use crate::seqs::{first_index, lemma_first_index, lemma_first_index_is};
use crate::spine::{CommandView, EngineView};
use crate::time::Duration;
use vstd::prelude::*;

verus! {

/// Whether one write was added to what waits to be sent, and nothing else: to this feature, from
/// this one, with this content, setting only what it gives, under the number that is answered.
pub open spec fn one_write_sent<E>(
    before: EngineView,
    after: EngineView,
    result: Result<MsgCounter, E>,
    to: FeatureAddressView,
    from: FeatureAddressView,
    data: Payload,
    now: Duration,
) -> bool {
    &&& after.outbox.len() == before.outbox.len() + 1
    &&& after.outbox.take(before.outbox.len() as int) == before.outbox
    &&& after.outbox.last().0 == now
    &&& after.outbox.last().1 matches CommandView::Write {
        counter,
        to: target,
        from: source,
        data: content,
        filters,
    } && target == to && source == from && content == data && result == Ok::<MsgCounter, E>(counter)
        && counter == MsgCounter(before.next) && filters.len() == 1
        && filters[0].control is Partial
}

/// What a write of an overrun's state says.
pub open spec fn says_overrun(
    data: Payload,
    overrun: crate::model::HvacOverrunId,
    status: HvacOverrunStatus,
) -> bool {
    data matches Payload::HvacOverrunListData(Some(entries)) && entries.len() == 1
        && entries[0].overrun_id == Some(overrun) && entries[0].overrun_status == Some(status)
}

/// What a write of a function's mode says.
pub open spec fn says_mode(
    data: Payload,
    function: HvacSystemFunctionId,
    mode: HvacOperationModeId,
) -> bool {
    data matches Payload::HvacSystemFunctionListData(Some(entries)) && entries.len() == 1
        && entries[0].system_function_id == Some(function) && entries[0].current_operation_mode_id
        == Some(mode) && entries[0].is_operation_mode_id_changeable is None
        && entries[0].is_overrun_active is None
}

/// What a write of a temperature says.
pub open spec fn says_temperature(data: Payload, setpoint: SetpointId, degrees: Number) -> bool {
    data matches Payload::SetpointListData(Some(entries)) && entries.len() == 1
        && entries[0].setpoint_id == Some(setpoint) && entries[0].value == Some(
        ScaledNumber::encoded(degrees, 1),
    ) && entries[0].is_setpoint_changeable is None
}

/// What starts an overrun and what stops it: the one write that is queued names the overrun of the
/// function, and the server reads it as the start where the start was asked for, and as the stop
/// where the stop was. Where the function is unknown or has no overrun, nothing is sent.
pub proof fn law_overruns_are_started_and_stopped_as_asked(
    appliance: HvacApplianceView,
    engine: EngineView,
    id: UnitIdView,
    kind: HvacSystemFunctionType,
    now: Duration,
)
    ensures
        ({
            let (starting, started) = appliance.setting_overrun(
                engine,
                id,
                kind,
                HvacOverrunStatus::Active,
                now,
            );
            let (stopping, stopped) = appliance.setting_overrun(
                engine,
                id,
                kind,
                HvacOverrunStatus::Inactive,
                now,
            );
            match (appliance.unit(id), appliance.reader(id, kind)) {
                (Some(unit), Some(reader)) => match reader.overrun_id() {
                    Some(overrun) => {
                        let start = starting.outbox.last().1->Write_data;
                        let stop = stopping.outbox.last().1->Write_data;
                        &&& one_write_sent(
                            engine,
                            starting,
                            started,
                            unit.hvac,
                            appliance.client,
                            start,
                            now,
                        )
                        &&& says_overrun(start, overrun, HvacOverrunStatus::Active)
                        &&& reader.requested(start) == Ok::<Request, ModeRefused>(
                            Request::StartOverrun(overrun),
                        )
                        &&& one_write_sent(
                            engine,
                            stopping,
                            stopped,
                            unit.hvac,
                            appliance.client,
                            stop,
                            now,
                        )
                        &&& says_overrun(stop, overrun, HvacOverrunStatus::Inactive)
                        &&& reader.requested(stop) == Ok::<Request, ModeRefused>(
                            Request::StopOverrun(overrun),
                        )
                    },
                    None => starting == engine && stopping == engine && started == Err::<
                        MsgCounter,
                        ModeRefused,
                    >(ModeRefused::NoOverrun) && stopped == Err::<MsgCounter, ModeRefused>(
                        ModeRefused::NoOverrun,
                    ),
                },
                _ => starting == engine && stopping == engine && started == Err::<
                    MsgCounter,
                    ModeRefused,
                >(ModeRefused::NoOverrun) && stopped == Err::<MsgCounter, ModeRefused>(
                    ModeRefused::NoOverrun,
                ),
            }
        }),
{
    let (starting, _) = appliance.setting_overrun(engine, id, kind, HvacOverrunStatus::Active, now);
    let (stopping, _) = appliance.setting_overrun(
        engine,
        id,
        kind,
        HvacOverrunStatus::Inactive,
        now,
    );
    let n = engine.outbox.len() as int;
    if let Some(reader) = appliance.reader(id, kind) {
        if let Some(overrun) = reader.overrun_id() {
            assert(starting.outbox.take(n) =~= engine.outbox);
            assert(stopping.outbox.take(n) =~= engine.outbox);
            let start = starting.outbox.last().1->Write_data;
            let stop = stopping.outbox.last().1->Write_data;
            lemma_first_index_is(
                entries_of(start->HvacOverrunListData_0),
                state_of_overrun(overrun),
                0,
            );
            lemma_first_index_is(
                entries_of(stop->HvacOverrunListData_0),
                state_of_overrun(overrun),
                0,
            );
        }
    }
}

/// A mode is found by its kind: the one that is found is described as of that kind, and one is
/// found wherever one is described so.
pub proof fn law_modes_are_found_by_kind(
    modes: Seq<(HvacOperationModeId, HvacOperationModeType)>,
    kind: HvacOperationModeType,
    index: int,
)
    ensures
        mode_id_of(modes, kind) matches Some(id) ==> modes.contains((id, kind)),
        0 <= index < modes.len() && modes[index].1 == kind ==> mode_id_of(modes, kind) is Some,
{
    lemma_first_index(modes, is_mode(kind));
    if let Some(i) = first_index(modes, is_mode(kind)) {
        assert(is_mode(kind)(modes[i]));
        assert(modes[i] == (modes[i].0, kind));
    } else if 0 <= index < modes.len() {
        assert(!is_mode(kind)(modes[index]));
    }
}

/// A mode that was asked for is the mode that is written, where the function has it and may change
/// it; the server reads it as that mode. Otherwise nothing is sent, and the answer says why.
pub proof fn law_modes_are_set_as_asked(
    appliance: HvacApplianceView,
    engine: EngineView,
    id: UnitIdView,
    kind: HvacSystemFunctionType,
    mode: HvacOperationModeType,
    now: Duration,
)
    ensures
        ({
            let (sent, result) = appliance.setting_mode(engine, id, kind, mode, now);
            match (appliance.unit(id), appliance.reader(id, kind)) {
                (Some(unit), Some(reader)) => match (
                    mode_id_of(reader.modes, mode),
                    reader.function,
                ) {
                    (None, _) => sent == engine && result == Err::<MsgCounter, ModeRefused>(
                        ModeRefused::NotRelated,
                    ),
                    (Some(_), None) => sent == engine && result == Err::<MsgCounter, ModeRefused>(
                        ModeRefused::FunctionUnknown,
                    ),
                    (Some(wanted), Some(function)) => if !reader.related_modes().contains(wanted) {
                        sent == engine && result == Err::<MsgCounter, ModeRefused>(
                            ModeRefused::NotRelated,
                        )
                    } else if reader.changeable() == Some(false) {
                        sent == engine && result == Err::<MsgCounter, ModeRefused>(
                            ModeRefused::NotChangeable,
                        )
                    } else {
                        let data = sent.outbox.last().1->Write_data;
                        &&& one_write_sent(
                            engine,
                            sent,
                            result,
                            unit.hvac,
                            appliance.client,
                            data,
                            now,
                        )
                        &&& says_mode(data, function, wanted)
                        &&& reader.requested(data) == Ok::<Request, ModeRefused>(
                            Request::SetMode(wanted),
                        )
                    },
                },
                _ => sent == engine && result == Err::<MsgCounter, ModeRefused>(
                    ModeRefused::FunctionUnknown,
                ),
            }
        }),
{
    let (sent, result) = appliance.setting_mode(engine, id, kind, mode, now);
    if result is Ok {
        let reader = appliance.reader(id, kind)->0;
        assert(sent.outbox.take(engine.outbox.len() as int) =~= engine.outbox);
        lemma_first_index_is(
            entries_of(sent.outbox.last().1->Write_data->HvacSystemFunctionListData_0),
            state_of_function(reader.function->0),
            0,
        );
    }
}

/// A range holds the values from its least to its greatest, and no other.
pub proof fn law_a_range_holds_what_lies_between(
    constraints: Constraints,
    min: i64,
    max: i64,
    degrees: i64,
)
    requires
        constraints.min == Number::Finite(min),
        constraints.max == Number::Finite(max),
    ensures
        constraints.within(Number::Finite(degrees)) <==> min <= degrees <= max,
        !constraints.within(Number::NotANumber),
        !constraints.within(Number::PositiveInfinity),
        !constraints.within(Number::NegativeInfinity),
{
}

/// A write that is meant to change the temperature now writes the temperature that was asked for,
/// to the tenth of a degree, and leaves exactly where the setpoint is known, the mode the server
/// is in uses it, and the range allows it. Otherwise the answer says which of these fails.
pub proof fn law_effective_writes_write_what_was_asked(
    setpoints: SetpointsView,
    id: SetpointId,
    degrees: Number,
    state: SystemFunctionView,
)
    ensures
        ({
            let write = setpoints.effective_write(id, degrees, state);
            let used = setpoints.effect(id, state);
            let accepted = lookup(setpoints.constraints, id);
            &&& write is Ok <==> setpoints.knows(id) && (used is Effective
                || used is OverriddenByOverrun) && (accepted matches Some(constraints)
                && constraints.within(degrees))
            &&& write matches Ok(data) ==> says_temperature(data, id, degrees)
                && super::setpoint::written_value(data, id) == ScaledNumber::encoded(
                degrees,
                1,
            ).decoded()
            &&& write == Err::<Payload, WriteRefused>(WriteRefused::UnknownSetpoint)
                <==> !setpoints.knows(id)
            &&& write == Err::<Payload, WriteRefused>(WriteRefused::NotInCurrentMode)
                <==> setpoints.knows(id) && used is NotInCurrentMode
            &&& write == Err::<Payload, WriteRefused>(WriteRefused::ModeUnknown)
                <==> setpoints.knows(id) && used is Unknown
            &&& write == Err::<Payload, WriteRefused>(WriteRefused::NoConstraints)
                <==> setpoints.knows(id) && (used is Effective || used is OverriddenByOverrun)
                && accepted is None
            &&& !(write matches Err(WriteRefused::SeveralSetpoints { count }))
            &&& write matches Err(WriteRefused::OutOfRange { degrees: asked, min, max })
                ==> asked == degrees && (accepted matches Some(constraints) && constraints.min
                == min && constraints.max == max)
        }),
{
    if let Ok(data) = setpoints.effective_write(id, degrees, state) {
        lemma_first_index_is(entries_of(data->SetpointListData_0), value_of(id), 0);
    }
}

/// A write ahead of time writes what was asked for too, whatever mode the server is in.
pub proof fn law_writes_ahead_of_time_write_what_was_asked(
    setpoints: SetpointsView,
    id: SetpointId,
    degrees: Number,
)
    ensures
        ({
            let write = setpoints.write(id, degrees);
            let accepted = lookup(setpoints.constraints, id);
            &&& write is Ok <==> setpoints.knows(id) && (accepted matches Some(constraints)
                && constraints.within(degrees))
            &&& write matches Ok(data) ==> says_temperature(data, id, degrees)
            &&& write == Err::<Payload, WriteRefused>(WriteRefused::UnknownSetpoint)
                <==> !setpoints.knows(id)
            &&& write == Err::<Payload, WriteRefused>(WriteRefused::NoConstraints)
                <==> setpoints.knows(id) && accepted is None
        }),
{
}

/// A write of the current temperature writes it to the one setpoint that the mode the server is in
/// uses; with none or with several there is no such setpoint, and the answer says so.
pub proof fn law_the_current_temperature_goes_to_the_one_setpoint(
    setpoints: SetpointsView,
    degrees: Number,
    state: SystemFunctionView,
    function: HvacSystemFunctionId,
    mode: HvacOperationModeId,
    used: Seq<SetpointId>,
)
    requires
        state.function == Some(function),
        state.mode_id() == Some(mode),
        lookup(setpoints.relations, ModeKey { function, mode }) == Some(used),
        used.len() <= usize::MAX,
    ensures
        ({
            let write = setpoints.current_write(degrees, state);
            &&& write is Ok <==> used.len() == 1 && setpoints.knows(used[0]) && (lookup(
                setpoints.constraints,
                used[0],
            ) matches Some(constraints) && constraints.within(degrees))
            &&& write matches Ok(data) ==> says_temperature(data, used[0], degrees)
            &&& used.len() == 0 ==> write == Err::<Payload, WriteRefused>(
                WriteRefused::NotInCurrentMode,
            )
            &&& used.len() > 1 ==> (write matches Err(WriteRefused::SeveralSetpoints { count })
                && count == used.len())
            &&& used.len() == 1 ==> setpoints.current(state) == Ok::<SetpointId, WriteRefused>(
                used[0],
            )
        }),
{
}

/// Where the function, its mode or the setpoints of the mode are unknown, so is the effect of a
/// write, and none leaves for the current temperature.
pub proof fn law_an_unknown_mode_takes_no_temperature(
    setpoints: SetpointsView,
    id: SetpointId,
    degrees: Number,
    state: SystemFunctionView,
)
    requires
        !(state.function matches Some(function) && (state.mode_id() matches Some(mode) && lookup(
            setpoints.relations,
            ModeKey { function, mode },
        ) is Some)),
    ensures
        setpoints.effect(id, state) is Unknown,
        setpoints.current_write(degrees, state) == Err::<Payload, WriteRefused>(
            WriteRefused::ModeUnknown,
        ),
{
}

/// What a write does, where the mode the server is in is known: it takes effect where the mode uses
/// the setpoint, unless an overrun is over the top of it.
pub proof fn law_effects_follow_the_mode(
    setpoints: SetpointsView,
    id: SetpointId,
    state: SystemFunctionView,
    function: HvacSystemFunctionId,
    mode: HvacOperationModeId,
    used: Seq<SetpointId>,
)
    requires
        state.function == Some(function),
        state.mode_id() == Some(mode),
        lookup(setpoints.relations, ModeKey { function, mode }) == Some(used),
    ensures
        setpoints.effect(id, state) is Effective <==> used.contains(id) && state.overrun_active()
            != Some(true),
        setpoints.effect(id, state) is OverriddenByOverrun <==> used.contains(id)
            && state.overrun_active() == Some(true),
        setpoints.effect(id, state) is NotInCurrentMode <==> !used.contains(id),
        !(setpoints.effect(id, state) is Unknown),
{
}

/// A temperature that is set goes to the feature that serves the setpoints of the unit: a named
/// setpoint where it has an effect, the one of the current mode, or one ahead of time. What is
/// written is the temperature that was asked for; what is refused is not sent.
pub proof fn law_temperatures_are_set_as_asked(
    appliance: HvacApplianceView,
    engine: EngineView,
    id: UnitIdView,
    kind: HvacSystemFunctionType,
    setpoint: SetpointId,
    degrees: Number,
    unit: HvacUnitView,
    reader: SystemFunctionView,
    setpoints: SetpointsView,
    feature: FeatureAddressView,
    now: Duration,
)
    requires
        appliance.unit(id) == Some(unit),
        appliance.reader(id, kind) == Some(reader),
        appliance.setpoints(id, kind) == Some(setpoints),
        unit.setpoint == Some(feature),
    ensures
        ({
            let (named, named_answer) = appliance.setting_setpoint(
                engine,
                id,
                kind,
                setpoint,
                degrees,
                now,
            );
            let (current, current_answer) = appliance.setting_temperature(
                engine,
                id,
                kind,
                degrees,
                now,
            );
            let (ahead, ahead_answer) = appliance.preloading_setpoint(
                engine,
                id,
                kind,
                setpoint,
                degrees,
                now,
            );
            &&& named_answer is Ok <==> setpoints.effective_write(setpoint, degrees, reader) is Ok
            &&& named_answer is Ok ==> one_write_sent(
                engine,
                named,
                named_answer,
                feature,
                appliance.client,
                named.outbox.last().1->Write_data,
                now,
            ) && says_temperature(named.outbox.last().1->Write_data, setpoint, degrees)
            &&& named_answer matches Err(refusal) ==> named == engine && setpoints.effective_write(
                setpoint,
                degrees,
                reader,
            ) == Err::<Payload, WriteRefused>(refusal)
            &&& current_answer is Ok <==> setpoints.current_write(degrees, reader) is Ok
            &&& current_answer is Ok ==> one_write_sent(
                engine,
                current,
                current_answer,
                feature,
                appliance.client,
                current.outbox.last().1->Write_data,
                now,
            ) && (setpoints.current(reader) matches Ok(used) && says_temperature(
                current.outbox.last().1->Write_data,
                used,
                degrees,
            ))
            &&& current_answer matches Err(refusal) ==> current == engine
                && setpoints.current_write(degrees, reader) == Err::<Payload, WriteRefused>(refusal)
            &&& ahead_answer is Ok <==> setpoints.write(setpoint, degrees) is Ok
            &&& ahead_answer is Ok ==> one_write_sent(
                engine,
                ahead,
                ahead_answer,
                feature,
                appliance.client,
                ahead.outbox.last().1->Write_data,
                now,
            ) && says_temperature(ahead.outbox.last().1->Write_data, setpoint, degrees)
            &&& ahead_answer matches Err(refusal) ==> ahead == engine && setpoints.write(
                setpoint,
                degrees,
            ) == Err::<Payload, WriteRefused>(refusal)
        }),
{
    let n = engine.outbox.len() as int;
    let named = appliance.setting_setpoint(engine, id, kind, setpoint, degrees, now);
    let current = appliance.setting_temperature(engine, id, kind, degrees, now);
    let ahead = appliance.preloading_setpoint(engine, id, kind, setpoint, degrees, now);
    if named.1 is Ok {
        assert(named.0.outbox.take(n) =~= engine.outbox);
    }
    if current.1 is Ok {
        assert(current.0.outbox.take(n) =~= engine.outbox);
    }
    if ahead.1 is Ok {
        assert(ahead.0.outbox.take(n) =~= engine.outbox);
    }
}

/// What of a unit that is not followed, or has no such function or setpoints, is asked to change
/// sends nothing.
pub proof fn law_what_is_not_known_takes_no_temperature(
    appliance: HvacApplianceView,
    engine: EngineView,
    id: UnitIdView,
    kind: HvacSystemFunctionType,
    setpoint: SetpointId,
    degrees: Number,
    now: Duration,
)
    ensures
        ({
            let named = appliance.setting_setpoint(engine, id, kind, setpoint, degrees, now);
            let current = appliance.setting_temperature(engine, id, kind, degrees, now);
            let ahead = appliance.preloading_setpoint(engine, id, kind, setpoint, degrees, now);
            let unknown = Err::<MsgCounter, WriteRefused>(WriteRefused::UnknownSetpoint);
            let unreadable = Err::<MsgCounter, WriteRefused>(WriteRefused::ModeUnknown);
            let nowhere = appliance.setpoints(id, kind) is None || (appliance.unit(id) matches Some(
                unit,
            ) && unit.setpoint is None);
            &&& appliance.reader(id, kind) is None ==> named == (engine, unreadable) && current == (
                engine,
                unreadable,
            )
            &&& appliance.reader(id, kind) is Some && nowhere ==> named == (engine, unknown)
                && current == (engine, unknown)
            &&& nowhere ==> ahead == (engine, unknown)
        }),
{
}

/// A temperature that is rounded to a step lies at most half a step from the one that was asked
/// for, where that is in the range and the range is whole steps wide.
pub proof fn law_rounding_goes_to_the_nearest_step(
    constraints: Constraints,
    min: i64,
    max: i64,
    step: i64,
    degrees: i64,
)
    requires
        constraints.min == Number::Finite(min),
        constraints.max == Number::Finite(max),
        constraints.step == Some(Number::Finite(step)),
        step > 0,
        min <= degrees <= max,
        (max - min) % (step as int) == 0,
    ensures
        constraints.nearest(Number::Finite(degrees)) matches Number::Finite(rounded) && 2 * (rounded
            - degrees) <= step && 2 * (degrees - rounded) <= step && (rounded - min) % (step as int)
            == 0 && min <= rounded <= max,
{
    let above = degrees - min;
    let width = max - min;
    let s = step as int;
    let count = (2 * above + s) / (2 * s);
    vstd::arithmetic::div_mod::lemma_fundamental_div_mod(2 * above + s, 2 * s);
    vstd::arithmetic::div_mod::lemma_fundamental_div_mod(width, s);
    let steps = width / s;
    assert(count * s * 2 <= 2 * above + s && 2 * above + s < count * s * 2 + 2 * s)
        by (nonlinear_arith)
        requires
            2 * above + s == (2 * s) * count + (2 * above + s) % (2 * s),
            0 <= (2 * above + s) % (2 * s) < 2 * s,
    ;
    assert(count >= 0) by (nonlinear_arith)
        requires
            count == (2 * above + s) / (2 * s),
            above >= 0,
            s > 0,
    ;
    assert(count * s >= 0) by (nonlinear_arith)
        requires
            count >= 0,
            s > 0,
    ;
    assert(count <= steps) by (nonlinear_arith)
        requires
            count * s * 2 <= 2 * above + s,
            above <= width,
            width == s * steps + width % s,
            width % s == 0,
            s > 0,
    ;
    assert(count * s <= width) by (nonlinear_arith)
        requires
            count <= steps,
            width == s * steps + width % s,
            width % s == 0,
            s > 0,
    ;
    assert((count * s) % s == 0) by (nonlinear_arith)
        requires
            s > 0,
    ;
}

/// What is not to be rounded is left alone: without a step that is above zero, a temperature stays
/// as it was asked for.
pub proof fn law_without_a_step_nothing_is_rounded(constraints: Constraints, degrees: Number)
    requires
        constraints.step is None || (constraints.step matches Some(Number::Finite(step)) && step
            <= 0),
    ensures
        constraints.nearest(degrees) == degrees,
{
}

/// What a followed function knows after data arrived is what its reader learned of it, and nothing
/// where the data is about something else.
pub proof fn law_functions_take_in_what_arrives(function: FunctionView, data: Payload)
    ensures
        ({
            let after = function.informed(data);
            &&& after.kind == function.kind
            &&& SystemFunctionView::concerns(data) ==> after.reader == function.reader.learned(
                data,
            ) && after.mode == after.reader.mode_id()
            &&& SystemFunctionView::concerns(data) ==> (after.overrun
                == match after.reader.overrun_report() {
                Some(told) => Some(told.0),
                None => None,
            })
            &&& !SystemFunctionView::concerns(data) ==> after == function
        }),
{
}

/// Each change is reported: that the function is described, its overrun's new state, and that the
/// overrun finished, each exactly when it is so.
pub proof fn law_changes_are_reported(function: FunctionView, unit: UnitIdView, data: Payload)
    requires
        SystemFunctionView::concerns(data),
    ensures
        ({
            let events = function.reports(unit, data);
            let after = function.informed(data);
            let reader = after.reader;
            let kind = function.kind;
            let described = HvacEventView::FunctionDescribed { unit, function: kind };
            let finished = HvacEventView::OverrunFinished { unit, function: kind };
            &&& events.contains(described) <==> !function.described && reader.function is Some
                && reader.modes.len() >= 2 && reader.mode_id() is Some
            &&& after.overrun matches Some(report) ==> (events.contains(
                (HvacEventView::OverrunChanged { unit, function: kind, report }),
            ) <==> function.overrun != Some(report))
            &&& events.contains(finished) <==> data is HvacOverrunListData && (
            reader.overrun_report() matches Some((_, ended)) && ended)
        }),
{
    let events = function.reports(unit, data);
    let reader = function.reader.learned(data);
    let kind = function.kind;
    let a = if !function.described && reader.complete() {
        1int
    } else {
        0int
    };
    let b = if function.mode != reader.mode_id() && reader.mode() is Some {
        1int
    } else {
        0int
    };
    let overrun = FunctionView::resting(reader);
    let c = if function.overrun != overrun && overrun is Some {
        1int
    } else {
        0int
    };
    if a == 1 {
        assert(events[0] == (HvacEventView::FunctionDescribed { unit, function: kind }));
    }
    if c == 1 {
        assert(events[a + b] == (HvacEventView::OverrunChanged {
            unit,
            function: kind,
            report: overrun->0,
        }));
    }
    if data is HvacOverrunListData && (reader.overrun_report() matches Some((_, ended)) && ended) {
        assert(events[a + b + c] == (HvacEventView::OverrunFinished { unit, function: kind }));
    }
}

/// Every function and every scope of a unit hears what its unit is told.
pub proof fn law_all_of_a_unit_hears(
    unit: HvacUnitView,
    data: Payload,
    function: int,
    scope: int,
)
    ensures
        ({
            let after = unit.informed(data).0;
            &&& after.id == unit.id && after.hvac == unit.hvac && after.setpoint == unit.setpoint
            &&& after.functions.len() == unit.functions.len() && after.scopes.len()
                == unit.scopes.len()
            &&& 0 <= function < unit.functions.len() && SystemFunctionView::concerns(data)
                ==> after.functions[function].reader == unit.functions[function].reader.learned(
                data,
            )
            &&& 0 <= scope < unit.scopes.len() && SetpointsView::concerns(data)
                ==> after.scopes[scope].reader == unit.scopes[scope].reader.learned(data)
                && after.scopes[scope].functions == unit.scopes[scope].functions
        }),
{
}

/// What an appliance knows of a function after data of its unit's feature arrived is what it knew
/// and the data: whatever was held before.
pub proof fn law_data_reaches_the_readers(
    appliance: HvacApplianceView,
    feature: FeatureAddressView,
    data: Payload,
    index: int,
    function: int,
)
    requires
        first_index(appliance.units, super::appliance::is_served_on(feature)) == Some(index),
        SystemFunctionView::concerns(data),
        0 <= function < appliance.units[index].functions.len(),
    ensures
        appliance.informed(feature, data).0.units[index].functions[function].reader
            == appliance.units[index].functions[function].reader.learned(data),
{
    lemma_first_index(appliance.units, super::appliance::is_served_on(feature));
}

/// Everything that is to be read is asked for, in order, and each answer is known by its number.
pub proof fn law_everything_is_asked_for(
    engine: EngineView,
    client: FeatureAddressView,
    reads: Seq<(FeatureAddressView, crate::model::Function)>,
    now: Duration,
)
    ensures
        ({
            let (sent, asked) = asking(engine, client, reads, now);
            let n = engine.outbox.len() as int;
            &&& asked.len() == reads.len()
            &&& sent.outbox.len() == n + reads.len()
            &&& sent.outbox.take(n) == engine.outbox
            &&& forall|i: int|
                0 <= i < reads.len() ==> ((#[trigger] sent.outbox[n + i]).1
                    matches CommandView::Read { counter, to, from, function } && to == reads[i].0
                    && from == client && function == reads[i].1 && asked[i] == (function, counter))
        }),
    decreases reads.len(),
{
    let n = engine.outbox.len() as int;
    let (sent, asked) = asking(engine, client, reads, now);
    if reads.len() > 0 {
        let rest = reads.drop_last();
        law_everything_is_asked_for(engine, client, rest, now);
        let (before, earlier) = asking(engine, client, rest, now);
        assert(sent.outbox.take(n) =~= before.outbox.take(n));
        assert forall|i: int| 0 <= i < reads.len() implies ((#[trigger] sent.outbox[n + i]).1
            matches CommandView::Read { counter, to, from, function } && to == reads[i].0 && from
            == client && function == reads[i].1 && asked[i] == (function, counter)) by {
            if i < rest.len() {
                assert(sent.outbox[n + i] == before.outbox[n + i]);
                assert(reads[i] == rest[i]);
            }
        }
    } else {
        assert(sent.outbox.take(n) =~= engine.outbox);
    }
}

/// Following a unit subscribes to its modes, and to its setpoints where it serves any, before
/// anything is read.
pub proof fn law_following_subscribes_first(
    peer: HvacPeerView,
    engine: EngineView,
    client: FeatureAddressView,
    now: Duration,
)
    ensures
        ({
            let (sent, following) = peer.followed(engine, client, now);
            let n = engine.outbox.len() as int;
            let k = if peer.setpoint is Some {
                n + 2
            } else {
                n + 1
            };
            &&& sent.outbox.len() == k + peer.reads.len()
            &&& sent.outbox[n].1 matches CommandView::Subscribe { counter, client: from, server }
                && from == client && server == peer.hvac && following.subscription == counter
            &&& peer.setpoint matches Some(feature) ==> (sent.outbox[n + 1].1
                matches CommandView::Subscribe { counter, client: from, server } && from == client
                && server == feature && following.setpoint_subscription == Some(counter))
            &&& peer.setpoint is None ==> following.setpoint_subscription is None
            &&& following.reads.len() == peer.reads.len()
            &&& forall|i: int|
                0 <= i < peer.reads.len() ==> ((#[trigger] sent.outbox[k + i]).1
                    matches CommandView::Read { counter, to, from, function } && to
                    == peer.reads[i].0 && from == client && function == peer.reads[i].1
                    && following.reads[i] == (function, counter))
        }),
{
    let subscribed = engine.subscribing(client, peer.hvac, now);
    let both = match peer.setpoint {
        Some(feature) => subscribed.subscribing(client, feature, now),
        None => subscribed,
    };
    law_everything_is_asked_for(both, client, peer.reads, now);
    let sent = peer.followed(engine, client, now).0;
    let n = engine.outbox.len() as int;
    assert(sent.outbox.take(both.outbox.len() as int)[n] == both.outbox[n]);
    if peer.setpoint is Some {
        assert(sent.outbox.take(both.outbox.len() as int)[n + 1] == both.outbox[n + 1]);
    }
}

} // verus!
