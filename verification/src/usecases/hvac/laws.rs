//! What holds of the readers and writers of system functions and setpoints as a whole.

use super::setpoint::{
    relation_entries, setpoint_relations_learned, value_of, write_payload, written_value,
    Constraints, ModeKey, ModeRelation, SetpointsView,
};
use super::system_function::{
    all_numbered, description_payload, mode_entries, mode_relations_payload, or_none,
    overrun_state_payload, overrun_states_learned, own_mode_id, relations_learned, set_mode_payload,
    state_of_function, state_of_overrun, state_payload, states_learned, FunctionState, ModeRefused,
    OverrunReport, Request, SystemFunctionView,
};
use super::{
    cdsf, cdt, crct, describes_kind, mdsf, modes_described, mrcsf, own_function_id,
};
use crate::assoc::{law_lookup_after_store, lookup};
use crate::model::{
    entries_of, HvacOperationModeId, HvacOperationModeType, HvacOverrunId, HvacOverrunStatus,
    HvacSystemFunctionId, HvacSystemFunctionType, ModeRelationEntry, Payload, ScaledNumber,
    SetpointId,
};
use crate::number::Number;
use crate::seqs::{lemma_first_index_is, lemma_no_first_index};
use vstd::prelude::*;

verus! {

/// Whether two payloads are of one function.
pub open spec fn same_function(a: Payload, b: Payload) -> bool {
    ||| a is HvacOperationModeDescriptionListData && b is HvacOperationModeDescriptionListData
    ||| a is HvacSystemFunctionDescriptionListData && b is HvacSystemFunctionDescriptionListData
    ||| a is HvacSystemFunctionOperationModeRelationListData
        && b is HvacSystemFunctionOperationModeRelationListData
    ||| a is HvacSystemFunctionListData && b is HvacSystemFunctionListData
    ||| a is HvacOverrunDescriptionListData && b is HvacOverrunDescriptionListData
    ||| a is HvacOverrunListData && b is HvacOverrunListData
    ||| a is SetpointDescriptionListData && b is SetpointDescriptionListData
    ||| a is SetpointConstraintsListData && b is SetpointConstraintsListData
    ||| a is SetpointListData && b is SetpointListData
    ||| a is HvacSystemFunctionSetpointRelationListData
        && b is HvacSystemFunctionSetpointRelationListData
}

/// The replies to the reads of a system function may arrive in any order: payloads of different
/// functions can be taken in either way round, and nothing is lost.
pub proof fn law_replies_arrive_in_any_order(reader: SystemFunctionView, a: Payload, b: Payload)
    requires
        !same_function(a, b),
    ensures
        reader.learned(a).learned(b) == reader.learned(b).learned(a),
{
}

/// The same of the replies to the reads of setpoints.
pub proof fn law_setpoint_replies_arrive_in_any_order(
    reader: SetpointsView,
    a: Payload,
    b: Payload,
)
    requires
        !same_function(a, b),
    ensures
        reader.learned(a).learned(b) == reader.learned(b).learned(a),
{
}

/// A payload that does not belong to a reader changes nothing.
pub proof fn law_foreign_payloads_change_nothing(
    reader: SystemFunctionView,
    setpoints: SetpointsView,
    data: Payload,
)
    ensures
        !SystemFunctionView::concerns(data) ==> reader.learned(data) == reader,
        !SetpointsView::concerns(data) ==> setpoints.learned(data) == setpoints,
{
}

/// A system function is found by its type: a reader takes up the identifier of the kind it
/// follows, and of no other.
pub proof fn law_functions_are_found_by_type(
    reader: SystemFunctionView,
    id: HvacSystemFunctionId,
    kind: HvacSystemFunctionType,
)
    ensures
        reader.learned(description_payload(id, kind)).function == if kind == reader.kind {
            Some(id)
        } else {
            reader.function
        },
{
    let entries = entries_of(
        description_payload(id, kind)->HvacSystemFunctionDescriptionListData_0,
    );
    if kind == reader.kind {
        lemma_first_index_is(entries, describes_kind(reader.kind), 0);
    } else {
        lemma_no_first_index(entries, describes_kind(reader.kind));
    }
}

/// A state that is published is the state that is read, and the state of another system function
/// on the same feature is not.
pub proof fn law_published_state_is_read_back(
    reader: SystemFunctionView,
    function: HvacSystemFunctionId,
    current: HvacOperationModeId,
    overrun_active: bool,
    changeable: Option<bool>,
)
    requires
        reader.function is Some,
    ensures
        ({
            let after = reader.learned(
                state_payload(function, current, overrun_active, changeable),
            );
            if reader.function == Some(function) {
                &&& after.mode_id() == Some(current)
                &&& after.overrun_active() == Some(overrun_active)
                &&& after.changeable() == changeable
            } else {
                &&& after.mode_id() == reader.mode_id()
                &&& after.mode() == reader.mode()
                &&& after.overrun_active() == reader.overrun_active()
                &&& after.changeable() == reader.changeable()
            }
        }),
{
    let entries = entries_of(
        state_payload(
            function,
            current,
            overrun_active,
            changeable,
        )->HvacSystemFunctionListData_0,
    );
    reveal_with_fuel(states_learned, 2);
    assert(entries.drop_last() =~= Seq::empty());
    law_lookup_after_store(
        reader.states,
        function,
        FunctionState { current: Some(current), changeable, overrun_active: Some(overrun_active) },
        reader.function->0,
    );
}

/// That an overrun has finished is announced once: it settles to inactive, with the announcement
/// beside it, and the announcement does not survive the next status.
pub proof fn law_overruns_settle(
    reader: SystemFunctionView,
    id: HvacOverrunId,
    status: HvacOverrunStatus,
)
    requires
        reader.overrun_id() == Some(id),
        !(status is Other),
    ensures
        reader.learned(overrun_state_payload(id, status)).overrun_report() == OverrunReport::of(
            status,
        ),
        status is Finished ==> reader.learned(
            overrun_state_payload(id, status),
        ).overrun_report() == Some((OverrunReport::Inactive, true)),
        !(status is Finished) ==> (reader.learned(
            overrun_state_payload(id, status),
        ).overrun_report() matches Some((_, finished)) && !finished),
{
    let entries = entries_of(overrun_state_payload(id, status)->HvacOverrunListData_0);
    reveal_with_fuel(overrun_states_learned, 2);
    assert(entries.drop_last() =~= Seq::empty());
    law_lookup_after_store(reader.overrun_states, id, OverrunReport::of(status)->0, id);
}

proof fn lemma_modes_described(
    known: Seq<(HvacOperationModeId, HvacOperationModeType)>,
    modes: Seq<HvacOperationModeType>,
    kind: HvacOperationModeType,
)
    requires
        all_numbered(modes),
        own_mode_id(kind) is Some,
    ensures
        lookup(modes_described(known, mode_entries(modes)), own_mode_id(kind)->0)
            == if modes.contains(kind) {
            Some(kind)
        } else {
            lookup(known, own_mode_id(kind)->0)
        },
    decreases modes.len(),
{
    let entries = mode_entries(modes);
    if modes.len() > 0 {
        let rest = modes.drop_last();
        let last = modes.last();
        assert(own_mode_id(modes[modes.len() - 1]) is Some);
        assert(all_numbered(rest)) by {
            assert forall|i: int| 0 <= i < rest.len() implies own_mode_id(
                #[trigger] rest[i],
            ) is Some by {
                assert(own_mode_id(modes[i]) is Some);
            }
        }
        assert(entries.drop_last() =~= mode_entries(rest));
        lemma_modes_described(known, rest, kind);
        law_lookup_after_store(
            modes_described(known, mode_entries(rest)),
            own_mode_id(last)->0,
            last,
            own_mode_id(kind)->0,
        );
        if modes.contains(kind) && kind != last {
            let k = choose|k: int| 0 <= k < modes.len() && modes[k] == kind;
            assert(rest[k] == kind);
        }
        if rest.contains(kind) {
            let k = choose|k: int| 0 <= k < rest.len() && rest[k] == kind;
            assert(modes[k] == kind);
        }
        if kind == last {
            assert(modes[modes.len() - 1] == kind);
        }
    }
}

/// The modes that a server publishes are the modes that a client reads: every one of them is
/// found under its identifier, and what was known of the others stays.
pub proof fn law_published_modes_are_read_back(
    reader: SystemFunctionView,
    modes: Seq<HvacOperationModeType>,
    kind: HvacOperationModeType,
)
    requires
        all_numbered(modes),
        own_mode_id(kind) is Some,
    ensures
        lookup(
            reader.learned(
                Payload::HvacOperationModeDescriptionListData(Some(mode_entries(modes))),
            ).modes,
            own_mode_id(kind)->0,
        ) == if modes.contains(kind) {
            Some(kind)
        } else {
            lookup(reader.modes, own_mode_id(kind)->0)
        },
{
    lemma_modes_described(reader.modes, modes, kind);
}

/// The modes that a server relates to a function are the modes that a client may set, and those
/// it relates to another function are not.
pub proof fn law_published_relations_are_read_back(
    reader: SystemFunctionView,
    function: HvacSystemFunctionId,
    modes: Seq<HvacOperationModeType>,
)
    requires
        reader.function is Some,
        mode_relations_payload(function, modes) is Some,
    ensures
        reader.learned(mode_relations_payload(function, modes)->0).related_modes()
            == if reader.function == Some(function) {
            super::system_function::mode_ids(modes)
        } else {
            reader.related_modes()
        },
{
    let entries = entries_of(
        mode_relations_payload(
            function,
            modes,
        )->0->HvacSystemFunctionOperationModeRelationListData_0,
    );
    reveal_with_fuel(relations_learned, 2);
    assert(entries.drop_last() =~= Seq::<ModeRelationEntry>::empty());
    law_lookup_after_store(
        reader.related,
        function,
        or_none(entries.last().operation_mode_id),
        reader.function->0,
    );
}

/// What a client writes, the server reads as what was asked: the mode, the start and the stop of
/// the overrun.
pub proof fn law_writes_are_read_as_asked(reader: SystemFunctionView, mode: HvacOperationModeId)
    ensures
        reader.mode_write(mode) matches Ok(write) ==> reader.requested(write) == Ok::<
            Request,
            ModeRefused,
        >(Request::SetMode(mode)),
        reader.overrun_write(HvacOverrunStatus::Active) matches Ok(write) ==> reader.requested(
            write,
        ) == Ok::<Request, ModeRefused>(Request::StartOverrun(reader.overrun_id()->0)),
        reader.overrun_write(HvacOverrunStatus::Inactive) matches Ok(write) ==> reader.requested(
            write,
        ) == Ok::<Request, ModeRefused>(Request::StopOverrun(reader.overrun_id()->0)),
{
    if let Some(function) = reader.function {
        let entries = entries_of(
            set_mode_payload(function, mode)->HvacSystemFunctionListData_0,
        );
        lemma_first_index_is(entries, state_of_function(function), 0);
    }
    if let Some(id) = reader.overrun_id() {
        lemma_first_index_is(
            entries_of(
                overrun_state_payload(id, HvacOverrunStatus::Active)->HvacOverrunListData_0,
            ),
            state_of_overrun(id),
            0,
        );
        lemma_first_index_is(
            entries_of(
                overrun_state_payload(id, HvacOverrunStatus::Inactive)->HvacOverrunListData_0,
            ),
            state_of_overrun(id),
            0,
        );
    }
}

/// A write that is addressed to another system function is handed on, and a status that only the
/// server announces starts and stops nothing.
pub proof fn law_foreign_writes_are_refused(
    reader: SystemFunctionView,
    other: HvacSystemFunctionId,
    mode: HvacOperationModeId,
)
    ensures
        reader.function is Some && reader.function != Some(other) ==> reader.requested(
            set_mode_payload(other, mode),
        ) == Err::<Request, ModeRefused>(ModeRefused::NotAddressed),
        reader.overrun_id() matches Some(id) ==> reader.requested(
            overrun_state_payload(id, HvacOverrunStatus::Finished),
        ) == Err::<Request, ModeRefused>(ModeRefused::NoOverrun),
{
    if let Some(function) = reader.function {
        if function != other {
            lemma_no_first_index(
                entries_of(set_mode_payload(other, mode)->HvacSystemFunctionListData_0),
                state_of_function(function),
            );
        }
    }
    if let Some(id) = reader.overrun_id() {
        lemma_first_index_is(
            entries_of(
                overrun_state_payload(id, HvacOverrunStatus::Finished)->HvacOverrunListData_0,
            ),
            state_of_overrun(id),
            0,
        );
    }
}

/// A mode write leaves only where the function is known, has the mode, and may change it.
pub proof fn law_only_possible_modes_are_written(
    reader: SystemFunctionView,
    mode: HvacOperationModeId,
)
    ensures
        reader.mode_write(mode) is Ok <==> reader.function is Some
            && reader.related_modes().contains(mode) && reader.changeable() != Some(false),
{
}

/// A temperature write leaves only for a setpoint of the scope, inside the range it accepts, and
/// the server reads it as the temperature that was asked for, to the tenth of a degree.
pub proof fn law_temperature_writes_are_permitted_and_read_back(
    setpoints: SetpointsView,
    id: SetpointId,
    degrees: Number,
)
    ensures
        setpoints.write(id, degrees) is Ok <==> setpoints.knows(id) && (lookup(
            setpoints.constraints,
            id,
        ) matches Some(constraints) && constraints.within(degrees)),
        setpoints.write(id, degrees) matches Ok(write) ==> written_value(write, id)
            == ScaledNumber::encoded(degrees, 1).decoded(),
{
    lemma_first_index_is(
        entries_of(write_payload(id, degrees)->SetpointListData_0),
        value_of(id),
        0,
    );
}

/// A write that would change nothing does not leave: the mode the server is in uses the setpoint,
/// even if an overrun is over the top of it.
pub proof fn law_effective_writes_have_an_effect(
    setpoints: SetpointsView,
    id: SetpointId,
    degrees: Number,
    state: SystemFunctionView,
)
    ensures
        setpoints.effective_write(id, degrees, state) is Ok ==> setpoints.effect(
            id,
            state,
        ) is Effective || setpoints.effect(id, state) is OverriddenByOverrun,
        setpoints.current_write(degrees, state) is Ok ==> (setpoints.current(state) matches Ok(
            current,
        ) && (setpoints.effect(current, state) is Effective || setpoints.effect(
            current,
            state,
        ) is OverriddenByOverrun)),
{
    if let Ok(current) = setpoints.current(state) {
        let used = setpoints.for_mode(state.function->0, state.mode_id()->0);
        assert(used[0] == current);
        assert(used.contains(current));
    }
}

proof fn lemma_other_functions_relations(
    known: Seq<(ModeKey, Seq<SetpointId>)>,
    function: HvacSystemFunctionId,
    modes: Seq<ModeRelation>,
    key: ModeKey,
)
    requires
        key.function != function,
    ensures
        lookup(setpoint_relations_learned(known, relation_entries(function, modes)), key)
            == lookup(known, key),
    decreases modes.len(),
{
    if modes.len() > 0 {
        let rest = modes.drop_last();
        let entries = relation_entries(function, modes);
        assert(entries.drop_last() =~= relation_entries(function, rest));
        lemma_other_functions_relations(known, function, rest, key);
        law_lookup_after_store(
            setpoint_relations_learned(known, relation_entries(function, rest)),
            ModeKey { function, mode: modes.last().0 },
            or_none(entries.last().setpoint_id),
            key,
        );
    }
}

/// Heating and cooling setpoints share a scope and are told apart by the relations: what is
/// published for one system function does not change what another uses.
pub proof fn law_functions_keep_their_own_setpoints(
    setpoints: SetpointsView,
    function: HvacSystemFunctionId,
    modes: Seq<ModeRelation>,
    other: HvacSystemFunctionId,
    mode: HvacOperationModeId,
)
    requires
        other != function,
    ensures
        ({
            let after = setpoints.learned(
                Payload::HvacSystemFunctionSetpointRelationListData(
                    Some(relation_entries(function, modes)),
                ),
            );
            &&& after.for_mode(other, mode) == setpoints.for_mode(other, mode)
            &&& after.describes(other, mode) == setpoints.describes(other, mode)
        }),
{
    lemma_other_functions_relations(
        setpoints.relations,
        function,
        modes,
        ModeKey { function: other, mode },
    );
}

/// A temperature that is rounded lies in the range, and one that is a whole number of steps above
/// the least, in the range, is not changed.
pub proof fn law_rounding_stays_in_range(constraints: Constraints, degrees: i64)
    requires
        constraints.effective_step() is Some,
        constraints.step->0 is Finite,
        constraints.min is Finite,
        constraints.max is Finite,
        constraints.min.at_most(constraints.max),
    ensures
        constraints.within(constraints.nearest(Number::Finite(degrees))),
        constraints.within(Number::Finite(degrees)) && (degrees - constraints.min->Finite_0) % (
        constraints.step->0)->Finite_0 as int == 0 ==> constraints.nearest(
            Number::Finite(degrees),
        ) == Number::Finite(degrees),
{
    let min = constraints.min->Finite_0 as int;
    let step = (constraints.step->0)->Finite_0 as int;
    let above = degrees - min;
    if above >= 0 && above % step == 0 {
        vstd::arithmetic::div_mod::lemma_fundamental_div_mod(above, step);
        let count = above / step;
        assert(above == step * count);
        assert((2 * above + step) / (2 * step) == count) by (nonlinear_arith)
            requires
                above == step * count,
                step > 0,
        ;
        assert(count * step == above) by (nonlinear_arith)
            requires
                above == step * count,
        ;
    }
}

/// The use cases of one function publish it under one number, whether they report its mode, set
/// it, or set its temperature.
pub proof fn law_use_cases_share_a_function(kind: HvacSystemFunctionType)
    ensures
        kind is Dhw ==> own_function_id(kind) == HvacSystemFunctionId(mdsf::SYSTEM_FUNCTION_ID)
            && own_function_id(kind) == HvacSystemFunctionId(cdsf::SYSTEM_FUNCTION_ID)
            && own_function_id(kind) == HvacSystemFunctionId(cdt::SYSTEM_FUNCTION_ID),
        kind is Cooling ==> own_function_id(kind) == HvacSystemFunctionId(
            mrcsf::SYSTEM_FUNCTION_ID,
        ) && own_function_id(kind) == HvacSystemFunctionId(crct::SYSTEM_FUNCTION_ID),
        mdsf::OVERRUN_ID == cdsf::OVERRUN_ID,
{
}

} // verus!
