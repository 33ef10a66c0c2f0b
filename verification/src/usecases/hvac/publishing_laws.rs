//! What a device of heating, hot water or cooling publishes is what a peer learns of it.

use super::learning_laws::{
    law_the_last_overrun_counts, law_the_last_range_counts, law_the_last_setpoints_count,
    law_the_last_value_counts,
};
use super::setpoint::{
    constraints_payload, description_payload, relations_payload, valid_count, value_payload,
    ModeRelation, SetpointsView,
};
use super::system_function::{
    available, mode_descriptions_payload, mode_relations_payload, overrun_description_payload,
    own_mode_id, OverrunReport, SystemFunctionView,
};
use crate::assoc::lookup;
use crate::model::{
    entries_of, HvacOperationModeId, HvacOperationModeType, HvacOverrunId, HvacOverrunStatus,
    HvacOverrunType, HvacSystemFunctionId, MeasurementId, ScaledNumber, ScopeType, SetpointId,
    UnitOfMeasurement,
};
use crate::number::Number;
use vstd::prelude::*;

verus! {

/// A setpoint that is described in the scope that a peer collects is collected, with its unit; one
/// in another scope is not, even if it was before.
pub proof fn law_described_setpoints_are_collected(
    reader: SetpointsView,
    id: SetpointId,
    scope: ScopeType,
    unit: UnitOfMeasurement,
    measurement: Option<MeasurementId>,
)
    ensures
        ({
            let after = reader.learned(description_payload(id, scope, unit, measurement));
            &&& scope == reader.scope ==> after.knows(id) && lookup(after.temperatures, id) == Some(
                Some(unit),
            )
            &&& scope != reader.scope ==> !after.knows(id)
            &&& after.constraints == reader.constraints && after.values == reader.values
                && after.relations == reader.relations
        }),
{
    let entries = entries_of(
        description_payload(id, scope, unit, measurement)->SetpointDescriptionListData_0,
    );
    super::learning_laws::law_last_description_counts(
        reader.scope,
        reader.temperatures,
        entries,
        id,
    );
    reveal_with_fuel(super::learning_laws::last_described, 2);
}

/// The range of a setpoint and its value are read as they are published, to the tenth of a degree.
pub proof fn law_ranges_and_values_are_read_back(
    reader: SetpointsView,
    id: SetpointId,
    min: i64,
    max: i64,
    step: i64,
    degrees: i64,
)
    requires
        ScaledNumber::encoded(Number::Finite(min), 1) == ScaledNumber::Value(min),
        ScaledNumber::encoded(Number::Finite(max), 1) == ScaledNumber::Value(max),
        ScaledNumber::encoded(Number::Finite(step), 1) == ScaledNumber::Value(step),
        ScaledNumber::encoded(Number::Finite(degrees), 1) == ScaledNumber::Value(degrees),
    ensures
        lookup(
            reader.learned(
                constraints_payload(
                    id,
                    Number::Finite(min),
                    Number::Finite(max),
                    Some(Number::Finite(step)),
                ),
            ).constraints,
            id,
        ) matches Some(accepted) && accepted.min == Number::Finite(min) && accepted.max
            == Number::Finite(max) && accepted.step == Some(Number::Finite(step)),
        lookup(
            reader.learned(
                constraints_payload(id, Number::Finite(min), Number::Finite(max), None),
            ).constraints,
            id,
        ) matches Some(accepted) && accepted.min == Number::Finite(min) && accepted.max
            == Number::Finite(max) && accepted.step is None,
        lookup(reader.learned(value_payload(id, Number::Finite(degrees))).values, id) == Some(
            Number::Finite(degrees),
        ),
{
    let stepped = constraints_payload(
        id,
        Number::Finite(min),
        Number::Finite(max),
        Some(Number::Finite(step)),
    );
    let free = constraints_payload(id, Number::Finite(min), Number::Finite(max), None);
    let value = value_payload(id, Number::Finite(degrees));
    law_the_last_range_counts(
        reader,
        entries_of(stepped->SetpointConstraintsListData_0),
        id,
        min,
        max,
        0,
    );
    law_the_last_range_counts(
        reader,
        entries_of(free->SetpointConstraintsListData_0),
        id,
        min,
        max,
        0,
    );
    law_the_last_value_counts(reader, entries_of(value->SetpointListData_0), id, degrees, 0);
}

/// The setpoints of the modes are published exactly if each mode has as many as it may, and what is
/// published of a mode is what a peer learns of it.
pub proof fn law_published_setpoints_of_modes_are_learned(
    reader: SetpointsView,
    function: HvacSystemFunctionId,
    modes: Seq<ModeRelation>,
    at: int,
)
    ensures
        relations_payload(function, modes) is Some <==> forall|i: int|
            0 <= i < modes.len() ==> valid_count((#[trigger] modes[i]).1, modes[i].2@.len()),
        relations_payload(function, modes) matches Some(data) ==> (0 <= at < modes.len() && (forall|
            j: int,
        |
            at < j < modes.len() ==> (#[trigger] modes[j]).0 != modes[at].0) ==> reader.learned(
            data,
        ).describes(function, modes[at].0) && reader.learned(data).for_mode(function, modes[at].0)
            =~= modes[at].2@),
{
    if let Some(data) = relations_payload(function, modes) {
        let entries = entries_of(data->HvacSystemFunctionSetpointRelationListData_0);
        if 0 <= at < modes.len() && (forall|j: int|
            at < j < modes.len() ==> (#[trigger] modes[j]).0 != modes[at].0) {
            assert forall|j: int| at < j < entries.len() implies (
            #[trigger] entries[j]).system_function_id != Some(function)
                || entries[j].operation_mode_id != Some(modes[at].0) by {
                assert(modes[j].0 != modes[at].0);
            }
            law_the_last_setpoints_count(reader, entries, function, modes[at].0, at);
        }
    }
}

/// Modes are published exactly if there are at least two, all of a kind that has a number; each
/// entry names the kind with its number, and the relation names the numbers in order.
pub proof fn law_modes_are_published_by_number(
    function: HvacSystemFunctionId,
    modes: Seq<HvacOperationModeType>,
    at: int,
)
    ensures
        mode_descriptions_payload(modes) is Some <==> modes.len() >= 2 && forall|i: int|
            0 <= i < modes.len() ==> !((#[trigger] modes[i]) is Other),
        mode_relations_payload(function, modes) is Some <==> mode_descriptions_payload(
            modes,
        ) is Some,
        mode_descriptions_payload(modes) matches Some(data) ==> (0 <= at < modes.len() ==> ({
            let entries = entries_of(data->HvacOperationModeDescriptionListData_0);
            &&& data is HvacOperationModeDescriptionListData
            &&& entries.len() == modes.len()
            &&& entries[at].operation_mode_type == Some(modes[at])
            &&& entries[at].operation_mode_id == own_mode_id(modes[at])
        })),
        mode_relations_payload(function, modes) matches Some(data) ==> (0 <= at < modes.len()
            ==> ({
            let entries = entries_of(data->HvacSystemFunctionOperationModeRelationListData_0);
            &&& data is HvacSystemFunctionOperationModeRelationListData
            &&& entries.len() == 1 && entries[0].system_function_id == Some(function)
            &&& entries[0].operation_mode_id matches Some(numbers) && numbers.len() == modes.len()
                && own_mode_id(modes[at]) == Some(numbers[at])
        })),
{
    assert forall|i: int| 0 <= i < modes.len() implies (own_mode_id(modes[i]) is Some <==> !((
    #[trigger] modes[i]) is Other)) by {}
    if super::system_function::all_numbered(modes) {
        assert forall|i: int| 0 <= i < modes.len() implies !((#[trigger] modes[i]) is Other) by {
            assert(own_mode_id(modes[i]) is Some);
        }
        if 0 <= at < modes.len() {
            assert(own_mode_id(modes[at]) is Some);
        }
    }
}

/// An overrun is learned as it is described.
pub proof fn law_described_overruns_are_learned(
    reader: SystemFunctionView,
    id: HvacOverrunId,
    kind: HvacOverrunType,
    affects: Seq<HvacSystemFunctionId>,
)
    ensures
        lookup(
            reader.learned(overrun_description_payload(id, kind, affects)).overruns,
            id,
        ) == Some((kind, affects)),
{
    let entries = entries_of(
        overrun_description_payload(id, kind, affects)->HvacOverrunDescriptionListData_0,
    );
    law_the_last_overrun_counts(reader, entries, id, kind, affects, 0);
}

/// The states of an overrun are written as they are read; its end is read as being at rest, and
/// what is none of them is not read.
pub proof fn law_overrun_states_are_read_as_written(report: OverrunReport, status: HvacOverrunStatus)
    ensures
        OverrunReport::of(report.status()) == Some((report, false)),
        OverrunReport::of(HvacOverrunStatus::Finished) == Some((OverrunReport::Inactive, true)),
        OverrunReport::of(status) is None <==> status is Other,
{
}

/// The modes that are available are those that the function has and the device described, each
/// with its kind.
pub proof fn law_available_modes_are_related_and_described(
    related: Seq<HvacOperationModeId>,
    modes: Seq<(HvacOperationModeId, HvacOperationModeType)>,
    mode: HvacOperationModeId,
    kind: HvacOperationModeType,
)
    ensures
        available(related, modes).contains((mode, kind)) <==> related.contains(mode) && lookup(
            modes,
            mode,
        ) == Some(kind),
    decreases related.len(),
{
    if related.len() > 0 {
        let rest = related.drop_last();
        let last = related[related.len() - 1];
        law_available_modes_are_related_and_described(rest, modes, mode, kind);
        let before = available(rest, modes);
        let after = available(related, modes);
        assert(related.contains(mode) <==> rest.contains(mode) || last == mode) by {
            if related.contains(mode) {
                let i = choose|i: int| 0 <= i < related.len() && related[i] == mode;
                if i < rest.len() {
                    assert(rest[i] == mode);
                }
            }
            if rest.contains(mode) {
                let i = choose|i: int| 0 <= i < rest.len() && rest[i] == mode;
                assert(related[i] == mode);
            }
        }
        if let Some(found) = lookup(modes, last) {
            assert(after == before.push((last, found)));
            assert(after[after.len() - 1] == (last, found));
            if before.contains((mode, kind)) {
                let k = choose|k: int| 0 <= k < before.len() && before[k] == (mode, kind);
                assert(after[k] == (mode, kind));
            }
            if after.contains((mode, kind)) {
                let k = choose|k: int| 0 <= k < after.len() && after[k] == (mode, kind);
                if k < before.len() {
                    assert(before[k] == (mode, kind));
                }
            }
        }
    }
}

} // verus!
