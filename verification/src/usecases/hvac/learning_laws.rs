//! What holds of the readers however often payloads arrive: a payload that is repeated teaches
//! nothing, and the latest description of a setpoint is the one that counts.

use super::setpoint::{
    constraints_learned, other_setpoints, setpoint_relations_learned, temperatures_learned,
    values_learned, Constraints, ModeKey, SetpointsView,
};
use super::system_function::{
    or_none, overrun_states_learned, overruns_learned, relations_learned, states_learned,
    FunctionState, OverrunReport, SystemFunctionView,
};
use super::modes_described;
use crate::assoc::{
    keyed, law_lookup_after_store, law_taking_in_again_changes_nothing,
    law_the_last_entry_counts, lemma_filtered_place, lemma_filtered_store, lemma_place, lookup,
    taken_in,
};
use crate::model::{
    entries_of, readable, HvacOperationModeDescriptionData, HvacOperationModeId,
    HvacOperationModeType, HvacOverrunData, HvacOverrunId, HvacOverrunStatus, HvacOverrunType,
    HvacSystemFunctionData, HvacSystemFunctionId, ModeRelationEntry, OverrunEntry, Payload,
    ScaledNumber, ScopeType, SetpointConstraintsData, SetpointData, SetpointDescriptionData, SetpointId,
    SetpointRelationEntry, UnitOfMeasurement,
};
use crate::number::Number;
use crate::seqs::{first_index, lemma_filter_keeps_all, lemma_first_index};
use vstd::prelude::*;

verus! {

/// What a mode's description says.
pub open spec fn mode_read() -> spec_fn(HvacOperationModeDescriptionData) -> Option<
    (HvacOperationModeId, HvacOperationModeType),
> {
    |entry: HvacOperationModeDescriptionData|
        match (entry.operation_mode_id, entry.operation_mode_type) {
            (Some(id), Some(kind)) => Some((id, kind)),
            _ => None,
        }
}

/// What a function's relation to its modes says.
pub open spec fn relation_read() -> spec_fn(ModeRelationEntry) -> Option<
    (HvacSystemFunctionId, Seq<HvacOperationModeId>),
> {
    |entry: ModeRelationEntry|
        match entry.system_function_id {
            Some(id) => Some((id, or_none(entry.operation_mode_id))),
            None => None,
        }
}

/// What a function's state says.
pub open spec fn state_read() -> spec_fn(HvacSystemFunctionData) -> Option<
    (HvacSystemFunctionId, FunctionState),
> {
    |entry: HvacSystemFunctionData|
        match entry.system_function_id {
            Some(id) => Some(
                (
                    id,
                    FunctionState {
                        current: entry.current_operation_mode_id,
                        changeable: entry.is_operation_mode_id_changeable,
                        overrun_active: entry.is_overrun_active,
                    },
                ),
            ),
            None => None,
        }
}

/// What an overrun's description says.
pub open spec fn overrun_read() -> spec_fn(OverrunEntry) -> Option<
    (HvacOverrunId, (HvacOverrunType, Seq<HvacSystemFunctionId>)),
> {
    |entry: OverrunEntry|
        match (entry.overrun_id, entry.overrun_type) {
            (Some(id), Some(kind)) => Some(
                (id, (kind, or_none(entry.affected_system_function_id))),
            ),
            _ => None,
        }
}

/// What an overrun's state says.
pub open spec fn overrun_state_read() -> spec_fn(HvacOverrunData) -> Option<
    (HvacOverrunId, (OverrunReport, bool)),
> {
    |entry: HvacOverrunData|
        match (entry.overrun_id, entry.overrun_status) {
            (Some(id), Some(status)) => match OverrunReport::of(status) {
                Some(report) => Some((id, report)),
                None => None,
            },
            _ => None,
        }
}

/// What a setpoint's constraints say.
pub open spec fn constraints_read() -> spec_fn(SetpointConstraintsData) -> Option<
    (SetpointId, Constraints),
> {
    |entry: SetpointConstraintsData|
        match (
            entry.setpoint_id,
            readable(entry.setpoint_range_min),
            readable(entry.setpoint_range_max),
        ) {
            (Some(id), Some(min), Some(max)) => Some(
                (id, Constraints { min, max, step: readable(entry.setpoint_step_size) }),
            ),
            _ => None,
        }
}

/// What a setpoint's value says.
pub open spec fn value_read() -> spec_fn(SetpointData) -> Option<(SetpointId, Number)> {
    |entry: SetpointData|
        match (entry.setpoint_id, readable(entry.value)) {
            (Some(id), Some(value)) => Some((id, value)),
            _ => None,
        }
}

/// What a mode's relation to its setpoints says.
pub open spec fn setpoint_relation_read() -> spec_fn(SetpointRelationEntry) -> Option<
    (ModeKey, Seq<SetpointId>),
> {
    |entry: SetpointRelationEntry|
        match (entry.system_function_id, entry.operation_mode_id) {
            (Some(function), Some(mode)) => Some(
                (ModeKey { function, mode }, or_none(entry.setpoint_id)),
            ),
            _ => None,
        }
}

/// What a description says of a setpoint in scope.
pub open spec fn temperature_read(scope: ScopeType) -> spec_fn(SetpointDescriptionData) -> Option<
    (SetpointId, Option<UnitOfMeasurement>),
> {
    |entry: SetpointDescriptionData|
        match entry.setpoint_id {
            Some(id) => if entry.scope_type == Some(scope) {
                Some((id, entry.unit))
            } else {
                None
            },
            None => None,
        }
}

proof fn lemma_modes(
    known: Seq<(HvacOperationModeId, HvacOperationModeType)>,
    entries: Seq<HvacOperationModeDescriptionData>,
)
    ensures
        modes_described(known, entries) == taken_in(known, entries, mode_read()),
    decreases entries.len(),
{
    if entries.len() > 0 {
        lemma_modes(known, entries.drop_last());
    }
}

proof fn lemma_relations(
    known: Seq<(HvacSystemFunctionId, Seq<HvacOperationModeId>)>,
    entries: Seq<ModeRelationEntry>,
)
    ensures
        relations_learned(known, entries) == taken_in(known, entries, relation_read()),
    decreases entries.len(),
{
    if entries.len() > 0 {
        lemma_relations(known, entries.drop_last());
    }
}

proof fn lemma_states(
    known: Seq<(HvacSystemFunctionId, FunctionState)>,
    entries: Seq<HvacSystemFunctionData>,
)
    ensures
        states_learned(known, entries) == taken_in(known, entries, state_read()),
    decreases entries.len(),
{
    if entries.len() > 0 {
        lemma_states(known, entries.drop_last());
    }
}

proof fn lemma_overruns(
    known: Seq<(HvacOverrunId, (HvacOverrunType, Seq<HvacSystemFunctionId>))>,
    entries: Seq<OverrunEntry>,
)
    ensures
        overruns_learned(known, entries) == taken_in(known, entries, overrun_read()),
    decreases entries.len(),
{
    if entries.len() > 0 {
        lemma_overruns(known, entries.drop_last());
    }
}

proof fn lemma_overrun_states(
    known: Seq<(HvacOverrunId, (OverrunReport, bool))>,
    entries: Seq<HvacOverrunData>,
)
    ensures
        overrun_states_learned(known, entries) == taken_in(known, entries, overrun_state_read()),
    decreases entries.len(),
{
    if entries.len() > 0 {
        lemma_overrun_states(known, entries.drop_last());
    }
}

proof fn lemma_constraints(
    known: Seq<(SetpointId, Constraints)>,
    entries: Seq<SetpointConstraintsData>,
)
    ensures
        constraints_learned(known, entries) == taken_in(known, entries, constraints_read()),
    decreases entries.len(),
{
    if entries.len() > 0 {
        lemma_constraints(known, entries.drop_last());
    }
}

proof fn lemma_values(known: Seq<(SetpointId, Number)>, entries: Seq<SetpointData>)
    ensures
        values_learned(known, entries) == taken_in(known, entries, value_read()),
    decreases entries.len(),
{
    if entries.len() > 0 {
        lemma_values(known, entries.drop_last());
    }
}

proof fn lemma_setpoint_relations(
    known: Seq<(ModeKey, Seq<SetpointId>)>,
    entries: Seq<SetpointRelationEntry>,
)
    ensures
        setpoint_relations_learned(known, entries) == taken_in(
            known,
            entries,
            setpoint_relation_read(),
        ),
    decreases entries.len(),
{
    if entries.len() > 0 {
        lemma_setpoint_relations(known, entries.drop_last());
    }
}

/// A payload that is repeated teaches a reader of a system function nothing.
pub proof fn law_learning_again_changes_nothing(reader: SystemFunctionView, data: Payload)
    ensures
        reader.learned(data).learned(data) == reader.learned(data),
{
    match data {
        Payload::HvacOperationModeDescriptionListData(list) => {
            let entries = entries_of(list);
            lemma_modes(reader.modes, entries);
            lemma_modes(taken_in(reader.modes, entries, mode_read()), entries);
            law_taking_in_again_changes_nothing(reader.modes, entries, mode_read());
        },
        Payload::HvacSystemFunctionOperationModeRelationListData(list) => {
            let entries = entries_of(list);
            lemma_relations(reader.related, entries);
            lemma_relations(taken_in(reader.related, entries, relation_read()), entries);
            law_taking_in_again_changes_nothing(reader.related, entries, relation_read());
        },
        Payload::HvacSystemFunctionListData(list) => {
            let entries = entries_of(list);
            lemma_states(reader.states, entries);
            lemma_states(taken_in(reader.states, entries, state_read()), entries);
            law_taking_in_again_changes_nothing(reader.states, entries, state_read());
        },
        Payload::HvacOverrunDescriptionListData(list) => {
            let entries = entries_of(list);
            lemma_overruns(reader.overruns, entries);
            lemma_overruns(taken_in(reader.overruns, entries, overrun_read()), entries);
            law_taking_in_again_changes_nothing(reader.overruns, entries, overrun_read());
        },
        Payload::HvacOverrunListData(list) => {
            let entries = entries_of(list);
            let read = overrun_state_read();
            lemma_overrun_states(reader.overrun_states, entries);
            lemma_overrun_states(taken_in(reader.overrun_states, entries, read), entries);
            law_taking_in_again_changes_nothing(reader.overrun_states, entries, read);
        },
        _ => {},
    }
}

/// The last description of a setpoint among several.
pub open spec fn last_described(
    entries: Seq<SetpointDescriptionData>,
    id: SetpointId,
) -> Option<SetpointDescriptionData>
    decreases entries.len(),
{
    if entries.len() == 0 {
        None
    } else if entries.last().setpoint_id == Some(id) {
        Some(entries.last())
    } else {
        last_described(entries.drop_last(), id)
    }
}

/// What a reader of a scope keeps of a description: the unit, if it is in scope.
pub open spec fn kept_of(
    scope: ScopeType,
    description: SetpointDescriptionData,
) -> Option<Option<UnitOfMeasurement>> {
    if description.scope_type == Some(scope) {
        Some(description.unit)
    } else {
        None
    }
}

/// Every identifier but one.
spec fn all_but(id: SetpointId) -> spec_fn(SetpointId) -> bool {
    |other: SetpointId| other != id
}

proof fn lemma_dropping(
    known: Seq<(SetpointId, Option<UnitOfMeasurement>)>,
    id: SetpointId,
)
    ensures
        known.filter(other_setpoints(id)) == known.filter(keyed(all_but(id))),
    decreases known.len(),
{
    reveal(Seq::filter);
    if known.len() > 0 {
        lemma_dropping(known.drop_last(), id);
    }
}

/// After descriptions are taken in, a setpoint is collected exactly if the last description of it
/// is in scope, or if there is none and it was collected before.
pub proof fn law_last_description_counts(
    scope: ScopeType,
    known: Seq<(SetpointId, Option<UnitOfMeasurement>)>,
    entries: Seq<SetpointDescriptionData>,
    id: SetpointId,
)
    ensures
        lookup(temperatures_learned(scope, known, entries), id) == match last_described(
            entries,
            id,
        ) {
            Some(description) => kept_of(scope, description),
            None => lookup(known, id),
        },
    decreases entries.len(),
{
    if entries.len() > 0 {
        let rest = entries.drop_last();
        law_last_description_counts(scope, known, rest, id);
        let before = temperatures_learned(scope, known, rest);
        if let Some(described) = entries.last().setpoint_id {
            law_lookup_after_store(before, described, entries.last().unit, id);
            lemma_dropping(before, described);
            lemma_filtered_place(before, all_but(described), id);
        }
    }
}

/// A reader once payloads are taken in, one after the other.
pub open spec fn learned_all(reader: SetpointsView, payloads: Seq<Payload>) -> SetpointsView
    decreases payloads.len(),
{
    if payloads.len() == 0 {
        reader
    } else {
        learned_all(reader, payloads.drop_last()).learned(payloads.last())
    }
}

/// The latest description of a setpoint in a run of payloads.
pub open spec fn latest_description(payloads: Seq<Payload>, id: SetpointId) -> Option<
    SetpointDescriptionData,
>
    decreases payloads.len(),
{
    if payloads.len() == 0 {
        None
    } else {
        let earlier = latest_description(payloads.drop_last(), id);
        match payloads.last() {
            Payload::SetpointDescriptionListData(list) => match last_described(
                entries_of(list),
                id,
            ) {
                Some(description) => Some(description),
                None => earlier,
            },
            _ => earlier,
        }
    }
}

/// Whatever arrived, and in whatever order: the collected setpoints are exactly those whose
/// latest description is in scope, each with the unit that it names.
pub proof fn law_collected_setpoints_are_the_latest_in_scope(
    scope: ScopeType,
    payloads: Seq<Payload>,
    id: SetpointId,
)
    ensures
        ({
            let reader = learned_all(SetpointsView::collecting(scope), payloads);
            &&& reader.scope == scope
            &&& lookup(reader.temperatures, id) == match latest_description(payloads, id) {
                Some(description) => kept_of(scope, description),
                None => None,
            }
            &&& reader.knows(id) <==> (latest_description(payloads, id) matches Some(description)
                && description.scope_type == Some(scope))
        }),
    decreases payloads.len(),
{
    if payloads.len() > 0 {
        law_collected_setpoints_are_the_latest_in_scope(scope, payloads.drop_last(), id);
        let before = learned_all(SetpointsView::collecting(scope), payloads.drop_last());
        if let Payload::SetpointDescriptionListData(list) = payloads.last() {
            law_last_description_counts(scope, before.temperatures, entries_of(list), id);
        }
    }
}

/// Whether no setpoint is described out of scope and after that in scope, all in one payload.
pub open spec fn consistent(scope: ScopeType, data: Payload) -> bool {
    data matches Payload::SetpointDescriptionListData(list) ==> forall|i: int, j: int|
        0 <= i < j < entries_of(list).len() && (#[trigger] entries_of(list)[i]).setpoint_id is Some
            && entries_of(list)[i].setpoint_id == (#[trigger] entries_of(list)[j]).setpoint_id
            && entries_of(list)[j].scope_type == Some(scope) ==> entries_of(list)[i].scope_type
            == Some(scope)
}

/// Whether no description puts a setpoint out of scope.
spec fn stays(
    scope: ScopeType,
    entries: Seq<SetpointDescriptionData>,
) -> spec_fn(SetpointId) -> bool {
    |id: SetpointId|
        forall|i: int|
            0 <= i < entries.len() && (#[trigger] entries[i]).setpoint_id == Some(id)
                ==> entries[i].scope_type == Some(scope)
}

proof fn lemma_dropping_the_unwanted(
    known: Seq<(SetpointId, Option<UnitOfMeasurement>)>,
    wanted: spec_fn(SetpointId) -> bool,
    id: SetpointId,
)
    requires
        !wanted(id),
    ensures
        known.filter(other_setpoints(id)).filter(keyed(wanted)) == known.filter(keyed(wanted)),
    decreases known.len(),
{
    reveal(Seq::filter);
    if known.len() > 0 {
        let rest = known.drop_last();
        lemma_dropping_the_unwanted(rest, wanted, id);
        let kept = rest.filter(other_setpoints(id));
        if known.last().0 != id {
            assert(kept.push(known.last()).drop_last() =~= kept);
        }
    }
}

/// Of the setpoints that are never put out of scope, descriptions are taken in like any entries.
proof fn lemma_staying(
    scope: ScopeType,
    known: Seq<(SetpointId, Option<UnitOfMeasurement>)>,
    entries: Seq<SetpointDescriptionData>,
    count: int,
)
    requires
        0 <= count <= entries.len(),
    ensures
        temperatures_learned(scope, known, entries.take(count)).filter(
            keyed(stays(scope, entries)),
        ) == taken_in(known, entries.take(count), temperature_read(scope)).filter(
            keyed(stays(scope, entries)),
        ),
    decreases count,
{
    if count > 0 {
        let wanted = stays(scope, entries);
        let read = temperature_read(scope);
        lemma_staying(scope, known, entries, count - 1);
        assert(entries.take(count).drop_last() =~= entries.take(count - 1));
        let entry = entries[count - 1];
        assert(entries.take(count).last() == entry);
        let before = temperatures_learned(scope, known, entries.take(count - 1));
        let image = taken_in(known, entries.take(count - 1), read);
        if let Some(id) = entry.setpoint_id {
            if entry.scope_type == Some(scope) {
                lemma_filtered_store(before, wanted, id, entry.unit);
                lemma_filtered_store(image, wanted, id, entry.unit);
            } else {
                assert(!wanted(id));
                lemma_dropping_the_unwanted(before, wanted, id);
            }
        }
    }
}

/// Dropping the unwanted before or after taking in comes to the same.
proof fn lemma_taken_in_filtered<E, V>(
    known: Seq<(SetpointId, V)>,
    entries: Seq<E>,
    read: spec_fn(E) -> Option<(SetpointId, V)>,
    wanted: spec_fn(SetpointId) -> bool,
)
    ensures
        taken_in(known.filter(keyed(wanted)), entries, read).filter(keyed(wanted)) == taken_in(
            known,
            entries,
            read,
        ).filter(keyed(wanted)),
    decreases entries.len(),
{
    if entries.len() == 0 {
        let kept = known.filter(keyed(wanted));
        crate::seqs::lemma_filtered(known, keyed::<SetpointId, V>(wanted));
        lemma_filter_keeps_all(kept, keyed::<SetpointId, V>(wanted));
    } else {
        let rest = entries.drop_last();
        lemma_taken_in_filtered(known, rest, read, wanted);
        if let Some((id, value)) = read(entries.last()) {
            lemma_filtered_store(
                taken_in(known.filter(keyed(wanted)), rest, read),
                wanted,
                id,
                value,
            );
            lemma_filtered_store(taken_in(known, rest, read), wanted, id, value);
        }
    }
}

proof fn lemma_last_is_last(
    entries: Seq<SetpointDescriptionData>,
    id: SetpointId,
)
    ensures
        match last_described(entries, id) {
            Some(description) => exists|j: int|
                0 <= j < entries.len() && #[trigger] entries[j] == description
                    && entries[j].setpoint_id == Some(id) && forall|i: int|
                    j < i < entries.len() ==> (#[trigger] entries[i]).setpoint_id != Some(id),
            None => forall|i: int|
                0 <= i < entries.len() ==> (#[trigger] entries[i]).setpoint_id != Some(id),
        },
    decreases entries.len(),
{
    if entries.len() > 0 {
        let rest = entries.drop_last();
        lemma_last_is_last(rest, id);
        if entries.last().setpoint_id == Some(id) {
            assert(entries[entries.len() - 1] == entries.last());
        } else {
            assert forall|i: int| 0 <= i < rest.len() implies rest[i] == entries[i] by {}
            match last_described(rest, id) {
                Some(description) => {
                    let j = choose|j: int|
                        0 <= j < rest.len() && #[trigger] rest[j] == description
                            && rest[j].setpoint_id == Some(id) && forall|i: int|
                            j < i < rest.len() ==> (#[trigger] rest[i]).setpoint_id != Some(id);
                    assert(entries[j] == description);
                    assert forall|i: int| j < i < entries.len() implies (
                    #[trigger] entries[i]).setpoint_id != Some(id) by {
                        if i < rest.len() {
                            assert(rest[i].setpoint_id != Some(id));
                        }
                    }
                },
                None => {
                    assert forall|i: int| 0 <= i < entries.len() implies (
                    #[trigger] entries[i]).setpoint_id != Some(id) by {
                        if i < rest.len() {
                            assert(rest[i].setpoint_id != Some(id));
                        }
                    }
                },
            }
        }
    }
}

/// What is collected from consistent descriptions was never put out of scope by them.
proof fn lemma_collected_stay(
    scope: ScopeType,
    known: Seq<(SetpointId, Option<UnitOfMeasurement>)>,
    list: Option<Seq<SetpointDescriptionData>>,
)
    requires
        consistent(scope, Payload::SetpointDescriptionListData(list)),
    ensures
        ({
            let entries = entries_of(list);
            let after = temperatures_learned(scope, known, entries);
            after.filter(keyed(stays(scope, entries))) == after
        }),
{
    let entries = entries_of(list);
    let after = temperatures_learned(scope, known, entries);
    let wanted = stays(scope, entries);
    let kept = keyed::<SetpointId, Option<UnitOfMeasurement>>(wanted);
    assert forall|k: int| 0 <= k < after.len() implies kept(#[trigger] after[k]) by {
        let id = after[k].0;
        lemma_place(after, id);
        law_last_description_counts(scope, known, entries, id);
        lemma_last_is_last(entries, id);
        assert forall|i: int|
            0 <= i < entries.len() && (#[trigger] entries[i]).setpoint_id == Some(
                id,
            ) implies entries[i].scope_type == Some(scope) by {
            let description = last_described(entries, id)->0;
            let j = choose|j: int|
                0 <= j < entries.len() && #[trigger] entries[j] == description
                    && entries[j].setpoint_id == Some(id) && forall|i: int|
                    j < i < entries.len() ==> (#[trigger] entries[i]).setpoint_id != Some(id);
            assert(entries[j].scope_type == Some(scope));
            assert(i <= j);
        }
    }
    lemma_filter_keeps_all(after, kept);
}

/// A payload that is repeated teaches a reader of setpoints nothing. (One that describes a
/// setpoint out of scope and then in scope can move it behind the others when it is repeated.)
pub proof fn law_learning_setpoints_again_changes_nothing(reader: SetpointsView, data: Payload)
    requires
        consistent(reader.scope, data),
    ensures
        reader.learned(data).learned(data) == reader.learned(data),
{
    match data {
        Payload::SetpointDescriptionListData(list) => {
            let entries = entries_of(list);
            let (scope, known) = (reader.scope, reader.temperatures);
            let read = temperature_read(scope);
            let wanted = stays(scope, entries);
            let kept = keyed::<SetpointId, Option<UnitOfMeasurement>>(wanted);
            let count = entries.len() as int;
            assert(entries.take(count) =~= entries);
            let once = temperatures_learned(scope, known, entries);
            let all = taken_in(known, entries, read);
            lemma_collected_stay(scope, known, list);
            lemma_collected_stay(scope, once, list);
            lemma_staying(scope, known, entries, count);
            lemma_staying(scope, once, entries, count);
            lemma_taken_in_filtered(all, entries, read, wanted);
            law_taking_in_again_changes_nothing(known, entries, read);
            assert(once == all.filter(kept));
        },
        Payload::SetpointConstraintsListData(list) => {
            let entries = entries_of(list);
            let read = constraints_read();
            lemma_constraints(reader.constraints, entries);
            lemma_constraints(taken_in(reader.constraints, entries, read), entries);
            law_taking_in_again_changes_nothing(reader.constraints, entries, read);
        },
        Payload::SetpointListData(list) => {
            let entries = entries_of(list);
            lemma_values(reader.values, entries);
            lemma_values(taken_in(reader.values, entries, value_read()), entries);
            law_taking_in_again_changes_nothing(reader.values, entries, value_read());
        },
        Payload::HvacSystemFunctionSetpointRelationListData(list) => {
            let entries = entries_of(list);
            let read = setpoint_relation_read();
            lemma_setpoint_relations(reader.relations, entries);
            lemma_setpoint_relations(taken_in(reader.relations, entries, read), entries);
            law_taking_in_again_changes_nothing(reader.relations, entries, read);
        },
        _ => {},
    }
}

/// Whatever the order, a payload that is repeated changes nothing of what a reader of setpoints
/// knows: which setpoints there are, in which units, and what they accept, hold and belong to.
pub proof fn law_learning_setpoints_again_teaches_nothing(
    reader: SetpointsView,
    data: Payload,
    id: SetpointId,
)
    ensures
        ({
            let once = reader.learned(data);
            let twice = once.learned(data);
            &&& lookup(twice.temperatures, id) == lookup(once.temperatures, id)
            &&& twice.constraints == once.constraints
            &&& twice.values == once.values
            &&& twice.relations == once.relations
        }),
{
    if let Payload::SetpointDescriptionListData(list) = data {
        let once = reader.learned(data);
        law_last_description_counts(reader.scope, reader.temperatures, entries_of(list), id);
        law_last_description_counts(reader.scope, once.temperatures, entries_of(list), id);
    } else {
        law_learning_setpoints_again_changes_nothing(reader, data);
    }
}

/// The mode, the changeability and the overrun of a function are those of the last state that names
/// it, whatever was known before; nothing else of the reader changes.
pub proof fn law_the_last_state_counts(
    reader: SystemFunctionView,
    entries: Seq<HvacSystemFunctionData>,
    function: HvacSystemFunctionId,
    at: int,
)
    requires
        reader.function == Some(function),
        0 <= at < entries.len(),
        entries[at].system_function_id == Some(function),
        forall|j: int|
            at < j < entries.len() ==> (#[trigger] entries[j]).system_function_id != Some(function),
    ensures
        ({
            let after = reader.learned(Payload::HvacSystemFunctionListData(Some(entries)));
            &&& after.mode_id() == entries[at].current_operation_mode_id
            &&& after.changeable() == entries[at].is_operation_mode_id_changeable
            &&& after.overrun_active() == entries[at].is_overrun_active
            &&& after == SystemFunctionView { states: after.states, ..reader }
        }),
{
    lemma_states(reader.states, entries);
    law_the_last_entry_counts(
        reader.states,
        entries,
        state_read(),
        at,
        function,
        FunctionState {
            current: entries[at].current_operation_mode_id,
            changeable: entries[at].is_operation_mode_id_changeable,
            overrun_active: entries[at].is_overrun_active,
        },
    );
}

/// A mode is of the kind that its last description names; nothing else of the reader changes.
pub proof fn law_the_last_mode_counts(
    reader: SystemFunctionView,
    entries: Seq<HvacOperationModeDescriptionData>,
    mode: HvacOperationModeId,
    kind: HvacOperationModeType,
    at: int,
)
    requires
        0 <= at < entries.len(),
        entries[at].operation_mode_id == Some(mode),
        entries[at].operation_mode_type == Some(kind),
        forall|j: int|
            at < j < entries.len() ==> (#[trigger] entries[j]).operation_mode_id != Some(mode),
    ensures
        ({
            let after = reader.learned(
                Payload::HvacOperationModeDescriptionListData(Some(entries)),
            );
            &&& lookup(after.modes, mode) == Some(kind)
            &&& reader.mode_id() == Some(mode) ==> after.mode() == Some(kind)
            &&& after == SystemFunctionView { modes: after.modes, ..reader }
        }),
{
    lemma_modes(reader.modes, entries);
    law_the_last_entry_counts(reader.modes, entries, mode_read(), at, mode, kind);
}

/// A function has the modes that the last relation to it names, none where that names none;
/// nothing else of the reader changes.
pub proof fn law_the_last_relation_counts(
    reader: SystemFunctionView,
    entries: Seq<ModeRelationEntry>,
    function: HvacSystemFunctionId,
    at: int,
)
    requires
        reader.function == Some(function),
        0 <= at < entries.len(),
        entries[at].system_function_id == Some(function),
        forall|j: int|
            at < j < entries.len() ==> (#[trigger] entries[j]).system_function_id != Some(function),
    ensures
        ({
            let after = reader.learned(
                Payload::HvacSystemFunctionOperationModeRelationListData(Some(entries)),
            );
            &&& entries[at].operation_mode_id matches Some(modes) ==> after.related_modes()
                == modes
            &&& entries[at].operation_mode_id is None ==> after.related_modes().len() == 0
            &&& after == SystemFunctionView { related: after.related, ..reader }
        }),
{
    lemma_relations(reader.related, entries);
    law_the_last_entry_counts(
        reader.related,
        entries,
        relation_read(),
        at,
        function,
        or_none(entries[at].operation_mode_id),
    );
}

/// An overrun is in the state that was last told of it: running, active, or at rest, which it also
/// is once it has finished. Nothing else of the reader changes.
pub proof fn law_the_last_overrun_state_counts(
    reader: SystemFunctionView,
    entries: Seq<HvacOverrunData>,
    overrun: HvacOverrunId,
    status: HvacOverrunStatus,
    at: int,
)
    requires
        reader.overrun_id() == Some(overrun),
        0 <= at < entries.len(),
        entries[at].overrun_id == Some(overrun),
        entries[at].overrun_status == Some(status),
        forall|j: int|
            at < j < entries.len() ==> (#[trigger] entries[j]).overrun_id != Some(overrun),
    ensures
        ({
            let after = reader.learned(Payload::HvacOverrunListData(Some(entries)));
            let report = after.overrun_report();
            &&& status is Active ==> report == Some((OverrunReport::Active, false))
            &&& status is Running ==> report == Some((OverrunReport::Running, false))
            &&& status is Inactive ==> report == Some((OverrunReport::Inactive, false))
            &&& status is Finished ==> report == Some((OverrunReport::Inactive, true))
            &&& after == SystemFunctionView { overrun_states: after.overrun_states, ..reader }
        }),
{
    lemma_overrun_states(reader.overrun_states, entries);
    if let Some(report) = OverrunReport::of(status) {
        law_the_last_entry_counts(
            reader.overrun_states,
            entries,
            overrun_state_read(),
            at,
            overrun,
            report,
        );
    }
}

/// An overrun has the kind and the functions that its last description names; nothing else of the
/// reader changes.
pub proof fn law_the_last_overrun_counts(
    reader: SystemFunctionView,
    entries: Seq<OverrunEntry>,
    overrun: HvacOverrunId,
    kind: HvacOverrunType,
    functions: Seq<HvacSystemFunctionId>,
    at: int,
)
    requires
        0 <= at < entries.len(),
        entries[at].overrun_id == Some(overrun),
        entries[at].overrun_type == Some(kind),
        entries[at].affected_system_function_id == Some(functions),
        forall|j: int|
            at < j < entries.len() ==> (#[trigger] entries[j]).overrun_id != Some(overrun),
    ensures
        ({
            let after = reader.learned(Payload::HvacOverrunDescriptionListData(Some(entries)));
            &&& lookup(after.overruns, overrun) == Some((kind, functions))
            &&& after == SystemFunctionView { overruns: after.overruns, ..reader }
        }),
{
    lemma_overruns(reader.overruns, entries);
    law_the_last_entry_counts(
        reader.overruns,
        entries,
        overrun_read(),
        at,
        overrun,
        (kind, functions),
    );
}

/// The overrun of a function is of the kind that is followed, and acts on the function: it names
/// it, or it names none. Where there is such an overrun, one is found.
pub proof fn law_the_overrun_acts_on_the_function(
    reader: SystemFunctionView,
    function: HvacSystemFunctionId,
    kind: HvacOverrunType,
)
    requires
        reader.function == Some(function),
        reader.overrun_type == Some(kind),
    ensures
        reader.overrun_id() matches Some(id) ==> exists|i: int|
            0 <= i < reader.overruns.len() && (#[trigger] reader.overruns[i]).0 == id && (
            reader.overruns[i].1).0 == kind && ((reader.overruns[i].1).1.len() == 0 || (
            reader.overruns[i].1).1.contains(function)),
        (exists|i: int|
            0 <= i < reader.overruns.len() && ((#[trigger] reader.overruns[i]).1).0 == kind && ((
            reader.overruns[i].1).1.len() == 0 || (reader.overruns[i].1).1.contains(function)))
            ==> reader.overrun_id() is Some,
        (SystemFunctionView { function: None, ..reader }).overrun_id() is None,
        (SystemFunctionView { overrun_type: None, ..reader }).overrun_id() is None,
{
    let wanted = super::system_function::overrun_on(kind, function);
    lemma_first_index(reader.overruns, wanted);
    if let Some(i) = first_index(reader.overruns, wanted) {
        assert(wanted(reader.overruns[i]));
    }
    if exists|i: int|
        0 <= i < reader.overruns.len() && ((#[trigger] reader.overruns[i]).1).0 == kind && ((
        reader.overruns[i].1).1.len() == 0 || (reader.overruns[i].1).1.contains(function)) {
        let i = choose|i: int|
            0 <= i < reader.overruns.len() && ((#[trigger] reader.overruns[i]).1).0 == kind && ((
            reader.overruns[i].1).1.len() == 0 || (reader.overruns[i].1).1.contains(function));
        assert(wanted(reader.overruns[i]));
    }
}

/// A setpoint has the value that was last told of it, whatever it had before; nothing else of the
/// reader changes, and a setpoint that is not named keeps its value.
pub proof fn law_the_last_value_counts(
    reader: SetpointsView,
    entries: Seq<SetpointData>,
    setpoint: SetpointId,
    thousandths: i64,
    at: int,
)
    requires
        0 <= at < entries.len(),
        entries[at].setpoint_id == Some(setpoint),
        entries[at].value == Some(ScaledNumber::Value(thousandths)),
        forall|j: int|
            at < j < entries.len() ==> (#[trigger] entries[j]).setpoint_id != Some(setpoint),
    ensures
        ({
            let after = reader.learned(Payload::SetpointListData(Some(entries)));
            &&& lookup(after.values, setpoint) == Some(Number::Finite(thousandths))
            &&& after == SetpointsView { values: after.values, ..reader }
        }),
{
    lemma_values(reader.values, entries);
    law_the_last_entry_counts(
        reader.values,
        entries,
        value_read(),
        at,
        setpoint,
        Number::Finite(thousandths),
    );
}

/// A setpoint accepts what was last told of it: the range, and the step where there is one; nothing
/// else of the reader changes.
pub proof fn law_the_last_range_counts(
    reader: SetpointsView,
    entries: Seq<SetpointConstraintsData>,
    setpoint: SetpointId,
    min: i64,
    max: i64,
    at: int,
)
    requires
        0 <= at < entries.len(),
        entries[at].setpoint_id == Some(setpoint),
        entries[at].setpoint_range_min == Some(ScaledNumber::Value(min)),
        entries[at].setpoint_range_max == Some(ScaledNumber::Value(max)),
        forall|j: int|
            at < j < entries.len() ==> (#[trigger] entries[j]).setpoint_id != Some(setpoint),
    ensures
        ({
            let after = reader.learned(Payload::SetpointConstraintsListData(Some(entries)));
            &&& lookup(after.constraints, setpoint) matches Some(accepted) && accepted.min
                == Number::Finite(min) && accepted.max == Number::Finite(max) && (
            entries[at].setpoint_step_size matches Some(ScaledNumber::Value(step))
                ==> accepted.step == Some(Number::Finite(step))) && (
            entries[at].setpoint_step_size is None ==> accepted.step is None)
            &&& after == SetpointsView { constraints: after.constraints, ..reader }
        }),
{
    lemma_constraints(reader.constraints, entries);
    law_the_last_entry_counts(
        reader.constraints,
        entries,
        constraints_read(),
        at,
        setpoint,
        Constraints {
            min: Number::Finite(min),
            max: Number::Finite(max),
            step: readable(entries[at].setpoint_step_size),
        },
    );
}

/// A mode uses the setpoints that were last told of it, none where none are named; nothing else of
/// the reader changes.
pub proof fn law_the_last_setpoints_count(
    reader: SetpointsView,
    entries: Seq<SetpointRelationEntry>,
    function: HvacSystemFunctionId,
    mode: HvacOperationModeId,
    at: int,
)
    requires
        0 <= at < entries.len(),
        entries[at].system_function_id == Some(function),
        entries[at].operation_mode_id == Some(mode),
        forall|j: int|
            at < j < entries.len() ==> (#[trigger] entries[j]).system_function_id != Some(function)
                || entries[j].operation_mode_id != Some(mode),
    ensures
        ({
            let after = reader.learned(
                Payload::HvacSystemFunctionSetpointRelationListData(Some(entries)),
            );
            &&& after.describes(function, mode)
            &&& entries[at].setpoint_id matches Some(setpoints) ==> after.for_mode(function, mode)
                == setpoints
            &&& entries[at].setpoint_id is None ==> after.for_mode(function, mode).len() == 0
            &&& after == SetpointsView { relations: after.relations, ..reader }
        }),
{
    lemma_setpoint_relations(reader.relations, entries);
    law_the_last_entry_counts(
        reader.relations,
        entries,
        setpoint_relation_read(),
        at,
        ModeKey { function, mode },
        or_none(entries[at].setpoint_id),
    );
}

} // verus!
