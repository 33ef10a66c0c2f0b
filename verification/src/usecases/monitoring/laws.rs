//! What holds of units and readings together: what a unit publishes is what an appliance reads.

use super::measurand::{Measurand, Quantity};
use super::readings::{
    described_meaning, meaning_of, measured, measurements_described, parameters_described,
    phases_of_scope, quantity_of_scope, reading_of, resolved, stated_meaning, Known, Reading,
    ReadingState, ReadingsView,
};
use super::unit::{measures, Naming, Slot, UnitView, DECIMALS};
use crate::assoc::{law_lookup_after_store, lemma_place, lookup, place_of, stored};
use crate::model::{
    entries_of, nearest_multiple, AbsoluteOrRelativeTime,
    ElectricalConnectionParameterDescriptionData, MeasurementData, MeasurementDescriptionData,
    MeasurementId, MeasurementValueSource, MeasurementValueState, ScaledNumber, UnitOfMeasurement,
};
use crate::number::Number;
use crate::seqs::{lemma_first_index, lemma_first_index_is, lemma_take_next};
use crate::usecases::hvac::temperature::{description_payload, reported_payload};
use vstd::prelude::*;

verus! {

/// A scope names the quantity that it was made from, from whichever side it is named.
pub proof fn law_scopes_name_their_quantity(naming: Naming, measurand: Measurand)
    ensures
        quantity_of_scope(naming.scope(measurand)) == Some(measurand.quantity),
{
}

/// What is added, set, ranged and flagged on a unit keeps its numbering, and its measurands apart.
pub proof fn law_units_stay_well_formed(
    unit: UnitView,
    measurand: Measurand,
    value: Number,
    min: Number,
    max: Number,
    state: MeasurementValueState,
    taken_at: Option<AbsoluteOrRelativeTime>,
)
    requires
        unit.wf(),
    ensures
        unit.slots.len() < u32::MAX ==> unit.with(measurand).wf(),
        unit.recorded(measurand, value, taken_at).wf(),
        unit.ranged(measurand, min, max).wf(),
        unit.stated(measurand, state).wf(),
{
    lemma_first_index(unit.slots, measures(measurand));
    if unit.place(measurand) is None && unit.slots.len() < u32::MAX {
        let after = unit.with(measurand);
        assert forall|i: int, j: int| 0 <= i < j < after.slots.len() implies (
        #[trigger] after.slots[i]).measurand != (#[trigger] after.slots[j]).measurand by {
            if j == unit.slots.len() {
                assert(!measures(measurand)(unit.slots[i]));
            } else {
                assert(after.slots[i] == unit.slots[i] && after.slots[j] == unit.slots[j]);
            }
        }
    }
    if let Some(place) = unit.place(measurand) {
        let slot = unit.slots[place];
        lemma_changing_a_slot(unit, place, slot.recorded(value, taken_at));
        lemma_changing_a_slot(unit, place, Slot { range: Some((min, max)), ..slot });
        lemma_changing_a_slot(unit, place, Slot { state, ..slot });
    }
}

proof fn lemma_changing_a_slot(unit: UnitView, place: int, slot: Slot)
    requires
        unit.wf(),
        0 <= place < unit.slots.len(),
        slot.measurand == unit.slots[place].measurand,
        slot.measurement_id == unit.slots[place].measurement_id,
        slot.parameter_id == unit.slots[place].parameter_id,
    ensures
        (UnitView { slots: unit.slots.update(place, slot), ..unit }).wf(),
{
    let after = UnitView { slots: unit.slots.update(place, slot), ..unit };
    assert forall|i: int, j: int| 0 <= i < j < after.slots.len() implies (
    #[trigger] after.slots[i]).measurand != (#[trigger] after.slots[j]).measurand by {
        assert(unit.slots[i].measurand != unit.slots[j].measurand);
    }
}

/// A recorded value is flagged exactly if it lies outside the range of its sensor.
pub proof fn law_values_out_of_range_are_flagged(
    slot: Slot,
    value: Number,
    taken_at: Option<AbsoluteOrRelativeTime>,
)
    ensures
        slot.recorded(value, taken_at).value == Some(value),
        slot.recorded(value, taken_at).state is OutOfRange <==> slot.outside(value),
        slot.recorded(value, taken_at).state is Normal <==> !slot.outside(value),
{
}

/// A flagged value is never handed back as a number.
pub proof fn law_flagged_values_are_ignored(readings: ReadingsView, measurand: Measurand)
    ensures
        readings.value(measurand) is Some ==> (readings.reading(measurand) matches Some(reading)
            && reading.state is Normal && reading.value == readings.value(measurand)),
{
}

/// What the parameter descriptions of the first `count` measurements teach.
proof fn lemma_parameters(
    unit: UnitView,
    known: Seq<(MeasurementId, Known)>,
    count: int,
    place: int,
)
    requires
        unit.wf(),
        0 <= count <= unit.slots.len(),
        0 <= place < unit.slots.len(),
    ensures
        lookup(
            parameters_described(known, parameter_entries(unit).take(count)),
            unit.slots[place].measurement_id,
        ) == if place < count {
            Some(
                stated_meaning(
                    unit.slots[place].measurand.quantity,
                    unit.slots[place].measurand.phases,
                ),
            )
        } else {
            lookup(known, unit.slots[place].measurement_id)
        },
    decreases count,
{
    let entries = parameter_entries(unit);
    if count > 0 {
        lemma_parameters(unit, known, count - 1, place);
        lemma_take_next(entries, count - 1);
        let slot = unit.slots[count - 1];
        assert(entries[count - 1] == slot.parameter(unit.connection, unit.naming));
        law_scopes_name_their_quantity(unit.naming, slot.measurand);
        law_lookup_after_store(
            parameters_described(known, entries.take(count - 1)),
            slot.measurement_id,
            stated_meaning(slot.measurand.quantity, slot.measurand.phases),
            unit.slots[place].measurement_id,
        );
    }
}

/// What the measurement descriptions of the first `count` measurements teach.
proof fn lemma_descriptions(
    unit: UnitView,
    known: Seq<(MeasurementId, Known)>,
    count: int,
    place: int,
)
    requires
        unit.wf(),
        0 <= count <= unit.slots.len(),
        0 <= place < unit.slots.len(),
    ensures
        ({
            let id = unit.slots[place].measurement_id;
            let measurand = unit.slots[place].measurand;
            lookup(measurements_described(known, description_entries(unit).take(count)), id)
                == if place < count {
                Some(
                    described_meaning(
                        lookup(known, id),
                        measurand.quantity,
                        unit.naming.scope(measurand),
                    ),
                )
            } else {
                lookup(known, id)
            }
        }),
    decreases count,
{
    let entries = description_entries(unit);
    if count > 0 {
        lemma_descriptions(unit, known, count - 1, place);
        lemma_descriptions(unit, known, count - 1, count - 1);
        lemma_take_next(entries, count - 1);
        let slot = unit.slots[count - 1];
        assert(entries[count - 1] == slot.description(unit.naming));
        law_scopes_name_their_quantity(unit.naming, slot.measurand);
        let before = measurements_described(known, entries.take(count - 1));
        law_lookup_after_store(
            before,
            slot.measurement_id,
            described_meaning(
                lookup(before, slot.measurement_id),
                slot.measurand.quantity,
                unit.naming.scope(slot.measurand),
            ),
            unit.slots[place].measurement_id,
        );
    }
}

/// The parameter descriptions that a unit publishes.
pub open spec fn parameter_entries(unit: UnitView) -> Seq<
    ElectricalConnectionParameterDescriptionData,
> {
    entries_of(unit.parameters_payload()->ElectricalConnectionParameterDescriptionListData_0)
}

/// The measurement descriptions that a unit publishes.
pub open spec fn description_entries(unit: UnitView) -> Seq<MeasurementDescriptionData> {
    entries_of(unit.descriptions_payload()->MeasurementDescriptionListData_0)
}

/// An appliance that read both descriptions knows what every measurement of a unit means.
pub proof fn law_descriptions_give_meaning(readings: ReadingsView, unit: UnitView, place: int)
    requires
        unit.wf(),
        0 <= place < unit.slots.len(),
    ensures
        meaning_of(
            readings.described(unit.descriptions_payload()).described(
                unit.parameters_payload(),
            ).known,
            unit.slots[place].measurement_id,
        ) == Some(unit.slots[place].measurand),
{
    let entries = parameter_entries(unit);
    assert(entries.take(entries.len() as int) =~= entries);
    lemma_parameters(
        unit,
        readings.described(unit.descriptions_payload()).known,
        entries.len() as int,
        place,
    );
}

/// The two descriptions may arrive in either order: what a parameter description states of the
/// phases stands, whatever the scope of the measurement suggests.
pub proof fn law_descriptions_arrive_in_either_order(
    readings: ReadingsView,
    unit: UnitView,
    place: int,
)
    requires
        unit.wf(),
        0 <= place < unit.slots.len(),
    ensures
        meaning_of(
            readings.described(unit.parameters_payload()).described(
                unit.descriptions_payload(),
            ).known,
            unit.slots[place].measurement_id,
        ) == Some(unit.slots[place].measurand),
{
    let parameters = parameter_entries(unit);
    let descriptions = description_entries(unit);
    assert(parameters.take(parameters.len() as int) =~= parameters);
    assert(descriptions.take(descriptions.len() as int) =~= descriptions);
    lemma_parameters(unit, readings.known, parameters.len() as int, place);
    lemma_descriptions(
        unit,
        readings.described(unit.parameters_payload()).known,
        descriptions.len() as int,
        place,
    );
}

/// A measurement that is described before its phases are known has no meaning yet, where its
/// scope does not name them: the value of one phase is not taken for another's.
pub proof fn law_phases_are_waited_for(unit: UnitView, place: int)
    requires
        unit.wf(),
        0 <= place < unit.slots.len(),
        phases_of_scope(unit.naming.scope(unit.slots[place].measurand)) is None,
    ensures
        meaning_of(
            ReadingsView::nothing().described(unit.descriptions_payload()).known,
            unit.slots[place].measurement_id,
        ) is None,
{
    let entries = description_entries(unit);
    assert(entries.take(entries.len() as int) =~= entries);
    lemma_descriptions(unit, Seq::empty(), entries.len() as int, place);
}

/// The reading that a slot's report resolves to.
pub open spec fn reading_of_slot(slot: Slot) -> Reading {
    Reading {
        measurand: slot.measurand,
        value: match slot.value {
            Some(value) => ScaledNumber::encoded(value, DECIMALS).decoded(),
            None => None,
        },
        state: match slot.state {
            MeasurementValueState::OutOfRange => ReadingState::OutOfRange,
            MeasurementValueState::Error => ReadingState::Error,
            _ => ReadingState::Normal,
        },
        timestamp: slot.taken_at,
    }
}

/// The reports of the first `count` measurements.
spec fn reports(unit: UnitView, count: int) -> Seq<MeasurementData> {
    unit.slots.take(count).filter(|slot: Slot| slot.reportable()).map_values(
        |slot: Slot| slot.report(),
    )
}

proof fn lemma_reports_step(unit: UnitView, count: int)
    requires
        0 < count <= unit.slots.len(),
    ensures
        unit.slots[count - 1].reportable() ==> reports(unit, count) == reports(
            unit,
            count - 1,
        ).push(unit.slots[count - 1].report()),
        !unit.slots[count - 1].reportable() ==> reports(unit, count) == reports(unit, count - 1),
{
    reveal(Seq::filter);
    lemma_take_next(unit.slots, count - 1);
    let wanted = |slot: Slot| slot.reportable();
    let kept = unit.slots.take(count - 1).filter(wanted);
    let slot = unit.slots[count - 1];
    assert(kept.push(slot).map_values(|slot: Slot| slot.report()) =~= kept.map_values(
        |slot: Slot| slot.report(),
    ).push(slot.report()));
}

/// What the reports of the first `count` measurements leave behind.
proof fn lemma_measured(
    unit: UnitView,
    known: Seq<(MeasurementId, Known)>,
    count: int,
)
    requires
        unit.wf(),
        0 <= count <= unit.slots.len(),
        forall|i: int|
            0 <= i < unit.slots.len() ==> meaning_of(
                known,
                (#[trigger] unit.slots[i]).measurement_id,
            ) == Some(unit.slots[i].measurand),
    ensures
        ({
            let values = measured(known, Seq::empty(), reports(unit, count)).0;
            &&& forall|i: int|
                0 <= i < count && (#[trigger] unit.slots[i]).reportable() ==> lookup(
                    values,
                    unit.slots[i].measurement_id,
                ) == Some(reading_of_slot(unit.slots[i]))
            &&& forall|k: int|
                0 <= k < values.len() ==> exists|i: int|
                    0 <= i < count && (#[trigger] unit.slots[i]).measurement_id == (
                    #[trigger] values[k]).0 && values[k].1 == reading_of_slot(unit.slots[i])
        }),
    decreases count,
{
    let values = measured(known, Seq::empty(), reports(unit, count)).0;
    if count == 0 {
        reveal(Seq::filter);
        assert(reports(unit, 0) =~= Seq::empty());
    } else {
        lemma_measured(unit, known, count - 1);
        lemma_reports_step(unit, count);
        let before = measured(known, Seq::empty(), reports(unit, count - 1)).0;
        let slot = unit.slots[count - 1];
        if slot.reportable() {
            let all = reports(unit, count);
            assert(all.drop_last() =~= reports(unit, count - 1));
            assert(all.last() == slot.report());
            assert(resolved(known, slot.report()) == Some(
                (slot.measurement_id, reading_of_slot(slot)),
            ));
            assert(values == stored(before, slot.measurement_id, reading_of_slot(slot)));
            lemma_place(before, slot.measurement_id);
            assert forall|i: int|
                0 <= i < count && (#[trigger] unit.slots[i]).reportable() implies lookup(
                values,
                unit.slots[i].measurement_id,
            ) == Some(reading_of_slot(unit.slots[i])) by {
                law_lookup_after_store(
                    before,
                    slot.measurement_id,
                    reading_of_slot(slot),
                    unit.slots[i].measurement_id,
                );
            }
            assert forall|k: int| 0 <= k < values.len() implies exists|i: int|
                0 <= i < count && (#[trigger] unit.slots[i]).measurement_id == (
                #[trigger] values[k]).0 && values[k].1 == reading_of_slot(unit.slots[i]) by {
                if values[k].0 == slot.measurement_id && values[k].1 == reading_of_slot(slot) {
                    assert(unit.slots[count - 1].measurement_id == values[k].0);
                } else {
                    assert(values[k] == before[k]);
                    let i = choose|i: int|
                        0 <= i < count - 1 && (#[trigger] unit.slots[i]).measurement_id
                            == before[k].0 && before[k].1 == reading_of_slot(unit.slots[i]);
                    assert(unit.slots[i].measurement_id == values[k].0);
                }
            }
        } else {
            assert(values == before);
            assert forall|k: int| 0 <= k < values.len() implies exists|i: int|
                0 <= i < count && (#[trigger] unit.slots[i]).measurement_id == (
                #[trigger] values[k]).0 && values[k].1 == reading_of_slot(unit.slots[i]) by {
                let i = choose|i: int|
                    0 <= i < count - 1 && (#[trigger] unit.slots[i]).measurement_id
                        == before[k].0 && before[k].1 == reading_of_slot(unit.slots[i]);
                assert(unit.slots[i].measurement_id == values[k].0);
            }
        }
    }
}

/// What an appliance has of a unit once it read the descriptions and the values.
pub open spec fn read_all(unit: UnitView) -> ReadingsView {
    ReadingsView::nothing().described(unit.descriptions_payload()).described(
        unit.parameters_payload(),
    ).applied(unit.measurements_payload()).0
}

/// What a unit measures is what an appliance reads: every measurement that has something to
/// report is found by its measurand, with its value to the thousandth, its state and its time.
pub proof fn law_measurements_are_read_back(unit: UnitView, place: int)
    requires
        unit.wf(),
        0 <= place < unit.slots.len(),
        unit.slots[place].reportable(),
    ensures
        read_all(unit).reading(unit.slots[place].measurand) == Some(
            reading_of_slot(unit.slots[place]),
        ),
{
    let slot = unit.slots[place];
    let known = ReadingsView::nothing().described(unit.descriptions_payload()).described(
        unit.parameters_payload(),
    ).known;
    assert forall|i: int| 0 <= i < unit.slots.len() implies meaning_of(
        known,
        (#[trigger] unit.slots[i]).measurement_id,
    ) == Some(unit.slots[i].measurand) by {
        law_descriptions_give_meaning(ReadingsView::nothing(), unit, i);
    }
    let count = unit.slots.len() as int;
    assert(unit.slots.take(count) =~= unit.slots);
    lemma_measured(unit, known, count);
    let values = read_all(unit).values;
    assert(values == measured(known, Seq::empty(), reports(unit, count)).0);
    lemma_place(values, slot.measurement_id);
    let found = place_of(values, slot.measurement_id)->0;
    let wanted = reading_of(slot.measurand);
    assert forall|k: int| 0 <= k < found implies !wanted(#[trigger] values[k]) by {
        let i = choose|i: int|
            0 <= i < count && (#[trigger] unit.slots[i]).measurement_id == values[k].0
                && values[k].1 == reading_of_slot(unit.slots[i]);
        if i != place {
            assert(unit.slots[i].measurand != unit.slots[place].measurand);
        }
    }
    lemma_first_index_is(values, wanted, found);
}

/// A finite value that is in range is read exactly, and one that is flagged as out of range or
/// wrong is not read at all.
pub proof fn law_values_are_read_back_exactly(unit: UnitView, place: int, thousandths: i64)
    requires
        unit.wf(),
        0 <= place < unit.slots.len(),
        unit.slots[place].value == Some(Number::Finite(thousandths)),
    ensures
        read_all(unit).value(unit.slots[place].measurand) == if unit.slots[place].state is OutOfRange
            || unit.slots[place].state is Error {
            None
        } else {
            Some(Number::Finite(thousandths))
        },
{
    law_measurements_are_read_back(unit, place);
    assert(nearest_multiple(thousandths as int, 1) == thousandths);
}

/// A temperature that is published is the temperature that is read, to the tenth of a degree; one
/// that is flagged is not read. Its description alone is enough, because its scope says that it
/// has no phases.
pub proof fn law_temperatures_are_read_back(
    measurand: Measurand,
    id: MeasurementId,
    unit: UnitOfMeasurement,
    degrees: Number,
    source: MeasurementValueSource,
    state: Option<MeasurementValueState>,
    taken_at: Option<AbsoluteOrRelativeTime>,
)
    requires
        phases_of_scope(measurand.scope()) == Some(measurand.phases),
    ensures
        ReadingsView::nothing().described(description_payload(measurand, id, unit)).applied(
            reported_payload(id, degrees, source, state, taken_at),
        ).0.value(measurand) == match state {
            Some(MeasurementValueState::OutOfRange) => None,
            Some(MeasurementValueState::Error) => None,
            _ => ScaledNumber::encoded(degrees, 1).decoded(),
        },
{
    let descriptions = entries_of(
        description_payload(measurand, id, unit)->MeasurementDescriptionListData_0,
    );
    let reported = entries_of(
        reported_payload(id, degrees, source, state, taken_at)->MeasurementListData_0,
    );
    reveal_with_fuel(measurements_described, 2);
    reveal_with_fuel(measured, 2);
    assert(descriptions.drop_last() =~= Seq::empty());
    assert(reported.drop_last() =~= Seq::empty());
    law_scopes_name_their_quantity(Naming::Appliance, measurand);
    let known = ReadingsView::nothing().described(
        description_payload(measurand, id, unit),
    ).known;
    law_lookup_after_store(
        Seq::<(MeasurementId, Known)>::empty(),
        id,
        Known { quantity: measurand.quantity, phases: Some(measurand.phases), stated: false },
        id,
    );
    assert(meaning_of(known, id) == Some(measurand));
    let reading = (resolved(known, reported[0])->0).1;
    let values = stored(Seq::<(MeasurementId, Reading)>::empty(), id, reading);
    lemma_place(Seq::<(MeasurementId, Reading)>::empty(), id);
    lemma_first_index_is(values, reading_of(measurand), 0);
}

/// The temperatures of the hot water, of a room, and outdoors are of that kind.
pub proof fn law_temperatures_have_no_phases(quantity: Quantity)
    requires
        quantity is DhwTemperature || quantity is RoomTemperature
            || quantity is OutdoorTemperature || quantity is Temperature,
    ensures
        phases_of_scope((Measurand { quantity, phases: None }).scope()) == Some(
            None::<crate::model::ElectricalConnectionPhaseName>,
        ),
{
}

} // verus!
