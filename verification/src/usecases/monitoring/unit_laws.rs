//! What a unit that is measured publishes: what was recorded, and nothing else.

use super::measurand::{Measurand, Quantity};
use super::unit::{measures, Naming, Slot, UnitView};
use crate::model::{
    entries_of, AbsoluteOrRelativeTime, MeasurementConstraintsData, MeasurementData, MeasurementId,
    MeasurementValueState, ScaledNumber,
};
use crate::number::Number;
use crate::seqs::{lemma_filtered, lemma_first_index, lemma_first_index_is};
use crate::usecases::signals::SignalFact;
use vstd::prelude::*;

verus! {

/// What is recorded of a measurand is what it reads from then on, with the time it was taken and
/// whether it lies in the range; its range, its numbers and every other measurand stay.
pub proof fn law_recording_sets_one_value(
    unit: UnitView,
    place: int,
    value: Number,
    taken_at: Option<AbsoluteOrRelativeTime>,
)
    requires
        unit.wf(),
        0 <= place < unit.slots.len(),
    ensures
        ({
            let slot = unit.slots[place];
            let after = unit.recorded(slot.measurand, value, taken_at);
            let outside = slot.range matches Some((min, max)) && (value.below(min) || max.below(
                value,
            ));
            &&& after.slots.len() == unit.slots.len() && after.naming == unit.naming
                && after.connection == unit.connection
            &&& after.slots[place] == Slot {
                value: Some(value),
                taken_at,
                state: if outside {
                    MeasurementValueState::OutOfRange
                } else {
                    MeasurementValueState::Normal
                },
                ..slot
            }
            &&& forall|i: int|
                0 <= i < unit.slots.len() && i != place ==> (#[trigger] after.slots[i])
                    == unit.slots[i]
        }),
{
    lemma_found(unit, place);
}

proof fn lemma_found(unit: UnitView, place: int)
    requires
        unit.wf(),
        0 <= place < unit.slots.len(),
    ensures
        unit.place(unit.slots[place].measurand) == Some(place),
        unit.slot(unit.slots[place].measurand) == Some(unit.slots[place]),
{
    let measurand = unit.slots[place].measurand;
    assert forall|i: int| 0 <= i < place implies !measures(measurand)(#[trigger] unit.slots[i]) by {
        assert(unit.slots[i].measurand != unit.slots[place].measurand);
    }
    lemma_first_index_is(unit.slots, measures(measurand), place);
}

/// A range and a state are set for one measurand, and leave its value; nothing else changes.
pub proof fn law_ranges_and_states_are_set_for_one(
    unit: UnitView,
    place: int,
    min: Number,
    max: Number,
    state: MeasurementValueState,
)
    requires
        unit.wf(),
        0 <= place < unit.slots.len(),
    ensures
        ({
            let slot = unit.slots[place];
            let ranged = unit.ranged(slot.measurand, min, max);
            let stated = unit.stated(slot.measurand, state);
            &&& ranged.slots.len() == unit.slots.len() && stated.slots.len() == unit.slots.len()
            &&& ranged.slots[place] == Slot { range: Some((min, max)), ..slot }
            &&& stated.slots[place] == Slot { state, ..slot }
            &&& forall|i: int|
                0 <= i < unit.slots.len() && i != place ==> (#[trigger] ranged.slots[i])
                    == unit.slots[i]
            &&& forall|i: int|
                0 <= i < unit.slots.len() && i != place ==> (#[trigger] stated.slots[i])
                    == unit.slots[i]
        }),
{
    lemma_found(unit, place);
}

/// What is set for a measurand that is not measured changes nothing.
pub proof fn law_what_is_not_measured_is_not_set(
    unit: UnitView,
    measurand: Measurand,
    value: Number,
    min: Number,
    max: Number,
    state: MeasurementValueState,
    taken_at: Option<AbsoluteOrRelativeTime>,
)
    requires
        forall|i: int|
            0 <= i < unit.slots.len() ==> (#[trigger] unit.slots[i]).measurand != measurand,
    ensures
        unit.recorded(measurand, value, taken_at) == unit,
        unit.ranged(measurand, min, max) == unit,
        unit.stated(measurand, state) == unit,
{
    lemma_first_index(unit.slots, measures(measurand));
}

/// A measurand is added once, at the end, under the next number, with nothing to report and the
/// range that its quantity has by nature; what was there stays.
pub proof fn law_measurands_are_added_once(unit: UnitView, measurand: Measurand)
    requires
        unit.slots.len() < u32::MAX,
    ensures
        ({
            let after = unit.with(measurand);
            let known = exists|i: int|
                0 <= i < unit.slots.len() && (#[trigger] unit.slots[i]).measurand == measurand;
            &&& known ==> after == unit
            &&& !known ==> {
                let slot = after.slots.last();
                &&& after.slots.drop_last() == unit.slots
                &&& after.slots.len() == unit.slots.len() + 1
                &&& slot.measurand == measurand && slot.measurement_id == MeasurementId(
                    (unit.slots.len() + 1) as u32,
                )
                &&& slot.value is None && slot.taken_at is None && slot.state is Normal
                &&& slot.range == measurand.quantity.bounds()
            }
        }),
{
    lemma_first_index(unit.slots, measures(measurand));
    if exists|i: int|
        0 <= i < unit.slots.len() && (#[trigger] unit.slots[i]).measurand == measurand {
        let i = choose|i: int|
            0 <= i < unit.slots.len() && (#[trigger] unit.slots[i]).measurand == measurand;
        assert(measures(measurand)(unit.slots[i]));
    } else {
        if let Some(i) = unit.place(measurand) {
            assert(measures(measurand)(unit.slots[i]));
        }
        assert(unit.with(measurand).slots.drop_last() =~= unit.slots);
    }
}

/// By nature a state of charge or of health is a share of the whole, and a distance or a charged
/// energy is not below zero; nothing else is bounded.
pub proof fn law_quantities_are_bounded_by_nature(quantity: Quantity)
    ensures
        quantity is StateOfCharge || quantity is StateOfHealth ==> quantity.bounds() == Some(
            (Number::Finite(0), Number::Finite(100_000)),
        ),
        quantity is TravelRange || quantity is EnergyCharged ==> (quantity.bounds() matches Some(
            (min, max),
        ) && min == Number::Finite(0) && max == Number::Finite(i64::MAX)),
        quantity.bounds() is Some ==> quantity is StateOfCharge || quantity is StateOfHealth
            || quantity is TravelRange || quantity is EnergyCharged,
{
}

/// A quantity is measured in the unit of its kind; only apparent and reactive power, which are
/// powers, have units of their own.
pub proof fn law_quantities_have_the_unit_of_their_kind(quantity: Quantity)
    ensures
        quantity.kind() is Power && !(quantity is ApparentPower) && !(quantity is ReactivePower)
            ==> quantity.measured_in() is W,
        quantity is ApparentPower ==> quantity.kind() is Power && quantity.measured_in() is VA,
        quantity is ReactivePower ==> quantity.kind() is Power && quantity.measured_in() is Var,
        quantity.kind() is Energy ==> quantity.measured_in() is Wh,
        quantity.kind() is Capacity ==> quantity.measured_in() is Wh,
        quantity.kind() is Current ==> quantity.measured_in() is A,
        quantity.kind() is Voltage ==> quantity.measured_in() is V,
        quantity.kind() is Frequency ==> quantity.measured_in() is Hz,
        quantity.kind() is Percentage ==> quantity.measured_in() is Pct,
        quantity.kind() is Distance ==> quantity.measured_in() is M,
        quantity.kind() is Temperature ==> quantity.measured_in() is DegC,
        quantity.kind() is Resistance ==> quantity.measured_in() is Ohm,
        quantity.kind() is Count || quantity.kind() is PowerFactor ==> quantity.measured_in()
            is V1,
{
}

/// What an entry says of a measurement.
pub open spec fn tells(entry: MeasurementData, slot: Slot) -> bool {
    &&& entry.measurement_id == Some(slot.measurement_id)
    &&& entry.timestamp == slot.taken_at
    &&& slot.value matches Some(value) ==> entry.value == Some(ScaledNumber::encoded(value, 3))
    &&& slot.value is None ==> entry.value is None
    &&& slot.state is Normal ==> entry.value_state is None
    &&& !(slot.state is Normal) ==> entry.value_state == Some(slot.state)
}

/// The published values are those of the measurements that have one, or are flagged, each with
/// what was recorded; and no others.
pub proof fn law_values_are_published_as_recorded(unit: UnitView, place: int, at: int)
    ensures
        ({
            let published = entries_of(unit.measurements_payload()->MeasurementListData_0);
            &&& unit.measurements_payload() is MeasurementListData
            &&& 0 <= place < unit.slots.len() && (unit.slots[place].value is Some || !(
            unit.slots[place].state is Normal)) ==> exists|k: int|
                0 <= k < published.len() && tells(#[trigger] published[k], unit.slots[place])
            &&& 0 <= at < published.len() ==> exists|i: int|
                0 <= i < unit.slots.len() && tells(published[at], #[trigger] unit.slots[i]) && (
                unit.slots[i].value is Some || !(unit.slots[i].state is Normal))
        }),
{
    let reportable = |slot: Slot| slot.reportable();
    let kept = unit.slots.filter(reportable);
    let published = entries_of(unit.measurements_payload()->MeasurementListData_0);
    lemma_filtered(unit.slots, reportable);
    if 0 <= place < unit.slots.len() && (unit.slots[place].value is Some || !(
    unit.slots[place].state is Normal)) {
        assert(reportable(unit.slots[place]));
        broadcast use vstd::seq_lib::group_filter_ensures;

        assert(kept.contains(unit.slots[place]));
        let k = choose|k: int| 0 <= k < kept.len() && kept[k] == unit.slots[place];
        assert(tells(published[k], unit.slots[place]));
    }
    if 0 <= at < published.len() {
        assert(reportable(kept[at]));
        assert(unit.slots.contains(kept[at]));
        let i = choose|i: int| 0 <= i < unit.slots.len() && unit.slots[i] == kept[at];
        assert(tells(published[at], unit.slots[i]));
    }
}

/// The published constraints are the ranges of the measurements that have one, and no others.
pub proof fn law_ranges_are_published(unit: UnitView, place: int, at: int)
    ensures
        ({
            let published = entries_of(unit.constraints_payload()->MeasurementConstraintsListData_0);
            &&& unit.constraints_payload() is MeasurementConstraintsListData
            &&& 0 <= place < unit.slots.len() && unit.slots[place].range is Some ==> exists|k: int|
                0 <= k < published.len() && bounds(#[trigger] published[k], unit.slots[place])
            &&& 0 <= at < published.len() ==> exists|i: int|
                0 <= i < unit.slots.len() && bounds(published[at], #[trigger] unit.slots[i])
        }),
{
    let ranged = |slot: Slot| slot.range is Some;
    let kept = unit.slots.filter(ranged);
    let published = entries_of(unit.constraints_payload()->MeasurementConstraintsListData_0);
    lemma_filtered(unit.slots, ranged);
    if 0 <= place < unit.slots.len() && unit.slots[place].range is Some {
        assert(ranged(unit.slots[place]));
        broadcast use vstd::seq_lib::group_filter_ensures;

        assert(kept.contains(unit.slots[place]));
        let k = choose|k: int| 0 <= k < kept.len() && kept[k] == unit.slots[place];
        assert(bounds(published[k], unit.slots[place]));
    }
    if 0 <= at < published.len() {
        assert(ranged(kept[at]));
        assert(unit.slots.contains(kept[at]));
        let i = choose|i: int| 0 <= i < unit.slots.len() && unit.slots[i] == kept[at];
        assert(bounds(published[at], unit.slots[i]));
    }
}

/// What an entry says of the range of a measurement.
pub open spec fn bounds(entry: MeasurementConstraintsData, slot: Slot) -> bool {
    slot.range matches Some((min, max)) && entry.measurement_id == Some(slot.measurement_id)
        && entry.value_range_min == Some(ScaledNumber::encoded(min, 3)) && entry.value_range_max
        == Some(ScaledNumber::encoded(max, 3)) && entry.value_step_size is None
}

/// Every measurement is described: what it measures, in which unit, in which scope, and, for what
/// is electrical, on which phases.
pub proof fn law_every_measurement_is_described(unit: UnitView, place: int)
    requires
        0 <= place < unit.slots.len(),
    ensures
        ({
            let slot = unit.slots[place];
            let described = entries_of(unit.descriptions_payload()->MeasurementDescriptionListData_0);
            let parameters = entries_of(
                unit.parameters_payload()->ElectricalConnectionParameterDescriptionListData_0,
            );
            let quantity = slot.measurand.quantity;
            &&& unit.descriptions_payload() is MeasurementDescriptionListData
            &&& unit.parameters_payload() is ElectricalConnectionParameterDescriptionListData
            &&& described.len() == unit.slots.len() && parameters.len() == unit.slots.len()
            &&& described[place].measurement_id == Some(slot.measurement_id)
            &&& described[place].measurement_type == Some(quantity.kind())
            &&& described[place].unit == Some(quantity.measured_in())
            &&& described[place].scope_type == parameters[place].scope_type
            &&& parameters[place].measurement_id == Some(slot.measurement_id)
            &&& parameters[place].parameter_id == Some(slot.parameter_id)
            &&& parameters[place].electrical_connection_id == Some(unit.connection)
            &&& parameters[place].ac_measured_phases == slot.measurand.phases
        }),
{
}

/// A connection point names energy from the side of the grid; everywhere else it is named from the
/// side of the appliance.
pub proof fn law_only_the_connection_point_names_from_the_grid(naming: Naming, measurand: Measurand)
    ensures
        naming is GridConnectionPoint && measurand.quantity is EnergyConsumed ==> naming.scope(
            measurand,
        ) is GridConsumption,
        naming is GridConnectionPoint && measurand.quantity is EnergyProduced ==> naming.scope(
            measurand,
        ) is GridFeedIn,
        !(naming is GridConnectionPoint) || !(measurand.quantity is EnergyConsumed
            || measurand.quantity is EnergyProduced) ==> naming.scope(measurand)
            == measurand.scope(),
        measurand.quantity is EnergyConsumed ==> measurand.scope() is AcEnergyConsumed,
        measurand.quantity is EnergyProduced ==> measurand.scope() is AcEnergyProduced,
{
}

/// Every measurement is shown as a signal: with its value where it is not flagged, with the flag
/// where it is, and in the unit of its quantity.
pub proof fn law_signals_show_the_measurements(unit: UnitView, place: int)
    requires
        0 <= place < unit.slots.len(),
    ensures
        ({
            let slot = unit.slots[place];
            let signal = unit.signals()[place];
            &&& unit.signals().len() == unit.slots.len()
            &&& slot.state is Normal ==> (slot.value matches Some(value) ==> signal.value
                == SignalFact::Number(value))
            &&& slot.state is Normal && slot.value is None ==> signal.value is Absent
            &&& !(slot.state is Normal) ==> signal.value == SignalFact::Text(slot.state.text())
            &&& signal.unit == Some(slot.measurand.quantity.measured_in().text())
            &&& signal.name == unit.naming.prefix() + ":"@ + slot.measurand.name()
        }),
{
}

} // verus!
