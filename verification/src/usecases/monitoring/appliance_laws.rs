//! What a Monitoring Appliance knows after something arrived: what arrived, whatever was known
//! before.

use super::appliance::{MonitoredView, MonitoringEventView, MonitoringView, UnitPeerView};
use super::measurand::{Measurand, Quantity};
use super::readings::{
    described_meaning, fully_known, held, meaning_of, measured, measurements_described,
    parameters_described, phases_of_scope, quantity_of_scope, reading_of, resolved, Known, Reading,
    ReadingsView,
};
use crate::address::{FeatureAddressView, UnitIdView};
use crate::assoc::{law_lookup_after_store, lemma_place, lookup, place_of};
use crate::model::{
    DeviceConfigurationKeyId, DeviceConfigurationKeyValueData,
    ElectricalConnectionParameterDescriptionData, Function, MeasurementData,
    MeasurementDescriptionData, MeasurementId, MeasurementValueState, Payload, ScaledNumber,
    ScopeType,
};
use crate::number::Number;
use crate::seqs::{lemma_filtered, lemma_first_index, lemma_first_index_is};
use crate::spine::{CommandView, EngineView, SpineEvent};
use crate::time::Duration;
use crate::usecases::mgcp::numbers_learned;
use vstd::prelude::*;

verus! {

/// Whether a reading says what an entry of a payload states of a measurement: the value as it is
/// on the wire, that it is out of range or wrong where it is flagged so, and when it was taken.
pub open spec fn says_what_is_stated(
    reading: Reading,
    entry: MeasurementData,
    measurand: Measurand,
) -> bool {
    &&& reading.measurand == measurand
    &&& entry.value matches Some(ScaledNumber::Value(thousandths)) ==> reading.value == Some(
        Number::Finite(thousandths),
    )
    &&& entry.value is None || entry.value == Some(ScaledNumber::Overflow)
        ==> reading.value is None
    &&& reading.state is OutOfRange <==> entry.value_state == Some(
        MeasurementValueState::OutOfRange,
    )
    &&& reading.state is Error <==> entry.value_state == Some(MeasurementValueState::Error)
    &&& reading.timestamp == entry.timestamp
}

/// An entry is read if and only if it names a measurement whose meaning is known.
pub proof fn law_an_entry_is_read_as_stated(
    known: Seq<(MeasurementId, Known)>,
    entry: MeasurementData,
)
    ensures
        match entry.measurement_id {
            Some(id) => match meaning_of(known, id) {
                Some(measurand) => resolved(known, entry) matches Some((named, reading)) && named
                    == id && says_what_is_stated(reading, entry, measurand),
                None => resolved(known, entry) is None,
            },
            None => resolved(known, entry) is None,
        },
{
}

/// A reading is handed back as a number only where it is not flagged.
pub proof fn law_only_unflagged_readings_are_trusted(reading: Reading)
    ensures
        reading.state is Normal ==> reading.trusted() == reading.value,
        !(reading.state is Normal) ==> reading.trusted() is None,
{
}

/// What an entry that was taken in leaves behind.
spec fn left_behind(
    after: (Seq<(MeasurementId, Reading)>, Seq<Reading>),
    entry: MeasurementData,
    id: MeasurementId,
    measurand: Measurand,
) -> bool {
    exists|reading: Reading|
        says_what_is_stated(reading, entry, measurand) && lookup(after.0, id) == Some(reading)
            && #[trigger] after.1.contains(reading)
}

proof fn lemma_measured(
    known: Seq<(MeasurementId, Known)>,
    values: Seq<(MeasurementId, Reading)>,
    entries: Seq<MeasurementData>,
    at: int,
    id: MeasurementId,
    measurand: Measurand,
)
    requires
        0 <= at < entries.len(),
        meaning_of(known, id) == Some(measurand),
        entries[at].measurement_id == Some(id),
        forall|j: int| at < j < entries.len() ==> (#[trigger] entries[j]).measurement_id != Some(id),
    ensures
        left_behind(measured(known, values, entries), entries[at], id, measurand),
    decreases entries.len(),
{
    let rest = entries.drop_last();
    let before = measured(known, values, rest);
    let after = measured(known, values, entries);
    if at == entries.len() - 1 {
        let reading = (resolved(known, entries[at])->0).1;
        law_lookup_after_store(before.0, id, reading, id);
        assert(after.1[after.1.len() - 1] == reading);
        assert(after.1.contains(reading));
    } else {
        assert forall|j: int| at < j < rest.len() implies (#[trigger] rest[j]).measurement_id
            != Some(id) by {
            assert(rest[j] == entries[j]);
        }
        lemma_measured(known, values, rest, at, id, measurand);
        let reading = choose|reading: Reading|
            says_what_is_stated(reading, entries[at], measurand) && lookup(before.0, id) == Some(
                reading,
            ) && #[trigger] before.1.contains(reading);
        let k = choose|k: int| 0 <= k < before.1.len() && before.1[k] == reading;
        assert(after.1[k] == reading);
        assert(after.1.contains(reading));
        let last = entries[entries.len() - 1];
        if let Some((other, read)) = resolved(known, last) {
            law_lookup_after_store(before.0, other, read, id);
        }
    }
}

proof fn lemma_unmeasured(
    known: Seq<(MeasurementId, Known)>,
    values: Seq<(MeasurementId, Reading)>,
    entries: Seq<MeasurementData>,
    id: MeasurementId,
)
    requires
        forall|j: int| 0 <= j < entries.len() ==> (#[trigger] entries[j]).measurement_id != Some(id),
    ensures
        lookup(measured(known, values, entries).0, id) == lookup(values, id),
    decreases entries.len(),
{
    if entries.len() > 0 {
        let rest = entries.drop_last();
        assert forall|j: int| 0 <= j < rest.len() implies (#[trigger] rest[j]).measurement_id
            != Some(id) by {
            assert(rest[j] == entries[j]);
        }
        lemma_unmeasured(known, values, rest, id);
        let last = entries[entries.len() - 1];
        if let Some((other, read)) = resolved(known, last) {
            law_lookup_after_store(measured(known, values, rest).0, other, read, id);
        }
    }
}

/// After a payload is taken in, each described measurement has the reading that the payload states
/// last, whatever was held before, and that reading is among those that arrived. What the payload
/// does not name stays.
pub proof fn law_the_last_measurement_counts(
    readings: ReadingsView,
    entries: Seq<MeasurementData>,
    at: int,
    id: MeasurementId,
    measurand: Measurand,
)
    requires
        0 <= at < entries.len(),
        meaning_of(readings.known, id) == Some(measurand),
        entries[at].measurement_id == Some(id),
        forall|j: int| at < j < entries.len() ==> (#[trigger] entries[j]).measurement_id != Some(id),
    ensures
        ({
            let (after, arrived) = readings.applied(Payload::MeasurementListData(Some(entries)));
            &&& after.known == readings.known
            &&& lookup(after.values, id) matches Some(reading) && says_what_is_stated(
                reading,
                entries[at],
                measurand,
            ) && arrived.contains(reading)
            &&& forall|other: MeasurementId|
                (forall|j: int|
                    0 <= j < entries.len() ==> (#[trigger] entries[j]).measurement_id != Some(
                        other,
                    )) ==> #[trigger] lookup(after.values, other) == lookup(readings.values, other)
            &&& (forall|k: int|
                0 <= k < after.values.len() && (#[trigger] after.values[k]).1.measurand
                    == measurand ==> after.values[k].0 == id) ==> after.reading(measurand)
                == lookup(after.values, id)
        }),
{
    let data = Payload::MeasurementListData(Some(entries));
    let after = readings.applied(data).0;
    lemma_measured(readings.known, readings.values, entries, at, id, measurand);
    assert forall|other: MeasurementId|
        (forall|j: int|
            0 <= j < entries.len() ==> (#[trigger] entries[j]).measurement_id != Some(
                other,
            )) implies #[trigger] lookup(after.values, other) == lookup(readings.values, other) by {
        lemma_unmeasured(readings.known, readings.values, entries, other);
    }
    if forall|k: int|
        0 <= k < after.values.len() && (#[trigger] after.values[k]).1.measurand == measurand
            ==> after.values[k].0 == id {
        lemma_place(after.values, id);
        let place = place_of(after.values, id)->0;
        let wanted = reading_of(measurand);
        assert forall|k: int| 0 <= k < place implies !wanted(#[trigger] after.values[k]) by {
            assert(after.values[k].0 != id);
        }
        lemma_first_index_is(after.values, wanted, place);
    }
}

/// What arrives of a followed unit's measurements is what is known of them from then on, whatever
/// was known before, and it is reported: the reading of each described measurement that is named
/// is among those of the event.
pub proof fn law_measurements_of_a_unit_are_taken_in(
    member: MonitoredView,
    feature: FeatureAddressView,
    entries: Seq<MeasurementData>,
    at: int,
    id: MeasurementId,
    measurand: Measurand,
)
    requires
        member.peer.curtailment != Some(feature),
        0 <= at < entries.len(),
        meaning_of(member.readings.known, id) == Some(measurand),
        entries[at].measurement_id == Some(id),
        forall|j: int| at < j < entries.len() ==> (#[trigger] entries[j]).measurement_id != Some(id),
    ensures
        ({
            let (after, event) = member.informed(
                feature,
                Payload::MeasurementListData(Some(entries)),
            );
            &&& after == MonitoredView { readings: after.readings, ..member }
            &&& after.readings.known == member.readings.known
            &&& lookup(after.readings.values, id) matches Some(reading) && says_what_is_stated(
                reading,
                entries[at],
                measurand,
            ) && (event matches Some(MonitoringEventView::Measured { unit, readings }) && unit
                == member.peer.unit() && readings.contains(reading))
            &&& (forall|k: int|
                0 <= k < after.readings.values.len() && (
                #[trigger] after.readings.values[k]).1.measurand == measurand
                    ==> after.readings.values[k].0 == id) ==> after.readings.reading(measurand)
                == lookup(after.readings.values, id)
        }),
{
    law_the_last_measurement_counts(member.readings, entries, at, id, measurand);
    let arrived = member.readings.applied(Payload::MeasurementListData(Some(entries))).1;
    let reading = lookup(
        member.informed(feature, Payload::MeasurementListData(Some(entries))).0.readings.values,
        id,
    )->0;
    assert(arrived.contains(reading));
    assert(arrived.len() > 0);
}

/// What belongs to whom: the unit that uses the feature, or else the one on whose entity it is;
/// where there is neither, nothing changes and nothing is reported.
pub proof fn law_data_belongs_to_its_unit(
    appliance: MonitoringView,
    feature: FeatureAddressView,
    data: Payload,
)
    ensures
        ({
            let (after, event) = appliance.informed(feature, data);
            &&& after.client == appliance.client
            &&& after.units.len() == appliance.units.len()
            &&& appliance.owner(feature) matches Some(index) ==> {
                &&& 0 <= index < appliance.units.len()
                &&& appliance.units[index].uses(feature) || appliance.units[index].hosts(feature)
                &&& after.units[index] == appliance.units[index].informed(feature, data).0
                &&& event == appliance.units[index].informed(feature, data).1
                &&& forall|i: int|
                    0 <= i < appliance.units.len() && i != index ==> (#[trigger] after.units[i])
                        == appliance.units[i]
            }
            &&& appliance.owner(feature) is None ==> after == appliance && event is None
            &&& forall|i: int|
                0 <= i < appliance.units.len() && ((#[trigger] appliance.units[i]).uses(feature)
                    || appliance.units[i].hosts(feature)) ==> appliance.owner(feature) is Some
            &&& forall|i: int|
                0 <= i < appliance.units.len() && (#[trigger] appliance.units[i]).uses(feature)
                    ==> (appliance.owner(feature) matches Some(index)
                    && appliance.units[index].uses(feature))
        }),
{
    lemma_first_index(appliance.units, |member: MonitoredView| member.uses(feature));
    lemma_first_index(appliance.units, |member: MonitoredView| member.hosts(feature));
    let uses = |member: MonitoredView| member.uses(feature);
    let hosts = |member: MonitoredView| member.hosts(feature);
    assert forall|i: int|
        0 <= i < appliance.units.len() && ((#[trigger] appliance.units[i]).uses(feature)
            || appliance.units[i].hosts(feature)) implies appliance.owner(feature) is Some by {
        assert(uses(appliance.units[i]) || hosts(appliance.units[i]));
    }
    assert forall|i: int|
        0 <= i < appliance.units.len() && (#[trigger] appliance.units[i]).uses(feature) implies (
    appliance.owner(feature) matches Some(index) && appliance.units[index].uses(feature)) by {
        assert(uses(appliance.units[i]));
    }
}

/// A unit uses the features it was found with, of its own device, and no others.
pub proof fn law_a_unit_uses_its_features(
    member: MonitoredView,
    feature: FeatureAddressView,
)
    ensures
        member.uses(feature) <==> feature.device == Some(member.peer.device) && (
        member.peer.electrical_connection == Some(feature) || member.peer.measurement == Some(
            feature,
        ) || member.peer.curtailment == Some(feature)),
        member.hosts(feature) <==> feature.device == Some(member.peer.device) && feature.path()
            == member.peer.unit().entity,
{
}

/// Replies and notifications are taken in alike, and nothing else is.
pub proof fn law_replies_and_notifications_are_taken_in(
    appliance: MonitoringView,
    event: SpineEvent,
)
    ensures
        event matches SpineEvent::ReplyReceived { feature, resolved } ==> appliance.stepped(event)
            == appliance.informed(feature@, resolved@),
        event matches SpineEvent::DataNotified { feature, resolved } ==> appliance.stepped(event)
            == appliance.informed(feature@, resolved@),
        !(event is ReplyReceived) && !(event is DataNotified) ==> appliance.stepped(event).0
            == appliance && appliance.stepped(event).1 is None,
{
}

/// What a measurement is described as is what it means: the quantity of the last description. Its
/// phases are those that a parameter stated before, or else those that the scope implies, where it
/// implies any, or else those that were known.
pub proof fn law_descriptions_say_what_is_measured(
    readings: ReadingsView,
    entry: MeasurementDescriptionData,
    id: MeasurementId,
    scope: ScopeType,
    quantity: Quantity,
)
    requires
        entry.measurement_id == Some(id),
        entry.scope_type == Some(scope),
        quantity_of_scope(scope) == Some(quantity),
    ensures
        ({
            let after = readings.described(
                Payload::MeasurementDescriptionListData(Some(seq![entry])),
            );
            let before = lookup(readings.known, id);
            &&& after.values == readings.values
            &&& lookup(after.known, id) matches Some(meaning) && meaning.quantity == quantity && (
            before matches Some(earlier) ==> (earlier.stated ==> meaning.stated && meaning.phases
                == earlier.phases)) && (before matches Some(earlier) ==> (!earlier.stated ==> (
            phases_of_scope(scope) is None ==> meaning.phases == earlier.phases) && (
            phases_of_scope(scope) is Some ==> meaning.phases == phases_of_scope(scope)))) && (
            before is None ==> meaning.phases == phases_of_scope(scope) && !meaning.stated)
        }),
{
    reveal_with_fuel(measurements_described, 2);
    let entries = seq![entry];
    assert(entries.drop_last() =~= Seq::empty());
    law_lookup_after_store(
        readings.known,
        id,
        described_meaning(lookup(readings.known, id), quantity, scope),
        id,
    );
}

/// A parameter states the quantity and the phases, whatever was known before.
pub proof fn law_parameters_state_the_phases(
    readings: ReadingsView,
    entry: ElectricalConnectionParameterDescriptionData,
    id: MeasurementId,
    scope: ScopeType,
    quantity: Quantity,
)
    requires
        entry.measurement_id == Some(id),
        entry.scope_type == Some(scope),
        quantity_of_scope(scope) == Some(quantity),
    ensures
        ({
            let after = readings.described(
                Payload::ElectricalConnectionParameterDescriptionListData(Some(seq![entry])),
            );
            &&& after.values == readings.values
            &&& meaning_of(after.known, id) == Some(
                Measurand { quantity, phases: entry.ac_measured_phases },
            )
            &&& lookup(after.known, id) matches Some(meaning) && meaning.stated
        }),
{
    reveal_with_fuel(parameters_described, 2);
    let entries = seq![entry];
    assert(entries.drop_last() =~= Seq::empty());
    law_lookup_after_store(
        readings.known,
        id,
        Known { quantity, phases: Some(entry.ac_measured_phases), stated: true },
        id,
    );
}

proof fn lemma_fully_known(known: Seq<(MeasurementId, Known)>)
    ensures
        fully_known(known).len() > 0 <==> exists|i: int|
            0 <= i < known.len() && (#[trigger] known[i]).1.phases is Some,
    decreases known.len(),
{
    if known.len() > 0 {
        let rest = known.drop_last();
        lemma_fully_known(rest);
        if known[known.len() - 1].1.phases is None && fully_known(rest).len() > 0 {
            let i = choose|i: int| 0 <= i < rest.len() && (#[trigger] rest[i]).1.phases is Some;
            assert(known[i].1.phases is Some);
        }
        if exists|i: int| 0 <= i < known.len() && (#[trigger] known[i]).1.phases is Some {
            let i = choose|i: int| 0 <= i < known.len() && (#[trigger] known[i]).1.phases is Some;
            if i < rest.len() {
                assert(rest[i].1.phases is Some);
            }
        }
    }
}

/// A unit is reported as described once, when the first of its measurements is fully known, and
/// its descriptions change nothing but what its measurements mean.
pub proof fn law_units_are_described_once(
    member: MonitoredView,
    feature: FeatureAddressView,
    data: Payload,
)
    requires
        member.peer.curtailment != Some(feature),
        data is MeasurementDescriptionListData
            || data is ElectricalConnectionParameterDescriptionListData,
    ensures
        ({
            let (after, event) = member.informed(feature, data);
            let known = member.readings.described(data).known;
            let complete = exists|i: int|
                0 <= i < known.len() && (#[trigger] known[i]).1.phases is Some;
            &&& after.readings.known == known
            &&& after.readings.values == member.readings.values
            &&& after.peer == member.peer && after.curtailment == member.curtailment
            &&& after.described <==> member.described || complete
            &&& event is Some <==> complete && !member.described
            &&& event matches Some(event) ==> event == (MonitoringEventView::UnitDescribed {
                unit: member.peer.unit(),
            })
        }),
{
    lemma_fully_known(member.readings.described(data).known);
}

proof fn lemma_numbers(
    known: Seq<(DeviceConfigurationKeyId, Number)>,
    entries: Seq<DeviceConfigurationKeyValueData>,
    at: int,
    key: DeviceConfigurationKeyId,
    thousandths: i64,
)
    requires
        0 <= at < entries.len(),
        entries[at].key_id == Some(key),
        entries[at].value matches Some(value) && value.scaled_number == Some(
            ScaledNumber::Value(thousandths),
        ),
        forall|j: int| at < j < entries.len() ==> (#[trigger] entries[j]).key_id != Some(key),
    ensures
        lookup(numbers_learned(known, entries), key) == Some(Number::Finite(thousandths)),
    decreases entries.len(),
{
    let rest = entries.drop_last();
    let before = numbers_learned(known, rest);
    if at == entries.len() - 1 {
        law_lookup_after_store(before, key, Number::Finite(thousandths), key);
    } else {
        assert forall|j: int| at < j < rest.len() implies (#[trigger] rest[j]).key_id != Some(
            key,
        ) by {
            assert(rest[j] == entries[j]);
        }
        lemma_numbers(known, rest, at, key, thousandths);
        let last = entries[entries.len() - 1];
        if let (Some(other), Some(number)) = (
            last.key_id,
            crate::usecases::mgcp::number_in(last),
        ) {
            law_lookup_after_store(before, other, number, key);
        }
    }
}

/// The share of the peak that may be fed in is the one that was last told, between nothing and the
/// whole, whatever it was before, and a change of it is reported, and only a change.
pub proof fn law_the_last_factor_counts(
    member: MonitoredView,
    feature: FeatureAddressView,
    entries: Seq<DeviceConfigurationKeyValueData>,
    at: int,
    key: DeviceConfigurationKeyId,
    thousandths: i64,
)
    requires
        member.peer.curtailment == Some(feature),
        member.curtailment.key == Some(key),
        0 <= at < entries.len(),
        entries[at].key_id == Some(key),
        entries[at].value matches Some(value) && value.scaled_number == Some(
            ScaledNumber::Value(thousandths),
        ),
        forall|j: int| at < j < entries.len() ==> (#[trigger] entries[j]).key_id != Some(key),
    ensures
        ({
            let (after, event) = member.informed(
                feature,
                Payload::DeviceConfigurationKeyValueListData(Some(entries)),
            );
            let told = Number::Finite(
                if thousandths < 0 {
                    0
                } else if thousandths > 100_000 {
                    100_000
                } else {
                    thousandths
                },
            );
            &&& after.curtailment.factor() == Some(told)
            &&& after.readings == member.readings && after.peer == member.peer
            &&& after.described == member.described
            &&& member.curtailment.factor() == Some(told) ==> event is None
            &&& member.curtailment.factor() != Some(told) ==> event == Some(
                MonitoringEventView::CurtailmentChanged {
                    unit: member.peer.unit(),
                    factor_percent: told,
                },
            )
        }),
{
    lemma_numbers(member.curtailment.numbers, entries, at, key, thousandths);
}

/// Attaching a unit forgets what was known of it before, keeps what is known of the others, and
/// detaching forgets it.
pub proof fn law_attaching_starts_afresh(
    appliance: MonitoringView,
    engine: EngineView,
    peer: UnitPeerView,
    now: Duration,
)
    ensures
        ({
            let after = appliance.attached(engine, peer, now).0;
            let last = after.units.last();
            &&& after.client == appliance.client
            &&& after.units.len() > 0
            &&& last.peer == peer && !last.described && last.readings.known.len() == 0
                && last.readings.values.len() == 0 && last.curtailment.key is None
                && last.curtailment.numbers.len() == 0
            &&& forall|i: int|
                0 <= i < after.units.len() - 1 ==> (#[trigger] after.units[i]).peer.unit()
                    != peer.unit() && appliance.units.contains(after.units[i])
            &&& forall|i: int|
                0 <= i < appliance.units.len() && (#[trigger] appliance.units[i]).peer.unit()
                    != peer.unit() ==> after.units.contains(appliance.units[i])
            &&& appliance.without(peer.unit()).units == after.units.drop_last()
        }),
{
    let others = |member: MonitoredView| member.peer.unit() != peer.unit();
    let kept = appliance.units.filter(others);
    let after = appliance.attached(engine, peer, now).0;
    lemma_filtered(appliance.units, others);
    assert(after.units.drop_last() =~= kept);
    assert forall|i: int| 0 <= i < after.units.len() - 1 implies (
    #[trigger] after.units[i]).peer.unit() != peer.unit() && appliance.units.contains(
        after.units[i],
    ) by {
        assert(after.units[i] == kept[i]);
        assert(others(kept[i]));
    }
    assert forall|i: int|
        0 <= i < appliance.units.len() && (#[trigger] appliance.units[i]).peer.unit()
            != peer.unit() implies after.units.contains(appliance.units[i]) by {
        assert(others(appliance.units[i]));
        broadcast use vstd::seq_lib::group_filter_ensures;

        assert(kept.contains(appliance.units[i]));
        let k = choose|k: int| 0 <= k < kept.len() && kept[k] == appliance.units[i];
        assert(after.units[k] == appliance.units[i]);
    }
}

/// Attaching a unit asks for all that it serves: how it is connected, what it measures, within
/// which bounds and what the values are, and the curtailment; and it subscribes to the values and
/// to the curtailment.
pub proof fn law_attaching_asks_for_all_that_is_served(
    appliance: MonitoringView,
    engine: EngineView,
    peer: UnitPeerView,
    now: Duration,
)
    ensures
        ({
            let sent = appliance.attached(engine, peer, now).1;
            let me = appliance.client;
            let n = engine.outbox.len() as int;
            let m = if peer.electrical_connection is Some {
                n + 2
            } else {
                n
            };
            let c = if peer.measurement is Some {
                m + 4
            } else {
                m
            };
            let end = if peer.curtailment is Some {
                c + 3
            } else {
                c
            };
            &&& sent.outbox.len() == end
            &&& forall|i: int| 0 <= i < n ==> (#[trigger] sent.outbox[i]) == engine.outbox[i]
            &&& peer.electrical_connection matches Some(feature) ==> asks(
                sent.outbox[n].1,
                me,
                feature,
                Function::ElectricalConnectionDescriptionListData,
            ) && asks(
                sent.outbox[n + 1].1,
                me,
                feature,
                Function::ElectricalConnectionParameterDescriptionListData,
            )
            &&& peer.measurement matches Some(feature) ==> asks(
                sent.outbox[m].1,
                me,
                feature,
                Function::MeasurementDescriptionListData,
            ) && asks(
                sent.outbox[m + 1].1,
                me,
                feature,
                Function::MeasurementConstraintsListData,
            ) && asks(sent.outbox[m + 2].1, me, feature, Function::MeasurementListData)
                && subscribes(sent.outbox[m + 3].1, me, feature)
            &&& peer.curtailment matches Some(feature) ==> asks(
                sent.outbox[c].1,
                me,
                feature,
                Function::DeviceConfigurationKeyValueDescriptionListData,
            ) && asks(
                sent.outbox[c + 1].1,
                me,
                feature,
                Function::DeviceConfigurationKeyValueListData,
            ) && subscribes(sent.outbox[c + 2].1, me, feature)
        }),
{
}

/// Whether a command reads a function of a feature.
pub open spec fn asks(
    command: CommandView,
    client: FeatureAddressView,
    feature: FeatureAddressView,
    wanted: Function,
) -> bool {
    command matches CommandView::Read { counter, to, from, function } && to == feature && from
        == client && function == wanted
}

/// Whether a command subscribes to a feature.
pub open spec fn subscribes(
    command: CommandView,
    from: FeatureAddressView,
    feature: FeatureAddressView,
) -> bool {
    command matches CommandView::Subscribe { counter, client, server } && client == from && server
        == feature
}

/// The readings that are held are those of the described measurements that have one.
pub proof fn law_held_readings_are_those_of_the_described(
    known: Seq<(MeasurementId, Known)>,
    values: Seq<(MeasurementId, Reading)>,
    reading: Reading,
)
    ensures
        held(known, values).contains(reading) <==> exists|i: int|
            0 <= i < known.len() && lookup(values, (#[trigger] known[i]).0) == Some(reading),
    decreases known.len(),
{
    if known.len() > 0 {
        let rest = known.drop_last();
        let last = known[known.len() - 1];
        law_held_readings_are_those_of_the_described(rest, values, reading);
        let before = held(rest, values);
        let after = held(known, values);
        if let Some(found) = lookup(values, last.0) {
            assert(after == before.push(found));
            assert(after[after.len() - 1] == found);
        }
        if before.contains(reading) {
            let k = choose|k: int| 0 <= k < before.len() && before[k] == reading;
            assert(after[k] == reading);
            let i = choose|i: int|
                0 <= i < rest.len() && lookup(values, (#[trigger] rest[i]).0) == Some(reading);
            assert(lookup(values, known[i].0) == Some(reading));
        } else {
            if after.contains(reading) {
                let k = choose|k: int| 0 <= k < after.len() && after[k] == reading;
                if k < before.len() {
                    assert(before[k] == reading);
                }
                assert(lookup(values, known[known.len() - 1].0) == Some(reading));
            }
            if exists|i: int|
                0 <= i < known.len() && lookup(values, (#[trigger] known[i]).0) == Some(reading) {
                let i = choose|i: int|
                    0 <= i < known.len() && lookup(values, (#[trigger] known[i]).0) == Some(reading);
                if i < rest.len() {
                    assert(lookup(values, rest[i].0) == Some(reading));
                }
            }
        }
    }
}

/// The measurements that are fully known are those whose phases are, each with what it measures.
pub proof fn law_fully_known_measurements_have_their_meaning(
    known: Seq<(MeasurementId, Known)>,
    id: MeasurementId,
    measurand: Measurand,
)
    ensures
        fully_known(known).contains((id, measurand)) <==> exists|i: int|
            0 <= i < known.len() && (#[trigger] known[i]).0 == id && known[i].1.quantity
                == measurand.quantity && known[i].1.phases == Some(measurand.phases),
    decreases known.len(),
{
    if known.len() > 0 {
        let rest = known.drop_last();
        let last = known[known.len() - 1];
        law_fully_known_measurements_have_their_meaning(rest, id, measurand);
        let before = fully_known(rest);
        let after = fully_known(known);
        let wanted = (id, measurand);
        if let Some(phases) = last.1.phases {
            let found = (last.0, Measurand { quantity: last.1.quantity, phases });
            assert(after == before.push(found));
            assert(after[after.len() - 1] == found);
        }
        if before.contains(wanted) {
            let k = choose|k: int| 0 <= k < before.len() && before[k] == wanted;
            assert(after[k] == wanted);
            let i = choose|i: int|
                0 <= i < rest.len() && (#[trigger] rest[i]).0 == id && rest[i].1.quantity
                    == measurand.quantity && rest[i].1.phases == Some(measurand.phases);
            assert(known[i].0 == id);
        } else {
            if after.contains(wanted) {
                let k = choose|k: int| 0 <= k < after.len() && after[k] == wanted;
                if k < before.len() {
                    assert(before[k] == wanted);
                }
                assert(known[known.len() - 1].0 == id);
            }
            if exists|i: int|
                0 <= i < known.len() && (#[trigger] known[i]).0 == id && known[i].1.quantity
                    == measurand.quantity && known[i].1.phases == Some(measurand.phases) {
                let i = choose|i: int|
                    0 <= i < known.len() && (#[trigger] known[i]).0 == id && known[i].1.quantity
                        == measurand.quantity && known[i].1.phases == Some(measurand.phases);
                if i < rest.len() {
                    assert(rest[i].0 == id);
                }
            }
        }
    }
}

/// A reading is found by what it measures: the one that is found measures it, and one is found
/// wherever one is held that does.
pub proof fn law_readings_are_found_by_what_they_measure(
    readings: ReadingsView,
    measurand: Measurand,
    index: int,
)
    ensures
        readings.reading(measurand) matches Some(reading) ==> reading.measurand == measurand
            && exists|i: int|
            0 <= i < readings.values.len() && (#[trigger] readings.values[i]).1 == reading,
        0 <= index < readings.values.len() && readings.values[index].1.measurand == measurand
            ==> readings.reading(measurand) is Some,
{
    lemma_first_index(readings.values, reading_of(measurand));
    if let Some(i) = crate::seqs::first_index(readings.values, reading_of(measurand)) {
        assert(reading_of(measurand)(readings.values[i]));
    } else if 0 <= index < readings.values.len() {
        assert(!reading_of(measurand)(readings.values[index]));
    }
}

/// A unit is found under its own key, wherever it is followed.
pub proof fn law_units_are_found_under_their_key(
    appliance: MonitoringView,
    unit: UnitIdView,
    index: int,
)
    ensures
        appliance.member(unit) matches Some(member) ==> member.peer.unit() == unit
            && appliance.units.contains(member),
        0 <= index < appliance.units.len() && appliance.units[index].peer.unit() == unit
            ==> appliance.member(unit) is Some,
{
    let wanted = |member: MonitoredView| member.peer.unit() == unit;
    lemma_first_index(appliance.units, wanted);
    if let Some(i) = crate::seqs::first_index(appliance.units, wanted) {
        assert(wanted(appliance.units[i]));
    } else if 0 <= index < appliance.units.len() {
        assert(!wanted(appliance.units[index]));
    }
}

} // verus!
