//! What the payloads of the limitation use cases say, entry by entry.

use super::payloads::{
    heartbeat_of, limit_write_of, names_limit, read_max, stated_max, NominalMax, PeerIds,
};
use super::state::CsView;
use super::Direction;
use crate::model::{
    AbsoluteOrRelativeTime, DeviceConfigurationKeyId, DeviceConfigurationKeyName,
    DeviceConfigurationKeyValueDescriptionData, ElectricalConnectionCharacteristicData,
    ElectricalConnectionCharacteristicType, EnergyDirection, LoadControlLimitData,
    LoadControlLimitDescriptionData, LoadControlLimitId, Payload, ScaledNumber, ScopeType,
};
use crate::number::Number;
use crate::seqs::{lemma_first_index_is, lemma_no_first_index};
use vstd::prelude::*;

verus! {

/// A limit is read from the first entry that names it: in force only where the entry says so, with
/// its value, or zero where it gives none, and with its end where that is relative. A value that
/// cannot be read makes the whole unreadable.
pub proof fn law_limits_are_read_as_written(
    entries: Seq<LoadControlLimitData>,
    id: LoadControlLimitId,
    at: int,
)
    requires
        0 <= at < entries.len(),
        entries[at].limit_id == Some(id),
        forall|i: int| 0 <= i < at ==> (#[trigger] entries[i]).limit_id != Some(id),
    ensures
        ({
            let entry = entries[at];
            let read = limit_write_of(Payload::LoadControlLimitListData(Some(entries)), id);
            &&& entry.value == Some(ScaledNumber::Overflow) <==> read is None
            &&& read matches Some(write) ==> {
                &&& write.is_active <==> entry.is_limit_active == Some(true)
                &&& entry.value is None ==> write.watts == Number::Finite(0)
                &&& entry.value matches Some(ScaledNumber::Value(watts)) ==> write.watts
                    == Number::Finite(watts)
                &&& entry.time_period is None ==> write.duration is None
                &&& entry.time_period matches Some(period) ==> (period.end_time is None
                    ==> write.duration is None) && (period.end_time matches Some(
                    AbsoluteOrRelativeTime::Relative(span),
                ) ==> write.duration == Some(span)) && (period.end_time matches Some(
                    AbsoluteOrRelativeTime::Absolute(_),
                ) ==> write.duration is None)
            }
            &&& names_limit(Payload::LoadControlLimitListData(Some(entries)), id)
        }),
{
    lemma_first_index_is(
        entries,
        |entry: LoadControlLimitData| entry.limit_id == Some(id),
        at,
    );
    assert(crate::model::entries_of(Some(entries))[at].limit_id == Some(id));
}

/// A payload that names another limit, or is about something else, says nothing of a limit.
pub proof fn law_other_limits_are_not_read(
    entries: Seq<LoadControlLimitData>,
    data: Payload,
    id: LoadControlLimitId,
)
    requires
        forall|i: int| 0 <= i < entries.len() ==> (#[trigger] entries[i]).limit_id != Some(id),
        !(data is LoadControlLimitListData),
    ensures
        limit_write_of(Payload::LoadControlLimitListData(Some(entries)), id) is None,
        !names_limit(Payload::LoadControlLimitListData(Some(entries)), id),
        limit_write_of(data, id) is None,
        !names_limit(data, id),
{
    lemma_no_first_index(entries, |entry: LoadControlLimitData| entry.limit_id == Some(id));
}

/// Whether an entry describes a limit of active power in a direction.
pub open spec fn describes_limit(
    entry: LoadControlLimitDescriptionData,
    direction: Direction,
) -> bool {
    &&& entry.limit_id is Some
    &&& entry.scope_type == Some(ScopeType::ActivePowerLimit)
    &&& entry.limit_direction == Some(
        if direction is Consumption {
            EnergyDirection::Consume
        } else {
            EnergyDirection::Produce
        },
    )
}

/// The limit of a peer is the first that is described for the direction as a limit of active
/// power; the number it had stays where none is described.
pub proof fn law_the_limit_is_found_by_direction(
    ids: PeerIds,
    entries: Seq<LoadControlLimitDescriptionData>,
    direction: Direction,
    at: int,
)
    ensures
        ({
            let data = Payload::LoadControlLimitDescriptionListData(Some(entries));
            let after = ids.learned(data, direction);
            &&& after.failsafe_limit == ids.failsafe_limit && after.failsafe_duration
                == ids.failsafe_duration
            &&& 0 <= at < entries.len() && describes_limit(entries[at], direction) && (forall|
                i: int,
            |
                0 <= i < at ==> !describes_limit(#[trigger] entries[i], direction)) ==> after.limit
                == entries[at].limit_id && PeerIds::tells(data, direction)
            &&& (forall|i: int|
                0 <= i < entries.len() ==> !describes_limit(#[trigger] entries[i], direction))
                ==> after.limit == ids.limit && !PeerIds::tells(data, direction)
        }),
{
    let wanted = |entry: LoadControlLimitDescriptionData|
        entry.limit_id is Some && entry.limit_direction == Some(direction.flow())
            && entry.scope_type == Some(ScopeType::ActivePowerLimit);
    if 0 <= at < entries.len() && describes_limit(entries[at], direction) && (forall|i: int|
        0 <= i < at ==> !describes_limit(#[trigger] entries[i], direction)) {
        lemma_first_index_is(entries, wanted, at);
    }
    if forall|i: int|
        0 <= i < entries.len() ==> !describes_limit(#[trigger] entries[i], direction) {
        lemma_no_first_index(entries, wanted);
    }
}

/// The failsafe values of a peer are found by the names of their keys, the limit by the one of the
/// direction; the keys that were known stay where none is named so.
pub proof fn law_failsafe_keys_are_found_by_name(
    ids: PeerIds,
    entries: Seq<DeviceConfigurationKeyValueDescriptionData>,
    direction: Direction,
    at: int,
    key: DeviceConfigurationKeyId,
)
    requires
        0 <= at < entries.len(),
        entries[at].key_id == Some(key),
    ensures
        ({
            let after = ids.learned(
                Payload::DeviceConfigurationKeyValueDescriptionListData(Some(entries)),
                direction,
            );
            let limit = if direction is Consumption {
                DeviceConfigurationKeyName::FailsafeConsumptionActivePowerLimit
            } else {
                DeviceConfigurationKeyName::FailsafeProductionActivePowerLimit
            };
            let duration = DeviceConfigurationKeyName::FailsafeDurationMinimum;
            &&& after.limit == ids.limit
            &&& entries[at].key_name == Some(limit) && unnamed(entries.take(at), limit)
                ==> after.failsafe_limit == Some(key)
            &&& entries[at].key_name == Some(duration) && unnamed(entries.take(at), duration)
                ==> after.failsafe_duration == Some(key)
            &&& unnamed(entries, limit) ==> after.failsafe_limit == ids.failsafe_limit
            &&& unnamed(entries, duration) ==> after.failsafe_duration == ids.failsafe_duration
        }),
{
    let limit = direction.failsafe_key();
    let duration = DeviceConfigurationKeyName::FailsafeDurationMinimum;
    lemma_key_found(entries, limit, at);
    lemma_key_found(entries, duration, at);
}

/// Whether no entry names a key so.
pub open spec fn unnamed(
    entries: Seq<DeviceConfigurationKeyValueDescriptionData>,
    name: DeviceConfigurationKeyName,
) -> bool {
    forall|i: int|
        0 <= i < entries.len() ==> (#[trigger] entries[i]).key_id is None || entries[i].key_name
            != Some(name)
}

proof fn lemma_key_found(
    entries: Seq<DeviceConfigurationKeyValueDescriptionData>,
    name: DeviceConfigurationKeyName,
    at: int,
)
    requires
        0 <= at < entries.len(),
    ensures
        entries[at].key_id is Some && entries[at].key_name == Some(name) && unnamed(
            entries.take(at),
            name,
        ) ==> super::payloads::key_among(entries, name) == entries[at].key_id,
        unnamed(entries, name) ==> super::payloads::key_among(entries, name) is None,
{
    let wanted = |entry: DeviceConfigurationKeyValueDescriptionData|
        entry.key_id is Some && entry.key_name == Some(name);
    if entries[at].key_id is Some && entries[at].key_name == Some(name) && unnamed(
        entries.take(at),
        name,
    ) {
        assert forall|i: int| 0 <= i < at implies !wanted(#[trigger] entries[i]) by {
            assert(entries.take(at)[i] == entries[i]);
        }
        lemma_first_index_is(entries, wanted, at);
    }
    if unnamed(entries, name) {
        lemma_no_first_index(entries, wanted);
    }
}

/// What a peer can take at most is the first readable value that is stated for the direction, as
/// its own or as the contract's, whichever it is stated as.
pub proof fn law_the_maximum_is_found_by_its_kind(
    entries: Seq<ElectricalConnectionCharacteristicData>,
    direction: Direction,
    at: int,
    watts: i64,
)
    requires
        0 <= at < entries.len(),
        entries[at].value == Some(ScaledNumber::Value(watts)),
        forall|i: int|
            0 <= i < at ==> (#[trigger] entries[i]).characteristic_type != Some(
                own_maximum(direction),
            ) && entries[i].characteristic_type != Some(contract_maximum(direction)),
    ensures
        ({
            let read = read_max(
                Payload::ElectricalConnectionCharacteristicListData(Some(entries)),
                direction,
            );
            &&& entries[at].characteristic_type == Some(own_maximum(direction)) ==> read == Some(
                NominalMax::Device(Number::Finite(watts)),
            )
            &&& entries[at].characteristic_type == Some(contract_maximum(direction)) ==> read
                == Some(NominalMax::Contractual(Number::Finite(watts)))
        }),
{
    let wanted = |entry: ElectricalConnectionCharacteristicData|
        super::payloads::max_of_entry(entry, direction) is Some;
    if wanted(entries[at]) {
        lemma_first_index_is(entries, wanted, at);
    }
}

/// The characteristic that states what a device can do at most in a direction.
pub open spec fn own_maximum(direction: Direction) -> ElectricalConnectionCharacteristicType {
    if direction is Consumption {
        ElectricalConnectionCharacteristicType::PowerConsumptionNominalMax
    } else {
        ElectricalConnectionCharacteristicType::PowerProductionNominalMax
    }
}

/// The characteristic that states what a premises may do at most in a direction.
pub open spec fn contract_maximum(direction: Direction) -> ElectricalConnectionCharacteristicType {
    if direction is Consumption {
        ElectricalConnectionCharacteristicType::ContractualConsumptionNominalMax
    } else {
        ElectricalConnectionCharacteristicType::ContractualProductionNominalMax
    }
}

/// A manager of the premises states what the contract allows, a device what it can do itself.
pub proof fn law_the_maximum_is_stated_by_who_it_concerns(system: CsView)
    ensures
        system.config.on_cem ==> match system.config.contractual_max_watts {
            Some(watts) => stated_max(system) == Some(NominalMax::Contractual(watts)),
            None => stated_max(system) is None,
        },
        !system.config.on_cem ==> match system.config.nominal_max_watts {
            Some(watts) => stated_max(system) == Some(NominalMax::Device(watts)),
            None => stated_max(system) is None,
        },
{
}

/// A heartbeat is told by its kind alone: one without a counter is one too.
pub proof fn law_heartbeats_are_told_by_their_kind(data: Payload)
    ensures
        heartbeat_of(data) is Some <==> data is DeviceDiagnosisHeartbeatData,
        data matches Payload::DeviceDiagnosisHeartbeatData(entry) ==> (
        entry.heartbeat_counter matches Some(counter) ==> heartbeat_of(data) == Some(counter)),
{
}

/// The two directions share no name, no key and no characteristic.
pub proof fn law_directions_are_told_apart(a: Direction, b: Direction)
    requires
        a != b,
    ensures
        a.flow() != b.flow(),
        a.failsafe_key() != b.failsafe_key(),
        a.nominal_max() != b.nominal_max() && a.contractual_max() != b.contractual_max(),
        a.nominal_max() != b.contractual_max() && a.nominal_max() != a.contractual_max(),
{
}

} // verus!
