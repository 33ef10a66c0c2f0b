//! What the two actors of the limitation use cases serve, publish and read.

use super::state::{ControllableSystem, CsView, LimitWrite};
use super::{Direction, FAILSAFE_DURATION_MINIMUM_KEY};
use crate::assoc::place_of;
use crate::model::{
    entries_of, read_number, readable, CmdData, DeviceConfigurationKeyId,
    DeviceConfigurationKeyName, DeviceConfigurationKeyValueData,
    DeviceConfigurationKeyValueDescriptionData, DeviceConfigurationKeyValueDescriptionListData,
    DeviceConfigurationKeyValueListData, DeviceConfigurationKeyValueType,
    DeviceConfigurationKeyValueValue, DeviceDiagnosisHeartbeatData,
    ElectricalConnectionCharacteristicContext, ElectricalConnectionCharacteristicData,
    ElectricalConnectionCharacteristicId, ElectricalConnectionCharacteristicListData,
    ElectricalConnectionCharacteristicType, ElectricalConnectionId,
    ElectricalConnectionParameterId, FeatureType, Function, HeartbeatEntry, LoadControlCategory,
    LoadControlLimitData, LoadControlLimitDescriptionData, LoadControlLimitDescriptionListData,
    LoadControlLimitId, LoadControlLimitListData, LoadControlLimitType, MeasurementId, Payload,
    Role, ScaledNumber, ScopeType, UnitOfMeasurement,
};
use crate::number::Number;
use crate::seqs::{first, lemma_first_index_is, lemma_no_first_index};
use crate::spine::{reading, writing, LocalFeature, LocalFeatureView, Operations};
use crate::time::Duration;
use vstd::prelude::*;

verus! {

/// The limit that a system publishes for itself.
pub const LIMIT_ID: u32 = 1;

/// The measurement that the limit refers to.
pub const MEASUREMENT_ID: u32 = 1;

/// The configuration key of a system's failsafe limit.
pub const FAILSAFE_LIMIT_KEY: u32 = 1;

/// The configuration key of a system's failsafe duration minimum.
pub const FAILSAFE_DURATION_KEY: u32 = 2;

/// The electrical connection that the constraints refer to.
pub const ELECTRICAL_CONNECTION_ID: u32 = 1;

/// The parameter that the constraints refer to.
pub const PARAMETER_ID: u32 = 1;

/// The characteristic that states the constraint.
pub const CHARACTERISTIC_ID: u32 = 1;

/// Builds the `LoadControl` feature that the limit is served from; each write is the
/// application's to decide.
pub fn load_control_feature(address: u32) -> (r: LocalFeature)
    ensures
        r@ == (LocalFeatureView {
            deferred_writes: true,
            ..LocalFeatureView::read_only(
                address,
                FeatureType::LoadControl,
                Role::Server,
                seq![
                    (Function::LoadControlLimitDescriptionListData, reading()),
                    (Function::LoadControlLimitListData, writing()),
                ],
            )
        }),
{
    let feature = LocalFeature::new(
        address,
        FeatureType::LoadControl,
        Role::Server,
    ).with_deferred_writes().with_function(
        Function::LoadControlLimitDescriptionListData,
        Operations::read(),
    ).with_function(Function::LoadControlLimitListData, Operations::read_write());
    proof {
        reveal_with_fuel(place_of, 3);
        assert(feature@.functions =~= seq![
            (Function::LoadControlLimitDescriptionListData, reading()),
            (Function::LoadControlLimitListData, writing()),
        ]);
    }
    feature
}

/// Builds the `DeviceConfiguration` feature that the failsafe values are served from; each write
/// is the application's to decide.
pub fn device_configuration_feature(address: u32) -> (r: LocalFeature)
    ensures
        r@ == (LocalFeatureView {
            deferred_writes: true,
            ..LocalFeatureView::read_only(
                address,
                FeatureType::DeviceConfiguration,
                Role::Server,
                seq![
                    (Function::DeviceConfigurationKeyValueDescriptionListData, reading()),
                    (Function::DeviceConfigurationKeyValueListData, writing()),
                ],
            )
        }),
{
    let feature = LocalFeature::new(
        address,
        FeatureType::DeviceConfiguration,
        Role::Server,
    ).with_deferred_writes().with_function(
        Function::DeviceConfigurationKeyValueDescriptionListData,
        Operations::read(),
    ).with_function(Function::DeviceConfigurationKeyValueListData, Operations::read_write());
    proof {
        reveal_with_fuel(place_of, 3);
        assert(feature@.functions =~= seq![
            (Function::DeviceConfigurationKeyValueDescriptionListData, reading()),
            (Function::DeviceConfigurationKeyValueListData, writing()),
        ]);
    }
    feature
}

/// Builds the `ElectricalConnection` feature that the constraints are served from.
pub fn electrical_connection_feature(address: u32) -> (r: LocalFeature)
    ensures
        r@ == LocalFeatureView::read_only(
            address,
            FeatureType::ElectricalConnection,
            Role::Server,
            seq![(Function::ElectricalConnectionCharacteristicListData, reading())],
        ),
{
    let feature = LocalFeature::new(
        address,
        FeatureType::ElectricalConnection,
        Role::Server,
    ).with_function(Function::ElectricalConnectionCharacteristicListData, Operations::read());
    assert(feature@.functions =~= seq![
        (Function::ElectricalConnectionCharacteristicListData, reading()),
    ]);
    feature
}

/// Builds the `DeviceDiagnosis` feature that carries the heartbeat.
pub fn device_diagnosis_feature(address: u32) -> (r: LocalFeature)
    ensures
        r@ == LocalFeatureView::read_only(
            address,
            FeatureType::DeviceDiagnosis,
            Role::Server,
            seq![(Function::DeviceDiagnosisHeartbeatData, reading())],
        ),
{
    let feature = LocalFeature::new(
        address,
        FeatureType::DeviceDiagnosis,
        Role::Server,
    ).with_function(Function::DeviceDiagnosisHeartbeatData, Operations::read());
    assert(feature@.functions =~= seq![(Function::DeviceDiagnosisHeartbeatData, reading())]);
    feature
}

/// Builds the client feature from which a system subscribes to the Energy Guard's heartbeat.
pub fn device_diagnosis_client_feature(address: u32) -> (r: LocalFeature)
    ensures
        r@ == LocalFeatureView::read_only(
            address,
            FeatureType::DeviceDiagnosis,
            Role::Client,
            Seq::empty(),
        ),
{
    LocalFeature::new(address, FeatureType::DeviceDiagnosis, Role::Client)
}

/// The description of the limit.
pub open spec fn limit_description_payload(direction: Direction) -> Payload {
    Payload::LoadControlLimitDescriptionListData(
        Some(
            seq![
                LoadControlLimitDescriptionData {
                    limit_id: Some(LoadControlLimitId(LIMIT_ID)),
                    limit_type: Some(LoadControlLimitType::SignDependentAbsValueLimit),
                    limit_category: Some(LoadControlCategory::Obligation),
                    limit_direction: Some(direction.flow()),
                    measurement_id: Some(MeasurementId(MEASUREMENT_ID)),
                    unit: Some(UnitOfMeasurement::W),
                    scope_type: Some(ScopeType::ActivePowerLimit),
                },
            ],
        ),
    )
}

/// The description of the limit.
pub fn limit_description(direction: Direction) -> (r: CmdData)
    ensures
        r@ == limit_description_payload(direction),
{
    let entries = vec![
        LoadControlLimitDescriptionData {
            limit_id: Some(LoadControlLimitId(LIMIT_ID)),
            limit_type: Some(LoadControlLimitType::SignDependentAbsValueLimit),
            limit_category: Some(LoadControlCategory::Obligation),
            limit_direction: Some(direction.energy_direction()),
            measurement_id: Some(MeasurementId(MEASUREMENT_ID)),
            unit: Some(UnitOfMeasurement::W),
            scope_type: Some(ScopeType::ActivePowerLimit),
        },
    ];
    assert(limit_description_payload(direction)->LoadControlLimitDescriptionListData_0 == Some(
        entries@,
    )) by {
        assert(limit_description_payload(
            direction,
        )->LoadControlLimitDescriptionListData_0->Some_0 =~= entries@);
    }
    CmdData::LoadControlLimitDescriptionListData(
        LoadControlLimitDescriptionListData { load_control_limit_description_data: Some(entries) },
    )
}

/// The limit as it stands: what the system is limited to, and whether by the Energy Guard.
pub open spec fn limit_data_payload(system: CsView) -> Payload {
    Payload::LoadControlLimitListData(
        Some(
            seq![
                LoadControlLimitData {
                    limit_id: Some(LoadControlLimitId(LIMIT_ID)),
                    is_limit_changeable: Some(true),
                    is_limit_active: Some(system.limit_active()),
                    time_period: None,
                    value: Some(
                        ScaledNumber::encoded(
                            match system.effective().amount() {
                                Some(watts) => watts,
                                None => Number::Finite(0),
                            },
                            0,
                        ),
                    ),
                },
            ],
        ),
    )
}

/// The limit as it stands: what the system is limited to, and whether by the Energy Guard.
pub fn limit_data(system: &ControllableSystem) -> (r: CmdData)
    ensures
        r@ == limit_data_payload(system@),
{
    let watts = match system.effective_limit().watts() {
        Some(watts) => watts,
        None => Number::Finite(0),
    };
    let entries = vec![
        LoadControlLimitData {
            limit_id: Some(LoadControlLimitId(LIMIT_ID)),
            is_limit_changeable: Some(true),
            is_limit_active: Some(system.is_limit_active()),
            time_period: None,
            value: Some(ScaledNumber::from_number(watts, 0)),
        },
    ];
    assert(limit_data_payload(system@)->LoadControlLimitListData_0->Some_0 =~= entries@);
    CmdData::LoadControlLimitListData(
        LoadControlLimitListData { load_control_limit_data: Some(entries) },
    )
}

/// The most a system can or may draw or feed in.
#[derive(Clone, Copy, Debug, PartialEq, Eq, Structural)]
pub enum NominalMax {
    /// What a device can do.
    Device(Number),
    /// What a premises may do.
    Contractual(Number),
}

impl NominalMax {
    /// The value.
    pub open spec fn amount(self) -> Number {
        match self {
            NominalMax::Device(watts) => watts,
            NominalMax::Contractual(watts) => watts,
        }
    }

    /// The characteristic that states it.
    pub open spec fn kind(self, direction: Direction) -> ElectricalConnectionCharacteristicType {
        match self {
            NominalMax::Device(_) => direction.nominal_max(),
            NominalMax::Contractual(_) => direction.contractual_max(),
        }
    }

    /// The value in watts.
    pub fn watts(self) -> (r: Number)
        ensures
            r == self.amount(),
    {
        match self {
            NominalMax::Device(watts) => watts,
            NominalMax::Contractual(watts) => watts,
        }
    }

    /// The characteristic that states it.
    pub fn characteristic(self, direction: Direction) -> (r:
        ElectricalConnectionCharacteristicType)
        ensures
            r == self.kind(direction),
    {
        match self {
            NominalMax::Device(_) => direction.nominal_max_characteristic(),
            NominalMax::Contractual(_) => direction.contractual_max_characteristic(),
        }
    }
}

/// The maximum that a system states: its contract on an energy manager, its nominal power on a
/// device.
pub open spec fn stated_max(system: CsView) -> Option<NominalMax> {
    if system.config.on_cem {
        match system.config.contractual_max_watts {
            Some(watts) => Some(NominalMax::Contractual(watts)),
            None => None,
        }
    } else {
        match system.config.nominal_max_watts {
            Some(watts) => Some(NominalMax::Device(watts)),
            None => None,
        }
    }
}

/// The maximum that a system states: its contract on an energy manager, its nominal power on a
/// device.
pub fn nominal_max(system: &ControllableSystem) -> (r: Option<NominalMax>)
    ensures
        r == stated_max(system@),
{
    let config = system.config();
    if config.on_cem {
        match config.contractual_max_watts {
            Some(watts) => Some(NominalMax::Contractual(watts)),
            None => None,
        }
    } else {
        match config.nominal_max_watts {
            Some(watts) => Some(NominalMax::Device(watts)),
            None => None,
        }
    }
}

/// The constraint that a system publishes; an empty list where it states no maximum.
pub open spec fn constraints_payload(system: CsView, direction: Direction) -> Payload {
    Payload::ElectricalConnectionCharacteristicListData(
        Some(
            match stated_max(system) {
                Some(max) => seq![
                    ElectricalConnectionCharacteristicData {
                        electrical_connection_id: Some(
                            ElectricalConnectionId(ELECTRICAL_CONNECTION_ID),
                        ),
                        parameter_id: Some(ElectricalConnectionParameterId(PARAMETER_ID)),
                        characteristic_id: Some(
                            ElectricalConnectionCharacteristicId(CHARACTERISTIC_ID),
                        ),
                        characteristic_context: Some(
                            ElectricalConnectionCharacteristicContext::Entity,
                        ),
                        characteristic_type: Some(max.kind(direction)),
                        value: Some(ScaledNumber::encoded(max.amount(), 0)),
                        unit: Some(UnitOfMeasurement::W),
                    },
                ],
                None => Seq::empty(),
            },
        ),
    )
}

/// The constraint that a system publishes; an empty list where it states no maximum.
pub fn constraints(system: &ControllableSystem, direction: Direction) -> (r: CmdData)
    ensures
        r@ == constraints_payload(system@, direction),
{
    let mut entries: Vec<ElectricalConnectionCharacteristicData> = Vec::new();
    if let Some(max) = nominal_max(system) {
        entries.push(
            ElectricalConnectionCharacteristicData {
                electrical_connection_id: Some(ElectricalConnectionId(ELECTRICAL_CONNECTION_ID)),
                parameter_id: Some(ElectricalConnectionParameterId(PARAMETER_ID)),
                characteristic_id: Some(ElectricalConnectionCharacteristicId(CHARACTERISTIC_ID)),
                characteristic_context: Some(ElectricalConnectionCharacteristicContext::Entity),
                characteristic_type: Some(max.characteristic(direction)),
                value: Some(ScaledNumber::from_number(max.watts(), 0)),
                unit: Some(UnitOfMeasurement::W),
            },
        );
    }
    assert(constraints_payload(
        system@,
        direction,
    )->ElectricalConnectionCharacteristicListData_0->Some_0 =~= entries@);
    CmdData::ElectricalConnectionCharacteristicListData(
        ElectricalConnectionCharacteristicListData {
            electrical_connection_characteristic_data: Some(entries),
        },
    )
}

/// The maximum that one entry states, if it states one of this direction.
pub open spec fn max_of_entry(
    entry: ElectricalConnectionCharacteristicData,
    direction: Direction,
) -> Option<NominalMax> {
    match readable(entry.value) {
        Some(watts) => if entry.characteristic_type == Some(direction.nominal_max()) {
            Some(NominalMax::Device(watts))
        } else if entry.characteristic_type == Some(direction.contractual_max()) {
            Some(NominalMax::Contractual(watts))
        } else {
            None
        },
        None => None,
    }
}

/// The first maximum that a payload states for this direction.
pub open spec fn read_max(data: Payload, direction: Direction) -> Option<NominalMax> {
    match data {
        Payload::ElectricalConnectionCharacteristicListData(list) => match first(
            entries_of(list),
            |entry: ElectricalConnectionCharacteristicData|
                max_of_entry(entry, direction) is Some,
        ) {
            Some(entry) => max_of_entry(entry, direction),
            None => None,
        },
        _ => None,
    }
}

/// The maximum that one entry states, if it states one of this direction.
fn read_entry(entry: &ElectricalConnectionCharacteristicData, direction: Direction) -> (r: Option<
    NominalMax,
>)
    ensures
        r == max_of_entry(*entry, direction),
{
    match (read_number(entry.value), entry.characteristic_type) {
        (Some(watts), Some(kind)) => {
            if kind == direction.nominal_max_characteristic() {
                Some(NominalMax::Device(watts))
            } else if kind == direction.contractual_max_characteristic() {
                Some(NominalMax::Contractual(watts))
            } else {
                None
            }
        },
        _ => None,
    }
}

/// Reads the first maximum that a payload states for this direction.
#[verifier::loop_isolation(false)]
pub fn read_constraints(data: &CmdData, direction: Direction) -> (r: Option<NominalMax>)
    ensures
        r == read_max(data@, direction),
{
    let list = match data {
        CmdData::ElectricalConnectionCharacteristicListData(list) => list,
        _ => return None,
    };
    let ghost wanted = |entry: ElectricalConnectionCharacteristicData|
        max_of_entry(entry, direction) is Some;
    match &list.electrical_connection_characteristic_data {
        Some(entries) => {
            let mut i: usize = 0;
            while i < entries.len()
                invariant
                    i <= entries@.len(),
                    wanted == (|entry: ElectricalConnectionCharacteristicData|
                        max_of_entry(entry, direction) is Some),
                    forall|j: int| 0 <= j < i ==> !wanted(#[trigger] entries@[j]),
                decreases entries@.len() - i,
            {
                let read = read_entry(&entries[i], direction);
                if read.is_some() {
                    proof {
                        lemma_first_index_is(entries@, wanted, i as int);
                    }
                    return read;
                }
                i = i + 1;
            }
            proof {
                lemma_no_first_index(entries@, wanted);
            }
            None
        },
        None => {
            proof {
                lemma_no_first_index(
                    Seq::<ElectricalConnectionCharacteristicData>::empty(),
                    wanted,
                );
            }
            None
        },
    }
}

/// The descriptions of the two failsafe keys.
pub open spec fn failsafe_descriptions_payload(direction: Direction) -> Payload {
    Payload::DeviceConfigurationKeyValueDescriptionListData(
        Some(
            seq![
                DeviceConfigurationKeyValueDescriptionData {
                    key_id: Some(DeviceConfigurationKeyId(FAILSAFE_LIMIT_KEY)),
                    key_name: Some(direction.failsafe_key()),
                    value_type: Some(DeviceConfigurationKeyValueType::ScaledNumber),
                    unit: Some(UnitOfMeasurement::W),
                },
                DeviceConfigurationKeyValueDescriptionData {
                    key_id: Some(DeviceConfigurationKeyId(FAILSAFE_DURATION_KEY)),
                    key_name: Some(DeviceConfigurationKeyName::FailsafeDurationMinimum),
                    value_type: Some(DeviceConfigurationKeyValueType::Duration),
                    unit: None,
                },
            ],
        ),
    )
}

/// The descriptions of the two failsafe keys.
pub fn failsafe_descriptions(direction: Direction) -> (r: CmdData)
    ensures
        r@ == failsafe_descriptions_payload(direction),
{
    let entries = vec![
        DeviceConfigurationKeyValueDescriptionData {
            key_id: Some(DeviceConfigurationKeyId(FAILSAFE_LIMIT_KEY)),
            key_name: Some(direction.failsafe_limit_key()),
            value_type: Some(DeviceConfigurationKeyValueType::ScaledNumber),
            unit: Some(UnitOfMeasurement::W),
        },
        DeviceConfigurationKeyValueDescriptionData {
            key_id: Some(DeviceConfigurationKeyId(FAILSAFE_DURATION_KEY)),
            key_name: Some(FAILSAFE_DURATION_MINIMUM_KEY),
            value_type: Some(DeviceConfigurationKeyValueType::Duration),
            unit: None,
        },
    ];
    assert(failsafe_descriptions_payload(
        direction,
    )->DeviceConfigurationKeyValueDescriptionListData_0->Some_0 =~= entries@);
    CmdData::DeviceConfigurationKeyValueDescriptionListData(
        DeviceConfigurationKeyValueDescriptionListData {
            device_configuration_key_value_description_data: Some(entries),
        },
    )
}

/// The two failsafe values.
pub open spec fn failsafe_values_payload(system: CsView) -> Payload {
    Payload::DeviceConfigurationKeyValueListData(
        Some(
            seq![
                DeviceConfigurationKeyValueData {
                    key_id: Some(DeviceConfigurationKeyId(FAILSAFE_LIMIT_KEY)),
                    value: Some(
                        DeviceConfigurationKeyValueValue {
                            scaled_number: Some(
                                ScaledNumber::encoded(system.config.failsafe_watts, 0),
                            ),
                            duration: None,
                        },
                    ),
                    is_value_changeable: Some(true),
                },
                DeviceConfigurationKeyValueData {
                    key_id: Some(DeviceConfigurationKeyId(FAILSAFE_DURATION_KEY)),
                    value: Some(
                        DeviceConfigurationKeyValueValue {
                            scaled_number: None,
                            duration: Some(system.config.failsafe_duration),
                        },
                    ),
                    is_value_changeable: Some(true),
                },
            ],
        ),
    )
}

/// The two failsafe values.
pub fn failsafe_values(system: &ControllableSystem) -> (r: CmdData)
    ensures
        r@ == failsafe_values_payload(system@),
{
    let entries = vec![
        DeviceConfigurationKeyValueData {
            key_id: Some(DeviceConfigurationKeyId(FAILSAFE_LIMIT_KEY)),
            value: Some(
                DeviceConfigurationKeyValueValue {
                    scaled_number: Some(
                        ScaledNumber::from_number(system.config().failsafe_watts, 0),
                    ),
                    duration: None,
                },
            ),
            is_value_changeable: Some(true),
        },
        DeviceConfigurationKeyValueData {
            key_id: Some(DeviceConfigurationKeyId(FAILSAFE_DURATION_KEY)),
            value: Some(
                DeviceConfigurationKeyValueValue {
                    scaled_number: None,
                    duration: Some(system.config().failsafe_duration),
                },
            ),
            is_value_changeable: Some(true),
        },
    ];
    assert(failsafe_values_payload(system@)->DeviceConfigurationKeyValueListData_0->Some_0
        =~= entries@);
    CmdData::DeviceConfigurationKeyValueListData(
        DeviceConfigurationKeyValueListData { device_configuration_key_value_data: Some(entries) },
    )
}

/// A heartbeat message.
pub fn heartbeat(counter: u64, timeout: Duration, timestamp: &str) -> (r: CmdData)
    ensures
        r@ == Payload::DeviceDiagnosisHeartbeatData(
            (HeartbeatEntry {
                timestamp: Some(timestamp@),
                heartbeat_counter: Some(counter),
                heartbeat_timeout: Some(timeout),
            }),
        ),
{
    CmdData::DeviceDiagnosisHeartbeatData(
        DeviceDiagnosisHeartbeatData {
            timestamp: Some(String::from_str(timestamp)),
            heartbeat_counter: Some(counter),
            heartbeat_timeout: Some(timeout),
        },
    )
}

/// The write that one entry asks for; none where its value cannot be read. A value that is left
/// out is zero, and an end that is not relative to now is no duration.
pub open spec fn write_of_entry(entry: LoadControlLimitData) -> Option<LimitWrite> {
    let watts = match entry.value {
        Some(value) => value.decoded(),
        None => Some(Number::Finite(0)),
    };
    match watts {
        Some(watts) => Some(
            LimitWrite {
                is_active: entry.is_limit_active == Some(true),
                watts,
                duration: match entry.time_period {
                    Some(period) => match period.end_time {
                        Some(end) => end.span(),
                        None => None,
                    },
                    None => None,
                },
            },
        ),
        None => None,
    }
}

/// The write that a payload asks of this limit.
pub open spec fn limit_write_of(data: Payload, limit_id: LoadControlLimitId) -> Option<
    LimitWrite,
> {
    match data {
        Payload::LoadControlLimitListData(list) => match first(
            entries_of(list),
            |entry: LoadControlLimitData| entry.limit_id == Some(limit_id),
        ) {
            Some(entry) => write_of_entry(entry),
            None => None,
        },
        _ => None,
    }
}

/// Whether a payload addresses this limit, whatever it asks of it.
pub open spec fn names_limit(data: Payload, limit_id: LoadControlLimitId) -> bool {
    match data {
        Payload::LoadControlLimitListData(list) => exists|i: int|
            0 <= i < entries_of(list).len() && (#[trigger] entries_of(list)[i]).limit_id == Some(
                limit_id,
            ),
        _ => false,
    }
}

/// Whether a payload addresses this limit, whatever it asks of it.
pub fn addresses_limit(data: &CmdData, limit_id: LoadControlLimitId) -> (r: bool)
    ensures
        r == names_limit(data@, limit_id),
{
    let list = match data {
        CmdData::LoadControlLimitListData(list) => list,
        _ => return false,
    };
    match &list.load_control_limit_data {
        Some(entries) => {
            let mut i: usize = 0;
            while i < entries.len()
                invariant
                    i <= entries@.len(),
                    data@ == Payload::LoadControlLimitListData(Some(entries@)),
                    forall|j: int|
                        0 <= j < i ==> (#[trigger] entries@[j]).limit_id != Some(limit_id),
                decreases entries@.len() - i,
            {
                let found = match entries[i].limit_id {
                    Some(id) => id == limit_id,
                    None => false,
                };
                if found {
                    assert(entries_of(Some(entries@))[i as int].limit_id == Some(limit_id));
                    return true;
                }
                i = i + 1;
            }
            false
        },
        None => false,
    }
}

/// The write that one entry asks for.
fn read_limit_entry(entry: &LoadControlLimitData) -> (r: Option<LimitWrite>)
    ensures
        r == write_of_entry(*entry),
{
    let watts = match entry.value {
        Some(value) => match value.to_number() {
            Some(watts) => watts,
            None => return None,
        },
        None => Number::Finite(0),
    };
    let is_active = match entry.is_limit_active {
        Some(active) => active,
        None => false,
    };
    let duration = match entry.time_period {
        Some(period) => match period.end_time {
            Some(end) => end.as_duration(),
            None => None,
        },
        None => None,
    };
    Some(LimitWrite { is_active, watts, duration })
}

/// Reads a payload as a write on this limit.
///
/// Give this the resolved state rather than a partial update: an element that is left out of an
/// update is unchanged, not zero.
#[verifier::loop_isolation(false)]
pub fn read_limit_write(data: &CmdData, limit_id: LoadControlLimitId) -> (r: Option<LimitWrite>)
    ensures
        r == limit_write_of(data@, limit_id),
{
    let list = match data {
        CmdData::LoadControlLimitListData(list) => list,
        _ => return None,
    };
    let ghost wanted = |entry: LoadControlLimitData| entry.limit_id == Some(limit_id);
    match &list.load_control_limit_data {
        Some(entries) => {
            let mut i: usize = 0;
            while i < entries.len()
                invariant
                    i <= entries@.len(),
                    wanted == (|entry: LoadControlLimitData| entry.limit_id == Some(limit_id)),
                    forall|j: int| 0 <= j < i ==> !wanted(#[trigger] entries@[j]),
                decreases entries@.len() - i,
            {
                let found = match entries[i].limit_id {
                    Some(id) => id == limit_id,
                    None => false,
                };
                if found {
                    proof {
                        lemma_first_index_is(entries@, wanted, i as int);
                    }
                    return read_limit_entry(&entries[i]);
                }
                i = i + 1;
            }
            proof {
                lemma_no_first_index(entries@, wanted);
            }
            None
        },
        None => {
            proof {
                lemma_no_first_index(Seq::<LoadControlLimitData>::empty(), wanted);
            }
            None
        },
    }
}

/// The counter of a heartbeat; one that leaves it out counts as the first.
pub open spec fn heartbeat_of(data: Payload) -> Option<u64> {
    match data {
        Payload::DeviceDiagnosisHeartbeatData(entry) => match entry.heartbeat_counter {
            Some(counter) => Some(counter),
            None => Some(0u64),
        },
        _ => None,
    }
}

/// Reads a heartbeat's counter; one that leaves it out counts as the first.
pub fn read_heartbeat(data: &CmdData) -> (r: Option<u64>)
    ensures
        r == heartbeat_of(data@),
{
    match data {
        CmdData::DeviceDiagnosisHeartbeatData(heartbeat) => match heartbeat.heartbeat_counter {
            Some(counter) => Some(counter),
            None => Some(0),
        },
        _ => None,
    }
}

/// The identifiers that a peer chose for its limit and its two failsafe keys.
#[derive(Clone, Copy, Debug, PartialEq, Eq, Structural)]
pub struct PeerIds {
    /// The limit.
    pub limit: Option<LoadControlLimitId>,
    /// The key of the failsafe limit.
    pub failsafe_limit: Option<DeviceConfigurationKeyId>,
    /// The key of the failsafe duration minimum.
    pub failsafe_duration: Option<DeviceConfigurationKeyId>,
}

/// The active power limit of this direction among the descriptions.
pub open spec fn limit_among(
    entries: Seq<LoadControlLimitDescriptionData>,
    direction: Direction,
) -> Option<LoadControlLimitId> {
    match first(
        entries,
        |entry: LoadControlLimitDescriptionData|
            entry.limit_id is Some && entry.limit_direction == Some(direction.flow())
                && entry.scope_type == Some(ScopeType::ActivePowerLimit),
    ) {
        Some(entry) => entry.limit_id,
        None => None,
    }
}

/// The key of this name among the descriptions.
pub open spec fn key_among(
    entries: Seq<DeviceConfigurationKeyValueDescriptionData>,
    name: DeviceConfigurationKeyName,
) -> Option<DeviceConfigurationKeyId> {
    match first(
        entries,
        |entry: DeviceConfigurationKeyValueDescriptionData|
            entry.key_id is Some && entry.key_name == Some(name),
    ) {
        Some(entry) => entry.key_id,
        None => None,
    }
}

/// The newer of two optional values.
pub open spec fn newer<T>(found: Option<T>, known: Option<T>) -> Option<T> {
    if found is Some {
        found
    } else {
        known
    }
}

impl PeerIds {
    /// With what a description says.
    pub open spec fn learned(self, data: Payload, direction: Direction) -> PeerIds {
        match data {
            Payload::LoadControlLimitDescriptionListData(list) => PeerIds {
                limit: newer(limit_among(entries_of(list), direction), self.limit),
                ..self
            },
            Payload::DeviceConfigurationKeyValueDescriptionListData(list) => PeerIds {
                failsafe_limit: newer(
                    key_among(entries_of(list), direction.failsafe_key()),
                    self.failsafe_limit,
                ),
                failsafe_duration: newer(
                    key_among(
                        entries_of(list),
                        DeviceConfigurationKeyName::FailsafeDurationMinimum,
                    ),
                    self.failsafe_duration,
                ),
                ..self
            },
            _ => self,
        }
    }

    /// Whether a payload names one of the identifiers.
    pub open spec fn tells(data: Payload, direction: Direction) -> bool {
        match data {
            Payload::LoadControlLimitDescriptionListData(list) => limit_among(
                entries_of(list),
                direction,
            ) is Some,
            Payload::DeviceConfigurationKeyValueDescriptionListData(list) => {
                ||| key_among(entries_of(list), direction.failsafe_key()) is Some
                ||| key_among(
                    entries_of(list),
                    DeviceConfigurationKeyName::FailsafeDurationMinimum,
                ) is Some
            },
            _ => false,
        }
    }

    /// Nothing learned yet.
    pub fn new() -> (r: PeerIds)
        ensures
            r == (PeerIds { limit: None, failsafe_limit: None, failsafe_duration: None }),
    {
        PeerIds { limit: None, failsafe_limit: None, failsafe_duration: None }
    }

    /// Whether the limit can be addressed.
    pub fn can_write_limit(&self) -> (r: bool)
        ensures
            r == (self.limit is Some),
    {
        self.limit.is_some()
    }

    /// Learns what a description says, and tells whether it named one of the identifiers.
    pub fn learn(&mut self, data: &CmdData, direction: Direction) -> (r: bool)
        ensures
            *final(self) == old(self).learned(data@, direction),
            r == PeerIds::tells(data@, direction),
    {
        match data {
            CmdData::LoadControlLimitDescriptionListData(list) => {
                let found = find_limit(&list.load_control_limit_description_data, direction);
                if found.is_some() {
                    self.limit = found;
                }
                found.is_some()
            },
            CmdData::DeviceConfigurationKeyValueDescriptionListData(list) => {
                let entries = &list.device_configuration_key_value_description_data;
                let limit = find_key(entries, direction.failsafe_limit_key());
                let duration = find_key(entries, FAILSAFE_DURATION_MINIMUM_KEY);
                if limit.is_some() {
                    self.failsafe_limit = limit;
                }
                if duration.is_some() {
                    self.failsafe_duration = duration;
                }
                limit.is_some() || duration.is_some()
            },
            _ => false,
        }
    }
}

/// The active power limit of this direction among the descriptions.
#[verifier::loop_isolation(false)]
fn find_limit(list: &Option<Vec<LoadControlLimitDescriptionData>>, direction: Direction) -> (r:
    Option<LoadControlLimitId>)
    ensures
        r == limit_among(entries_of(crate::model::listed(*list)), direction),
{
    let ghost wanted = |entry: LoadControlLimitDescriptionData|
        entry.limit_id is Some && entry.limit_direction == Some(direction.flow())
            && entry.scope_type == Some(ScopeType::ActivePowerLimit);
    match list {
        Some(entries) => {
            let mut i: usize = 0;
            while i < entries.len()
                invariant
                    i <= entries@.len(),
                    wanted == (|entry: LoadControlLimitDescriptionData|
                        entry.limit_id is Some && entry.limit_direction == Some(direction.flow())
                            && entry.scope_type == Some(ScopeType::ActivePowerLimit)),
                    forall|j: int| 0 <= j < i ==> !wanted(#[trigger] entries@[j]),
                decreases entries@.len() - i,
            {
                let entry = &entries[i];
                let found = match (entry.limit_direction, entry.scope_type) {
                    (Some(flow), Some(scope)) => entry.limit_id.is_some() && flow
                        == direction.energy_direction() && scope == ScopeType::ActivePowerLimit,
                    _ => false,
                };
                if found {
                    proof {
                        lemma_first_index_is(entries@, wanted, i as int);
                    }
                    return entry.limit_id;
                }
                i = i + 1;
            }
            proof {
                lemma_no_first_index(entries@, wanted);
            }
            None
        },
        None => {
            proof {
                lemma_no_first_index(Seq::<LoadControlLimitDescriptionData>::empty(), wanted);
            }
            None
        },
    }
}

/// The key of this name among the descriptions.
#[verifier::loop_isolation(false)]
fn find_key(
    list: &Option<Vec<DeviceConfigurationKeyValueDescriptionData>>,
    name: DeviceConfigurationKeyName,
) -> (r: Option<DeviceConfigurationKeyId>)
    ensures
        r == key_among(entries_of(crate::model::listed(*list)), name),
{
    let ghost wanted = |entry: DeviceConfigurationKeyValueDescriptionData|
        entry.key_id is Some && entry.key_name == Some(name);
    match list {
        Some(entries) => {
            let mut i: usize = 0;
            while i < entries.len()
                invariant
                    i <= entries@.len(),
                    wanted == (|entry: DeviceConfigurationKeyValueDescriptionData|
                        entry.key_id is Some && entry.key_name == Some(name)),
                    forall|j: int| 0 <= j < i ==> !wanted(#[trigger] entries@[j]),
                decreases entries@.len() - i,
            {
                let entry = &entries[i];
                let found = match entry.key_name {
                    Some(key_name) => entry.key_id.is_some() && key_name == name,
                    None => false,
                };
                if found {
                    proof {
                        lemma_first_index_is(entries@, wanted, i as int);
                    }
                    return entry.key_id;
                }
                i = i + 1;
            }
            proof {
                lemma_no_first_index(entries@, wanted);
            }
            None
        },
        None => {
            proof {
                lemma_no_first_index(
                    Seq::<DeviceConfigurationKeyValueDescriptionData>::empty(),
                    wanted,
                );
            }
            None
        },
    }
}

/// A guard that reads what a system publishes finds the system's own identifiers, and the
/// constraint that the system states, to the watt.
pub proof fn law_guard_reads_what_a_system_publishes(system: CsView, direction: Direction)
    ensures
        ({
            let none = PeerIds { limit: None, failsafe_limit: None, failsafe_duration: None };
            none.learned(limit_description_payload(direction), direction).learned(
                failsafe_descriptions_payload(direction),
                direction,
            ) == PeerIds {
                limit: Some(LoadControlLimitId(LIMIT_ID)),
                failsafe_limit: Some(DeviceConfigurationKeyId(FAILSAFE_LIMIT_KEY)),
                failsafe_duration: Some(DeviceConfigurationKeyId(FAILSAFE_DURATION_KEY)),
            }
        }),
        read_max(constraints_payload(system, direction), direction) == match stated_max(system) {
            Some(NominalMax::Device(watts)) => match ScaledNumber::encoded(watts, 0).decoded() {
                Some(read) => Some(NominalMax::Device(read)),
                None => None,
            },
            Some(NominalMax::Contractual(watts)) => match ScaledNumber::encoded(
                watts,
                0,
            ).decoded() {
                Some(read) => Some(NominalMax::Contractual(read)),
                None => None,
            },
            None => None,
        },
{
    reveal_with_fuel(crate::seqs::first_index, 4);
    let limits = entries_of(
        limit_description_payload(direction)->LoadControlLimitDescriptionListData_0,
    );
    let keys = entries_of(
        failsafe_descriptions_payload(
            direction,
        )->DeviceConfigurationKeyValueDescriptionListData_0,
    );
    lemma_first_index_is(
        limits,
        |entry: LoadControlLimitDescriptionData|
            entry.limit_id is Some && entry.limit_direction == Some(direction.flow())
                && entry.scope_type == Some(ScopeType::ActivePowerLimit),
        0,
    );
    lemma_first_index_is(
        keys,
        |entry: DeviceConfigurationKeyValueDescriptionData|
            entry.key_id is Some && entry.key_name == Some(direction.failsafe_key()),
        0,
    );
    lemma_first_index_is(
        keys,
        |entry: DeviceConfigurationKeyValueDescriptionData|
            entry.key_id is Some && entry.key_name == Some(
                DeviceConfigurationKeyName::FailsafeDurationMinimum,
            ),
        1,
    );
}

} // verus!
