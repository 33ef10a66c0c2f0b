//! Monitoring of Room Temperature.
//!
//! The air temperature of an indoor space. It is read through the measurement layer.

use super::scenarios::{temperature_functions, temperature_uses};
use super::temperature::{
    self, all_located, constraints_payload, description_payload, peer_views, reported_payload,
};
use crate::model::{
    CmdData, EntityType, MeasurementId, MeasurementValueSource, MeasurementValueState,
    Role, UnitOfMeasurement,
};
use crate::number::Number;
use crate::spine::{LocalFeature, RemoteDevice};
use crate::usecases::descriptor::{
    first_release, scenario, scenario_views, ActorRole, DescriptorView, Scenario, Support,
    UseCaseDescriptor,
};
use crate::usecases::monitoring::appliance::MonitoredUnitPeer;
use crate::usecases::monitoring::measurand::{Measurand, Quantity};
use crate::usecases::monitoring::unit::measurement_feature_view;
use vstd::prelude::*;

verus! {

/// The version of the use case.
pub const VERSION: &'static str = "1.0.0";

/// The `useCaseName` that both actors announce.
pub const NAME: &'static str = "monitoringOfRoomTemperature";

/// The actor that measures.
pub const HVAC_ROOM_ACTOR: &'static str = "HVACRoom";

/// The actor that reads.
pub const MONITORING_APPLIANCE_ACTOR: &'static str = "MonitoringAppliance";

/// The identifier that this crate publishes the temperature under. A peer's is found by its
/// scope.
pub const MEASUREMENT_ID: u32 = 1;

/// What this use case measures.
pub open spec fn measurand_view() -> Measurand {
    Measurand { quantity: Quantity::RoomTemperature, phases: None }
}

/// What this use case measures.
pub fn measurand() -> (r: Measurand)
    ensures
        r == measurand_view(),
{
    Measurand::unphased(Quantity::RoomTemperature)
}

/// Builds the `Measurement` feature that the scenario is served from. It is read only, and alone.
pub fn measurement_feature(address: u32) -> (r: LocalFeature)
    ensures
        r@ == measurement_feature_view(address),
{
    temperature::measurement_feature(address)
}

/// The description of the temperature, in degrees Celsius.
pub fn temperature_description() -> (r: CmdData)
    ensures
        r@ == description_payload(
            measurand_view(),
            MeasurementId(MEASUREMENT_ID),
            UnitOfMeasurement::DegC,
        ),
{
    temperature_description_in(UnitOfMeasurement::DegC)
}

/// The description of the temperature, in the unit that the sensor works in.
pub fn temperature_description_in(unit: UnitOfMeasurement) -> (r: CmdData)
    ensures
        r@ == description_payload(measurand_view(), MeasurementId(MEASUREMENT_ID), unit),
{
    temperature::description(&measurand(), MeasurementId(MEASUREMENT_ID), unit)
}

/// The range and granularity that the sensor can report.
pub fn temperature_constraints(min: Number, max: Number, step: Option<Number>) -> (r: CmdData)
    ensures
        r@ == constraints_payload(MeasurementId(MEASUREMENT_ID), min, max, step),
{
    temperature::constraints(MeasurementId(MEASUREMENT_ID), min, max, step)
}

/// The temperature, measured.
pub fn temperature(degrees: Number) -> (r: CmdData)
    ensures
        r@ == reported_payload(
            MeasurementId(MEASUREMENT_ID),
            degrees,
            MeasurementValueSource::MeasuredValue,
            None,
            None,
        ),
{
    temperature_from(degrees, MeasurementValueSource::MeasuredValue, None)
}

/// The temperature, where it comes from, and whether it can be trusted: a state other than
/// normal says that it is to be ignored.
pub fn temperature_from(
    degrees: Number,
    source: MeasurementValueSource,
    state: Option<MeasurementValueState>,
) -> (r: CmdData)
    ensures
        r@ == reported_payload(
            MeasurementId(MEASUREMENT_ID),
            degrees,
            source,
            state,
            None,
        ),
{
    temperature::reported(
        MeasurementId(MEASUREMENT_ID),
        degrees,
        source,
        state,
        None,
    )
}

/// Finds a room from a device's discovery and use-case data.
pub fn locate(remote: &RemoteDevice) -> (r: Option<MonitoredUnitPeer>)
    ensures
        match r {
            Some(peer) => all_located(remote@, NAME@, HVAC_ROOM_ACTOR@).len() > 0 && peer@
                == all_located(remote@, NAME@, HVAC_ROOM_ACTOR@)[0],
            None => all_located(remote@, NAME@, HVAC_ROOM_ACTOR@).len() == 0,
        },
{
    temperature::locate(remote, NAME, HVAC_ROOM_ACTOR)
}

/// Finds every one on a device: one for each entity that announced it.
pub fn locate_all(remote: &RemoteDevice) -> (r: Vec<MonitoredUnitPeer>)
    ensures
        peer_views(r@) == all_located(remote@, NAME@, HVAC_ROOM_ACTOR@),
{
    temperature::locate_all(remote, NAME, HVAC_ROOM_ACTOR)
}

/// The name of the scenario.
pub const SCENARIO_NAME: &'static str = "Monitor HVAC room temperature";

/// The actor that measures, as a mathematical value.
pub open spec fn hvac_room_view() -> DescriptorView {
    first_release(
        NAME@,
        HVAC_ROOM_ACTOR@,
        ActorRole::Server,
        seq![EntityType::HVACRoom],
        MONITORING_APPLIANCE_ACTOR@,
        seq![
            scenario(1, SCENARIO_NAME@, Support::Mandatory, temperature_uses(Role::Server)),
        ],
    )
}

/// The actor that measures.
pub fn hvac_room() -> (r: UseCaseDescriptor)
    ensures
        r@ == hvac_room_view(),
{
    let entities = vec![EntityType::HVACRoom];
    assert(entities@ =~= hvac_room_view().entity_types);
    let scenarios = vec![
        Scenario::new(1, SCENARIO_NAME, Support::Mandatory, temperature_functions(Role::Server)),
    ];
    assert(scenario_views(scenarios@) =~= hvac_room_view().scenarios);
    UseCaseDescriptor::released(
        NAME,
        HVAC_ROOM_ACTOR,
        ActorRole::Server,
        entities,
        MONITORING_APPLIANCE_ACTOR,
        scenarios,
    )
}

/// The actor that reads, as a mathematical value.
pub open spec fn monitoring_appliance_view() -> DescriptorView {
    first_release(
        NAME@,
        MONITORING_APPLIANCE_ACTOR@,
        ActorRole::Client,
        Seq::empty(),
        HVAC_ROOM_ACTOR@,
        seq![
            scenario(1, SCENARIO_NAME@, Support::Mandatory, temperature_uses(Role::Client)),
        ],
    )
}

/// The actor that reads, behind any entity.
pub fn monitoring_appliance() -> (r: UseCaseDescriptor)
    ensures
        r@ == monitoring_appliance_view(),
{
    let entities: Vec<EntityType> = Vec::new();
    assert(entities@ =~= monitoring_appliance_view().entity_types);
    let scenarios = vec![
        Scenario::new(1, SCENARIO_NAME, Support::Mandatory, temperature_functions(Role::Client)),
    ];
    assert(scenario_views(scenarios@) =~= monitoring_appliance_view().scenarios);
    UseCaseDescriptor::released(
        NAME,
        MONITORING_APPLIANCE_ACTOR,
        ActorRole::Client,
        entities,
        HVAC_ROOM_ACTOR,
        scenarios,
    )
}

} // verus!
