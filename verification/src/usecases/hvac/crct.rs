//! Configuration of Room Cooling Temperature.
//!
//! Sets the cooling temperature of a room. Heating and cooling share a scope, and only the
//! relations tell their setpoints apart.

use super::peer::{
    self, all_located, first_located, hvac_peer_of, hvac_peer_views, HvacPeer, Subject,
};
use super::scenarios::{setpoint_functions, setpoint_uses};
use super::setpoint::{
    self, constraints_payload, description_payload, permitted, relation_feature_view,
    relations_payload, setpoint_feature_view, valid_count, value_payload, written_value,
    ModeRelation, Setpoints, SetpointsView,
};
use super::system_function::payload_of;
use super::COOLING;
use crate::model::{
    CmdData, EntityType, HvacOperationModeType, HvacSystemFunctionId, HvacSystemFunctionType,
    MeasurementId, Role, ScopeType, SetpointId, UnitOfMeasurement,
};
use crate::number::Number;
use crate::spine::{LocalFeature, RemoteDevice};
use crate::usecases::descriptor::{
    first_release, scenario, scenario_views, ActorRole, DescriptorView, Scenario, Support,
    UseCaseDescriptor,
};
use core::ops::RangeInclusive;
use vstd::prelude::*;

verus! {

/// The version of the use case.
pub const VERSION: &'static str = "1.0.0";

/// The `useCaseName` that both actors announce.
pub const NAME: &'static str = "configurationOfRoomCoolingTemperature";

/// The actor whose temperature is set.
pub const HVAC_ROOM_ACTOR: &'static str = "HVACRoom";

/// The actor that sets it.
pub const CONFIGURATION_APPLIANCE_ACTOR: &'static str = "ConfigurationAppliance";

/// The scope that marks a setpoint as this temperature.
pub const TEMPERATURE_SCOPE: ScopeType = ScopeType::RoomAirTemperature;

/// The system function that this crate relates its setpoints to.
pub const SYSTEM_FUNCTION_ID: u32 = 3;

/// The identifier that this crate publishes the setpoint under. A peer's is found by its scope
/// and its relations.
pub const SETPOINT_ID: u32 = 2;

/// The units that the temperature may be published in.
pub fn units() -> (r: [UnitOfMeasurement; 3])
    ensures
        r@ == seq![UnitOfMeasurement::DegC, UnitOfMeasurement::DegF, UnitOfMeasurement::K],
{
    setpoint::units()
}

/// How few and how many setpoints an operation mode may use.
pub fn permitted_setpoints(mode: &HvacOperationModeType) -> (r: RangeInclusive<usize>)
    ensures
        (r@.start, r@.end) == permitted(*mode),
        !r@.exhausted,
{
    setpoint::permitted_setpoints(mode)
}

/// Whether a relation between an operation mode and its setpoints is well formed.
pub fn relation_is_valid(mode: &HvacOperationModeType, setpoints: &[SetpointId]) -> (r: bool)
    ensures
        r == valid_count(*mode, setpoints@.len()),
{
    setpoint::relation_is_valid(mode, setpoints)
}

/// Builds the `Setpoint` feature that the scenario is served from. No binding is needed.
pub fn setpoint_feature(address: u32) -> (r: LocalFeature)
    ensures
        r@ == setpoint_feature_view(address),
{
    setpoint::setpoint_feature(address)
}

/// Builds the `HVAC` feature that says which setpoint belongs to which operation mode.
pub fn hvac_feature(address: u32) -> (r: LocalFeature)
    ensures
        r@ == relation_feature_view(address),
{
    setpoint::hvac_feature(address)
}

/// The description of the setpoint, without a link to a measurement.
pub fn setpoint_description(unit: UnitOfMeasurement) -> (r: CmdData)
    ensures
        r@ == description_payload(SetpointId(SETPOINT_ID), TEMPERATURE_SCOPE, unit, None),
{
    setpoint::description(SetpointId(SETPOINT_ID), TEMPERATURE_SCOPE, unit, None)
}

/// The description of the setpoint, with the measurement that reports the same temperature.
pub fn setpoint_description_measuring(unit: UnitOfMeasurement, measurement: MeasurementId) -> (r:
    CmdData)
    ensures
        r@ == description_payload(
            SetpointId(SETPOINT_ID),
            TEMPERATURE_SCOPE,
            unit,
            Some(measurement),
        ),
{
    setpoint::description(SetpointId(SETPOINT_ID), TEMPERATURE_SCOPE, unit, Some(measurement))
}

/// What is accepted.
pub fn setpoint_constraints(min: Number, max: Number, step: Option<Number>) -> (r: CmdData)
    ensures
        r@ == constraints_payload(SetpointId(SETPOINT_ID), min, max, step),
{
    setpoint::constraints(SetpointId(SETPOINT_ID), min, max, step)
}

/// The value of the setpoint, in the unit that the description named.
pub fn setpoint_value(degrees: Number) -> (r: CmdData)
    ensures
        r@ == value_payload(SetpointId(SETPOINT_ID), degrees),
{
    setpoint::value(SetpointId(SETPOINT_ID), degrees)
}

/// Which setpoints each operation mode uses. Nothing is published where one uses more or fewer
/// than it may.
pub fn system_function_relations(relations: &[ModeRelation]) -> (r: Option<CmdData>)
    ensures
        payload_of(r) == relations_payload(
            HvacSystemFunctionId(SYSTEM_FUNCTION_ID),
            relations@,
        ),
{
    setpoint::relations(HvacSystemFunctionId(SYSTEM_FUNCTION_ID), relations)
}

/// Reads a payload as a temperature of this setpoint. Give this the resolved state.
pub fn read_setpoint_write(data: &CmdData, id: SetpointId) -> (r: Option<Number>)
    ensures
        r == written_value(data@, id),
{
    setpoint::read_write(data, id)
}

/// A reader that collects the setpoints of the scope.
pub fn reader() -> (r: Setpoints)
    ensures
        r@ == SetpointsView::collecting(TEMPERATURE_SCOPE),
{
    Setpoints::room_air()
}

/// What this use case is about.
pub open spec fn subject_view() -> Subject {
    Subject {
        function: HvacSystemFunctionType::Cooling,
        overrun: None,
        scope: Some(TEMPERATURE_SCOPE),
    }
}

/// What this use case is about.
pub fn subject() -> (r: Subject)
    ensures
        r == subject_view(),
{
    Subject::temperature(COOLING, TEMPERATURE_SCOPE)
}

/// The name of the scenario.
pub const SCENARIO_NAME: &'static str = "Set room cooling temperature setpoint";

/// Finds a room from a device's discovery and use-case data: the features are those on the entity
/// that announced this use case.
pub fn locate(remote: &RemoteDevice) -> (r: Option<HvacPeer>)
    ensures
        hvac_peer_of(r) == first_located(remote@, hvac_room_view(), subject_view()),
{
    peer::locate(remote, &hvac_room(), &subject())
}

/// Finds every one on a device that serves it: one for each entity that announced it.
pub fn locate_all(remote: &RemoteDevice) -> (r: Vec<HvacPeer>)
    ensures
        hvac_peer_views(r@) == all_located(remote@, hvac_room_view(), subject_view()),
{
    peer::locate_all(remote, &hvac_room(), &subject())
}

/// The actor whose temperature is set, as a mathematical value.
pub open spec fn hvac_room_view() -> DescriptorView {
    first_release(
        NAME@,
        HVAC_ROOM_ACTOR@,
        ActorRole::Server,
        seq![EntityType::HVACRoom],
        CONFIGURATION_APPLIANCE_ACTOR@,
        seq![
            scenario(1, SCENARIO_NAME@, Support::Mandatory, setpoint_uses(Role::Server)),
        ],
    )
}

/// The actor whose temperature is set.
pub fn hvac_room() -> (r: UseCaseDescriptor)
    ensures
        r@ == hvac_room_view(),
{
    let entities = vec![EntityType::HVACRoom];
    assert(entities@ =~= hvac_room_view().entity_types);
    let scenarios = vec![
        Scenario::new(1, SCENARIO_NAME, Support::Mandatory, setpoint_functions(Role::Server)),
    ];
    assert(scenario_views(scenarios@) =~= hvac_room_view().scenarios);
    UseCaseDescriptor::released(
        NAME,
        HVAC_ROOM_ACTOR,
        ActorRole::Server,
        entities,
        CONFIGURATION_APPLIANCE_ACTOR,
        scenarios,
    )
}

/// The actor that sets it, as a mathematical value.
pub open spec fn configuration_appliance_view() -> DescriptorView {
    first_release(
        NAME@,
        CONFIGURATION_APPLIANCE_ACTOR@,
        ActorRole::Client,
        Seq::empty(),
        HVAC_ROOM_ACTOR@,
        seq![
            scenario(1, SCENARIO_NAME@, Support::Mandatory, setpoint_uses(Role::Client)),
        ],
    )
}

/// The actor that sets it, behind any entity.
pub fn configuration_appliance() -> (r: UseCaseDescriptor)
    ensures
        r@ == configuration_appliance_view(),
{
    let entities: Vec<EntityType> = Vec::new();
    assert(entities@ =~= configuration_appliance_view().entity_types);
    let scenarios = vec![
        Scenario::new(1, SCENARIO_NAME, Support::Mandatory, setpoint_functions(Role::Client)),
    ];
    assert(scenario_views(scenarios@) =~= configuration_appliance_view().scenarios);
    UseCaseDescriptor::released(
        NAME,
        CONFIGURATION_APPLIANCE_ACTOR,
        ActorRole::Client,
        entities,
        HVAC_ROOM_ACTOR,
        scenarios,
    )
}

} // verus!
