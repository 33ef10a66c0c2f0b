//! Monitoring of Room Cooling System Function.
//!
//! Which operation mode the cooling of a room is in.

use super::peer::{
    self, all_located, first_located, hvac_peer_of, hvac_peer_views, HvacPeer, Subject,
};
use super::scenarios::{mode_functions, mode_uses};
use super::system_function::{
    self, description_payload, hvac_feature_view, mode_descriptions_payload, mode_relations_payload,
    own_mode_id, payload_of, state_payload,
    SystemFunction, SystemFunctionView,
};
use super::COOLING;
use crate::model::{
    CmdData, EntityType, Function, HvacOperationModeId, HvacOperationModeType,
    HvacSystemFunctionId, HvacSystemFunctionType, Role,
};
use crate::spine::{reading, LocalFeature, RemoteDevice};
use crate::usecases::descriptor::{
    first_release, scenario, scenario_views, ActorRole, DescriptorView, Scenario, Support,
    UseCaseDescriptor,
};
use vstd::prelude::*;

verus! {

/// The version of the use case.
pub const VERSION: &'static str = "1.0.0";

/// The `useCaseName` that both actors announce.
pub const NAME: &'static str = "monitoringOfRoomCoolingSystemFunction";

/// The actor that is followed.
pub const HVAC_ROOM_ACTOR: &'static str = "HVACRoom";

/// The actor that follows it.
pub const MONITORING_APPLIANCE_ACTOR: &'static str = "MonitoringAppliance";

/// The identifier that this crate publishes the system function under. A peer's is found by its
/// type.
pub const SYSTEM_FUNCTION_ID: u32 = 3;

/// The identifiers that this crate gives the four modes.
pub fn operation_mode_id(kind: &HvacOperationModeType) -> (r: Option<HvacOperationModeId>)
    ensures
        r == own_mode_id(*kind),
{
    system_function::operation_mode_id(kind)
}

/// Builds the `HVAC` feature that the scenarios are served from.
pub fn hvac_feature(address: u32) -> (r: LocalFeature)
    ensures
        r@ == hvac_feature_view(address, false),
{
    system_function::hvac_feature(address, false)
}

/// The same feature, also carrying the setpoint relations: an entity has one `HVAC` feature.
pub fn with_setpoints(address: u32) -> (r: LocalFeature)
    ensures
        r@ == hvac_feature_view(address, false).with(
            Function::HvacSystemFunctionSetpointRelationListData,
            reading(),
        ),
{
    system_function::with_setpoint_relations(hvac_feature(address))
}

/// What this use case is about.
pub open spec fn subject_view() -> Subject {
    Subject {
        function: HvacSystemFunctionType::Cooling,
        overrun: None,
        scope: None,
    }
}

/// What this use case is about.
pub fn subject() -> (r: Subject)
    ensures
        r == subject_view(),
{
    Subject::mode(COOLING)
}

/// The description of the system function.
pub fn system_function_description() -> (r: CmdData)
    ensures
        r@ == description_payload(
            HvacSystemFunctionId(SYSTEM_FUNCTION_ID),
            HvacSystemFunctionType::Cooling,
        ),
{
    system_function::description(HvacSystemFunctionId(SYSTEM_FUNCTION_ID), COOLING)
}

/// The operation modes that are supported: none for fewer than two, with which no change of mode
/// could be reported.
pub fn operation_mode_descriptions(modes: &[HvacOperationModeType]) -> (r: Option<CmdData>)
    ensures
        payload_of(r) == mode_descriptions_payload(modes@),
{
    system_function::operation_mode_descriptions(modes)
}

/// Which modes belong to the system function.
pub fn operation_mode_relations(modes: &[HvacOperationModeType]) -> (r: Option<CmdData>)
    ensures
        payload_of(r) == mode_relations_payload(HvacSystemFunctionId(SYSTEM_FUNCTION_ID), modes@),
{
    system_function::operation_mode_relations(HvacSystemFunctionId(SYSTEM_FUNCTION_ID), modes)
}

/// The mode that the system function is in.
pub fn system_function_state(
    current: HvacOperationModeId,
    overrun_active: bool,
    changeable: Option<bool>,
) -> (r: CmdData)
    ensures
        r@ == state_payload(
            HvacSystemFunctionId(SYSTEM_FUNCTION_ID),
            current,
            overrun_active,
            changeable,
        ),
{
    system_function::state(
        HvacSystemFunctionId(SYSTEM_FUNCTION_ID),
        current,
        overrun_active,
        changeable,
    )
}

/// A reader that follows the system function.
pub fn reader() -> (r: SystemFunction)
    ensures
        r@ == SystemFunctionView::following(subject_view().function, subject_view().overrun),
{
    SystemFunction::cooling()
}

/// Finds a room from a device's discovery and use-case data: the features are those on the entity
/// that announced this use case.
pub fn locate(remote: &RemoteDevice) -> (r: Option<HvacPeer>)
    ensures
        hvac_peer_of(r) == first_located(remote@, hvac_room_view(), subject_view()),
{
    peer::locate(remote, &hvac_room(), &subject())
}

/// Finds every one on a device that serves it: one for each entity that announced it.
pub fn locate_all(remote: &RemoteDevice) -> (r: Vec<HvacPeer>)
    ensures
        hvac_peer_views(r@) == all_located(remote@, hvac_room_view(), subject_view()),
{
    peer::locate_all(remote, &hvac_room(), &subject())
}

/// The name of scenario 1.
pub const SCENARIO_NAME: &'static str = "Monitor room cooling operation mode";

/// The actor that is followed, as a mathematical value.
pub open spec fn hvac_room_view() -> DescriptorView {
    first_release(
        NAME@,
        HVAC_ROOM_ACTOR@,
        ActorRole::Server,
        seq![EntityType::HVACRoom],
        MONITORING_APPLIANCE_ACTOR@,
        seq![
            scenario(1, SCENARIO_NAME@, Support::Mandatory, mode_uses(Role::Server, false)),
        ],
    )
}

/// The actor that is followed.
pub fn hvac_room() -> (r: UseCaseDescriptor)
    ensures
        r@ == hvac_room_view(),
{
    let entities = vec![EntityType::HVACRoom];
    assert(entities@ =~= hvac_room_view().entity_types);
    let scenarios = vec![
        Scenario::new(1, SCENARIO_NAME, Support::Mandatory, mode_functions(Role::Server, false)),
    ];
    assert(scenario_views(scenarios@) =~= hvac_room_view().scenarios);
    UseCaseDescriptor::released(
        NAME,
        HVAC_ROOM_ACTOR,
        ActorRole::Server,
        entities,
        MONITORING_APPLIANCE_ACTOR,
        scenarios,
    )
}

/// The actor that follows it, as a mathematical value.
pub open spec fn monitoring_appliance_view() -> DescriptorView {
    first_release(
        NAME@,
        MONITORING_APPLIANCE_ACTOR@,
        ActorRole::Client,
        Seq::empty(),
        HVAC_ROOM_ACTOR@,
        seq![
            scenario(1, SCENARIO_NAME@, Support::Mandatory, mode_uses(Role::Client, false)),
        ],
    )
}

/// The actor that follows it, behind any entity.
pub fn monitoring_appliance() -> (r: UseCaseDescriptor)
    ensures
        r@ == monitoring_appliance_view(),
{
    let entities: Vec<EntityType> = Vec::new();
    assert(entities@ =~= monitoring_appliance_view().entity_types);
    let scenarios = vec![
        Scenario::new(1, SCENARIO_NAME, Support::Mandatory, mode_functions(Role::Client, false)),
    ];
    assert(scenario_views(scenarios@) =~= monitoring_appliance_view().scenarios);
    UseCaseDescriptor::released(
        NAME,
        MONITORING_APPLIANCE_ACTOR,
        ActorRole::Client,
        entities,
        HVAC_ROOM_ACTOR,
        scenarios,
    )
}

} // verus!
