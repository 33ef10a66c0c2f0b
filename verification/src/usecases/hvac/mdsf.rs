//! Monitoring of DHW System Function.
//!
//! Which operation mode a hot water circuit is in, and whether a one-time heating is running.

use super::peer::{
    self, all_located, first_located, hvac_peer_of, hvac_peer_views, HvacPeer, Subject,
};
use super::scenarios::{mode_functions, mode_uses, overrun_functions, overrun_uses};
use super::system_function::{
    self, description_payload, hvac_feature_view, mode_descriptions_payload, mode_relations_payload,
    overrun_description_payload, overrun_state_payload, own_mode_id, payload_of, state_payload,
    SystemFunction, SystemFunctionView,
};
use super::DHW;
use crate::model::{
    CmdData, EntityType, Function, HvacOperationModeId, HvacOperationModeType, HvacOverrunId,
    HvacOverrunStatus, HvacOverrunType, HvacSystemFunctionId, HvacSystemFunctionType, Role,
};
use crate::spine::{reading, LocalFeature, RemoteDevice};
use crate::usecases::descriptor::{
    first_release, scenario, scenario_views, ActorRole, DescriptorView, Scenario, Support,
    UseCaseDescriptor,
};
use vstd::prelude::*;

verus! {

/// The version of the use case.
pub const VERSION: &'static str = "1.0.0";

/// The `useCaseName` that both actors announce.
pub const NAME: &'static str = "monitoringOfDhwSystemFunction";

/// The actor that is followed.
pub const DHW_CIRCUIT_ACTOR: &'static str = "DHWCircuit";

/// The actor that follows it.
pub const MONITORING_APPLIANCE_ACTOR: &'static str = "MonitoringAppliance";

/// The overrun of a one-time hot water heating.
pub const ONE_TIME_DHW: HvacOverrunType = HvacOverrunType::OneTimeDhw;

/// The identifier that this crate publishes the one-time heating under. A peer's is found by its
/// type.
pub const OVERRUN_ID: u32 = 1;

/// The identifier that this crate publishes the system function under. A peer's is found by its
/// type.
pub const SYSTEM_FUNCTION_ID: u32 = 1;

/// The identifiers that this crate gives the four modes.
pub fn operation_mode_id(kind: &HvacOperationModeType) -> (r: Option<HvacOperationModeId>)
    ensures
        r == own_mode_id(*kind),
{
    system_function::operation_mode_id(kind)
}

/// Builds the `HVAC` feature that the scenarios are served from.
pub fn hvac_feature(address: u32) -> (r: LocalFeature)
    ensures
        r@ == hvac_feature_view(address, true),
{
    system_function::hvac_feature(address, true)
}

/// The same feature, also carrying the setpoint relations: an entity has one `HVAC` feature.
pub fn with_cdt(address: u32) -> (r: LocalFeature)
    ensures
        r@ == hvac_feature_view(address, true).with(
            Function::HvacSystemFunctionSetpointRelationListData,
            reading(),
        ),
{
    system_function::with_setpoint_relations(hvac_feature(address))
}

/// What this use case is about.
pub open spec fn subject_view() -> Subject {
    Subject {
        function: HvacSystemFunctionType::Dhw,
        overrun: Some(HvacOverrunType::OneTimeDhw),
        scope: None,
    }
}

/// What this use case is about.
pub fn subject() -> (r: Subject)
    ensures
        r == subject_view(),
{
    Subject::mode_with_overrun(DHW, ONE_TIME_DHW)
}

/// The description of the system function.
pub fn system_function_description() -> (r: CmdData)
    ensures
        r@ == description_payload(
            HvacSystemFunctionId(SYSTEM_FUNCTION_ID),
            HvacSystemFunctionType::Dhw,
        ),
{
    system_function::description(HvacSystemFunctionId(SYSTEM_FUNCTION_ID), DHW)
}

/// The operation modes that are supported: none for fewer than two, with which no change of mode
/// could be reported.
pub fn operation_mode_descriptions(modes: &[HvacOperationModeType]) -> (r: Option<CmdData>)
    ensures
        payload_of(r) == mode_descriptions_payload(modes@),
{
    system_function::operation_mode_descriptions(modes)
}

/// Which modes belong to the system function.
pub fn operation_mode_relations(modes: &[HvacOperationModeType]) -> (r: Option<CmdData>)
    ensures
        payload_of(r) == mode_relations_payload(HvacSystemFunctionId(SYSTEM_FUNCTION_ID), modes@),
{
    system_function::operation_mode_relations(HvacSystemFunctionId(SYSTEM_FUNCTION_ID), modes)
}

/// The mode that the system function is in.
pub fn system_function_state(
    current: HvacOperationModeId,
    overrun_active: bool,
    changeable: Option<bool>,
) -> (r: CmdData)
    ensures
        r@ == state_payload(
            HvacSystemFunctionId(SYSTEM_FUNCTION_ID),
            current,
            overrun_active,
            changeable,
        ),
{
    system_function::state(
        HvacSystemFunctionId(SYSTEM_FUNCTION_ID),
        current,
        overrun_active,
        changeable,
    )
}

/// The description of the one-time heating.
pub fn overrun_description() -> (r: CmdData)
    ensures
        r@ == overrun_description_payload(
            HvacOverrunId(OVERRUN_ID),
            HvacOverrunType::OneTimeDhw,
            seq![HvacSystemFunctionId(SYSTEM_FUNCTION_ID)],
        ),
{
    let affects = vec![HvacSystemFunctionId(SYSTEM_FUNCTION_ID)];
    assert(affects@ =~= seq![HvacSystemFunctionId(SYSTEM_FUNCTION_ID)]);
    system_function::overrun_description(HvacOverrunId(OVERRUN_ID), ONE_TIME_DHW, &affects)
}

/// What the one-time heating is doing. That it has finished is an announcement, not a state to
/// rest in.
pub fn overrun_state(status: HvacOverrunStatus) -> (r: CmdData)
    ensures
        r@ == overrun_state_payload(HvacOverrunId(OVERRUN_ID), status),
{
    system_function::overrun_state(HvacOverrunId(OVERRUN_ID), status)
}

/// A reader that follows the system function.
pub fn reader() -> (r: SystemFunction)
    ensures
        r@ == SystemFunctionView::following(subject_view().function, subject_view().overrun),
{
    SystemFunction::dhw()
}

/// Finds a hot water circuit from a device's discovery and use-case data: the features are those on
/// the entity that announced this use case.
pub fn locate(remote: &RemoteDevice) -> (r: Option<HvacPeer>)
    ensures
        hvac_peer_of(r) == first_located(remote@, dhw_circuit_view(), subject_view()),
{
    peer::locate(remote, &dhw_circuit(), &subject())
}

/// Finds every one on a device that serves it: one for each entity that announced it.
pub fn locate_all(remote: &RemoteDevice) -> (r: Vec<HvacPeer>)
    ensures
        hvac_peer_views(r@) == all_located(remote@, dhw_circuit_view(), subject_view()),
{
    peer::locate_all(remote, &dhw_circuit(), &subject())
}

/// The name of scenario 1.
pub const MONITOR_MODE: &'static str = "Monitor DHW operation mode";

/// The name of scenario 2.
pub const MONITOR_OVERRUN: &'static str = "Monitor DHW overrun";

/// The actor that is followed, as a mathematical value.
pub open spec fn dhw_circuit_view() -> DescriptorView {
    first_release(
        NAME@,
        DHW_CIRCUIT_ACTOR@,
        ActorRole::Server,
        seq![EntityType::DHWCircuit],
        MONITORING_APPLIANCE_ACTOR@,
        seq![
            scenario(1, MONITOR_MODE@, Support::Mandatory, mode_uses(Role::Server, false)),
            scenario(2, MONITOR_OVERRUN@, Support::Recommended, overrun_uses(Role::Server, false)),
        ],
    )
}

/// The actor that is followed.
pub fn dhw_circuit() -> (r: UseCaseDescriptor)
    ensures
        r@ == dhw_circuit_view(),
{
    let entities = vec![EntityType::DHWCircuit];
    assert(entities@ =~= dhw_circuit_view().entity_types);
    let scenarios = vec![
        Scenario::new(1, MONITOR_MODE, Support::Mandatory, mode_functions(Role::Server, false)),
        Scenario::new(
            2,
            MONITOR_OVERRUN,
            Support::Recommended,
            overrun_functions(Role::Server, false),
        ),
    ];
    assert(scenario_views(scenarios@) =~= dhw_circuit_view().scenarios);
    UseCaseDescriptor::released(
        NAME,
        DHW_CIRCUIT_ACTOR,
        ActorRole::Server,
        entities,
        MONITORING_APPLIANCE_ACTOR,
        scenarios,
    )
}

/// The actor that follows it, as a mathematical value.
pub open spec fn monitoring_appliance_view() -> DescriptorView {
    first_release(
        NAME@,
        MONITORING_APPLIANCE_ACTOR@,
        ActorRole::Client,
        Seq::empty(),
        DHW_CIRCUIT_ACTOR@,
        seq![
            scenario(1, MONITOR_MODE@, Support::Mandatory, mode_uses(Role::Client, false)),
            scenario(2, MONITOR_OVERRUN@, Support::Mandatory, overrun_uses(Role::Client, false)),
        ],
    )
}

/// The actor that follows it, behind any entity.
pub fn monitoring_appliance() -> (r: UseCaseDescriptor)
    ensures
        r@ == monitoring_appliance_view(),
{
    let entities: Vec<EntityType> = Vec::new();
    assert(entities@ =~= monitoring_appliance_view().entity_types);
    let scenarios = vec![
        Scenario::new(1, MONITOR_MODE, Support::Mandatory, mode_functions(Role::Client, false)),
        Scenario::new(
            2,
            MONITOR_OVERRUN,
            Support::Mandatory,
            overrun_functions(Role::Client, false),
        ),
    ];
    assert(scenario_views(scenarios@) =~= monitoring_appliance_view().scenarios);
    UseCaseDescriptor::released(
        NAME,
        MONITORING_APPLIANCE_ACTOR,
        ActorRole::Client,
        entities,
        DHW_CIRCUIT_ACTOR,
        scenarios,
    )
}

} // verus!
