//! Monitoring of Inverter.
//!
//! What an inverter is and does, beside the ordinary measurements of an appliance.

use super::monitoring::functions::{
    client_characteristics, client_characteristics_uses, client_identification,
    client_identification_uses, client_measurements, client_measurements_uses, client_state,
    client_state_uses, server_characteristics, server_characteristics_uses, server_identification,
    server_identification_uses, server_measurements, server_measurements_uses, server_state,
    server_state_uses,
};
use super::monitoring::unit::{MonitoredUnit, Naming, UnitView};
use crate::model::{ElectricalConnectionId, EntityType};
use crate::usecases::actors;
use crate::usecases::descriptor::{
    first_release, scenario, scenario_views, ActorRole, DescriptorView, Scenario, Support,
    UseCaseDescriptor,
};
use vstd::prelude::*;

verus! {

/// The version of the use case.
pub const VERSION: &'static str = "1.0.0";

/// The `useCaseName` that both actors announce.
pub const NAME: &'static str = "monitoringOfInverter";

/// The actor that is read.
pub const INVERTER_ACTOR: &'static str = "Inverter";

/// A unit that measures nothing yet, named as an appliance.
pub fn monitored_unit(connection: u32) -> (r: MonitoredUnit)
    ensures
        r@ == (UnitView {
            connection: ElectricalConnectionId(connection),
            naming: Naming::Appliance,
            slots: Seq::empty(),
        }),
        r@.wf(),
{
    MonitoredUnit::new(connection).naming(Naming::Appliance)
}

/// The actor that is read, as a mathematical value.
pub open spec fn inverter_view() -> DescriptorView {
    first_release(
        NAME@,
        INVERTER_ACTOR@,
        ActorRole::Server,
        seq![EntityType::Inverter],
        actors::MONITORING_APPLIANCE@,
        seq![
            scenario(
                1,
                "Monitor Inverter identification"@,
                Support::Mandatory,
                server_identification_uses(),
            ),
            scenario(2, "Monitor Inverter state"@, Support::Mandatory, server_state_uses()),
            scenario(
                3,
                "Monitor Inverter AC power details"@,
                Support::Recommended,
                server_measurements_uses(),
            ),
            scenario(
                4,
                "Monitor Inverter AC energy details"@,
                Support::Mandatory,
                server_measurements_uses(),
            ),
            scenario(
                5,
                "Monitor Inverter AC additional details"@,
                Support::Recommended,
                server_measurements_uses(),
            ),
            scenario(
                6,
                "Monitor Inverter capabilities"@,
                Support::Recommended,
                server_characteristics_uses(),
            ),
            scenario(
                7,
                "Monitor Inverter internal data"@,
                Support::Optional,
                server_measurements_uses(),
            ),
        ],
    )
}

/// The actor that is read.
pub fn inverter() -> (r: UseCaseDescriptor)
    ensures
        r@ == inverter_view(),
{
    let entities = vec![EntityType::Inverter];
    assert(entities@ =~= inverter_view().entity_types);
    let scenarios = vec![
        Scenario::new(
            1,
            "Monitor Inverter identification",
            Support::Mandatory,
            server_identification(),
        ),
        Scenario::new(2, "Monitor Inverter state", Support::Mandatory, server_state()),
        Scenario::new(
            3,
            "Monitor Inverter AC power details",
            Support::Recommended,
            server_measurements(),
        ),
        Scenario::new(
            4,
            "Monitor Inverter AC energy details",
            Support::Mandatory,
            server_measurements(),
        ),
        Scenario::new(
            5,
            "Monitor Inverter AC additional details",
            Support::Recommended,
            server_measurements(),
        ),
        Scenario::new(
            6,
            "Monitor Inverter capabilities",
            Support::Recommended,
            server_characteristics(),
        ),
        Scenario::new(
            7,
            "Monitor Inverter internal data",
            Support::Optional,
            server_measurements(),
        ),
    ];
    assert(scenario_views(scenarios@) =~= inverter_view().scenarios);
    UseCaseDescriptor::released(
        NAME,
        INVERTER_ACTOR,
        ActorRole::Server,
        entities,
        actors::MONITORING_APPLIANCE,
        scenarios,
    )
}

/// The actor that reads, as a mathematical value.
pub open spec fn monitoring_appliance_view() -> DescriptorView {
    first_release(
        NAME@,
        actors::MONITORING_APPLIANCE@,
        ActorRole::Client,
        Seq::empty(),
        INVERTER_ACTOR@,
        seq![
            scenario(
                1,
                "Monitor Inverter identification"@,
                Support::Mandatory,
                client_identification_uses(),
            ),
            scenario(2, "Monitor Inverter state"@, Support::Mandatory, client_state_uses()),
            scenario(
                3,
                "Monitor Inverter AC power details"@,
                Support::Mandatory,
                client_measurements_uses(),
            ),
            scenario(
                4,
                "Monitor Inverter AC energy details"@,
                Support::Mandatory,
                client_measurements_uses(),
            ),
            scenario(
                5,
                "Monitor Inverter AC additional details"@,
                Support::Mandatory,
                client_measurements_uses(),
            ),
            scenario(
                6,
                "Monitor Inverter capabilities"@,
                Support::Mandatory,
                client_characteristics_uses(),
            ),
            scenario(
                7,
                "Monitor Inverter internal data"@,
                Support::Optional,
                client_measurements_uses(),
            ),
        ],
    )
}

/// The actor that reads, behind any entity.
pub fn monitoring_appliance() -> (r: UseCaseDescriptor)
    ensures
        r@ == monitoring_appliance_view(),
{
    let entities: Vec<EntityType> = Vec::new();
    assert(entities@ =~= monitoring_appliance_view().entity_types);
    let scenarios = vec![
        Scenario::new(
            1,
            "Monitor Inverter identification",
            Support::Mandatory,
            client_identification(),
        ),
        Scenario::new(2, "Monitor Inverter state", Support::Mandatory, client_state()),
        Scenario::new(
            3,
            "Monitor Inverter AC power details",
            Support::Mandatory,
            client_measurements(),
        ),
        Scenario::new(
            4,
            "Monitor Inverter AC energy details",
            Support::Mandatory,
            client_measurements(),
        ),
        Scenario::new(
            5,
            "Monitor Inverter AC additional details",
            Support::Mandatory,
            client_measurements(),
        ),
        Scenario::new(
            6,
            "Monitor Inverter capabilities",
            Support::Mandatory,
            client_characteristics(),
        ),
        Scenario::new(
            7,
            "Monitor Inverter internal data",
            Support::Optional,
            client_measurements(),
        ),
    ];
    assert(scenario_views(scenarios@) =~= monitoring_appliance_view().scenarios);
    UseCaseDescriptor::released(
        NAME,
        actors::MONITORING_APPLIANCE,
        ActorRole::Client,
        entities,
        INVERTER_ACTOR,
        scenarios,
    )
}

} // verus!
