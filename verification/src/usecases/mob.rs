//! Monitoring of Battery.
//!
//! What a battery is, does and holds.

use super::monitoring::functions::{
    client_characteristics, client_characteristics_uses, client_identification,
    client_identification_uses, client_measurements, client_measurements_uses, client_state,
    client_state_uses, server_characteristics, server_characteristics_uses, server_identification,
    server_identification_uses, server_measurements, server_measurements_uses, server_state,
    server_state_uses,
};
use super::monitoring::unit::{MonitoredUnit, Naming, UnitView};
use crate::model::{ElectricalConnectionId, EntityType};
use crate::usecases::actors;
use crate::usecases::descriptor::{
    first_release, scenario, scenario_views, ActorRole, DescriptorView, Scenario, Support,
    UseCaseDescriptor,
};
use vstd::prelude::*;

verus! {

/// The version of the use case.
pub const VERSION: &'static str = "1.0.0";

/// The `useCaseName` that both actors announce.
pub const NAME: &'static str = "monitoringOfBattery";

/// The actor that is read.
pub const BATTERY_ACTOR: &'static str = "Battery";

/// A unit that measures nothing yet, named as an appliance.
pub fn monitored_unit(connection: u32) -> (r: MonitoredUnit)
    ensures
        r@ == (UnitView {
            connection: ElectricalConnectionId(connection),
            naming: Naming::Appliance,
            slots: Seq::empty(),
        }),
        r@.wf(),
{
    MonitoredUnit::new(connection).naming(Naming::Appliance)
}

/// The actor that is read, as a mathematical value.
pub open spec fn battery_view() -> DescriptorView {
    first_release(
        NAME@,
        BATTERY_ACTOR@,
        ActorRole::Server,
        seq![EntityType::Battery],
        actors::MONITORING_APPLIANCE@,
        seq![
            scenario(
                1,
                "Monitor Battery identification"@,
                Support::Mandatory,
                server_identification_uses(),
            ),
            scenario(2, "Monitor Battery state"@, Support::Mandatory, server_state_uses()),
            scenario(
                3,
                "Monitor Battery DC power"@,
                Support::Recommended,
                server_measurements_uses(),
            ),
            scenario(
                4,
                "Monitor Battery DC current"@,
                Support::Mandatory,
                server_measurements_uses(),
            ),
            scenario(
                5,
                "Monitor Battery DC voltage"@,
                Support::Mandatory,
                server_measurements_uses(),
            ),
            scenario(
                6,
                "Monitor Battery DC energy"@,
                Support::Mandatory,
                server_measurements_uses(),
            ),
            scenario(
                7,
                "Monitor Battery additional details"@,
                Support::Recommended,
                server_measurements_uses(),
            ),
            scenario(
                8,
                "Monitor Battery capabilities"@,
                Support::Recommended,
                server_characteristics_uses(),
            ),
            scenario(
                9,
                "Monitor Battery internal data"@,
                Support::Optional,
                server_measurements_uses(),
            ),
        ],
    )
}

/// The actor that is read.
pub fn battery() -> (r: UseCaseDescriptor)
    ensures
        r@ == battery_view(),
{
    let entities = vec![EntityType::Battery];
    assert(entities@ =~= battery_view().entity_types);
    let scenarios = vec![
        Scenario::new(
            1,
            "Monitor Battery identification",
            Support::Mandatory,
            server_identification(),
        ),
        Scenario::new(2, "Monitor Battery state", Support::Mandatory, server_state()),
        Scenario::new(3, "Monitor Battery DC power", Support::Recommended, server_measurements()),
        Scenario::new(4, "Monitor Battery DC current", Support::Mandatory, server_measurements()),
        Scenario::new(5, "Monitor Battery DC voltage", Support::Mandatory, server_measurements()),
        Scenario::new(6, "Monitor Battery DC energy", Support::Mandatory, server_measurements()),
        Scenario::new(
            7,
            "Monitor Battery additional details",
            Support::Recommended,
            server_measurements(),
        ),
        Scenario::new(
            8,
            "Monitor Battery capabilities",
            Support::Recommended,
            server_characteristics(),
        ),
        Scenario::new(9, "Monitor Battery internal data", Support::Optional, server_measurements()),
    ];
    assert(scenario_views(scenarios@) =~= battery_view().scenarios);
    UseCaseDescriptor::released(
        NAME,
        BATTERY_ACTOR,
        ActorRole::Server,
        entities,
        actors::MONITORING_APPLIANCE,
        scenarios,
    )
}

/// The actor that reads, as a mathematical value.
pub open spec fn monitoring_appliance_view() -> DescriptorView {
    first_release(
        NAME@,
        actors::MONITORING_APPLIANCE@,
        ActorRole::Client,
        Seq::empty(),
        BATTERY_ACTOR@,
        seq![
            scenario(
                1,
                "Monitor Battery identification"@,
                Support::Recommended,
                client_identification_uses(),
            ),
            scenario(2, "Monitor Battery state"@, Support::Mandatory, client_state_uses()),
            scenario(
                3,
                "Monitor Battery DC power"@,
                Support::Mandatory,
                client_measurements_uses(),
            ),
            scenario(
                4,
                "Monitor Battery DC current"@,
                Support::Mandatory,
                client_measurements_uses(),
            ),
            scenario(
                5,
                "Monitor Battery DC voltage"@,
                Support::Mandatory,
                client_measurements_uses(),
            ),
            scenario(
                6,
                "Monitor Battery DC energy"@,
                Support::Recommended,
                client_measurements_uses(),
            ),
            scenario(
                7,
                "Monitor Battery additional details"@,
                Support::Recommended,
                client_measurements_uses(),
            ),
            scenario(
                8,
                "Monitor Battery capabilities"@,
                Support::Mandatory,
                client_characteristics_uses(),
            ),
            scenario(
                9,
                "Monitor Battery internal data"@,
                Support::Optional,
                client_measurements_uses(),
            ),
        ],
    )
}

/// The actor that reads, behind any entity.
pub fn monitoring_appliance() -> (r: UseCaseDescriptor)
    ensures
        r@ == monitoring_appliance_view(),
{
    let entities: Vec<EntityType> = Vec::new();
    assert(entities@ =~= monitoring_appliance_view().entity_types);
    let scenarios = vec![
        Scenario::new(
            1,
            "Monitor Battery identification",
            Support::Recommended,
            client_identification(),
        ),
        Scenario::new(2, "Monitor Battery state", Support::Mandatory, client_state()),
        Scenario::new(3, "Monitor Battery DC power", Support::Mandatory, client_measurements()),
        Scenario::new(4, "Monitor Battery DC current", Support::Mandatory, client_measurements()),
        Scenario::new(5, "Monitor Battery DC voltage", Support::Mandatory, client_measurements()),
        Scenario::new(6, "Monitor Battery DC energy", Support::Recommended, client_measurements()),
        Scenario::new(
            7,
            "Monitor Battery additional details",
            Support::Recommended,
            client_measurements(),
        ),
        Scenario::new(
            8,
            "Monitor Battery capabilities",
            Support::Mandatory,
            client_characteristics(),
        ),
        Scenario::new(9, "Monitor Battery internal data", Support::Optional, client_measurements()),
    ];
    assert(scenario_views(scenarios@) =~= monitoring_appliance_view().scenarios);
    UseCaseDescriptor::released(
        NAME,
        actors::MONITORING_APPLIANCE,
        ActorRole::Client,
        entities,
        BATTERY_ACTOR,
        scenarios,
    )
}

} // verus!
