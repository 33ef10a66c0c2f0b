//! Limitation of Power Production.

use crate::model::EntityType;
use crate::usecases::actors;
use crate::usecases::descriptor::{first_release, ActorRole, DescriptorView, UseCaseDescriptor};
use crate::usecases::limitation::scenarios::{
    guard_scenario_views, guard_scenarios, system_scenario_views, system_scenarios,
};
use crate::usecases::limitation::Direction;
use crate::usecases::names;
use vstd::prelude::*;

verus! {

/// The direction of this use case.
pub const DIRECTION: Direction = Direction::Production;

/// The key of the failsafe limit.
pub const FAILSAFE_PRODUCTION_ACTIVE_POWER_LIMIT: &'static str =
    "failsafeProductionActivePowerLimit";

/// The key of the failsafe duration minimum.
pub const FAILSAFE_DURATION_MINIMUM: &'static str = "failsafeDurationMinimum";

/// The Energy Guard as a mathematical value.
pub open spec fn energy_guard_view() -> DescriptorView {
    first_release(
        names::LPP@,
        actors::ENERGY_GUARD@,
        ActorRole::Client,
        seq![EntityType::CEM, EntityType::GridGuard],
        actors::CONTROLLABLE_SYSTEM@,
        guard_scenario_views(Direction::Production),
    )
}

/// The Controllable System as a mathematical value.
pub open spec fn controllable_system_view() -> DescriptorView {
    first_release(
        names::LPP@,
        actors::CONTROLLABLE_SYSTEM@,
        ActorRole::Server,
        seq![
            EntityType::CEM,
            EntityType::EVSE,
            EntityType::Inverter,
            EntityType::SmartEnergyAppliance,
            EntityType::SubMeterElectricity,
            EntityType::BatterySystem,
            EntityType::PVSystem,
        ],
        actors::ENERGY_GUARD@,
        system_scenario_views(Direction::Production),
    )
}

/// The Energy Guard: the actor that limits.
pub fn energy_guard() -> (r: UseCaseDescriptor)
    ensures
        r@ == energy_guard_view(),
{
    let entities = vec![EntityType::CEM, EntityType::GridGuard];
    assert(entities@ =~= energy_guard_view().entity_types);
    UseCaseDescriptor::released(
        names::LPP,
        actors::ENERGY_GUARD,
        ActorRole::Client,
        entities,
        actors::CONTROLLABLE_SYSTEM,
        guard_scenarios(DIRECTION),
    )
}

/// The Controllable System: the actor that is limited.
pub fn controllable_system() -> (r: UseCaseDescriptor)
    ensures
        r@ == controllable_system_view(),
{
    let entities = vec![
        EntityType::CEM,
        EntityType::EVSE,
        EntityType::Inverter,
        EntityType::SmartEnergyAppliance,
        EntityType::SubMeterElectricity,
        EntityType::BatterySystem,
        EntityType::PVSystem,
    ];
    assert(entities@ =~= controllable_system_view().entity_types);
    UseCaseDescriptor::released(
        names::LPP,
        actors::CONTROLLABLE_SYSTEM,
        ActorRole::Server,
        entities,
        actors::ENERGY_GUARD,
        system_scenarios(DIRECTION),
    )
}

} // verus!
