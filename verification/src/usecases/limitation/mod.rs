//! Limitation of Power Consumption and Production.

use crate::model::{
    DeviceConfigurationKeyName, ElectricalConnectionCharacteristicType, EnergyDirection,
};
use crate::usecases::names;
use vstd::prelude::*;

pub mod actor;
pub mod actor_laws;
pub mod audit;
pub mod guard;
pub mod guard_laws;
pub mod guard_model;
pub mod payload_laws;
pub mod payloads;
pub mod requirement_laws;
pub mod scenarios;
pub mod state;
pub mod state_laws;

pub use self::actor::{ControllableSystemActor, ControllableSystemBuilder, CsEvent, CsFeatures};
pub use self::audit::{AuditLog, LimitRecord, DEFAULT_CAPACITY};
pub use self::guard::{
    client_feature, locate, ControllableSystemPeer, EnergyGuardActor, GuardEvent,
};
pub use self::guard_model::{Unanswered, MIN_WRITE_INTERVAL, RETRY_BACKOFF_STEP};
pub use self::payloads::{
    constraints, device_configuration_feature, device_diagnosis_client_feature,
    device_diagnosis_feature, electrical_connection_feature, failsafe_descriptions,
    failsafe_values, heartbeat, limit_data, limit_description, load_control_feature, nominal_max,
    read_constraints, read_heartbeat, read_limit_write, NominalMax, PeerIds, CHARACTERISTIC_ID,
    ELECTRICAL_CONNECTION_ID, FAILSAFE_DURATION_KEY, FAILSAFE_LIMIT_KEY, LIMIT_ID,
    MEASUREMENT_ID, PARAMETER_ID,
};
pub use self::state::{
    ControllableSystem, CsConfig, EffectiveLimit, LimitWrite, LimitationState, LocalDecision,
    NackReason, RejectReason, WriteOutcome, HEARTBEAT_TIMEOUT, SETTLE_TIMEOUT, WRITE_WINDOW,
};

verus! {

/// The key of the failsafe duration minimum, which both directions share.
pub const FAILSAFE_DURATION_MINIMUM_KEY: DeviceConfigurationKeyName =
    DeviceConfigurationKeyName::FailsafeDurationMinimum;

/// Which of the two limitation use cases an actor is playing.
///
/// The state machine does not depend on this; everything a Controllable System publishes does.
#[derive(Clone, Copy, Debug, PartialEq, Eq, Structural, Hash)]
pub enum Direction {
    /// Limitation of Power Consumption: how much the device may draw.
    Consumption,
    /// Limitation of Power Production: how much the device may feed in.
    Production,
}

impl Direction {
    /// The direction of the energy that is limited.
    pub open spec fn flow(self) -> EnergyDirection {
        match self {
            Direction::Consumption => EnergyDirection::Consume,
            Direction::Production => EnergyDirection::Produce,
        }
    }

    /// The configuration key of the failsafe limit.
    pub open spec fn failsafe_key(self) -> DeviceConfigurationKeyName {
        match self {
            Direction::Consumption =>
                DeviceConfigurationKeyName::FailsafeConsumptionActivePowerLimit,
            Direction::Production =>
                DeviceConfigurationKeyName::FailsafeProductionActivePowerLimit,
        }
    }

    /// The name of the use case.
    pub open spec fn name(self) -> Seq<char> {
        match self {
            Direction::Consumption => names::LPC@,
            Direction::Production => names::LPP@,
        }
    }

    /// The prefix of the signals of this direction.
    pub open spec fn prefix(self) -> Seq<char> {
        match self {
            Direction::Consumption => "lpc"@,
            Direction::Production => "lpp"@,
        }
    }

    /// The name of the first scenario.
    pub open spec fn first_scenario(self) -> Seq<char> {
        match self {
            Direction::Consumption => "Control active power consumption limit"@,
            Direction::Production => "Control active power production limit"@,
        }
    }

    /// The characteristic that states what a device can do at most.
    pub open spec fn nominal_max(self) -> ElectricalConnectionCharacteristicType {
        match self {
            Direction::Consumption =>
                ElectricalConnectionCharacteristicType::PowerConsumptionNominalMax,
            Direction::Production =>
                ElectricalConnectionCharacteristicType::PowerProductionNominalMax,
        }
    }

    /// The characteristic that states what a premises may do at most.
    pub open spec fn contractual_max(self) -> ElectricalConnectionCharacteristicType {
        match self {
            Direction::Consumption =>
                ElectricalConnectionCharacteristicType::ContractualConsumptionNominalMax,
            Direction::Production =>
                ElectricalConnectionCharacteristicType::ContractualProductionNominalMax,
        }
    }

    /// The characteristic that states what a device can do at most.
    pub fn nominal_max_characteristic(self) -> (r: ElectricalConnectionCharacteristicType)
        ensures
            r == self.nominal_max(),
    {
        match self {
            Direction::Consumption =>
                ElectricalConnectionCharacteristicType::PowerConsumptionNominalMax,
            Direction::Production =>
                ElectricalConnectionCharacteristicType::PowerProductionNominalMax,
        }
    }

    /// The characteristic that states what a premises may do at most.
    pub fn contractual_max_characteristic(self) -> (r: ElectricalConnectionCharacteristicType)
        ensures
            r == self.contractual_max(),
    {
        match self {
            Direction::Consumption =>
                ElectricalConnectionCharacteristicType::ContractualConsumptionNominalMax,
            Direction::Production =>
                ElectricalConnectionCharacteristicType::ContractualProductionNominalMax,
        }
    }

    /// The `limitDirection` of the limit description.
    pub fn energy_direction(self) -> (r: EnergyDirection)
        ensures
            r == self.flow(),
    {
        match self {
            Direction::Consumption => EnergyDirection::Consume,
            Direction::Production => EnergyDirection::Produce,
        }
    }

    /// The `keyName` of the failsafe power limit.
    pub fn failsafe_limit_key(self) -> (r: DeviceConfigurationKeyName)
        ensures
            r == self.failsafe_key(),
    {
        match self {
            Direction::Consumption =>
                DeviceConfigurationKeyName::FailsafeConsumptionActivePowerLimit,
            Direction::Production =>
                DeviceConfigurationKeyName::FailsafeProductionActivePowerLimit,
        }
    }

    /// The use-case name a device announces.
    pub fn use_case_name(self) -> (r: &'static str)
        ensures
            r@ == self.name(),
    {
        match self {
            Direction::Consumption => names::LPC,
            Direction::Production => names::LPP,
        }
    }

    /// The name of scenario 1.
    pub fn scenario_one_name(self) -> (r: &'static str)
        ensures
            r@ == self.first_scenario(),
    {
        match self {
            Direction::Consumption => "Control active power consumption limit",
            Direction::Production => "Control active power production limit",
        }
    }

    /// The prefix of the signals of this direction.
    pub fn signal_prefix(self) -> (r: &'static str)
        ensures
            r@ == self.prefix(),
    {
        match self {
            Direction::Consumption => "lpc",
            Direction::Production => "lpp",
        }
    }
}

} // verus!
