//! The payloads that travel between devices.
//!
//! A payload is a [`CmdData`]: a list of entries, or a single entry, of one function. Every
//! element of an entry is optional, because a partial update leaves out what it does not change.
//! [`Payload`] is the content of a `CmdData` as a mathematical value.

use crate::assoc::Key;
use crate::number::Number;
use crate::time::Duration;
use vstd::prelude::*;

verus! {

/// The `errorNumber` of a result message.
#[derive(Clone, Copy, Debug, PartialEq, Eq, Structural, Hash)]
pub enum ErrorNumber {
    /// No error: the command was accepted.
    NoError,
    /// The addressed destination does not exist.
    DestinationUnknown,
    /// The command was understood and refused.
    CommandRejected,
    /// Any other error, by its number.
    Other(u32),
}

impl ErrorNumber {
    /// Whether the command was accepted.
    pub fn is_success(self) -> (r: bool)
        ensures
            r == (self is NoError),
    {
        match self {
            ErrorNumber::NoError => true,
            _ => false,
        }
    }

    /// The number on the wire.
    pub open spec fn code(self) -> u32 {
        match self {
            ErrorNumber::NoError => 0,
            ErrorNumber::DestinationUnknown => 4,
            ErrorNumber::CommandRejected => 7,
            ErrorNumber::Other(number) => number,
        }
    }

    /// The error in words.
    pub open spec fn text(self) -> Seq<char> {
        match self {
            ErrorNumber::NoError => "no error"@,
            ErrorNumber::DestinationUnknown => "destination unknown"@,
            ErrorNumber::CommandRejected => "command rejected"@,
            ErrorNumber::Other(_) => "other error"@,
        }
    }

    /// The number on the wire.
    pub fn number(self) -> (r: u32)
        ensures
            r == self.code(),
    {
        match self {
            ErrorNumber::NoError => 0,
            ErrorNumber::DestinationUnknown => 4,
            ErrorNumber::CommandRejected => 7,
            ErrorNumber::Other(number) => number,
        }
    }

    /// The error in words.
    pub fn as_str(self) -> (r: &'static str)
        ensures
            r@ == self.text(),
    {
        match self {
            ErrorNumber::NoError => "no error",
            ErrorNumber::DestinationUnknown => "destination unknown",
            ErrorNumber::CommandRejected => "command rejected",
            ErrorNumber::Other(_) => "other error",
        }
    }
}

/// The direction of an energy flow.
#[derive(Clone, Copy, Debug, PartialEq, Eq, Structural, Hash)]
pub enum EnergyDirection {
    /// Drawn by the device.
    Consume,
    /// Fed in by the device.
    Produce,
}

/// The name of a device configuration key.
#[derive(Clone, Copy, Debug, PartialEq, Eq, Structural, Hash)]
pub enum DeviceConfigurationKeyName {
    /// The failsafe limit of the consumption direction.
    FailsafeConsumptionActivePowerLimit,
    /// The failsafe limit of the production direction.
    FailsafeProductionActivePowerLimit,
    /// How long the failsafe value holds at least.
    FailsafeDurationMinimum,
    /// The factor by which a photovoltaic system is curtailed.
    PvCurtailmentLimitFactor,
    /// A value outside this list, by its place in the application's own table.
    Other(u32),
}

impl DeviceConfigurationKeyName {
    /// The value as it is written.
    pub open spec fn text(self) -> Seq<char> {
        match self {
            DeviceConfigurationKeyName::FailsafeConsumptionActivePowerLimit =>
                "failsafeConsumptionActivePowerLimit"@,
            DeviceConfigurationKeyName::FailsafeProductionActivePowerLimit =>
                "failsafeProductionActivePowerLimit"@,
            DeviceConfigurationKeyName::FailsafeDurationMinimum => "failsafeDurationMinimum"@,
            DeviceConfigurationKeyName::PvCurtailmentLimitFactor => "pvCurtailmentLimitFactor"@,
            DeviceConfigurationKeyName::Other(_) => "other"@,
        }
    }

    /// The value as it is written; one outside the list is just `other`.
    pub fn as_str(self) -> (r: &'static str)
        ensures
            r@ == self.text(),
    {
        match self {
            DeviceConfigurationKeyName::FailsafeConsumptionActivePowerLimit =>
                "failsafeConsumptionActivePowerLimit",
            DeviceConfigurationKeyName::FailsafeProductionActivePowerLimit =>
                "failsafeProductionActivePowerLimit",
            DeviceConfigurationKeyName::FailsafeDurationMinimum => "failsafeDurationMinimum",
            DeviceConfigurationKeyName::PvCurtailmentLimitFactor => "pvCurtailmentLimitFactor",
            DeviceConfigurationKeyName::Other(_) => "other",
        }
    }
}

/// What kind of value a device configuration key has.
#[derive(Clone, Copy, Debug, PartialEq, Eq, Structural, Hash)]
pub enum DeviceConfigurationKeyValueType {
    /// A number.
    ScaledNumber,
    /// A span of time.
    Duration,
    /// A value outside this list, by its place in the application's own table.
    Other(u32),
}

/// What kind of limit a load control limit is.
#[derive(Clone, Copy, Debug, PartialEq, Eq, Structural, Hash)]
pub enum LoadControlLimitType {
    /// A limit on the absolute value, in the direction of its sign.
    SignDependentAbsValueLimit,
    /// A value outside this list, by its place in the application's own table.
    Other(u32),
}

/// How binding a load control limit is.
#[derive(Clone, Copy, Debug, PartialEq, Eq, Structural, Hash)]
pub enum LoadControlCategory {
    /// It has to be followed.
    Obligation,
    /// A value outside this list, by its place in the application's own table.
    Other(u32),
}

/// What a characteristic describes.
#[derive(Clone, Copy, Debug, PartialEq, Eq, Structural, Hash)]
pub enum ElectricalConnectionCharacteristicContext {
    /// The entity as a whole.
    Entity,
    /// A value outside this list, by its place in the application's own table.
    Other(u32),
}

/// What a characteristic states.
#[derive(Clone, Copy, Debug, PartialEq, Eq, Structural, Hash)]
pub enum ElectricalConnectionCharacteristicType {
    /// The most a device can draw.
    PowerConsumptionNominalMax,
    /// The most a device can feed in.
    PowerProductionNominalMax,
    /// The most a premises may draw.
    ContractualConsumptionNominalMax,
    /// The most a premises may feed in.
    ContractualProductionNominalMax,
    /// A value outside this list, by its place in the application's own table.
    Other(u32),
}

/// The kind of voltage.
#[derive(Clone, Copy, Debug, PartialEq, Eq, Structural, Hash)]
pub enum ElectricalConnectionVoltageType {
    /// Alternating.
    Ac,
    /// Direct.
    Dc,
}

/// The phases a value was measured on.
#[derive(Clone, Copy, Debug, PartialEq, Eq, Structural, Hash)]
pub enum ElectricalConnectionPhaseName {
    /// Phase A.
    A,
    /// Phase B.
    B,
    /// Phase C.
    C,
    /// Phases A and B.
    Ab,
    /// Phases B and C.
    Bc,
    /// Phases A and C.
    Ac,
    /// All three phases.
    Abc,
    /// The neutral conductor.
    Neutral,
    /// Ground.
    Ground,
    /// No phase.
    Unspecified,
}

/// A unit.
#[derive(Clone, Copy, Debug, PartialEq, Eq, Structural, Hash)]
pub enum UnitOfMeasurement {
    /// Watt.
    W,
    /// Watt hour.
    Wh,
    /// Ampere.
    A,
    /// Volt.
    V,
    /// Hertz.
    Hz,
    /// Percent.
    Pct,
    /// Metre.
    M,
    /// Volt-ampere.
    VA,
    /// Volt-ampere reactive.
    Var,
    /// A plain number.
    V1,
    /// Degree Celsius.
    DegC,
    /// Degree Fahrenheit.
    DegF,
    /// Kelvin.
    K,
    /// Ohm.
    Ohm,
    /// A unit this crate does not use.
    Unknown,
}

impl UnitOfMeasurement {
    /// The unit as it is written.
    pub open spec fn text(self) -> Seq<char> {
        match self {
            UnitOfMeasurement::W => "W"@,
            UnitOfMeasurement::Wh => "Wh"@,
            UnitOfMeasurement::A => "A"@,
            UnitOfMeasurement::V => "V"@,
            UnitOfMeasurement::Hz => "Hz"@,
            UnitOfMeasurement::Pct => "pct"@,
            UnitOfMeasurement::M => "m"@,
            UnitOfMeasurement::VA => "VA"@,
            UnitOfMeasurement::Var => "var"@,
            UnitOfMeasurement::V1 => "1"@,
            UnitOfMeasurement::DegC => "degC"@,
            UnitOfMeasurement::DegF => "degF"@,
            UnitOfMeasurement::K => "K"@,
            UnitOfMeasurement::Ohm => "Ohm"@,
            UnitOfMeasurement::Unknown => "unknown"@,
        }
    }

    /// The unit as it is written.
    pub fn as_str(self) -> (r: &'static str)
        ensures
            r@ == self.text(),
    {
        match self {
            UnitOfMeasurement::W => "W",
            UnitOfMeasurement::Wh => "Wh",
            UnitOfMeasurement::A => "A",
            UnitOfMeasurement::V => "V",
            UnitOfMeasurement::Hz => "Hz",
            UnitOfMeasurement::Pct => "pct",
            UnitOfMeasurement::M => "m",
            UnitOfMeasurement::VA => "VA",
            UnitOfMeasurement::Var => "var",
            UnitOfMeasurement::V1 => "1",
            UnitOfMeasurement::DegC => "degC",
            UnitOfMeasurement::DegF => "degF",
            UnitOfMeasurement::K => "K",
            UnitOfMeasurement::Ohm => "Ohm",
            UnitOfMeasurement::Unknown => "unknown",
        }
    }
}

/// What is measured.
#[derive(Clone, Copy, Debug, PartialEq, Eq, Structural, Hash)]
pub enum CommodityType {
    /// Electricity.
    Electricity,
    /// Hot water.
    DomesticHotWater,
    /// Air.
    Air,
    /// A value outside this list, by its place in the application's own table.
    Other(u32),
}

/// The physical quantity of a measurement.
#[derive(Clone, Copy, Debug, PartialEq, Eq, Structural, Hash)]
pub enum MeasurementType {
    /// Power.
    Power,
    /// Energy.
    Energy,
    /// Current.
    Current,
    /// Voltage.
    Voltage,
    /// Frequency.
    Frequency,
    /// A share.
    Percentage,
    /// A distance.
    Distance,
    /// A power factor.
    PowerFactor,
    /// A temperature.
    Temperature,
    /// A capacity.
    Capacity,
    /// A count.
    Count,
    /// A resistance.
    Resistance,
    /// A value outside this list, by its place in the application's own table.
    Other(u32),
}

/// Which aspect of a quantity a measurement gives.
#[derive(Clone, Copy, Debug, PartialEq, Eq, Structural, Hash)]
pub enum MeasurementValueType {
    /// The momentary value.
    Value,
    /// A value outside this list, by its place in the application's own table.
    Other(u32),
}

/// Where a measured value comes from.
#[derive(Clone, Copy, Debug, PartialEq, Eq, Structural, Hash)]
pub enum MeasurementValueSource {
    /// From a sensor.
    MeasuredValue,
    /// From a model.
    CalculatedValue,
    /// From experience.
    EmpiricalValue,
}

/// Whether a measured value can be trusted.
#[derive(Clone, Copy, Debug, PartialEq, Eq, Hash)]
pub enum MeasurementValueState {
    /// It can.
    Normal,
    /// It lies outside the range the sensor covers.
    OutOfRange,
    /// The sensor has failed.
    Error,
    /// A state outside this list, by its name in the application's own table.
    Other(&'static str),
}

impl MeasurementValueState {
    /// The name of the state.
    pub open spec fn text(self) -> Seq<char> {
        match self {
            MeasurementValueState::Normal => "normal"@,
            MeasurementValueState::OutOfRange => "outOfRange"@,
            MeasurementValueState::Error => "error"@,
            MeasurementValueState::Other(name) => name@,
        }
    }

    /// The name of the state.
    pub fn as_str(self) -> (r: &'static str)
        ensures
            r@ == self.text(),
    {
        match self {
            MeasurementValueState::Normal => "normal",
            MeasurementValueState::OutOfRange => "outOfRange",
            MeasurementValueState::Error => "error",
            MeasurementValueState::Other(name) => name,
        }
    }
}

/// What a value, limit or setpoint is about.
#[derive(Clone, Copy, Debug, PartialEq, Eq, Structural, Hash)]
pub enum ScopeType {
    /// Scope: ac cos phi.
    AcCosPhi,
    /// Scope: ac current.
    AcCurrent,
    /// Scope: ac energy consumed.
    AcEnergyConsumed,
    /// Scope: ac energy produced.
    AcEnergyProduced,
    /// Scope: ac frequency.
    AcFrequency,
    /// Scope: ac power.
    AcPower,
    /// Scope: ac power apparent.
    AcPowerApparent,
    /// Scope: ac power apparent total.
    AcPowerApparentTotal,
    /// Scope: ac power reactive.
    AcPowerReactive,
    /// Scope: ac power reactive total.
    AcPowerReactiveTotal,
    /// Scope: ac power total.
    AcPowerTotal,
    /// Scope: ac voltage.
    AcVoltage,
    /// Scope: ac yield day.
    AcYieldDay,
    /// Scope: ac yield month.
    AcYieldMonth,
    /// Scope: ac yield total.
    AcYieldTotal,
    /// Scope: ac yield year.
    AcYieldYear,
    /// Scope: active power limit.
    ActivePowerLimit,
    /// Scope: charge.
    Charge,
    /// Scope: component temperature.
    ComponentTemperature,
    /// Scope: dc charge energy.
    DcChargeEnergy,
    /// Scope: dc current.
    DcCurrent,
    /// Scope: dc discharge energy.
    DcDischargeEnergy,
    /// Scope: dc energy.
    DcEnergy,
    /// Scope: dc power.
    DcPower,
    /// Scope: dc voltage.
    DcVoltage,
    /// Scope: dhw temperature.
    DhwTemperature,
    /// Scope: grid consumption.
    GridConsumption,
    /// Scope: grid feed in.
    GridFeedIn,
    /// Scope: insulation resistance.
    InsulationResistance,
    /// Scope: load cycle count.
    LoadCycleCount,
    /// Scope: outside air temperature.
    OutsideAirTemperature,
    /// Scope: room air temperature.
    RoomAirTemperature,
    /// Scope: state of charge.
    StateOfCharge,
    /// Scope: state of energy.
    StateOfEnergy,
    /// Scope: state of health.
    StateOfHealth,
    /// Scope: travel range.
    TravelRange,
    /// Scope: useable capacity.
    UseableCapacity,
    /// A value outside this list, by its place in the application's own table.
    Other(u32),
}

impl ScopeType {
    /// The value as it is written.
    pub open spec fn text(self) -> Seq<char> {
        match self {
            ScopeType::AcCosPhi => "acCosPhi"@,
            ScopeType::AcCurrent => "acCurrent"@,
            ScopeType::AcEnergyConsumed => "acEnergyConsumed"@,
            ScopeType::AcEnergyProduced => "acEnergyProduced"@,
            ScopeType::AcFrequency => "acFrequency"@,
            ScopeType::AcPower => "acPower"@,
            ScopeType::AcPowerApparent => "acPowerApparent"@,
            ScopeType::AcPowerApparentTotal => "acPowerApparentTotal"@,
            ScopeType::AcPowerReactive => "acPowerReactive"@,
            ScopeType::AcPowerReactiveTotal => "acPowerReactiveTotal"@,
            ScopeType::AcPowerTotal => "acPowerTotal"@,
            ScopeType::AcVoltage => "acVoltage"@,
            ScopeType::AcYieldDay => "acYieldDay"@,
            ScopeType::AcYieldMonth => "acYieldMonth"@,
            ScopeType::AcYieldTotal => "acYieldTotal"@,
            ScopeType::AcYieldYear => "acYieldYear"@,
            ScopeType::ActivePowerLimit => "activePowerLimit"@,
            ScopeType::Charge => "charge"@,
            ScopeType::ComponentTemperature => "componentTemperature"@,
            ScopeType::DcChargeEnergy => "dcChargeEnergy"@,
            ScopeType::DcCurrent => "dcCurrent"@,
            ScopeType::DcDischargeEnergy => "dcDischargeEnergy"@,
            ScopeType::DcEnergy => "dcEnergy"@,
            ScopeType::DcPower => "dcPower"@,
            ScopeType::DcVoltage => "dcVoltage"@,
            ScopeType::DhwTemperature => "dhwTemperature"@,
            ScopeType::GridConsumption => "gridConsumption"@,
            ScopeType::GridFeedIn => "gridFeedIn"@,
            ScopeType::InsulationResistance => "insulationResistance"@,
            ScopeType::LoadCycleCount => "loadCycleCount"@,
            ScopeType::OutsideAirTemperature => "outsideAirTemperature"@,
            ScopeType::RoomAirTemperature => "roomAirTemperature"@,
            ScopeType::StateOfCharge => "stateOfCharge"@,
            ScopeType::StateOfEnergy => "stateOfEnergy"@,
            ScopeType::StateOfHealth => "stateOfHealth"@,
            ScopeType::TravelRange => "travelRange"@,
            ScopeType::UseableCapacity => "useableCapacity"@,
            ScopeType::Other(_) => "other"@,
        }
    }

    /// The value as it is written; one outside the list is just `other`.
    pub fn as_str(self) -> (r: &'static str)
        ensures
            r@ == self.text(),
    {
        match self {
            ScopeType::AcCosPhi => "acCosPhi",
            ScopeType::AcCurrent => "acCurrent",
            ScopeType::AcEnergyConsumed => "acEnergyConsumed",
            ScopeType::AcEnergyProduced => "acEnergyProduced",
            ScopeType::AcFrequency => "acFrequency",
            ScopeType::AcPower => "acPower",
            ScopeType::AcPowerApparent => "acPowerApparent",
            ScopeType::AcPowerApparentTotal => "acPowerApparentTotal",
            ScopeType::AcPowerReactive => "acPowerReactive",
            ScopeType::AcPowerReactiveTotal => "acPowerReactiveTotal",
            ScopeType::AcPowerTotal => "acPowerTotal",
            ScopeType::AcVoltage => "acVoltage",
            ScopeType::AcYieldDay => "acYieldDay",
            ScopeType::AcYieldMonth => "acYieldMonth",
            ScopeType::AcYieldTotal => "acYieldTotal",
            ScopeType::AcYieldYear => "acYieldYear",
            ScopeType::ActivePowerLimit => "activePowerLimit",
            ScopeType::Charge => "charge",
            ScopeType::ComponentTemperature => "componentTemperature",
            ScopeType::DcChargeEnergy => "dcChargeEnergy",
            ScopeType::DcCurrent => "dcCurrent",
            ScopeType::DcDischargeEnergy => "dcDischargeEnergy",
            ScopeType::DcEnergy => "dcEnergy",
            ScopeType::DcPower => "dcPower",
            ScopeType::DcVoltage => "dcVoltage",
            ScopeType::DhwTemperature => "dhwTemperature",
            ScopeType::GridConsumption => "gridConsumption",
            ScopeType::GridFeedIn => "gridFeedIn",
            ScopeType::InsulationResistance => "insulationResistance",
            ScopeType::LoadCycleCount => "loadCycleCount",
            ScopeType::OutsideAirTemperature => "outsideAirTemperature",
            ScopeType::RoomAirTemperature => "roomAirTemperature",
            ScopeType::StateOfCharge => "stateOfCharge",
            ScopeType::StateOfEnergy => "stateOfEnergy",
            ScopeType::StateOfHealth => "stateOfHealth",
            ScopeType::TravelRange => "travelRange",
            ScopeType::UseableCapacity => "useableCapacity",
            ScopeType::Other(_) => "other",
        }
    }
}

/// How a setpoint is to be read.
#[derive(Clone, Copy, Debug, PartialEq, Eq, Structural, Hash)]
pub enum SetpointType {
    /// As an absolute value.
    ValueAbsolute,
    /// A value outside this list, by its place in the application's own table.
    Other(u32),
}

/// A system function of a heating, ventilation or cooling system.
#[derive(Clone, Copy, Debug, PartialEq, Eq, Structural, Hash)]
pub enum HvacSystemFunctionType {
    /// Hot water.
    Dhw,
    /// Room heating.
    Heating,
    /// Room cooling.
    Cooling,
    /// Ventilation.
    Ventilation,
    /// A value outside this list, by its place in the application's own table.
    Other(u32),
}

/// An operation mode of a system function.
#[derive(Clone, Copy, Debug, PartialEq, Eq, Structural, Hash)]
pub enum HvacOperationModeType {
    /// By its own schedule.
    Auto,
    /// On.
    On,
    /// Off.
    Off,
    /// Saving energy.
    Eco,
    /// A value outside this list, by its place in the application's own table.
    Other(u32),
}

/// A temporary process that overrides the operation mode.
#[derive(Clone, Copy, Debug, PartialEq, Eq, Structural, Hash)]
pub enum HvacOverrunType {
    /// A one-time hot water heating.
    OneTimeDhw,
    /// An evening of extended heating.
    Party,
    /// A value outside this list, by its place in the application's own table.
    Other(u32),
}

/// What an overrun is doing.
#[derive(Clone, Copy, Debug, PartialEq, Eq, Structural, Hash)]
pub enum HvacOverrunStatus {
    /// It was started.
    Active,
    /// It is under way.
    Running,
    /// It has just finished.
    Finished,
    /// It is not under way.
    Inactive,
    /// A value outside this list, by its place in the application's own table.
    Other(u32),
}

/// The type of a feature.
#[derive(Clone, Copy, Debug, PartialEq, Eq, Structural, Hash)]
pub enum FeatureType {
    /// Feature: DeviceClassification.
    DeviceClassification,
    /// Feature: DeviceConfiguration.
    DeviceConfiguration,
    /// Feature: DeviceDiagnosis.
    DeviceDiagnosis,
    /// Feature: ElectricalConnection.
    ElectricalConnection,
    /// Feature: Generic.
    Generic,
    /// Feature: HVAC.
    HVAC,
    /// Feature: LoadControl.
    LoadControl,
    /// Feature: Measurement.
    Measurement,
    /// Feature: NodeManagement.
    NodeManagement,
    /// Feature: Setpoint.
    Setpoint,
    /// A value outside this list, by its place in the application's own table.
    Other(u32),
}

/// The type of an entity.
#[derive(Clone, Copy, Debug, PartialEq, Eq, Structural, Hash)]
pub enum EntityType {
    /// Entity: Battery.
    Battery,
    /// Entity: BatterySystem.
    BatterySystem,
    /// Entity: CEM.
    CEM,
    /// Entity: Compressor.
    Compressor,
    /// Entity: DHWCircuit.
    DHWCircuit,
    /// Entity: EVSE.
    EVSE,
    /// Entity: GridConnectionPointOfPremises.
    GridConnectionPointOfPremises,
    /// Entity: GridGuard.
    GridGuard,
    /// Entity: HVACRoom.
    HVACRoom,
    /// Entity: HeatPumpAppliance.
    HeatPumpAppliance,
    /// Entity: Inverter.
    Inverter,
    /// Entity: PVSystem.
    PVSystem,
    /// Entity: SmartEnergyAppliance.
    SmartEnergyAppliance,
    /// Entity: SubMeterElectricity.
    SubMeterElectricity,
    /// Entity: TemperatureSensor.
    TemperatureSensor,
    /// A value outside this list, by its place in the application's own table.
    Other(u32),
}

/// A function: one kind of payload.
#[derive(Clone, Copy, Debug, PartialEq, Eq, Structural, Hash)]
pub enum Function {
    /// Function: device classification manufacturer data.
    DeviceClassificationManufacturerData,
    /// Function: device configuration key value description list data.
    DeviceConfigurationKeyValueDescriptionListData,
    /// Function: device configuration key value list data.
    DeviceConfigurationKeyValueListData,
    /// Function: device diagnosis heartbeat data.
    DeviceDiagnosisHeartbeatData,
    /// Function: device diagnosis state data.
    DeviceDiagnosisStateData,
    /// Function: electrical connection characteristic list data.
    ElectricalConnectionCharacteristicListData,
    /// Function: electrical connection description list data.
    ElectricalConnectionDescriptionListData,
    /// Function: electrical connection parameter description list data.
    ElectricalConnectionParameterDescriptionListData,
    /// Function: hvac operation mode description list data.
    HvacOperationModeDescriptionListData,
    /// Function: hvac overrun description list data.
    HvacOverrunDescriptionListData,
    /// Function: hvac overrun list data.
    HvacOverrunListData,
    /// Function: hvac system function description list data.
    HvacSystemFunctionDescriptionListData,
    /// Function: hvac system function list data.
    HvacSystemFunctionListData,
    /// Function: hvac system function operation mode relation list data.
    HvacSystemFunctionOperationModeRelationListData,
    /// Function: hvac system function setpoint relation list data.
    HvacSystemFunctionSetpointRelationListData,
    /// Function: load control limit description list data.
    LoadControlLimitDescriptionListData,
    /// Function: load control limit list data.
    LoadControlLimitListData,
    /// Function: measurement constraints list data.
    MeasurementConstraintsListData,
    /// Function: measurement description list data.
    MeasurementDescriptionListData,
    /// Function: measurement list data.
    MeasurementListData,
    /// Function: node management detailed discovery data.
    NodeManagementDetailedDiscoveryData,
    /// Function: setpoint constraints list data.
    SetpointConstraintsListData,
    /// Function: setpoint description list data.
    SetpointDescriptionListData,
    /// Function: setpoint list data.
    SetpointListData,
    /// A value outside this list, by its place in the application's own table.
    Other(u32),
}

/// Which side of a feature a device plays.
#[derive(Clone, Copy, Debug, PartialEq, Eq, Structural, Hash)]
pub enum Role {
    /// It asks.
    Client,
    /// It answers.
    Server,
}

/// A limit on the device that published it.
#[derive(Clone, Copy, Debug, PartialEq, Eq, Structural, Hash)]
pub struct LoadControlLimitId(pub u32);

/// A measurement on the device that published it.
#[derive(Clone, Copy, Debug, PartialEq, Eq, Structural, Hash)]
pub struct MeasurementId(pub u32);

/// A configuration key on the device that published it.
#[derive(Clone, Copy, Debug, PartialEq, Eq, Structural, Hash)]
pub struct DeviceConfigurationKeyId(pub u32);

/// An electrical connection on the device that published it.
#[derive(Clone, Copy, Debug, PartialEq, Eq, Structural, Hash)]
pub struct ElectricalConnectionId(pub u32);

/// A parameter of an electrical connection.
#[derive(Clone, Copy, Debug, PartialEq, Eq, Structural, Hash)]
pub struct ElectricalConnectionParameterId(pub u32);

/// A characteristic of an electrical connection.
#[derive(Clone, Copy, Debug, PartialEq, Eq, Structural, Hash)]
pub struct ElectricalConnectionCharacteristicId(pub u32);

/// A system function on the device that published it.
#[derive(Clone, Copy, Debug, PartialEq, Eq, Structural, Hash)]
pub struct HvacSystemFunctionId(pub u32);

/// An operation mode on the device that published it.
#[derive(Clone, Copy, Debug, PartialEq, Eq, Structural, Hash)]
pub struct HvacOperationModeId(pub u32);

/// An overrun on the device that published it.
#[derive(Clone, Copy, Debug, PartialEq, Eq, Structural, Hash)]
pub struct HvacOverrunId(pub u32);

/// A setpoint on the device that published it.
#[derive(Clone, Copy, Debug, PartialEq, Eq, Structural, Hash)]
pub struct SetpointId(pub u32);

/// The number of a message.
#[derive(Clone, Copy, Debug, PartialEq, Eq, Structural, Hash)]
pub struct MsgCounter(pub u64);

/// A write that waits for an answer.
#[derive(Clone, Copy, Debug, PartialEq, Eq, Structural, Hash)]
pub struct WriteToken(pub u64);

impl Key for Function {
    fn same(self, other: Function) -> (r: bool) {
        self == other
    }
}

impl Key for MeasurementId {
    fn same(self, other: MeasurementId) -> (r: bool) {
        self == other
    }
}

impl Key for HvacSystemFunctionId {
    fn same(self, other: HvacSystemFunctionId) -> (r: bool) {
        self == other
    }
}

impl Key for HvacOperationModeId {
    fn same(self, other: HvacOperationModeId) -> (r: bool) {
        self == other
    }
}

impl Key for HvacOverrunId {
    fn same(self, other: HvacOverrunId) -> (r: bool) {
        self == other
    }
}

impl Key for SetpointId {
    fn same(self, other: SetpointId) -> (r: bool) {
        self == other
    }
}

impl Key for DeviceConfigurationKeyId {
    fn same(self, other: DeviceConfigurationKeyId) -> (r: bool) {
        self == other
    }
}

/// The multiple of `unit` nearest to `value`; from the middle, the one farther from zero.
pub open spec fn nearest_multiple(value: int, unit: int) -> int {
    if value >= 0 {
        (2 * value + unit) / (2 * unit) * unit
    } else {
        -((2 * -value + unit) / (2 * unit) * unit)
    }
}

/// How many thousandths one digit at this decimal place is worth; thousandths are the finest.
pub open spec fn place_value(decimals: u8) -> int {
    if decimals == 0 {
        1000
    } else if decimals == 1 {
        100
    } else if decimals == 2 {
        10
    } else {
        1
    }
}

/// A number on the wire.
#[derive(Clone, Copy, Debug, PartialEq, Eq, Structural, Hash)]
pub enum ScaledNumber {
    /// A value, in thousandths.
    Value(i64),
    /// A number whose scale takes it out of every range that can be computed with.
    Overflow,
}

impl ScaledNumber {
    /// What a value becomes on the wire with so many decimals.
    pub open spec fn encoded(value: Number, decimals: u8) -> ScaledNumber {
        match value {
            Number::Finite(thousandths) => {
                let rounded = nearest_multiple(thousandths as int, place_value(decimals));
                if i64::MIN <= rounded <= i64::MAX {
                    ScaledNumber::Value(rounded as i64)
                } else {
                    ScaledNumber::Overflow
                }
            },
            _ => ScaledNumber::Overflow,
        }
    }

    /// The value a number on the wire stands for.
    pub open spec fn decoded(self) -> Option<Number> {
        match self {
            ScaledNumber::Value(thousandths) => Some(Number::Finite(thousandths)),
            ScaledNumber::Overflow => None,
        }
    }

    /// A value rounded to so many decimals, half away from zero.
    pub fn from_number(value: Number, decimals: u8) -> (r: ScaledNumber)
        ensures
            r == ScaledNumber::encoded(value, decimals),
    {
        match value {
            Number::Finite(thousandths) => {
                let unit: i128 = if decimals == 0 {
                    1000
                } else if decimals == 1 {
                    100
                } else if decimals == 2 {
                    10
                } else {
                    1
                };
                let rounded = round_to_multiple(thousandths as i128, unit);
                if -0x8000_0000_0000_0000 <= rounded && rounded <= 0x7fff_ffff_ffff_ffff {
                    ScaledNumber::Value(rounded as i64)
                } else {
                    ScaledNumber::Overflow
                }
            },
            _ => ScaledNumber::Overflow,
        }
    }

    /// The value, unless the scale is out of range.
    pub fn to_number(self) -> (r: Option<Number>)
        ensures
            r == self.decoded(),
    {
        match self {
            ScaledNumber::Value(thousandths) => Some(Number::Finite(thousandths)),
            ScaledNumber::Overflow => None,
        }
    }
}

/// The value of an optional number on the wire, where it is present and readable.
pub open spec fn readable(number: Option<ScaledNumber>) -> Option<Number> {
    match number {
        Some(number) => number.decoded(),
        None => None,
    }
}

/// The value of an optional number on the wire, where it is present and readable.
pub fn read_number(number: Option<ScaledNumber>) -> (r: Option<Number>)
    ensures
        r == readable(number),
{
    match number {
        Some(number) => number.to_number(),
        None => None,
    }
}

/// The multiple of `unit` nearest to `value`; from the middle, the one farther from zero.
pub fn round_to_multiple(value: i128, unit: i128) -> (r: i128)
    requires
        0 < unit <= 0x1_0000_0000_0000_0000,
        -0x1_0000_0000_0000_0000_0000 <= value <= 0x1_0000_0000_0000_0000_0000,
    ensures
        r == nearest_multiple(value as int, unit as int),
        value - unit <= r <= value + unit,
{
    let size: i128 = if value >= 0 {
        value
    } else {
        -value
    };
    let doubled: i128 = 2 * size + unit;
    let count: i128 = doubled / (2 * unit);
    proof {
        let (d, u) = (doubled as int, unit as int);
        vstd::arithmetic::div_mod::lemma_fundamental_div_mod(d, 2 * u);
        vstd::arithmetic::div_mod::lemma_mod_bound(d, 2 * u);
        assert((2 * u) * (d / (2 * u)) == 2 * (d / (2 * u) * u)) by (nonlinear_arith);
        vstd::arithmetic::div_mod::lemma_div_pos_is_pos(d, 2 * u);
        assert(0 <= d / (2 * u) * u <= size + u);
    }
    let rounded: i128 = count * unit;
    if value >= 0 {
        rounded
    } else {
        -rounded
    }
}

/// A point in time on the wire.
#[derive(Clone, Copy, Debug, PartialEq, Eq, Structural, Hash)]
pub enum AbsoluteOrRelativeTime {
    /// So long from now.
    Relative(Duration),
    /// An instant of the calendar, counted from the epoch.
    Absolute(Duration),
}

impl AbsoluteOrRelativeTime {
    /// The span, where the point is given relative to now.
    pub open spec fn span(self) -> Option<Duration> {
        match self {
            AbsoluteOrRelativeTime::Relative(span) => Some(span),
            AbsoluteOrRelativeTime::Absolute(_) => None,
        }
    }

    /// The span, where the point is given relative to now.
    pub fn as_duration(self) -> (r: Option<Duration>)
        ensures
            r == self.span(),
    {
        match self {
            AbsoluteOrRelativeTime::Relative(span) => Some(span),
            AbsoluteOrRelativeTime::Absolute(_) => None,
        }
    }
}

/// A period of time on the wire.
#[derive(Clone, Copy, Debug, PartialEq, Eq, Structural, Hash)]
pub struct TimePeriod {
    /// When it starts.
    pub start_time: Option<AbsoluteOrRelativeTime>,
    /// When it ends.
    pub end_time: Option<AbsoluteOrRelativeTime>,
}

/// The value of a device configuration key.
#[derive(Clone, Copy, Debug, PartialEq, Eq, Structural, Hash)]
pub struct DeviceConfigurationKeyValueValue {
    /// The value of a numeric key.
    pub scaled_number: Option<ScaledNumber>,
    /// The value of a key that is a span of time, where it could be read.
    pub duration: Option<Duration>,
}

/// What a limit is.
#[derive(Clone, Copy, Debug, PartialEq, Eq, Structural, Hash)]
pub struct LoadControlLimitDescriptionData {
    /// The `limitId` element.
    pub limit_id: Option<LoadControlLimitId>,
    /// The `limitType` element.
    pub limit_type: Option<LoadControlLimitType>,
    /// The `limitCategory` element.
    pub limit_category: Option<LoadControlCategory>,
    /// The `limitDirection` element.
    pub limit_direction: Option<EnergyDirection>,
    /// The `measurementId` element.
    pub measurement_id: Option<MeasurementId>,
    /// The `unit` element.
    pub unit: Option<UnitOfMeasurement>,
    /// The `scopeType` element.
    pub scope_type: Option<ScopeType>,
}

/// A limit.
#[derive(Clone, Copy, Debug, PartialEq, Eq, Structural, Hash)]
pub struct LoadControlLimitData {
    /// The `limitId` element.
    pub limit_id: Option<LoadControlLimitId>,
    /// The `isLimitChangeable` element.
    pub is_limit_changeable: Option<bool>,
    /// The `isLimitActive` element.
    pub is_limit_active: Option<bool>,
    /// The `timePeriod` element.
    pub time_period: Option<TimePeriod>,
    /// The `value` element.
    pub value: Option<ScaledNumber>,
}

/// What a configuration key is.
#[derive(Clone, Copy, Debug, PartialEq, Eq, Structural, Hash)]
pub struct DeviceConfigurationKeyValueDescriptionData {
    /// The `keyId` element.
    pub key_id: Option<DeviceConfigurationKeyId>,
    /// The `keyName` element.
    pub key_name: Option<DeviceConfigurationKeyName>,
    /// The `valueType` element.
    pub value_type: Option<DeviceConfigurationKeyValueType>,
    /// The `unit` element.
    pub unit: Option<UnitOfMeasurement>,
}

/// The value of a configuration key.
#[derive(Clone, Copy, Debug, PartialEq, Eq, Structural, Hash)]
pub struct DeviceConfigurationKeyValueData {
    /// The `keyId` element.
    pub key_id: Option<DeviceConfigurationKeyId>,
    /// The `value` element.
    pub value: Option<DeviceConfigurationKeyValueValue>,
    /// The `isValueChangeable` element.
    pub is_value_changeable: Option<bool>,
}

/// A characteristic of an electrical connection.
#[derive(Clone, Copy, Debug, PartialEq, Eq, Structural, Hash)]
pub struct ElectricalConnectionCharacteristicData {
    /// The `electricalConnectionId` element.
    pub electrical_connection_id: Option<ElectricalConnectionId>,
    /// The `parameterId` element.
    pub parameter_id: Option<ElectricalConnectionParameterId>,
    /// The `characteristicId` element.
    pub characteristic_id: Option<ElectricalConnectionCharacteristicId>,
    /// The `characteristicContext` element.
    pub characteristic_context: Option<ElectricalConnectionCharacteristicContext>,
    /// The `characteristicType` element.
    pub characteristic_type: Option<ElectricalConnectionCharacteristicType>,
    /// The `value` element.
    pub value: Option<ScaledNumber>,
    /// The `unit` element.
    pub unit: Option<UnitOfMeasurement>,
}

/// What an electrical connection is.
#[derive(Clone, Copy, Debug, PartialEq, Eq, Structural, Hash)]
pub struct ElectricalConnectionDescriptionData {
    /// The `electricalConnectionId` element.
    pub electrical_connection_id: Option<ElectricalConnectionId>,
    /// The `powerSupplyType` element.
    pub power_supply_type: Option<ElectricalConnectionVoltageType>,
    /// The `positiveEnergyDirection` element.
    pub positive_energy_direction: Option<EnergyDirection>,
}

/// Which measurement belongs to which phases of a connection.
#[derive(Clone, Copy, Debug, PartialEq, Eq, Structural, Hash)]
pub struct ElectricalConnectionParameterDescriptionData {
    /// The `electricalConnectionId` element.
    pub electrical_connection_id: Option<ElectricalConnectionId>,
    /// The `parameterId` element.
    pub parameter_id: Option<ElectricalConnectionParameterId>,
    /// The `measurementId` element.
    pub measurement_id: Option<MeasurementId>,
    /// The `voltageType` element.
    pub voltage_type: Option<ElectricalConnectionVoltageType>,
    /// The `acMeasuredPhases` element.
    pub ac_measured_phases: Option<ElectricalConnectionPhaseName>,
    /// The `scopeType` element.
    pub scope_type: Option<ScopeType>,
}

/// What a measurement is.
#[derive(Clone, Copy, Debug, PartialEq, Eq, Structural, Hash)]
pub struct MeasurementDescriptionData {
    /// The `measurementId` element.
    pub measurement_id: Option<MeasurementId>,
    /// The `measurementType` element.
    pub measurement_type: Option<MeasurementType>,
    /// The `commodityType` element.
    pub commodity_type: Option<CommodityType>,
    /// The `unit` element.
    pub unit: Option<UnitOfMeasurement>,
    /// The `scopeType` element.
    pub scope_type: Option<ScopeType>,
}

/// The range a measurement can report.
#[derive(Clone, Copy, Debug, PartialEq, Eq, Structural, Hash)]
pub struct MeasurementConstraintsData {
    /// The `measurementId` element.
    pub measurement_id: Option<MeasurementId>,
    /// The `valueRangeMin` element.
    pub value_range_min: Option<ScaledNumber>,
    /// The `valueRangeMax` element.
    pub value_range_max: Option<ScaledNumber>,
    /// The `valueStepSize` element.
    pub value_step_size: Option<ScaledNumber>,
}

/// A measurement.
#[derive(Clone, Copy, Debug, PartialEq, Eq, Hash)]
pub struct MeasurementData {
    /// The `measurementId` element.
    pub measurement_id: Option<MeasurementId>,
    /// The `valueType` element.
    pub value_type: Option<MeasurementValueType>,
    /// The `timestamp` element.
    pub timestamp: Option<AbsoluteOrRelativeTime>,
    /// The `value` element.
    pub value: Option<ScaledNumber>,
    /// The `valueSource` element.
    pub value_source: Option<MeasurementValueSource>,
    /// The `valueState` element.
    pub value_state: Option<MeasurementValueState>,
}

/// What a setpoint is.
#[derive(Clone, Copy, Debug, PartialEq, Eq, Structural, Hash)]
pub struct SetpointDescriptionData {
    /// The `setpointId` element.
    pub setpoint_id: Option<SetpointId>,
    /// The `measurementId` element.
    pub measurement_id: Option<MeasurementId>,
    /// The `setpointType` element.
    pub setpoint_type: Option<SetpointType>,
    /// The `unit` element.
    pub unit: Option<UnitOfMeasurement>,
    /// The `scopeType` element.
    pub scope_type: Option<ScopeType>,
}

/// What a setpoint accepts.
#[derive(Clone, Copy, Debug, PartialEq, Eq, Structural, Hash)]
pub struct SetpointConstraintsData {
    /// The `setpointId` element.
    pub setpoint_id: Option<SetpointId>,
    /// The `setpointRangeMin` element.
    pub setpoint_range_min: Option<ScaledNumber>,
    /// The `setpointRangeMax` element.
    pub setpoint_range_max: Option<ScaledNumber>,
    /// The `setpointStepSize` element.
    pub setpoint_step_size: Option<ScaledNumber>,
}

/// A setpoint.
#[derive(Clone, Copy, Debug, PartialEq, Eq, Structural, Hash)]
pub struct SetpointData {
    /// The `setpointId` element.
    pub setpoint_id: Option<SetpointId>,
    /// The `value` element.
    pub value: Option<ScaledNumber>,
    /// The `isSetpointChangeable` element.
    pub is_setpoint_changeable: Option<bool>,
}

/// What a system function is.
#[derive(Clone, Copy, Debug, PartialEq, Eq, Structural, Hash)]
pub struct HvacSystemFunctionDescriptionData {
    /// The `systemFunctionId` element.
    pub system_function_id: Option<HvacSystemFunctionId>,
    /// The `systemFunctionType` element.
    pub system_function_type: Option<HvacSystemFunctionType>,
}

/// What an operation mode is.
#[derive(Clone, Copy, Debug, PartialEq, Eq, Structural, Hash)]
pub struct HvacOperationModeDescriptionData {
    /// The `operationModeId` element.
    pub operation_mode_id: Option<HvacOperationModeId>,
    /// The `operationModeType` element.
    pub operation_mode_type: Option<HvacOperationModeType>,
}

/// The state of a system function.
#[derive(Clone, Copy, Debug, PartialEq, Eq, Structural, Hash)]
pub struct HvacSystemFunctionData {
    /// The `systemFunctionId` element.
    pub system_function_id: Option<HvacSystemFunctionId>,
    /// The `currentOperationModeId` element.
    pub current_operation_mode_id: Option<HvacOperationModeId>,
    /// The `isOperationModeIdChangeable` element.
    pub is_operation_mode_id_changeable: Option<bool>,
    /// The `isOverrunActive` element.
    pub is_overrun_active: Option<bool>,
}

/// The state of an overrun.
#[derive(Clone, Copy, Debug, PartialEq, Eq, Structural, Hash)]
pub struct HvacOverrunData {
    /// The `overrunId` element.
    pub overrun_id: Option<HvacOverrunId>,
    /// The `overrunStatus` element.
    pub overrun_status: Option<HvacOverrunStatus>,
}

/// The content of an optional list.
pub open spec fn listed<T>(list: Option<Vec<T>>) -> Option<Seq<T>> {
    match list {
        Some(entries) => Some(entries@),
        None => None,
    }
}

/// The content of an optional list whose entries hold lists themselves.
pub open spec fn listed_views<T: View>(list: Option<Vec<T>>) -> Option<Seq<T::V>> {
    match list {
        Some(entries) => Some(entries@.map_values(|entry: T| entry@)),
        None => None,
    }
}

/// The entries of an optional list; a list that is left out has none.
pub open spec fn entries_of<T>(list: Option<Seq<T>>) -> Seq<T> {
    match list {
        Some(entries) => entries,
        None => Seq::empty(),
    }
}

/// Which operation modes a system function has.
#[derive(Clone, Debug, PartialEq, Eq)]
pub struct HvacSystemFunctionOperationModeRelationData {
    /// The `systemFunctionId` element.
    pub system_function_id: Option<HvacSystemFunctionId>,
    /// The `operationModeId` element.
    pub operation_mode_id: Option<Vec<HvacOperationModeId>>,
}

/// The content of a [`HvacSystemFunctionOperationModeRelationData`].
pub struct ModeRelationEntry {
    /// The `systemFunctionId` element.
    pub system_function_id: Option<HvacSystemFunctionId>,
    /// The `operationModeId` element.
    pub operation_mode_id: Option<Seq<HvacOperationModeId>>,
}

impl View for HvacSystemFunctionOperationModeRelationData {
    type V = ModeRelationEntry;

    open spec fn view(&self) -> ModeRelationEntry {
        ModeRelationEntry {
            system_function_id: self.system_function_id,
            operation_mode_id: listed(self.operation_mode_id),
        }
    }
}

/// What an overrun is, and which system functions it affects.
#[derive(Clone, Debug, PartialEq, Eq)]
pub struct HvacOverrunDescriptionData {
    /// The `overrunId` element.
    pub overrun_id: Option<HvacOverrunId>,
    /// The `overrunType` element.
    pub overrun_type: Option<HvacOverrunType>,
    /// The `affectedSystemFunctionId` element.
    pub affected_system_function_id: Option<Vec<HvacSystemFunctionId>>,
}

/// The content of a [`HvacOverrunDescriptionData`].
pub struct OverrunEntry {
    /// The `overrunId` element.
    pub overrun_id: Option<HvacOverrunId>,
    /// The `overrunType` element.
    pub overrun_type: Option<HvacOverrunType>,
    /// The `affectedSystemFunctionId` element.
    pub affected_system_function_id: Option<Seq<HvacSystemFunctionId>>,
}

impl View for HvacOverrunDescriptionData {
    type V = OverrunEntry;

    open spec fn view(&self) -> OverrunEntry {
        OverrunEntry {
            overrun_id: self.overrun_id,
            overrun_type: self.overrun_type,
            affected_system_function_id: listed(self.affected_system_function_id),
        }
    }
}

/// Which setpoints an operation mode of a system function uses.
#[derive(Clone, Debug, PartialEq, Eq)]
pub struct HvacSystemFunctionSetpointRelationData {
    /// The `systemFunctionId` element.
    pub system_function_id: Option<HvacSystemFunctionId>,
    /// The `operationModeId` element.
    pub operation_mode_id: Option<HvacOperationModeId>,
    /// The `setpointId` element.
    pub setpoint_id: Option<Vec<SetpointId>>,
}

/// The content of a [`HvacSystemFunctionSetpointRelationData`].
pub struct SetpointRelationEntry {
    /// The `systemFunctionId` element.
    pub system_function_id: Option<HvacSystemFunctionId>,
    /// The `operationModeId` element.
    pub operation_mode_id: Option<HvacOperationModeId>,
    /// The `setpointId` element.
    pub setpoint_id: Option<Seq<SetpointId>>,
}

impl View for HvacSystemFunctionSetpointRelationData {
    type V = SetpointRelationEntry;

    open spec fn view(&self) -> SetpointRelationEntry {
        SetpointRelationEntry {
            system_function_id: self.system_function_id,
            operation_mode_id: self.operation_mode_id,
            setpoint_id: listed(self.setpoint_id),
        }
    }
}

/// A list of [`DeviceConfigurationKeyValueDescriptionData`].
#[derive(Clone, Debug, PartialEq, Eq)]
pub struct DeviceConfigurationKeyValueDescriptionListData {
    /// The entries.
    pub device_configuration_key_value_description_data: Option<
        Vec<DeviceConfigurationKeyValueDescriptionData>,
    >,
}

/// A list of [`DeviceConfigurationKeyValueData`].
#[derive(Clone, Debug, PartialEq, Eq)]
pub struct DeviceConfigurationKeyValueListData {
    /// The entries.
    pub device_configuration_key_value_data: Option<Vec<DeviceConfigurationKeyValueData>>,
}

/// A list of [`ElectricalConnectionCharacteristicData`].
#[derive(Clone, Debug, PartialEq, Eq)]
pub struct ElectricalConnectionCharacteristicListData {
    /// The entries.
    pub electrical_connection_characteristic_data: Option<
        Vec<ElectricalConnectionCharacteristicData>,
    >,
}

/// A list of [`ElectricalConnectionDescriptionData`].
#[derive(Clone, Debug, PartialEq, Eq)]
pub struct ElectricalConnectionDescriptionListData {
    /// The entries.
    pub electrical_connection_description_data: Option<Vec<ElectricalConnectionDescriptionData>>,
}

/// A list of [`ElectricalConnectionParameterDescriptionData`].
#[derive(Clone, Debug, PartialEq, Eq)]
pub struct ElectricalConnectionParameterDescriptionListData {
    /// The entries.
    pub electrical_connection_parameter_description_data: Option<
        Vec<ElectricalConnectionParameterDescriptionData>,
    >,
}

/// A list of [`HvacOperationModeDescriptionData`].
#[derive(Clone, Debug, PartialEq, Eq)]
pub struct HvacOperationModeDescriptionListData {
    /// The entries.
    pub hvac_operation_mode_description_data: Option<Vec<HvacOperationModeDescriptionData>>,
}

/// A list of [`HvacOverrunDescriptionData`].
#[derive(Clone, Debug, PartialEq, Eq)]
pub struct HvacOverrunDescriptionListData {
    /// The entries.
    pub hvac_overrun_description_data: Option<Vec<HvacOverrunDescriptionData>>,
}

/// A list of [`HvacOverrunData`].
#[derive(Clone, Debug, PartialEq, Eq)]
pub struct HvacOverrunListData {
    /// The entries.
    pub hvac_overrun_data: Option<Vec<HvacOverrunData>>,
}

/// A list of [`HvacSystemFunctionDescriptionData`].
#[derive(Clone, Debug, PartialEq, Eq)]
pub struct HvacSystemFunctionDescriptionListData {
    /// The entries.
    pub hvac_system_function_description_data: Option<Vec<HvacSystemFunctionDescriptionData>>,
}

/// A list of [`HvacSystemFunctionData`].
#[derive(Clone, Debug, PartialEq, Eq)]
pub struct HvacSystemFunctionListData {
    /// The entries.
    pub hvac_system_function_data: Option<Vec<HvacSystemFunctionData>>,
}

/// A list of [`HvacSystemFunctionOperationModeRelationData`].
#[derive(Clone, Debug, PartialEq, Eq)]
pub struct HvacSystemFunctionOperationModeRelationListData {
    /// The entries.
    pub hvac_system_function_operation_mode_relation_data: Option<
        Vec<HvacSystemFunctionOperationModeRelationData>,
    >,
}

/// A list of [`HvacSystemFunctionSetpointRelationData`].
#[derive(Clone, Debug, PartialEq, Eq)]
pub struct HvacSystemFunctionSetpointRelationListData {
    /// The entries.
    pub hvac_system_function_setpoint_relation_data: Option<
        Vec<HvacSystemFunctionSetpointRelationData>,
    >,
}

/// A list of [`LoadControlLimitDescriptionData`].
#[derive(Clone, Debug, PartialEq, Eq)]
pub struct LoadControlLimitDescriptionListData {
    /// The entries.
    pub load_control_limit_description_data: Option<Vec<LoadControlLimitDescriptionData>>,
}

/// A list of [`LoadControlLimitData`].
#[derive(Clone, Debug, PartialEq, Eq)]
pub struct LoadControlLimitListData {
    /// The entries.
    pub load_control_limit_data: Option<Vec<LoadControlLimitData>>,
}

/// A list of [`MeasurementConstraintsData`].
#[derive(Clone, Debug, PartialEq, Eq)]
pub struct MeasurementConstraintsListData {
    /// The entries.
    pub measurement_constraints_data: Option<Vec<MeasurementConstraintsData>>,
}

/// A list of [`MeasurementDescriptionData`].
#[derive(Clone, Debug, PartialEq, Eq)]
pub struct MeasurementDescriptionListData {
    /// The entries.
    pub measurement_description_data: Option<Vec<MeasurementDescriptionData>>,
}

/// A list of [`MeasurementData`].
#[derive(Clone, Debug, PartialEq, Eq)]
pub struct MeasurementListData {
    /// The entries.
    pub measurement_data: Option<Vec<MeasurementData>>,
}

/// A list of [`SetpointConstraintsData`].
#[derive(Clone, Debug, PartialEq, Eq)]
pub struct SetpointConstraintsListData {
    /// The entries.
    pub setpoint_constraints_data: Option<Vec<SetpointConstraintsData>>,
}

/// A list of [`SetpointDescriptionData`].
#[derive(Clone, Debug, PartialEq, Eq)]
pub struct SetpointDescriptionListData {
    /// The entries.
    pub setpoint_description_data: Option<Vec<SetpointDescriptionData>>,
}

/// A list of [`SetpointData`].
#[derive(Clone, Debug, PartialEq, Eq)]
pub struct SetpointListData {
    /// The entries.
    pub setpoint_data: Option<Vec<SetpointData>>,
}

/// A heartbeat.
#[derive(Clone, Debug, PartialEq, Eq)]
pub struct DeviceDiagnosisHeartbeatData {
    /// When it was sent.
    pub timestamp: Option<String>,
    /// Which one it is.
    pub heartbeat_counter: Option<u64>,
    /// How soon the next one follows.
    pub heartbeat_timeout: Option<Duration>,
}

/// The content of a [`DeviceDiagnosisHeartbeatData`].
pub struct HeartbeatEntry {
    /// When it was sent.
    pub timestamp: Option<Seq<char>>,
    /// Which one it is.
    pub heartbeat_counter: Option<u64>,
    /// How soon the next one follows.
    pub heartbeat_timeout: Option<Duration>,
}

impl View for DeviceDiagnosisHeartbeatData {
    type V = HeartbeatEntry;

    open spec fn view(&self) -> HeartbeatEntry {
        HeartbeatEntry {
            timestamp: match self.timestamp {
                Some(timestamp) => Some(timestamp@),
                None => None,
            },
            heartbeat_counter: self.heartbeat_counter,
            heartbeat_timeout: self.heartbeat_timeout,
        }
    }
}

/// One payload.
#[derive(Clone, Debug, PartialEq, Eq)]
pub enum CmdData {
    /// A heartbeat.
    DeviceDiagnosisHeartbeatData(DeviceDiagnosisHeartbeatData),
    /// See [`DeviceConfigurationKeyValueDescriptionData`].
    DeviceConfigurationKeyValueDescriptionListData(DeviceConfigurationKeyValueDescriptionListData),
    /// See [`DeviceConfigurationKeyValueData`].
    DeviceConfigurationKeyValueListData(DeviceConfigurationKeyValueListData),
    /// See [`ElectricalConnectionCharacteristicData`].
    ElectricalConnectionCharacteristicListData(ElectricalConnectionCharacteristicListData),
    /// See [`ElectricalConnectionDescriptionData`].
    ElectricalConnectionDescriptionListData(ElectricalConnectionDescriptionListData),
    /// See [`ElectricalConnectionParameterDescriptionData`].
    ElectricalConnectionParameterDescriptionListData(
        ElectricalConnectionParameterDescriptionListData,
    ),
    /// See [`HvacOperationModeDescriptionData`].
    HvacOperationModeDescriptionListData(HvacOperationModeDescriptionListData),
    /// See [`HvacOverrunDescriptionData`].
    HvacOverrunDescriptionListData(HvacOverrunDescriptionListData),
    /// See [`HvacOverrunData`].
    HvacOverrunListData(HvacOverrunListData),
    /// See [`HvacSystemFunctionDescriptionData`].
    HvacSystemFunctionDescriptionListData(HvacSystemFunctionDescriptionListData),
    /// See [`HvacSystemFunctionData`].
    HvacSystemFunctionListData(HvacSystemFunctionListData),
    /// See [`HvacSystemFunctionOperationModeRelationData`].
    HvacSystemFunctionOperationModeRelationListData(
        HvacSystemFunctionOperationModeRelationListData,
    ),
    /// See [`HvacSystemFunctionSetpointRelationData`].
    HvacSystemFunctionSetpointRelationListData(HvacSystemFunctionSetpointRelationListData),
    /// See [`LoadControlLimitDescriptionData`].
    LoadControlLimitDescriptionListData(LoadControlLimitDescriptionListData),
    /// See [`LoadControlLimitData`].
    LoadControlLimitListData(LoadControlLimitListData),
    /// See [`MeasurementConstraintsData`].
    MeasurementConstraintsListData(MeasurementConstraintsListData),
    /// See [`MeasurementDescriptionData`].
    MeasurementDescriptionListData(MeasurementDescriptionListData),
    /// See [`MeasurementData`].
    MeasurementListData(MeasurementListData),
    /// See [`SetpointConstraintsData`].
    SetpointConstraintsListData(SetpointConstraintsListData),
    /// See [`SetpointDescriptionData`].
    SetpointDescriptionListData(SetpointDescriptionListData),
    /// See [`SetpointData`].
    SetpointListData(SetpointListData),
    /// A payload of a function that no use case here reads.
    Other(Function),
}

/// The content of a [`CmdData`].
pub enum Payload {
    /// A heartbeat.
    DeviceDiagnosisHeartbeatData(HeartbeatEntry),
    /// See [`DeviceConfigurationKeyValueDescriptionData`].
    DeviceConfigurationKeyValueDescriptionListData(
        Option<Seq<DeviceConfigurationKeyValueDescriptionData>>,
    ),
    /// See [`DeviceConfigurationKeyValueData`].
    DeviceConfigurationKeyValueListData(Option<Seq<DeviceConfigurationKeyValueData>>),
    /// See [`ElectricalConnectionCharacteristicData`].
    ElectricalConnectionCharacteristicListData(Option<Seq<ElectricalConnectionCharacteristicData>>),
    /// See [`ElectricalConnectionDescriptionData`].
    ElectricalConnectionDescriptionListData(Option<Seq<ElectricalConnectionDescriptionData>>),
    /// See [`ElectricalConnectionParameterDescriptionData`].
    ElectricalConnectionParameterDescriptionListData(
        Option<Seq<ElectricalConnectionParameterDescriptionData>>,
    ),
    /// See [`HvacOperationModeDescriptionData`].
    HvacOperationModeDescriptionListData(Option<Seq<HvacOperationModeDescriptionData>>),
    /// See [`HvacOverrunDescriptionData`].
    HvacOverrunDescriptionListData(Option<Seq<OverrunEntry>>),
    /// See [`HvacOverrunData`].
    HvacOverrunListData(Option<Seq<HvacOverrunData>>),
    /// See [`HvacSystemFunctionDescriptionData`].
    HvacSystemFunctionDescriptionListData(Option<Seq<HvacSystemFunctionDescriptionData>>),
    /// See [`HvacSystemFunctionData`].
    HvacSystemFunctionListData(Option<Seq<HvacSystemFunctionData>>),
    /// See [`HvacSystemFunctionOperationModeRelationData`].
    HvacSystemFunctionOperationModeRelationListData(Option<Seq<ModeRelationEntry>>),
    /// See [`HvacSystemFunctionSetpointRelationData`].
    HvacSystemFunctionSetpointRelationListData(Option<Seq<SetpointRelationEntry>>),
    /// See [`LoadControlLimitDescriptionData`].
    LoadControlLimitDescriptionListData(Option<Seq<LoadControlLimitDescriptionData>>),
    /// See [`LoadControlLimitData`].
    LoadControlLimitListData(Option<Seq<LoadControlLimitData>>),
    /// See [`MeasurementConstraintsData`].
    MeasurementConstraintsListData(Option<Seq<MeasurementConstraintsData>>),
    /// See [`MeasurementDescriptionData`].
    MeasurementDescriptionListData(Option<Seq<MeasurementDescriptionData>>),
    /// See [`MeasurementData`].
    MeasurementListData(Option<Seq<MeasurementData>>),
    /// See [`SetpointConstraintsData`].
    SetpointConstraintsListData(Option<Seq<SetpointConstraintsData>>),
    /// See [`SetpointDescriptionData`].
    SetpointDescriptionListData(Option<Seq<SetpointDescriptionData>>),
    /// See [`SetpointData`].
    SetpointListData(Option<Seq<SetpointData>>),
    /// A payload of a function that no use case here reads.
    Other(Function),
}

impl View for CmdData {
    type V = Payload;

    open spec fn view(&self) -> Payload {
        match *self {
            CmdData::DeviceDiagnosisHeartbeatData(data) => Payload::DeviceDiagnosisHeartbeatData(
                data@,
            ),
            CmdData::DeviceConfigurationKeyValueDescriptionListData(list) =>
                Payload::DeviceConfigurationKeyValueDescriptionListData(
                listed(list.device_configuration_key_value_description_data),
            ),
            CmdData::DeviceConfigurationKeyValueListData(list) =>
                Payload::DeviceConfigurationKeyValueListData(
                listed(list.device_configuration_key_value_data),
            ),
            CmdData::ElectricalConnectionCharacteristicListData(list) =>
                Payload::ElectricalConnectionCharacteristicListData(
                listed(list.electrical_connection_characteristic_data),
            ),
            CmdData::ElectricalConnectionDescriptionListData(list) =>
                Payload::ElectricalConnectionDescriptionListData(
                listed(list.electrical_connection_description_data),
            ),
            CmdData::ElectricalConnectionParameterDescriptionListData(list) =>
                Payload::ElectricalConnectionParameterDescriptionListData(
                listed(list.electrical_connection_parameter_description_data),
            ),
            CmdData::HvacOperationModeDescriptionListData(list) =>
                Payload::HvacOperationModeDescriptionListData(
                listed(list.hvac_operation_mode_description_data),
            ),
            CmdData::HvacOverrunDescriptionListData(list) =>
                Payload::HvacOverrunDescriptionListData(
                listed_views(list.hvac_overrun_description_data),
            ),
            CmdData::HvacOverrunListData(list) => Payload::HvacOverrunListData(
                listed(list.hvac_overrun_data),
            ),
            CmdData::HvacSystemFunctionDescriptionListData(list) =>
                Payload::HvacSystemFunctionDescriptionListData(
                listed(list.hvac_system_function_description_data),
            ),
            CmdData::HvacSystemFunctionListData(list) => Payload::HvacSystemFunctionListData(
                listed(list.hvac_system_function_data),
            ),
            CmdData::HvacSystemFunctionOperationModeRelationListData(list) =>
                Payload::HvacSystemFunctionOperationModeRelationListData(
                listed_views(list.hvac_system_function_operation_mode_relation_data),
            ),
            CmdData::HvacSystemFunctionSetpointRelationListData(list) =>
                Payload::HvacSystemFunctionSetpointRelationListData(
                listed_views(list.hvac_system_function_setpoint_relation_data),
            ),
            CmdData::LoadControlLimitDescriptionListData(list) =>
                Payload::LoadControlLimitDescriptionListData(
                listed(list.load_control_limit_description_data),
            ),
            CmdData::LoadControlLimitListData(list) => Payload::LoadControlLimitListData(
                listed(list.load_control_limit_data),
            ),
            CmdData::MeasurementConstraintsListData(list) =>
                Payload::MeasurementConstraintsListData(
                listed(list.measurement_constraints_data),
            ),
            CmdData::MeasurementDescriptionListData(list) =>
                Payload::MeasurementDescriptionListData(
                listed(list.measurement_description_data),
            ),
            CmdData::MeasurementListData(list) => Payload::MeasurementListData(
                listed(list.measurement_data),
            ),
            CmdData::SetpointConstraintsListData(list) => Payload::SetpointConstraintsListData(
                listed(list.setpoint_constraints_data),
            ),
            CmdData::SetpointDescriptionListData(list) => Payload::SetpointDescriptionListData(
                listed(list.setpoint_description_data),
            ),
            CmdData::SetpointListData(list) => Payload::SetpointListData(
                listed(list.setpoint_data),
            ),
            CmdData::Other(function) => Payload::Other(function),
        }
    }
}

} // verus!
