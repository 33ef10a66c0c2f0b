//! What can be measured, and on which phases.

use crate::model::{
    CommodityType, ElectricalConnectionPhaseName, MeasurementType, ScopeType, UnitOfMeasurement,
};
use crate::number::Number;
use vstd::prelude::*;

verus! {

/// A physical quantity.
#[derive(Clone, Copy, Debug, PartialEq, Eq, Structural, Hash, PartialOrd, Ord)]
pub enum Quantity {
    /// Active power.
    Power,
    /// Energy drawn.
    EnergyConsumed,
    /// Energy fed in.
    EnergyProduced,
    /// Current.
    Current,
    /// Voltage.
    Voltage,
    /// Frequency.
    Frequency,
    /// Energy charged into a vehicle.
    EnergyCharged,
    /// State of charge.
    StateOfCharge,
    /// State of health.
    StateOfHealth,
    /// Travel range.
    TravelRange,
    /// Apparent power.
    ApparentPower,
    /// Reactive power.
    ReactivePower,
    /// Power factor.
    PowerFactor,
    /// Yield of the day.
    YieldDay,
    /// Yield of the month.
    YieldMonth,
    /// Yield of the year.
    YieldYear,
    /// Yield since the beginning.
    YieldTotal,
    /// Temperature of a component.
    Temperature,
    /// Temperature of the hot water.
    DhwTemperature,
    /// Temperature of a room.
    RoomTemperature,
    /// Temperature outdoors.
    OutdoorTemperature,
    /// Direct-current power.
    DcPower,
    /// Direct current.
    DcCurrent,
    /// Direct-current voltage.
    DcVoltage,
    /// Direct-current energy.
    DcEnergy,
    /// Energy charged into a battery.
    DcChargeEnergy,
    /// Energy discharged from a battery.
    DcDischargeEnergy,
    /// Energy in a battery.
    StateOfEnergy,
    /// Usable capacity of a battery.
    UsableCapacity,
    /// Load cycles of a battery.
    LoadCycleCount,
    /// Insulation resistance.
    InsulationResistance,
}

impl Quantity {
    /// The kind of measurement it is.
    pub open spec fn kind(self) -> MeasurementType {
        match self {
            Quantity::Power
            | Quantity::ApparentPower
            | Quantity::ReactivePower
            | Quantity::DcPower => MeasurementType::Power,
            Quantity::EnergyConsumed
            | Quantity::EnergyProduced
            | Quantity::EnergyCharged
            | Quantity::YieldDay
            | Quantity::YieldMonth
            | Quantity::YieldYear
            | Quantity::YieldTotal
            | Quantity::DcEnergy
            | Quantity::DcChargeEnergy
            | Quantity::DcDischargeEnergy
            | Quantity::StateOfEnergy => MeasurementType::Energy,
            Quantity::Current
            | Quantity::DcCurrent => MeasurementType::Current,
            Quantity::Voltage
            | Quantity::DcVoltage => MeasurementType::Voltage,
            Quantity::Frequency => MeasurementType::Frequency,
            Quantity::StateOfCharge
            | Quantity::StateOfHealth => MeasurementType::Percentage,
            Quantity::TravelRange => MeasurementType::Distance,
            Quantity::PowerFactor => MeasurementType::PowerFactor,
            Quantity::Temperature
            | Quantity::DhwTemperature
            | Quantity::RoomTemperature
            | Quantity::OutdoorTemperature => MeasurementType::Temperature,
            Quantity::UsableCapacity => MeasurementType::Capacity,
            Quantity::LoadCycleCount => MeasurementType::Count,
            Quantity::InsulationResistance => MeasurementType::Resistance,
        }
    }

    /// The unit it is measured in.
    pub open spec fn measured_in(self) -> UnitOfMeasurement {
        match self {
            Quantity::Power
            | Quantity::DcPower => UnitOfMeasurement::W,
            Quantity::EnergyConsumed
            | Quantity::EnergyProduced
            | Quantity::EnergyCharged
            | Quantity::YieldDay
            | Quantity::YieldMonth
            | Quantity::YieldYear
            | Quantity::YieldTotal
            | Quantity::DcEnergy
            | Quantity::DcChargeEnergy
            | Quantity::DcDischargeEnergy
            | Quantity::StateOfEnergy
            | Quantity::UsableCapacity => UnitOfMeasurement::Wh,
            Quantity::Current
            | Quantity::DcCurrent => UnitOfMeasurement::A,
            Quantity::Voltage
            | Quantity::DcVoltage => UnitOfMeasurement::V,
            Quantity::Frequency => UnitOfMeasurement::Hz,
            Quantity::StateOfCharge
            | Quantity::StateOfHealth => UnitOfMeasurement::Pct,
            Quantity::TravelRange => UnitOfMeasurement::M,
            Quantity::ApparentPower => UnitOfMeasurement::VA,
            Quantity::ReactivePower => UnitOfMeasurement::Var,
            Quantity::PowerFactor
            | Quantity::LoadCycleCount => UnitOfMeasurement::V1,
            Quantity::Temperature
            | Quantity::DhwTemperature
            | Quantity::RoomTemperature
            | Quantity::OutdoorTemperature => UnitOfMeasurement::DegC,
            Quantity::InsulationResistance => UnitOfMeasurement::Ohm,
        }
    }

    /// The range that the quantity has by its nature.
    pub open spec fn bounds(self) -> Option<(Number, Number)> {
        match self {
            Quantity::StateOfCharge | Quantity::StateOfHealth => Some(
                (Number::Finite(0), Number::Finite(100_000)),
            ),
            Quantity::TravelRange | Quantity::EnergyCharged => Some(
                (Number::Finite(0), Number::Finite(i64::MAX)),
            ),
            _ => None,
        }
    }

    /// The `measurementType` of the quantity.
    pub fn measurement_type(self) -> (r: MeasurementType)
        ensures
            r == self.kind(),
    {
        match self {
            Quantity::Power
            | Quantity::ApparentPower
            | Quantity::ReactivePower
            | Quantity::DcPower => MeasurementType::Power,
            Quantity::EnergyConsumed
            | Quantity::EnergyProduced
            | Quantity::EnergyCharged
            | Quantity::YieldDay
            | Quantity::YieldMonth
            | Quantity::YieldYear
            | Quantity::YieldTotal
            | Quantity::DcEnergy
            | Quantity::DcChargeEnergy
            | Quantity::DcDischargeEnergy
            | Quantity::StateOfEnergy => MeasurementType::Energy,
            Quantity::Current
            | Quantity::DcCurrent => MeasurementType::Current,
            Quantity::Voltage
            | Quantity::DcVoltage => MeasurementType::Voltage,
            Quantity::Frequency => MeasurementType::Frequency,
            Quantity::StateOfCharge
            | Quantity::StateOfHealth => MeasurementType::Percentage,
            Quantity::TravelRange => MeasurementType::Distance,
            Quantity::PowerFactor => MeasurementType::PowerFactor,
            Quantity::Temperature
            | Quantity::DhwTemperature
            | Quantity::RoomTemperature
            | Quantity::OutdoorTemperature => MeasurementType::Temperature,
            Quantity::UsableCapacity => MeasurementType::Capacity,
            Quantity::LoadCycleCount => MeasurementType::Count,
            Quantity::InsulationResistance => MeasurementType::Resistance,
        }
    }

    /// The unit the quantity is measured in.
    pub fn unit(self) -> (r: UnitOfMeasurement)
        ensures
            r == self.measured_in(),
    {
        match self {
            Quantity::Power
            | Quantity::DcPower => UnitOfMeasurement::W,
            Quantity::EnergyConsumed
            | Quantity::EnergyProduced
            | Quantity::EnergyCharged
            | Quantity::YieldDay
            | Quantity::YieldMonth
            | Quantity::YieldYear
            | Quantity::YieldTotal
            | Quantity::DcEnergy
            | Quantity::DcChargeEnergy
            | Quantity::DcDischargeEnergy
            | Quantity::StateOfEnergy
            | Quantity::UsableCapacity => UnitOfMeasurement::Wh,
            Quantity::Current
            | Quantity::DcCurrent => UnitOfMeasurement::A,
            Quantity::Voltage
            | Quantity::DcVoltage => UnitOfMeasurement::V,
            Quantity::Frequency => UnitOfMeasurement::Hz,
            Quantity::StateOfCharge
            | Quantity::StateOfHealth => UnitOfMeasurement::Pct,
            Quantity::TravelRange => UnitOfMeasurement::M,
            Quantity::ApparentPower => UnitOfMeasurement::VA,
            Quantity::ReactivePower => UnitOfMeasurement::Var,
            Quantity::PowerFactor
            | Quantity::LoadCycleCount => UnitOfMeasurement::V1,
            Quantity::Temperature
            | Quantity::DhwTemperature
            | Quantity::RoomTemperature
            | Quantity::OutdoorTemperature => UnitOfMeasurement::DegC,
            Quantity::InsulationResistance => UnitOfMeasurement::Ohm,
        }
    }

    /// The range that the quantity has by its nature, where it has one: a share lies between
    /// none and all, a distance or an amount of energy is not negative.
    pub fn natural_range(self) -> (r: Option<(Number, Number)>)
        ensures
            r == self.bounds(),
    {
        match self {
            Quantity::StateOfCharge | Quantity::StateOfHealth => Some(
                (Number::Finite(0), Number::Finite(100_000)),
            ),
            Quantity::TravelRange | Quantity::EnergyCharged => Some(
                (Number::Finite(0), Number::Finite(i64::MAX)),
            ),
            _ => None,
        }
    }
}

/// What is measured: a quantity, on some phases. A measurement that is not of alternating current
/// has none.
#[derive(Clone, Copy, Debug, PartialEq, Eq, Structural, Hash)]
pub struct Measurand {
    /// The quantity.
    pub quantity: Quantity,
    /// The phases.
    pub phases: Option<ElectricalConnectionPhaseName>,
}

impl Measurand {
    /// Whether it covers everything there is rather than one phase.
    pub open spec fn whole(self) -> bool {
        match self.phases {
            Some(phases) => phases == ElectricalConnectionPhaseName::Abc,
            None => true,
        }
    }

    /// What is measured: hot water, air, or electricity.
    pub open spec fn commodity(self) -> CommodityType {
        match self.quantity {
            Quantity::DhwTemperature => CommodityType::DomesticHotWater,
            Quantity::RoomTemperature | Quantity::OutdoorTemperature => CommodityType::Air,
            _ => CommodityType::Electricity,
        }
    }

    /// The scope, seen from the appliance.
    pub open spec fn scope(self) -> ScopeType {
        match self.quantity {
            Quantity::Power => if self.whole() {
                ScopeType::AcPowerTotal
            } else {
                ScopeType::AcPower
            },
            Quantity::EnergyConsumed => ScopeType::AcEnergyConsumed,
            Quantity::EnergyProduced => ScopeType::AcEnergyProduced,
            Quantity::Current => ScopeType::AcCurrent,
            Quantity::Voltage => ScopeType::AcVoltage,
            Quantity::Frequency => ScopeType::AcFrequency,
            Quantity::EnergyCharged => ScopeType::Charge,
            Quantity::StateOfCharge => ScopeType::StateOfCharge,
            Quantity::StateOfHealth => ScopeType::StateOfHealth,
            Quantity::TravelRange => ScopeType::TravelRange,
            Quantity::ApparentPower => if self.whole() {
                ScopeType::AcPowerApparentTotal
            } else {
                ScopeType::AcPowerApparent
            },
            Quantity::ReactivePower => if self.whole() {
                ScopeType::AcPowerReactiveTotal
            } else {
                ScopeType::AcPowerReactive
            },
            Quantity::PowerFactor => ScopeType::AcCosPhi,
            Quantity::YieldDay => ScopeType::AcYieldDay,
            Quantity::YieldMonth => ScopeType::AcYieldMonth,
            Quantity::YieldYear => ScopeType::AcYieldYear,
            Quantity::YieldTotal => ScopeType::AcYieldTotal,
            Quantity::Temperature => ScopeType::ComponentTemperature,
            Quantity::DhwTemperature => ScopeType::DhwTemperature,
            Quantity::RoomTemperature => ScopeType::RoomAirTemperature,
            Quantity::OutdoorTemperature => ScopeType::OutsideAirTemperature,
            Quantity::DcPower => ScopeType::DcPower,
            Quantity::DcCurrent => ScopeType::DcCurrent,
            Quantity::DcVoltage => ScopeType::DcVoltage,
            Quantity::DcEnergy => ScopeType::DcEnergy,
            Quantity::DcChargeEnergy => ScopeType::DcChargeEnergy,
            Quantity::DcDischargeEnergy => ScopeType::DcDischargeEnergy,
            Quantity::StateOfEnergy => ScopeType::StateOfEnergy,
            Quantity::UsableCapacity => ScopeType::UseableCapacity,
            Quantity::LoadCycleCount => ScopeType::LoadCycleCount,
            Quantity::InsulationResistance => ScopeType::InsulationResistance,
        }
    }

    /// The scope, seen from the grid, which names the two energies the other way.
    pub open spec fn grid_scope(self) -> ScopeType {
        match self.quantity {
            Quantity::EnergyConsumed => ScopeType::GridConsumption,
            Quantity::EnergyProduced => ScopeType::GridFeedIn,
            _ => self.scope(),
        }
    }

    /// The name of the quantity on the debug interface.
    pub open spec fn quantity_name(self) -> Seq<char> {
        match self.quantity {
            Quantity::Power => if self.whole() {
                "totalActivePower"@
            } else {
                "activePower"@
            },
            Quantity::EnergyConsumed => "energyConsumed"@,
            Quantity::EnergyProduced => "energyProduced"@,
            Quantity::Current => "current"@,
            Quantity::Voltage => "voltage"@,
            Quantity::Frequency => "frequency"@,
            Quantity::EnergyCharged => "energyCharged"@,
            Quantity::StateOfCharge => "stateOfCharge"@,
            Quantity::StateOfHealth => "stateOfHealth"@,
            Quantity::TravelRange => "travelRange"@,
            Quantity::ApparentPower => "apparentPower"@,
            Quantity::ReactivePower => "reactivePower"@,
            Quantity::PowerFactor => "powerFactor"@,
            Quantity::YieldDay => "yieldDay"@,
            Quantity::YieldMonth => "yieldMonth"@,
            Quantity::YieldYear => "yieldYear"@,
            Quantity::YieldTotal => "yieldTotal"@,
            Quantity::Temperature => "temperature"@,
            Quantity::DhwTemperature => "dhwTemperature"@,
            Quantity::RoomTemperature => "roomTemperature"@,
            Quantity::OutdoorTemperature => "outdoorTemperature"@,
            Quantity::DcPower => "dcPower"@,
            Quantity::DcCurrent => "dcCurrent"@,
            Quantity::DcVoltage => "dcVoltage"@,
            Quantity::DcEnergy => "dcEnergy"@,
            Quantity::DcChargeEnergy => "dcChargeEnergy"@,
            Quantity::DcDischargeEnergy => "dcDischargeEnergy"@,
            Quantity::StateOfEnergy => "stateOfEnergy"@,
            Quantity::UsableCapacity => "usableCapacity"@,
            Quantity::LoadCycleCount => "loadCycleCount"@,
            Quantity::InsulationResistance => "insulationResistance"@,
        }
    }

    /// The name of the phases on the debug interface.
    pub open spec fn phase_name(phases: ElectricalConnectionPhaseName) -> Seq<char> {
        match phases {
            ElectricalConnectionPhaseName::A => "A"@,
            ElectricalConnectionPhaseName::B => "B"@,
            ElectricalConnectionPhaseName::C => "C"@,
            ElectricalConnectionPhaseName::Ab => "Ab"@,
            ElectricalConnectionPhaseName::Bc => "Bc"@,
            ElectricalConnectionPhaseName::Ac => "Ac"@,
            ElectricalConnectionPhaseName::Abc => "Abc"@,
            ElectricalConnectionPhaseName::Neutral => "Neutral"@,
            ElectricalConnectionPhaseName::Ground => "Ground"@,
            ElectricalConnectionPhaseName::Unspecified => "None"@,
        }
    }

    /// The name on the debug interface: the quantity, and the phases where it does not cover
    /// them all.
    pub open spec fn name(self) -> Seq<char> {
        match self.phases {
            Some(phases) if !self.whole() => self.quantity_name() + Measurand::phase_name(phases),
            _ => self.quantity_name(),
        }
    }

    /// A quantity over all three phases.
    pub fn total(quantity: Quantity) -> (r: Measurand)
        ensures
            r == (Measurand { quantity, phases: Some(ElectricalConnectionPhaseName::Abc) }),
    {
        Measurand { quantity, phases: Some(ElectricalConnectionPhaseName::Abc) }
    }

    /// A quantity on some phases.
    pub fn on(quantity: Quantity, phase: ElectricalConnectionPhaseName) -> (r: Measurand)
        ensures
            r == (Measurand { quantity, phases: Some(phase) }),
    {
        Measurand { quantity, phases: Some(phase) }
    }

    /// A quantity that has no phases.
    pub fn unphased(quantity: Quantity) -> (r: Measurand)
        ensures
            r == (Measurand { quantity, phases: None }),
    {
        Measurand { quantity, phases: None }
    }

    /// The active power over all three phases.
    pub fn total_power() -> (r: Measurand)
        ensures
            r == (Measurand {
                quantity: Quantity::Power,
                phases: Some(ElectricalConnectionPhaseName::Abc),
            }),
    {
        Measurand::total(Quantity::Power)
    }

    /// Whether it covers everything there is rather than one phase.
    pub fn is_total(&self) -> (r: bool)
        ensures
            r == self.whole(),
    {
        match self.phases {
            Some(phases) => phases == ElectricalConnectionPhaseName::Abc,
            None => true,
        }
    }

    /// Whether it has no phases.
    pub fn is_dc(&self) -> (r: bool)
        ensures
            r == (self.phases is None),
    {
        self.phases.is_none()
    }

    /// The `commodityType`: hot water, air, or electricity.
    pub fn commodity_type(&self) -> (r: CommodityType)
        ensures
            r == self.commodity(),
    {
        match self.quantity {
            Quantity::DhwTemperature => CommodityType::DomesticHotWater,
            Quantity::RoomTemperature | Quantity::OutdoorTemperature => CommodityType::Air,
            _ => CommodityType::Electricity,
        }
    }

    /// The `scopeType`, seen from the appliance.
    pub fn scope_type(&self) -> (r: ScopeType)
        ensures
            r == self.scope(),
    {
        match self.quantity {
            Quantity::Power => if self.is_total() {
                ScopeType::AcPowerTotal
            } else {
                ScopeType::AcPower
            },
            Quantity::EnergyConsumed => ScopeType::AcEnergyConsumed,
            Quantity::EnergyProduced => ScopeType::AcEnergyProduced,
            Quantity::Current => ScopeType::AcCurrent,
            Quantity::Voltage => ScopeType::AcVoltage,
            Quantity::Frequency => ScopeType::AcFrequency,
            Quantity::EnergyCharged => ScopeType::Charge,
            Quantity::StateOfCharge => ScopeType::StateOfCharge,
            Quantity::StateOfHealth => ScopeType::StateOfHealth,
            Quantity::TravelRange => ScopeType::TravelRange,
            Quantity::ApparentPower => if self.is_total() {
                ScopeType::AcPowerApparentTotal
            } else {
                ScopeType::AcPowerApparent
            },
            Quantity::ReactivePower => if self.is_total() {
                ScopeType::AcPowerReactiveTotal
            } else {
                ScopeType::AcPowerReactive
            },
            Quantity::PowerFactor => ScopeType::AcCosPhi,
            Quantity::YieldDay => ScopeType::AcYieldDay,
            Quantity::YieldMonth => ScopeType::AcYieldMonth,
            Quantity::YieldYear => ScopeType::AcYieldYear,
            Quantity::YieldTotal => ScopeType::AcYieldTotal,
            Quantity::Temperature => ScopeType::ComponentTemperature,
            Quantity::DhwTemperature => ScopeType::DhwTemperature,
            Quantity::RoomTemperature => ScopeType::RoomAirTemperature,
            Quantity::OutdoorTemperature => ScopeType::OutsideAirTemperature,
            Quantity::DcPower => ScopeType::DcPower,
            Quantity::DcCurrent => ScopeType::DcCurrent,
            Quantity::DcVoltage => ScopeType::DcVoltage,
            Quantity::DcEnergy => ScopeType::DcEnergy,
            Quantity::DcChargeEnergy => ScopeType::DcChargeEnergy,
            Quantity::DcDischargeEnergy => ScopeType::DcDischargeEnergy,
            Quantity::StateOfEnergy => ScopeType::StateOfEnergy,
            Quantity::UsableCapacity => ScopeType::UseableCapacity,
            Quantity::LoadCycleCount => ScopeType::LoadCycleCount,
            Quantity::InsulationResistance => ScopeType::InsulationResistance,
        }
    }

    /// The `scopeType`, seen from the grid.
    pub fn grid_scope_type(&self) -> (r: ScopeType)
        ensures
            r == self.grid_scope(),
    {
        match self.quantity {
            Quantity::EnergyConsumed => ScopeType::GridConsumption,
            Quantity::EnergyProduced => ScopeType::GridFeedIn,
            _ => self.scope_type(),
        }
    }

    /// The unit.
    pub fn unit(&self) -> (r: UnitOfMeasurement)
        ensures
            r == self.quantity.measured_in(),
    {
        self.quantity.unit()
    }

    /// The `measurementType`.
    pub fn measurement_type(&self) -> (r: MeasurementType)
        ensures
            r == self.quantity.kind(),
    {
        self.quantity.measurement_type()
    }

    /// The name on the debug interface.
    pub fn signal_name(&self) -> (r: String)
        ensures
            r@ == self.name(),
    {
        let quantity = match self.quantity {
            Quantity::Power => if self.is_total() {
                "totalActivePower"
            } else {
                "activePower"
            },
            Quantity::EnergyConsumed => "energyConsumed",
            Quantity::EnergyProduced => "energyProduced",
            Quantity::Current => "current",
            Quantity::Voltage => "voltage",
            Quantity::Frequency => "frequency",
            Quantity::EnergyCharged => "energyCharged",
            Quantity::StateOfCharge => "stateOfCharge",
            Quantity::StateOfHealth => "stateOfHealth",
            Quantity::TravelRange => "travelRange",
            Quantity::ApparentPower => "apparentPower",
            Quantity::ReactivePower => "reactivePower",
            Quantity::PowerFactor => "powerFactor",
            Quantity::YieldDay => "yieldDay",
            Quantity::YieldMonth => "yieldMonth",
            Quantity::YieldYear => "yieldYear",
            Quantity::YieldTotal => "yieldTotal",
            Quantity::Temperature => "temperature",
            Quantity::DhwTemperature => "dhwTemperature",
            Quantity::RoomTemperature => "roomTemperature",
            Quantity::OutdoorTemperature => "outdoorTemperature",
            Quantity::DcPower => "dcPower",
            Quantity::DcCurrent => "dcCurrent",
            Quantity::DcVoltage => "dcVoltage",
            Quantity::DcEnergy => "dcEnergy",
            Quantity::DcChargeEnergy => "dcChargeEnergy",
            Quantity::DcDischargeEnergy => "dcDischargeEnergy",
            Quantity::StateOfEnergy => "stateOfEnergy",
            Quantity::UsableCapacity => "usableCapacity",
            Quantity::LoadCycleCount => "loadCycleCount",
            Quantity::InsulationResistance => "insulationResistance",
        };
        let mut name = String::from_str(quantity);
        if let Some(phases) = self.phases {
            if !self.is_total() {
                name.append(
                    match phases {
                        ElectricalConnectionPhaseName::A => "A",
                        ElectricalConnectionPhaseName::B => "B",
                        ElectricalConnectionPhaseName::C => "C",
                        ElectricalConnectionPhaseName::Ab => "Ab",
                        ElectricalConnectionPhaseName::Bc => "Bc",
                        ElectricalConnectionPhaseName::Ac => "Ac",
                        ElectricalConnectionPhaseName::Abc => "Abc",
                        ElectricalConnectionPhaseName::Neutral => "Neutral",
                        ElectricalConnectionPhaseName::Ground => "Ground",
                        ElectricalConnectionPhaseName::Unspecified => "None",
                    },
                );
            }
        }
        name
    }
}

} // verus!
