//! Measurements: published by a unit, read by an appliance.

use eebus::address::{AddressDevice, FeatureAddress};
use eebus::model::{
    AbsoluteOrRelativeTime, CmdData, CommodityType, DeviceConfigurationKeyValueListData,
    ElectricalConnectionPhaseName as Phase, EntityType, MeasurementId, MeasurementType,
    MeasurementValueSource, MeasurementValueState, ScopeType, UnitOfMeasurement,
};
use eebus::number::Number;
use eebus::spine::{
    Command, Engine, RemoteDevice, RemoteEntity, RemoteFeature, RemoteUseCase, SpineEvent,
};
use eebus::model::{FeatureType, Function, Role};
use eebus::time::Duration;
use eebus::usecases::hvac::{mdt, mot, mrt};
use eebus::usecases::mgcp::{self, FeedInLimit};
use eebus::usecases::monitoring::appliance::{
    self, MonitoringApplianceActor, MonitoringEvent, MonitoredUnitPeer,
};
use eebus::usecases::monitoring::measurand::{Measurand, Quantity};
use eebus::usecases::monitoring::readings::{ReadingState, Readings};
use eebus::usecases::monitoring::unit::{MonitoredUnit, Naming};
use eebus::usecases::signals::SignalValue;
use eebus::usecases::{mob, moi};

fn number(value: f64) -> Number {
    Number::from_thousandths((value * 1000.0).round() as i64)
}

#[test]
fn mpc_scenario_1_describes_power_as_the_specification_asks() {
    let total = Measurand::total_power();
    assert_eq!(total.measurement_type(), MeasurementType::Power);
    assert_eq!(total.commodity_type(), CommodityType::Electricity);
    assert_eq!(total.unit(), UnitOfMeasurement::W);
    assert_eq!(total.scope_type(), ScopeType::AcPowerTotal);

    let phase = Measurand::on(Quantity::Power, Phase::A);
    assert_eq!(
        phase.scope_type(),
        ScopeType::AcPower,
        "a phase-specific power is `acPower`, not `acPowerTotal`"
    );
}

#[test]
fn mgcp_names_the_energies_from_the_grids_side() {
    let consumed = Measurand::total(Quantity::EnergyConsumed);
    assert_eq!(consumed.scope_type(), ScopeType::AcEnergyConsumed, "MPC");
    assert_eq!(
        consumed.grid_scope_type(),
        ScopeType::GridConsumption,
        "MGCP"
    );

    let produced = Measurand::total(Quantity::EnergyProduced);
    assert_eq!(produced.scope_type(), ScopeType::AcEnergyProduced, "MPC");
    assert_eq!(produced.grid_scope_type(), ScopeType::GridFeedIn, "MGCP");

    assert_eq!(
        Measurand::total_power().grid_scope_type(),
        ScopeType::AcPowerTotal,
        "everything else is named the same in both"
    );
}

#[test]
fn mgcp_011_the_curtailment_factor_round_trips() {
    let published = mgcp::curtailment_value(number(70.0));
    assert_eq!(mgcp::read_curtailment(&published), Some(number(70.0)));

    assert_eq!(
        mgcp::read_curtailment(&mgcp::curtailment_value(number(140.0))),
        Some(number(100.0))
    );
    assert_eq!(
        mgcp::read_curtailment(&mgcp::curtailment_value(number(-5.0))),
        Some(number(0.0))
    );

    assert_eq!(
        mgcp::read_curtailment(&mgcp::curtailment_value(number(62.5))),
        Some(number(62.5)),
        "a fraction of a percent survives, which whole-number rounding would lose"
    );
}

#[test]
fn mgcp_011_the_ceiling_is_the_factor_times_the_installed_peak_power() {
    let published = mgcp::curtailment_value(number(70.0));
    let limit = FeedInLimit::from_data(&published, number(12_000.0)).expect("a factor");
    assert_eq!(limit.watts(), number(8_400.0));
    assert_eq!(limit.factor_percent(), number(70.0));
    assert_eq!(limit.nominal_peak_watts(), number(12_000.0));

    assert_eq!(limit.as_production_limit().watts, number(8_400.0));
    assert!(limit.as_production_limit().is_active);
    assert!(limit.permits(number(8_400.0)));
    assert!(!limit.permits(number(8_400.001)));
}

#[test]
fn a_payload_without_a_factor_is_not_a_ceiling_of_zero() {
    let empty = CmdData::DeviceConfigurationKeyValueListData(DeviceConfigurationKeyValueListData {
        device_configuration_key_value_data: Some(vec![]),
    });
    assert_eq!(FeedInLimit::from_data(&empty, number(12_000.0)), None);
}

#[test]
fn the_terms_of_the_equation_stay_inside_their_ranges() {
    assert_eq!(
        FeedInLimit::new(number(70.0), number(0.0)).watts(),
        number(0.0)
    );
    assert_eq!(
        FeedInLimit::new(number(70.0), number(-1.0)).nominal_peak_watts(),
        number(0.0)
    );
    assert_eq!(
        FeedInLimit::new(number(140.0), number(10_000.0)).factor_percent(),
        number(100.0)
    );
    assert_eq!(
        FeedInLimit::new(number(-5.0), number(10_000.0)).watts(),
        number(0.0)
    );
}

#[test]
fn the_description_names_the_key_the_specification_asks_for() {
    let CmdData::DeviceConfigurationKeyValueDescriptionListData(list) =
        mgcp::curtailment_description()
    else {
        unreachable!("built above");
    };
    let entry = &list
        .device_configuration_key_value_description_data
        .as_ref()
        .unwrap()[0];
    assert_eq!(
        entry.key_name.as_ref().map(|k| k.as_str()),
        Some("pvCurtailmentLimitFactor")
    );
    assert_eq!(entry.unit, Some(UnitOfMeasurement::Pct));
}

#[test]
fn mob_072_and_081_state_of_energy_is_not_a_percentage() {
    let charge = Measurand::unphased(Quantity::StateOfCharge);
    let energy = Measurand::unphased(Quantity::StateOfEnergy);
    let capacity = Measurand::unphased(Quantity::UsableCapacity);

    assert_eq!(charge.unit(), UnitOfMeasurement::Pct);
    assert_eq!(energy.unit(), UnitOfMeasurement::Wh);
    assert_eq!(capacity.unit(), UnitOfMeasurement::Wh);

    assert_eq!(charge.measurement_type(), MeasurementType::Percentage);
    assert_eq!(energy.measurement_type(), MeasurementType::Energy);
    assert_eq!(
        capacity.measurement_type(),
        MeasurementType::Capacity,
        "a capacity is its own measurement type, not an energy"
    );

    assert_ne!(charge.scope_type(), energy.scope_type());
}

#[test]
fn mob_061_charge_and_discharge_energy_are_two_separate_totals() {
    let unit = mob::monitored_unit(1)
        .with(Measurand::unphased(Quantity::DcChargeEnergy))
        .with(Measurand::unphased(Quantity::DcDischargeEnergy));

    let CmdData::MeasurementDescriptionListData(list) = unit.measurement_descriptions() else {
        unreachable!("built above");
    };
    let scopes: Vec<_> = list
        .measurement_description_data
        .as_ref()
        .unwrap()
        .iter()
        .filter_map(|e| e.scope_type)
        .collect();
    assert_eq!(
        scopes,
        [ScopeType::DcChargeEnergy, ScopeType::DcDischargeEnergy]
    );
}

#[test]
fn a_dc_measurement_publishes_no_phases() {
    let unit = mob::monitored_unit(1).with(Measurand::unphased(Quantity::DcPower));
    let CmdData::ElectricalConnectionParameterDescriptionListData(list) =
        unit.parameter_descriptions()
    else {
        unreachable!("built above");
    };
    let entry = &list
        .electrical_connection_parameter_description_data
        .as_ref()
        .unwrap()[0];
    assert_eq!(
        entry.ac_measured_phases, None,
        "a client waiting for phases on a DC measurement would wait forever"
    );
    assert_eq!(entry.scope_type, Some(ScopeType::DcPower));
}

#[test]
fn mob_the_descriptors_say_what_table_1_says() {
    assert_eq!(mob::battery().use_case_name(), mob::NAME);
    assert_eq!(mob::battery().use_case_actor(), "Battery");
    assert_eq!(
        mob::battery().required_scenarios(),
        [1, 2, 3, 4, 5, 6, 7, 8]
    );
    assert_eq!(
        mob::monitoring_appliance().required_scenarios(),
        [1, 2, 3, 4, 5, 6, 7, 8]
    );
    assert_eq!(
        mob::monitoring_appliance().features_needing_binding().len(),
        0
    );
}

#[test]
fn moi_031_to_035_use_the_scopes_the_specification_fixes() {
    let unit = moi::monitored_unit(1)
        .with(Measurand::total(Quantity::ApparentPower))
        .with(Measurand::on(Quantity::ApparentPower, Phase::A))
        .with(Measurand::total(Quantity::ReactivePower))
        .with(Measurand::unphased(Quantity::PowerFactor))
        .with(Measurand::unphased(Quantity::YieldTotal));

    let CmdData::MeasurementDescriptionListData(list) = unit.measurement_descriptions() else {
        unreachable!("built above");
    };
    let scopes: Vec<_> = list
        .measurement_description_data
        .as_ref()
        .unwrap()
        .iter()
        .filter_map(|entry| entry.scope_type)
        .collect();
    assert_eq!(
        scopes,
        [
            ScopeType::AcPowerApparentTotal,
            ScopeType::AcPowerApparent,
            ScopeType::AcPowerReactiveTotal,
            ScopeType::AcCosPhi,
            ScopeType::AcYieldTotal,
        ]
    );
}

#[test]
fn moi_layers_on_top_of_mpc_rather_than_repeating_it() {
    assert_ne!(moi::inverter().name, "monitoringOfPowerConsumption");
    let unit = moi::monitored_unit(1).with(Measurand::total_power());
    let CmdData::MeasurementDescriptionListData(list) = unit.measurement_descriptions() else {
        unreachable!("built above");
    };
    assert_eq!(
        list.measurement_description_data.as_ref().unwrap()[0].scope_type,
        Some(ScopeType::AcPowerTotal),
        "which is the other use case's, and the same machinery serves it"
    );
}

#[test]
fn moi_the_descriptors_say_what_table_1_says() {
    assert_eq!(moi::inverter().use_case_name(), moi::NAME);
    assert_eq!(moi::inverter().use_case_actor(), "Inverter");
    assert_eq!(moi::inverter().version, "1.0.0");

    assert_eq!(moi::inverter().required_scenarios(), [1, 2, 3, 4, 5, 6]);
    assert_eq!(
        moi::monitoring_appliance().required_scenarios(),
        [1, 2, 3, 4, 5, 6]
    );
    assert_eq!(
        moi::monitoring_appliance().features_needing_binding().len(),
        0
    );
}

#[test]
fn the_description_says_hot_water_and_not_electricity() {
    let CmdData::MeasurementDescriptionListData(list) = mdt::temperature_description() else {
        panic!("expected the descriptions");
    };
    let entry = &list.measurement_description_data.as_ref().unwrap()[0];
    assert_eq!(
        entry.commodity_type.as_ref(),
        Some(&CommodityType::DomesticHotWater),
        "it is fixed, and it is mandatory"
    );
    assert_eq!(
        entry.scope_type.as_ref(),
        Some(&ScopeType::DhwTemperature)
    );
    assert_eq!(
        entry.measurement_type.as_ref(),
        Some(&MeasurementType::Temperature)
    );
}

#[test]
fn mdt_001_the_temperature_is_read_through_the_measurement_layer() {
    let mut readings = Readings::new();
    assert!(readings.describe(&mdt::temperature_description()));
    readings.apply(&mdt::temperature(number(58.5)));

    assert_eq!(readings.value(&mdt::measurand()), Some(number(58.5)));
    assert_eq!(
        readings.get(&mdt::measurand()).map(|r| r.state),
        Some(ReadingState::Normal)
    );
    assert_eq!(
        mdt::measurand().unit(),
        UnitOfMeasurement::DegC,
        "and it knows what unit that is"
    );
}

#[test]
fn mdt_005_a_value_out_of_range_is_not_a_temperature() {
    let mut readings = Readings::new();
    readings.describe(&mdt::temperature_description());

    readings.apply(&mdt::temperature_from(
        number(-40.0),
        MeasurementValueSource::MeasuredValue,
        Some(MeasurementValueState::OutOfRange),
        None,
    ));
    assert_eq!(
        readings.get(&mdt::measurand()).map(|r| r.state),
        Some(ReadingState::OutOfRange)
    );
    assert_eq!(
        readings.value(&mdt::measurand()),
        None,
        "a value that is to be ignored is not returned"
    );
}

#[test]
fn the_hot_water_is_not_a_component_temperature() {
    let tank = Measurand::unphased(Quantity::DhwTemperature);
    let heatsink = Measurand::unphased(Quantity::Temperature);
    assert_ne!(tank.scope_type(), heatsink.scope_type());
    assert_ne!(tank.commodity_type(), heatsink.commodity_type());

    let mut readings = Readings::new();
    readings.describe(&mdt::temperature_description());
    readings.apply(&mdt::temperature(number(58.5)));
    assert_eq!(
        readings.value(&heatsink),
        None,
        "reading one as the other is how a manager reads a tank as an inverter"
    );
}

#[test]
fn mdt_both_actors_implement_the_only_scenario() {
    for descriptor in [mdt::dhw_circuit(), mdt::monitoring_appliance()] {
        assert_eq!(descriptor.name, mdt::NAME);
        assert_eq!(descriptor.version, "1.0.0");
        assert_eq!(descriptor.required_scenarios(), [1]);
    }
    assert!(mdt::dhw_circuit().permits_entity(EntityType::DHWCircuit));
    assert!(mdt::monitoring_appliance().permits_entity(EntityType::CEM));
}

#[test]
fn the_description_says_air_and_outdoors() {
    let CmdData::MeasurementDescriptionListData(list) = mot::temperature_description() else {
        panic!("expected the descriptions");
    };
    let entry = &list.measurement_description_data.as_ref().unwrap()[0];
    assert_eq!(entry.commodity_type.as_ref(), Some(&CommodityType::Air));
    assert_eq!(
        entry.scope_type.as_ref(),
        Some(&ScopeType::OutsideAirTemperature),
        "the room and the outdoors share a commodity and differ only here"
    );
    assert_eq!(
        entry.measurement_type.as_ref(),
        Some(&MeasurementType::Temperature)
    );
}

#[test]
fn mot_001_the_temperature_is_read_through_the_measurement_layer() {
    let mut readings = Readings::new();
    assert!(readings.describe(&mot::temperature_description()));
    readings.apply(&mot::temperature(number(-3.5)));

    assert_eq!(readings.value(&mot::measurand()), Some(number(-3.5)));
    assert_eq!(
        readings.get(&mot::measurand()).map(|r| r.state),
        Some(ReadingState::Normal)
    );
}

#[test]
fn mot_005_a_flagged_value_is_not_a_temperature() {
    let mut readings = Readings::new();
    readings.describe(&mot::temperature_description());
    readings.apply(&mot::temperature_from(
        number(12.0),
        MeasurementValueSource::MeasuredValue,
        Some(MeasurementValueState::Error),
        None,
    ));
    assert_eq!(
        readings.get(&mot::measurand()).map(|r| r.state),
        Some(ReadingState::Error)
    );
    assert_eq!(readings.value(&mot::measurand()), None);
}

#[test]
fn mot_both_actors_implement_the_only_scenario() {
    for descriptor in [
        mot::outdoor_temperature_sensor(),
        mot::monitoring_appliance(),
    ] {
        assert_eq!(descriptor.name, mot::NAME);
        assert_eq!(descriptor.version, "1.0.0");
        assert_eq!(descriptor.required_scenarios(), [1]);
    }
    assert_eq!(
        mot::outdoor_temperature_sensor().use_case_actor(),
        "OutdoorTemperatureSensor"
    );
    assert!(mot::outdoor_temperature_sensor().permits_entity(EntityType::TemperatureSensor));
    assert!(
        !mot::outdoor_temperature_sensor().permits_entity(EntityType::HVACRoom),
        "it is behind a sensor, not behind a room"
    );
}

#[test]
fn the_description_says_air_and_a_room() {
    let CmdData::MeasurementDescriptionListData(list) = mrt::temperature_description() else {
        panic!("expected the descriptions");
    };
    let entry = &list.measurement_description_data.as_ref().unwrap()[0];
    assert_eq!(
        entry.commodity_type.as_ref(),
        Some(&CommodityType::Air),
        "it is fixed, and it is mandatory"
    );
    assert_eq!(
        entry.scope_type.as_ref(),
        Some(&ScopeType::RoomAirTemperature)
    );
    assert_eq!(
        entry.measurement_type.as_ref(),
        Some(&MeasurementType::Temperature)
    );
    assert_eq!(entry.unit.as_ref(), Some(&UnitOfMeasurement::DegC));
}

#[test]
fn mrt_001_the_temperature_is_read_through_the_measurement_layer() {
    let mut readings = Readings::new();
    assert!(readings.describe(&mrt::temperature_description()));
    readings.apply(&mrt::temperature(number(21.5)));

    assert_eq!(readings.value(&mrt::measurand()), Some(number(21.5)));
    assert_eq!(
        readings.get(&mrt::measurand()).map(|r| r.state),
        Some(ReadingState::Normal)
    );
    assert_eq!(mrt::measurand().unit(), UnitOfMeasurement::DegC);
}

#[test]
fn mrt_005_a_value_out_of_range_is_not_a_temperature() {
    let mut readings = Readings::new();
    readings.describe(&mrt::temperature_description());
    readings.apply(&mrt::temperature_from(
        number(-40.0),
        MeasurementValueSource::MeasuredValue,
        Some(MeasurementValueState::OutOfRange),
    ));
    assert_eq!(
        readings.get(&mrt::measurand()).map(|r| r.state),
        Some(ReadingState::OutOfRange)
    );
    assert_eq!(readings.value(&mrt::measurand()), None);
}

#[test]
fn the_three_temperatures_stay_apart() {
    let room = mrt::measurand();
    let tank = mdt::measurand();
    let heatsink = Measurand::unphased(Quantity::Temperature);
    let outdoors = mot::measurand();

    let scopes: Vec<_> = [&room, &tank, &heatsink, &outdoors]
        .iter()
        .map(|m| m.scope_type())
        .collect();
    let mut unique = scopes.clone();
    unique.sort_by_key(|s| String::from(s.as_str()));
    unique.dedup();
    assert_eq!(unique.len(), scopes.len(), "four scopes, all different");

    let mut readings = Readings::new();
    readings.describe(&mrt::temperature_description());
    readings.apply(&mrt::temperature(number(21.5)));
    assert_eq!(readings.value(&tank), None);
    assert_eq!(readings.value(&heatsink), None);
    assert_eq!(readings.value(&outdoors), None);
}

#[test]
fn mrt_both_actors_implement_the_only_scenario() {
    for descriptor in [mrt::hvac_room(), mrt::monitoring_appliance()] {
        assert_eq!(descriptor.name, mrt::NAME);
        assert_eq!(descriptor.version, "1.0.0");
        assert_eq!(descriptor.required_scenarios(), [1]);
    }
    assert_eq!(mrt::hvac_room().use_case_actor(), "HVACRoom");
    assert!(mrt::hvac_room().permits_entity(EntityType::HVACRoom));
    assert!(!mrt::hvac_room().permits_entity(EntityType::DHWCircuit));
    assert!(mrt::monitoring_appliance().permits_entity(EntityType::CEM));
}

#[test]
fn the_room_is_read_only() {
    assert_eq!(
        mrt::hvac_room().features_needing_binding().len(),
        0,
        "no writeable function, so no binding"
    );
    assert_eq!(
        mrt::monitoring_appliance().features_needing_binding().len(),
        0,
        "and the appliance never writes one"
    );
}

#[test]
fn what_a_unit_measures_is_what_an_appliance_reads() {
    let total = Measurand::total_power();
    let current = Measurand::on(Quantity::Current, Phase::A);
    let share = Measurand::unphased(Quantity::StateOfCharge);
    let mut unit = MonitoredUnit::new(1)
        .with(total)
        .with(current)
        .with(share)
        .with_range(share, number(0.0), number(100.0));
    unit.set(&total, number(2_300.0));
    unit.set_at(
        &current,
        number(10.125),
        AbsoluteOrRelativeTime::Absolute(Duration::from_secs(77)),
    );
    unit.set(&share, number(101.0));

    let mut readings = Readings::new();
    readings.describe(&unit.measurement_descriptions());
    assert_eq!(
        readings.described().len(),
        2,
        "the phase of the current is not known yet"
    );
    readings.describe(&unit.parameter_descriptions());
    assert_eq!(readings.described().len(), 3);
    let arrived = readings.apply(&unit.measurements());

    assert_eq!(arrived.len(), 3);
    assert_eq!(readings.total_power(), Some(number(2_300.0)));
    assert_eq!(readings.value(&current), Some(number(10.125)));
    assert_eq!(
        readings.get(&current).and_then(|r| r.timestamp),
        Some(AbsoluteOrRelativeTime::Absolute(Duration::from_secs(77)))
    );
    assert_eq!(
        readings.get(&share).map(|r| r.state),
        Some(ReadingState::OutOfRange)
    );
    assert_eq!(readings.value(&share), None, "flagged, and so not a value");
    assert_eq!(
        readings.measurand_of(MeasurementId(2)),
        Some(current),
        "measurements are numbered from one"
    );
    assert_eq!(readings.all().len(), 3);
}

#[test]
fn a_share_is_expected_between_none_and_all() {
    let share = Measurand::unphased(Quantity::StateOfCharge);
    let mut unit = MonitoredUnit::new(1).with(share).with(Measurand::total_power());
    let CmdData::MeasurementConstraintsListData(list) = unit.constraints() else {
        unreachable!("built above");
    };
    let entries = list.measurement_constraints_data.as_ref().unwrap();
    assert_eq!(entries.len(), 1, "a power has no natural range");
    assert_eq!(entries[0].measurement_id, Some(MeasurementId(1)));
    assert_eq!(
        entries[0].value_range_max.and_then(|v| v.to_number()),
        Some(number(100.0))
    );
    unit.set(&share, number(100.001));
    let mut readings = Readings::new();
    readings.describe(&unit.measurement_descriptions());
    readings.apply(&unit.measurements());
    assert_eq!(
        readings.get(&share).map(|r| r.state),
        Some(ReadingState::OutOfRange)
    );
}

#[test]
fn what_a_parameter_states_of_the_phases_stands() {
    let energy = Measurand::on(Quantity::EnergyConsumed, Phase::A);
    let unit = MonitoredUnit::new(1).with(energy);
    let mut early = Readings::new();
    early.describe(&unit.measurement_descriptions());
    early.describe(&unit.parameter_descriptions());
    let mut late = Readings::new();
    late.describe(&unit.parameter_descriptions());
    late.describe(&unit.measurement_descriptions());
    assert_eq!(early, late, "the two may arrive in either order");
    assert_eq!(late.measurand_of(MeasurementId(1)), Some(energy));
}

#[test]
fn readings_are_listed_in_the_order_of_their_descriptions() {
    let power = Measurand::total_power();
    let frequency = Measurand::total(Quantity::Frequency);
    let mut unit = MonitoredUnit::new(1).with(power).with(frequency);
    let mut readings = Readings::new();
    readings.describe(&unit.measurement_descriptions());
    unit.set(&frequency, number(50.0));
    readings.apply(&unit.measurements());
    unit.set(&power, number(1.0));
    readings.apply(&unit.measurements());
    let order: Vec<_> = readings.all().iter().map(|r| r.measurand).collect();
    assert_eq!(order, [power, frequency]);
}

#[test]
fn a_measurand_is_added_once_and_keeps_its_number() {
    let mut unit = MonitoredUnit::new(7);
    let first = unit.add(Measurand::total_power());
    let second = unit.add(Measurand::total(Quantity::Voltage));
    assert_eq!(unit.add(Measurand::total_power()), first);
    assert_ne!(first, second);
    assert_eq!(
        unit.measurement_id(&Measurand::total(Quantity::Voltage)),
        Some(MeasurementId(2))
    );
    assert_eq!(unit.value(&Measurand::total_power()), None);
    unit.set(&Measurand::total(Quantity::Current), number(1.0));
    assert_eq!(
        unit.value(&Measurand::total(Quantity::Current)),
        None,
        "a measurand that was never added has no value"
    );
}

#[test]
fn a_failed_sensor_is_reported_without_a_value() {
    let power = Measurand::total_power();
    let mut unit = MonitoredUnit::new(1)
        .with(power)
        .naming(Naming::GridConnectionPoint);
    unit.set_state(&power, MeasurementValueState::Error);
    let CmdData::MeasurementListData(list) = unit.measurements() else {
        unreachable!("built above");
    };
    let entries = list.measurement_data.as_ref().unwrap();
    assert_eq!(entries.len(), 1);
    assert_eq!(entries[0].value, None);
    assert_eq!(entries[0].value_state, Some(MeasurementValueState::Error));
    let signals = unit.signals();
    assert_eq!(signals.signals[0].name, "mgcp:totalActivePower");
    assert_eq!(
        signals.signals[0].value,
        SignalValue::Text(String::from("error"))
    );
    assert_eq!(signals.signals[0].unit, Some("W"));
}

#[test]
fn signals_name_the_quantity_and_the_phase() {
    assert_eq!(
        Measurand::on(Quantity::Current, Phase::A).signal_name(),
        "currentA"
    );
    assert_eq!(
        Measurand::on(Quantity::Power, Phase::Bc).signal_name(),
        "activePowerBc"
    );
    assert_eq!(Measurand::total_power().signal_name(), "totalActivePower");
    assert_eq!(
        Measurand::unphased(Quantity::DcPower).signal_name(),
        "dcPower"
    );
    assert!(Measurand::unphased(Quantity::DcPower).is_dc());
    assert!(!Measurand::on(Quantity::Power, Phase::A).is_total());
    assert_eq!(
        Quantity::StateOfHealth.natural_range(),
        Some((number(0.0), number(100.0)))
    );
    assert_eq!(Quantity::Power.natural_range(), None);
}

fn grid_meter() -> RemoteDevice {
    let device = AddressDevice::named("d:_i:1_Meter");
    let feature = |number: u32, feature_type: FeatureType| RemoteFeature {
        address: FeatureAddress::new(AddressDevice::named("d:_i:1_Meter"), vec![1], number),
        feature_type,
        role: Role::Server,
        functions: vec![],
    };
    RemoteDevice {
        address: Some(device),
        entities: vec![RemoteEntity {
            path: vec![1],
            entity_type: EntityType::GridConnectionPointOfPremises,
            features: vec![
                feature(1, FeatureType::ElectricalConnection),
                feature(2, FeatureType::Measurement),
                feature(3, FeatureType::DeviceConfiguration),
            ],
        }],
        use_cases: vec![RemoteUseCase {
            entity: vec![1],
            actor: String::from("GridConnectionPoint"),
            name: String::from("monitoringOfGridConnectionPoint"),
        }],
    }
}

fn client() -> FeatureAddress {
    FeatureAddress::new(AddressDevice::named("d:_i:2_Cem"), vec![1], 1)
}

#[test]
fn an_appliance_reads_a_grid_connection_point() {
    let remote = grid_meter();
    let peer = appliance::locate(
        &remote,
        "monitoringOfGridConnectionPoint",
        "GridConnectionPoint",
    )
    .expect("the meter");
    assert!(appliance::locate(&remote, "monitoringOfBattery", "Battery").is_none());
    let unit = peer.unit();
    let measurement = peer.measurement.clone().unwrap();
    let configuration = peer.curtailment.clone().unwrap();

    let mut engine = Engine::new(AddressDevice::named("d:_i:2_Cem"));
    let mut actor = MonitoringApplianceActor::new(client());
    actor.attach(&mut engine, peer, Duration::zero());
    assert_eq!(
        engine.outbox.len(),
        9,
        "two, three and two reads, and two subscriptions"
    );
    assert_eq!(actor.units().len(), 1);

    let published = MonitoredUnit::new(1)
        .naming(mgcp::NAMING)
        .with(Measurand::total_power());
    assert_eq!(
        actor.handle_event(&SpineEvent::ReplyReceived {
            feature: measurement.clone(),
            resolved: published.measurement_descriptions(),
        }),
        Some(MonitoringEvent::UnitDescribed { unit: unit.clone() })
    );
    let mut valued = published;
    valued.set(&Measurand::total_power(), number(-1_500.0));
    let event = actor.handle_event(&SpineEvent::DataNotified {
        feature: measurement,
        resolved: valued.measurements(),
    });
    assert!(matches!(event, Some(MonitoringEvent::Measured { .. })));
    assert_eq!(
        actor.readings(&unit).and_then(|r| r.total_power()),
        Some(number(-1_500.0)),
        "feeding in is negative"
    );

    assert_eq!(actor.curtailment(&unit), None, "not read is not zero");
    let value = SpineEvent::DataNotified {
        feature: configuration.clone(),
        resolved: mgcp::curtailment_value(number(60.0)),
    };
    assert_eq!(
        actor.handle_event(&value),
        None,
        "the key has no name yet"
    );
    assert_eq!(
        actor.handle_event(&SpineEvent::ReplyReceived {
            feature: configuration,
            resolved: mgcp::curtailment_description(),
        }),
        Some(MonitoringEvent::CurtailmentChanged {
            unit: unit.clone(),
            factor_percent: number(60.0)
        })
    );
    assert_eq!(actor.handle_event(&value), None, "nothing changed");
    assert_eq!(
        actor
            .feed_in_limit(&unit, number(10_000.0))
            .map(|l| l.watts()),
        Some(number(6_000.0))
    );
    actor.detach(&unit);
    assert!(actor.readings(&unit).is_none());
}

#[test]
fn two_rooms_of_one_device_are_two_units() {
    let rooms: Vec<MonitoredUnitPeer> = [1u32, 2]
        .iter()
        .map(|room| {
            MonitoredUnitPeer::measuring(
                AddressDevice::named("d:_i:3_HeatPump"),
                FeatureAddress::new(AddressDevice::named("d:_i:3_HeatPump"), vec![*room], 1),
            )
        })
        .collect();
    let mut engine = Engine::new(AddressDevice::named("d:_i:2_Cem"));
    let mut actor = MonitoringApplianceActor::new(client());
    for room in &rooms {
        actor.attach(&mut engine, room.clone(), Duration::zero());
    }
    assert_eq!(actor.units().len(), 2);
    for (room, degrees) in rooms.iter().zip([21.0, 18.5]) {
        for resolved in [mrt::temperature_description(), mrt::temperature(number(degrees))] {
            actor.handle_event(&SpineEvent::DataNotified {
                feature: room.measurement.clone().unwrap(),
                resolved,
            });
        }
    }
    assert_eq!(
        actor
            .readings(&rooms[0].unit())
            .and_then(|r| r.value(&mrt::measurand())),
        Some(number(21.0))
    );
    assert_eq!(
        actor
            .readings(&rooms[1].unit())
            .and_then(|r| r.value(&mrt::measurand())),
        Some(number(18.5))
    );
    actor.attach(&mut engine, rooms[0].clone(), Duration::zero());
    assert_eq!(actor.units().len(), 2, "attaching again starts over");
    assert_eq!(
        actor
            .readings(&rooms[0].unit())
            .and_then(|r| r.value(&mrt::measurand())),
        None
    );
}

#[test]
fn features_on_other_entities_are_heard_where_the_unit_names_them() {
    let device = || AddressDevice::named("d:_i:4_Meter");
    let feature = |entity: u32| FeatureAddress::new(device(), vec![entity], 1);
    let peer = MonitoredUnitPeer {
        device: device(),
        electrical_connection: Some(feature(2)),
        measurement: Some(feature(1)),
        curtailment: Some(feature(3)),
    };
    let unit = peer.unit();
    let mut engine = Engine::new(AddressDevice::named("d:_i:2_Cem"));
    let mut actor = MonitoringApplianceActor::new(client());
    actor.attach(&mut engine, peer, Duration::zero());
    let current = Measurand::on(Quantity::Current, Phase::B);
    let mut published = MonitoredUnit::new(1).with(current);
    published.set(&current, number(4.0));
    for (entity, resolved) in [
        (1, published.measurement_descriptions()),
        (2, published.parameter_descriptions()),
        (1, published.measurements()),
        (3, mgcp::curtailment_description()),
        (3, mgcp::curtailment_value(number(60.0))),
        (4, mgcp::curtailment_value(number(10.0))),
    ] {
        actor.handle_event(&SpineEvent::DataNotified {
            feature: feature(entity),
            resolved,
        });
    }
    assert_eq!(
        actor.readings(&unit).and_then(|r| r.value(&current)),
        Some(number(4.0))
    );
    assert_eq!(actor.curtailment(&unit), Some(number(60.0)));
}

#[test]
fn a_state_outside_the_list_is_shown_by_its_name() {
    let power = Measurand::total_power();
    let mut unit = MonitoredUnit::new(1).with(power);
    unit.set(&power, number(7.0));
    unit.set_state(&power, MeasurementValueState::Other("calibrating"));
    assert_eq!(
        unit.signals().signals[0].value,
        SignalValue::Text(String::from("calibrating"))
    );
    let mut readings = Readings::new();
    readings.describe(&unit.measurement_descriptions());
    readings.apply(&unit.measurements());
    assert_eq!(
        readings.get(&power).map(|r| r.state),
        Some(ReadingState::Normal),
        "neither out of range nor wrong"
    );
}

#[test]
fn every_measuring_entity_of_a_device_is_found() {
    let device = || AddressDevice::named("d:_i:3_HeatPump");
    let room = |path: u32| RemoteEntity {
        path: vec![path],
        entity_type: EntityType::HVACRoom,
        features: vec![RemoteFeature {
            address: FeatureAddress::new(device(), vec![path], 4),
            feature_type: FeatureType::Measurement,
            role: Role::Server,
            functions: vec![Function::MeasurementListData],
        }],
    };
    let announced = |path: u32| RemoteUseCase {
        entity: vec![path],
        actor: String::from("HVACRoom"),
        name: String::from(mrt::NAME),
    };
    let remote = RemoteDevice {
        address: Some(device()),
        entities: vec![room(1), room(2)],
        use_cases: vec![announced(1), announced(2), announced(2), announced(9)],
    };
    let rooms = mrt::locate_all(&remote);
    assert_eq!(rooms.len(), 2, "once each, and an entity that is not there is not found");
    assert_eq!(mrt::locate(&remote), Some(rooms[0].clone()));
    assert!(mdt::locate(&remote).is_none());
    assert!(mot::locate_all(&remote).is_empty());
    let nameless = RemoteDevice {
        address: None,
        ..remote
    };
    assert!(mrt::locate_all(&nameless).is_empty());
}

#[test]
fn a_unit_publishes_itself() {
    let mut engine = Engine::new(AddressDevice::named("d:_i:2_Cem"));
    let mut unit = MonitoredUnit::new(1).with(Measurand::total_power());
    unit.publish(&mut engine, &client(), &client(), Duration::zero());
    assert_eq!(engine.outbox.len(), 5);
    unit.set(&Measurand::total_power(), number(1.0));
    unit.notify(&mut engine, &client(), Duration::from_secs(1));
    assert!(matches!(
        &engine.outbox[5].1,
        Command::Publish { notify: true, .. }
    ));
    let electrical = unit.electrical_connection_feature(1);
    let measuring = unit.measurement_feature(2);
    assert_eq!(electrical.functions().len(), 2);
    assert_eq!(measuring.functions().len(), 3);
    assert!(unit.connection_description() != unit.constraints());
}

#[test]
fn the_factor_is_served_to_be_read() {
    let feature = mgcp::curtailment_feature(3);
    assert_eq!(feature.feature_type, FeatureType::DeviceConfiguration);
    assert_eq!(feature.functions().len(), 2);
    assert!(feature.functions().iter().all(|f| !f.1.write));
}
