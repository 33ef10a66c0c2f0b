//! Temperature setpoints: read, checked and written.

use eebus::model::{
    CmdData, EntityType, HvacOperationModeType, MeasurementId, ScopeType, SetpointId,
    SetpointType, UnitOfMeasurement,
};
use eebus::number::Number;
use eebus::spine::WriteBinding;
use eebus::usecases::hvac::setpoint::{
    self, Constraints, SetpointEffect, Setpoints, WriteRefused,
};
use eebus::usecases::hvac::{self, cdt, crct, mdsf, mrcsf, mrt};

fn degrees(value: f64) -> Number {
    Number::from_thousandths((value * 1000.0).round() as i64)
}

fn circuit() -> Setpoints {
    let mut known = cdt::reader();
    known.learn(&cdt::setpoint_description(UnitOfMeasurement::DegC));
    known.learn(&cdt::setpoint_constraints(
        degrees(40.0),
        degrees(65.0),
        Some(degrees(0.5)),
    ));
    known
}

#[test]
fn the_description_says_hot_water_and_an_absolute_value() {
    let CmdData::SetpointDescriptionListData(list) =
        cdt::setpoint_description(UnitOfMeasurement::DegC)
    else {
        panic!("expected the descriptions");
    };
    let entry = &list.setpoint_description_data.as_ref().unwrap()[0];
    assert_eq!(entry.scope_type.as_ref(), Some(&cdt::TEMPERATURE_SCOPE));
    assert_eq!(
        entry.setpoint_type.as_ref(),
        Some(&SetpointType::ValueAbsolute)
    );
    assert!(
        entry.measurement_id.is_none(),
        "a link that leads nowhere is omitted rather than invented"
    );
}

#[test]
fn cdt_001_a_value_the_circuit_would_refuse_is_refused_here() {
    let known = circuit();
    let id = known.temperature_setpoints()[0];
    assert!(known.write(id, degrees(60.0)).is_ok());
    assert!(matches!(
        known.write(id, degrees(70.0)),
        Err(WriteRefused::OutOfRange { .. })
    ));
    assert!(matches!(
        known.write(SetpointId(9), degrees(60.0)),
        Err(WriteRefused::UnknownSetpoint)
    ));
}

#[test]
fn only_the_dhw_scope_is_collected() {
    let mut known = cdt::reader();
    known.learn(&setpoint::description(
        SetpointId(7),
        ScopeType::RoomAirTemperature,
        UnitOfMeasurement::DegC,
        None,
    ));
    assert_eq!(
        known.temperature_setpoints().len(),
        0,
        "writing 60 to a room air setpoint heats a living room"
    );
}

#[test]
fn cdt_002_a_write_into_the_wrong_mode_is_refused() {
    let own = SetpointId(cdt::SETPOINT_ID);
    let auto = mdsf::operation_mode_id(&HvacOperationModeType::Auto).unwrap();
    let off = mdsf::operation_mode_id(&HvacOperationModeType::Off).unwrap();

    let mut known = circuit();
    known.learn(
        &cdt::system_function_relations(&[
            (auto, HvacOperationModeType::Auto, vec![own]),
            (off, HvacOperationModeType::Off, vec![]),
        ])
        .expect("well formed"),
    );

    let modes = [HvacOperationModeType::Auto, HvacOperationModeType::Off];
    let mut state = mdsf::reader();
    assert_eq!(
        known.effect_of(own, &state),
        SetpointEffect::Unknown,
        "nothing has been reported yet"
    );

    state.learn(&mdsf::system_function_description());
    state.learn(&mdsf::operation_mode_descriptions(&modes).unwrap());
    state.learn(&mdsf::operation_mode_relations(&modes).unwrap());
    state.learn(&mdsf::system_function_state(off, false, None));
    assert_eq!(
        known.effect_of(own, &state),
        SetpointEffect::NotInCurrentMode
    );
    assert!(matches!(
        known.write_effective(own, degrees(60.0), &state),
        Err(WriteRefused::NotInCurrentMode)
    ));

    state.learn(&mdsf::system_function_state(auto, false, None));
    assert_eq!(known.effect_of(own, &state), SetpointEffect::Effective);
    assert!(known.write_effective(own, degrees(60.0), &state).is_ok());

    state.learn(&mdsf::system_function_state(auto, true, None));
    assert_eq!(
        known.effect_of(own, &state),
        SetpointEffect::OverriddenByOverrun,
        "the write lands; the one-time heating is over the top of it"
    );
    assert!(
        known.write_effective(own, degrees(60.0), &state).is_ok(),
        "an overrun is `later`, not `never`"
    );
}

#[test]
fn cdt_003_the_relation_cardinalities_are_enforced() {
    let on = mdsf::operation_mode_id(&HvacOperationModeType::On).unwrap();
    assert!(cdt::system_function_relations(&[(
        on,
        HvacOperationModeType::On,
        vec![SetpointId(1), SetpointId(2)]
    )])
    .is_none());
    assert!(cdt::system_function_relations(&[(
        on,
        HvacOperationModeType::On,
        vec![SetpointId(1)]
    )])
    .is_some());
    assert_eq!(cdt::permitted_setpoints(&HvacOperationModeType::Auto), 1..=4);
    assert_eq!(cdt::permitted_setpoints(&HvacOperationModeType::Off), 0..=1);
}

#[test]
fn cdt_writes_need_no_binding() {
    assert_eq!(
        cdt::setpoint_feature(1).write_binding(),
        WriteBinding::NotRequired,
        "a circuit that required one would refuse every conformant appliance"
    );
    assert_eq!(
        cdt::configuration_appliance()
            .features_needing_binding()
            .len(),
        0,
        "and the appliance is told not to ask for one"
    );
}

#[test]
fn cdt_both_actors_implement_the_only_scenario() {
    for descriptor in [cdt::dhw_circuit(), cdt::configuration_appliance()] {
        assert_eq!(descriptor.name, cdt::NAME);
        assert_eq!(descriptor.required_scenarios(), [1]);
    }
    assert!(cdt::dhw_circuit().permits_entity(EntityType::DHWCircuit));
    assert!(cdt::configuration_appliance().permits_entity(EntityType::CEM));
}

#[test]
fn the_description_says_room_air() {
    let CmdData::SetpointDescriptionListData(list) = crct::setpoint_description_measuring(
        UnitOfMeasurement::DegC,
        MeasurementId(mrt::MEASUREMENT_ID),
    ) else {
        panic!("expected the descriptions");
    };
    let entry = &list.setpoint_description_data.as_ref().unwrap()[0];
    assert_eq!(entry.scope_type.as_ref(), Some(&crct::TEMPERATURE_SCOPE));
    assert_eq!(
        entry.measurement_id,
        Some(MeasurementId(mrt::MEASUREMENT_ID)),
        "the setpoint points at the measurement that reports it"
    );
}

#[test]
fn a_value_the_room_would_refuse_is_refused_here() {
    let mut known = crct::reader();
    known.learn(&crct::setpoint_description(UnitOfMeasurement::DegC));
    known.learn(&crct::setpoint_constraints(
        degrees(18.0),
        degrees(30.0),
        Some(degrees(0.5)),
    ));
    let id = known.temperature_setpoints()[0];
    assert!(known.write(id, degrees(24.0)).is_ok());
    assert!(matches!(
        known.write(id, degrees(10.0)),
        Err(WriteRefused::OutOfRange { .. })
    ));
}

#[test]
fn a_write_into_the_wrong_mode_is_refused() {
    let own = SetpointId(crct::SETPOINT_ID);
    let auto = mrcsf::operation_mode_id(&HvacOperationModeType::Auto).unwrap();
    let off = mrcsf::operation_mode_id(&HvacOperationModeType::Off).unwrap();

    let mut known = crct::reader();
    known.learn(&crct::setpoint_description(UnitOfMeasurement::DegC));
    known.learn(&crct::setpoint_constraints(
        degrees(18.0),
        degrees(30.0),
        Some(degrees(0.5)),
    ));
    known.learn(
        &crct::system_function_relations(&[
            (auto, HvacOperationModeType::Auto, vec![own]),
            (off, HvacOperationModeType::Off, vec![]),
        ])
        .expect("well formed"),
    );

    let modes = [HvacOperationModeType::Auto, HvacOperationModeType::Off];
    let mut state = mrcsf::reader();
    state.learn(&mrcsf::system_function_description());
    state.learn(&mrcsf::operation_mode_descriptions(&modes).unwrap());
    state.learn(&mrcsf::operation_mode_relations(&modes).unwrap());

    state.learn(&mrcsf::system_function_state(off, false, None));
    assert_eq!(
        known.effect_of(own, &state),
        SetpointEffect::NotInCurrentMode
    );
    assert!(matches!(
        known.write_effective(own, degrees(24.0), &state),
        Err(WriteRefused::NotInCurrentMode)
    ));

    state.learn(&mrcsf::system_function_state(auto, false, None));
    assert_eq!(known.effect_of(own, &state), SetpointEffect::Effective);
    assert!(known.write_effective(own, degrees(24.0), &state).is_ok());
}

#[test]
fn writes_here_need_no_binding() {
    assert_eq!(
        crct::setpoint_feature(1).write_binding(),
        WriteBinding::NotRequired
    );
    assert_eq!(
        crct::configuration_appliance()
            .features_needing_binding()
            .len(),
        0
    );
}

#[test]
fn crct_both_actors_implement_the_only_scenario() {
    for descriptor in [crct::hvac_room(), crct::configuration_appliance()] {
        assert_eq!(descriptor.name, crct::NAME);
        assert_eq!(descriptor.required_scenarios(), [1]);
    }
    assert!(crct::hvac_room().permits_entity(EntityType::HVACRoom));
    assert!(crct::configuration_appliance().permits_entity(EntityType::CEM));
}

#[test]
fn a_written_temperature_is_read_back_to_the_tenth() {
    let known = circuit();
    let own = SetpointId(cdt::SETPOINT_ID);
    let write = known.write(own, degrees(58.46)).expect("in range");
    assert_eq!(cdt::read_setpoint_write(&write, own), Some(degrees(58.5)));
    assert_eq!(cdt::read_setpoint_write(&write, SetpointId(5)), None);
    assert_eq!(
        cdt::read_setpoint_write(&cdt::setpoint_value(degrees(-3.25)), own),
        Some(degrees(-3.3)),
        "half a tenth goes away from zero"
    );
}

#[test]
fn temperatures_are_rounded_to_the_step() {
    let constraints = Constraints {
        min: degrees(40.0),
        max: degrees(65.0),
        step: Some(degrees(0.5)),
    };
    assert_eq!(constraints.rounded(degrees(60.2)), degrees(60.0));
    assert_eq!(constraints.rounded(degrees(60.25)), degrees(60.5));
    assert_eq!(constraints.rounded(degrees(80.0)), degrees(65.0));
    assert_eq!(constraints.rounded(degrees(12.0)), degrees(40.0));
    assert_eq!(
        constraints.rounded(Number::PositiveInfinity),
        degrees(65.0)
    );
    assert_eq!(
        constraints.rounded(Number::NotANumber),
        Number::NotANumber
    );
    let free = Constraints {
        step: None,
        ..constraints
    };
    assert_eq!(free.rounded(degrees(60.2)), degrees(60.2));
    assert!(!free.permits(Number::NotANumber));
    assert!(free.permits(degrees(40.0)) && free.permits(degrees(65.0)));
}

#[test]
fn every_refusal_of_a_temperature_has_its_input() {
    let own = SetpointId(cdt::SETPOINT_ID);
    let mut known = cdt::reader();
    assert_eq!(
        known.write(own, degrees(60.0)),
        Err(WriteRefused::UnknownSetpoint)
    );
    known.learn(&cdt::setpoint_description(UnitOfMeasurement::DegC));
    assert_eq!(
        known.write(own, degrees(60.0)),
        Err(WriteRefused::NoConstraints)
    );
    assert_eq!(
        known.write_effective(own, degrees(60.0), &mdsf::reader()),
        Err(WriteRefused::ModeUnknown)
    );
    assert_eq!(
        known.current_setpoint(&mdsf::reader()),
        Err(WriteRefused::ModeUnknown)
    );
    let refused = circuit().write(own, degrees(70.25)).unwrap_err();
    assert_eq!(
        refused.message(),
        "70.25 is outside the 40..=65 the server accepts"
    );
    assert_eq!(
        WriteRefused::SeveralSetpoints { count: 12 }.message(),
        "the operation mode the server is in reads 12 setpoints"
    );
    assert_eq!(
        WriteRefused::OutOfRange {
            degrees: degrees(-0.5),
            min: Number::NegativeInfinity,
            max: degrees(10.007)
        }
        .message(),
        "-0.5 is outside the -inf..=10.007 the server accepts"
    );
}

#[test]
fn a_mode_with_one_setpoint_is_written_without_naming_it() {
    let own = SetpointId(cdt::SETPOINT_ID);
    let auto = mdsf::operation_mode_id(&HvacOperationModeType::Auto).unwrap();
    let off = mdsf::operation_mode_id(&HvacOperationModeType::Off).unwrap();
    let mut known = circuit();
    known.learn(
        &cdt::system_function_relations(&[
            (auto, HvacOperationModeType::Auto, vec![own]),
            (off, HvacOperationModeType::Off, vec![]),
        ])
        .unwrap(),
    );
    let mut state = mdsf::reader();
    state.learn(&mdsf::system_function_description());
    state.learn(&mdsf::system_function_state(auto, false, None));
    assert_eq!(known.current_setpoint(&state), Ok(own));
    let write = known.write_current(degrees(55.0), &state).expect("one");
    assert_eq!(
        cdt::read_setpoint_write(&write, own),
        Some(degrees(55.0))
    );
    state.learn(&mdsf::system_function_state(off, false, None));
    assert_eq!(
        known.write_current(degrees(55.0), &state),
        Err(WriteRefused::NotInCurrentMode)
    );
}

#[test]
fn heating_and_cooling_setpoints_are_told_apart_by_their_function() {
    let auto = mrcsf::operation_mode_id(&HvacOperationModeType::Auto).unwrap();
    let heating = hvac::system_function_id(&hvac::HEATING);
    let cooling = hvac::system_function_id(&hvac::COOLING);
    let mut known = crct::reader();
    known.learn(
        &setpoint::relations_of(&vec![
            (
                heating,
                vec![(auto, HvacOperationModeType::Auto, vec![SetpointId(1)])],
            ),
            (
                cooling,
                vec![(auto, HvacOperationModeType::Auto, vec![SetpointId(2)])],
            ),
        ])
        .expect("well formed"),
    );
    assert_eq!(known.for_mode(heating, auto), [SetpointId(1)]);
    assert_eq!(known.for_mode(cooling, auto), [SetpointId(2)]);
    assert!(!known.describes(hvac::system_function_id(&hvac::DHW), auto));
    assert!(setpoint::relations_of(&vec![(
        heating,
        vec![(auto, HvacOperationModeType::Auto, vec![])]
    )])
    .is_none());
}

#[test]
fn a_setpoint_that_changes_its_scope_is_no_longer_collected() {
    let own = SetpointId(cdt::SETPOINT_ID);
    let mut known = circuit();
    assert_eq!(known.unit_of(own), Some(UnitOfMeasurement::DegC));
    known.learn(&setpoint::descriptions(&vec![
        (
            own,
            ScopeType::RoomAirTemperature,
            UnitOfMeasurement::DegC,
            None,
        ),
        (
            SetpointId(3),
            ScopeType::DhwTemperature,
            UnitOfMeasurement::DegF,
            None,
        ),
    ]));
    assert_eq!(known.temperature_setpoints(), [SetpointId(3)]);
    assert_eq!(known.unit_of(own), None);
    known.learn(&setpoint::constraints_of(&vec![(
        SetpointId(3),
        degrees(100.0),
        degrees(150.0),
        None,
    )]));
    known.learn(&setpoint::values(&vec![(SetpointId(3), degrees(140.0))]));
    assert_eq!(known.temperature(SetpointId(3)), Some(degrees(140.0)));
    assert_eq!(
        known.constraints_of(SetpointId(3)).map(|c| c.max),
        Some(degrees(150.0))
    );
    assert_eq!(setpoint::units()[2], UnitOfMeasurement::K);
}

#[test]
fn the_latest_description_of_a_setpoint_counts() {
    let described = |scope: ScopeType, unit: UnitOfMeasurement| {
        setpoint::description(SetpointId(4), scope, unit, None)
    };
    let mut known = cdt::reader();
    known.learn(&described(
        ScopeType::RoomAirTemperature,
        UnitOfMeasurement::DegC,
    ));
    assert!(known.temperature_setpoints().is_empty());
    let latest = described(ScopeType::DhwTemperature, UnitOfMeasurement::K);
    known.learn(&latest);
    assert_eq!(known.temperature_setpoints(), [SetpointId(4)]);
    assert_eq!(known.unit_of(SetpointId(4)), Some(UnitOfMeasurement::K));
    let before = known.clone();
    known.learn(&latest);
    assert_eq!(known, before, "the same payload teaches nothing twice");
}
