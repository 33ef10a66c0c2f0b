//! System functions: modes and overruns, read and written.

use eebus::model::{
    CmdData, ErrorNumber, Function, HvacOperationModeId, HvacOperationModeType, HvacOverrunData,
    HvacOverrunDescriptionData, HvacOverrunDescriptionListData, HvacOverrunId,
    HvacOverrunListData, HvacOverrunStatus, HvacOverrunType, HvacSystemFunctionData,
    HvacSystemFunctionId, HvacSystemFunctionListData, SetpointId, EntityType,
};
use eebus::spine::WriteBinding;
use eebus::usecases::descriptor::{Support, UseCaseDescriptor};
use eebus::usecases::hvac::system_function::{
    self, ModeRefused, OverrunReport, Request, SystemFunction,
};
use eebus::usecases::hvac::{self, cdsf, cdt, mdsf, mrcsf, OperationModes};

fn configurable_circuit() -> SystemFunction {
    let modes = [
        HvacOperationModeType::Auto,
        HvacOperationModeType::On,
        HvacOperationModeType::Eco,
    ];
    let mut known = cdsf::reader();
    known.learn(&cdsf::system_function_description());
    known.learn(&cdsf::operation_mode_descriptions(&modes).expect("three modes"));
    known.learn(&cdsf::operation_mode_relations(&modes).expect("three modes"));
    known.learn(&cdsf::overrun_description());
    known.learn(&cdsf::system_function_state(
        cdsf::operation_mode_id(&HvacOperationModeType::Auto).unwrap(),
        false,
        Some(true),
    ));
    known
}

fn monitored_circuit() -> SystemFunction {
    let modes = [
        HvacOperationModeType::Auto,
        HvacOperationModeType::On,
        HvacOperationModeType::Off,
    ];
    let mut known = mdsf::reader();
    known.learn(&mdsf::system_function_description());
    known.learn(&mdsf::operation_mode_descriptions(&modes).expect("three modes"));
    known.learn(&mdsf::operation_mode_relations(&modes).expect("three modes"));
    known
}

fn room() -> SystemFunction {
    let modes = [HvacOperationModeType::Auto, HvacOperationModeType::Off];
    let mut known = mrcsf::reader();
    known.learn(&mrcsf::system_function_description());
    known.learn(&mrcsf::operation_mode_descriptions(&modes).expect("two modes"));
    known.learn(&mrcsf::operation_mode_relations(&modes).expect("two modes"));
    known
}

fn support(descriptor: &UseCaseDescriptor, number: u32) -> Support {
    descriptor
        .scenarios
        .iter()
        .find(|s| s.number == number)
        .map(|s| s.support)
        .expect("the scenario is defined")
}

#[test]
fn cdsf_001_the_mode_is_set_by_name() {
    let known = configurable_circuit();
    let write = known
        .set_mode_named(&HvacOperationModeType::Eco)
        .expect("eco is one of this circuit's modes");
    let CmdData::HvacSystemFunctionListData(list) = &write else {
        panic!("expected the system function list");
    };
    let entry = &list.hvac_system_function_data.as_ref().unwrap()[0];
    assert_eq!(
        entry.system_function_id,
        Some(HvacSystemFunctionId(cdsf::SYSTEM_FUNCTION_ID))
    );
    assert_eq!(
        entry.current_operation_mode_id,
        cdsf::operation_mode_id(&HvacOperationModeType::Eco)
    );
    assert!(
        entry.is_overrun_active.is_none(),
        "a partial write sets the one element it means to"
    );
}

#[test]
fn cdsf_001_a_mode_this_function_does_not_have_is_refused() {
    let known = configurable_circuit();
    assert_eq!(
        known.set_mode_named(&HvacOperationModeType::Off),
        Err(ModeRefused::NotRelated)
    );
    assert_eq!(
        known.set_mode(HvacOperationModeId(99)),
        Err(ModeRefused::NotRelated)
    );
}

#[test]
fn a_circuit_that_says_its_mode_is_fixed_is_believed() {
    let mut known = configurable_circuit();
    known.learn(&cdsf::system_function_state(
        cdsf::operation_mode_id(&HvacOperationModeType::Auto).unwrap(),
        false,
        Some(false),
    ));
    assert_eq!(
        known.set_mode_named(&HvacOperationModeType::Eco),
        Err(ModeRefused::NotChangeable)
    );
}

#[test]
fn cdsf_002_and_003_the_one_time_loading_is_started_and_stopped() {
    let known = configurable_circuit();

    let start = known.start_overrun().expect("the circuit described one");
    let CmdData::HvacOverrunListData(list) = &start else {
        panic!("expected the overrun list");
    };
    let entry = &list.hvac_overrun_data.as_ref().unwrap()[0];
    assert_eq!(entry.overrun_id, Some(HvacOverrunId(cdsf::OVERRUN_ID)));
    assert_eq!(
        entry.overrun_status.as_ref(),
        Some(&HvacOverrunStatus::Active)
    );

    let stop = known.stop_overrun().expect("the same one");
    let CmdData::HvacOverrunListData(list) = &stop else {
        panic!("expected the overrun list");
    };
    assert_eq!(
        list.hvac_overrun_data.as_ref().unwrap()[0]
            .overrun_status
            .as_ref(),
        Some(&HvacOverrunStatus::Inactive)
    );
}

#[test]
fn an_overrun_the_circuit_does_not_have_is_refused() {
    let modes = [HvacOperationModeType::Auto, HvacOperationModeType::On];
    let mut known = cdsf::reader();
    known.learn(&cdsf::system_function_description());
    known.learn(&cdsf::operation_mode_descriptions(&modes).unwrap());
    known.learn(&cdsf::operation_mode_relations(&modes).unwrap());
    assert_eq!(known.start_overrun(), Err(ModeRefused::NoOverrun));
}

#[test]
fn the_circuit_decides_before_it_acknowledges() {
    let circuit = configurable_circuit();

    let write = circuit.set_mode_named(&HvacOperationModeType::On).unwrap();
    assert_eq!(
        circuit.apply(&write),
        Ok(Request::SetMode(
            cdsf::operation_mode_id(&HvacOperationModeType::On).unwrap()
        ))
    );

    assert_eq!(
        circuit.apply(&circuit.start_overrun().unwrap()),
        Ok(Request::StartOverrun(HvacOverrunId(cdsf::OVERRUN_ID)))
    );
    assert_eq!(
        circuit.apply(&circuit.stop_overrun().unwrap()),
        Ok(Request::StopOverrun(HvacOverrunId(cdsf::OVERRUN_ID)))
    );

    let elsewhere = system_function::set_operation_mode(
        hvac::system_function_id(&hvac::HEATING),
        cdsf::operation_mode_id(&HvacOperationModeType::On).unwrap(),
    );
    assert_eq!(
        circuit.apply(&elsewhere),
        Err(ModeRefused::NotAddressed),
        "a hot water reader hands on a write addressed to the room heating"
    );

    let bogus = system_function::set_operation_mode(
        HvacSystemFunctionId(cdsf::SYSTEM_FUNCTION_ID),
        HvacOperationModeId(7),
    );
    assert_eq!(circuit.apply(&bogus), Err(ModeRefused::NotRelated));
    assert_eq!(
        ModeRefused::NotRelated.error_number(),
        ErrorNumber::DestinationUnknown
    );

    let finished = system_function::overrun_state(
        HvacOverrunId(cdsf::OVERRUN_ID),
        HvacOverrunStatus::Finished,
    );
    assert_eq!(circuit.apply(&finished), Err(ModeRefused::NoOverrun));
}

#[test]
fn cdsf_writes_need_no_binding() {
    assert_eq!(
        cdsf::hvac_feature(1).write_binding(),
        WriteBinding::NotRequired
    );
    assert_eq!(
        cdsf::configuration_appliance()
            .features_needing_binding()
            .len(),
        0
    );
}

#[test]
fn cdsf_the_scenarios_carry_the_support_the_table_gives_them() {
    let circuit = cdsf::dhw_circuit();
    let appliance = cdsf::configuration_appliance();
    assert_eq!(support(&circuit, 1), Support::Mandatory);
    assert_eq!(support(&circuit, 2), Support::Mandatory);
    assert_eq!(
        support(&circuit, 3),
        Support::Recommended,
        "a circuit that can start a one-time loading need not be able to stop one"
    );
    assert_eq!(
        appliance.required_scenarios(),
        Vec::<u32>::new(),
        "at least one of the scenarios is not all of them"
    );
    assert_eq!(circuit.counterpart, appliance.actor);
}

#[test]
fn a_circuit_with_one_operation_mode_publishes_nothing() {
    assert!(mdsf::operation_mode_descriptions(&[HvacOperationModeType::On]).is_none());
    assert!(mdsf::operation_mode_relations(&[HvacOperationModeType::On]).is_none());
    assert!(mdsf::operation_mode_descriptions(&[
        HvacOperationModeType::On,
        HvacOperationModeType::Off
    ])
    .is_some());
}

#[test]
fn mdsf_001_the_current_mode_is_read_back_as_a_mode() {
    let mut known = monitored_circuit();
    assert!(
        !known.is_complete(),
        "no current mode has been notified yet"
    );

    let off = mdsf::operation_mode_id(&HvacOperationModeType::Off).unwrap();
    known.learn(&mdsf::system_function_state(off, false, Some(true)));

    assert!(known.is_complete());
    assert_eq!(known.mode(), Some(HvacOperationModeType::Off));
    assert_eq!(known.mode_changeable(), Some(true));
    assert_eq!(known.overrun_active(), Some(false));
}

#[test]
fn the_hot_water_is_found_among_the_other_system_functions() {
    let own = HvacSystemFunctionId(mdsf::SYSTEM_FUNCTION_ID);
    let theirs = HvacSystemFunctionId(4);
    let descriptions =
        system_function::descriptions(&vec![(own, hvac::HEATING), (theirs, hvac::DHW)]);

    assert_eq!(
        hvac::find_system_function(&descriptions, &hvac::DHW),
        Some(theirs)
    );

    let mut known = mdsf::reader();
    known.learn(&descriptions);
    assert_eq!(known.system_function(), Some(theirs));

    known.learn(&CmdData::HvacSystemFunctionListData(
        HvacSystemFunctionListData {
            hvac_system_function_data: Some(vec![HvacSystemFunctionData {
                system_function_id: Some(own),
                current_operation_mode_id: Some(HvacOperationModeId(2)),
                is_operation_mode_id_changeable: None,
                is_overrun_active: None,
            }]),
        },
    ));
    assert_eq!(known.mode_id(), None, "that was the heating, not the tank");
}

#[test]
fn mdsf_002_a_finished_overrun_settles_to_inactive() {
    let mut known = monitored_circuit();
    known.learn(&mdsf::overrun_description());

    known.learn(&mdsf::overrun_state(HvacOverrunStatus::Running));
    assert_eq!(known.overrun(), Some(OverrunReport::Running));
    assert!(!known.overrun_just_finished());

    known.learn(&mdsf::overrun_state(HvacOverrunStatus::Finished));
    assert_eq!(
        known.overrun(),
        Some(OverrunReport::Inactive),
        "the resting state after a heating completes"
    );
    assert!(
        known.overrun_just_finished(),
        "and the announcement, separately"
    );

    known.learn(&mdsf::overrun_state(HvacOverrunStatus::Inactive));
    assert!(
        !known.overrun_just_finished(),
        "which does not survive the next payload"
    );
}

#[test]
fn an_overrun_on_another_system_function_is_ignored() {
    let mut known = monitored_circuit();
    known.learn(&CmdData::HvacOverrunDescriptionListData(
        HvacOverrunDescriptionListData {
            hvac_overrun_description_data: Some(vec![HvacOverrunDescriptionData {
                overrun_id: Some(HvacOverrunId(9)),
                overrun_type: Some(HvacOverrunType::Party),
                affected_system_function_id: Some(vec![HvacSystemFunctionId(7)]),
            }]),
        },
    ));
    known.learn(&CmdData::HvacOverrunListData(HvacOverrunListData {
        hvac_overrun_data: Some(vec![HvacOverrunData {
            overrun_id: Some(HvacOverrunId(9)),
            overrun_status: Some(HvacOverrunStatus::Running),
        }]),
    }));
    assert_eq!(
        known.overrun(),
        None,
        "a party mode is not a one-time hot water heating"
    );
}

#[test]
fn the_current_mode_names_the_setpoint_a_write_would_reach() {
    let auto = mdsf::operation_mode_id(&HvacOperationModeType::Auto).unwrap();
    let off = mdsf::operation_mode_id(&HvacOperationModeType::Off).unwrap();

    let mut setpoints = cdt::reader();
    setpoints.learn(
        &cdt::system_function_relations(&[
            (auto, HvacOperationModeType::Auto, vec![SetpointId(1)]),
            (off, HvacOperationModeType::Off, vec![]),
        ])
        .expect("well formed"),
    );

    let mut known = monitored_circuit();
    known.learn(&mdsf::system_function_state(auto, false, None));
    assert_eq!(known.current_setpoints(&setpoints), [SetpointId(1)]);

    known.learn(&mdsf::system_function_state(off, false, None));
    assert_eq!(
        known.current_setpoints(&setpoints),
        [],
        "in `off` a write reaches no setpoint the circuit is reading"
    );
}

#[test]
fn the_six_replies_may_arrive_in_any_order() {
    let modes = [
        HvacOperationModeType::Auto,
        HvacOperationModeType::On,
        HvacOperationModeType::Off,
    ];
    let payloads = [
        mdsf::overrun_state(HvacOverrunStatus::Running),
        mdsf::system_function_state(
            mdsf::operation_mode_id(&HvacOperationModeType::On).unwrap(),
            true,
            None,
        ),
        mdsf::overrun_description(),
        mdsf::operation_mode_relations(&modes).expect("three modes"),
        mdsf::operation_mode_descriptions(&modes).expect("three modes"),
        mdsf::system_function_description(),
    ];

    let mut known = mdsf::reader();
    for payload in &payloads {
        assert!(
            known.learn(payload),
            "every one of them belongs to this use case"
        );
    }

    assert!(known.is_complete());
    assert_eq!(known.mode(), Some(HvacOperationModeType::On));
    assert_eq!(known.related_modes().len(), 3);
    assert_eq!(known.overrun(), Some(OverrunReport::Running));
    assert_eq!(known.overrun_active(), Some(true));

    let mut forwards = mdsf::reader();
    for payload in payloads.iter().rev() {
        forwards.learn(payload);
    }
    assert_eq!(known, forwards, "nothing depends on the order");
}

#[test]
fn mdsf_the_scenarios_carry_the_support_the_table_gives_them() {
    let circuit = mdsf::dhw_circuit();
    let appliance = mdsf::monitoring_appliance();
    assert_eq!(support(&circuit, 1), Support::Mandatory);
    assert_eq!(
        support(&circuit, 2),
        Support::Recommended,
        "a circuit need not offer a one-time heating"
    );
    assert_eq!(support(&appliance, 1), Support::Mandatory);
    assert_eq!(
        support(&appliance, 2),
        Support::Mandatory,
        "but an appliance must be able to read one"
    );
    assert_eq!(circuit.counterpart, appliance.actor);
    assert_eq!(appliance.counterpart, circuit.actor);
}

#[test]
fn a_circuit_serving_both_use_cases_has_one_hvac_feature() {
    let shared = mdsf::with_cdt(1);
    assert!(
        shared
            .functions()
            .iter()
            .any(|f| f.0 == Function::HvacSystemFunctionSetpointRelationListData),
        "the setpoint relations live on the same feature"
    );
    assert!(
        shared
            .functions()
            .iter()
            .any(|f| f.0 == Function::HvacOverrunListData),
        "beside this use case's own"
    );
}

#[test]
fn mdsf_nothing_here_is_writeable() {
    let feature = mdsf::hvac_feature(1);
    assert!(
        feature.functions().iter().all(|f| !f.1.write),
        "every function is read and none is written"
    );
}

#[test]
fn the_current_mode_is_read_back_as_a_mode() {
    let mut known = room();
    assert!(
        !known.is_complete(),
        "no current mode has been notified yet"
    );

    known.learn(&mrcsf::system_function_state(
        mrcsf::operation_mode_id(&HvacOperationModeType::Off).unwrap(),
        false,
        Some(true),
    ));
    assert!(known.is_complete());
    assert_eq!(known.mode(), Some(HvacOperationModeType::Off));
    assert_eq!(
        known.system_function(),
        Some(HvacSystemFunctionId(mrcsf::SYSTEM_FUNCTION_ID))
    );
}

#[test]
fn the_room_and_the_hot_water_do_not_collide() {
    let descriptions = system_function::descriptions(&vec![
        (hvac::system_function_id(&hvac::DHW), hvac::DHW),
        (
            HvacSystemFunctionId(mrcsf::SYSTEM_FUNCTION_ID),
            hvac::COOLING,
        ),
    ]);
    let modes = [HvacOperationModeType::Auto, HvacOperationModeType::Off];

    let mut room = mrcsf::reader();
    let mut tank = mdsf::reader();
    for payload in [
        descriptions,
        mrcsf::operation_mode_descriptions(&modes).unwrap(),
        mrcsf::operation_mode_relations(&modes).unwrap(),
        mrcsf::system_function_state(
            mrcsf::operation_mode_id(&HvacOperationModeType::Off).unwrap(),
            false,
            None,
        ),
    ] {
        room.learn(&payload);
        tank.learn(&payload);
    }

    assert_eq!(room.mode(), Some(HvacOperationModeType::Off));
    assert_eq!(
        tank.mode(),
        None,
        "the hot water's own state was never published"
    );
    assert_ne!(room.system_function(), tank.system_function());
}

#[test]
fn mrcsf_both_actors_implement_the_only_scenario() {
    for descriptor in [mrcsf::hvac_room(), mrcsf::monitoring_appliance()] {
        assert_eq!(descriptor.name, mrcsf::NAME);
        assert_eq!(descriptor.version, "1.0.0");
        assert_eq!(descriptor.required_scenarios(), [1]);
    }
    assert!(mrcsf::hvac_room().permits_entity(EntityType::HVACRoom));
    assert!(!mrcsf::hvac_room().permits_entity(EntityType::DHWCircuit));
    assert_eq!(
        mrcsf::hvac_room().counterpart,
        mrcsf::monitoring_appliance().actor
    );
}

#[test]
fn mrcsf_nothing_here_is_writeable() {
    assert!(mrcsf::hvac_feature(1)
        .functions()
        .iter()
        .all(|f| !f.1.write));
}

#[test]
fn every_refusal_of_a_mode_has_its_input() {
    let nobody = cdsf::reader();
    assert_eq!(
        nobody.set_mode(HvacOperationModeId(1)),
        Err(ModeRefused::FunctionUnknown)
    );
    assert_eq!(
        nobody.apply(&cdsf::system_function_state(
            HvacOperationModeId(1),
            false,
            None
        )),
        Err(ModeRefused::FunctionUnknown)
    );
    assert_eq!(
        nobody.apply(&cdsf::overrun_description()),
        Err(ModeRefused::NotAddressed)
    );
    let known = configurable_circuit();
    let silent = CmdData::HvacOverrunListData(HvacOverrunListData {
        hvac_overrun_data: Some(vec![HvacOverrunData {
            overrun_id: Some(HvacOverrunId(cdsf::OVERRUN_ID)),
            overrun_status: None,
        }]),
    });
    assert_eq!(known.apply(&silent), Err(ModeRefused::NotAddressed));
    assert_eq!(
        ModeRefused::NotChangeable.error_number(),
        ErrorNumber::CommandRejected
    );
    assert_eq!(
        ModeRefused::NoOverrun.message(),
        "the peer has no overrun of this kind"
    );
    assert_eq!(
        ModeRefused::NotRelated.message(),
        "this system function does not have that operation mode"
    );
}

#[test]
fn a_device_with_two_functions_publishes_both_at_once() {
    let dhw = hvac::system_function_id(&hvac::DHW);
    let cooling = hvac::system_function_id(&hvac::COOLING);
    let auto = system_function::operation_mode_id(&HvacOperationModeType::Auto).unwrap();
    let eco = system_function::operation_mode_id(&HvacOperationModeType::Eco).unwrap();

    let mut tank = SystemFunction::dhw();
    let mut room = SystemFunction::cooling();
    let descriptions =
        system_function::descriptions(&vec![(dhw, hvac::DHW), (cooling, hvac::COOLING)]);
    let relations = system_function::operation_mode_relations_of(&vec![
        (
            dhw,
            vec![HvacOperationModeType::Auto, HvacOperationModeType::Eco],
        ),
        (
            cooling,
            vec![HvacOperationModeType::Auto, HvacOperationModeType::Off],
        ),
    ])
    .expect("two modes each");
    let states = system_function::states(&vec![
        (dhw, eco, true, Some(true)),
        (cooling, auto, false, None),
    ]);
    for payload in [descriptions, relations, states] {
        tank.learn(&payload);
        room.learn(&payload);
    }
    assert_eq!(tank.mode_id(), Some(eco));
    assert_eq!(room.mode_id(), Some(auto));
    assert_eq!(tank.related_modes(), [auto, eco]);
    assert_eq!(tank.overrun_active(), Some(true));
    assert!(
        system_function::operation_mode_relations_of(&vec![(
            dhw,
            vec![HvacOperationModeType::Auto]
        )])
        .is_none(),
        "one mode is not a choice"
    );
    assert!(
        system_function::operation_mode_descriptions(&[
            HvacOperationModeType::Auto,
            HvacOperationModeType::Other(4)
        ])
        .is_none(),
        "a mode without a number cannot be published"
    );
}

#[test]
fn operation_modes_are_known_by_number_and_by_name() {
    let modes = [HvacOperationModeType::Auto, HvacOperationModeType::Off];
    let mut known = OperationModes::new();
    assert!(known.is_empty());
    assert!(!known.learn(&mdsf::system_function_description()));
    assert!(known.learn(&mdsf::operation_mode_descriptions(&modes).unwrap()));
    assert!(known.is_sufficient());
    assert_eq!(
        known.id_of(&HvacOperationModeType::Off),
        Some(HvacOperationModeId(3))
    );
    assert_eq!(
        known.kind_of(HvacOperationModeId(1)),
        Some(HvacOperationModeType::Auto)
    );
    assert_eq!(known.kind_of(HvacOperationModeId(2)), None);
    assert_eq!(known.all().len(), 2);

    let mut tank = mdsf::reader();
    tank.learn(&mdsf::system_function_description());
    tank.learn(&mdsf::operation_mode_descriptions(&modes).unwrap());
    tank.learn(
        &mdsf::operation_mode_relations(&[HvacOperationModeType::Auto, HvacOperationModeType::On])
            .unwrap(),
    );
    assert_eq!(
        tank.available_modes(),
        [(HvacOperationModeId(1), HvacOperationModeType::Auto)],
        "`on` is related, but the device never described it"
    );
}

#[test]
fn an_overrun_report_is_the_state_it_rests_in() {
    assert_eq!(
        OverrunReport::read(&HvacOverrunStatus::Finished),
        Some((OverrunReport::Inactive, true))
    );
    assert_eq!(OverrunReport::read(&HvacOverrunStatus::Other(1)), None);
    assert_eq!(
        OverrunReport::Running.as_status(),
        HvacOverrunStatus::Running
    );
}

#[test]
fn features_carry_the_relations_beside_the_modes() {
    let shared = mrcsf::with_setpoints(4);
    assert_eq!(shared.functions().len(), 5);
    assert!(shared.functions().iter().all(|f| !f.1.write));
    let both = cdsf::with_cdt(2);
    let written: Vec<Function> = both
        .functions()
        .iter()
        .filter(|f| f.1.write)
        .map(|f| f.0)
        .collect();
    assert_eq!(
        written,
        [
            Function::HvacSystemFunctionListData,
            Function::HvacOverrunListData
        ]
    );
    assert!(both.deferred_writes);
}
