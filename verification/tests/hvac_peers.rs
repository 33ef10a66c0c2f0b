//! Peers that serve heating, cooling and hot water, and the appliance that follows them.

use eebus::address::{AddressDevice, FeatureAddress, UnitId};
use eebus::model::{
    CmdData, EntityType, ErrorNumber, Function, HvacOperationModeId, HvacOperationModeType,
    HvacOverrunId, HvacOverrunStatus, HvacOverrunType, MsgCounter, Role, ScopeType, SetpointId,
    UnitOfMeasurement,
};
use eebus::number::Number;
use eebus::spine::{
    Command, Engine, Filter, LocalFeature, RemoteDevice, RemoteEntity, RemoteFeature,
    RemoteUseCase, SpineEvent,
};
use eebus::time::Duration;
use eebus::usecases::descriptor::{ActorRole, Scenario, Support, UseCaseDescriptor};
use eebus::usecases::hvac::appliance::{HvacApplianceActor, HvacEvent};
use eebus::usecases::hvac::peer::{self, HvacPeer, Subject};
use eebus::usecases::hvac::setpoint::{self, SetpointEffect, WriteRefused};
use eebus::usecases::hvac::system_function::{self, ModeRefused, OverrunReport};
use eebus::usecases::hvac::{self, cdsf, cdt, mdsf, mrcsf, scenarios};

const PUMP: &str = "d:_i:46925_HeatPump-1";

fn degrees(value: f64) -> Number {
    Number::from_thousandths((value * 1000.0).round() as i64)
}

fn at(device: &str, entity: u32, feature: u32) -> FeatureAddress {
    FeatureAddress::new(AddressDevice::named(device), vec![entity], feature)
}

fn entity(
    device: &str,
    path: u32,
    entity_type: EntityType,
    features: Vec<LocalFeature>,
) -> RemoteEntity {
    RemoteEntity {
        path: vec![path],
        entity_type,
        features: features
            .iter()
            .map(|feature| RemoteFeature {
                address: at(device, path, feature.address),
                feature_type: feature.feature_type,
                role: feature.role,
                functions: feature.functions().iter().map(|f| f.0).collect(),
            })
            .collect(),
    }
}

fn announced(path: u32, descriptor: &UseCaseDescriptor) -> RemoteUseCase {
    RemoteUseCase {
        entity: vec![path],
        actor: String::from(descriptor.actor),
        name: String::from(descriptor.name),
    }
}

/// The room heating use case that sets the mode.
fn heating_mode() -> UseCaseDescriptor {
    UseCaseDescriptor::released(
        "configurationOfRoomHeatingSystemFunction",
        "HVACRoom",
        ActorRole::Server,
        vec![EntityType::HVACRoom],
        "ConfigurationAppliance",
        vec![Scenario::new(
            1,
            "Set room heating operation mode",
            Support::Mandatory,
            scenarios::mode_functions(Role::Server, true),
        )],
    )
}

/// The room heating use case that sets the temperature.
fn heating_temperature() -> UseCaseDescriptor {
    UseCaseDescriptor::released(
        "configurationOfRoomHeatingTemperature",
        "HVACRoom",
        ActorRole::Server,
        vec![EntityType::HVACRoom],
        "ConfigurationAppliance",
        vec![Scenario::new(
            1,
            "Set room heating temperature setpoint",
            Support::Mandatory,
            scenarios::setpoint_functions(Role::Server),
        )],
    )
}

fn heating_rooms(remote: &RemoteDevice) -> Vec<HvacPeer> {
    peer::locate_all(remote, &heating_mode(), &Subject::mode(hvac::HEATING))
}

fn heating_room(remote: &RemoteDevice) -> Option<HvacPeer> {
    peer::locate(remote, &heating_mode(), &Subject::mode(hvac::HEATING))
}

/// A heat pump that heats the hot water and two rooms, one entity and one feature each.
fn gateway() -> RemoteDevice {
    RemoteDevice {
        address: Some(AddressDevice::named(PUMP)),
        entities: vec![
            entity(
                PUMP,
                1,
                EntityType::DHWCircuit,
                vec![cdt::setpoint_feature(1), cdsf::with_cdt(2)],
            ),
            entity(
                PUMP,
                2,
                EntityType::HVACRoom,
                vec![system_function::writeable(1, false)],
            ),
            entity(
                PUMP,
                3,
                EntityType::HVACRoom,
                vec![system_function::writeable(1, false)],
            ),
        ],
        use_cases: vec![
            announced(1, &cdsf::dhw_circuit()),
            announced(1, &mdsf::dhw_circuit()),
            announced(1, &cdt::dhw_circuit()),
            announced(2, &heating_mode()),
            announced(3, &heating_mode()),
        ],
    }
}

fn manager() -> (Engine, FeatureAddress) {
    (
        Engine::new(AddressDevice::named("d:_i:12345_CEM-1")),
        at("d:_i:12345_CEM-1", 1, 1),
    )
}

#[test]
fn the_feature_is_the_one_on_the_entity_that_announced_the_use_case() {
    let remote = gateway();

    let circuit = cdsf::locate(&remote).expect("the DHW circuit");
    assert_eq!(circuit.hvac, at(PUMP, 1, 2));
    assert_eq!(circuit.entity(), vec![1]);
    assert_eq!(
        circuit.setpoint, None,
        "a system-function use case has no setpoint in scope"
    );

    let room = heating_room(&remote).expect("a room");
    assert_eq!(room.hvac, at(PUMP, 2, 1));
    assert_ne!(room.hvac, circuit.hvac);
}

#[test]
fn a_gateway_with_two_rooms_is_two_peers() {
    let remote = gateway();

    let rooms = heating_rooms(&remote);
    assert_eq!(rooms.len(), 2);
    assert_eq!(rooms[0].entity(), vec![2]);
    assert_eq!(rooms[1].entity(), vec![3]);
    assert_eq!(
        heating_room(&remote).as_ref(),
        Some(&rooms[0]),
        "`locate` is the first of them"
    );
}

#[test]
fn a_temperature_use_case_locates_the_setpoint_beside_the_hvac_feature() {
    let remote = gateway();

    let circuit = cdt::locate(&remote).expect("the DHW circuit");
    assert_eq!(circuit.setpoint, Some(at(PUMP, 1, 1)));
    assert_eq!(
        circuit.hvac,
        at(PUMP, 1, 2),
        "the relation that says which mode uses which setpoint lives here"
    );
}

#[test]
fn a_peer_that_serves_none_of_it_is_not_located() {
    let remote = gateway();
    assert_eq!(
        mrcsf::locate(&remote),
        None,
        "this gateway never announced the monitoring use case"
    );

    let bare = "d:_i:46925_HeatPump-2";
    let remote = RemoteDevice {
        address: Some(AddressDevice::named(bare)),
        entities: vec![entity(
            bare,
            1,
            EntityType::DHWCircuit,
            vec![mdsf::hvac_feature(1)],
        )],
        use_cases: vec![announced(1, &cdt::dhw_circuit())],
    };
    assert_eq!(
        cdt::locate(&remote),
        None,
        "a setpoint use case with no `Setpoint` feature has no scenario it can serve"
    );
    assert!(
        mdsf::locate(&remote).is_none(),
        "and the use case it did not announce is not located either"
    );
}

#[test]
fn follow_subscribes_and_reads_everything_the_scenarios_name() {
    let remote = gateway();
    let circuit = cdsf::locate(&remote).expect("the DHW circuit");
    let (mut engine, client) = manager();

    let pending = circuit.follow(&mut engine, &client, Duration::zero());
    let read: Vec<Function> = pending.reads.iter().map(|(f, _)| *f).collect();
    assert_eq!(
        read,
        [
            Function::HvacSystemFunctionDescriptionListData,
            Function::HvacOperationModeDescriptionListData,
            Function::HvacSystemFunctionOperationModeRelationListData,
            Function::HvacSystemFunctionListData,
            Function::HvacOverrunDescriptionListData,
            Function::HvacOverrunListData,
        ],
        "the descriptions before the state, because they say what the state means"
    );
    assert_eq!(
        pending.setpoint_subscription, None,
        "there is no `Setpoint` feature to subscribe to"
    );
    assert!(pending.is_subscription(pending.subscription));
    assert_eq!(
        pending.function_of(pending.reads[4].1),
        Some(Function::HvacOverrunDescriptionListData),
        "which is what turns `errorNumber` 7 into a sentence"
    );
    assert_eq!(pending.function_of(pending.subscription), None);
}

#[test]
fn a_temperature_use_case_subscribes_to_both_features() {
    let remote = gateway();
    let circuit = cdt::locate(&remote).expect("the DHW circuit");
    let (mut engine, client) = manager();

    let pending = circuit.follow(&mut engine, &client, Duration::zero());
    assert!(
        pending.setpoint_subscription.is_some(),
        "a setpoint changed at the wall panel is a change this appliance has to hear"
    );
    let read: Vec<Function> = pending.reads.iter().map(|(f, _)| *f).collect();
    assert_eq!(
        read,
        [
            Function::SetpointDescriptionListData,
            Function::SetpointConstraintsListData,
            Function::SetpointListData,
            Function::HvacSystemFunctionSetpointRelationListData,
        ]
    );
}

#[test]
fn a_function_the_peer_never_declared_is_not_read() {
    let bare = "d:_i:46925_HeatPump-3";
    let remote = RemoteDevice {
        address: Some(AddressDevice::named(bare)),
        entities: vec![entity(
            bare,
            1,
            EntityType::DHWCircuit,
            vec![system_function::writeable(1, false)],
        )],
        use_cases: vec![announced(1, &cdsf::dhw_circuit())],
    };

    let circuit = cdsf::locate(&remote).expect("a circuit serving scenario 1");
    let read: Vec<Function> = circuit
        .reads()
        .iter()
        .map(|(_, function)| *function)
        .collect();
    assert_eq!(read.len(), 4, "four functions, not six: {read:?}");
    assert!(!circuit.serves_function(&Function::HvacOverrunListData));
    assert!(circuit.serves_function(&Function::HvacSystemFunctionListData));
}

#[test]
fn a_peer_recognises_its_own_features() {
    let remote = gateway();
    let circuit = cdt::locate(&remote).expect("the DHW circuit");
    let room = heating_room(&remote).expect("a room");

    assert!(circuit.serves(&at(PUMP, 1, 2)));
    assert!(circuit.serves(&at(PUMP, 1, 1)));
    assert!(!circuit.serves(&at(PUMP, 2, 1)));
    assert!(room.serves(&at(PUMP, 2, 1)));
    assert!(!room.serves(&at(PUMP, 1, 2)));
}

/// A gateway with two rooms, each with its own features.
fn rooms_only() -> RemoteDevice {
    let room = |path: u32| {
        entity(
            PUMP,
            path,
            EntityType::HVACRoom,
            vec![
                setpoint::setpoint_feature(1),
                system_function::with_setpoint_relations(system_function::writeable(2, false)),
            ],
        )
    };
    RemoteDevice {
        address: Some(AddressDevice::named(PUMP)),
        entities: vec![room(1), room(2)],
        use_cases: vec![
            announced(1, &heating_mode()),
            announced(2, &heating_mode()),
            announced(1, &heating_temperature()),
            announced(2, &heating_temperature()),
        ],
    }
}

fn notified(feature: &FeatureAddress, data: CmdData) -> SpineEvent {
    SpineEvent::DataNotified {
        feature: feature.clone(),
        resolved: data,
    }
}

fn auto() -> HvacOperationModeId {
    system_function::operation_mode_id(&HvacOperationModeType::Auto).expect("a numbered mode")
}

fn off() -> HvacOperationModeId {
    system_function::operation_mode_id(&HvacOperationModeType::Off).expect("a numbered mode")
}

fn heating_state(mode: HvacOperationModeId) -> CmdData {
    system_function::state(
        hvac::system_function_id(&hvac::HEATING),
        mode,
        false,
        Some(true),
    )
}

/// Commissions both rooms and returns the actor, the two units and the two features.
fn two_rooms() -> (
    HvacApplianceActor,
    Engine,
    Vec<UnitId>,
    Vec<FeatureAddress>,
) {
    let remote = rooms_only();
    let (mut engine, client) = manager();
    let mut actor = HvacApplianceActor::new(client);
    let heating = hvac::system_function_id(&hvac::HEATING);
    let modes = [HvacOperationModeType::Auto, HvacOperationModeType::Off];

    let rooms = heating_rooms(&remote);
    assert_eq!(rooms.len(), 2);
    let units: Vec<UnitId> = rooms.iter().map(HvacPeer::id).collect();
    let features: Vec<FeatureAddress> = rooms.iter().map(|r| r.hvac.clone()).collect();
    let temperatures = peer::locate_all(
        &remote,
        &heating_temperature(),
        &Subject::temperature(hvac::HEATING, ScopeType::RoomAirTemperature),
    );
    for room in rooms.into_iter().chain(temperatures) {
        actor.attach(&mut engine, room, Duration::zero());
    }

    for feature in &features {
        for payload in [
            system_function::description(heating, hvac::HEATING),
            system_function::operation_mode_descriptions(&modes).expect("two modes"),
            system_function::operation_mode_relations(heating, &modes).expect("two modes"),
            heating_state(auto()),
        ] {
            actor.handle_event(&notified(feature, payload));
        }
    }
    (actor, engine, units, features)
}

#[test]
fn two_rooms_of_one_gateway_are_two_units() {
    let (mut actor, _engine, units, features) = two_rooms();

    assert_eq!(actor.units().len(), 2);
    assert_ne!(units[0], units[1]);
    for unit in &units {
        assert_eq!(
            actor.mode(unit, &hvac::HEATING),
            Some(HvacOperationModeType::Auto)
        );
    }

    let events = actor.handle_event(&notified(&features[1], heating_state(off())));
    assert_eq!(
        events,
        [HvacEvent::ModeChanged {
            unit: units[1].clone(),
            function: hvac::HEATING,
            mode: HvacOperationModeType::Off,
            id: off(),
        }]
    );
    assert_eq!(
        actor.mode(&units[0], &hvac::HEATING),
        Some(HvacOperationModeType::Auto),
        "the other room did not move"
    );
}

#[test]
fn an_unchanged_mode_is_not_reported_again() {
    let (mut actor, _engine, units, features) = two_rooms();

    let again = actor.handle_event(&notified(&features[0], heating_state(auto())));
    assert_eq!(again, [], "nothing moved");

    let moved = actor.handle_event(&notified(&features[0], heating_state(off())));
    assert_eq!(moved.len(), 1);
    assert!(matches!(
        moved[0],
        HvacEvent::ModeChanged { ref unit, .. } if unit == &units[0]
    ));
}

#[test]
fn a_feature_that_is_not_followed_is_ignored() {
    let (mut actor, _engine, _units, _features) = two_rooms();

    let stranger = at("d:_i:99999_Other-1", 1, 2);
    assert_eq!(
        actor.handle_event(&notified(&stranger, heating_state(off()))),
        [],
        "another device may well number an entity and a feature the same way"
    );
}

#[test]
fn a_mode_reading_several_setpoints_is_not_guessed_at() {
    let (mut actor, mut engine, units, features) = two_rooms();
    let unit = units[0].clone();
    let heating = hvac::system_function_id(&hvac::HEATING);

    let day = SetpointId(1);
    let night = SetpointId(2);
    for payload in [
        setpoint::descriptions(&vec![
            (
                day,
                ScopeType::RoomAirTemperature,
                UnitOfMeasurement::DegC,
                None,
            ),
            (
                night,
                ScopeType::RoomAirTemperature,
                UnitOfMeasurement::DegC,
                None,
            ),
        ]),
        setpoint::constraints_of(&vec![
            (day, degrees(16.0), degrees(26.0), None),
            (night, degrees(16.0), degrees(26.0), None),
        ]),
        setpoint::values(&vec![(day, degrees(21.0)), (night, degrees(18.0))]),
        setpoint::relations(
            heating,
            &[(auto(), HvacOperationModeType::Auto, vec![day, night])],
        )
        .expect("well formed"),
    ] {
        actor.handle_event(&notified(&features[0], payload));
    }

    assert_eq!(
        actor.set_temperature(
            &mut engine,
            &unit,
            &hvac::HEATING,
            degrees(21.0),
            Duration::zero()
        ),
        Err(WriteRefused::SeveralSetpoints { count: 2 }),
        "picking the first would be a guess about which one the room reads"
    );
    assert_eq!(actor.temperature(&unit, &hvac::HEATING), None);
    assert!(
        actor
            .set_setpoint(
                &mut engine,
                &unit,
                &hvac::HEATING,
                night,
                degrees(19.0),
                Duration::zero()
            )
            .is_ok(),
        "naming one is what the caller has to do, and it is still checked"
    );
    assert_eq!(
        actor
            .set_setpoint(
                &mut engine,
                &unit,
                &hvac::HEATING,
                SetpointId(9),
                degrees(19.0),
                Duration::zero()
            )
            .unwrap_err(),
        WriteRefused::UnknownSetpoint
    );
}

#[test]
fn an_unknown_unit_refuses_every_write() {
    let (actor, mut engine, _units, _features) = two_rooms();
    let nobody = UnitId {
        device: AddressDevice::named("d:_i:99999_Other-1"),
        entity: vec![7],
    };

    assert_eq!(
        actor.set_mode(
            &mut engine,
            &nobody,
            &hvac::HEATING,
            &HvacOperationModeType::Off,
            Duration::zero()
        ),
        Err(ModeRefused::FunctionUnknown)
    );
    assert_eq!(
        actor.set_temperature(
            &mut engine,
            &nobody,
            &hvac::HEATING,
            degrees(21.0),
            Duration::zero()
        ),
        Err(WriteRefused::ModeUnknown)
    );
    assert_eq!(actor.mode(&nobody, &hvac::HEATING), None);
    assert_eq!(
        actor.effect(&nobody, &hvac::HEATING, SetpointId(1)),
        SetpointEffect::Unknown
    );
    assert_eq!(
        actor.start_overrun(&mut engine, &nobody, &hvac::DHW, Duration::zero()),
        Err(ModeRefused::NoOverrun)
    );
    assert_eq!(
        actor.preload_setpoint(
            &mut engine,
            &nobody,
            &hvac::HEATING,
            SetpointId(1),
            degrees(21.0),
            Duration::zero()
        ),
        Err(WriteRefused::UnknownSetpoint)
    );
}

#[test]
fn a_lost_device_takes_all_of_its_units() {
    let (mut actor, _engine, units, _features) = two_rooms();

    actor.detach(&units[0]);
    assert_eq!(actor.units().len(), 1);
    actor.detach_device(&units[1].device);
    assert_eq!(actor.units().len(), 0);
}

#[test]
fn a_mode_is_written_to_the_room_that_was_named() {
    let (actor, mut engine, units, features) = two_rooms();
    let before = engine.outbox.len();
    let request = actor
        .set_mode(
            &mut engine,
            &units[1],
            &hvac::HEATING,
            &HvacOperationModeType::Off,
            Duration::from_secs(5),
        )
        .expect("a mode of the room");
    assert_eq!(engine.outbox.len(), before + 1);
    let (when, command) = engine.outbox.last().unwrap();
    assert_eq!(*when, Duration::from_secs(5));
    assert_eq!(
        *command,
        Command::Write {
            counter: request,
            to: features[1].clone(),
            from: at("d:_i:12345_CEM-1", 1, 1),
            data: system_function::set_operation_mode(
                hvac::system_function_id(&hvac::HEATING),
                off()
            ),
            filters: vec![Filter::partial()],
        }
    );
    assert_eq!(
        actor.set_mode(
            &mut engine,
            &units[1],
            &hvac::HEATING,
            &HvacOperationModeType::Eco,
            Duration::zero()
        ),
        Err(ModeRefused::NotRelated)
    );
    assert_eq!(engine.outbox.len(), before + 1, "a refusal sends nothing");
}

#[test]
fn a_repeated_notification_reports_no_change() {
    let (mut actor, _engine, _units, features) = two_rooms();
    let setpoints = at(PUMP, 1, 1);
    for payload in [
        setpoint::description(
            SetpointId(1),
            ScopeType::RoomAirTemperature,
            UnitOfMeasurement::DegC,
            None,
        ),
        setpoint::value(SetpointId(1), degrees(21.0)),
    ] {
        actor.handle_event(&notified(&setpoints, payload));
    }
    let changed = setpoint::value(SetpointId(1), degrees(22.0));
    assert_eq!(
        actor
            .handle_event(&notified(&setpoints, changed.clone()))
            .len(),
        1
    );
    assert_eq!(actor.handle_event(&notified(&setpoints, changed)), []);
    let moved = heating_state(off());
    assert_eq!(
        actor.handle_event(&notified(&features[0], moved.clone())).len(),
        1
    );
    assert_eq!(actor.handle_event(&notified(&features[0], moved)), []);
}

#[test]
fn one_use_case_after_the_other_gathers_on_one_unit() {
    let remote = gateway();
    let (mut engine, client) = manager();
    let mut actor = HvacApplianceActor::new(client);
    let modes = cdsf::locate(&remote).unwrap();
    let feature = modes.hvac.clone();
    let unit = modes.id();
    actor.attach(&mut engine, modes, Duration::zero());
    let both = [HvacOperationModeType::Auto, HvacOperationModeType::Eco];
    let mut reported = vec![];
    for payload in [
        cdsf::system_function_description(),
        cdsf::operation_mode_descriptions(&both).unwrap(),
        cdsf::operation_mode_relations(&both).unwrap(),
        cdsf::system_function_state(auto(), false, None),
        cdsf::overrun_description(),
        cdsf::overrun_state(HvacOverrunStatus::Running),
        cdsf::overrun_state(HvacOverrunStatus::Finished),
    ] {
        reported.extend(actor.handle_event(&notified(&feature, payload)));
    }
    assert_eq!(
        reported,
        [
            HvacEvent::FunctionDescribed {
                unit: unit.clone(),
                function: hvac::DHW
            },
            HvacEvent::ModeChanged {
                unit: unit.clone(),
                function: hvac::DHW,
                mode: HvacOperationModeType::Auto,
                id: auto()
            },
            HvacEvent::OverrunChanged {
                unit: unit.clone(),
                function: hvac::DHW,
                report: OverrunReport::Running
            },
            HvacEvent::OverrunChanged {
                unit: unit.clone(),
                function: hvac::DHW,
                report: OverrunReport::Inactive
            },
            HvacEvent::OverrunFinished {
                unit: unit.clone(),
                function: hvac::DHW
            },
        ]
    );

    actor.attach(&mut engine, cdt::locate(&remote).unwrap(), Duration::zero());
    assert_eq!(actor.units().len(), 1, "the same entity");
    assert_eq!(
        actor.mode(&unit, &hvac::DHW),
        Some(HvacOperationModeType::Auto),
        "what was known is still known"
    );
    let setpoints = at(PUMP, 1, 1);
    actor.handle_event(&notified(
        &setpoints,
        cdt::setpoint_description(UnitOfMeasurement::DegC),
    ));
    actor.handle_event(&notified(
        &setpoints,
        cdt::setpoint_constraints(degrees(40.0), degrees(65.0), None),
    ));
    let changed = actor.handle_event(&notified(&setpoints, cdt::setpoint_value(degrees(55.0))));
    assert_eq!(
        changed,
        [HvacEvent::SetpointChanged {
            unit: unit.clone(),
            setpoint: SetpointId(cdt::SETPOINT_ID),
            degrees: degrees(55.0)
        }]
    );
    actor.handle_event(&notified(
        &feature,
        cdt::system_function_relations(&[(
            auto(),
            HvacOperationModeType::Auto,
            vec![SetpointId(cdt::SETPOINT_ID)],
        )])
        .unwrap(),
    ));
    assert_eq!(
        actor.temperature(&unit, &hvac::DHW),
        Some((SetpointId(cdt::SETPOINT_ID), degrees(55.0)))
    );
    let request = actor
        .set_temperature(
            &mut engine,
            &unit,
            &hvac::DHW,
            degrees(60.0),
            Duration::zero(),
        )
        .expect("one setpoint, in range");
    assert_eq!(
        engine.outbox.last().unwrap().1,
        Command::Write {
            counter: request,
            to: setpoints,
            from: at("d:_i:12345_CEM-1", 1, 1),
            data: actor
                .setpoints(&unit, &hvac::DHW)
                .unwrap()
                .write(SetpointId(cdt::SETPOINT_ID), degrees(60.0))
                .unwrap(),
            filters: vec![Filter::partial()],
        }
    );
    assert!(actor
        .stop_overrun(&mut engine, &unit, &hvac::DHW, Duration::zero())
        .is_ok());
    assert_eq!(
        engine.outbox.last().map(|(_, command)| match command {
            Command::Write { data, .. } => data.clone(),
            _ => panic!("expected a write"),
        }),
        Some(system_function::stop_overrun(HvacOverrunId(
            cdsf::OVERRUN_ID
        )))
    );
}

#[test]
fn an_overrun_needs_its_kind_to_be_named() {
    let subject = Subject::mode_with_overrun(hvac::DHW, HvacOverrunType::OneTimeDhw);
    let mut reader = subject.system_function();
    reader.learn(&cdsf::system_function_description());
    reader.learn(&cdsf::overrun_description());
    assert_eq!(reader.overrun_id(), Some(HvacOverrunId(cdsf::OVERRUN_ID)));
    let mut plain = Subject::mode(hvac::DHW).system_function();
    plain.learn(&cdsf::system_function_description());
    plain.learn(&cdsf::overrun_description());
    assert_eq!(plain.overrun_id(), None);
    assert_eq!(plain.stop_overrun(), Err(ModeRefused::NoOverrun));
    assert_eq!(
        ModeRefused::NoOverrun.error_number(),
        ErrorNumber::DestinationUnknown
    );
}

#[test]
fn requests_are_numbered_one_after_the_other() {
    let remote = gateway();
    let (mut engine, client) = manager();
    let first = engine.next;
    let following = cdsf::locate(&remote)
        .unwrap()
        .follow(&mut engine, &client, Duration::zero());
    assert_eq!(following.subscription, MsgCounter(first));
    assert_eq!(following.reads.last().unwrap().1, MsgCounter(first + 6));
    assert_eq!(engine.next, first + 7);
}
