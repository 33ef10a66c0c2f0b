//! The limitation of power: the state machine, its records, and its two actors.

use eebus::address::{AddressDevice, FeatureAddress};
use eebus::model::{
    AbsoluteOrRelativeTime, CmdData, DeviceConfigurationKeyId, DeviceConfigurationKeyValueData,
    DeviceConfigurationKeyValueListData, DeviceConfigurationKeyValueValue, EnergyDirection,
    EntityType, ErrorNumber, FeatureType, Function, LoadControlLimitData, LoadControlLimitId,
    LoadControlLimitListData, MsgCounter, Role, ScaledNumber, WriteToken,
};
use eebus::number::Number;
use eebus::spine::{
    Command, Engine, Filter, FilterControl, RemoteDevice, RemoteEntity, RemoteFeature,
    RemoteUseCase, SpineEvent, WriteBinding, WriteRequest,
};
use eebus::time::Duration;
use eebus::usecases::limitation::guard::{limit_filters, limit_payload, normalise};
use eebus::usecases::limitation::{
    constraints, device_configuration_feature, device_diagnosis_client_feature,
    device_diagnosis_feature, electrical_connection_feature, failsafe_descriptions,
    failsafe_values, heartbeat, limit_data, limit_description, load_control_feature, locate,
    nominal_max, read_constraints, read_heartbeat, read_limit_write, AuditLog,
    ControllableSystem, ControllableSystemActor, ControllableSystemPeer, CsConfig, CsEvent,
    CsFeatures, Direction, EffectiveLimit, EnergyGuardActor, GuardEvent, LimitRecord, LimitWrite,
    LimitationState, LocalDecision, NackReason, NominalMax, PeerIds, RejectReason, Unanswered,
    WriteOutcome, FAILSAFE_DURATION_KEY, FAILSAFE_DURATION_MINIMUM_KEY, FAILSAFE_LIMIT_KEY,
    LIMIT_ID,
};
use eebus::usecases::signals::SignalValue;
use eebus::usecases::{lpc, lpp};

/// An identifier of the peer's, deliberately not the one this library publishes for itself.
const PEER_LIMIT: LoadControlLimitId = LoadControlLimitId(7);

fn watts(value: f64) -> Number {
    Number::from_thousandths((value * 1000.0).round() as i64)
}

fn secs(value: u64) -> Duration {
    Duration::from_secs(value)
}

fn record(counter: u64) -> LimitRecord {
    LimitRecord::new(
        secs(counter),
        MsgCounter(counter),
        LimitWrite::active(watts(4_200.0)),
        WriteOutcome::Accepted,
    )
}

#[test]
fn the_log_keeps_what_it_is_given_in_order() {
    let mut log = AuditLog::new();
    for counter in 1..=3 {
        log.record(record(counter));
    }
    let counters: Vec<u64> = log.records().iter().map(|r| r.request.0).collect();
    assert_eq!(counters, [1, 2, 3]);
    assert_eq!(log.last().unwrap().request, MsgCounter(3));
    assert_eq!(log.dropped(), 0);
}

#[test]
fn a_full_log_reports_what_it_had_to_drop() {
    let mut log = AuditLog::with_capacity(2);
    for counter in 1..=5 {
        log.record(record(counter));
    }
    assert_eq!(log.len(), 2);
    assert_eq!(log.dropped(), 3);
    let counters: Vec<u64> = log.records().iter().map(|r| r.request.0).collect();
    assert_eq!(counters, [4, 5], "the most recent survive");
}

#[test]
fn draining_moves_the_history_out_without_losing_what_follows() {
    let mut log = AuditLog::new();
    log.record(record(1));
    let taken = log.drain();
    assert_eq!(taken.len(), 1);
    assert!(log.is_empty());

    log.record(record(2));
    assert_eq!(log.len(), 1);
    assert_eq!(log.dropped(), 0, "draining is not dropping");
}

#[test]
fn a_record_carries_what_it_is_given() {
    let full = LimitRecord::new(
        secs(90),
        MsgCounter(11),
        LimitWrite::active_for(watts(3_000.0), secs(900)),
        WriteOutcome::Rejected(NackReason::NoRecentHeartbeat),
    )
    .at_time(String::from("2026-08-30T10:00:00Z"))
    .with_peer(AddressDevice::named("d:_i:1_Box"))
    .on_basis(String::from("measured 4.8 kW at the grid connection point"));
    assert_eq!(full.timestamp.as_deref(), Some("2026-08-30T10:00:00Z"));
    assert_eq!(full.peer, Some(AddressDevice::named("d:_i:1_Box")));
    assert_eq!(
        full.basis.as_deref(),
        Some("measured 4.8 kW at the grid connection point")
    );
    let bare = LimitRecord::unreadable(
        secs(1),
        MsgCounter(1),
        WriteOutcome::Rejected(NackReason::Unreadable),
    );
    assert_eq!(bare.write, None);
    let mut least = AuditLog::with_capacity(0);
    least.record(bare);
    least.record(full);
    assert_eq!((least.len(), least.dropped()), (1, 1));
}

#[test]
fn a_limit_without_a_duration_withdraws_the_old_end_time() {
    let filters = limit_filters(&LimitWrite::active(watts(4_200.0)), PEER_LIMIT);
    assert_eq!(filters.len(), 2, "one delete, then the partial update");
    assert_eq!(
        filters[0],
        Filter {
            control: FilterControl::Delete,
            limit_id: Some(PEER_LIMIT),
            end_time: true,
        },
        "the delete names the limit it addresses and the one element it withdraws"
    );
    assert_eq!(filters[1], Filter::partial());

    let with_duration = limit_filters(
        &LimitWrite::active_for(watts(4_200.0), secs(900)),
        PEER_LIMIT,
    );
    assert_eq!(with_duration.len(), 1);
    assert_eq!(with_duration[0].control, FilterControl::Partial);
}

#[test]
fn an_activated_limit_never_carries_a_zero_duration() {
    let limit = normalise(LimitWrite {
        is_active: true,
        watts: watts(4_200.0),
        duration: Some(Duration::zero()),
    });
    assert_eq!(limit.duration, None, "the duration is unset, not zeroed");
    assert!(limit.is_active);

    let off = normalise(LimitWrite {
        is_active: false,
        watts: watts(0.0),
        duration: Some(Duration::zero()),
    });
    assert_eq!(off.duration, Some(Duration::zero()));
}

#[test]
fn a_negative_limit_is_clamped_before_it_reaches_the_wire() {
    let limit = normalise(LimitWrite::active(watts(-1.0)));
    assert_eq!(limit.watts, watts(0.0));
}

#[test]
fn a_limit_payload_carries_the_identifier_and_the_duration() {
    let data = limit_payload(
        &LimitWrite::active_for(watts(3_000.0), secs(900)),
        PEER_LIMIT,
    );
    let CmdData::LoadControlLimitListData(list) = data else {
        panic!("expected the limit list");
    };
    let entry = &list.load_control_limit_data.as_ref().unwrap()[0];
    assert_eq!(entry.limit_id, Some(PEER_LIMIT));
    assert_eq!(entry.is_limit_active, Some(true));
    assert_eq!(
        entry.value.and_then(ScaledNumber::to_number),
        Some(watts(3_000.0))
    );
    assert_eq!(
        entry.time_period.and_then(|p| p.end_time),
        Some(AbsoluteOrRelativeTime::Relative(secs(15 * 60)))
    );
}

#[test]
fn the_two_directions_publish_what_their_specifications_ask_for() {
    assert_eq!(
        Direction::Consumption.failsafe_limit_key().as_str(),
        "failsafeConsumptionActivePowerLimit",
        "consumption"
    );
    assert_eq!(
        Direction::Production.failsafe_limit_key().as_str(),
        "failsafeProductionActivePowerLimit",
        "production"
    );
    assert_eq!(
        FAILSAFE_DURATION_MINIMUM_KEY.as_str(),
        "failsafeDurationMinimum",
        "shared by both"
    );
    assert_eq!(
        Direction::Consumption.energy_direction(),
        EnergyDirection::Consume
    );
    assert_eq!(
        Direction::Production.energy_direction(),
        EnergyDirection::Produce
    );
}

#[test]
fn the_use_cases_name_their_failsafe_keys() {
    assert_eq!(
        lpc::DIRECTION.failsafe_limit_key().as_str(),
        "failsafeConsumptionActivePowerLimit"
    );
    assert_eq!(
        lpp::DIRECTION.failsafe_limit_key().as_str(),
        "failsafeProductionActivePowerLimit"
    );
    assert_eq!(
        lpc::controllable_system().required_scenarios(),
        [1, 2, 3, 4],
        "a recommended scenario is not an optional one"
    );
    assert_eq!(lpp::energy_guard().required_scenarios(), [1, 2, 3, 4]);
    assert_eq!(
        lpc::energy_guard().features_needing_binding(),
        [FeatureType::LoadControl, FeatureType::DeviceConfiguration]
    );
    assert_eq!(lpc::energy_guard().counterpart, "ControllableSystem");
}

fn heat_pump() -> ControllableSystem {
    ControllableSystem::new(
        CsConfig::new(watts(4_200.0), secs(2 * 3_600)).with_nominal_max(watts(11_000.0)),
        Duration::zero(),
    )
}

fn controlled() -> ControllableSystem {
    let mut system = heat_pump();
    system.on_heartbeat(secs(1));
    assert_eq!(
        system.on_limit_write(
            &LimitWrite::active(watts(3_000.0)),
            LocalDecision::Apply,
            secs(2)
        ),
        WriteOutcome::Accepted
    );
    system
}

#[test]
fn a_system_starts_limited_to_its_failsafe_value() {
    let system = heat_pump();
    assert_eq!(system.state(), LimitationState::Init);
    assert_eq!(
        system.effective_limit(),
        EffectiveLimit::Failsafe(watts(4_200.0))
    );
    assert_eq!(system.power_ceiling(), Some(watts(4_200.0)));
    assert_eq!(system.poll_timeout(), Some(secs(120)));
    assert!(!system.is_limit_active());
}

#[test]
fn a_heartbeat_alone_takes_no_control() {
    let mut system = heat_pump();
    system.on_heartbeat(secs(1));
    assert_eq!(system.state(), LimitationState::Init);
    system.handle_timeout(secs(119));
    assert_eq!(system.state(), LimitationState::Init);
    system.handle_timeout(secs(120));
    assert_eq!(system.state(), LimitationState::UnlimitedAutonomous);
    assert_eq!(system.power_ceiling(), None);
    assert_eq!(system.poll_timeout(), None);
}

#[test]
fn a_limit_needs_a_heartbeat_first() {
    let mut system = heat_pump();
    assert_eq!(
        system.on_limit_write(
            &LimitWrite::active(watts(3_000.0)),
            LocalDecision::Apply,
            secs(1)
        ),
        WriteOutcome::Rejected(NackReason::NoRecentHeartbeat)
    );
    system.on_heartbeat(secs(2));
    assert_eq!(
        system.on_limit_write(
            &LimitWrite::active(watts(3_000.0)),
            LocalDecision::Apply,
            secs(62)
        ),
        WriteOutcome::Rejected(NackReason::NoRecentHeartbeat),
        "sixty seconds later is too late"
    );
    assert_eq!(
        system.on_limit_write(
            &LimitWrite::active(watts(3_000.0)),
            LocalDecision::Apply,
            secs(61)
        ),
        WriteOutcome::Accepted
    );
    assert_eq!(system.state(), LimitationState::Limited);
    assert_eq!(
        system.effective_limit(),
        EffectiveLimit::Active(watts(3_000.0))
    );
}

#[test]
fn an_expired_limit_leaves_the_system_controlled() {
    let mut system = heat_pump();
    system.on_heartbeat(secs(1));
    system.on_limit_write(
        &LimitWrite::active_for(watts(3_000.0), secs(30)),
        LocalDecision::Apply,
        secs(2),
    );
    assert_eq!(system.poll_timeout(), Some(secs(32)));
    system.handle_timeout(secs(32));
    assert_eq!(system.state(), LimitationState::UnlimitedControlled);
    assert_eq!(system.effective_limit(), EffectiveLimit::Unrestricted);
    assert_eq!(system.poll_timeout(), Some(secs(121)));
}

#[test]
fn a_silent_guard_leads_to_the_failsafe_state_and_then_to_autonomy() {
    let mut system = controlled();
    assert_eq!(system.poll_timeout(), Some(secs(121)));
    system.handle_timeout(secs(121));
    assert_eq!(system.state(), LimitationState::FailsafeState);
    assert_eq!(system.power_ceiling(), Some(watts(4_200.0)));
    assert_eq!(system.poll_timeout(), Some(secs(121 + 7_200)));

    system.on_heartbeat(secs(200));
    assert_eq!(
        system.poll_timeout(),
        Some(secs(320)),
        "a guard that is back has two minutes to write"
    );
    system.handle_timeout(secs(320));
    assert_eq!(system.state(), LimitationState::UnlimitedAutonomous);

    let mut alone = controlled();
    alone.handle_timeout(secs(121));
    alone.handle_timeout(secs(121 + 7_200));
    assert_eq!(alone.state(), LimitationState::UnlimitedAutonomous);
}

#[test]
fn a_limit_write_after_the_failsafe_state_takes_control_again() {
    let mut system = controlled();
    system.handle_timeout(secs(121));
    system.on_heartbeat(secs(200));
    assert_eq!(
        system.on_limit_write(&LimitWrite::deactivated(), LocalDecision::Apply, secs(201)),
        WriteOutcome::Accepted
    );
    assert_eq!(system.state(), LimitationState::UnlimitedControlled);
    assert!(!system.is_limit_active());
}

#[test]
fn refused_limits_name_the_reason_and_change_no_limit() {
    let mut system = controlled();
    for (write, decision, reason) in [
        (
            LimitWrite::active(watts(-0.5)),
            LocalDecision::Apply,
            NackReason::NegativeValue,
        ),
        (
            LimitWrite::active(Number::NotANumber),
            LocalDecision::Apply,
            NackReason::NotFinite,
        ),
        (
            LimitWrite::active(watts(1.0)),
            LocalDecision::Reject(RejectReason::SafetyRelated),
            NackReason::CannotApply(RejectReason::SafetyRelated),
        ),
    ] {
        let outcome = system.on_limit_write(&write, decision, secs(3));
        assert_eq!(outcome, WriteOutcome::Rejected(reason));
        assert_eq!(outcome.error_number(), ErrorNumber::CommandRejected);
        assert!(!outcome.is_accepted());
        assert_eq!(system.power_ceiling(), Some(watts(3_000.0)));
    }
    assert_eq!(
        system.on_unreadable_limit_write(secs(3)),
        WriteOutcome::Rejected(NackReason::Unreadable)
    );

    let mut opening = heat_pump();
    opening.on_heartbeat(secs(1));
    opening.on_limit_write(
        &LimitWrite::active(watts(1.0)),
        LocalDecision::Reject(RejectReason::SelfProtection),
        secs(2),
    );
    assert_eq!(
        opening.state(),
        LimitationState::UnlimitedControlled,
        "a refused limit still takes control"
    );
}

#[test]
fn failsafe_values_are_written_only_after_the_opening_sequence() {
    let mut system = heat_pump();
    system.on_heartbeat(secs(1));
    assert_eq!(
        system.on_failsafe_limit_write(watts(1_000.0), secs(2)),
        WriteOutcome::Rejected(NackReason::SequenceIncomplete)
    );
    let mut system = controlled();
    assert_eq!(
        system.on_failsafe_limit_write(watts(1_000.0), secs(3)),
        WriteOutcome::Accepted
    );
    assert_eq!(system.config().failsafe_watts, watts(1_000.0));
    assert_eq!(
        system.on_failsafe_limit_write(watts(-1.0), secs(3)),
        WriteOutcome::Rejected(NackReason::NegativeValue)
    );
    assert_eq!(
        system.on_failsafe_limit_write(Number::PositiveInfinity, secs(3)),
        WriteOutcome::Rejected(NackReason::NotFinite)
    );
    for (duration, outcome) in [
        (
            7_199,
            WriteOutcome::Rejected(NackReason::DurationOutOfRange),
        ),
        (7_200, WriteOutcome::Accepted),
        (86_400, WriteOutcome::Accepted),
        (
            86_401,
            WriteOutcome::Rejected(NackReason::DurationOutOfRange),
        ),
    ] {
        assert_eq!(
            system.on_failsafe_duration_write(secs(duration), secs(3)),
            outcome
        );
    }
    assert_eq!(system.config().failsafe_duration, secs(86_400));
}

#[test]
fn a_device_may_end_its_limitation_for_a_permitted_reason() {
    let mut system = controlled();
    assert!(
        !system.interrupt(RejectReason::UncontrolledLoads, secs(3)),
        "only an energy manager has uncontrolled loads"
    );
    assert!(system.interrupt(RejectReason::SelfProtection, secs(3)));
    assert_eq!(system.state(), LimitationState::UnlimitedControlled);
    assert_eq!(system.limit(), None);
    assert!(!system.interrupt(RejectReason::SelfProtection, secs(3)));

    let mut manager = ControllableSystem::new(
        CsConfig::new(watts(4_200.0), secs(7_200))
            .on_cem()
            .with_contractual_max(watts(2_500.0)),
        Duration::zero(),
    );
    assert_eq!(
        manager.power_ceiling(),
        Some(watts(2_500.0)),
        "the contract is lower than the failsafe value"
    );
    manager.on_heartbeat(secs(1));
    manager.on_limit_write(
        &LimitWrite::active(watts(2_000.0)),
        LocalDecision::Apply,
        secs(1),
    );
    assert_eq!(manager.power_ceiling(), Some(watts(2_000.0)));
    assert!(manager.interrupt(RejectReason::UncontrolledLoads, secs(3)));
    assert_eq!(manager.power_ceiling(), Some(watts(2_500.0)));
}

#[test]
fn states_and_reasons_have_their_names() {
    assert_eq!(LimitationState::FailsafeState.as_str(), "failsafe state");
    assert_eq!(
        LimitationState::UnlimitedControlled.test_configuration(),
        "CF_CS_UnlCntrl"
    );
    assert_eq!(
        NackReason::CannotApply(RejectReason::Regulatory).message(),
        "cannot apply the value: legal or regulatory requirement"
    );
    assert_eq!(
        NackReason::DurationOutOfRange.message(),
        "the failsafe duration minimum must be between 2 and 24 hours"
    );
    let signals = controlled().signals(Direction::Consumption);
    assert_eq!(signals.len(), 12);
    assert_eq!(signals.signals[0].name, "lpc:state");
    assert_eq!(
        signals.signals[0].value,
        SignalValue::Text(String::from("limited"))
    );
    assert_eq!(
        signals.signals[6].value,
        SignalValue::Number(watts(11_000.0))
    );
    assert_eq!(signals.signals[7].value, SignalValue::Absent);
    assert_eq!(
        signals.signals[11].value,
        SignalValue::Seconds(secs(121))
    );
}

const OWN: &str = "d:_i:1_HeatPump";
const BOX: &str = "d:_i:2_ControlBox";

fn at(device: &str, feature: u32) -> FeatureAddress {
    FeatureAddress::new(AddressDevice::named(device), vec![1], feature)
}

fn control_box() -> RemoteDevice {
    RemoteDevice {
        address: Some(AddressDevice::named(BOX)),
        entities: vec![RemoteEntity {
            path: vec![1],
            entity_type: EntityType::GridGuard,
            features: vec![RemoteFeature {
                address: at(BOX, 9),
                feature_type: FeatureType::DeviceDiagnosis,
                role: Role::Server,
                functions: vec![Function::DeviceDiagnosisHeartbeatData],
            }],
        }],
        use_cases: vec![],
    }
}

fn installed() -> (ControllableSystemActor, Engine) {
    let mut engine = Engine::new(AddressDevice::named(OWN));
    let actor = ControllableSystemActor::builder(
        heat_pump(),
        Direction::Consumption,
        CsFeatures {
            load_control: at(OWN, 1),
            device_configuration: at(OWN, 2),
            device_diagnosis: at(OWN, 3),
            device_diagnosis_client: at(OWN, 4),
        },
    )
    .with_electrical_connection(at(OWN, 5))
    .with_audit_log(AuditLog::with_capacity(8))
    .install(&mut engine, Duration::zero());
    (actor, engine)
}

fn beat() -> SpineEvent {
    SpineEvent::DataNotified {
        feature: at(BOX, 9),
        resolved: heartbeat(3, secs(120), "2026-01-01T00:00:00Z"),
    }
}

fn asked(feature: u32, token: u64, data: CmdData) -> SpineEvent {
    SpineEvent::WriteRequested(WriteRequest {
        feature: at(OWN, feature),
        token: WriteToken(token),
        request: MsgCounter(token),
        from: at(BOX, 1),
        resolved: data.clone(),
        data,
    })
}

#[test]
fn an_installed_system_publishes_what_it_states() {
    let (actor, engine) = installed();
    assert_eq!(engine.outbox.len(), 6);
    assert_eq!(
        engine.outbox[0].1,
        Command::BindTogether {
            one: at(OWN, 1),
            other: at(OWN, 2)
        }
    );
    assert_eq!(
        engine.outbox[5].1,
        Command::Publish {
            feature: at(OWN, 5),
            data: constraints(actor.system(), Direction::Consumption),
            notify: false,
        }
    );
    assert_eq!(actor.poll_timeout(), secs(60), "the first heartbeat");
    assert_eq!(actor.direction(), Direction::Consumption);
}

#[test]
fn a_limit_is_decided_answered_and_recorded() {
    let (mut actor, mut engine) = installed();
    assert_eq!(actor.handle_event(&mut engine, &beat(), secs(1)), None);
    let own = LoadControlLimitId(LIMIT_ID);
    let write = LimitWrite::active(watts(3_000.0));
    let sent = engine.outbox.len();
    assert_eq!(
        actor.handle_event(
            &mut engine,
            &asked(1, 41, limit_payload(&write, own)),
            secs(2)
        ),
        Some(CsEvent::LimitDecided {
            request: MsgCounter(41),
            write,
            outcome: WriteOutcome::Accepted
        })
    );
    assert_eq!(
        engine.outbox[sent].1,
        Command::Accept {
            token: WriteToken(41)
        }
    );
    assert_eq!(
        engine.outbox[sent + 2].1,
        Command::Publish {
            feature: at(OWN, 1),
            data: limit_data(actor.system()),
            notify: true,
        }
    );
    assert_eq!(
        read_limit_write(&limit_data(actor.system()), own),
        Some(write),
        "the guard reads back what it wrote"
    );
    assert_eq!(actor.system().state(), LimitationState::Limited);
    assert_eq!(actor.audit().len(), 1);
    assert_eq!(
        actor.audit().last().unwrap().peer,
        Some(AddressDevice::named(BOX))
    );
}

#[test]
fn a_write_on_another_limit_does_not_reach_the_system() {
    let (mut actor, mut engine) = installed();
    actor.handle_event(&mut engine, &beat(), secs(1));
    let stray = limit_payload(&LimitWrite::active(watts(3_000.0)), PEER_LIMIT);
    let event = actor.handle_event(&mut engine, &asked(1, 42, stray), secs(2));
    assert_eq!(
        event,
        Some(CsEvent::LimitUnreadable {
            request: MsgCounter(42),
            outcome: WriteOutcome::Rejected(NackReason::Unreadable)
        })
    );
    assert_eq!(actor.system().state(), LimitationState::Init);
    assert_eq!(
        engine.outbox.last().unwrap().1,
        Command::Reject {
            token: WriteToken(42),
            error: ErrorNumber::CommandRejected
        }
    );
}

#[test]
fn an_unreadable_value_is_refused_and_takes_control() {
    let (mut actor, mut engine) = installed();
    actor.handle_event(&mut engine, &beat(), secs(1));
    let own = LoadControlLimitId(LIMIT_ID);
    let fragment = CmdData::LoadControlLimitListData(LoadControlLimitListData {
        load_control_limit_data: Some(vec![LoadControlLimitData {
            limit_id: Some(own),
            is_limit_changeable: None,
            is_limit_active: Some(true),
            time_period: None,
            value: Some(ScaledNumber::Overflow),
        }]),
    });
    assert_eq!(read_limit_write(&fragment, own), None);
    assert_eq!(
        actor.handle_event(&mut engine, &asked(1, 43, fragment), secs(2)),
        Some(CsEvent::LimitUnreadable {
            request: MsgCounter(43),
            outcome: WriteOutcome::Rejected(NackReason::Unreadable)
        })
    );
    assert_eq!(actor.audit().last().unwrap().write, None);
    assert_eq!(
        actor.system().state(),
        LimitationState::UnlimitedControlled,
        "it was a limit write, and so it is contact with a guard"
    );
}

fn failsafe(key: u32, value: DeviceConfigurationKeyValueValue) -> CmdData {
    CmdData::DeviceConfigurationKeyValueListData(DeviceConfigurationKeyValueListData {
        device_configuration_key_value_data: Some(vec![DeviceConfigurationKeyValueData {
            key_id: Some(DeviceConfigurationKeyId(key)),
            value: Some(value),
            is_value_changeable: None,
        }]),
    })
}

#[test]
fn failsafe_writes_are_answered() {
    let (mut actor, mut engine) = installed();
    let limit = failsafe(
        FAILSAFE_LIMIT_KEY,
        DeviceConfigurationKeyValueValue {
            scaled_number: Some(ScaledNumber::Value(2_000_000)),
            duration: None,
        },
    );
    assert_eq!(
        actor.handle_event(&mut engine, &asked(2, 50, limit.clone()), secs(1)),
        Some(CsEvent::FailsafeDecided {
            request: MsgCounter(50),
            outcome: WriteOutcome::Rejected(NackReason::SequenceIncomplete)
        })
    );
    actor.handle_event(&mut engine, &beat(), secs(1));
    actor.handle_event(
        &mut engine,
        &asked(
            1,
            51,
            limit_payload(&LimitWrite::deactivated(), LoadControlLimitId(LIMIT_ID)),
        ),
        secs(2),
    );
    assert_eq!(
        actor.handle_event(&mut engine, &asked(2, 52, limit), secs(3)),
        Some(CsEvent::FailsafeDecided {
            request: MsgCounter(52),
            outcome: WriteOutcome::Accepted
        })
    );
    assert_eq!(actor.system().config().failsafe_watts, watts(2_000.0));
    let duration = failsafe(
        FAILSAFE_DURATION_KEY,
        DeviceConfigurationKeyValueValue {
            scaled_number: None,
            duration: Some(secs(3 * 3_600)),
        },
    );
    actor.handle_event(&mut engine, &asked(2, 53, duration), secs(3));
    assert_eq!(actor.system().config().failsafe_duration, secs(3 * 3_600));
    let nothing = failsafe(
        FAILSAFE_DURATION_KEY,
        DeviceConfigurationKeyValueValue {
            scaled_number: None,
            duration: None,
        },
    );
    assert_eq!(
        actor.handle_event(&mut engine, &asked(2, 54, nothing), secs(3)),
        Some(CsEvent::FailsafeDecided {
            request: MsgCounter(54),
            outcome: WriteOutcome::Rejected(NackReason::DurationOutOfRange)
        })
    );
}

#[test]
fn one_entity_with_both_bindings_is_the_guard() {
    let (mut actor, mut engine) = installed();
    engine.peers.push(control_box());
    let granted = |client: FeatureAddress, server: u32| SpineEvent::BindingGranted {
        client,
        server: at(OWN, server),
    };
    assert_eq!(
        actor.handle_event(&mut engine, &granted(at(BOX, 1), 1), secs(1)),
        None
    );
    let sent = engine.outbox.len();
    assert_eq!(
        actor.handle_event(&mut engine, &granted(at(BOX, 2), 2), secs(1)),
        Some(CsEvent::GuardIdentified { guard: at(BOX, 1) })
    );
    assert_eq!(actor.guard(), Some(&at(BOX, 1)));
    assert_eq!(
        engine.outbox[sent..]
            .iter()
            .map(|(_, c)| c.clone())
            .collect::<Vec<_>>(),
        [Command::Subscribe {
            counter: MsgCounter(engine.next - 1),
            client: at(OWN, 4),
            server: at(BOX, 9)
        }]
    );
    let signals = actor.signals();
    assert_eq!(signals.signals[12].name, "lpc:guard");
    assert_eq!(
        signals.signals[12].value,
        SignalValue::Text(String::from("d:_i:2_ControlBox entity [1] feature 1"))
    );
    actor.handle_event(
        &mut engine,
        &SpineEvent::BindingReleased {
            client: at(BOX, 1),
            server: at(OWN, 1),
        },
        secs(2),
    );
    assert_eq!(actor.guard(), None);
}

#[test]
fn a_guard_that_is_not_discovered_yet_is_asked_for_once() {
    let (mut actor, mut engine) = installed();
    for server in [1, 2] {
        actor.handle_event(
            &mut engine,
            &SpineEvent::BindingGranted {
                client: at(BOX, server),
                server: at(OWN, server),
            },
            secs(1),
        );
    }
    assert!(matches!(
        engine.outbox.last().unwrap().1,
        Command::Read {
            function: Function::NodeManagementDetailedDiscoveryData,
            ..
        }
    ));
    let sent = engine.outbox.len();
    let discovered = SpineEvent::DiscoveryUpdated {
        device: AddressDevice::named(BOX),
    };
    actor.handle_event(&mut engine, &discovered, secs(2));
    assert_eq!(engine.outbox.len(), sent, "it is not asked for twice");
    engine.peers.push(control_box());
    actor.handle_event(&mut engine, &discovered, secs(3));
    actor.handle_event(&mut engine, &discovered, secs(4));
    assert_eq!(engine.outbox.len(), sent + 1, "and followed once");
}

#[test]
fn timers_send_the_heartbeat_and_publish_a_change_of_state() {
    let (mut actor, mut engine) = installed();
    assert_eq!(actor.handle_timeout(&mut engine, secs(60)), None);
    assert_eq!(
        engine.outbox.last().unwrap().1,
        Command::Beat {
            feature: at(OWN, 3),
            counter: 0
        }
    );
    assert_eq!(
        actor.handle_timeout(&mut engine, secs(120)),
        Some(CsEvent::StateChanged {
            from: LimitationState::Init,
            to: LimitationState::UnlimitedAutonomous
        })
    );
    assert_eq!(
        actor.interrupt(&mut engine, RejectReason::SelfProtection, secs(121)),
        false
    );
}

fn plant() -> RemoteDevice {
    let feature = |number: u32, feature_type: FeatureType| RemoteFeature {
        address: at(OWN, number),
        feature_type,
        role: Role::Server,
        functions: vec![],
    };
    RemoteDevice {
        address: Some(AddressDevice::named(OWN)),
        entities: vec![RemoteEntity {
            path: vec![1],
            entity_type: EntityType::HeatPumpAppliance,
            features: vec![
                feature(1, FeatureType::LoadControl),
                feature(2, FeatureType::DeviceConfiguration),
                feature(3, FeatureType::DeviceDiagnosis),
                feature(5, FeatureType::ElectricalConnection),
            ],
        }],
        use_cases: vec![RemoteUseCase {
            entity: vec![1],
            actor: String::from("ControllableSystem"),
            name: String::from("limitationOfPowerConsumption"),
        }],
    }
}

fn guard_of_one() -> (EnergyGuardActor, Engine, AddressDevice) {
    let mut engine = Engine::new(AddressDevice::named(BOX));
    let mut guard = EnergyGuardActor::new(
        Direction::Consumption,
        at(BOX, 1),
        at(BOX, 9),
        Duration::zero(),
    );
    let peer = locate(&plant(), Direction::Consumption).expect("a controllable system");
    guard.attach(&mut engine, peer, Duration::zero());
    (guard, engine, AddressDevice::named(OWN))
}

fn answer(request: u64, error: ErrorNumber) -> SpineEvent {
    SpineEvent::ResultReceived {
        request: MsgCounter(request),
        error,
    }
}

fn requests(engine: &Engine) -> Vec<u64> {
    engine
        .outbox
        .iter()
        .filter_map(|(_, command)| match command {
            Command::Bind { counter, .. } => Some(counter.0),
            _ => None,
        })
        .collect()
}

/// Grants both bindings and hands over both descriptions.
fn made_ready(guard: &mut EnergyGuardActor, engine: &mut Engine, now: Duration) -> Vec<GuardEvent> {
    let mut events = vec![];
    for request in requests(engine) {
        events.extend(guard.handle_event(engine, &answer(request, ErrorNumber::NoError), now));
    }
    for (feature, resolved) in [
        (1, limit_description(Direction::Consumption)),
        (2, failsafe_descriptions(Direction::Consumption)),
    ] {
        events.extend(guard.handle_event(
            engine,
            &SpineEvent::ReplyReceived {
                feature: at(OWN, feature),
                resolved,
            },
            now,
        ));
    }
    events
}

fn last_write(engine: &Engine) -> (u64, LimitWrite) {
    engine
        .outbox
        .iter()
        .rev()
        .find_map(|(_, command)| match command {
            Command::Write { counter, data, .. } => {
                read_limit_write(data, LoadControlLimitId(LIMIT_ID)).map(|w| (counter.0, w))
            }
            _ => None,
        })
        .expect("a limit write")
}

fn writes(engine: &Engine) -> usize {
    engine
        .outbox
        .iter()
        .filter(|(_, command)| matches!(command, Command::Write { .. }))
        .count()
}

#[test]
fn a_peer_without_its_features_is_not_located() {
    assert!(locate(&plant(), Direction::Production).is_none());
    let mut bare = plant();
    bare.entities[0].features.remove(1);
    assert!(locate(&bare, Direction::Consumption).is_none());
    let mut small = plant();
    small.entities[0].features.truncate(2);
    assert_eq!(
        locate(&small, Direction::Consumption),
        Some(ControllableSystemPeer {
            device: AddressDevice::named(OWN),
            load_control: at(OWN, 1),
            device_configuration: at(OWN, 2),
            device_diagnosis: None,
            electrical_connection: None,
        })
    );
}

#[test]
fn a_guard_waits_for_bindings_descriptions_and_a_listener() {
    let (mut guard, mut engine, device) = guard_of_one();
    assert_eq!(engine.outbox.len(), 7);
    guard.require(
        &device,
        Some(LimitWrite::active(watts(4_200.0))),
        secs(1),
    );
    assert!(!guard.is_ready(&device));
    let events = made_ready(&mut guard, &mut engine, secs(2));
    assert_eq!(
        events,
        [GuardEvent::Ready {
            device: device.clone()
        }]
    );
    assert!(guard.is_ready(&device));
    assert_eq!(writes(&engine), 0, "the peer cannot hear the heartbeat yet");
    guard.handle_event(
        &mut engine,
        &SpineEvent::SubscriptionGranted {
            client: at(OWN, 4),
            server: at(BOX, 9),
        },
        secs(3),
    );
    assert_eq!(writes(&engine), 1);
    let beat = engine.outbox.len() - 2;
    assert!(
        matches!(engine.outbox[beat].1, Command::Beat { .. }),
        "the heartbeat goes first"
    );
    let (request, written) = last_write(&engine);
    assert_eq!(written, LimitWrite::active(watts(4_200.0)));
    assert_eq!(
        guard.handle_event(&mut engine, &answer(request, ErrorNumber::NoError), secs(4)),
        Some(GuardEvent::LimitAccepted {
            device: device.clone(),
            limit: written,
            request: MsgCounter(request)
        })
    );
    assert_eq!(guard.applied_limit(&device), Some(written));
    assert_eq!(guard.audit().len(), 1);

    guard.require(&device, None, secs(5));
    guard.handle_timeout(&mut engine, secs(5));
    assert_eq!(
        writes(&engine),
        2,
        "the opening write starts no interval"
    );
    let (request, lifted) = last_write(&engine);
    assert!(!lifted.is_active);
    guard.handle_event(&mut engine, &answer(request, ErrorNumber::NoError), secs(6));
    guard.require(
        &device,
        Some(LimitWrite::active(watts(1_000.0))),
        secs(7),
    );
    guard.handle_timeout(&mut engine, secs(7));
    assert_eq!(writes(&engine), 2, "but a later one does");
    guard.handle_timeout(&mut engine, secs(305));
    assert_eq!(writes(&engine), 3);
}

#[test]
fn refusals_are_backed_off_a_minute_more_each_time() {
    let (mut guard, mut engine, device) = guard_of_one();
    made_ready(&mut guard, &mut engine, secs(1));
    guard.handle_timeout(&mut engine, secs(10));
    let (request, limit) = last_write(&engine);
    let event = guard.handle_event(
        &mut engine,
        &answer(request, ErrorNumber::CommandRejected),
        secs(11),
    );
    assert_eq!(
        event,
        Some(GuardEvent::LimitRefused {
            device: device.clone(),
            limit,
            error: ErrorNumber::CommandRejected,
            retry_at: secs(71)
        })
    );
    assert_eq!(
        guard.audit().last().unwrap().outcome,
        WriteOutcome::Rejected(NackReason::Unstated)
    );
    guard.require(
        &device,
        Some(LimitWrite::active(watts(500.0))),
        secs(20),
    );
    guard.handle_timeout(&mut engine, secs(20));
    let (request, _) = last_write(&engine);
    guard.handle_event(
        &mut engine,
        &answer(request, ErrorNumber::CommandRejected),
        secs(20),
    );
    guard.handle_timeout(&mut engine, secs(79));
    assert_eq!(writes(&engine), 2);
    guard.handle_timeout(&mut engine, secs(80));
    let (request, _) = last_write(&engine);
    assert!(matches!(
        guard.handle_event(
            &mut engine,
            &answer(request, ErrorNumber::CommandRejected),
            secs(80)
        ),
        Some(GuardEvent::LimitRefused { retry_at, .. }) if retry_at == secs(200)
    ));
}

#[test]
fn a_refused_opening_write_is_repeated_though_nothing_is_required() {
    let (mut guard, mut engine, device) = guard_of_one();
    made_ready(&mut guard, &mut engine, secs(1));
    guard.handle_timeout(&mut engine, secs(10));
    assert_eq!(writes(&engine), 1);
    let (request, opening) = last_write(&engine);
    assert!(!opening.is_active);
    guard.handle_event(
        &mut engine,
        &answer(request, ErrorNumber::CommandRejected),
        secs(11),
    );
    assert_eq!(guard.poll_timeout(), secs(70), "the next heartbeat");
    guard.handle_timeout(&mut engine, secs(70));
    assert_eq!(guard.poll_timeout(), secs(71), "and then the refused write");
    guard.handle_timeout(&mut engine, secs(71));
    assert_eq!(writes(&engine), 2);
    let (request, _) = last_write(&engine);
    guard.handle_event(
        &mut engine,
        &SpineEvent::RequestTimedOut {
            request: MsgCounter(request),
        },
        secs(90),
    );
    guard.handle_timeout(&mut engine, secs(400));
    assert_eq!(writes(&engine), 3, "and so is one that was never answered");
    let (request, _) = last_write(&engine);
    guard.handle_event(&mut engine, &answer(request, ErrorNumber::NoError), secs(401));
    guard.handle_timeout(&mut engine, secs(900));
    assert_eq!(writes(&engine), 3, "an accepted one is not");
    assert!(guard.applied_limit(&device).is_some());
}

#[test]
fn a_limit_that_the_peer_reports_is_not_written_again() {
    let reported = |limit: &LimitWrite| SpineEvent::DataNotified {
        feature: at(OWN, 1),
        resolved: limit_payload(limit, LoadControlLimitId(LIMIT_ID)),
    };
    let wanted = LimitWrite::active(watts(2_000.0));
    let (mut guard, mut engine, device) = guard_of_one();
    made_ready(&mut guard, &mut engine, secs(1));
    guard.require(&device, Some(wanted), secs(2));
    guard.handle_timeout(&mut engine, secs(10));
    let (request, _) = last_write(&engine);
    guard.handle_event(
        &mut engine,
        &answer(request, ErrorNumber::CommandRejected),
        secs(11),
    );
    guard.handle_event(&mut engine, &reported(&wanted), secs(12));
    guard.handle_timeout(&mut engine, secs(400));
    assert_eq!(writes(&engine), 1, "the peer holds what it should");

    let other = LimitWrite::active(watts(1_000.0));
    guard.require(&device, Some(other), secs(401));
    guard.handle_timeout(&mut engine, secs(401));
    let (request, _) = last_write(&engine);
    guard.handle_event(
        &mut engine,
        &answer(request, ErrorNumber::CommandRejected),
        secs(402),
    );
    guard.require(&device, Some(wanted), secs(403));
    guard.handle_timeout(&mut engine, secs(1_000));
    assert_eq!(writes(&engine), 2, "what is required is what it holds");
}

#[test]
fn a_reconnection_does_not_lift_the_limit() {
    let (mut guard, mut engine, device) = guard_of_one();
    made_ready(&mut guard, &mut engine, secs(1));
    guard.require(
        &device,
        Some(LimitWrite::active(watts(2_000.0))),
        secs(2),
    );
    guard.handle_timeout(&mut engine, secs(10));
    let (request, _) = last_write(&engine);
    guard.handle_event(&mut engine, &answer(request, ErrorNumber::NoError), secs(11));

    let peer = locate(&plant(), Direction::Consumption).unwrap();
    engine.outbox.clear();
    guard.attach(&mut engine, peer, secs(600));
    assert!(!guard.is_ready(&device), "the exchange starts over");
    made_ready(&mut guard, &mut engine, secs(601));
    guard.handle_timeout(&mut engine, secs(610));
    assert_eq!(
        last_write(&engine).1,
        LimitWrite::active(watts(2_000.0)),
        "the first limit is the one the grid needs"
    );

    guard.detach(&device);
    assert_eq!(guard.peers().len(), 0);
    assert_eq!(guard.deferred_requirements().len(), 1);
    engine.outbox.clear();
    engine.peers.push(plant());
    guard.handle_event(
        &mut engine,
        &SpineEvent::UseCasesUpdated {
            device: device.clone(),
        },
        secs(900),
    );
    assert_eq!(guard.deferred_requirements().len(), 0);
    made_ready(&mut guard, &mut engine, secs(901));
    guard.handle_timeout(&mut engine, secs(910));
    assert_eq!(last_write(&engine).1, LimitWrite::active(watts(2_000.0)));
}

#[test]
fn a_requirement_waits_for_a_device_that_is_not_attached() {
    let mut engine = Engine::new(AddressDevice::named(BOX));
    let mut guard = EnergyGuardActor::new(
        Direction::Consumption,
        at(BOX, 1),
        at(BOX, 9),
        Duration::zero(),
    );
    let device = AddressDevice::named(OWN);
    guard.require(
        &device,
        Some(LimitWrite::active(watts(2_000.0))),
        Duration::zero(),
    );
    assert_eq!(guard.deferred_requirements().len(), 1);
    engine.peers.push(plant());
    guard.handle_event(
        &mut engine,
        &SpineEvent::UseCasesUpdated {
            device: device.clone(),
        },
        secs(1),
    );
    assert_eq!(guard.deferred_requirements().len(), 0);
    assert_eq!(guard.peers().len(), 1);
    made_ready(&mut guard, &mut engine, secs(2));
    guard.handle_timeout(&mut engine, secs(11));
    assert_eq!(
        last_write(&engine).1,
        LimitWrite::active(watts(2_000.0))
    );
    guard.detach(&device);
    assert_eq!(guard.peers().len(), 0);
}

#[test]
fn a_peer_that_reports_another_limit_is_corrected() {
    let (mut guard, mut engine, device) = guard_of_one();
    made_ready(&mut guard, &mut engine, secs(1));
    guard.require_all(Some(LimitWrite::active(watts(2_000.0))), secs(2));
    guard.handle_timeout(&mut engine, secs(10));
    let (request, _) = last_write(&engine);
    guard.handle_event(
        &mut engine,
        &answer(request, ErrorNumber::NoError),
        secs(11),
    );
    let sent = writes(&engine);
    let reported = limit_payload(
        &LimitWrite::active(watts(9_000.0)),
        LoadControlLimitId(LIMIT_ID),
    );
    guard.handle_event(
        &mut engine,
        &SpineEvent::DataNotified {
            feature: at(OWN, 1),
            resolved: reported,
        },
        secs(12),
    );
    assert_eq!(
        guard.applied_limit(&device),
        Some(LimitWrite::active(watts(9_000.0)))
    );
    assert_eq!(writes(&engine), sent + 1);
    assert_eq!(last_write(&engine).1, LimitWrite::active(watts(2_000.0)));
}

#[test]
fn silence_is_reported_by_what_was_asked() {
    let (mut guard, mut engine, device) = guard_of_one();
    let binding = requests(&engine)[0];
    assert_eq!(
        guard.handle_event(
            &mut engine,
            &SpineEvent::RequestTimedOut {
                request: MsgCounter(binding)
            },
            secs(5)
        ),
        Some(GuardEvent::PeerUnresponsive {
            device: device.clone(),
            outstanding: Unanswered::Binding
        })
    );
    assert_eq!(
        guard.handle_event(
            &mut engine,
            &SpineEvent::RequestTimedOut {
                request: MsgCounter(binding + 2)
            },
            secs(5)
        ),
        Some(GuardEvent::PeerUnresponsive {
            device: device.clone(),
            outstanding: Unanswered::Description
        })
    );
    let (mut guard, mut engine, device) = guard_of_one();
    made_ready(&mut guard, &mut engine, secs(1));
    guard.handle_timeout(&mut engine, secs(10));
    let (request, _) = last_write(&engine);
    assert_eq!(
        guard.handle_event(
            &mut engine,
            &SpineEvent::RequestTimedOut {
                request: MsgCounter(request)
            },
            secs(30)
        ),
        Some(GuardEvent::PeerUnresponsive {
            device,
            outstanding: Unanswered::Limit
        })
    );
    assert_eq!(
        guard.audit().last().unwrap().basis.as_deref(),
        Some("unanswered through the whole of SPINE IG §2.6.2")
    );
    assert_eq!(guard.poll_timeout(), secs(30));
}

#[test]
fn a_peer_without_a_limit_is_reported_once() {
    let (mut guard, mut engine, device) = guard_of_one();
    let described = SpineEvent::ReplyReceived {
        feature: at(OWN, 1),
        resolved: limit_description(Direction::Production),
    };
    assert_eq!(
        guard.handle_event(&mut engine, &described, secs(1)),
        Some(GuardEvent::NoLimitPublished {
            device: device.clone()
        })
    );
    assert_eq!(guard.handle_event(&mut engine, &described, secs(1)), None);
    assert_eq!(guard.peer_ids(&device), Some(PeerIds::new()));
}

#[test]
fn constraints_and_heartbeats_of_a_peer_are_followed() {
    let (mut guard, mut engine, device) = guard_of_one();
    let stated = SpineEvent::ReplyReceived {
        feature: at(OWN, 5),
        resolved: constraints(&heat_pump(), Direction::Consumption),
    };
    assert_eq!(
        guard.handle_event(&mut engine, &stated, secs(1)),
        Some(GuardEvent::ConstraintsLearned {
            device: device.clone(),
            nominal_max: NominalMax::Device(watts(11_000.0))
        })
    );
    assert_eq!(guard.handle_event(&mut engine, &stated, secs(1)), None);
    assert_eq!(
        guard.nominal_max(&device),
        Some(NominalMax::Device(watts(11_000.0)))
    );
    guard.handle_event(
        &mut engine,
        &SpineEvent::DataNotified {
            feature: at(OWN, 3),
            resolved: heartbeat(1, secs(120), "2026-01-01T00:00:00Z"),
        },
        secs(2),
    );
    assert_eq!(guard.handle_timeout(&mut engine, secs(121)), []);
    assert_eq!(
        guard.handle_timeout(&mut engine, secs(122)),
        [GuardEvent::PeerHeartbeatLost { device }]
    );
    assert_eq!(guard.handle_timeout(&mut engine, secs(123)), []);
}

#[test]
fn failsafe_values_of_a_peer_are_written_under_its_keys() {
    let (mut guard, mut engine, device) = guard_of_one();
    assert_eq!(
        guard.write_failsafe_limit(&mut engine, &device, watts(1_000.0), secs(1)),
        None
    );
    made_ready(&mut guard, &mut engine, secs(1));
    assert!(guard
        .write_failsafe_limit(&mut engine, &device, watts(-7.0), secs(2))
        .is_some());
    let Command::Write { data, .. } = &engine.outbox.last().unwrap().1 else {
        panic!("expected a write");
    };
    let CmdData::DeviceConfigurationKeyValueListData(list) = data else {
        panic!("expected key values");
    };
    let entry = &list.device_configuration_key_value_data.as_ref().unwrap()[0];
    assert_eq!(
        entry.key_id,
        Some(DeviceConfigurationKeyId(FAILSAFE_LIMIT_KEY))
    );
    assert_eq!(
        entry.value.unwrap().scaled_number,
        Some(ScaledNumber::Value(0)),
        "not below zero"
    );
    assert_eq!(
        guard.write_failsafe_duration(&mut engine, &device, secs(60), secs(2)),
        None,
        "a minute is out of range"
    );
    assert!(guard
        .write_failsafe_duration(&mut engine, &device, secs(7_200), secs(2))
        .is_some());
}

#[test]
fn what_a_system_publishes_is_what_a_guard_reads() {
    let system = heat_pump();
    assert_eq!(
        read_constraints(
            &constraints(&system, Direction::Consumption),
            Direction::Consumption
        ),
        Some(NominalMax::Device(watts(11_000.0)))
    );
    assert_eq!(
        read_constraints(
            &constraints(&system, Direction::Consumption),
            Direction::Production
        ),
        None
    );
    let mut ids = PeerIds::new();
    assert!(!ids.can_write_limit());
    assert!(ids.learn(
        &limit_description(Direction::Consumption),
        Direction::Consumption
    ));
    assert!(ids.learn(
        &failsafe_descriptions(Direction::Consumption),
        Direction::Consumption
    ));
    assert!(!ids.learn(&failsafe_values(&system), Direction::Consumption));
    assert_eq!(ids.limit, Some(LoadControlLimitId(LIMIT_ID)));
    assert_eq!(
        ids.failsafe_duration,
        Some(DeviceConfigurationKeyId(FAILSAFE_DURATION_KEY))
    );
    assert_eq!(
        read_heartbeat(&heartbeat(9, secs(120), "2026-01-01T00:00:00Z")),
        Some(9)
    );
    assert_eq!(read_heartbeat(&limit_data(&system)), None);
}

#[test]
fn a_system_serves_its_features() {
    let limit = load_control_feature(1);
    assert_eq!(limit.feature_type, FeatureType::LoadControl);
    assert!(limit.deferred_writes, "the decision is the acknowledgement");
    assert_eq!(limit.write_binding(), WriteBinding::Required);
    assert_eq!(
        limit
            .functions()
            .iter()
            .map(|f| (f.0, f.1.write))
            .collect::<Vec<_>>(),
        [
            (Function::LoadControlLimitDescriptionListData, false),
            (Function::LoadControlLimitListData, true),
        ]
    );
    let failsafe = device_configuration_feature(2);
    assert!(failsafe.functions()[1].1.write && failsafe.deferred_writes);
    assert!(!electrical_connection_feature(5).functions()[0].1.write);
    assert_eq!(device_diagnosis_feature(3).role, Role::Server);
    assert_eq!(device_diagnosis_client_feature(4).role, Role::Client);
}

#[test]
fn the_two_maxima_exclude_each_other() {
    let both = CsConfig::new(watts(4_200.0), secs(7_200))
        .with_nominal_max(watts(11_000.0))
        .with_contractual_max(watts(30_000.0));
    let device = ControllableSystem::new(both, Duration::zero());
    assert_eq!(
        nominal_max(&device),
        Some(NominalMax::Device(watts(11_000.0)))
    );
    let manager = ControllableSystem::new(both.on_cem(), Duration::zero());
    assert_eq!(
        nominal_max(&manager),
        Some(NominalMax::Contractual(watts(30_000.0)))
    );
    let neither = ControllableSystem::new(
        CsConfig::new(watts(4_200.0), secs(7_200)),
        Duration::zero(),
    );
    assert_eq!(
        read_constraints(
            &constraints(&neither, Direction::Production),
            Direction::Production
        ),
        None,
        "nothing rather than a guess"
    );
}

#[test]
fn waiting_on_the_deadlines_ends_in_autonomy() {
    let mut system = controlled();
    let mut rounds = 0;
    while let Some(deadline) = system.poll_timeout() {
        system.handle_timeout(deadline);
        rounds += 1;
    }
    assert_eq!(system.state(), LimitationState::UnlimitedAutonomous);
    assert_eq!(rounds, 2);
}

#[test]
fn a_stored_log_is_the_log_that_was_stored() {
    let mut log = AuditLog::with_capacity(2);
    for counter in 1..=3 {
        log.record(record(counter));
    }
    let restored = AuditLog::restored(log.records().clone(), log.capacity(), log.dropped());
    assert_eq!(restored.records(), log.records());
    assert_eq!((restored.capacity(), restored.dropped()), (2, 1));
}

#[test]
fn the_application_reaches_the_state_machine() {
    let (mut actor, _engine) = installed();
    actor.system_mut().on_heartbeat(secs(1));
    assert_eq!(
        actor
            .system_mut()
            .on_limit_write(&LimitWrite::deactivated(), LocalDecision::Apply, secs(2)),
        WriteOutcome::Accepted
    );
    assert_eq!(
        actor.system().state(),
        LimitationState::UnlimitedControlled
    );
    actor.audit_mut().record(record(1));
    assert_eq!(actor.audit().len(), 1);
}
