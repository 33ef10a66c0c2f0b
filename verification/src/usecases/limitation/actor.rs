//! The Controllable System on a node: it publishes its limit and failsafe values, finds out
//! which Energy Guard is in control, follows its heartbeat, and answers its writes.

use super::audit::{AuditLog, AuditView, LimitRecord, LimitRecordView};
use super::payloads::{
    addresses_limit, constraints, constraints_payload, failsafe_descriptions,
    failsafe_descriptions_payload, failsafe_values, failsafe_values_payload, heartbeat_of,
    limit_data, limit_data_payload, limit_description, limit_description_payload, limit_write_of,
    names_limit, read_heartbeat, read_limit_write, FAILSAFE_DURATION_KEY, FAILSAFE_LIMIT_KEY,
    LIMIT_ID,
};
use super::state::{
    ControllableSystem, CsView, LimitWrite, LimitationState, LocalDecision, NackReason,
    RejectReason, WriteOutcome,
};
use super::Direction;
use crate::address::{
    device_of, entity_path, feature_of, management, node_management, same_entity, AddressDevice,
    FeatureAddress, FeatureAddressView,
};
use crate::model::{
    entries_of, listed, read_number, readable, CmdData, DeviceConfigurationKeyId,
    DeviceConfigurationKeyValueData, DeviceConfigurationKeyValueValue, ErrorNumber, FeatureType,
    Function, LoadControlLimitId, MsgCounter, Payload, Role, WriteToken,
};
use crate::number::Number;
use crate::seqs::{first, lemma_first_index_is, lemma_no_first_index, lemma_take_next};
use crate::spine::{
    CommandView, Engine, EngineView, HeartbeatProducer, SpineEvent, WriteRequest,
    HEARTBEAT_PERIOD,
};
use crate::text::{bracketed, bracketed_text, decimal, decimal_text};
use crate::time::{after, earlier, Duration};
use crate::usecases::signals::{
    qualified, Signal, SignalFact, SignalSet, SignalValue, SignalView,
};
use vstd::prelude::*;

verus! {

/// What the actor reports to the application.
#[derive(Clone, Debug, PartialEq, Eq)]
pub enum CsEvent {
    /// A limit write was answered.
    LimitDecided {
        /// The number of the write.
        request: MsgCounter,
        /// The limit.
        write: LimitWrite,
        /// The answer.
        outcome: WriteOutcome,
    },
    /// A limit write that could not be read was answered.
    LimitUnreadable {
        /// The number of the write.
        request: MsgCounter,
        /// The answer.
        outcome: WriteOutcome,
    },
    /// A failsafe write was answered.
    FailsafeDecided {
        /// The number of the write.
        request: MsgCounter,
        /// The answer.
        outcome: WriteOutcome,
    },
    /// The Energy Guard in control is known.
    GuardIdentified {
        /// Its feature.
        guard: FeatureAddress,
    },
    /// The state machine moved.
    StateChanged {
        /// From here.
        from: LimitationState,
        /// To there.
        to: LimitationState,
    },
}

/// The content of a [`CsEvent`].
pub enum CsEventView {
    /// See [`CsEvent::LimitDecided`].
    LimitDecided {
        /// The number of the write.
        request: MsgCounter,
        /// The limit.
        write: LimitWrite,
        /// The answer.
        outcome: WriteOutcome,
    },
    /// See [`CsEvent::LimitUnreadable`].
    LimitUnreadable {
        /// The number of the write.
        request: MsgCounter,
        /// The answer.
        outcome: WriteOutcome,
    },
    /// See [`CsEvent::FailsafeDecided`].
    FailsafeDecided {
        /// The number of the write.
        request: MsgCounter,
        /// The answer.
        outcome: WriteOutcome,
    },
    /// See [`CsEvent::GuardIdentified`].
    GuardIdentified {
        /// Its feature.
        guard: FeatureAddressView,
    },
    /// See [`CsEvent::StateChanged`].
    StateChanged {
        /// From here.
        from: LimitationState,
        /// To there.
        to: LimitationState,
    },
}

impl View for CsEvent {
    type V = CsEventView;

    open spec fn view(&self) -> CsEventView {
        match *self {
            CsEvent::LimitDecided { request, write, outcome } => CsEventView::LimitDecided {
                request,
                write,
                outcome,
            },
            CsEvent::LimitUnreadable { request, outcome } => CsEventView::LimitUnreadable {
                request,
                outcome,
            },
            CsEvent::FailsafeDecided { request, outcome } => CsEventView::FailsafeDecided {
                request,
                outcome,
            },
            CsEvent::GuardIdentified { guard } => CsEventView::GuardIdentified { guard: guard@ },
            CsEvent::StateChanged { from, to } => CsEventView::StateChanged { from, to },
        }
    }
}

/// The content of an optional event.
pub open spec fn event_of(event: Option<CsEvent>) -> Option<CsEventView> {
    match event {
        Some(event) => Some(event@),
        None => None,
    }
}

/// The own features that the actor works with.
#[derive(Clone, Debug, PartialEq, Eq)]
pub struct CsFeatures {
    /// `LoadControl`, where the limit is written.
    pub load_control: FeatureAddress,
    /// `DeviceConfiguration`, where the failsafe values are written.
    pub device_configuration: FeatureAddress,
    /// `DeviceDiagnosis`, where this system's own heartbeat is published.
    pub device_diagnosis: FeatureAddress,
    /// The client-role `DeviceDiagnosis`, which subscribes to the guard's heartbeat.
    pub device_diagnosis_client: FeatureAddress,
}

/// The actor as a mathematical value.
pub struct CsActorView {
    /// The state machine.
    pub system: CsView,
    /// Which of the two use cases is played.
    pub direction: Direction,
    /// Where the limit is written.
    pub load_control: FeatureAddressView,
    /// Where the failsafe values are written.
    pub device_configuration: FeatureAddressView,
    /// Where the own heartbeat is published.
    pub device_diagnosis: FeatureAddressView,
    /// What subscribes to the guard's heartbeat.
    pub device_diagnosis_client: FeatureAddressView,
    /// Where the constraints are published.
    pub electrical_connection: Option<FeatureAddressView>,
    /// The own heartbeat.
    pub heartbeat: HeartbeatProducer,
    /// Who is bound to the limit.
    pub bound_load_control: Option<FeatureAddressView>,
    /// Who is bound to the failsafe values.
    pub bound_configuration: Option<FeatureAddressView>,
    /// The Energy Guard in control.
    pub guard: Option<FeatureAddressView>,
    /// Its heartbeat.
    pub guard_diagnosis: Option<FeatureAddressView>,
    /// Whether its heartbeat was subscribed to.
    pub subscribed: bool,
    /// Whether its discovery was asked for.
    pub guard_discovery_asked: bool,
    /// The record of limit writes.
    pub audit: AuditView,
}

/// The limit value that a configuration entry holds; a value that is missing or cannot be read
/// counts as one that is never valid.
pub open spec fn failsafe_watts_of(value: Option<DeviceConfigurationKeyValueValue>) -> Number {
    match value {
        Some(value) => match readable(value.scaled_number) {
            Some(watts) => watts,
            None => Number::Finite((-1000) as i64),
        },
        None => Number::Finite((-1000) as i64),
    }
}

/// The duration that a configuration entry holds; one that is missing counts as none at all.
pub open spec fn failsafe_duration_of(value: Option<DeviceConfigurationKeyValueValue>) -> Duration {
    match value {
        Some(value) => match value.duration {
            Some(duration) => duration,
            None => Duration { nanos: 0 },
        },
        None => Duration { nanos: 0 },
    }
}

/// The value of a configuration key.
pub open spec fn key_value(
    entries: Seq<DeviceConfigurationKeyValueData>,
    key: DeviceConfigurationKeyId,
) -> Option<DeviceConfigurationKeyValueValue> {
    match first(entries, |entry: DeviceConfigurationKeyValueData| entry.key_id == Some(key)) {
        Some(entry) => entry.value,
        None => None,
    }
}

/// One written configuration entry: the system after it, and the answer so far. Keys other than
/// the two failsafe keys are passed over.
pub open spec fn failsafe_step(
    state: (CsView, WriteOutcome),
    written: DeviceConfigurationKeyValueData,
    effective: Seq<DeviceConfigurationKeyValueData>,
    now: Duration,
) -> (CsView, WriteOutcome) {
    match written.key_id {
        Some(key) => {
            let value = key_value(effective, key);
            if key.0 == FAILSAFE_LIMIT_KEY {
                let (system, result) = state.0.failsafe_limit_written(
                    failsafe_watts_of(value),
                    now,
                );
                (system, worse(state.1, result))
            } else if key.0 == FAILSAFE_DURATION_KEY {
                let (system, result) = state.0.failsafe_duration_written(
                    failsafe_duration_of(value),
                    now,
                );
                (system, worse(state.1, result))
            } else {
                state
            }
        },
        None => state,
    }
}

/// The answer to several writes: the last refusal, if there is one.
pub open spec fn worse(before: WriteOutcome, result: WriteOutcome) -> WriteOutcome {
    if result is Accepted {
        before
    } else {
        result
    }
}

/// All written configuration entries, one after the other.
pub open spec fn failsafe_steps(
    system: CsView,
    written: Seq<DeviceConfigurationKeyValueData>,
    effective: Seq<DeviceConfigurationKeyValueData>,
    now: Duration,
) -> (CsView, WriteOutcome) {
    written.fold_left(
        (system, WriteOutcome::Accepted),
        |state: (CsView, WriteOutcome), entry: DeviceConfigurationKeyValueData|
            failsafe_step(state, entry, effective, now),
    )
}

impl CsActorView {
    /// The node once everything this system states is published.
    pub open spec fn published(self, engine: EngineView, now: Duration) -> EngineView {
        let served = engine.publishing(
            self.load_control,
            limit_description_payload(self.direction),
            false,
            now,
        ).publishing(self.load_control, limit_data_payload(self.system), true, now).publishing(
            self.device_configuration,
            failsafe_descriptions_payload(self.direction),
            false,
            now,
        ).publishing(
            self.device_configuration,
            failsafe_values_payload(self.system),
            true,
            now,
        );
        match self.electrical_connection {
            Some(feature) => served.publishing(
                feature,
                constraints_payload(self.system, self.direction),
                false,
                now,
            ),
            None => served,
        }
    }

    /// After a heartbeat of the guard.
    pub open spec fn heard(self, now: Duration) -> CsActorView {
        CsActorView { system: self.system.heard(now), ..self }
    }

    /// After a feature of a peer was bound to one of ours.
    pub open spec fn bound(self, client: FeatureAddressView, server: FeatureAddressView) -> (
        CsActorView,
        Option<CsEventView>,
    ) {
        let noted = if server == self.load_control {
            CsActorView { bound_load_control: Some(client), ..self }
        } else if server == self.device_configuration {
            CsActorView { bound_configuration: Some(client), ..self }
        } else {
            self
        };
        if server != self.load_control && server != self.device_configuration {
            (self, None)
        } else {
            match (noted.bound_load_control, noted.bound_configuration) {
                (Some(one), Some(other)) => if one.shares_entity(other) && noted.guard is None {
                    (
                        CsActorView { guard: Some(one), ..noted },
                        Some(CsEventView::GuardIdentified { guard: one }),
                    )
                } else {
                    (noted, None)
                },
                _ => (noted, None),
            }
        }
    }

    /// The heartbeat feature of the guard, as far as discovery knows it.
    pub open spec fn guards_heartbeat(self, engine: EngineView) -> Option<FeatureAddressView> {
        match self.guard {
            Some(guard) => match guard.device {
                Some(device) => match engine.peer(device) {
                    Some(remote) => match remote.entity(guard.path()) {
                        Some(entity) => match entity.feature(
                            FeatureType::DeviceDiagnosis,
                            Role::Server,
                        ) {
                            Some(feature) => Some(feature.address),
                            None => None,
                        },
                        None => None,
                    },
                    None => None,
                },
                None => None,
            },
            None => None,
        }
    }

    /// After the guard's heartbeat was looked for: it is subscribed to once it is known, and
    /// asked for, once, while it is not.
    pub open spec fn following(self, engine: EngineView, now: Duration) -> (
        CsActorView,
        EngineView,
    ) {
        match self.guard {
            Some(guard) if !self.subscribed => match guard.device {
                Some(device) => match self.guards_heartbeat(engine) {
                    Some(feature) => (
                        CsActorView { guard_diagnosis: Some(feature), subscribed: true, ..self },
                        engine.subscribing(self.device_diagnosis_client, feature, now),
                    ),
                    None => if self.guard_discovery_asked {
                        (self, engine)
                    } else {
                        (
                            CsActorView { guard_discovery_asked: true, ..self },
                            engine.reading(
                                management(device),
                                management(engine.address),
                                Function::NodeManagementDetailedDiscoveryData,
                                now,
                            ),
                        )
                    },
                },
                None => (self, engine),
            },
            _ => (self, engine),
        }
    }

    /// After a binding was released: nobody is in control any more.
    pub open spec fn released(self, server: FeatureAddressView) -> CsActorView {
        let at_limit = server.shares_entity(self.load_control);
        let at_configuration = !at_limit && server.shares_entity(self.device_configuration);
        CsActorView {
            bound_load_control: if at_limit {
                None
            } else {
                self.bound_load_control
            },
            bound_configuration: if at_configuration {
                None
            } else {
                self.bound_configuration
            },
            guard: None,
            guard_diagnosis: None,
            subscribed: false,
            guard_discovery_asked: false,
            ..self
        }
    }

    /// With one more record in the log.
    pub open spec fn logged(
        self,
        request: MsgCounter,
        write: Option<LimitWrite>,
        outcome: WriteOutcome,
        peer: Option<Seq<char>>,
        now: Duration,
    ) -> CsActorView {
        CsActorView {
            audit: self.audit.recorded(
                LimitRecordView {
                    peer,
                    ..LimitRecordView::bare(now, request, write, outcome)
                },
            ),
            ..self
        }
    }

    /// A write on the limit. What was sent says whether the limit is addressed at all; what it
    /// resolves to says what is asked for.
    pub open spec fn limit_decided(
        self,
        engine: EngineView,
        token: WriteToken,
        request: MsgCounter,
        peer: Option<Seq<char>>,
        data: Payload,
        resolved: Payload,
        now: Duration,
    ) -> (CsActorView, EngineView, CsEventView) {
        let own = LoadControlLimitId(LIMIT_ID);
        let addressed = names_limit(data, own);
        match limit_write_of(resolved, own) {
            Some(write) if addressed => {
                let (system, outcome) = self.system.limit_written(
                    write,
                    LocalDecision::Apply,
                    now,
                );
                let decided = CsActorView { system, ..self };
                (
                    decided.logged(request, Some(write), outcome, peer, now),
                    if outcome is Accepted {
                        decided.published(
                            engine.queued(now, CommandView::Accept { token }),
                            now,
                        )
                    } else {
                        engine.queued(now, CommandView::Reject { token, error: outcome.number() })
                    },
                    CsEventView::LimitDecided { request, write, outcome },
                )
            },
            _ => {
                let (system, outcome) = if addressed {
                    self.system.unreadable_written(now)
                } else {
                    (self.system, WriteOutcome::Rejected(NackReason::Unreadable))
                };
                (
                    CsActorView { system, ..self }.logged(request, None, outcome, peer, now),
                    engine.queued(now, CommandView::Reject { token, error: outcome.number() }),
                    CsEventView::LimitUnreadable { request, outcome },
                )
            },
        }
    }

    /// A write on the failsafe values.
    pub open spec fn failsafe_decided(
        self,
        engine: EngineView,
        token: WriteToken,
        request: MsgCounter,
        data: Payload,
        resolved: Payload,
        now: Duration,
    ) -> (CsActorView, EngineView, CsEventView) {
        match (data, resolved) {
            (
                Payload::DeviceConfigurationKeyValueListData(written),
                Payload::DeviceConfigurationKeyValueListData(effective),
            ) => {
                let (system, outcome) = failsafe_steps(
                    self.system,
                    entries_of(written),
                    entries_of(effective),
                    now,
                );
                let decided = CsActorView { system, ..self };
                (
                    decided,
                    if outcome is Accepted {
                        decided.published(
                            engine.queued(now, CommandView::Accept { token }),
                            now,
                        )
                    } else {
                        engine.queued(now, CommandView::Reject { token, error: outcome.number() })
                    },
                    CsEventView::FailsafeDecided { request, outcome },
                )
            },
            _ => (
                self,
                engine.queued(
                    now,
                    CommandView::Reject { token, error: ErrorNumber::CommandRejected },
                ),
                CsEventView::FailsafeDecided {
                    request,
                    outcome: WriteOutcome::Rejected(NackReason::SequenceIncomplete),
                },
            ),
        }
    }

    /// The timers brought up to `now`: a heartbeat that is due is sent, and a state that was
    /// left is published.
    pub open spec fn ticked(self, engine: EngineView, now: Duration) -> (
        CsActorView,
        EngineView,
        Option<CsEventView>,
    ) {
        let due = self.heartbeat.due(now);
        let beaten = if due {
            engine.queued(now, self.heartbeat.beat(self.device_diagnosis))
        } else {
            engine
        };
        let after = CsActorView {
            heartbeat: if due {
                self.heartbeat.beaten(now)
            } else {
                self.heartbeat
            },
            system: self.system.timed_out(now),
            ..self
        };
        if after.system.state == self.system.state {
            (after, beaten, None)
        } else {
            (
                after,
                after.published(beaten, now),
                Some(
                    CsEventView::StateChanged {
                        from: self.system.state,
                        to: after.system.state,
                    },
                ),
            )
        }
    }

    /// What an event does.
    pub open spec fn stepped(self, engine: EngineView, event: SpineEvent, now: Duration) -> (
        CsActorView,
        EngineView,
        Option<CsEventView>,
    ) {
        match event {
            SpineEvent::DataNotified { feature, resolved } => (
                if heartbeat_of(resolved@) is Some {
                    self.heard(now)
                } else {
                    self
                },
                engine,
                None,
            ),
            SpineEvent::ReplyReceived { feature, resolved } => (
                if heartbeat_of(resolved@) is Some {
                    self.heard(now)
                } else {
                    self
                },
                engine,
                None,
            ),
            SpineEvent::BindingGranted { client, server } => {
                let (noted, report) = self.bound(client@, server@);
                let (after, sent) = noted.following(engine, now);
                (after, sent, report)
            },
            SpineEvent::DiscoveryUpdated { device } => {
                let (after, sent) = self.following(engine, now);
                (after, sent, None)
            },
            SpineEvent::BindingReleased { client, server } => (
                self.released(server@),
                engine,
                None,
            ),
            SpineEvent::WriteRequested(write) => if write.feature@ == self.load_control {
                let (after, sent, report) = self.limit_decided(
                    engine,
                    write.token,
                    write.request,
                    device_of(write.from.device),
                    write.data@,
                    write.resolved@,
                    now,
                );
                (after, sent, Some(report))
            } else if write.feature@ == self.device_configuration {
                let (after, sent, report) = self.failsafe_decided(
                    engine,
                    write.token,
                    write.request,
                    write.data@,
                    write.resolved@,
                    now,
                );
                (after, sent, Some(report))
            } else {
                (self, engine, None)
            },
            _ => (self, engine, None),
        }
    }

    /// The guard, as it is shown on the debug interface.
    pub open spec fn guard_text(guard: FeatureAddressView) -> Seq<char> {
        (match guard.device {
            Some(device) => device,
            None => "(local)"@,
        }) + " entity "@ + bracketed(guard.path()) + " feature "@ + decimal(
            match guard.feature {
                Some(feature) => feature as nat,
                None => 0,
            },
        )
    }

    /// The signals of the state machine, the guard, and how many records the log holds.
    pub open spec fn signals(self) -> Seq<SignalView> {
        self.system.signals(self.direction).push(
            SignalView {
                name: qualified(self.direction.prefix(), "guard"@),
                value: match self.guard {
                    Some(guard) => SignalFact::Text(CsActorView::guard_text(guard)),
                    None => SignalFact::Absent,
                },
                unit: None,
            },
        ).push(
            SignalView {
                name: qualified(self.direction.prefix(), "auditRecords"@),
                value: SignalFact::Number(Number::counted(self.audit.records.len())),
                unit: None,
            },
        )
    }
}

/// The Controllable System on a node.
#[derive(Debug)]
pub struct ControllableSystemActor {
    system: ControllableSystem,
    direction: Direction,
    load_control: FeatureAddress,
    device_configuration: FeatureAddress,
    device_diagnosis: FeatureAddress,
    device_diagnosis_client: FeatureAddress,
    electrical_connection: Option<FeatureAddress>,
    heartbeat: HeartbeatProducer,
    bound_load_control: Option<FeatureAddress>,
    bound_configuration: Option<FeatureAddress>,
    guard: Option<FeatureAddress>,
    guard_diagnosis: Option<FeatureAddress>,
    subscribed: bool,
    guard_discovery_asked: bool,
    audit: AuditLog,
}

impl View for ControllableSystemActor {
    type V = CsActorView;

    closed spec fn view(&self) -> CsActorView {
        CsActorView {
            system: self.system@,
            direction: self.direction,
            load_control: self.load_control@,
            device_configuration: self.device_configuration@,
            device_diagnosis: self.device_diagnosis@,
            device_diagnosis_client: self.device_diagnosis_client@,
            electrical_connection: feature_of(self.electrical_connection),
            heartbeat: self.heartbeat,
            bound_load_control: feature_of(self.bound_load_control),
            bound_configuration: feature_of(self.bound_configuration),
            guard: feature_of(self.guard),
            guard_diagnosis: feature_of(self.guard_diagnosis),
            subscribed: self.subscribed,
            guard_discovery_asked: self.guard_discovery_asked,
            audit: self.audit@,
        }
    }
}

/// Puts a [`ControllableSystemActor`] together.
#[derive(Debug)]
pub struct ControllableSystemBuilder {
    actor: ControllableSystemActor,
}

impl View for ControllableSystemBuilder {
    type V = CsActorView;

    closed spec fn view(&self) -> CsActorView {
        self.actor@
    }
}

impl ControllableSystemBuilder {
    /// Publishes the constraints on this feature.
    #[must_use]
    pub fn with_electrical_connection(self, address: FeatureAddress) -> (r:
        ControllableSystemBuilder)
        ensures
            r@ == (CsActorView { electrical_connection: Some(address@), ..self@ }),
    {
        ControllableSystemBuilder {
            actor: ControllableSystemActor { electrical_connection: Some(address), ..self.actor },
        }
    }

    /// Records in this log.
    #[must_use]
    pub fn with_audit_log(self, audit: AuditLog) -> (r: ControllableSystemBuilder)
        ensures
            r@ == (CsActorView { audit: audit@, ..self@ }),
    {
        ControllableSystemBuilder { actor: ControllableSystemActor { audit, ..self.actor } }
    }

    /// Puts the actor to work: the two bindings go to one entity, and everything is published.
    #[must_use]
    pub fn install(self, engine: &mut Engine, now: Duration) -> (r: ControllableSystemActor)
        ensures
            r@ == self@,
            final(engine)@ == self@.published(
                old(engine)@.queued(
                    now,
                    CommandView::BindTogether {
                        one: self@.load_control,
                        other: self@.device_configuration,
                    },
                ),
                now,
            ),
    {
        let actor = self.actor;
        engine.bind_features_together(&actor.load_control, &actor.device_configuration, now);
        actor.publish(engine, now);
        actor
    }
}

impl ControllableSystemActor {
    /// Starts to put an actor together.
    pub fn builder(system: ControllableSystem, direction: Direction, features: CsFeatures) -> (r:
        ControllableSystemBuilder)
        ensures
            r@ == (CsActorView {
                system: system@,
                direction,
                load_control: features.load_control@,
                device_configuration: features.device_configuration@,
                device_diagnosis: features.device_diagnosis@,
                device_diagnosis_client: features.device_diagnosis_client@,
                electrical_connection: None,
                heartbeat: HeartbeatProducer {
                    next: after(Duration { nanos: 0 }, HEARTBEAT_PERIOD as int),
                    counter: 0,
                },
                bound_load_control: None,
                bound_configuration: None,
                guard: None,
                guard_diagnosis: None,
                subscribed: false,
                guard_discovery_asked: false,
                audit: AuditView::holding(super::audit::DEFAULT_CAPACITY),
            }),
    {
        ControllableSystemBuilder {
            actor: ControllableSystemActor {
                system,
                direction,
                load_control: features.load_control,
                device_configuration: features.device_configuration,
                device_diagnosis: features.device_diagnosis,
                device_diagnosis_client: features.device_diagnosis_client,
                electrical_connection: None,
                heartbeat: HeartbeatProducer::new(Duration { nanos: 0 }),
                bound_load_control: None,
                bound_configuration: None,
                guard: None,
                guard_diagnosis: None,
                subscribed: false,
                guard_discovery_asked: false,
                audit: AuditLog::new(),
            },
        }
    }

    /// Which of the two use cases is played.
    pub fn direction(&self) -> (r: Direction)
        ensures
            r == self@.direction,
    {
        self.direction
    }

    /// The state machine.
    pub fn system(&self) -> (r: &ControllableSystem)
        ensures
            r@ == self@.system,
    {
        &self.system
    }

    /// The state machine, to be changed.
    pub fn system_mut(&mut self) -> (r: &mut ControllableSystem)
        ensures
            r@ == old(self)@.system,
            final(self)@ == (CsActorView { system: final(r)@, ..old(self)@ }),
    {
        &mut self.system
    }

    /// The record of limit writes.
    pub fn audit(&self) -> (r: &AuditLog)
        ensures
            r@ == self@.audit,
    {
        &self.audit
    }

    /// The record of limit writes, to be changed.
    pub fn audit_mut(&mut self) -> (r: &mut AuditLog)
        ensures
            r@ == old(self)@.audit,
            final(self)@ == (CsActorView { audit: final(r)@, ..old(self)@ }),
    {
        &mut self.audit
    }

    /// The Energy Guard in control, once it is known.
    pub fn guard(&self) -> (r: Option<&FeatureAddress>)
        ensures
            match r {
                Some(guard) => self@.guard == Some(guard@),
                None => self@.guard is None,
            },
    {
        match &self.guard {
            Some(guard) => Some(guard),
            None => None,
        }
    }

    /// Publishes the limit, the failsafe values and the constraints as they stand.
    pub fn publish(&self, engine: &mut Engine, now: Duration)
        ensures
            final(engine)@ == self@.published(old(engine)@, now),
    {
        engine.publish(&self.load_control, limit_description(self.direction), false, now);
        engine.publish(&self.load_control, limit_data(&self.system), true, now);
        engine.publish(
            &self.device_configuration,
            failsafe_descriptions(self.direction),
            false,
            now,
        );
        engine.publish(&self.device_configuration, failsafe_values(&self.system), true, now);
        if let Some(feature) = &self.electrical_connection {
            engine.publish(feature, constraints(&self.system, self.direction), false, now);
        }
    }

    /// Interrupts an active limitation for a permitted reason, and publishes it.
    pub fn interrupt(&mut self, engine: &mut Engine, reason: RejectReason, now: Duration) -> (r:
        bool)
        ensures
            r == old(self)@.system.may_interrupt(reason),
            final(self)@ == (CsActorView {
                system: old(self)@.system.interrupted(reason, now),
                ..old(self)@
            }),
            final(engine)@ == if r {
                final(self)@.published(old(engine)@, now)
            } else {
                old(engine)@
            },
    {
        if !self.system.interrupt(reason, now) {
            return false;
        }
        self.publish(engine, now);
        true
    }

    /// When [`Self::handle_timeout`] should next be called. The own heartbeat is always pending.
    pub fn poll_timeout(&self) -> (r: Duration)
        ensures
            r == match self@.system.deadline() {
                Some(deadline) => earlier(deadline, self@.heartbeat.next),
                None => self@.heartbeat.next,
            },
    {
        match self.system.poll_timeout() {
            Some(deadline) => deadline.min(self.heartbeat.poll_timeout()),
            None => self.heartbeat.poll_timeout(),
        }
    }

    /// Advances the heartbeat and the state machine's timers.
    pub fn handle_timeout(&mut self, engine: &mut Engine, now: Duration) -> (r: Option<CsEvent>)
        ensures
            (final(self)@, final(engine)@, event_of(r)) == old(self)@.ticked(old(engine)@, now),
    {
        self.heartbeat.tick(engine, &self.device_diagnosis, now);
        let before = self.system.state();
        self.system.handle_timeout(now);
        let after = self.system.state();
        if before == after {
            return None;
        }
        self.publish(engine, now);
        Some(CsEvent::StateChanged { from: before, to: after })
    }

    /// Handles one event, and answers any write it carries.
    pub fn handle_event(&mut self, engine: &mut Engine, event: &SpineEvent, now: Duration) -> (r:
        Option<CsEvent>)
        ensures
            (final(self)@, final(engine)@, event_of(r)) == old(self)@.stepped(
                old(engine)@,
                *event,
                now,
            ),
    {
        match event {
            SpineEvent::DataNotified { feature: _, resolved }
            | SpineEvent::ReplyReceived { feature: _, resolved } => {
                if read_heartbeat(resolved).is_some() {
                    self.system.on_heartbeat(now);
                }
                None
            },
            SpineEvent::BindingGranted { client, server } => {
                let report = self.on_binding(client, server);
                self.follow_the_guards_heartbeat(engine, now);
                report
            },
            SpineEvent::DiscoveryUpdated { device: _ } => {
                self.follow_the_guards_heartbeat(engine, now);
                None
            },
            SpineEvent::BindingReleased { client: _, server } => {
                if same_entity(server, &self.load_control) {
                    self.bound_load_control = None;
                } else if same_entity(server, &self.device_configuration) {
                    self.bound_configuration = None;
                }
                self.guard = None;
                self.guard_diagnosis = None;
                self.subscribed = false;
                self.guard_discovery_asked = false;
                None
            },
            SpineEvent::WriteRequested(write) => {
                if write.feature.is(&self.load_control) {
                    Some(self.decide_limit(engine, write, now))
                } else if write.feature.is(&self.device_configuration) {
                    Some(self.decide_failsafe(engine, write, now))
                } else {
                    None
                }
            },
            _ => None,
        }
    }

    /// The Energy Guard is the entity that binds both features.
    fn on_binding(&mut self, client: &FeatureAddress, server: &FeatureAddress) -> (r: Option<
        CsEvent,
    >)
        ensures
            (final(self)@, event_of(r)) == old(self)@.bound(client@, server@),
    {
        if server.is(&self.load_control) {
            self.bound_load_control = Some(client.copy());
        } else if server.is(&self.device_configuration) {
            self.bound_configuration = Some(client.copy());
        } else {
            return None;
        }
        let guard = match (&self.bound_load_control, &self.bound_configuration) {
            (Some(one), Some(other)) => {
                if same_entity(one, other) && self.guard.is_none() {
                    one.copy()
                } else {
                    return None;
                }
            },
            _ => return None,
        };
        self.guard = Some(guard.copy());
        Some(CsEvent::GuardIdentified { guard })
    }

    /// Subscribes to the guard's heartbeat once discovery knows it, and asks for the discovery
    /// where it does not.
    fn follow_the_guards_heartbeat(&mut self, engine: &mut Engine, now: Duration)
        ensures
            (final(self)@, final(engine)@) == old(self)@.following(old(engine)@, now),
    {
        if self.subscribed {
            return;
        }
        let (device, entity) = match &self.guard {
            Some(guard) => match &guard.device {
                Some(device) => (device.copy(), entity_path(guard)),
                None => return,
            },
            None => return,
        };
        let found = match engine.peer(&device) {
            Some(remote) => match remote.entity(&entity) {
                Some(entity) => match entity.feature(FeatureType::DeviceDiagnosis, Role::Server) {
                    Some(feature) => Some(feature.address.copy()),
                    None => None,
                },
                None => None,
            },
            None => None,
        };
        match found {
            Some(diagnosis) => {
                engine.request_subscription(&self.device_diagnosis_client, &diagnosis, now);
                self.guard_diagnosis = Some(diagnosis);
                self.subscribed = true;
            },
            None => {
                if !self.guard_discovery_asked {
                    self.guard_discovery_asked = true;
                    let source = node_management(&engine.address);
                    let destination = node_management(&device);
                    engine.read(
                        &destination,
                        &source,
                        Function::NodeManagementDetailedDiscoveryData,
                        now,
                    );
                }
            },
        }
    }

    /// Answers a write on the limit.
    fn decide_limit(&mut self, engine: &mut Engine, write: &WriteRequest, now: Duration) -> (r:
        CsEvent)
        ensures
            (final(self)@, final(engine)@, r@) == old(self)@.limit_decided(
                old(engine)@,
                write.token,
                write.request,
                device_of(write.from.device),
                write.data@,
                write.resolved@,
                now,
            ),
    {
        let own = LoadControlLimitId(LIMIT_ID);
        let request = write.request;
        let peer = match &write.from.device {
            Some(device) => Some(device.copy()),
            None => None,
        };
        let addressed = addresses_limit(&write.data, own);
        let limit = if addressed {
            read_limit_write(&write.resolved, own)
        } else {
            None
        };
        match limit {
            Some(limit) => {
                let outcome = self.system.on_limit_write(&limit, LocalDecision::Apply, now);
                if outcome.is_accepted() {
                    engine.accept_write(write.token, now);
                    self.publish(engine, now);
                } else {
                    engine.reject_write(write.token, outcome.error_number(), now);
                }
                self.log(request, Some(limit), outcome, peer, now);
                CsEvent::LimitDecided { request, write: limit, outcome }
            },
            None => {
                let outcome = if addressed {
                    self.system.on_unreadable_limit_write(now)
                } else {
                    WriteOutcome::Rejected(NackReason::Unreadable)
                };
                engine.reject_write(write.token, outcome.error_number(), now);
                self.log(request, None, outcome, peer, now);
                CsEvent::LimitUnreadable { request, outcome }
            },
        }
    }

    /// Records a limit write and its answer.
    fn log(
        &mut self,
        request: MsgCounter,
        write: Option<LimitWrite>,
        outcome: WriteOutcome,
        peer: Option<AddressDevice>,
        now: Duration,
    )
        ensures
            final(self)@ == old(self)@.logged(request, write, outcome, device_of(peer), now),
    {
        let record = match write {
            Some(write) => LimitRecord::new(now, request, write, outcome),
            None => LimitRecord::unreadable(now, request, outcome),
        };
        self.audit.record(LimitRecord { peer, ..record });
    }

    /// Answers a write on the failsafe values: it is accepted if every value that it names is.
    #[verifier::loop_isolation(false)]
    fn decide_failsafe(&mut self, engine: &mut Engine, write: &WriteRequest, now: Duration) -> (r:
        CsEvent)
        ensures
            (final(self)@, final(engine)@, r@) == old(self)@.failsafe_decided(
                old(engine)@,
                write.token,
                write.request,
                write.data@,
                write.resolved@,
                now,
            ),
    {
        let request = write.request;
        let (written, effective) = match (&write.data, &write.resolved) {
            (
                CmdData::DeviceConfigurationKeyValueListData(written),
                CmdData::DeviceConfigurationKeyValueListData(effective),
            ) => (
                &written.device_configuration_key_value_data,
                &effective.device_configuration_key_value_data,
            ),
            _ => {
                engine.reject_write(write.token, ErrorNumber::CommandRejected, now);
                return CsEvent::FailsafeDecided {
                    request,
                    outcome: WriteOutcome::Rejected(NackReason::SequenceIncomplete),
                };
            },
        };
        let ghost before = self@;
        let ghost targets = entries_of(listed(*effective));
        let ghost step = |state: (CsView, WriteOutcome), entry: DeviceConfigurationKeyValueData|
            failsafe_step(state, entry, targets, now);
        let mut outcome = WriteOutcome::Accepted;
        match written {
            Some(entries) => {
                let mut i: usize = 0;
                assert(entries@.take(0) =~= Seq::empty());
                while i < entries.len()
                    invariant
                        i <= entries@.len(),
                        self@ == (CsActorView { system: self@.system, ..before }),
                        (self@.system, outcome) == entries@.take(i as int).fold_left(
                            (before.system, WriteOutcome::Accepted),
                            step,
                        ),
                    decreases entries@.len() - i,
                {
                    proof {
                        lemma_take_next(entries@, i as int);
                    }
                    if let Some(key) = entries[i].key_id {
                        let value = find_value(effective, key);
                        if key.0 == FAILSAFE_LIMIT_KEY {
                            let watts = match value {
                                Some(value) => match read_number(value.scaled_number) {
                                    Some(watts) => watts,
                                    None => Number::Finite(-1000),
                                },
                                None => Number::Finite(-1000),
                            };
                            let result = self.system.on_failsafe_limit_write(watts, now);
                            if !result.is_accepted() {
                                outcome = result;
                            }
                        } else if key.0 == FAILSAFE_DURATION_KEY {
                            let duration = match value {
                                Some(value) => match value.duration {
                                    Some(duration) => duration,
                                    None => Duration { nanos: 0 },
                                },
                                None => Duration { nanos: 0 },
                            };
                            let result = self.system.on_failsafe_duration_write(duration, now);
                            if !result.is_accepted() {
                                outcome = result;
                            }
                        }
                    }
                    i = i + 1;
                }
                assert(entries@.take(i as int) =~= entries@);
            },
            None => {},
        }
        assert((self@.system, outcome) == failsafe_steps(
            before.system,
            entries_of(listed(*written)),
            targets,
            now,
        ));
        if outcome.is_accepted() {
            engine.accept_write(write.token, now);
            self.publish(engine, now);
        } else {
            engine.reject_write(write.token, outcome.error_number(), now);
        }
        CsEvent::FailsafeDecided { request, outcome }
    }

    /// What the debug interface shows: the state machine, the guard, and how many records the
    /// log holds.
    pub fn signals(&self) -> (r: SignalSet)
        ensures
            r@ == self@.signals(),
    {
        let prefix = self.direction.signal_prefix();
        let guard = match &self.guard {
            Some(guard) => {
                let mut text = match &guard.device {
                    Some(device) => device.0.clone(),
                    None => String::from_str("(local)"),
                };
                text.append(" entity ");
                text.append(bracketed_text(&entity_path(guard)).as_str());
                text.append(" feature ");
                let number: u64 = match guard.feature {
                    Some(feature) => feature as u64,
                    None => 0,
                };
                text.append(decimal_text(number).as_str());
                SignalValue::Text(text)
            },
            None => SignalValue::Absent,
        };
        self.system.signals(self.direction).with(Signal::named(prefix, "guard", guard)).with(
            Signal::named(
                prefix,
                "auditRecords",
                SignalValue::Number(Number::count(self.audit.len())),
            ),
        )
    }
}

/// The value of a configuration key.
#[verifier::loop_isolation(false)]
fn find_value(
    list: &Option<Vec<DeviceConfigurationKeyValueData>>,
    key: DeviceConfigurationKeyId,
) -> (r: Option<DeviceConfigurationKeyValueValue>)
    ensures
        r == key_value(entries_of(listed(*list)), key),
{
    let ghost wanted = |entry: DeviceConfigurationKeyValueData| entry.key_id == Some(key);
    match list {
        Some(entries) => {
            let mut i: usize = 0;
            while i < entries.len()
                invariant
                    i <= entries@.len(),
                    forall|j: int| 0 <= j < i ==> !wanted(#[trigger] entries@[j]),
                decreases entries@.len() - i,
            {
                let found = match entries[i].key_id {
                    Some(id) => id == key,
                    None => false,
                };
                if found {
                    proof {
                        lemma_first_index_is(entries@, wanted, i as int);
                    }
                    return entries[i].value;
                }
                i = i + 1;
            }
            proof {
                lemma_no_first_index(entries@, wanted);
            }
            None
        },
        None => {
            proof {
                lemma_no_first_index(Seq::<DeviceConfigurationKeyValueData>::empty(), wanted);
            }
            None
        },
    }
}

} // verus!
