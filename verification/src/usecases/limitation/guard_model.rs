//! The Energy Guard as a mathematical value, and every step it takes.

use super::audit::{AuditView, LimitRecordView};
use super::payloads::{limit_write_of, read_max, NominalMax, PeerIds};
use super::state::{
    LimitWrite, NackReason, WriteOutcome, FAILSAFE_DURATION_LEAST, FAILSAFE_DURATION_MOST,
};
use super::Direction;
use crate::address::FeatureAddressView;
use crate::model::{
    AbsoluteOrRelativeTime, DeviceConfigurationKeyId, DeviceConfigurationKeyValueData,
    DeviceConfigurationKeyValueValue, ErrorNumber, FeatureType, Function, LoadControlLimitData,
    LoadControlLimitId, MsgCounter, Payload, Role, ScaledNumber, TimePeriod,
};
use crate::number::Number;
use crate::seqs::{first, first_index};
use crate::spine::{
    partial_only, EngineView, Filter, FilterControl, HeartbeatMonitor, HeartbeatProducer,
    RemoteDeviceView, SpineEvent,
};
use crate::text::decimal;
use crate::time::{after, earlier, elapsed, Duration};
use crate::usecases::actors;
use vstd::prelude::*;

verus! {

/// The first retry after a refusal, and the step each further retry adds, in nanoseconds.
pub const RETRY_BACKOFF_STEP: u128 = 60_000_000_000;

/// How far apart two writes to one peer are, in nanoseconds, retries excepted.
pub const MIN_WRITE_INTERVAL: u128 = 300_000_000_000;

/// How long, in nanoseconds, a heartbeat still counts as recent enough to precede a limit. The
/// peer's window is twice as long, which leaves room for the write to cross the network.
pub const HEARTBEAT_FRESHNESS: u128 = 30_000_000_000;

/// How long, in nanoseconds, to wait for a peer to subscribe to the heartbeat before writing
/// anyway.
pub const SUBSCRIPTION_GRACE: u128 = 10_000_000_000;

/// What a peer failed to answer.
#[derive(Clone, Copy, Debug, PartialEq, Eq, Structural)]
pub enum Unanswered {
    /// A limit write. The limit has been let go and will be written again.
    Limit,
    /// A description read. Until one arrives, no limit can be addressed at all.
    Description,
    /// A binding request. It is made again on the next attach.
    Binding,
}

/// The content of a [`ControllableSystemPeer`](super::guard::ControllableSystemPeer).
pub struct CsPeerView {
    /// The device.
    pub device: Seq<char>,
    /// Where the limit is written.
    pub load_control: FeatureAddressView,
    /// Where the failsafe values are written.
    pub device_configuration: FeatureAddressView,
    /// Where its heartbeat comes from.
    pub device_diagnosis: Option<FeatureAddressView>,
    /// Where its constraints are read.
    pub electrical_connection: Option<FeatureAddressView>,
}

impl CsPeerView {
    /// Whether this is one of the peer's features.
    pub open spec fn has(self, feature: FeatureAddressView) -> bool {
        self.device_diagnosis == Some(feature) || self.load_control == feature
            || self.device_configuration == feature || self.electrical_connection == Some(feature)
    }
}

/// The Controllable System that a device announced for this direction, with the features on the
/// announcing entity. The two that are written have to be there.
pub open spec fn located(remote: RemoteDeviceView, direction: Direction) -> Option<CsPeerView> {
    match remote.use_case(direction.name(), actors::CONTROLLABLE_SYSTEM@) {
        Some(use_case) => match (
            remote.address,
            remote.address_of(use_case, FeatureType::LoadControl, Role::Server),
            remote.address_of(use_case, FeatureType::DeviceConfiguration, Role::Server),
        ) {
            (Some(device), Some(load_control), Some(device_configuration)) => Some(
                CsPeerView {
                    device,
                    load_control,
                    device_configuration,
                    device_diagnosis: remote.address_of(
                        use_case,
                        FeatureType::DeviceDiagnosis,
                        Role::Server,
                    ),
                    electrical_connection: remote.address_of(
                        use_case,
                        FeatureType::ElectricalConnection,
                        Role::Server,
                    ),
                },
            ),
            _ => None,
        },
        None => None,
    }
}

/// The content of a [`GuardEvent`](super::guard::GuardEvent).
pub enum GuardEventView {
    /// A peer can be written to.
    Ready {
        /// The peer.
        device: Seq<char>,
    },
    /// A limit was accepted.
    LimitAccepted {
        /// The peer.
        device: Seq<char>,
        /// The limit.
        limit: LimitWrite,
        /// The number of the write.
        request: MsgCounter,
    },
    /// A limit was refused.
    LimitRefused {
        /// The peer.
        device: Seq<char>,
        /// The limit.
        limit: LimitWrite,
        /// The answer.
        error: ErrorNumber,
        /// When it is written again.
        retry_at: Duration,
    },
    /// A peer stated what it can or may do at most.
    ConstraintsLearned {
        /// The peer.
        device: Seq<char>,
        /// The maximum.
        nominal_max: NominalMax,
    },
    /// A peer's heartbeat stopped.
    PeerHeartbeatLost {
        /// The peer.
        device: Seq<char>,
    },
    /// A peer described its limits, and none of them is the one to write.
    NoLimitPublished {
        /// The peer.
        device: Seq<char>,
    },
    /// A peer never answered.
    PeerUnresponsive {
        /// The peer.
        device: Seq<char>,
        /// What it was asked.
        outstanding: Unanswered,
    },
}

/// Whether two limits come to the same: equal but for less than half a watt, which does not
/// matter where the limit is not activated.
pub open spec fn same_limit(a: LimitWrite, b: LimitWrite) -> bool {
    &&& a.is_active == b.is_active
    &&& a.duration == b.duration
    &&& a.is_active ==> (match (a.watts, b.watts) {
        (Number::Finite(x), Number::Finite(y)) => -500 < x - y < 500,
        _ => false,
    })
}

/// A limit as it may be sent: not below zero, and without a duration of zero where it is
/// activated.
pub open spec fn normalised(limit: LimitWrite) -> LimitWrite {
    LimitWrite {
        watts: if limit.watts.negative() {
            Number::Finite(0)
        } else {
            limit.watts
        },
        duration: if limit.is_active && (limit.duration matches Some(duration) && duration.nanos
            == 0) {
            None
        } else {
            limit.duration
        },
        ..limit
    }
}

/// An optional limit as it may be sent.
pub open spec fn normalised_option(limit: Option<LimitWrite>) -> Option<LimitWrite> {
    match limit {
        Some(limit) => Some(normalised(limit)),
        None => None,
    }
}

/// The write that lifts every limit.
pub open spec fn lifted() -> LimitWrite {
    LimitWrite { is_active: false, watts: Number::Finite(0), duration: None }
}

/// The data of a limit write.
pub open spec fn limit_payload_view(limit: LimitWrite, limit_id: LoadControlLimitId) -> Payload {
    Payload::LoadControlLimitListData(
        Some(
            seq![
                LoadControlLimitData {
                    limit_id: Some(limit_id),
                    is_limit_changeable: None,
                    is_limit_active: Some(limit.is_active),
                    time_period: match limit.duration {
                        Some(duration) => Some(
                            TimePeriod {
                                start_time: None,
                                end_time: Some(AbsoluteOrRelativeTime::Relative(duration)),
                            },
                        ),
                        None => None,
                    },
                    value: Some(ScaledNumber::encoded(limit.watts, 0)),
                },
            ],
        ),
    )
}

/// The filters of a limit write. An element that is left out means unchanged, so that a limit
/// without a duration also removes the end time that an earlier one may have left.
pub open spec fn limit_filters_view(limit: LimitWrite, limit_id: LoadControlLimitId) -> Seq<
    Filter,
> {
    if limit.duration is Some {
        partial_only()
    } else {
        seq![
            Filter {
                control: FilterControl::Delete,
                limit_id: Some(limit_id),
                end_time: true,
            },
            Filter { control: FilterControl::Partial, limit_id: None, end_time: false },
        ]
    }
}

/// The data of a write on one failsafe value.
pub open spec fn failsafe_payload_view(
    key: DeviceConfigurationKeyId,
    value: DeviceConfigurationKeyValueValue,
) -> Payload {
    Payload::DeviceConfigurationKeyValueListData(
        Some(
            seq![
                DeviceConfigurationKeyValueData {
                    key_id: Some(key),
                    value: Some(value),
                    is_value_changeable: None,
                },
            ],
        ),
    )
}

/// A request that waits for an answer, and the feature it went to.
pub type PendingView = (MsgCounter, FeatureAddressView);

/// Picks out one request.
pub open spec fn for_request(request: MsgCounter) -> spec_fn(PendingView) -> bool {
    |entry: PendingView| entry.0 == request
}

/// Picks out every other request.
pub open spec fn for_other_requests(request: MsgCounter) -> spec_fn(PendingView) -> bool {
    |entry: PendingView| entry.0 != request
}

/// Whether a request is among those that wait.
pub open spec fn waits(pending: Seq<PendingView>, request: MsgCounter) -> bool {
    first_index(pending, for_request(request)) is Some
}

/// Picks out the requirement that is held for one device.
pub open spec fn for_device(device: Seq<char>) -> spec_fn((Seq<char>, Option<LimitWrite>)) -> bool {
    |entry: (Seq<char>, Option<LimitWrite>)| entry.0 == device
}

/// Picks out the requirements that are held for other devices.
pub open spec fn for_other_devices(device: Seq<char>) -> spec_fn(
    (Seq<char>, Option<LimitWrite>),
) -> bool {
    |entry: (Seq<char>, Option<LimitWrite>)| entry.0 != device
}

/// What the guard knows of one peer.
pub struct MemberView {
    /// The peer.
    pub peer: CsPeerView,
    /// Whether the binding of the limit was granted.
    pub bound_load_control: bool,
    /// Whether the binding of the failsafe values was granted.
    pub bound_configuration: bool,
    /// Whether readiness was reported.
    pub ready_reported: bool,
    /// The identifiers that the peer chose.
    pub ids: PeerIds,
    /// Whether it was reported that the peer has no limit to write.
    pub reported_no_limit: bool,
    /// The limit that the grid situation requires.
    pub required: Option<LimitWrite>,
    /// The write that waits for an answer.
    pub outstanding: Option<(MsgCounter, LimitWrite)>,
    /// The limit that the peer acknowledged or reported.
    pub applied: Option<LimitWrite>,
    /// When the limit was last written, the opening write excepted.
    pub last_write: Option<Duration>,
    /// When a write is to be looked at again.
    pub write_due_at: Option<Duration>,
    /// Before when a refused write is not repeated.
    pub retry_at: Option<Duration>,
    /// How often in a row the peer refused.
    pub refusals: u32,
    /// The peer's own heartbeat.
    pub monitor: HeartbeatMonitor,
    /// The binding requests that wait for an answer.
    pub pending_bindings: Seq<PendingView>,
    /// The description reads that wait for an answer.
    pub pending_reads: Seq<PendingView>,
    /// Since when the peer is tracked.
    pub attached_at: Duration,
    /// Whether the peer subscribed to this guard's heartbeat.
    pub watches_heartbeat: bool,
    /// What the peer can or may do at most.
    pub nominal_max: Option<NominalMax>,
    /// When the peer was last sent a heartbeat that it could receive.
    pub beat_seen_at: Option<Duration>,
    /// Whether the write that opens control was sent.
    pub opening_write_sent: bool,
    /// Whether a limit was accepted since the peer was attached.
    pub opened: bool,
    /// Whether the write that opens control was refused or never answered, so that it is owed
    /// again.
    pub unsettled: bool,
}

impl MemberView {
    /// A peer that has just been attached.
    pub open spec fn fresh(peer: CsPeerView, now: Duration) -> MemberView {
        MemberView {
            peer,
            bound_load_control: false,
            bound_configuration: false,
            ready_reported: false,
            ids: PeerIds { limit: None, failsafe_limit: None, failsafe_duration: None },
            reported_no_limit: false,
            required: None,
            outstanding: None,
            applied: None,
            last_write: None,
            write_due_at: None,
            retry_at: None,
            refusals: 0,
            monitor: HeartbeatMonitor { heard_at: None, lost: false },
            pending_bindings: Seq::empty(),
            pending_reads: Seq::empty(),
            attached_at: now,
            watches_heartbeat: false,
            nominal_max: None,
            beat_seen_at: None,
            opening_write_sent: false,
            opened: false,
            unsettled: false,
        }
    }

    /// Whether a limit can be written: both bindings, and the peer's own identifier.
    pub open spec fn ready(self) -> bool {
        self.bound_load_control && self.bound_configuration && self.ids.limit is Some
    }

    /// Whether a heartbeat sent now can be taken to reach the peer.
    pub open spec fn can_be_heard(self, now: Duration) -> bool {
        self.watches_heartbeat || elapsed(now, self.attached_at) >= SUBSCRIPTION_GRACE
    }

    /// With a new requirement, to be written at once.
    pub open spec fn requiring(self, limit: Option<LimitWrite>, now: Duration) -> MemberView {
        MemberView {
            required: normalised_option(limit),
            retry_at: None,
            refusals: 0,
            write_due_at: Some(now),
            ..self
        }.reconciled()
    }

    /// Once a report of the limit it holds came from the peer.
    pub open spec fn reporting(self, reported: LimitWrite) -> MemberView {
        let known = self.applied matches Some(applied) && same_limit(applied, reported);
        MemberView {
            applied: if known {
                self.applied
            } else {
                Some(reported)
            },
            ..self
        }.reconciled()
    }

    /// Nothing is owed any more where the peer holds what it should.
    pub open spec fn reconciled(self) -> MemberView {
        MemberView { unsettled: self.unsettled && !self.holds_wanted(), ..self }
    }

    /// Whether the peer is known to hold what it should.
    pub open spec fn holds_wanted(self) -> bool {
        match (self.wanted(), self.applied) {
            (Some(wanted), Some(applied)) => same_limit(wanted, applied),
            _ => false,
        }
    }

    /// What the peer should be told: the requirement, or that an earlier limit is lifted.
    pub open spec fn wanted(self) -> Option<LimitWrite> {
        if self.required is Some {
            self.required
        } else if self.applied is Some {
            Some(lifted())
        } else {
            None
        }
    }

    /// Whether a write is owed: the opening one always is, also where it was refused or never
    /// answered, and any other where the peer holds something else than it should.
    pub open spec fn wants_write(self) -> bool {
        if !self.opening_write_sent || self.unsettled {
            true
        } else {
            match (self.wanted(), self.applied) {
                (None, _) => false,
                (Some(wanted), Some(applied)) => !same_limit(wanted, applied),
                (Some(_), None) => true,
            }
        }
    }

    /// Whether a write is held back now, and until when it is; without an instant where it waits
    /// for an event rather than for the clock.
    pub open spec fn held_back(self, now: Duration) -> Option<Option<Duration>> {
        if !self.ready() || self.outstanding is Some || !self.wants_write() {
            Some(None)
        } else if !self.can_be_heard(now) {
            Some(Some(after(self.attached_at, SUBSCRIPTION_GRACE as int)))
        } else {
            match self.retry_at {
                Some(retry_at) => if now.nanos < retry_at.nanos {
                    Some(Some(retry_at))
                } else {
                    None
                },
                None => match self.last_write {
                    Some(last) if elapsed(now, last) < MIN_WRITE_INTERVAL => Some(
                        Some(after(last, MIN_WRITE_INTERVAL as int)),
                    ),
                    _ => None,
                },
            }
        }
    }

    /// Whether the peer has to be sent a heartbeat before a limit.
    pub open spec fn beat_is_stale(self, now: Duration) -> bool {
        match self.beat_seen_at {
            Some(at) => elapsed(now, at) >= HEARTBEAT_FRESHNESS,
            None => true,
        }
    }

    /// The limit that is written.
    pub open spec fn to_write(self) -> LimitWrite {
        match self.required {
            Some(limit) => limit,
            None => lifted(),
        }
    }

    /// After a limit was written.
    pub open spec fn written(self, counter: MsgCounter, now: Duration) -> MemberView {
        MemberView {
            outstanding: Some((counter, self.to_write())),
            last_write: if self.opening_write_sent {
                Some(now)
            } else {
                None
            },
            retry_at: None,
            write_due_at: None,
            opening_write_sent: true,
            unsettled: false,
            ..self
        }
    }

    /// After a heartbeat went out to the subscribers.
    pub open spec fn beaten(self, now: Duration) -> MemberView {
        if self.watches_heartbeat {
            MemberView { beat_seen_at: Some(now), ..self }
        } else {
            self
        }
    }

    /// After a binding request was answered.
    pub open spec fn binding_answered(self, place: int, granted: bool) -> MemberView {
        let feature = self.pending_bindings[place].1;
        let at_limit = granted && feature == self.peer.load_control;
        let at_configuration = granted && !at_limit && feature == self.peer.device_configuration;
        MemberView {
            pending_bindings: self.pending_bindings.remove(place),
            bound_load_control: self.bound_load_control || at_limit,
            bound_configuration: self.bound_configuration || at_configuration,
            ..self
        }
    }

    /// After a limit write was accepted.
    pub open spec fn accepted(self, limit: LimitWrite) -> MemberView {
        MemberView {
            outstanding: None,
            applied: Some(limit),
            refusals: 0,
            retry_at: None,
            opened: true,
            ..self
        }
    }

    /// How often in a row the peer has refused once it refuses again.
    pub open spec fn one_more_refusal(self) -> u32 {
        if self.refusals == u32::MAX {
            u32::MAX
        } else {
            (self.refusals + 1) as u32
        }
    }

    /// When a write that is refused now is repeated: a minute later than after the last refusal.
    pub open spec fn backed_off(self, now: Duration) -> Duration {
        after(now, RETRY_BACKOFF_STEP * self.one_more_refusal())
    }

    /// After a limit write was refused.
    pub open spec fn refused(self, now: Duration) -> MemberView {
        MemberView {
            outstanding: None,
            refusals: self.one_more_refusal(),
            retry_at: Some(self.backed_off(now)),
            write_due_at: Some(self.backed_off(now)),
            unsettled: !self.opened,
            ..self
        }
    }

    /// After a limit write was never answered.
    pub open spec fn unanswered(self, now: Duration) -> MemberView {
        MemberView {
            outstanding: None,
            write_due_at: Some(now),
            unsettled: !self.opened,
            ..self
        }
    }

    /// Whether the peer owes an answer to this request.
    pub open spec fn owes(self, request: MsgCounter) -> bool {
        ||| self.outstanding matches Some((counter, _)) && counter == request
        ||| waits(self.pending_bindings, request)
        ||| waits(self.pending_reads, request)
    }
}

/// On what grounds an unanswered write is recorded.
pub open spec fn unanswered_basis() -> Seq<char> {
    "unanswered through the whole of SPINE IG §2.6.2"@
}

/// On what grounds a refused write is recorded.
pub open spec fn refused_basis(error: ErrorNumber) -> Seq<char> {
    "errorNumber "@ + decimal(error.code() as nat) + " ("@ + error.text() + ")"@
}

/// The Energy Guard as a mathematical value.
pub struct GuardView {
    /// Which of the two use cases is played.
    pub direction: Direction,
    /// The own feature that asks and writes.
    pub client: FeatureAddressView,
    /// The own feature that the heartbeat comes from.
    pub diagnosis: FeatureAddressView,
    /// The own heartbeat.
    pub heartbeat: HeartbeatProducer,
    /// The peers, in the order in which they were attached.
    pub peers: Seq<MemberView>,
    /// Requirements for devices that are not attached yet.
    pub deferred: Seq<(Seq<char>, Option<LimitWrite>)>,
    /// The record of limit writes.
    pub audit: AuditView,
}

impl GuardView {
    /// A guard that controls nobody.
    pub open spec fn started(
        direction: Direction,
        client: FeatureAddressView,
        diagnosis: FeatureAddressView,
        now: Duration,
    ) -> GuardView {
        GuardView {
            direction,
            client,
            diagnosis,
            heartbeat: HeartbeatProducer { next: now, counter: 0 },
            peers: Seq::empty(),
            deferred: Seq::empty(),
            audit: AuditView::holding(super::audit::DEFAULT_CAPACITY),
        }
    }

    /// Where a device is tracked.
    pub open spec fn place(self, device: Seq<char>) -> Option<int> {
        first_index(self.peers, |member: MemberView| member.peer.device == device)
    }

    /// What is known of a device.
    pub open spec fn member(self, device: Seq<char>) -> Option<MemberView> {
        first(self.peers, |member: MemberView| member.peer.device == device)
    }

    /// With one peer changed.
    pub open spec fn with_peer(self, index: int, member: MemberView) -> GuardView {
        GuardView { peers: self.peers.update(index, member), ..self }
    }

    /// The peers without this device.
    pub open spec fn peers_but(self, device: Seq<char>) -> Seq<MemberView> {
        self.peers.filter(|member: MemberView| member.peer.device != device)
    }

    /// The held requirements without this device.
    pub open spec fn deferred_but(self, device: Seq<char>) -> Seq<
        (Seq<char>, Option<LimitWrite>),
    > {
        self.deferred.filter(for_other_devices(device))
    }

    /// With a requirement held for a device until it is attached.
    pub open spec fn deferring(self, device: Seq<char>, limit: Option<LimitWrite>) -> GuardView {
        GuardView { deferred: self.deferred_but(device).push((device, limit)), ..self }
    }

    /// A device is no longer controlled. What is required of it stands, and is held for it until
    /// it is back.
    pub open spec fn detached(self, device: Seq<char>) -> GuardView {
        let dropped = GuardView { peers: self.peers_but(device), ..self };
        match self.member(device) {
            Some(member) => if member.required is Some {
                dropped.deferring(device, member.required)
            } else {
                dropped
            },
            None => dropped,
        }
    }

    /// A requirement for one device: taken up if it is attached, held for it if it is not.
    pub open spec fn requiring(
        self,
        device: Seq<char>,
        limit: Option<LimitWrite>,
        now: Duration,
    ) -> GuardView {
        match self.place(device) {
            Some(index) => self.with_peer(index, self.peers[index].requiring(limit, now)),
            None => self.deferring(device, limit),
        }
    }

    /// A requirement for every attached device.
    pub open spec fn requiring_all(self, limit: Option<LimitWrite>, now: Duration) -> GuardView {
        GuardView {
            peers: self.peers.map_values(
                |member: MemberView| member.requiring(limit, now),
            ),
            ..self
        }
    }

    /// Where a requirement is held for a device.
    pub open spec fn held_for(self, device: Seq<char>) -> Option<int> {
        first_index(self.deferred, for_device(device))
    }

    /// A device comes under control: the bindings and descriptions are asked for, its limit and
    /// its heartbeat are subscribed to, and a requirement that was held for it applies. If it was
    /// under control before, it starts over.
    pub open spec fn attached(self, engine: EngineView, peer: CsPeerView, now: Duration) -> (
        GuardView,
        EngineView,
    ) {
        let fresh = MemberView::fresh(peer, now);
        let others = self.detached(peer.device);
        let (required, deferred) = match others.held_for(peer.device) {
            Some(index) => (
                fresh.requiring(others.deferred[index].1, now),
                others.deferred.remove(index),
            ),
            None => (fresh, others.deferred),
        };
        let limit_bound = engine.binding(self.client, peer.load_control, now);
        let both_bound = limit_bound.binding(self.client, peer.device_configuration, now);
        let limit_read = both_bound.reading(
            peer.load_control,
            self.client,
            Function::LoadControlLimitDescriptionListData,
            now,
        );
        let both_read = limit_read.reading(
            peer.device_configuration,
            self.client,
            Function::DeviceConfigurationKeyValueDescriptionListData,
            now,
        );
        let limit_followed = both_read.subscribing(self.client, peer.load_control, now);
        let followed = match peer.device_diagnosis {
            Some(diagnosis) => limit_followed.subscribing(self.client, diagnosis, now),
            None => limit_followed,
        };
        let asked = match peer.electrical_connection {
            Some(electrical) => followed.reading(
                electrical,
                self.client,
                Function::ElectricalConnectionCharacteristicListData,
                now,
            ),
            None => followed,
        };
        let member = MemberView {
            pending_bindings: seq![
                (engine.counter(), peer.load_control),
                (limit_bound.counter(), peer.device_configuration),
            ],
            pending_reads: seq![
                (both_bound.counter(), peer.load_control),
                (limit_read.counter(), peer.device_configuration),
            ],
            ..required
        };
        (
            GuardView {
                peers: others.peers.push(member),
                deferred,
                ..self
            },
            asked,
        )
    }

    /// A heartbeat goes out now.
    pub open spec fn beating(self, engine: EngineView, now: Duration) -> (GuardView, EngineView) {
        (
            GuardView { heartbeat: self.heartbeat.beaten(now), ..self }.beat_noted(now),
            engine.queued(now, self.heartbeat.beat(self.diagnosis)),
        )
    }

    /// The heartbeat is noted for every peer that could receive it.
    pub open spec fn beat_noted(self, now: Duration) -> GuardView {
        GuardView {
            peers: self.peers.map_values(|member: MemberView| member.beaten(now)),
            ..self
        }
    }

    /// A peer's limit is written if it is owed and nothing holds it back, after a heartbeat if
    /// the last one that reached the peer is too old.
    pub open spec fn writing(self, engine: EngineView, index: int, now: Duration) -> (
        GuardView,
        EngineView,
    ) {
        let member = self.peers[index];
        match member.held_back(now) {
            Some(due) => (
                self.with_peer(index, MemberView { write_due_at: due, ..member }),
                engine,
            ),
            None => {
                let (beaten, sent) = if member.beat_is_stale(now) {
                    self.beating(engine, now)
                } else {
                    (self, engine)
                };
                let id = member.ids.limit->0;
                let limit = member.to_write();
                (
                    beaten.with_peer(index, beaten.peers[index].written(sent.counter(), now)),
                    sent.writing(
                        member.peer.load_control,
                        self.client,
                        limit_payload_view(limit, id),
                        limit_filters_view(limit, id),
                        now,
                    ),
                )
            },
        }
    }

    /// The first `count` peers are looked after: a heartbeat that stopped is reported, and a
    /// limit that is due is written.
    pub open spec fn swept(self, engine: EngineView, count: nat, now: Duration) -> (
        GuardView,
        EngineView,
        Seq<GuardEventView>,
    )
        decreases count,
    {
        if count == 0 {
            (self, engine, Seq::empty())
        } else {
            let (guard, sent, events) = self.swept(engine, (count - 1) as nat, now);
            let index = count - 1;
            let member = guard.peers[index];
            let lost = member.monitor.overdue(now);
            let (after, queued) = guard.with_peer(
                index,
                MemberView {
                    monitor: HeartbeatMonitor {
                        lost: member.monitor.lost || lost,
                        ..member.monitor
                    },
                    ..member
                },
            ).writing(sent, index, now);
            (
                after,
                queued,
                if lost {
                    events.push(
                        GuardEventView::PeerHeartbeatLost { device: member.peer.device },
                    )
                } else {
                    events
                },
            )
        }
    }

    /// The timers brought up to `now`: the heartbeat first, then the limits.
    pub open spec fn ticked(self, engine: EngineView, now: Duration) -> (
        GuardView,
        EngineView,
        Seq<GuardEventView>,
    ) {
        if self.heartbeat.due(now) {
            let (beaten, sent) = self.beating(engine, now);
            beaten.swept(sent, self.peers.len(), now)
        } else {
            self.swept(engine, self.peers.len(), now)
        }
    }

    /// The earliest instant at which a peer's write is to be looked at, among the first `count`.
    pub open spec fn deadline(self, count: nat) -> Duration
        decreases count,
    {
        if count == 0 {
            self.heartbeat.next
        } else {
            let rest = self.deadline((count - 1) as nat);
            match self.peers[count - 1].write_due_at {
                Some(at) => earlier(rest, at),
                None => rest,
            }
        }
    }

    /// Readiness is reported the first time everything a write needs is in place, and the write
    /// is looked at.
    pub open spec fn becoming_ready(self, engine: EngineView, index: int, now: Duration) -> (
        GuardView,
        EngineView,
        Option<GuardEventView>,
    ) {
        let member = self.peers[index];
        if !member.ready() || member.ready_reported {
            (self, engine, None)
        } else {
            let (guard, sent) = self.with_peer(
                index,
                MemberView { ready_reported: true, ..member },
            ).writing(engine, index, now);
            (guard, sent, Some(GuardEventView::Ready { device: member.peer.device }))
        }
    }

    /// A peer's description is read for the identifiers it chose.
    pub open spec fn learning(
        self,
        engine: EngineView,
        index: int,
        feature: FeatureAddressView,
        data: Payload,
        now: Duration,
    ) -> (GuardView, EngineView, Option<GuardEventView>) {
        let member = self.peers[index];
        if feature != member.peer.load_control && feature != member.peer.device_configuration {
            (self, engine, None)
        } else {
            let told = PeerIds::tells(data, self.direction);
            let taught = MemberView {
                ids: member.ids.learned(data, self.direction),
                pending_reads: if told {
                    member.pending_reads.filter(|entry: PendingView| entry.1 != feature)
                } else {
                    member.pending_reads
                },
                ..member
            };
            if data is LoadControlLimitDescriptionListData && taught.ids.limit is None
                && !taught.reported_no_limit {
                (
                    self.with_peer(index, MemberView { reported_no_limit: true, ..taught }),
                    engine,
                    Some(GuardEventView::NoLimitPublished { device: member.peer.device }),
                )
            } else if told {
                self.with_peer(index, taught).becoming_ready(engine, index, now)
            } else {
                (self.with_peer(index, taught), engine, None)
            }
        }
    }

    /// What a peer reports about its limit is taken as the truth about it, unless a write is on
    /// its way.
    pub open spec fn observing(
        self,
        engine: EngineView,
        index: int,
        data: Payload,
        now: Duration,
    ) -> (GuardView, EngineView) {
        let member = self.peers[index];
        match member.ids.limit {
            Some(id) => match limit_write_of(data, id) {
                Some(reported) => if member.outstanding is Some {
                    (self, engine)
                } else {
                    let known = member.applied matches Some(applied) && same_limit(
                        applied,
                        reported,
                    );
                    let noted = member.reporting(reported);
                    if !known && noted.wants_write() {
                        self.with_peer(
                            index,
                            MemberView { write_due_at: Some(now), ..noted },
                        ).writing(engine, index, now)
                    } else {
                        (self.with_peer(index, noted), engine)
                    }
                },
                None => (self, engine),
            },
            None => (self, engine),
        }
    }

    /// Data of a peer's feature arrived.
    pub open spec fn informed(
        self,
        engine: EngineView,
        feature: FeatureAddressView,
        data: Payload,
        now: Duration,
    ) -> (GuardView, EngineView, Option<GuardEventView>) {
        match first_index(self.peers, |member: MemberView| member.peer.has(feature)) {
            Some(index) => {
                let member = self.peers[index];
                if member.peer.electrical_connection == Some(feature) {
                    match read_max(data, self.direction) {
                        Some(nominal_max) => if member.nominal_max == Some(nominal_max) {
                            (self, engine, None)
                        } else {
                            (
                                self.with_peer(
                                    index,
                                    MemberView { nominal_max: Some(nominal_max), ..member },
                                ),
                                engine,
                                Some(
                                    GuardEventView::ConstraintsLearned {
                                        device: member.peer.device,
                                        nominal_max,
                                    },
                                ),
                            )
                        },
                        None => (self, engine, None),
                    }
                } else {
                    let (taught, sent, event) = self.learning(engine, index, feature, data, now);
                    if event is Some {
                        (taught, sent, event)
                    } else {
                        let known = taught.peers[index];
                        if data is DeviceDiagnosisHeartbeatData {
                            (
                                taught.with_peer(
                                    index,
                                    MemberView {
                                        monitor: known.monitor.observed(data, now),
                                        ..known
                                    },
                                ),
                                sent,
                                None,
                            )
                        } else if feature == known.peer.load_control {
                            let (after, queued) = taught.observing(sent, index, data, now);
                            (after, queued, None)
                        } else {
                            (taught, sent, None)
                        }
                    }
                }
            },
            None => (self, engine, None),
        }
    }

    /// A peer subscribed to one of our features.
    pub open spec fn watched(
        self,
        engine: EngineView,
        client: FeatureAddressView,
        server: FeatureAddressView,
        now: Duration,
    ) -> (GuardView, EngineView) {
        match client.device {
            Some(device) if server == self.diagnosis => match self.place(device) {
                Some(index) => self.with_peer(
                    index,
                    MemberView { watches_heartbeat: true, ..self.peers[index] },
                ).writing(engine, index, now),
                None => (self, engine),
            },
            _ => (self, engine),
        }
    }

    /// With one more record in the log.
    pub open spec fn logged(self, record: LimitRecordView) -> GuardView {
        GuardView { audit: self.audit.recorded(record), ..self }
    }

    /// A request was answered.
    pub open spec fn resolved(
        self,
        engine: EngineView,
        request: MsgCounter,
        error: ErrorNumber,
        now: Duration,
    ) -> (GuardView, EngineView, Option<GuardEventView>) {
        match first_index(
            self.peers,
            |member: MemberView| waits(member.pending_bindings, request),
        ) {
            Some(index) => {
                let member = self.peers[index];
                let place = first_index(member.pending_bindings, for_request(request))->0;
                self.with_peer(
                    index,
                    member.binding_answered(place, error is NoError),
                ).becoming_ready(engine, index, now)
            },
            None => match first_index(
                self.peers,
                |member: MemberView|
                    member.outstanding matches Some((counter, _)) && counter == request,
            ) {
                Some(index) => {
                    let member = self.peers[index];
                    let device = member.peer.device;
                    let limit = (member.outstanding->0).1;
                    if error is NoError {
                        (
                            self.with_peer(index, member.accepted(limit)).logged(
                                LimitRecordView {
                                    peer: Some(device),
                                    ..LimitRecordView::bare(
                                        now,
                                        request,
                                        Some(limit),
                                        WriteOutcome::Accepted,
                                    )
                                },
                            ),
                            engine,
                            Some(GuardEventView::LimitAccepted { device, limit, request }),
                        )
                    } else {
                        (
                            self.with_peer(index, member.refused(now)).logged(
                                LimitRecordView {
                                    peer: Some(device),
                                    basis: Some(refused_basis(error)),
                                    ..LimitRecordView::bare(
                                        now,
                                        request,
                                        Some(limit),
                                        WriteOutcome::Rejected(NackReason::Unstated),
                                    )
                                },
                            ),
                            engine,
                            Some(
                                GuardEventView::LimitRefused {
                                    device,
                                    limit,
                                    error,
                                    retry_at: member.backed_off(now),
                                },
                            ),
                        )
                    }
                },
                None => (self, engine, None),
            },
        }
    }

    /// A request was never answered: what it held is released.
    pub open spec fn given_up(self, request: MsgCounter, now: Duration) -> (
        GuardView,
        Option<GuardEventView>,
    ) {
        match first_index(self.peers, |member: MemberView| member.owes(request)) {
            Some(index) => {
                let member = self.peers[index];
                let device = member.peer.device;
                match member.outstanding {
                    Some((counter, limit)) if counter == request => (
                        self.with_peer(
                            index,
                            member.unanswered(now),
                        ).logged(
                            LimitRecordView {
                                peer: Some(device),
                                basis: Some(unanswered_basis()),
                                ..LimitRecordView::bare(
                                    now,
                                    request,
                                    Some(limit),
                                    WriteOutcome::Rejected(NackReason::Unstated),
                                )
                            },
                        ),
                        Some(
                            GuardEventView::PeerUnresponsive {
                                device,
                                outstanding: Unanswered::Limit,
                            },
                        ),
                    ),
                    _ => if waits(member.pending_reads, request) {
                        (
                            self.with_peer(
                                index,
                                MemberView {
                                    pending_reads: member.pending_reads.filter(
                                        for_other_requests(request),
                                    ),
                                    ..member
                                },
                            ),
                            Some(
                                GuardEventView::PeerUnresponsive {
                                    device,
                                    outstanding: Unanswered::Description,
                                },
                            ),
                        )
                    } else {
                        (
                            self.with_peer(
                                index,
                                MemberView {
                                    pending_bindings: member.pending_bindings.filter(
                                        for_other_requests(request),
                                    ),
                                    ..member
                                },
                            ),
                            Some(
                                GuardEventView::PeerUnresponsive {
                                    device,
                                    outstanding: Unanswered::Binding,
                                },
                            ),
                        )
                    },
                }
            },
            None => (self, None),
        }
    }

    /// A device was discovered: if it is not controlled yet and announces a Controllable System,
    /// it comes under control.
    pub open spec fn discovering(self, engine: EngineView, device: Seq<char>, now: Duration) -> (
        GuardView,
        EngineView,
    ) {
        if self.place(device) is Some {
            (self, engine)
        } else {
            match engine.peer(device) {
                Some(remote) => match located(remote, self.direction) {
                    Some(peer) => self.attached(engine, peer, now),
                    None => (self, engine),
                },
                None => (self, engine),
            }
        }
    }

    /// What an event does.
    pub open spec fn stepped(self, engine: EngineView, event: SpineEvent, now: Duration) -> (
        GuardView,
        EngineView,
        Option<GuardEventView>,
    ) {
        match event {
            SpineEvent::DiscoveryUpdated { device } => {
                let (guard, sent) = self.discovering(engine, device@, now);
                (guard, sent, None)
            },
            SpineEvent::UseCasesUpdated { device } => {
                let (guard, sent) = self.discovering(engine, device@, now);
                (guard, sent, None)
            },
            SpineEvent::DataNotified { feature, resolved } => self.informed(
                engine,
                feature@,
                resolved@,
                now,
            ),
            SpineEvent::ReplyReceived { feature, resolved } => self.informed(
                engine,
                feature@,
                resolved@,
                now,
            ),
            SpineEvent::SubscriptionGranted { client, server } => {
                let (guard, sent) = self.watched(engine, client@, server@, now);
                (guard, sent, None)
            },
            SpineEvent::ResultReceived { request, error } => self.resolved(
                engine,
                request,
                error,
                now,
            ),
            SpineEvent::RequestTimedOut { request } => {
                let (guard, event) = self.given_up(request, now);
                (guard, engine, event)
            },
            _ => (self, engine, None),
        }
    }

    /// A failsafe value is written to a peer, once it is bound and its key is known.
    pub open spec fn failsafe_write(
        self,
        engine: EngineView,
        device: Seq<char>,
        key: spec_fn(PeerIds) -> Option<DeviceConfigurationKeyId>,
        value: DeviceConfigurationKeyValueValue,
        now: Duration,
    ) -> (EngineView, Option<MsgCounter>) {
        match self.member(device) {
            Some(member) => match key(member.ids) {
                Some(key) if member.bound_configuration => (
                    engine.writing(
                        member.peer.device_configuration,
                        self.client,
                        failsafe_payload_view(key, value),
                        partial_only(),
                        now,
                    ),
                    Some(engine.counter()),
                ),
                _ => (engine, None),
            },
            None => (engine, None),
        }
    }
}

/// Whether a failsafe duration minimum may be written at all.
pub open spec fn writeable_duration(duration: Duration) -> bool {
    FAILSAFE_DURATION_LEAST <= duration.nanos <= FAILSAFE_DURATION_MOST
}

/// A failsafe limit as it is written: not below zero.
pub open spec fn writeable_watts(watts: Number) -> Number {
    if watts is NotANumber || watts.negative() {
        Number::Finite(0)
    } else {
        watts
    }
}

} // verus!
