//! The Energy Guard: the side that sets the limit.
//!
//! Its job looks small - send a heartbeat, write a limit - and almost all of it is in the rules
//! around those two messages:
//!
//! * the heartbeat goes first, and then the limit;
//! * the first limit after a connection is the one that is currently required;
//! * an activated limit never has a duration of zero;
//! * a refusal is no reason to give up: the write is repeated, a minute further off each time;
//! * the own heartbeat does not depend on the peer's;
//! * limits are not written more often than every five minutes, retries excepted.
//!
//! The steps are stated in [`guard_model`](super::guard_model).

use super::audit::{AuditLog, LimitRecord};
use super::guard_model::{
    failsafe_payload_view, for_device, for_other_devices, for_other_requests, for_request,
    limit_filters_view, limit_payload_view, located, normalised, same_limit, waits,
    writeable_duration, writeable_watts, CsPeerView, GuardEventView, GuardView, MemberView,
    PendingView, Unanswered, HEARTBEAT_FRESHNESS, MIN_WRITE_INTERVAL, RETRY_BACKOFF_STEP,
    SUBSCRIPTION_GRACE,
};
use super::payloads::{read_constraints, read_limit_write, NominalMax, PeerIds};
use super::state::{
    LimitWrite, NackReason, WriteOutcome, FAILSAFE_DURATION_LEAST, FAILSAFE_DURATION_MOST,
};
use super::Direction;
use crate::address::{feature_of, names, AddressDevice, FeatureAddress};
use crate::model::{
    AbsoluteOrRelativeTime, CmdData, DeviceConfigurationKeyId, DeviceConfigurationKeyValueData,
    DeviceConfigurationKeyValueListData, DeviceConfigurationKeyValueValue, ErrorNumber,
    FeatureType, Function, LoadControlLimitData, LoadControlLimitId, LoadControlLimitListData,
    MsgCounter, Role, ScaledNumber, TimePeriod,
};
use crate::number::Number;
use crate::seqs::{
    first_index, lemma_first_index, lemma_mapped_filter, lemma_mapped_first_index, position, retain,
};
use crate::spine::{
    partial_only, Engine, Filter, FilterControl, HeartbeatMonitor, HeartbeatProducer,
    LocalFeature, LocalFeatureView, RemoteDevice, SpineEvent,
};
use crate::text::decimal_text;
use crate::time::Duration;
use crate::usecases::actors;
use vstd::prelude::*;

verus! {

/// Builds the `Generic` client feature an Energy Guard holds its client side on.
pub fn client_feature(address: u32) -> (r: LocalFeature)
    ensures
        r@ == LocalFeatureView::read_only(
            address,
            FeatureType::Generic,
            Role::Client,
            Seq::empty(),
        ),
{
    LocalFeature::new(address, FeatureType::Generic, Role::Client)
}

/// A Controllable System on a peer, by its features.
#[derive(Clone, Debug, PartialEq, Eq)]
pub struct ControllableSystemPeer {
    /// The device.
    pub device: AddressDevice,
    /// Where the limit is written.
    pub load_control: FeatureAddress,
    /// Where the failsafe values are written.
    pub device_configuration: FeatureAddress,
    /// Where its heartbeat comes from.
    pub device_diagnosis: Option<FeatureAddress>,
    /// Where its constraints are read.
    pub electrical_connection: Option<FeatureAddress>,
}

impl View for ControllableSystemPeer {
    type V = CsPeerView;

    open spec fn view(&self) -> CsPeerView {
        CsPeerView {
            device: self.device@,
            load_control: self.load_control@,
            device_configuration: self.device_configuration@,
            device_diagnosis: feature_of(self.device_diagnosis),
            electrical_connection: feature_of(self.electrical_connection),
        }
    }
}

/// Finds the Controllable System that a device announced for this direction.
pub fn locate(remote: &RemoteDevice, direction: Direction) -> (r: Option<ControllableSystemPeer>)
    ensures
        match r {
            Some(peer) => located(remote@, direction) == Some(peer@),
            None => located(remote@, direction) is None,
        },
{
    let use_case = match remote.use_case(
        direction.use_case_name(),
        actors::CONTROLLABLE_SYSTEM,
    ) {
        Some(use_case) => use_case,
        None => return None,
    };
    let device = match &remote.address {
        Some(device) => device.copy(),
        None => return None,
    };
    let load_control = match remote.address_of(use_case, FeatureType::LoadControl, Role::Server) {
        Some(feature) => feature,
        None => return None,
    };
    let device_configuration = match remote.address_of(
        use_case,
        FeatureType::DeviceConfiguration,
        Role::Server,
    ) {
        Some(feature) => feature,
        None => return None,
    };
    Some(
        ControllableSystemPeer {
            device,
            load_control,
            device_configuration,
            device_diagnosis: remote.address_of(
                use_case,
                FeatureType::DeviceDiagnosis,
                Role::Server,
            ),
            electrical_connection: remote.address_of(
                use_case,
                FeatureType::ElectricalConnection,
                Role::Server,
            ),
        },
    )
}

/// What the guard reports to the application.
#[derive(Clone, Debug, PartialEq, Eq)]
pub enum GuardEvent {
    /// A peer can be written to.
    Ready {
        /// The peer.
        device: AddressDevice,
    },
    /// A limit was accepted.
    LimitAccepted {
        /// The peer.
        device: AddressDevice,
        /// The limit.
        limit: LimitWrite,
        /// The number of the write.
        request: MsgCounter,
    },
    /// A limit was refused.
    LimitRefused {
        /// The peer.
        device: AddressDevice,
        /// The limit.
        limit: LimitWrite,
        /// The answer.
        error: ErrorNumber,
        /// When it is written again.
        retry_at: Duration,
    },
    /// A peer stated what it can or may do at most.
    ConstraintsLearned {
        /// The peer.
        device: AddressDevice,
        /// The maximum.
        nominal_max: NominalMax,
    },
    /// A peer's heartbeat stopped.
    PeerHeartbeatLost {
        /// The peer.
        device: AddressDevice,
    },
    /// A peer described its limits, and none of them is the one to write.
    NoLimitPublished {
        /// The peer.
        device: AddressDevice,
    },
    /// A peer never answered.
    PeerUnresponsive {
        /// The peer.
        device: AddressDevice,
        /// What it was asked.
        outstanding: Unanswered,
    },
}

impl View for GuardEvent {
    type V = GuardEventView;

    open spec fn view(&self) -> GuardEventView {
        match *self {
            GuardEvent::Ready { device } => GuardEventView::Ready { device: device@ },
            GuardEvent::LimitAccepted { device, limit, request } => GuardEventView::LimitAccepted {
                device: device@,
                limit,
                request,
            },
            GuardEvent::LimitRefused { device, limit, error, retry_at } =>
                GuardEventView::LimitRefused { device: device@, limit, error, retry_at },
            GuardEvent::ConstraintsLearned { device, nominal_max } =>
                GuardEventView::ConstraintsLearned { device: device@, nominal_max },
            GuardEvent::PeerHeartbeatLost { device } => GuardEventView::PeerHeartbeatLost {
                device: device@,
            },
            GuardEvent::NoLimitPublished { device } => GuardEventView::NoLimitPublished {
                device: device@,
            },
            GuardEvent::PeerUnresponsive { device, outstanding } =>
                GuardEventView::PeerUnresponsive { device: device@, outstanding },
        }
    }
}

/// The content of an optional event.
pub open spec fn guard_event_of(event: Option<GuardEvent>) -> Option<GuardEventView> {
    match event {
        Some(event) => Some(event@),
        None => None,
    }
}

/// The contents of events.
pub open spec fn guard_events(events: Seq<GuardEvent>) -> Seq<GuardEventView> {
    events.map_values(|event: GuardEvent| event@)
}

/// A request that waits for an answer, and the feature it went to.
type Pending = (MsgCounter, FeatureAddress);

/// The content of a request that waits.
pub open spec fn pending_view(entry: (MsgCounter, FeatureAddress)) -> PendingView {
    (entry.0, entry.1@)
}

/// The contents of requests that wait.
pub open spec fn pending_views(pending: Seq<(MsgCounter, FeatureAddress)>) -> Seq<PendingView> {
    pending.map_values(|entry: (MsgCounter, FeatureAddress)| pending_view(entry))
}

/// Whether a request is among those that wait, and where.
fn find_pending(pending: &Vec<Pending>, request: MsgCounter) -> (r: Option<usize>)
    ensures
        match r {
            Some(place) => place < pending@.len() && first_index(
                pending_views(pending@),
                for_request(request),
            ) == Some(place as int),
            None => !waits(pending_views(pending@), request),
        },
{
    let ghost wanted = |entry: Pending| entry.0 == request;
    proof {
        lemma_mapped_first_index(
            pending@,
            |entry: (MsgCounter, FeatureAddress)| pending_view(entry),
            wanted,
            for_request(request),
        );
    }
    position(
        pending,
        |entry: &Pending| -> (b: bool)
            ensures
                b == (entry.0 == request)
            { entry.0 == request },
        Ghost(wanted),
    )
}

/// Drops a request from those that wait.
fn drop_request(pending: &mut Vec<Pending>, request: MsgCounter)
    ensures
        pending_views(final(pending)@) == pending_views(old(pending)@).filter(
            for_other_requests(request),
        ),
{
    let ghost wanted = |entry: Pending| entry.0 != request;
    proof {
        lemma_mapped_filter(
            pending@,
            |entry: (MsgCounter, FeatureAddress)| pending_view(entry),
            wanted,
            for_other_requests(request),
        );
    }
    retain(
        pending,
        |entry: &Pending| -> (b: bool)
            ensures
                b == (entry.0 != request)
            { entry.0 != request },
        Ghost(wanted),
    );
}

/// Drops the requests to one feature from those that wait.
fn drop_feature(pending: &mut Vec<Pending>, feature: &FeatureAddress)
    ensures
        pending_views(final(pending)@) == pending_views(old(pending)@).filter(
            |entry: PendingView| entry.1 != feature@,
        ),
{
    let ghost wanted = |entry: Pending| entry.1@ != feature@;
    proof {
        lemma_mapped_filter(
            pending@,
            |entry: (MsgCounter, FeatureAddress)| pending_view(entry),
            wanted,
            |entry: PendingView| entry.1 != feature@,
        );
    }
    retain(
        pending,
        |entry: &Pending| -> (b: bool)
            ensures
                b == (entry.1@ != feature@)
            { !entry.1.is(feature) },
        Ghost(wanted),
    );
}

/// What the guard knows of one peer.
#[derive(Clone, Debug)]
struct Member {
    peer: ControllableSystemPeer,
    bound_load_control: bool,
    bound_configuration: bool,
    ready_reported: bool,
    ids: PeerIds,
    reported_no_limit: bool,
    required: Option<LimitWrite>,
    outstanding: Option<(MsgCounter, LimitWrite)>,
    applied: Option<LimitWrite>,
    last_write: Option<Duration>,
    write_due_at: Option<Duration>,
    retry_at: Option<Duration>,
    refusals: u32,
    monitor: HeartbeatMonitor,
    pending_bindings: Vec<Pending>,
    pending_reads: Vec<Pending>,
    attached_at: Duration,
    watches_heartbeat: bool,
    nominal_max: Option<NominalMax>,
    beat_seen_at: Option<Duration>,
    opening_write_sent: bool,
    opened: bool,
    unsettled: bool,
}

impl View for Member {
    type V = MemberView;

    closed spec fn view(&self) -> MemberView {
        MemberView {
            peer: self.peer@,
            bound_load_control: self.bound_load_control,
            bound_configuration: self.bound_configuration,
            ready_reported: self.ready_reported,
            ids: self.ids,
            reported_no_limit: self.reported_no_limit,
            required: self.required,
            outstanding: self.outstanding,
            applied: self.applied,
            last_write: self.last_write,
            write_due_at: self.write_due_at,
            retry_at: self.retry_at,
            refusals: self.refusals,
            monitor: self.monitor,
            pending_bindings: pending_views(self.pending_bindings@),
            pending_reads: pending_views(self.pending_reads@),
            attached_at: self.attached_at,
            watches_heartbeat: self.watches_heartbeat,
            nominal_max: self.nominal_max,
            beat_seen_at: self.beat_seen_at,
            opening_write_sent: self.opening_write_sent,
            opened: self.opened,
            unsettled: self.unsettled,
        }
    }
}

impl Member {
    /// A peer that has just been attached.
    fn new(peer: ControllableSystemPeer, now: Duration) -> (r: Member)
        ensures
            r@ == MemberView::fresh(peer@, now),
    {
        let r = Member {
            peer,
            bound_load_control: false,
            bound_configuration: false,
            ready_reported: false,
            ids: PeerIds::new(),
            reported_no_limit: false,
            required: None,
            outstanding: None,
            applied: None,
            last_write: None,
            write_due_at: None,
            retry_at: None,
            refusals: 0,
            monitor: HeartbeatMonitor::new(),
            pending_bindings: Vec::new(),
            pending_reads: Vec::new(),
            attached_at: now,
            watches_heartbeat: false,
            nominal_max: None,
            beat_seen_at: None,
            opening_write_sent: false,
            opened: false,
            unsettled: false,
        };
        assert(r@.pending_bindings =~= Seq::empty());
        assert(r@.pending_reads =~= Seq::empty());
        r
    }

    /// Whether a limit can be written: both bindings, and the peer's own identifier.
    fn is_ready(&self) -> (r: bool)
        ensures
            r == self@.ready(),
    {
        self.bound_load_control && self.bound_configuration && self.ids.can_write_limit()
    }

    /// Whether a heartbeat sent now can be taken to reach the peer.
    fn can_be_heard(&self, now: Duration) -> (r: bool)
        ensures
            r == self@.can_be_heard(now),
    {
        self.watches_heartbeat || now.saturating_sub(self.attached_at).nanos >= SUBSCRIPTION_GRACE
    }

    /// Whether a write is owed.
    fn wants_write(&self) -> (r: bool)
        ensures
            r == self@.wants_write(),
    {
        if !self.opening_write_sent || self.unsettled {
            return true;
        }
        match (self.wanted(), self.applied) {
            (None, _) => false,
            (Some(wanted), Some(applied)) => !is_same_limit(&wanted, &applied),
            (Some(_), None) => true,
        }
    }

    /// What the peer should be told: the requirement, or that an earlier limit is lifted.
    fn wanted(&self) -> (r: Option<LimitWrite>)
        ensures
            r == self@.wanted(),
    {
        match self.required {
            Some(required) => Some(required),
            None => match self.applied {
                Some(_) => Some(LimitWrite::deactivated()),
                None => None,
            },
        }
    }

    /// Takes note where the peer holds what it should.
    fn reconcile(&mut self)
        ensures
            final(self)@ == old(self)@.reconciled(),
    {
        if let (Some(wanted), Some(applied)) = (self.wanted(), self.applied) {
            if is_same_limit(&wanted, &applied) {
                self.unsettled = false;
            }
        }
    }

    /// Takes a report of the limit that the peer holds, and says whether it is news.
    fn take_report(&mut self, reported: LimitWrite) -> (r: bool)
        ensures
            final(self)@ == old(self)@.reporting(reported),
            r == !(old(self)@.applied matches Some(applied) && same_limit(applied, reported)),
    {
        let known = match self.applied {
            Some(applied) => is_same_limit(&applied, &reported),
            None => false,
        };
        if !known {
            self.applied = Some(reported);
        }
        self.reconcile();
        !known
    }

    /// Whether a write is held back now, and until when it is.
    fn held_back(&self, now: Duration) -> (r: Option<Option<Duration>>)
        ensures
            r == self@.held_back(now),
    {
        if !self.is_ready() || self.outstanding.is_some() || !self.wants_write() {
            return Some(None);
        }
        if !self.can_be_heard(now) {
            return Some(
                Some(self.attached_at.saturating_add(Duration { nanos: SUBSCRIPTION_GRACE })),
            );
        }
        match self.retry_at {
            Some(retry_at) => {
                if now.nanos < retry_at.nanos {
                    Some(Some(retry_at))
                } else {
                    None
                }
            },
            None => match self.last_write {
                Some(last) => {
                    if now.saturating_sub(last).nanos < MIN_WRITE_INTERVAL {
                        Some(Some(last.saturating_add(Duration { nanos: MIN_WRITE_INTERVAL })))
                    } else {
                        None
                    }
                },
                None => None,
            },
        }
    }

    /// Whether the peer has to be sent a heartbeat before a limit.
    fn beat_is_stale(&self, now: Duration) -> (r: bool)
        ensures
            r == self@.beat_is_stale(now),
    {
        match self.beat_seen_at {
            Some(at) => now.saturating_sub(at).nanos >= HEARTBEAT_FRESHNESS,
            None => true,
        }
    }

    /// Sets a new requirement, to be written at once.
    fn set_required(&mut self, limit: Option<LimitWrite>, now: Duration)
        ensures
            final(self)@ == old(self)@.requiring(limit, now),
    {
        self.required = match limit {
            Some(limit) => Some(normalise(limit)),
            None => None,
        };
        self.retry_at = None;
        self.refusals = 0;
        self.write_due_at = Some(now);
        self.reconcile();
    }

    /// Notes that a heartbeat went out, where the peer could receive it.
    fn note_beat(&mut self, now: Duration)
        ensures
            final(self)@ == old(self)@.beaten(now),
    {
        if self.watches_heartbeat {
            self.beat_seen_at = Some(now);
        }
    }

    /// Notes that the limit was written.
    fn note_write(&mut self, counter: MsgCounter, now: Duration)
        ensures
            final(self)@ == old(self)@.written(counter, now),
    {
        let limit = match self.required {
            Some(required) => required,
            None => LimitWrite::deactivated(),
        };
        self.outstanding = Some((counter, limit));
        self.last_write = if self.opening_write_sent {
            Some(now)
        } else {
            None
        };
        self.retry_at = None;
        self.write_due_at = None;
        self.opening_write_sent = true;
        self.unsettled = false;
    }

    /// Takes the answer to a binding request.
    fn answer_binding(&mut self, place: usize, granted: bool)
        requires
            place < old(self)@.pending_bindings.len(),
        ensures
            final(self)@ == old(self)@.binding_answered(place as int, granted),
    {
        let ghost before = self.pending_bindings@;
        let (_, feature) = self.pending_bindings.remove(place);
        assert(pending_views(self.pending_bindings@) =~= pending_views(before).remove(
            place as int,
        ));
        if granted {
            if feature.is(&self.peer.load_control) {
                self.bound_load_control = true;
            } else if feature.is(&self.peer.device_configuration) {
                self.bound_configuration = true;
            }
        }
    }

    /// Takes note that the limit was accepted.
    fn accept(&mut self, limit: LimitWrite)
        ensures
            final(self)@ == old(self)@.accepted(limit),
    {
        self.outstanding = None;
        self.applied = Some(limit);
        self.refusals = 0;
        self.retry_at = None;
        self.opened = true;
    }

    /// Takes note that the limit was never answered.
    fn let_go(&mut self, now: Duration)
        ensures
            final(self)@ == old(self)@.unanswered(now),
    {
        self.outstanding = None;
        self.write_due_at = Some(now);
        self.unsettled = !self.opened;
    }

    /// Takes note that the limit was refused, and says when it is written again.
    fn refuse(&mut self, now: Duration) -> (r: Duration)
        ensures
            final(self)@ == old(self)@.refused(now),
            r == old(self)@.backed_off(now),
    {
        self.outstanding = None;
        self.refusals = if self.refusals == u32::MAX {
            u32::MAX
        } else {
            self.refusals + 1
        };
        let count: u128 = self.refusals as u128;
        assert(RETRY_BACKOFF_STEP * count <= 60_000_000_000 * 0xffff_ffff) by (nonlinear_arith)
            requires
                RETRY_BACKOFF_STEP == 60_000_000_000,
                count <= 0xffff_ffff,
        ;
        let retry_at = now.saturating_add(Duration { nanos: RETRY_BACKOFF_STEP * count });
        self.retry_at = Some(retry_at);
        self.write_due_at = Some(retry_at);
        self.unsettled = !self.opened;
        retry_at
    }

    /// Whether the peer owes an answer to this request.
    fn owes(&self, request: MsgCounter) -> (r: bool)
        ensures
            r == self@.owes(request),
    {
        self.has_outstanding(request) || find_pending(&self.pending_bindings, request).is_some()
            || find_pending(&self.pending_reads, request).is_some()
    }

    /// Whether this is the write that waits for an answer.
    fn has_outstanding(&self, request: MsgCounter) -> (r: bool)
        ensures
            r == (self@.outstanding matches Some((counter, _)) && counter == request),
    {
        match self.outstanding {
            Some((counter, _)) => counter == request,
            None => false,
        }
    }

    /// Whether this is one of the peer's features.
    fn has(&self, feature: &FeatureAddress) -> (r: bool)
        ensures
            r == self@.peer.has(feature@),
    {
        names(&self.peer.device_diagnosis, feature) || self.peer.load_control.is(feature)
            || self.peer.device_configuration.is(feature) || names(
            &self.peer.electrical_connection,
            feature,
        )
    }
}

/// The contents of peers.
closed spec fn member_views(peers: Seq<Member>) -> Seq<MemberView> {
    peers.map_values(|member: Member| member@)
}

/// The content of a held requirement.
pub open spec fn deferred_view(entry: (AddressDevice, Option<LimitWrite>)) -> (
    Seq<char>,
    Option<LimitWrite>,
) {
    (entry.0@, entry.1)
}

/// The contents of held requirements.
pub open spec fn deferred_views(deferred: Seq<(AddressDevice, Option<LimitWrite>)>) -> Seq<
    (Seq<char>, Option<LimitWrite>),
> {
    deferred.map_values(|entry: (AddressDevice, Option<LimitWrite>)| deferred_view(entry))
}

/// The Energy Guard on a node.
#[derive(Debug)]
pub struct EnergyGuardActor {
    direction: Direction,
    client: FeatureAddress,
    diagnosis: FeatureAddress,
    heartbeat: HeartbeatProducer,
    peers: Vec<Member>,
    deferred: Vec<(AddressDevice, Option<LimitWrite>)>,
    audit: AuditLog,
}

impl View for EnergyGuardActor {
    type V = GuardView;

    closed spec fn view(&self) -> GuardView {
        GuardView {
            direction: self.direction,
            client: self.client@,
            diagnosis: self.diagnosis@,
            heartbeat: self.heartbeat,
            peers: member_views(self.peers@),
            deferred: deferred_views(self.deferred@),
            audit: self.audit@,
        }
    }
}

impl EnergyGuardActor {
    /// A guard that controls nobody yet; its first heartbeat is due at once.
    pub fn new(
        direction: Direction,
        client: FeatureAddress,
        diagnosis: FeatureAddress,
        now: Duration,
    ) -> (r: EnergyGuardActor)
        ensures
            r@ == GuardView::started(direction, client@, diagnosis@, now),
    {
        let r = EnergyGuardActor {
            direction,
            client,
            diagnosis,
            heartbeat: HeartbeatProducer::new(now).due_at(now),
            peers: Vec::new(),
            deferred: Vec::new(),
            audit: AuditLog::new(),
        };
        assert(r@.peers =~= Seq::empty());
        assert(r@.deferred =~= Seq::empty());
        r
    }

    /// Which of the two use cases is played.
    pub fn direction(&self) -> (r: Direction)
        ensures
            r == self@.direction,
    {
        self.direction
    }

    /// The record of limit writes.
    pub fn audit(&self) -> (r: &AuditLog)
        ensures
            r@ == self@.audit,
    {
        &self.audit
    }

    /// The record of limit writes, to be changed.
    pub fn audit_mut(&mut self) -> (r: &mut AuditLog)
        ensures
            r@ == old(self)@.audit,
            final(self)@ == (GuardView { audit: final(r)@, ..old(self)@ }),
    {
        &mut self.audit
    }

    /// Records in this log.
    #[must_use]
    pub fn with_audit_log(self, audit: AuditLog) -> (r: EnergyGuardActor)
        ensures
            r@ == (GuardView { audit: audit@, ..self@ }),
    {
        EnergyGuardActor { audit, ..self }
    }

    /// The peers under control, in the order in which they were attached.
    pub fn peers(&self) -> (r: Vec<&ControllableSystemPeer>)
        ensures
            r@.len() == self@.peers.len(),
            forall|i: int| 0 <= i < r@.len() ==> (#[trigger] r@[i])@ == self@.peers[i].peer,
    {
        let mut peers: Vec<&ControllableSystemPeer> = Vec::new();
        let mut i: usize = 0;
        while i < self.peers.len()
            invariant
                i <= self.peers@.len(),
                peers@.len() == i,
                forall|j: int| 0 <= j < i ==> (#[trigger] peers@[j])@ == self@.peers[j].peer,
            decreases self.peers@.len() - i,
        {
            peers.push(&self.peers[i].peer);
            i = i + 1;
        }
        peers
    }

    /// Where a device is tracked.
    fn find(&self, device: &AddressDevice) -> (r: Option<usize>)
        ensures
            match r {
                Some(index) => self@.place(device@) == Some(index as int) && index
                    < self.peers@.len() && self.peers@.len() == self@.peers.len(),
                None => self@.place(device@) is None,
            },
    {
        let ghost wanted = |member: Member| member.peer.device@ == device@;
        proof {
            lemma_mapped_first_index(
                self.peers@,
                |member: Member| member@,
                wanted,
                |member: MemberView| member.peer.device == device@,
            );
        }
        position(
            &self.peers,
            |member: &Member| -> (b: bool)
                ensures
                    b == (member.peer.device@ == device@)
                { member.peer.device.is(device) },
            Ghost(wanted),
        )
    }

    /// Whether a device can be written to.
    pub fn is_ready(&self, device: &AddressDevice) -> (r: bool)
        ensures
            r == (self@.member(device@) matches Some(member) && member.ready()),
    {
        match self.find(device) {
            Some(index) => self.peers[index].is_ready(),
            None => false,
        }
    }

    /// The limit that a device acknowledged or reported.
    pub fn applied_limit(&self, device: &AddressDevice) -> (r: Option<LimitWrite>)
        ensures
            r == match self@.member(device@) {
                Some(member) => member.applied,
                None => None,
            },
    {
        match self.find(device) {
            Some(index) => self.peers[index].applied,
            None => None,
        }
    }

    /// The identifiers that a device chose for the data this guard addresses.
    pub fn peer_ids(&self, device: &AddressDevice) -> (r: Option<PeerIds>)
        ensures
            r == match self@.member(device@) {
                Some(member) => Some(member.ids),
                None => None,
            },
    {
        match self.find(device) {
            Some(index) => Some(self.peers[index].ids),
            None => None,
        }
    }

    /// What a device can or may do at most, once it said so.
    pub fn nominal_max(&self, device: &AddressDevice) -> (r: Option<NominalMax>)
        ensures
            r == match self@.member(device@) {
                Some(member) => member.nominal_max,
                None => None,
            },
    {
        match self.find(device) {
            Some(index) => self.peers[index].nominal_max,
            None => None,
        }
    }

    /// Drops a device from the peers.
    fn drop_peer(&mut self, device: &AddressDevice)
        ensures
            final(self)@ == (GuardView { peers: old(self)@.peers_but(device@), ..old(self)@ }),
    {
        let ghost wanted = |member: Member| member.peer.device@ != device@;
        proof {
            lemma_mapped_filter(
                self.peers@,
                |member: Member| member@,
                wanted,
                |member: MemberView| member.peer.device != device@,
            );
        }
        retain(
            &mut self.peers,
            |member: &Member| -> (b: bool)
                ensures
                    b == (member.peer.device@ != device@)
                { !member.peer.device.is(device) },
            Ghost(wanted),
        );
    }

    /// Starts controlling a Controllable System.
    ///
    /// Asks for both bindings and for the two descriptions that say how the peer numbers its
    /// data, and subscribes to its limit and its heartbeat. For a peer that is controlled
    /// already this starts over, which is what a reconnection needs; what is required of it stays
    /// in force, so that the first limit it hears is the one the grid needs.
    pub fn attach(&mut self, engine: &mut Engine, peer: ControllableSystemPeer, now: Duration)
        ensures
            (final(self)@, final(engine)@) == old(self)@.attached(old(engine)@, peer@, now),
    {
        let ghost before = self@;
        let device = peer.device.copy();
        self.detach(&device);
        let mut member = Member::new(peer, now);
        let ghost wanted = |entry: (AddressDevice, Option<LimitWrite>)| entry.0@ == device@;
        proof {
            lemma_mapped_first_index(
                self.deferred@,
                |entry: (AddressDevice, Option<LimitWrite>)| deferred_view(entry),
                wanted,
                for_device(device@),
            );
        }
        let held = position(
            &self.deferred,
            |entry: &(AddressDevice, Option<LimitWrite>)| -> (b: bool)
                ensures
                    b == (entry.0@ == device@)
                { entry.0.is(&device) },
            Ghost(wanted),
        );
        if let Some(index) = held {
            let ghost kept = self.deferred@;
            let (_, limit) = self.deferred.remove(index);
            assert(deferred_views(self.deferred@) =~= deferred_views(kept).remove(index as int));
            member.set_required(limit, now);
        }
        let ghost required = member@;
        let load_control = member.peer.load_control.copy();
        let configuration = member.peer.device_configuration.copy();
        let limit_binding = engine.request_binding(&self.client, &load_control, now);
        let other_binding = engine.request_binding(&self.client, &configuration, now);
        member.pending_bindings = vec![
            (limit_binding, load_control.copy()),
            (other_binding, configuration.copy()),
        ];
        let limit_read = engine.read(
            &load_control,
            &self.client,
            Function::LoadControlLimitDescriptionListData,
            now,
        );
        let other_read = engine.read(
            &configuration,
            &self.client,
            Function::DeviceConfigurationKeyValueDescriptionListData,
            now,
        );
        member.pending_reads = vec![
            (limit_read, load_control.copy()),
            (other_read, configuration.copy()),
        ];
        engine.request_subscription(&self.client, &load_control, now);
        if let Some(diagnosis) = &member.peer.device_diagnosis {
            engine.request_subscription(&self.client, diagnosis, now);
        }
        if let Some(electrical) = &member.peer.electrical_connection {
            engine.read(
                electrical,
                &self.client,
                Function::ElectricalConnectionCharacteristicListData,
                now,
            );
        }
        proof {
            assert(member@.pending_bindings =~= seq![
                (limit_binding, required.peer.load_control),
                (other_binding, required.peer.device_configuration),
            ]);
            assert(member@.pending_reads =~= seq![
                (limit_read, required.peer.load_control),
                (other_read, required.peer.device_configuration),
            ]);
            assert(member_views(self.peers@.push(member)) =~= member_views(self.peers@).push(
                member@,
            ));
        }
        self.peers.push(member);
    }

    /// Stops controlling a Controllable System. What is required of it is held for it: a
    /// reconnection does not lift a limit.
    pub fn detach(&mut self, device: &AddressDevice)
        ensures
            final(self)@ == old(self)@.detached(device@),
    {
        let required = match self.find(device) {
            Some(index) => self.peers[index].required,
            None => None,
        };
        proof {
            lemma_first_index(
                self@.peers,
                |member: MemberView| member.peer.device == device@,
            );
        }
        self.drop_peer(device);
        if required.is_some() {
            self.defer(device, required);
        }
    }

    /// Holds a requirement for a device until it is attached.
    fn defer(&mut self, device: &AddressDevice, limit: Option<LimitWrite>)
        ensures
            final(self)@ == old(self)@.deferring(device@, limit),
    {
        let ghost wanted = |entry: (AddressDevice, Option<LimitWrite>)| entry.0@ != device@;
        proof {
            lemma_mapped_filter(
                self.deferred@,
                |entry: (AddressDevice, Option<LimitWrite>)| deferred_view(entry),
                wanted,
                for_other_devices(device@),
            );
        }
        retain(
            &mut self.deferred,
            |entry: &(AddressDevice, Option<LimitWrite>)| -> (b: bool)
                ensures
                    b == (entry.0@ != device@)
                { !entry.0.is(device) },
            Ghost(wanted),
        );
        let ghost kept = self.deferred@;
        self.deferred.push((device.copy(), limit));
        assert(deferred_views(self.deferred@) =~= deferred_views(kept).push((device@, limit)));
    }

    /// Sets the limit that the grid situation requires of a device; `None` lifts an earlier one.
    ///
    /// The write is scheduled, and due at once. A requirement for a device that is not attached
    /// is held, and applies the moment it is.
    pub fn require(&mut self, device: &AddressDevice, limit: Option<LimitWrite>, now: Duration)
        ensures
            final(self)@ == old(self)@.requiring(device@, limit, now),
    {
        match self.find(device) {
            Some(index) => {
                let ghost before = self.peers@;
                self.peers[index].set_required(limit, now);
                assert(member_views(self.peers@) =~= member_views(before).update(
                    index as int,
                    self.peers@[index as int]@,
                ));
            },
            None => self.defer(device, limit),
        }
    }

    /// Sets the limit that is required of every device under control.
    pub fn require_all(&mut self, limit: Option<LimitWrite>, now: Duration)
        ensures
            final(self)@ == old(self)@.requiring_all(limit, now),
    {
        let ghost before = self@;
        let mut i: usize = 0;
        while i < self.peers.len()
            invariant
                i <= self.peers@.len(),
                self.peers@.len() == before.peers.len(),
                self@ == (GuardView { peers: self@.peers, ..before }),
                forall|j: int|
                    0 <= j < i ==> (#[trigger] self.peers@[j])@ == before.peers[j].requiring(
                        limit,
                        now,
                    ),
                forall|j: int|
                    i <= j < self.peers@.len() ==> (#[trigger] self.peers@[j])@
                        == before.peers[j],
            decreases self.peers@.len() - i,
        {
            self.peers[i].set_required(limit, now);
            i = i + 1;
        }
        assert(self@.peers =~= before.requiring_all(limit, now).peers);
    }

    /// The requirements that are held for devices which are not attached.
    pub fn deferred_requirements(&self) -> (r: &Vec<(AddressDevice, Option<LimitWrite>)>)
        ensures
            deferred_views(r@) == self@.deferred,
    {
        &self.deferred
    }

    /// Writes a device's failsafe limit, once it is bound and its key is known.
    pub fn write_failsafe_limit(
        &mut self,
        engine: &mut Engine,
        device: &AddressDevice,
        watts: Number,
        now: Duration,
    ) -> (r: Option<MsgCounter>)
        ensures
            final(self)@ == old(self)@,
            (final(engine)@, r) == old(self)@.failsafe_write(
                old(engine)@,
                device@,
                |ids: PeerIds| ids.failsafe_limit,
                (DeviceConfigurationKeyValueValue {
                    scaled_number: Some(ScaledNumber::encoded(writeable_watts(watts), 0)),
                    duration: None,
                }),
                now,
            ),
    {
        let index = match self.find(device) {
            Some(index) => index,
            None => return None,
        };
        if !self.peers[index].bound_configuration {
            return None;
        }
        let key = match self.peers[index].ids.failsafe_limit {
            Some(key) => key,
            None => return None,
        };
        let amount = if watts == Number::NotANumber || watts.is_negative() {
            Number::Finite(0)
        } else {
            watts
        };
        let data = failsafe_payload(
            key,
            DeviceConfigurationKeyValueValue {
                scaled_number: Some(ScaledNumber::from_number(amount, 0)),
                duration: None,
            },
        );
        Some(engine.write(&self.peers[index].peer.device_configuration, &self.client, data, now))
    }

    /// Writes a device's failsafe duration minimum, if it lies in the permitted range, once it is
    /// bound and its key is known.
    pub fn write_failsafe_duration(
        &mut self,
        engine: &mut Engine,
        device: &AddressDevice,
        duration: Duration,
        now: Duration,
    ) -> (r: Option<MsgCounter>)
        ensures
            final(self)@ == old(self)@,
            (final(engine)@, r) == if writeable_duration(duration) {
                old(self)@.failsafe_write(
                    old(engine)@,
                    device@,
                    |ids: PeerIds| ids.failsafe_duration,
                    (DeviceConfigurationKeyValueValue {
                        scaled_number: None,
                        duration: Some(duration),
                    }),
                    now,
                )
            } else {
                (old(engine)@, None)
            },
    {
        if duration.nanos < FAILSAFE_DURATION_LEAST || duration.nanos > FAILSAFE_DURATION_MOST {
            return None;
        }
        let index = match self.find(device) {
            Some(index) => index,
            None => return None,
        };
        if !self.peers[index].bound_configuration {
            return None;
        }
        let key = match self.peers[index].ids.failsafe_duration {
            Some(key) => key,
            None => return None,
        };
        let data = failsafe_payload(
            key,
            DeviceConfigurationKeyValueValue { scaled_number: None, duration: Some(duration) },
        );
        Some(engine.write(&self.peers[index].peer.device_configuration, &self.client, data, now))
    }

    /// When [`Self::handle_timeout`] should next be called: at the next heartbeat, or when a
    /// write is to be looked at. The backoff after a refusal is one such instant; a write that
    /// waits for an event rather than for the clock has none.
    pub fn poll_timeout(&self) -> (r: Duration)
        ensures
            r == self@.deadline(self@.peers.len()),
    {
        let mut next = self.heartbeat.poll_timeout();
        let mut i: usize = 0;
        while i < self.peers.len()
            invariant
                i <= self.peers@.len(),
                self.peers@.len() == self@.peers.len(),
                next == self@.deadline(i as nat),
            decreases self.peers@.len() - i,
        {
            if let Some(at) = self.peers[i].write_due_at {
                next = next.min(at);
            }
            assert(self.peers@[i as int]@ == self@.peers[i as int]);
            i = i + 1;
        }
        next
    }

    /// Sends the heartbeat, then any limit that is due, and reports peers whose own heartbeat
    /// stopped.
    pub fn handle_timeout(&mut self, engine: &mut Engine, now: Duration) -> (r: Vec<GuardEvent>)
        ensures
            (final(self)@, final(engine)@, guard_events(r@)) == old(self)@.ticked(
                old(engine)@,
                now,
            ),
    {
        let ghost start = self@;
        if self.heartbeat.tick(engine, &self.diagnosis, now) {
            self.record_beat(now);
        }
        let ghost before = self@;
        let ghost sent = engine@;
        let mut events: Vec<GuardEvent> = Vec::new();
        assert(guard_events(events@) =~= Seq::empty());
        let mut i: usize = 0;
        while i < self.peers.len()
            invariant
                i <= self.peers@.len(),
                self.peers@.len() == before.peers.len(),
                (self@, engine@, guard_events(events@)) == before.swept(sent, i as nat, now),
            decreases self.peers@.len() - i,
        {
            let ghost had = events@;
            let ghost peers = self.peers@;
            if self.peers[i].monitor.handle_timeout(now) {
                let device = self.peers[i].peer.device.copy();
                events.push(GuardEvent::PeerHeartbeatLost { device });
                assert(guard_events(events@) =~= guard_events(had).push(
                    events@[events@.len() - 1]@,
                ));
            }
            assert(member_views(self.peers@) =~= member_views(peers).update(
                i as int,
                self.peers@[i as int]@,
            ));
            self.write_limit_if_due(engine, i, now);
            i = i + 1;
        }
        events
    }

    /// Notes that a heartbeat went out, for every peer that could receive it.
    fn record_beat(&mut self, now: Duration)
        ensures
            final(self)@ == old(self)@.beat_noted(now),
            final(self).peers@.len() == old(self).peers@.len(),
    {
        let ghost before = self@;
        let mut i: usize = 0;
        while i < self.peers.len()
            invariant
                i <= self.peers@.len(),
                self.peers@.len() == before.peers.len(),
                self@ == (GuardView { peers: self@.peers, ..before }),
                forall|j: int|
                    0 <= j < i ==> (#[trigger] self.peers@[j])@ == before.peers[j].beaten(now),
                forall|j: int|
                    i <= j < self.peers@.len() ==> (#[trigger] self.peers@[j])@
                        == before.peers[j],
            decreases self.peers@.len() - i,
        {
            self.peers[i].note_beat(now);
            i = i + 1;
        }
        assert(self@.peers =~= before.beat_noted(now).peers);
    }

    /// Writes a peer's limit if it is owed and nothing holds it back.
    fn write_limit_if_due(&mut self, engine: &mut Engine, index: usize, now: Duration)
        requires
            index < old(self)@.peers.len(),
        ensures
            (final(self)@, final(engine)@) == old(self)@.writing(old(engine)@, index as int, now),
            final(self)@.peers.len() == old(self)@.peers.len(),
    {
        let ghost before = self.peers@;
        assert(before[index as int]@ == self@.peers[index as int]);
        if let Some(due) = self.peers[index].held_back(now) {
            self.peers[index].write_due_at = due;
            assert(member_views(self.peers@) =~= member_views(before).update(
                index as int,
                self.peers@[index as int]@,
            ));
            return;
        }
        let limit = match self.peers[index].required {
            Some(required) => required,
            None => LimitWrite::deactivated(),
        };
        let limit_id = match self.peers[index].ids.limit {
            Some(id) => id,
            None => {
                assert(false);
                return;
            },
        };
        if self.peers[index].beat_is_stale(now) {
            self.heartbeat.beat_now(engine, &self.diagnosis, now);
            self.record_beat(now);
        }
        let ghost beaten = self.peers@;
        assert(beaten[index as int]@ == self@.peers[index as int]);
        let counter = engine.write_filtered(
            &self.peers[index].peer.load_control,
            &self.client,
            limit_payload(&limit, limit_id),
            limit_filters(&limit, limit_id),
            now,
        );
        self.peers[index].note_write(counter, now);
        assert(member_views(self.peers@) =~= member_views(beaten).update(
            index as int,
            self.peers@[index as int]@,
        ));
    }

    /// Handles one event.
    pub fn handle_event(&mut self, engine: &mut Engine, event: &SpineEvent, now: Duration) -> (r:
        Option<GuardEvent>)
        ensures
            (final(self)@, final(engine)@, guard_event_of(r)) == old(self)@.stepped(
                old(engine)@,
                *event,
                now,
            ),
    {
        match event {
            SpineEvent::DiscoveryUpdated { device } | SpineEvent::UseCasesUpdated { device } => {
                self.discover(engine, device, now);
                None
            },
            SpineEvent::DataNotified { feature, resolved }
            | SpineEvent::ReplyReceived { feature, resolved } => self.inform(
                engine,
                feature,
                resolved,
                now,
            ),
            SpineEvent::SubscriptionGranted { client, server } => {
                if server.is(&self.diagnosis) {
                    if let Some(device) = &client.device {
                        if let Some(index) = self.find(device) {
                            let ghost before = self.peers@;
                            self.peers[index].watches_heartbeat = true;
                            assert(before[index as int]@ == old(self)@.peers[index as int]);
                            assert(member_views(self.peers@) =~= member_views(before).update(
                                index as int,
                                self.peers@[index as int]@,
                            ));
                            self.write_limit_if_due(engine, index, now);
                        }
                    }
                }
                None
            },
            SpineEvent::ResultReceived { request, error } => self.resolve(
                engine,
                *request,
                *error,
                now,
            ),
            SpineEvent::RequestTimedOut { request } => self.give_up(*request, now),
            _ => None,
        }
    }

    /// Takes a discovered device under control, if it announces a Controllable System and is not
    /// under control yet.
    fn discover(&mut self, engine: &mut Engine, device: &AddressDevice, now: Duration)
        ensures
            (final(self)@, final(engine)@) == old(self)@.discovering(
                old(engine)@,
                device@,
                now,
            ),
    {
        if self.find(device).is_some() {
            return;
        }
        let peer = match engine.peer(device) {
            Some(remote) => match locate(remote, self.direction) {
                Some(peer) => peer,
                None => return,
            },
            None => return,
        };
        self.attach(engine, peer, now);
    }

    /// Takes in the data of a peer's feature.
    fn inform(
        &mut self,
        engine: &mut Engine,
        feature: &FeatureAddress,
        data: &CmdData,
        now: Duration,
    ) -> (r: Option<GuardEvent>)
        ensures
            (final(self)@, final(engine)@, guard_event_of(r)) == old(self)@.informed(
                old(engine)@,
                feature@,
                data@,
                now,
            ),
    {
        let ghost wanted = |member: Member| member@.peer.has(feature@);
        proof {
            lemma_mapped_first_index(
                self.peers@,
                |member: Member| member@,
                wanted,
                |member: MemberView| member.peer.has(feature@),
            );
        }
        let found = position(
            &self.peers,
            |member: &Member| -> (b: bool)
                ensures
                    b == member@.peer.has(feature@)
                { member.has(feature) },
            Ghost(wanted),
        );
        let index = match found {
            Some(index) => index,
            None => return None,
        };
        let ghost before = self.peers@;
        assert(before[index as int]@ == self@.peers[index as int]);
        if names(&self.peers[index].peer.electrical_connection, feature) {
            let nominal_max = match read_constraints(data, self.direction) {
                Some(nominal_max) => nominal_max,
                None => return None,
            };
            if let Some(known) = self.peers[index].nominal_max {
                if known == nominal_max {
                    return None;
                }
            }
            self.peers[index].nominal_max = Some(nominal_max);
            assert(member_views(self.peers@) =~= member_views(before).update(
                index as int,
                self.peers@[index as int]@,
            ));
            let device = self.peers[index].peer.device.copy();
            return Some(GuardEvent::ConstraintsLearned { device, nominal_max });
        }
        let event = self.learn_ids(engine, index, feature, data, now);
        if event.is_some() {
            return event;
        }
        let ghost taught = self.peers@;
        assert(taught[index as int]@ == self@.peers[index as int]);
        if self.peers[index].monitor.observe_data(data, now) {
            assert(member_views(self.peers@) =~= member_views(taught).update(
                index as int,
                self.peers@[index as int]@,
            ));
            return None;
        }
        assert(member_views(self.peers@) =~= member_views(taught));
        if feature.is(&self.peers[index].peer.load_control) {
            self.observe_applied(engine, index, data, now);
        }
        None
    }

    /// Releases what a request held that the peer never answered.
    fn give_up(&mut self, request: MsgCounter, now: Duration) -> (r: Option<GuardEvent>)
        ensures
            (final(self)@, guard_event_of(r)) == old(self)@.given_up(request, now),
    {
        let ghost wanted = |member: Member| member@.owes(request);
        proof {
            lemma_mapped_first_index(
                self.peers@,
                |member: Member| member@,
                wanted,
                |member: MemberView| member.owes(request),
            );
        }
        let found = position(
            &self.peers,
            |member: &Member| -> (b: bool)
                ensures
                    b == member@.owes(request)
                { member.owes(request) },
            Ghost(wanted),
        );
        let index = match found {
            Some(index) => index,
            None => return None,
        };
        let ghost before = self.peers@;
        assert(before[index as int]@ == self@.peers[index as int]);
        let device = self.peers[index].peer.device.copy();
        if let Some((counter, limit)) = self.peers[index].outstanding {
            if counter == request {
                self.peers[index].let_go(now);
                assert(member_views(self.peers@) =~= member_views(before).update(
                    index as int,
                    self.peers@[index as int]@,
                ));
                self.audit.record(
                    LimitRecord::new(
                        now,
                        request,
                        limit,
                        WriteOutcome::Rejected(NackReason::Unstated),
                    ).with_peer(device.copy()).on_basis(
                        String::from_str("unanswered through the whole of SPINE IG §2.6.2"),
                    ),
                );
                return Some(
                    GuardEvent::PeerUnresponsive { device, outstanding: Unanswered::Limit },
                );
            }
        }
        if find_pending(&self.peers[index].pending_reads, request).is_some() {
            drop_request(&mut self.peers[index].pending_reads, request);
            assert(member_views(self.peers@) =~= member_views(before).update(
                index as int,
                self.peers@[index as int]@,
            ));
            return Some(
                GuardEvent::PeerUnresponsive { device, outstanding: Unanswered::Description },
            );
        }
        drop_request(&mut self.peers[index].pending_bindings, request);
        assert(member_views(self.peers@) =~= member_views(before).update(
            index as int,
            self.peers@[index as int]@,
        ));
        Some(GuardEvent::PeerUnresponsive { device, outstanding: Unanswered::Binding })
    }

    /// Learns a peer's own identifiers from a description.
    #[verifier::rlimit(40)]
    fn learn_ids(
        &mut self,
        engine: &mut Engine,
        index: usize,
        feature: &FeatureAddress,
        data: &CmdData,
        now: Duration,
    ) -> (r: Option<GuardEvent>)
        requires
            index < old(self)@.peers.len(),
        ensures
            (final(self)@, final(engine)@, guard_event_of(r)) == old(self)@.learning(
                old(engine)@,
                index as int,
                feature@,
                data@,
                now,
            ),
            final(self)@.peers.len() == old(self)@.peers.len(),
    {
        let ghost before = self.peers@;
        assert(before[index as int]@ == self@.peers[index as int]);
        if !feature.is(&self.peers[index].peer.load_control) && !feature.is(
            &self.peers[index].peer.device_configuration,
        ) {
            return None;
        }
        let told = self.peers[index].ids.learn(data, self.direction);
        if told {
            drop_feature(&mut self.peers[index].pending_reads, feature);
        }
        let is_limits = match data {
            CmdData::LoadControlLimitDescriptionListData(_) => true,
            _ => false,
        };
        if is_limits && self.peers[index].ids.limit.is_none()
            && !self.peers[index].reported_no_limit {
            self.peers[index].reported_no_limit = true;
            assert(member_views(self.peers@) =~= member_views(before).update(
                index as int,
                self.peers@[index as int]@,
            ));
            let device = self.peers[index].peer.device.copy();
            return Some(GuardEvent::NoLimitPublished { device });
        }
        assert(member_views(self.peers@) =~= member_views(before).update(
            index as int,
            self.peers@[index as int]@,
        ));
        if told {
            self.become_ready(engine, index, now)
        } else {
            None
        }
    }

    /// Reports readiness the first time everything a write needs is in place.
    fn become_ready(&mut self, engine: &mut Engine, index: usize, now: Duration) -> (r: Option<
        GuardEvent,
    >)
        requires
            index < old(self)@.peers.len(),
        ensures
            (final(self)@, final(engine)@, guard_event_of(r)) == old(self)@.becoming_ready(
                old(engine)@,
                index as int,
                now,
            ),
            final(self)@.peers.len() == old(self)@.peers.len(),
    {
        let ghost before = self.peers@;
        assert(before[index as int]@ == self@.peers[index as int]);
        if !self.peers[index].is_ready() || self.peers[index].ready_reported {
            return None;
        }
        self.peers[index].ready_reported = true;
        assert(member_views(self.peers@) =~= member_views(before).update(
            index as int,
            self.peers@[index as int]@,
        ));
        let device = self.peers[index].peer.device.copy();
        self.write_limit_if_due(engine, index, now);
        Some(GuardEvent::Ready { device })
    }

    /// Takes what a peer reports about its own limit as the truth about it.
    fn observe_applied(&mut self, engine: &mut Engine, index: usize, data: &CmdData, now: Duration)
        requires
            index < old(self)@.peers.len(),
        ensures
            (final(self)@, final(engine)@) == old(self)@.observing(
                old(engine)@,
                index as int,
                data@,
                now,
            ),
    {
        let ghost before = self.peers@;
        assert(before[index as int]@ == self@.peers[index as int]);
        let limit_id = match self.peers[index].ids.limit {
            Some(id) => id,
            None => return,
        };
        let reported = match read_limit_write(data, limit_id) {
            Some(reported) => reported,
            None => return,
        };
        if self.peers[index].outstanding.is_some() {
            return;
        }
        let news = self.peers[index].take_report(reported);
        if news && self.peers[index].wants_write() {
            self.peers[index].write_due_at = Some(now);
            assert(member_views(self.peers@) =~= member_views(before).update(
                index as int,
                self.peers@[index as int]@,
            ));
            self.write_limit_if_due(engine, index, now);
        } else {
            assert(member_views(self.peers@) =~= member_views(before).update(
                index as int,
                self.peers@[index as int]@,
            ));
        }
    }

    /// Takes the answer to a request.
    fn resolve(
        &mut self,
        engine: &mut Engine,
        request: MsgCounter,
        error: ErrorNumber,
        now: Duration,
    ) -> (r: Option<GuardEvent>)
        ensures
            (final(self)@, final(engine)@, guard_event_of(r)) == old(self)@.resolved(
                old(engine)@,
                request,
                error,
                now,
            ),
    {
        let ghost before = self.peers@;
        let ghost binds = |member: Member| waits(member@.pending_bindings, request);
        let ghost writes = |member: Member|
            member@.outstanding matches Some((counter, _)) && counter == request;
        proof {
            lemma_mapped_first_index(
                self.peers@,
                |member: Member| member@,
                binds,
                |member: MemberView| waits(member.pending_bindings, request),
            );
            lemma_mapped_first_index(
                self.peers@,
                |member: Member| member@,
                writes,
                |member: MemberView|
                    member.outstanding matches Some((counter, _)) && counter == request,
            );
        }
        let binding = position(
            &self.peers,
            |member: &Member| -> (b: bool)
                ensures
                    b == waits(member@.pending_bindings, request)
                { find_pending(&member.pending_bindings, request).is_some() },
            Ghost(binds),
        );
        if let Some(index) = binding {
            assert(before[index as int]@ == self@.peers[index as int]);
            if let Some(place) = find_pending(&self.peers[index].pending_bindings, request) {
                self.peers[index].answer_binding(place, error.is_success());
                assert(member_views(self.peers@) =~= member_views(before).update(
                    index as int,
                    self.peers@[index as int]@,
                ));
            }
            return self.become_ready(engine, index, now);
        }
        let writing = position(
            &self.peers,
            |member: &Member| -> (b: bool)
                ensures
                    b == (member@.outstanding matches Some((counter, _)) && counter == request)
                { member.has_outstanding(request) },
            Ghost(writes),
        );
        let index = match writing {
            Some(index) => index,
            None => return None,
        };
        assert(before[index as int]@ == self@.peers[index as int]);
        let limit = match self.peers[index].outstanding {
            Some((_, limit)) => limit,
            None => {
                assert(false);
                return None;
            },
        };
        let device = self.peers[index].peer.device.copy();
        if error.is_success() {
            self.peers[index].accept(limit);
            assert(member_views(self.peers@) =~= member_views(before).update(
                index as int,
                self.peers@[index as int]@,
            ));
            self.audit.record(
                LimitRecord::new(now, request, limit, WriteOutcome::Accepted).with_peer(
                    device.copy(),
                ),
            );
            return Some(GuardEvent::LimitAccepted { device, limit, request });
        }
        let retry_at = self.peers[index].refuse(now);
        assert(member_views(self.peers@) =~= member_views(before).update(
            index as int,
            self.peers@[index as int]@,
        ));
        let mut basis = String::from_str("errorNumber ");
        basis.append(decimal_text(error.number() as u64).as_str());
        basis.append(" (");
        basis.append(error.as_str());
        basis.append(")");
        self.audit.record(
            LimitRecord::new(
                now,
                request,
                limit,
                WriteOutcome::Rejected(NackReason::Unstated),
            ).with_peer(device.copy()).on_basis(basis),
        );
        Some(GuardEvent::LimitRefused { device, limit, error, retry_at })
    }
}

/// Whether two limits come to the same.
pub fn is_same_limit(a: &LimitWrite, b: &LimitWrite) -> (r: bool)
    ensures
        r == same_limit(*a, *b),
{
    let durations = match (a.duration, b.duration) {
        (Some(x), Some(y)) => x.nanos == y.nanos,
        (None, None) => true,
        _ => false,
    };
    let watts = match (a.watts, b.watts) {
        (Number::Finite(x), Number::Finite(y)) => {
            let difference: i128 = (x as i128) - (y as i128);
            -500 < difference && difference < 500
        },
        _ => false,
    };
    a.is_active == b.is_active && durations && (!a.is_active || watts)
}

/// A limit as it may be sent: not below zero, and without a duration of zero where it is
/// activated.
pub fn normalise(limit: LimitWrite) -> (r: LimitWrite)
    ensures
        r == normalised(limit),
{
    let watts = if limit.watts.is_negative() {
        Number::Finite(0)
    } else {
        limit.watts
    };
    let duration = match limit.duration {
        Some(duration) => if limit.is_active && duration.nanos == 0 {
            None
        } else {
            Some(duration)
        },
        None => None,
    };
    LimitWrite { is_active: limit.is_active, watts, duration }
}

/// The filters of a limit write.
pub fn limit_filters(limit: &LimitWrite, limit_id: LoadControlLimitId) -> (r: Vec<Filter>)
    ensures
        r@ == limit_filters_view(*limit, limit_id),
{
    if limit.duration.is_some() {
        let filters = vec![Filter::partial()];
        assert(filters@ =~= partial_only());
        return filters;
    }
    let withdraw_end_time = Filter {
        control: FilterControl::Delete,
        limit_id: Some(limit_id),
        end_time: true,
    };
    let filters = vec![withdraw_end_time, Filter::partial()];
    assert(filters@ =~= limit_filters_view(*limit, limit_id));
    filters
}

/// The data of a limit write.
pub fn limit_payload(limit: &LimitWrite, limit_id: LoadControlLimitId) -> (r: CmdData)
    ensures
        r@ == limit_payload_view(*limit, limit_id),
{
    let time_period = match limit.duration {
        Some(duration) => Some(
            TimePeriod {
                start_time: None,
                end_time: Some(AbsoluteOrRelativeTime::Relative(duration)),
            },
        ),
        None => None,
    };
    let entries = vec![
        LoadControlLimitData {
            limit_id: Some(limit_id),
            is_limit_changeable: None,
            is_limit_active: Some(limit.is_active),
            time_period,
            value: Some(ScaledNumber::from_number(limit.watts, 0)),
        },
    ];
    assert(limit_payload_view(*limit, limit_id)->LoadControlLimitListData_0->Some_0
        =~= entries@);
    CmdData::LoadControlLimitListData(
        LoadControlLimitListData { load_control_limit_data: Some(entries) },
    )
}

/// The data of a write on one failsafe value.
fn failsafe_payload(
    key: DeviceConfigurationKeyId,
    value: DeviceConfigurationKeyValueValue,
) -> (r: CmdData)
    ensures
        r@ == failsafe_payload_view(key, value),
{
    let entries = vec![
        DeviceConfigurationKeyValueData {
            key_id: Some(key),
            value: Some(value),
            is_value_changeable: None,
        },
    ];
    assert(failsafe_payload_view(key, value)->DeviceConfigurationKeyValueListData_0->Some_0
        =~= entries@);
    CmdData::DeviceConfigurationKeyValueListData(
        DeviceConfigurationKeyValueListData { device_configuration_key_value_data: Some(entries) },
    )
}

} // verus!
