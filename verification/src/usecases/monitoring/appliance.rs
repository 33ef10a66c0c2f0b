//! The Monitoring Appliance: the side that reads.

use super::readings::{fully_known, Reading, Readings, ReadingsView};
use crate::address::{
    entity_path, feature_of, names, same_path, AddressDevice, FeatureAddress, FeatureAddressView,
    UnitId, UnitIdView,
};
use crate::model::{CmdData, FeatureType, Function, Payload, Role};
use crate::number::Number;
use crate::seqs::{
    first, first_index, lemma_mapped_filter, lemma_mapped_first_index, position, retain,
};
use crate::spine::{Engine, EngineView, RemoteDevice, RemoteDeviceView, SpineEvent};
use crate::time::Duration;
use crate::usecases::mgcp::{peak, share, Curtailment, CurtailmentView, FeedInLimit};
use vstd::prelude::*;

verus! {

/// Where one unit's measurements live. A feature is there only if the scenario that uses it is.
#[derive(Clone, Debug, PartialEq, Eq)]
pub struct MonitoredUnitPeer {
    /// The device.
    pub device: AddressDevice,
    /// The feature that says which measurement covers which phases.
    pub electrical_connection: Option<FeatureAddress>,
    /// The feature that says what each measurement is and reads.
    pub measurement: Option<FeatureAddress>,
    /// The feature that holds the curtailment factor.
    pub curtailment: Option<FeatureAddress>,
}

/// The content of a [`MonitoredUnitPeer`].
pub struct UnitPeerView {
    /// The device.
    pub device: Seq<char>,
    /// The feature that says which measurement covers which phases.
    pub electrical_connection: Option<FeatureAddressView>,
    /// The feature that says what each measurement is and reads.
    pub measurement: Option<FeatureAddressView>,
    /// The feature that holds the curtailment factor.
    pub curtailment: Option<FeatureAddressView>,
}

impl View for MonitoredUnitPeer {
    type V = UnitPeerView;

    open spec fn view(&self) -> UnitPeerView {
        UnitPeerView {
            device: self.device@,
            electrical_connection: feature_of(self.electrical_connection),
            measurement: feature_of(self.measurement),
            curtailment: feature_of(self.curtailment),
        }
    }
}

impl UnitPeerView {
    /// A unit whose only feature measures.
    pub open spec fn measuring(device: Seq<char>, measurement: FeatureAddressView) -> UnitPeerView {
        UnitPeerView {
            device,
            electrical_connection: None,
            measurement: Some(measurement),
            curtailment: None,
        }
    }

    /// Whether there is anything to read.
    pub open spec fn usable(self) -> bool {
        self.measurement is Some || self.curtailment is Some
    }

    /// The unit: the device, and the entity that the features are on.
    pub open spec fn unit(self) -> UnitIdView {
        UnitIdView {
            device: self.device,
            entity: match (self.measurement, self.curtailment) {
                (Some(feature), _) => feature.path(),
                (None, Some(feature)) => feature.path(),
                (None, None) => Seq::empty(),
            },
        }
    }
}

impl MonitoredUnitPeer {
    /// A unit whose only feature measures.
    pub fn measuring(device: AddressDevice, measurement: FeatureAddress) -> (r: MonitoredUnitPeer)
        ensures
            r@ == UnitPeerView::measuring(device@, measurement@),
    {
        MonitoredUnitPeer {
            device,
            electrical_connection: None,
            measurement: Some(measurement),
            curtailment: None,
        }
    }

    /// Whether there is anything to read.
    pub fn is_usable(&self) -> (r: bool)
        ensures
            r == self@.usable(),
    {
        self.measurement.is_some() || self.curtailment.is_some()
    }

    /// The unit: the device, and the entity that the features are on.
    pub fn unit(&self) -> (r: UnitId)
        ensures
            r@ == self@.unit(),
    {
        let entity = match (&self.measurement, &self.curtailment) {
            (Some(feature), _) => entity_path(feature),
            (None, Some(feature)) => entity_path(feature),
            (None, None) => {
                let none: Vec<u32> = Vec::new();
                assert(none@ =~= Seq::empty());
                none
            },
        };
        UnitId { device: self.device.copy(), entity }
    }
}

/// The unit that a device announced as this actor of this use case, with the features on the
/// announcing entity; none where it serves neither measurements nor a factor.
pub open spec fn located(remote: RemoteDeviceView, use_case: Seq<char>, actor: Seq<char>) -> Option<
    UnitPeerView,
> {
    match (remote.use_case(use_case, actor), remote.address) {
        (Some(found), Some(device)) => {
            let peer = UnitPeerView {
                device,
                electrical_connection: remote.address_of(
                    found,
                    FeatureType::ElectricalConnection,
                    Role::Server,
                ),
                measurement: remote.address_of(found, FeatureType::Measurement, Role::Server),
                curtailment: remote.address_of(
                    found,
                    FeatureType::DeviceConfiguration,
                    Role::Server,
                ),
            };
            if peer.usable() {
                Some(peer)
            } else {
                None
            }
        },
        _ => None,
    }
}

/// Finds the unit that a device announced as this actor of this use case.
pub fn locate(remote: &RemoteDevice, use_case: &str, actor: &str) -> (r: Option<MonitoredUnitPeer>)
    ensures
        match r {
            Some(peer) => located(remote@, use_case@, actor@) == Some(peer@),
            None => located(remote@, use_case@, actor@) is None,
        },
{
    let found = match remote.use_case(use_case, actor) {
        Some(found) => found,
        None => return None,
    };
    let device = match &remote.address {
        Some(device) => device.copy(),
        None => return None,
    };
    let peer = MonitoredUnitPeer {
        device,
        electrical_connection: remote.address_of(
            found,
            FeatureType::ElectricalConnection,
            Role::Server,
        ),
        measurement: remote.address_of(found, FeatureType::Measurement, Role::Server),
        curtailment: remote.address_of(found, FeatureType::DeviceConfiguration, Role::Server),
    };
    if peer.is_usable() {
        Some(peer)
    } else {
        None
    }
}

/// What an appliance learned.
#[derive(Clone, Debug, PartialEq, Eq)]
pub enum MonitoringEvent {
    /// A unit's descriptions arrived, so that its values can be read.
    UnitDescribed {
        /// The unit.
        unit: UnitId,
    },
    /// New values arrived.
    Measured {
        /// The unit.
        unit: UnitId,
        /// What arrived.
        readings: Vec<Reading>,
    },
    /// The curtailment factor changed.
    CurtailmentChanged {
        /// The unit.
        unit: UnitId,
        /// The factor, as a percentage.
        factor_percent: Number,
    },
}

/// The content of a [`MonitoringEvent`].
pub enum MonitoringEventView {
    /// See [`MonitoringEvent::UnitDescribed`].
    UnitDescribed {
        /// The unit.
        unit: UnitIdView,
    },
    /// See [`MonitoringEvent::Measured`].
    Measured {
        /// The unit.
        unit: UnitIdView,
        /// What arrived.
        readings: Seq<Reading>,
    },
    /// See [`MonitoringEvent::CurtailmentChanged`].
    CurtailmentChanged {
        /// The unit.
        unit: UnitIdView,
        /// The factor, as a percentage.
        factor_percent: Number,
    },
}

impl View for MonitoringEvent {
    type V = MonitoringEventView;

    open spec fn view(&self) -> MonitoringEventView {
        match *self {
            MonitoringEvent::UnitDescribed { unit } => MonitoringEventView::UnitDescribed {
                unit: unit@,
            },
            MonitoringEvent::Measured { unit, readings } => MonitoringEventView::Measured {
                unit: unit@,
                readings: readings@,
            },
            MonitoringEvent::CurtailmentChanged { unit, factor_percent } =>
                MonitoringEventView::CurtailmentChanged { unit: unit@, factor_percent },
        }
    }
}

/// The content of an optional event.
pub open spec fn monitoring_event_of(event: Option<MonitoringEvent>) -> Option<
    MonitoringEventView,
> {
    match event {
        Some(event) => Some(event@),
        None => None,
    }
}

/// What is known of one unit.
pub struct MonitoredView {
    /// Where its measurements live.
    pub peer: UnitPeerView,
    /// Its measurements.
    pub readings: ReadingsView,
    /// Whether it was reported that they are described.
    pub described: bool,
    /// Its curtailment factor.
    pub curtailment: CurtailmentView,
}

/// A factor that is known and differs from what was known before.
pub open spec fn newly(before: Option<Number>, after: Option<Number>) -> Option<Number> {
    if after is Some && before != after {
        after
    } else {
        None
    }
}

impl MonitoredView {
    /// A unit that nothing is known of.
    pub open spec fn fresh(peer: UnitPeerView) -> MonitoredView {
        MonitoredView {
            peer,
            readings: ReadingsView::nothing(),
            described: false,
            curtailment: CurtailmentView::nothing(),
        }
    }

    /// Whether a feature of the device is named as one that the unit is served from.
    pub open spec fn uses(self, feature: FeatureAddressView) -> bool {
        &&& feature.device == Some(self.peer.device)
        &&& {
            ||| self.peer.electrical_connection == Some(feature)
            ||| self.peer.measurement == Some(feature)
            ||| self.peer.curtailment == Some(feature)
        }
    }

    /// Whether a feature of the device is on the unit's entity.
    pub open spec fn hosts(self, feature: FeatureAddressView) -> bool {
        feature.device == Some(self.peer.device) && feature.path() == self.peer.unit().entity
    }

    /// The report of a factor, if it is new.
    pub open spec fn factor_report(self, before: Option<Number>) -> Option<MonitoringEventView> {
        match newly(before, self.curtailment.factor()) {
            Some(factor_percent) => Some(
                MonitoringEventView::CurtailmentChanged {
                    unit: self.peer.unit(),
                    factor_percent,
                },
            ),
            None => None,
        }
    }

    /// Once a payload of one of its features is taken in, and what there is to report.
    pub open spec fn informed(self, feature: FeatureAddressView, data: Payload) -> (
        MonitoredView,
        Option<MonitoringEventView>,
    ) {
        if self.peer.curtailment == Some(feature) {
            let after = MonitoredView {
                curtailment: if data is DeviceConfigurationKeyValueDescriptionListData {
                    self.curtailment.described(data)
                } else {
                    self.curtailment.applied(data)
                },
                ..self
            };
            (after, after.factor_report(self.curtailment.factor()))
        } else if ReadingsView::describes(data) {
            let readings = self.readings.described(data);
            let complete = fully_known(readings.known).len() > 0;
            (
                MonitoredView { readings, described: self.described || complete, ..self },
                if complete && !self.described {
                    Some(MonitoringEventView::UnitDescribed { unit: self.peer.unit() })
                } else {
                    None
                },
            )
        } else {
            let (readings, arrived) = self.readings.applied(data);
            (
                MonitoredView { readings, ..self },
                if arrived.len() > 0 {
                    Some(
                        MonitoringEventView::Measured {
                            unit: self.peer.unit(),
                            readings: arrived,
                        },
                    )
                } else {
                    None
                },
            )
        }
    }
}

/// The appliance as a mathematical value.
pub struct MonitoringView {
    /// The own feature that asks.
    pub client: FeatureAddressView,
    /// The units, in the order in which they were attached.
    pub units: Seq<MonitoredView>,
}

impl MonitoringView {
    /// What is known of a unit.
    pub open spec fn member(self, unit: UnitIdView) -> Option<MonitoredView> {
        first(self.units, |member: MonitoredView| member.peer.unit() == unit)
    }

    /// Without a unit.
    pub open spec fn without(self, unit: UnitIdView) -> MonitoringView {
        MonitoringView {
            units: self.units.filter(|member: MonitoredView| member.peer.unit() != unit),
            ..self
        }
    }

    /// The reads and subscriptions that start the exchange with a unit.
    pub open spec fn asking(
        self,
        engine: EngineView,
        peer: UnitPeerView,
        now: Duration,
    ) -> EngineView {
        let connected = match peer.electrical_connection {
            Some(feature) => engine.reading(
                feature,
                self.client,
                Function::ElectricalConnectionDescriptionListData,
                now,
            ).reading(
                feature,
                self.client,
                Function::ElectricalConnectionParameterDescriptionListData,
                now,
            ),
            None => engine,
        };
        let measured = match peer.measurement {
            Some(feature) => connected.reading(
                feature,
                self.client,
                Function::MeasurementDescriptionListData,
                now,
            ).reading(
                feature,
                self.client,
                Function::MeasurementConstraintsListData,
                now,
            ).reading(feature, self.client, Function::MeasurementListData, now).subscribing(
                self.client,
                feature,
                now,
            ),
            None => connected,
        };
        match peer.curtailment {
            Some(feature) => measured.reading(
                feature,
                self.client,
                Function::DeviceConfigurationKeyValueDescriptionListData,
                now,
            ).reading(
                feature,
                self.client,
                Function::DeviceConfigurationKeyValueListData,
                now,
            ).subscribing(self.client, feature, now),
            None => measured,
        }
    }

    /// A unit comes under observation; for one that is, the exchange starts over.
    pub open spec fn attached(self, engine: EngineView, peer: UnitPeerView, now: Duration) -> (
        MonitoringView,
        EngineView,
    ) {
        (
            MonitoringView {
                units: self.without(peer.unit()).units.push(MonitoredView::fresh(peer)),
                ..self
            },
            self.asking(engine, peer, now),
        )
    }

    /// The unit that a feature belongs to: the one that names it, or else the one on its entity.
    pub open spec fn owner(self, feature: FeatureAddressView) -> Option<int> {
        match first_index(self.units, |member: MonitoredView| member.uses(feature)) {
            Some(index) => Some(index),
            None => first_index(self.units, |member: MonitoredView| member.hosts(feature)),
        }
    }

    /// Data of a feature arrived.
    pub open spec fn informed(self, feature: FeatureAddressView, data: Payload) -> (
        MonitoringView,
        Option<MonitoringEventView>,
    ) {
        match self.owner(feature) {
            Some(index) => {
                let (member, event) = self.units[index].informed(feature, data);
                (MonitoringView { units: self.units.update(index, member), ..self }, event)
            },
            None => (self, None),
        }
    }

    /// What an event does.
    pub open spec fn stepped(self, event: SpineEvent) -> (
        MonitoringView,
        Option<MonitoringEventView>,
    ) {
        match event {
            SpineEvent::ReplyReceived { feature, resolved } => self.informed(
                feature@,
                resolved@,
            ),
            SpineEvent::DataNotified { feature, resolved } => self.informed(
                feature@,
                resolved@,
            ),
            _ => (self, None),
        }
    }
}

/// What is known of one unit.
#[derive(Debug)]
struct MonitoredMember {
    peer: MonitoredUnitPeer,
    readings: Readings,
    described: bool,
    curtailment: Curtailment,
}

impl View for MonitoredMember {
    type V = MonitoredView;

    closed spec fn view(&self) -> MonitoredView {
        MonitoredView {
            peer: self.peer@,
            readings: self.readings@,
            described: self.described,
            curtailment: self.curtailment@,
        }
    }
}

/// A factor that is known and differs from what was known before.
fn changed(before: Option<Number>, after: Option<Number>) -> (r: Option<Number>)
    ensures
        r == newly(before, after),
{
    match (before, after) {
        (_, None) => None,
        (None, Some(after)) => Some(after),
        (Some(before), Some(after)) => if before == after {
            None
        } else {
            Some(after)
        },
    }
}

impl MonitoredMember {
    /// Whether this is the unit.
    fn is(&self, unit: &UnitId) -> (r: bool)
        ensures
            r == (self@.peer.unit() == unit@),
    {
        self.peer.unit().is(unit)
    }

    /// Whether a feature of the device is named as one that the unit is served from.
    fn uses(&self, feature: &FeatureAddress) -> (r: bool)
        ensures
            r == self@.uses(feature@),
    {
        feature.is_on(&self.peer.device) && (names(&self.peer.electrical_connection, feature)
            || names(&self.peer.measurement, feature) || names(&self.peer.curtailment, feature))
    }

    /// Whether a feature of the device is on the unit's entity.
    fn hosts(&self, feature: &FeatureAddress) -> (r: bool)
        ensures
            r == self@.hosts(feature@),
    {
        feature.is_on(&self.peer.device) && same_path(
            &entity_path(feature),
            &self.peer.unit().entity,
        )
    }

    /// Takes in a payload of one of its features.
    fn inform(&mut self, feature: &FeatureAddress, data: &CmdData) -> (r: Option<MonitoringEvent>)
        ensures
            (final(self)@, monitoring_event_of(r)) == old(self)@.informed(feature@, data@),
    {
        if names(&self.peer.curtailment, feature) {
            let before = self.curtailment.factor_percent();
            let after = if self.curtailment.describe(data) {
                self.curtailment.factor_percent()
            } else {
                self.curtailment.apply(data)
            };
            return match changed(before, after) {
                Some(factor_percent) => Some(
                    MonitoringEvent::CurtailmentChanged { unit: self.peer.unit(), factor_percent },
                ),
                None => None,
            };
        }
        if self.readings.describe(data) {
            if !self.described && self.readings.described().len() > 0 {
                self.described = true;
                return Some(MonitoringEvent::UnitDescribed { unit: self.peer.unit() });
            }
            return None;
        }
        let readings = self.readings.apply(data);
        if readings.len() == 0 {
            return None;
        }
        Some(MonitoringEvent::Measured { unit: self.peer.unit(), readings })
    }
}

/// The Monitoring Appliance on a node. It reads the descriptions once, subscribes to the values,
/// and resolves every value that arrives. It never writes.
#[derive(Debug)]
pub struct MonitoringApplianceActor {
    client: FeatureAddress,
    members: Vec<MonitoredMember>,
}

impl View for MonitoringApplianceActor {
    type V = MonitoringView;

    closed spec fn view(&self) -> MonitoringView {
        MonitoringView {
            client: self.client@,
            units: self.members@.map_values(|member: MonitoredMember| member@),
        }
    }
}

impl MonitoringApplianceActor {
    /// An appliance that reads from its one client feature.
    pub fn new(client: FeatureAddress) -> (r: MonitoringApplianceActor)
        ensures
            r@ == (MonitoringView { client: client@, units: Seq::empty() }),
    {
        let r = MonitoringApplianceActor { client, members: Vec::new() };
        assert(r@.units =~= Seq::empty());
        r
    }

    /// Drops a unit.
    fn drop_unit(&mut self, unit: &UnitId)
        ensures
            final(self)@ == old(self)@.without(unit@),
    {
        let ghost wanted = |member: MonitoredMember| member@.peer.unit() != unit@;
        proof {
            lemma_mapped_filter(
                self.members@,
                |member: MonitoredMember| member@,
                wanted,
                |member: MonitoredView| member.peer.unit() != unit@,
            );
        }
        retain(
            &mut self.members,
            |member: &MonitoredMember| -> (b: bool)
                ensures
                    b == (member@.peer.unit() != unit@)
                { !member.is(unit) },
            Ghost(wanted),
        );
    }

    /// Where a unit is.
    fn find(&self, unit: &UnitId) -> (r: Option<usize>)
        ensures
            match r {
                Some(index) => index < self.members@.len() && self@.member(unit@) == Some(
                    self.members@[index as int]@,
                ),
                None => self@.member(unit@) is None,
            },
    {
        let ghost wanted = |member: MonitoredMember| member@.peer.unit() == unit@;
        proof {
            lemma_mapped_first_index(
                self.members@,
                |member: MonitoredMember| member@,
                wanted,
                |member: MonitoredView| member.peer.unit() == unit@,
            );
        }
        position(
            &self.members,
            |member: &MonitoredMember| -> (b: bool)
                ensures
                    b == (member@.peer.unit() == unit@)
                { member.is(unit) },
            Ghost(wanted),
        )
    }

    /// Starts to read a unit: asks for its descriptions, and subscribes to its values. For a unit
    /// that is read already this starts over, which is what a reconnection needs.
    pub fn attach(&mut self, engine: &mut Engine, peer: MonitoredUnitPeer, now: Duration)
        ensures
            (final(self)@, final(engine)@) == old(self)@.attached(old(engine)@, peer@, now),
    {
        let unit = peer.unit();
        self.drop_unit(&unit);
        if let Some(feature) = &peer.electrical_connection {
            engine.read(
                feature,
                &self.client,
                Function::ElectricalConnectionDescriptionListData,
                now,
            );
            engine.read(
                feature,
                &self.client,
                Function::ElectricalConnectionParameterDescriptionListData,
                now,
            );
        }
        if let Some(feature) = &peer.measurement {
            engine.read(feature, &self.client, Function::MeasurementDescriptionListData, now);
            engine.read(feature, &self.client, Function::MeasurementConstraintsListData, now);
            engine.read(feature, &self.client, Function::MeasurementListData, now);
            engine.request_subscription(&self.client, feature, now);
        }
        if let Some(feature) = &peer.curtailment {
            engine.read(
                feature,
                &self.client,
                Function::DeviceConfigurationKeyValueDescriptionListData,
                now,
            );
            engine.read(
                feature,
                &self.client,
                Function::DeviceConfigurationKeyValueListData,
                now,
            );
            engine.request_subscription(&self.client, feature, now);
        }
        let member = MonitoredMember {
            peer,
            readings: Readings::new(),
            described: false,
            curtailment: Curtailment::new(),
        };
        let ghost kept = self.members@;
        self.members.push(member);
        assert(self@.units =~= kept.map_values(|member: MonitoredMember| member@).push(member@));
    }

    /// Stops reading a unit.
    pub fn detach(&mut self, unit: &UnitId)
        ensures
            final(self)@ == old(self)@.without(unit@),
    {
        self.drop_unit(unit);
    }

    /// The units that are read.
    pub fn units(&self) -> (r: Vec<&MonitoredUnitPeer>)
        ensures
            r@.len() == self@.units.len(),
            forall|i: int| 0 <= i < r@.len() ==> (#[trigger] r@[i])@ == self@.units[i].peer,
    {
        let mut peers: Vec<&MonitoredUnitPeer> = Vec::new();
        let mut i: usize = 0;
        while i < self.members.len()
            invariant
                i <= self.members@.len(),
                peers@.len() == i,
                forall|j: int| 0 <= j < i ==> (#[trigger] peers@[j])@ == self@.units[j].peer,
            decreases self.members@.len() - i,
        {
            peers.push(&self.members[i].peer);
            i = i + 1;
        }
        peers
    }

    /// What is known of a unit's measurements.
    pub fn readings(&self, unit: &UnitId) -> (r: Option<&Readings>)
        ensures
            match r {
                Some(readings) => self@.member(unit@) matches Some(member) && readings@
                    == member.readings,
                None => self@.member(unit@) is None,
            },
    {
        match self.find(unit) {
            Some(index) => Some(&self.members[index].readings),
            None => None,
        }
    }

    /// The curtailment factor of a unit, as a percentage. One that was not read is none, and
    /// never zero.
    pub fn curtailment(&self, unit: &UnitId) -> (r: Option<Number>)
        ensures
            r == match self@.member(unit@) {
                Some(member) => member.curtailment.factor(),
                None => None,
            },
    {
        match self.find(unit) {
            Some(index) => self.members[index].curtailment.factor_percent(),
            None => None,
        }
    }

    /// The same factor as a ceiling in watts. The peak power is the caller's to supply.
    pub fn feed_in_limit(&self, unit: &UnitId, nominal_peak_watts: Number) -> (r: Option<
        FeedInLimit,
    >)
        ensures
            match r {
                Some(limit) => self@.member(unit@) matches Some(member)
                    && member.curtailment.factor() matches Some(factor) && limit.factor() == share(
                    factor,
                ) && limit.peak_watts() == peak(nominal_peak_watts),
                None => self@.member(unit@) matches Some(member) ==> member.curtailment.factor()
                    is None,
            },
    {
        match self.find(unit) {
            Some(index) => self.members[index].curtailment.limit(nominal_peak_watts),
            None => None,
        }
    }

    /// The unit that a feature belongs to: the one that names it, or else the one on its entity.
    fn owner(&self, feature: &FeatureAddress) -> (r: Option<usize>)
        ensures
            match r {
                Some(index) => self@.owner(feature@) == Some(index as int) && index
                    < self.members@.len() && self.members@.len() == self@.units.len(),
                None => self@.owner(feature@) is None,
            },
    {
        let ghost using = |member: MonitoredMember| member@.uses(feature@);
        let ghost hosting = |member: MonitoredMember| member@.hosts(feature@);
        proof {
            lemma_mapped_first_index(
                self.members@,
                |member: MonitoredMember| member@,
                using,
                |member: MonitoredView| member.uses(feature@),
            );
            lemma_mapped_first_index(
                self.members@,
                |member: MonitoredMember| member@,
                hosting,
                |member: MonitoredView| member.hosts(feature@),
            );
        }
        let named = position(
            &self.members,
            |member: &MonitoredMember| -> (b: bool)
                ensures
                    b == member@.uses(feature@)
                { member.uses(feature) },
            Ghost(using),
        );
        match named {
            Some(index) => Some(index),
            None => position(
                &self.members,
                |member: &MonitoredMember| -> (b: bool)
                    ensures
                        b == member@.hosts(feature@)
                    { member.hosts(feature) },
                Ghost(hosting),
            ),
        }
    }

    /// Handles one event.
    pub fn handle_event(&mut self, event: &SpineEvent) -> (r: Option<MonitoringEvent>)
        ensures
            (final(self)@, monitoring_event_of(r)) == old(self)@.stepped(*event),
    {
        let (feature, data) = match event {
            SpineEvent::ReplyReceived { feature, resolved } => (feature, resolved),
            SpineEvent::DataNotified { feature, resolved } => (feature, resolved),
            _ => return None,
        };
        let found = self.owner(feature);
        match found {
            Some(index) => {
                let ghost before = self.members@;
                let report = self.members[index].inform(feature, data);
                proof {
                    assert(before[index as int]@ == old(self)@.units[index as int]);
                    assert(self@.units =~= old(self)@.units.update(
                        index as int,
                        self.members@[index as int]@,
                    ));
                }
                report
            },
            None => None,
        }
    }
}

} // verus!
