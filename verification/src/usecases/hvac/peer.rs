//! A peer that serves one of the use cases: where its features are, and how to follow it.

use super::system_function::{SystemFunction, SystemFunctionView};
use crate::address::{
    entity_path, feature_of, same_feature, AddressDevice, FeatureAddress, FeatureAddressView,
    UnitId, UnitIdView,
};
use crate::model::{
    FeatureType, Function, HvacOverrunType, HvacSystemFunctionType, MsgCounter, Role, ScopeType,
};
use crate::seqs::{
    first, first_index, lemma_first_index, lemma_mapped_first_index, lemma_take_next, position,
};
use crate::spine::{Engine, EngineView, RemoteDevice, RemoteDeviceView, RemoteUseCaseView};
use crate::time::Duration;
use crate::usecases::descriptor::{DescriptorView, UseCaseDescriptor};
use vstd::prelude::*;

verus! {

/// What a use case is about: which system function, which overrun where there is one, and which
/// setpoint scope where it is about a temperature.
#[derive(Clone, Copy, Debug, PartialEq, Eq, Structural)]
pub struct Subject {
    /// The system function.
    pub function: HvacSystemFunctionType,
    /// The overrun.
    pub overrun: Option<HvacOverrunType>,
    /// The setpoint scope.
    pub scope: Option<ScopeType>,
}

impl Subject {
    /// The mode of a function.
    pub fn mode(function: HvacSystemFunctionType) -> (r: Subject)
        ensures
            r == (Subject { function, overrun: None, scope: None }),
    {
        Subject { function, overrun: None, scope: None }
    }

    /// The mode of a function, and an overrun on it.
    pub fn mode_with_overrun(function: HvacSystemFunctionType, overrun: HvacOverrunType) -> (r:
        Subject)
        ensures
            r == (Subject { function, overrun: Some(overrun), scope: None }),
    {
        Subject { function, overrun: Some(overrun), scope: None }
    }

    /// The temperature of a function.
    pub fn temperature(function: HvacSystemFunctionType, scope: ScopeType) -> (r: Subject)
        ensures
            r == (Subject { function, overrun: None, scope: Some(scope) }),
    {
        Subject { function, overrun: None, scope: Some(scope) }
    }

    /// A reader of the function.
    pub fn system_function(&self) -> (r: SystemFunction)
        ensures
            r@ == SystemFunctionView::following(self.function, self.overrun),
    {
        SystemFunction::new(self.function, self.overrun)
    }
}

/// A function to be read, and the feature that serves it.
pub type ReadView = (FeatureAddressView, Function);

/// The contents of functions to be read.
pub open spec fn read_views(reads: Seq<(FeatureAddress, Function)>) -> Seq<ReadView> {
    reads.map_values(|read: (FeatureAddress, Function)| (read.0@, read.1))
}

/// A peer that serves a use case.
#[derive(Clone, Debug, PartialEq, Eq)]
pub struct HvacPeer {
    /// The device.
    pub device: AddressDevice,
    /// The feature that serves modes and relations.
    pub hvac: FeatureAddress,
    /// The feature that serves setpoints, where they are in scope.
    pub setpoint: Option<FeatureAddress>,
    /// What the use case is about.
    pub subject: Subject,
    /// What there is to read.
    pub reads: Vec<(FeatureAddress, Function)>,
}

/// The content of an [`HvacPeer`].
pub struct HvacPeerView {
    /// The device.
    pub device: Seq<char>,
    /// The feature that serves modes and relations.
    pub hvac: FeatureAddressView,
    /// The feature that serves setpoints, where they are in scope.
    pub setpoint: Option<FeatureAddressView>,
    /// What the use case is about.
    pub subject: Subject,
    /// What there is to read.
    pub reads: Seq<ReadView>,
}

impl View for HvacPeer {
    type V = HvacPeerView;

    open spec fn view(&self) -> HvacPeerView {
        HvacPeerView {
            device: self.device@,
            hvac: self.hvac@,
            setpoint: feature_of(self.setpoint),
            subject: self.subject,
            reads: read_views(self.reads@),
        }
    }
}

/// The requests that started an exchange.
#[derive(Clone, Debug, PartialEq, Eq)]
pub struct Following {
    /// The subscription to modes and relations.
    pub subscription: MsgCounter,
    /// The subscription to setpoints.
    pub setpoint_subscription: Option<MsgCounter>,
    /// The reads.
    pub reads: Vec<(Function, MsgCounter)>,
}

/// The content of a [`Following`].
pub struct FollowingView {
    /// The subscription to modes and relations.
    pub subscription: MsgCounter,
    /// The subscription to setpoints.
    pub setpoint_subscription: Option<MsgCounter>,
    /// The reads.
    pub reads: Seq<(Function, MsgCounter)>,
}

impl View for Following {
    type V = FollowingView;

    open spec fn view(&self) -> FollowingView {
        FollowingView {
            subscription: self.subscription,
            setpoint_subscription: self.setpoint_subscription,
            reads: self.reads@,
        }
    }
}

/// Picks out the reads under one number.
pub open spec fn read_under(counter: MsgCounter) -> spec_fn((Function, MsgCounter)) -> bool {
    |read: (Function, MsgCounter)| read.1 == counter
}

impl Following {
    /// The function that was read under this number.
    pub fn function_of(&self, counter: MsgCounter) -> (r: Option<Function>)
        ensures
            r == match first(self@.reads, read_under(counter)) {
                Some(read) => Some(read.0),
                None => None,
            },
    {
        let found = position(
            &self.reads,
            |read: &(Function, MsgCounter)| -> (b: bool)
                ensures
                    b == (read.1 == counter)
                { read.1 == counter },
            Ghost(read_under(counter)),
        );
        match found {
            Some(index) => Some(self.reads[index].0),
            None => None,
        }
    }

    /// Whether this is the number of a subscription.
    pub fn is_subscription(&self, counter: MsgCounter) -> (r: bool)
        ensures
            r == (self@.subscription == counter || self@.setpoint_subscription == Some(counter)),
    {
        let setpoint = match self.setpoint_subscription {
            Some(subscription) => subscription == counter,
            None => false,
        };
        self.subscription == counter || setpoint
    }
}

/// The node once reads are queued, one after the other, and the number of each.
pub open spec fn asking(
    engine: EngineView,
    client: FeatureAddressView,
    reads: Seq<ReadView>,
    now: Duration,
) -> (EngineView, Seq<(Function, MsgCounter)>)
    decreases reads.len(),
{
    if reads.len() == 0 {
        (engine, Seq::empty())
    } else {
        let (before, asked) = asking(engine, client, reads.drop_last(), now);
        let (feature, function) = reads.last();
        (
            before.reading(feature, client, function, now),
            asked.push((function, before.counter())),
        )
    }
}

impl HvacPeerView {
    /// The node once the peer is followed, and the requests that were made.
    pub open spec fn followed(
        self,
        engine: EngineView,
        client: FeatureAddressView,
        now: Duration,
    ) -> (EngineView, FollowingView) {
        let subscribed = engine.subscribing(client, self.hvac, now);
        let (both, setpoint_subscription) = match self.setpoint {
            Some(feature) => (
                subscribed.subscribing(client, feature, now),
                Some(subscribed.counter()),
            ),
            None => (subscribed, None),
        };
        let (after, reads) = asking(both, client, self.reads, now);
        (
            after,
            FollowingView { subscription: engine.counter(), setpoint_subscription, reads },
        )
    }

    /// Whether a feature is one of the peer's; its address has to name the device.
    pub open spec fn serves(self, feature: FeatureAddressView) -> bool {
        &&& feature.device == Some(self.device)
        &&& {
            ||| self.hvac.shares_feature(feature)
            ||| self.setpoint matches Some(setpoint) && setpoint.shares_feature(feature)
        }
    }

    /// The unit: the device, and the entity that the features are on.
    pub open spec fn unit(self) -> UnitIdView {
        UnitIdView { device: self.device, entity: self.hvac.path() }
    }
}

/// Picks out the reads of one function.
pub open spec fn reads_function(function: Function) -> spec_fn((FeatureAddress, Function)) -> bool {
    |read: (FeatureAddress, Function)| read.1 == function
}

impl HvacPeer {
    /// Subscribes to the features, and reads everything that the scenarios name.
    pub fn follow(&self, engine: &mut Engine, client: &FeatureAddress, now: Duration) -> (r:
        Following)
        ensures
            (final(engine)@, r@) == self@.followed(old(engine)@, client@, now),
    {
        let subscription = engine.request_subscription(client, &self.hvac, now);
        let setpoint_subscription = match &self.setpoint {
            Some(feature) => Some(engine.request_subscription(client, feature, now)),
            None => None,
        };
        let ghost subscribed = engine@;
        let mut reads: Vec<(Function, MsgCounter)> = Vec::new();
        let mut i: usize = 0;
        assert(self@.reads.take(0) =~= Seq::empty());
        assert(reads@ =~= Seq::empty());
        while i < self.reads.len()
            invariant
                i <= self.reads@.len(),
                (engine@, reads@) == asking(
                    subscribed,
                    client@,
                    self@.reads.take(i as int),
                    now,
                ),
            decreases self.reads@.len() - i,
        {
            proof {
                lemma_take_next(self@.reads, i as int);
            }
            let function = self.reads[i].1;
            let counter = engine.read(&self.reads[i].0, client, function, now);
            reads.push((function, counter));
            i = i + 1;
        }
        assert(self@.reads.take(i as int) =~= self@.reads);
        Following { subscription, setpoint_subscription, reads }
    }

    /// What there is to read.
    pub fn reads(&self) -> (r: &Vec<(FeatureAddress, Function)>)
        ensures
            read_views(r@) == self@.reads,
    {
        &self.reads
    }

    /// Whether a function is among what there is to read.
    pub fn serves_function(&self, function: &Function) -> (r: bool)
        ensures
            r == exists|i: int|
                0 <= i < self@.reads.len() && (#[trigger] self@.reads[i]).1 == *function,
    {
        let found = position(
            &self.reads,
            |read: &(FeatureAddress, Function)| -> (b: bool)
                ensures
                    b == (read.1 == *function)
                { read.1 == *function },
            Ghost(reads_function(*function)),
        );
        proof {
            lemma_first_index(self.reads@, reads_function(*function));
            match found {
                Some(index) => {
                    assert(self@.reads[index as int].1 == *function);
                },
                None => {
                    assert forall|i: int| 0 <= i < self@.reads.len() implies (
                    #[trigger] self@.reads[i]).1 != *function by {
                        assert(!reads_function(*function)(self.reads@[i]));
                    }
                },
            }
        }
        found.is_some()
    }

    /// Whether a feature is one of the peer's. The device is compared first: another device may
    /// well number an entity and a feature the same way.
    pub fn serves(&self, feature: &FeatureAddress) -> (r: bool)
        ensures
            r == self@.serves(feature@),
    {
        if !feature.is_on(&self.device) {
            return false;
        }
        if same_feature(&self.hvac, feature) {
            return true;
        }
        match &self.setpoint {
            Some(setpoint) => same_feature(setpoint, feature),
            None => false,
        }
    }

    /// The entity that the features are on.
    pub fn entity(&self) -> (r: Vec<u32>)
        ensures
            r@ == self@.hvac.path(),
    {
        entity_path(&self.hvac)
    }

    /// The unit: the device, and the entity that the features are on.
    pub fn id(&self) -> (r: UnitId)
        ensures
            r@ == self@.unit(),
    {
        UnitId { device: self.device.copy(), entity: self.entity() }
    }
}

/// The features and reads that an announcement amounts to.
pub struct Gathered {
    /// The feature that serves modes and relations.
    pub hvac: Option<FeatureAddressView>,
    /// The feature that serves setpoints.
    pub setpoint: Option<FeatureAddressView>,
    /// What there is to read.
    pub reads: Seq<ReadView>,
}

/// What is gathered from the announcing entity for these functions; nothing where a feature is
/// missing. A function that a feature did not declare is not read.
pub open spec fn gathered(
    remote: RemoteDeviceView,
    played: RemoteUseCaseView,
    functions: Seq<(FeatureType, Function)>,
) -> Option<Gathered>
    decreases functions.len(),
{
    if functions.len() == 0 {
        Some(Gathered { hvac: None, setpoint: None, reads: Seq::empty() })
    } else {
        let (feature_type, function) = functions.last();
        match (
            gathered(remote, played, functions.drop_last()),
            remote.feature_for(played, feature_type, Role::Server),
        ) {
            (Some(before), Some(feature)) => Some(
                Gathered {
                    hvac: if feature_type is HVAC {
                        Some(feature.address)
                    } else {
                        before.hvac
                    },
                    setpoint: if feature_type is Setpoint {
                        Some(feature.address)
                    } else {
                        before.setpoint
                    },
                    reads: if feature.may_serve(function) {
                        before.reads.push((feature.address, function))
                    } else {
                        before.reads
                    },
                },
            ),
            _ => None,
        }
    }
}

/// Picks out the peers that serve modes on this feature.
pub open spec fn serves_modes_on(feature: FeatureAddressView) -> spec_fn(HvacPeerView) -> bool {
    |peer: HvacPeerView| peer.hvac == feature
}

/// The peers found once one more announcement is looked at.
pub open spec fn peer_found(
    remote: RemoteDeviceView,
    found: Seq<HvacPeerView>,
    played: RemoteUseCaseView,
    descriptor: DescriptorView,
    subject: Subject,
) -> Seq<HvacPeerView> {
    if !played.plays(descriptor.name, descriptor.actor) {
        found
    } else {
        match gathered(remote, played, descriptor.server_functions()) {
            Some(all) => match all.hvac {
                Some(hvac) => if first_index(found, serves_modes_on(hvac)) is Some {
                    found
                } else {
                    found.push(
                        HvacPeerView {
                            device: remote.address->0,
                            hvac,
                            setpoint: all.setpoint,
                            subject,
                            reads: all.reads,
                        },
                    )
                },
                None => found,
            },
            None => found,
        }
    }
}

/// The peers found among announcements, in their order.
pub open spec fn peers_found(
    remote: RemoteDeviceView,
    announced: Seq<RemoteUseCaseView>,
    descriptor: DescriptorView,
    subject: Subject,
) -> Seq<HvacPeerView>
    decreases announced.len(),
{
    if announced.len() == 0 {
        Seq::empty()
    } else {
        peer_found(
            remote,
            peers_found(remote, announced.drop_last(), descriptor, subject),
            announced.last(),
            descriptor,
            subject,
        )
    }
}

/// Every peer on a device that serves the use case.
pub open spec fn all_located(
    remote: RemoteDeviceView,
    descriptor: DescriptorView,
    subject: Subject,
) -> Seq<HvacPeerView> {
    if remote.address is Some {
        peers_found(remote, remote.use_cases, descriptor, subject)
    } else {
        Seq::empty()
    }
}

/// The contents of peers.
pub open spec fn hvac_peer_views(peers: Seq<HvacPeer>) -> Seq<HvacPeerView> {
    peers.map_values(|peer: HvacPeer| peer@)
}

/// The first of located peers.
pub open spec fn first_located(
    remote: RemoteDeviceView,
    descriptor: DescriptorView,
    subject: Subject,
) -> Option<HvacPeerView> {
    let all = all_located(remote, descriptor, subject);
    if all.len() > 0 {
        Some(all[0])
    } else {
        None
    }
}

/// The content of an optional peer.
pub open spec fn hvac_peer_of(peer: Option<HvacPeer>) -> Option<HvacPeerView> {
    match peer {
        Some(peer) => Some(peer@),
        None => None,
    }
}

/// Finds the first peer on a device that serves the use case.
pub fn locate(remote: &RemoteDevice, descriptor: &UseCaseDescriptor, subject: &Subject) -> (r:
    Option<HvacPeer>)
    ensures
        hvac_peer_of(r) == first_located(remote@, descriptor@, *subject),
{
    let mut found = locate_all(remote, descriptor, subject);
    assert(hvac_peer_views(found@).len() == found@.len());
    if found.len() == 0 {
        None
    } else {
        assert(hvac_peer_views(found@)[0] == found@[0]@);
        Some(found.remove(0))
    }
}

/// Finds every peer on a device that serves the use case. The features are those on the entity
/// that announced it, and all that its scenarios need have to be there.
pub fn locate_all(remote: &RemoteDevice, descriptor: &UseCaseDescriptor, subject: &Subject) -> (r:
    Vec<HvacPeer>)
    ensures
        hvac_peer_views(r@) == all_located(remote@, descriptor@, *subject),
{
    let mut found: Vec<HvacPeer> = Vec::new();
    assert(hvac_peer_views(found@) =~= Seq::empty());
    let device = match &remote.address {
        Some(device) => device,
        None => return found,
    };
    let functions = descriptor.server_functions();
    let mut i: usize = 0;
    assert(remote@.use_cases.take(0) =~= Seq::empty());
    while i < remote.use_cases.len()
        invariant
            i <= remote.use_cases@.len(),
            remote@.address == Some(device@),
            functions@ == descriptor@.server_functions(),
            hvac_peer_views(found@) == peers_found(
                remote@,
                remote@.use_cases.take(i as int),
                descriptor@,
                *subject,
            ),
        decreases remote.use_cases@.len() - i,
    {
        proof {
            lemma_take_next(remote@.use_cases, i as int);
        }
        let played = &remote.use_cases[i];
        if played.plays(descriptor.name, descriptor.actor) {
            let mut hvac: Option<FeatureAddress> = None;
            let mut setpoint: Option<FeatureAddress> = None;
            let mut reads: Vec<(FeatureAddress, Function)> = Vec::new();
            let mut complete = true;
            let mut j: usize = 0;
            assert(functions@.take(0) =~= Seq::empty());
            assert(read_views(reads@) =~= Seq::empty());
            while j < functions.len() && complete
                invariant
                    j <= functions@.len(),
                    complete ==> gathered(remote@, played@, functions@.take(j as int)) == Some(
                        Gathered {
                            hvac: feature_of(hvac),
                            setpoint: feature_of(setpoint),
                            reads: read_views(reads@),
                        },
                    ),
                    !complete ==> gathered(remote@, played@, functions@.take(j as int)) is None,
                decreases functions@.len() - j,
            {
                proof {
                    lemma_take_next(functions@, j as int);
                }
                let (feature_type, function) = functions[j];
                match remote.feature_for(played, feature_type, Role::Server) {
                    Some(feature) => {
                        match feature_type {
                            FeatureType::HVAC => {
                                hvac = Some(feature.address.copy());
                            },
                            FeatureType::Setpoint => {
                                setpoint = Some(feature.address.copy());
                            },
                            _ => {},
                        }
                        if feature.may_serve(function) {
                            let ghost had = reads@;
                            reads.push((feature.address.copy(), function));
                            assert(read_views(reads@) =~= read_views(had).push(
                                (feature.address@, function),
                            ));
                        }
                    },
                    None => {
                        complete = false;
                    },
                }
                j = j + 1;
            }
            proof {
                if !complete {
                    lemma_incomplete(remote@, played@, functions@, j as int);
                } else {
                    assert(functions@.take(j as int) =~= functions@);
                }
            }
            if complete {
                if let Some(hvac) = hvac {
                    let ghost wanted = |peer: HvacPeer| serves_modes_on(hvac@)(peer@);
                    proof {
                        lemma_mapped_first_index(
                            found@,
                            |peer: HvacPeer| peer@,
                            wanted,
                            serves_modes_on(hvac@),
                        );
                    }
                    let known = position(
                        &found,
                        |peer: &HvacPeer| -> (b: bool)
                            ensures
                                b == serves_modes_on(hvac@)(peer@)
                            { peer.hvac.is(&hvac) },
                        Ghost(wanted),
                    );
                    if known.is_none() {
                        let ghost had = found@;
                        let peer = HvacPeer {
                            device: device.copy(),
                            hvac,
                            setpoint,
                            subject: *subject,
                            reads,
                        };
                        let ghost added = peer@;
                        found.push(peer);
                        assert(hvac_peer_views(found@) =~= hvac_peer_views(had).push(added));
                    }
                }
            }
        }
        i = i + 1;
    }
    assert(remote@.use_cases.take(i as int) =~= remote@.use_cases);
    found
}

proof fn lemma_incomplete(
    remote: RemoteDeviceView,
    played: RemoteUseCaseView,
    functions: Seq<(FeatureType, Function)>,
    count: int,
)
    requires
        0 <= count <= functions.len(),
        gathered(remote, played, functions.take(count)) is None,
    ensures
        gathered(remote, played, functions) is None,
    decreases functions.len() - count,
{
    if count == functions.len() {
        assert(functions.take(count) =~= functions);
    } else {
        lemma_take_next(functions, count);
        lemma_incomplete(remote, played, functions, count + 1);
    }
}

/// One peer for each feature: no two that are found serve modes on the same feature, and each is
/// on the device and about the subject that was asked for.
pub proof fn law_peers_are_distinct(
    remote: RemoteDeviceView,
    descriptor: DescriptorView,
    subject: Subject,
)
    ensures
        ({
            let all = all_located(remote, descriptor, subject);
            &&& forall|i: int, j: int|
                0 <= i < j < all.len() ==> (#[trigger] all[i]).hvac != (#[trigger] all[j]).hvac
            &&& forall|i: int|
                0 <= i < all.len() ==> Some((#[trigger] all[i]).device) == remote.address
                    && all[i].subject == subject
        }),
{
    if remote.address is Some {
        lemma_peers_are_distinct(remote, remote.use_cases, descriptor, subject);
    }
}

proof fn lemma_peers_are_distinct(
    remote: RemoteDeviceView,
    announced: Seq<RemoteUseCaseView>,
    descriptor: DescriptorView,
    subject: Subject,
)
    requires
        remote.address is Some,
    ensures
        ({
            let all = peers_found(remote, announced, descriptor, subject);
            &&& forall|i: int, j: int|
                0 <= i < j < all.len() ==> (#[trigger] all[i]).hvac != (#[trigger] all[j]).hvac
            &&& forall|i: int|
                0 <= i < all.len() ==> Some((#[trigger] all[i]).device) == remote.address
                    && all[i].subject == subject
        }),
    decreases announced.len(),
{
    if announced.len() > 0 {
        lemma_peers_are_distinct(remote, announced.drop_last(), descriptor, subject);
        let before = peers_found(remote, announced.drop_last(), descriptor, subject);
        let all = peers_found(remote, announced, descriptor, subject);
        if let Some(found) = gathered(remote, announced.last(), descriptor.server_functions()) {
            if let Some(hvac) = found.hvac {
                lemma_first_index(before, serves_modes_on(hvac));
                assert forall|i: int, j: int| 0 <= i < j < all.len() implies (
                #[trigger] all[i]).hvac != (#[trigger] all[j]).hvac by {
                    if j == before.len() {
                        assert(!serves_modes_on(hvac)(before[i]));
                    } else {
                        assert(all[i] == before[i] && all[j] == before[j]);
                    }
                }
            }
        }
    }
}

/// What is gathered comes from the entity that announced the use case, and only declared
/// functions are read.
pub proof fn law_reads_come_from_the_announcing_entity(
    remote: RemoteDeviceView,
    played: RemoteUseCaseView,
    functions: Seq<(FeatureType, Function)>,
)
    requires
        gathered(remote, played, functions) is Some,
    ensures
        forall|i: int|
            0 <= i < gathered(remote, played, functions)->0.reads.len() ==> exists|
                feature_type: FeatureType,
            |
                (#[trigger] remote.feature_for(played, feature_type, Role::Server)) matches Some(
                    feature,
                ) && feature.address == (
                #[trigger] gathered(remote, played, functions)->0.reads[i]).0 && feature.may_serve(
                    gathered(remote, played, functions)->0.reads[i].1,
                ),
    decreases functions.len(),
{
    if functions.len() > 0 {
        let rest = functions.drop_last();
        law_reads_come_from_the_announcing_entity(remote, played, rest);
        let before = gathered(remote, played, rest)->0.reads;
        let after = gathered(remote, played, functions)->0.reads;
        assert forall|i: int| 0 <= i < after.len() implies exists|feature_type: FeatureType|
            (#[trigger] remote.feature_for(played, feature_type, Role::Server)) matches Some(
                feature,
            ) && feature.address == (#[trigger] after[i]).0 && feature.may_serve(after[i].1) by {
            if i < before.len() {
                assert(after[i] == before[i]);
            } else {
                assert(remote.feature_for(played, functions.last().0, Role::Server) is Some);
            }
        }
    }
}

} // verus!
