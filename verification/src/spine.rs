//! The node that the use cases run on: its features, what it knows of its peers, and the
//! commands that wait to be sent.
//!
//! The use cases send nothing themselves. They queue [`Command`]s on an [`Engine`], and whoever
//! owns the transport takes them from there and hands back [`SpineEvent`]s.

use crate::address::{
    device_of, feature_of, AddressDevice, FeatureAddress, FeatureAddressView,
};
use crate::assoc::{store, stored};
use crate::model::{
    CmdData, EntityType, ErrorNumber, FeatureType, Function, LoadControlLimitId, MsgCounter,
    Payload, Role, WriteToken,
};
use crate::seqs::{first, lemma_first_index_is, lemma_no_first_index};
use crate::time::{after, elapsed, Duration};
use vstd::prelude::*;

verus! {

/// What a peer may do with a function.
#[derive(Clone, Copy, Debug, PartialEq, Eq, Structural)]
pub struct Operations {
    /// Read it.
    pub read: bool,
    /// Write it.
    pub write: bool,
}

impl Operations {
    /// Read only.
    pub fn read() -> (r: Operations)
        ensures
            r == (Operations { read: true, write: false }),
    {
        Operations { read: true, write: false }
    }

    /// Read and write.
    pub fn read_write() -> (r: Operations)
        ensures
            r == (Operations { read: true, write: true }),
    {
        Operations { read: true, write: true }
    }
}

/// The operations of a function that can only be read.
pub open spec fn reading() -> Operations {
    Operations { read: true, write: false }
}

/// The operations of a function that can be read and written.
pub open spec fn writing() -> Operations {
    Operations { read: true, write: true }
}

/// Whether a peer needs a binding to write.
#[derive(Clone, Copy, Debug, PartialEq, Eq, Structural)]
pub enum WriteBinding {
    /// It does.
    Required,
    /// It does not.
    NotRequired,
}

/// A feature of this node.
#[derive(Clone, Debug, PartialEq, Eq)]
pub struct LocalFeature {
    /// The number of the feature on its entity.
    pub address: u32,
    /// Its type.
    pub feature_type: FeatureType,
    /// Its role.
    pub role: Role,
    /// Its functions and what a peer may do with each.
    pub functions: Vec<(Function, Operations)>,
    /// Whether the application decides about each write.
    pub deferred_writes: bool,
    /// Whether a peer needs a binding to write.
    pub write_binding: WriteBinding,
}

/// The content of a [`LocalFeature`].
pub struct LocalFeatureView {
    /// The number of the feature on its entity.
    pub address: u32,
    /// Its type.
    pub feature_type: FeatureType,
    /// Its role.
    pub role: Role,
    /// Its functions and what a peer may do with each.
    pub functions: Seq<(Function, Operations)>,
    /// Whether the application decides about each write.
    pub deferred_writes: bool,
    /// Whether a peer needs a binding to write.
    pub write_binding: WriteBinding,
}

impl View for LocalFeature {
    type V = LocalFeatureView;

    open spec fn view(&self) -> LocalFeatureView {
        LocalFeatureView {
            address: self.address,
            feature_type: self.feature_type,
            role: self.role,
            functions: self.functions@,
            deferred_writes: self.deferred_writes,
            write_binding: self.write_binding,
        }
    }
}

impl LocalFeatureView {
    /// A feature that only serves reads.
    pub open spec fn read_only(
        address: u32,
        feature_type: FeatureType,
        role: Role,
        functions: Seq<(Function, Operations)>,
    ) -> LocalFeatureView {
        LocalFeatureView {
            address,
            feature_type,
            role,
            functions,
            deferred_writes: false,
            write_binding: WriteBinding::Required,
        }
    }

    /// The same feature with a function added, or its operations changed.
    pub open spec fn with(self, function: Function, operations: Operations) -> LocalFeatureView {
        LocalFeatureView { functions: stored(self.functions, function, operations), ..self }
    }

    /// Whether nothing on this feature can be written.
    pub open spec fn nothing_writeable(self) -> bool {
        forall|i: int|
            0 <= i < self.functions.len() ==> !(#[trigger] self.functions[i]).1.write
    }
}

impl LocalFeature {
    /// A feature without functions, on which a write needs a binding.
    pub fn new(address: u32, feature_type: FeatureType, role: Role) -> (r: LocalFeature)
        ensures
            r@ == LocalFeatureView::read_only(address, feature_type, role, Seq::empty()),
    {
        let functions: Vec<(Function, Operations)> = Vec::new();
        assert(functions@ =~= Seq::empty());
        LocalFeature {
            address,
            feature_type,
            role,
            functions,
            deferred_writes: false,
            write_binding: WriteBinding::Required,
        }
    }

    /// Leaves the decision about each write to the application.
    #[must_use]
    pub fn with_deferred_writes(self) -> (r: LocalFeature)
        ensures
            r@ == (LocalFeatureView { deferred_writes: true, ..self@ }),
    {
        LocalFeature { deferred_writes: true, ..self }
    }

    /// Takes writes without a binding.
    #[must_use]
    pub fn with_unbound_writes(self) -> (r: LocalFeature)
        ensures
            r@ == (LocalFeatureView { write_binding: WriteBinding::NotRequired, ..self@ }),
    {
        LocalFeature { write_binding: WriteBinding::NotRequired, ..self }
    }

    /// Adds a function, or changes what a peer may do with it.
    #[must_use]
    pub fn with_function(self, function: Function, operations: Operations) -> (r: LocalFeature)
        ensures
            r@ == self@.with(function, operations),
    {
        let mut functions = self.functions;
        store(&mut functions, function, operations);
        LocalFeature { functions, ..self }
    }

    /// The functions and what a peer may do with each.
    pub fn functions(&self) -> (r: &Vec<(Function, Operations)>)
        ensures
            r@ == self@.functions,
    {
        &self.functions
    }

    /// Whether a peer needs a binding to write.
    pub fn write_binding(&self) -> (r: WriteBinding)
        ensures
            r == self@.write_binding,
    {
        self.write_binding
    }
}

/// A feature of a peer.
#[derive(Clone, Debug, PartialEq, Eq)]
pub struct RemoteFeature {
    /// Its address.
    pub address: FeatureAddress,
    /// Its type.
    pub feature_type: FeatureType,
    /// Its role.
    pub role: Role,
    /// The functions that it declared; none at all where it did not say.
    pub functions: Vec<Function>,
}

/// The content of a [`RemoteFeature`].
pub struct RemoteFeatureView {
    /// Its address.
    pub address: FeatureAddressView,
    /// Its type.
    pub feature_type: FeatureType,
    /// Its role.
    pub role: Role,
    /// The functions that it declared.
    pub functions: Seq<Function>,
}

impl View for RemoteFeature {
    type V = RemoteFeatureView;

    open spec fn view(&self) -> RemoteFeatureView {
        RemoteFeatureView {
            address: self.address@,
            feature_type: self.feature_type,
            role: self.role,
            functions: self.functions@,
        }
    }
}

impl RemoteFeatureView {
    /// Whether a read of this function is worth sending: it was declared, or nothing was.
    pub open spec fn may_serve(self, function: Function) -> bool {
        self.functions.len() == 0 || self.functions.contains(function)
    }
}

impl RemoteFeature {
    /// Whether a read of this function is worth sending: it was declared, or nothing was.
    pub fn may_serve(&self, function: Function) -> (r: bool)
        ensures
            r == self@.may_serve(function),
    {
        if self.functions.len() == 0 {
            return true;
        }
        let mut i: usize = 0;
        while i < self.functions.len()
            invariant
                i <= self.functions@.len(),
                self.functions@.len() > 0,
                forall|j: int| 0 <= j < i ==> self.functions@[j] != function,
            decreases self.functions@.len() - i,
        {
            if self.functions[i] == function {
                assert(self.functions@[i as int] == function);
                return true;
            }
            i = i + 1;
        }
        false
    }
}

/// An entity of a peer.
#[derive(Clone, Debug, PartialEq, Eq)]
pub struct RemoteEntity {
    /// Its path.
    pub path: Vec<u32>,
    /// Its type.
    pub entity_type: EntityType,
    /// Its features.
    pub features: Vec<RemoteFeature>,
}

/// The content of a [`RemoteEntity`].
pub struct RemoteEntityView {
    /// Its path.
    pub path: Seq<u32>,
    /// Its type.
    pub entity_type: EntityType,
    /// Its features.
    pub features: Seq<RemoteFeatureView>,
}

impl View for RemoteEntity {
    type V = RemoteEntityView;

    open spec fn view(&self) -> RemoteEntityView {
        RemoteEntityView {
            path: self.path@,
            entity_type: self.entity_type,
            features: self.features@.map_values(|feature: RemoteFeature| feature@),
        }
    }
}

impl RemoteEntityView {
    /// The first feature of this type in this role.
    pub open spec fn feature(self, feature_type: FeatureType, role: Role) -> Option<
        RemoteFeatureView,
    > {
        first(
            self.features,
            |feature: RemoteFeatureView|
                feature.feature_type == feature_type && feature.role == role,
        )
    }
}

impl RemoteEntity {
    /// The first feature of this type in this role.
    pub fn feature(&self, feature_type: FeatureType, role: Role) -> (r: Option<&RemoteFeature>)
        ensures
            match r {
                Some(feature) => self@.feature(feature_type, role) == Some(feature@),
                None => self@.feature(feature_type, role) is None,
            },
    {
        let ghost wanted = |feature: RemoteFeatureView|
            feature.feature_type == feature_type && feature.role == role;
        let mut i: usize = 0;
        while i < self.features.len()
            invariant
                i <= self.features@.len(),
                wanted == (|feature: RemoteFeatureView|
                    feature.feature_type == feature_type && feature.role == role),
                forall|j: int| 0 <= j < i ==> !wanted(#[trigger] self@.features[j]),
            decreases self.features@.len() - i,
        {
            if self.features[i].feature_type == feature_type && self.features[i].role == role {
                proof {
                    lemma_first_index_is(self@.features, wanted, i as int);
                }
                return Some(&self.features[i]);
            }
            i = i + 1;
        }
        proof {
            lemma_no_first_index(self@.features, wanted);
        }
        None
    }
}

/// A use case that an entity of a peer announced.
#[derive(Clone, Debug, PartialEq, Eq)]
pub struct RemoteUseCase {
    /// The path of the entity that announced it.
    pub entity: Vec<u32>,
    /// The actor it plays.
    pub actor: String,
    /// The name of the use case.
    pub name: String,
}

/// The content of a [`RemoteUseCase`].
pub struct RemoteUseCaseView {
    /// The path of the entity that announced it.
    pub entity: Seq<u32>,
    /// The actor it plays.
    pub actor: Seq<char>,
    /// The name of the use case.
    pub name: Seq<char>,
}

impl View for RemoteUseCase {
    type V = RemoteUseCaseView;

    open spec fn view(&self) -> RemoteUseCaseView {
        RemoteUseCaseView { entity: self.entity@, actor: self.actor@, name: self.name@ }
    }
}

impl RemoteUseCaseView {
    /// Whether this is the use case `name`, played as `actor`.
    pub open spec fn plays(self, name: Seq<char>, actor: Seq<char>) -> bool {
        self.name == name && self.actor == actor
    }
}

impl RemoteUseCase {
    /// Whether this is the use case `name`, played as `actor`.
    pub fn plays(&self, name: &str, actor: &str) -> (r: bool)
        ensures
            r == self@.plays(name@, actor@),
    {
        let name_matches = self.name.eq(&String::from_str(name));
        let actor_matches = self.actor.eq(&String::from_str(actor));
        name_matches && actor_matches
    }
}

/// What discovery found out about a peer.
#[derive(Clone, Debug, PartialEq, Eq)]
pub struct RemoteDevice {
    /// Its address, once it is known.
    pub address: Option<AddressDevice>,
    /// Its entities.
    pub entities: Vec<RemoteEntity>,
    /// The use cases that its entities announced.
    pub use_cases: Vec<RemoteUseCase>,
}

/// The content of a [`RemoteDevice`].
pub struct RemoteDeviceView {
    /// Its address, once it is known.
    pub address: Option<Seq<char>>,
    /// Its entities.
    pub entities: Seq<RemoteEntityView>,
    /// The use cases that its entities announced.
    pub use_cases: Seq<RemoteUseCaseView>,
}

impl View for RemoteDevice {
    type V = RemoteDeviceView;

    open spec fn view(&self) -> RemoteDeviceView {
        RemoteDeviceView {
            address: device_of(self.address),
            entities: self.entities@.map_values(|entity: RemoteEntity| entity@),
            use_cases: self.use_cases@.map_values(|use_case: RemoteUseCase| use_case@),
        }
    }
}

impl RemoteDeviceView {
    /// The entity with this path.
    pub open spec fn entity(self, path: Seq<u32>) -> Option<RemoteEntityView> {
        first(self.entities, |entity: RemoteEntityView| entity.path == path)
    }

    /// The first use case `name` that is played as `actor`.
    pub open spec fn use_case(self, name: Seq<char>, actor: Seq<char>) -> Option<
        RemoteUseCaseView,
    > {
        first(self.use_cases, |use_case: RemoteUseCaseView| use_case.plays(name, actor))
    }

    /// The feature on the entity that announced the use case, and on no other.
    pub open spec fn feature_for(
        self,
        use_case: RemoteUseCaseView,
        feature_type: FeatureType,
        role: Role,
    ) -> Option<RemoteFeatureView> {
        match self.entity(use_case.entity) {
            Some(entity) => entity.feature(feature_type, role),
            None => None,
        }
    }

    /// The address of that feature.
    pub open spec fn address_of(
        self,
        use_case: RemoteUseCaseView,
        feature_type: FeatureType,
        role: Role,
    ) -> Option<FeatureAddressView> {
        match self.feature_for(use_case, feature_type, role) {
            Some(feature) => Some(feature.address),
            None => None,
        }
    }
}

impl RemoteDevice {
    /// The entity with this path.
    pub fn entity(&self, path: &Vec<u32>) -> (r: Option<&RemoteEntity>)
        ensures
            match r {
                Some(entity) => self@.entity(path@) == Some(entity@),
                None => self@.entity(path@) is None,
            },
    {
        let ghost wanted = |entity: RemoteEntityView| entity.path == path@;
        let mut i: usize = 0;
        while i < self.entities.len()
            invariant
                i <= self.entities@.len(),
                wanted == (|entity: RemoteEntityView| entity.path == path@),
                forall|j: int| 0 <= j < i ==> !wanted(#[trigger] self@.entities[j]),
            decreases self.entities@.len() - i,
        {
            if crate::address::same_path(&self.entities[i].path, path) {
                proof {
                    lemma_first_index_is(self@.entities, wanted, i as int);
                }
                return Some(&self.entities[i]);
            }
            i = i + 1;
        }
        proof {
            lemma_no_first_index(self@.entities, wanted);
        }
        None
    }

    /// The first use case `name` that is played as `actor`.
    pub fn use_case(&self, name: &str, actor: &str) -> (r: Option<&RemoteUseCase>)
        ensures
            match r {
                Some(use_case) => self@.use_case(name@, actor@) == Some(use_case@),
                None => self@.use_case(name@, actor@) is None,
            },
    {
        let ghost wanted = |use_case: RemoteUseCaseView| use_case.plays(name@, actor@);
        let mut i: usize = 0;
        while i < self.use_cases.len()
            invariant
                i <= self.use_cases@.len(),
                wanted == (|use_case: RemoteUseCaseView| use_case.plays(name@, actor@)),
                forall|j: int| 0 <= j < i ==> !wanted(#[trigger] self@.use_cases[j]),
            decreases self.use_cases@.len() - i,
        {
            if self.use_cases[i].plays(name, actor) {
                proof {
                    lemma_first_index_is(self@.use_cases, wanted, i as int);
                }
                return Some(&self.use_cases[i]);
            }
            i = i + 1;
        }
        proof {
            lemma_no_first_index(self@.use_cases, wanted);
        }
        None
    }

    /// The feature on the entity that announced the use case, and on no other.
    pub fn feature_for(
        &self,
        use_case: &RemoteUseCase,
        feature_type: FeatureType,
        role: Role,
    ) -> (r: Option<&RemoteFeature>)
        ensures
            match r {
                Some(feature) => self@.feature_for(use_case@, feature_type, role) == Some(
                    feature@,
                ),
                None => self@.feature_for(use_case@, feature_type, role) is None,
            },
    {
        match self.entity(&use_case.entity) {
            Some(entity) => entity.feature(feature_type, role),
            None => None,
        }
    }

    /// The address of that feature.
    pub fn address_of(
        &self,
        use_case: &RemoteUseCase,
        feature_type: FeatureType,
        role: Role,
    ) -> (r: Option<FeatureAddress>)
        ensures
            feature_of(r) == self@.address_of(use_case@, feature_type, role),
    {
        match self.feature_for(use_case, feature_type, role) {
            Some(feature) => Some(feature.address.copy()),
            None => None,
        }
    }
}

/// What a filter does with the elements it covers.
#[derive(Clone, Copy, Debug, PartialEq, Eq, Structural)]
pub enum FilterControl {
    /// Writes only the elements that are given.
    Partial,
    /// Removes them.
    Delete,
}

/// A restriction of a write to a part of what it addresses.
#[derive(Clone, Copy, Debug, PartialEq, Eq, Structural)]
pub struct Filter {
    /// What is done.
    pub control: FilterControl,
    /// The one limit that is meant, where the filter selects one.
    pub limit_id: Option<LoadControlLimitId>,
    /// Whether the filter covers the end time of the limit's period.
    pub end_time: bool,
}

impl Filter {
    /// A write of only the elements that are given.
    pub fn partial() -> (r: Filter)
        ensures
            r == (Filter { control: FilterControl::Partial, limit_id: None, end_time: false }),
    {
        Filter { control: FilterControl::Partial, limit_id: None, end_time: false }
    }
}

/// A command that waits to be sent.
#[derive(Clone, Debug, PartialEq, Eq)]
pub enum Command {
    /// Ask a peer for a function's data.
    Read {
        /// The number of the request.
        counter: MsgCounter,
        /// The peer's feature.
        to: FeatureAddress,
        /// The own feature.
        from: FeatureAddress,
        /// The function.
        function: Function,
    },
    /// Ask a peer to be told of changes.
    Subscribe {
        /// The number of the request.
        counter: MsgCounter,
        /// The own feature.
        client: FeatureAddress,
        /// The peer's feature.
        server: FeatureAddress,
    },
    /// Ask a peer for the right to write.
    Bind {
        /// The number of the request.
        counter: MsgCounter,
        /// The own feature.
        client: FeatureAddress,
        /// The peer's feature.
        server: FeatureAddress,
    },
    /// Write a peer's data.
    Write {
        /// The number of the request.
        counter: MsgCounter,
        /// The peer's feature.
        to: FeatureAddress,
        /// The own feature.
        from: FeatureAddress,
        /// The data.
        data: CmdData,
        /// To what part of the addressed data the write is restricted.
        filters: Vec<Filter>,
    },
    /// Hold this as the data of an own feature. If asked to notify, and if it differs from what
    /// was held before, tell the subscribers.
    Publish {
        /// The own feature.
        feature: FeatureAddress,
        /// The data.
        data: CmdData,
        /// Whether subscribers are told of a change.
        notify: bool,
    },
    /// Send a heartbeat to the subscribers of an own feature.
    Beat {
        /// The own feature.
        feature: FeatureAddress,
        /// Which heartbeat it is.
        counter: u64,
    },
    /// Accept a write that waits for an answer.
    Accept {
        /// The write.
        token: WriteToken,
    },
    /// Refuse a write that waits for an answer.
    Reject {
        /// The write.
        token: WriteToken,
        /// The error to answer with.
        error: ErrorNumber,
    },
    /// Let one peer entity alone hold the bindings of both features.
    BindTogether {
        /// One feature.
        one: FeatureAddress,
        /// The other.
        other: FeatureAddress,
    },
}

/// The content of a [`Command`].
pub enum CommandView {
    /// See [`Command::Read`].
    Read {
        /// The number of the request.
        counter: MsgCounter,
        /// The peer's feature.
        to: FeatureAddressView,
        /// The own feature.
        from: FeatureAddressView,
        /// The function.
        function: Function,
    },
    /// See [`Command::Subscribe`].
    Subscribe {
        /// The number of the request.
        counter: MsgCounter,
        /// The own feature.
        client: FeatureAddressView,
        /// The peer's feature.
        server: FeatureAddressView,
    },
    /// See [`Command::Bind`].
    Bind {
        /// The number of the request.
        counter: MsgCounter,
        /// The own feature.
        client: FeatureAddressView,
        /// The peer's feature.
        server: FeatureAddressView,
    },
    /// See [`Command::Write`].
    Write {
        /// The number of the request.
        counter: MsgCounter,
        /// The peer's feature.
        to: FeatureAddressView,
        /// The own feature.
        from: FeatureAddressView,
        /// The data.
        data: Payload,
        /// To what part of the addressed data the write is restricted.
        filters: Seq<Filter>,
    },
    /// See [`Command::Publish`].
    Publish {
        /// The own feature.
        feature: FeatureAddressView,
        /// The data.
        data: Payload,
        /// Whether subscribers are told of a change.
        notify: bool,
    },
    /// See [`Command::Beat`].
    Beat {
        /// The own feature.
        feature: FeatureAddressView,
        /// Which heartbeat it is.
        counter: u64,
    },
    /// See [`Command::Accept`].
    Accept {
        /// The write.
        token: WriteToken,
    },
    /// See [`Command::Reject`].
    Reject {
        /// The write.
        token: WriteToken,
        /// The error to answer with.
        error: ErrorNumber,
    },
    /// See [`Command::BindTogether`].
    BindTogether {
        /// One feature.
        one: FeatureAddressView,
        /// The other.
        other: FeatureAddressView,
    },
}

impl View for Command {
    type V = CommandView;

    open spec fn view(&self) -> CommandView {
        match *self {
            Command::Read { counter, to, from, function } => CommandView::Read {
                counter,
                to: to@,
                from: from@,
                function,
            },
            Command::Subscribe { counter, client, server } => CommandView::Subscribe {
                counter,
                client: client@,
                server: server@,
            },
            Command::Bind { counter, client, server } => CommandView::Bind {
                counter,
                client: client@,
                server: server@,
            },
            Command::Write { counter, to, from, data, filters } => CommandView::Write {
                counter,
                to: to@,
                from: from@,
                data: data@,
                filters: filters@,
            },
            Command::Publish { feature, data, notify } => CommandView::Publish {
                feature: feature@,
                data: data@,
                notify,
            },
            Command::Beat { feature, counter } => CommandView::Beat { feature: feature@, counter },
            Command::Accept { token } => CommandView::Accept { token },
            Command::Reject { token, error } => CommandView::Reject { token, error },
            Command::BindTogether { one, other } => CommandView::BindTogether {
                one: one@,
                other: other@,
            },
        }
    }
}

/// What the use cases know and do: the peers, and the commands that wait to be sent.
#[derive(Debug)]
pub struct Engine {
    /// The address of this node.
    pub address: AddressDevice,
    /// What discovery found out about the peers.
    pub peers: Vec<RemoteDevice>,
    /// The number of the next request.
    pub next: u64,
    /// The commands that wait to be sent, with the instant at which each was queued.
    pub outbox: Vec<(Duration, Command)>,
}

/// The content of an [`Engine`].
pub struct EngineView {
    /// The address of this node.
    pub address: Seq<char>,
    /// What discovery found out about the peers.
    pub peers: Seq<RemoteDeviceView>,
    /// The number of the next request.
    pub next: u64,
    /// The commands that wait to be sent.
    pub outbox: Seq<(Duration, CommandView)>,
}

impl View for Engine {
    type V = EngineView;

    open spec fn view(&self) -> EngineView {
        EngineView {
            address: self.address@,
            peers: self.peers@.map_values(|peer: RemoteDevice| peer@),
            next: self.next,
            outbox: self.outbox@.map_values(|entry: (Duration, Command)| (entry.0, entry.1@)),
        }
    }
}

impl EngineView {
    /// The peer with this address.
    pub open spec fn peer(self, device: Seq<char>) -> Option<RemoteDeviceView> {
        first(self.peers, |peer: RemoteDeviceView| peer.address == Some(device))
    }

    /// The number of the next request.
    pub open spec fn counter(self) -> MsgCounter {
        MsgCounter(self.next)
    }

    /// With one more command queued.
    pub open spec fn queued(self, now: Duration, command: CommandView) -> EngineView {
        EngineView { outbox: self.outbox.push((now, command)), ..self }
    }

    /// With one more request queued, under the next number.
    pub open spec fn requested(self, now: Duration, command: CommandView) -> EngineView {
        EngineView {
            outbox: self.outbox.push((now, command)),
            next: if self.next == u64::MAX {
                0
            } else {
                (self.next + 1) as u64
            },
            ..self
        }
    }

    /// With a read queued.
    pub open spec fn reading(
        self,
        to: FeatureAddressView,
        from: FeatureAddressView,
        function: Function,
        now: Duration,
    ) -> EngineView {
        self.requested(now, CommandView::Read { counter: self.counter(), to, from, function })
    }

    /// With a subscription request queued.
    pub open spec fn subscribing(
        self,
        client: FeatureAddressView,
        server: FeatureAddressView,
        now: Duration,
    ) -> EngineView {
        self.requested(now, CommandView::Subscribe { counter: self.counter(), client, server })
    }

    /// With a binding request queued.
    pub open spec fn binding(
        self,
        client: FeatureAddressView,
        server: FeatureAddressView,
        now: Duration,
    ) -> EngineView {
        self.requested(now, CommandView::Bind { counter: self.counter(), client, server })
    }

    /// With a write queued.
    pub open spec fn writing(
        self,
        to: FeatureAddressView,
        from: FeatureAddressView,
        data: Payload,
        filters: Seq<Filter>,
        now: Duration,
    ) -> EngineView {
        self.requested(
            now,
            CommandView::Write { counter: self.counter(), to, from, data, filters },
        )
    }

    /// With data queued for publication.
    pub open spec fn publishing(
        self,
        feature: FeatureAddressView,
        data: Payload,
        notify: bool,
        now: Duration,
    ) -> EngineView {
        self.queued(now, CommandView::Publish { feature, data, notify })
    }
}

/// The filters of a write that sets only the elements it gives.
pub open spec fn partial_only() -> Seq<Filter> {
    seq![Filter { control: FilterControl::Partial, limit_id: None, end_time: false }]
}

impl Engine {
    /// A node that knows no peer and has nothing to send.
    pub fn new(address: AddressDevice) -> (r: Engine)
        ensures
            r@.address == address@,
            r@.peers == Seq::<RemoteDeviceView>::empty(),
            r@.next == 1,
            r@.outbox == Seq::<(Duration, CommandView)>::empty(),
    {
        let r = Engine { address, peers: Vec::new(), next: 1, outbox: Vec::new() };
        assert(r@.peers =~= Seq::<RemoteDeviceView>::empty());
        assert(r@.outbox =~= Seq::<(Duration, CommandView)>::empty());
        r
    }

    /// The peer with this address.
    pub fn peer(&self, device: &AddressDevice) -> (r: Option<&RemoteDevice>)
        ensures
            match r {
                Some(peer) => self@.peer(device@) == Some(peer@),
                None => self@.peer(device@) is None,
            },
    {
        let ghost wanted = |peer: RemoteDeviceView| peer.address == Some(device@);
        let mut i: usize = 0;
        while i < self.peers.len()
            invariant
                i <= self.peers@.len(),
                wanted == (|peer: RemoteDeviceView| peer.address == Some(device@)),
                forall|j: int| 0 <= j < i ==> !wanted(#[trigger] self@.peers[j]),
            decreases self.peers@.len() - i,
        {
            let found = match &self.peers[i].address {
                Some(address) => address.is(device),
                None => false,
            };
            if found {
                proof {
                    lemma_first_index_is(self@.peers, wanted, i as int);
                }
                return Some(&self.peers[i]);
            }
            i = i + 1;
        }
        proof {
            lemma_no_first_index(self@.peers, wanted);
        }
        None
    }

    /// Queues a command.
    pub fn queue(&mut self, command: Command, now: Duration)
        ensures
            final(self)@ == old(self)@.queued(now, command@),
    {
        self.outbox.push((now, command));
        assert(self@.outbox =~= old(self)@.outbox.push((now, command@)));
    }

    /// Queues a command that is answered under the next number.
    fn request(&mut self, command: Command, now: Duration) -> (r: MsgCounter)
        ensures
            r == old(self)@.counter(),
            final(self)@ == old(self)@.requested(now, command@),
    {
        let counter = MsgCounter(self.next);
        self.outbox.push((now, command));
        self.next = if self.next == u64::MAX {
            0
        } else {
            self.next + 1
        };
        assert(self@.outbox =~= old(self)@.outbox.push((now, command@)));
        counter
    }

    /// Asks a peer for a function's data.
    pub fn read(
        &mut self,
        to: &FeatureAddress,
        from: &FeatureAddress,
        function: Function,
        now: Duration,
    ) -> (r: MsgCounter)
        ensures
            r == old(self)@.counter(),
            final(self)@ == old(self)@.reading(to@, from@, function, now),
    {
        let counter = MsgCounter(self.next);
        self.request(Command::Read { counter, to: to.copy(), from: from.copy(), function }, now)
    }

    /// Asks a peer to be told of changes.
    pub fn request_subscription(
        &mut self,
        client: &FeatureAddress,
        server: &FeatureAddress,
        now: Duration,
    ) -> (r: MsgCounter)
        ensures
            r == old(self)@.counter(),
            final(self)@ == old(self)@.subscribing(client@, server@, now),
    {
        let counter = MsgCounter(self.next);
        self.request(
            Command::Subscribe { counter, client: client.copy(), server: server.copy() },
            now,
        )
    }

    /// Asks a peer for the right to write.
    pub fn request_binding(
        &mut self,
        client: &FeatureAddress,
        server: &FeatureAddress,
        now: Duration,
    ) -> (r: MsgCounter)
        ensures
            r == old(self)@.counter(),
            final(self)@ == old(self)@.binding(client@, server@, now),
    {
        let counter = MsgCounter(self.next);
        self.request(
            Command::Bind { counter, client: client.copy(), server: server.copy() },
            now,
        )
    }

    /// Writes a peer's data: only the elements that are given.
    pub fn write(
        &mut self,
        to: &FeatureAddress,
        from: &FeatureAddress,
        data: CmdData,
        now: Duration,
    ) -> (r: MsgCounter)
        ensures
            r == old(self)@.counter(),
            final(self)@ == old(self)@.writing(to@, from@, data@, partial_only(), now),
    {
        let filters = vec![Filter::partial()];
        assert(filters@ =~= partial_only());
        self.write_filtered(to, from, data, filters, now)
    }

    /// Writes the part of a peer's data that the filters leave.
    pub fn write_filtered(
        &mut self,
        to: &FeatureAddress,
        from: &FeatureAddress,
        data: CmdData,
        filters: Vec<Filter>,
        now: Duration,
    ) -> (r: MsgCounter)
        ensures
            r == old(self)@.counter(),
            final(self)@ == old(self)@.writing(to@, from@, data@, filters@, now),
    {
        let counter = MsgCounter(self.next);
        self.request(
            Command::Write { counter, to: to.copy(), from: from.copy(), data, filters },
            now,
        )
    }

    /// Holds this as the data of an own feature.
    pub fn publish(&mut self, feature: &FeatureAddress, data: CmdData, notify: bool, now: Duration)
        ensures
            final(self)@ == old(self)@.publishing(feature@, data@, notify, now),
    {
        self.queue(Command::Publish { feature: feature.copy(), data, notify }, now);
    }

    /// Accepts a write that waits for an answer.
    pub fn accept_write(&mut self, token: WriteToken, now: Duration)
        ensures
            final(self)@ == old(self)@.queued(now, CommandView::Accept { token }),
    {
        self.queue(Command::Accept { token }, now);
    }

    /// Refuses a write that waits for an answer.
    pub fn reject_write(&mut self, token: WriteToken, error: ErrorNumber, now: Duration)
        ensures
            final(self)@ == old(self)@.queued(now, CommandView::Reject { token, error }),
    {
        self.queue(Command::Reject { token, error }, now);
    }

    /// Lets one peer entity alone hold the bindings of both features.
    pub fn bind_features_together(
        &mut self,
        one: &FeatureAddress,
        other: &FeatureAddress,
        now: Duration,
    )
        ensures
            final(self)@ == old(self)@.queued(
                now,
                CommandView::BindTogether { one: one@, other: other@ },
            ),
    {
        self.queue(Command::BindTogether { one: one.copy(), other: other.copy() }, now);
    }
}

/// A write that a peer asks for.
#[derive(Clone, Debug, PartialEq, Eq)]
pub struct WriteRequest {
    /// The own feature that is addressed.
    pub feature: FeatureAddress,
    /// The handle for the answer.
    pub token: WriteToken,
    /// The number of the request.
    pub request: MsgCounter,
    /// The peer's feature.
    pub from: FeatureAddress,
    /// What was sent.
    pub data: CmdData,
    /// What the data would be once it is applied.
    pub resolved: CmdData,
}

/// Something that happened on the node.
#[derive(Clone, Debug, PartialEq, Eq)]
pub enum SpineEvent {
    /// A peer's detailed discovery was read.
    DiscoveryUpdated {
        /// The peer.
        device: AddressDevice,
    },
    /// A peer's use cases were read.
    UseCasesUpdated {
        /// The peer.
        device: AddressDevice,
    },
    /// A peer told of a change.
    DataNotified {
        /// The peer's feature.
        feature: FeatureAddress,
        /// Its data after the change.
        resolved: CmdData,
    },
    /// A peer answered a read.
    ReplyReceived {
        /// The peer's feature.
        feature: FeatureAddress,
        /// Its data.
        resolved: CmdData,
    },
    /// A peer was granted the right to write.
    BindingGranted {
        /// The peer's feature.
        client: FeatureAddress,
        /// The own feature.
        server: FeatureAddress,
    },
    /// A peer lost the right to write.
    BindingReleased {
        /// The peer's feature.
        client: FeatureAddress,
        /// The own feature.
        server: FeatureAddress,
    },
    /// A peer subscribed.
    SubscriptionGranted {
        /// The peer's feature.
        client: FeatureAddress,
        /// The own feature.
        server: FeatureAddress,
    },
    /// A request was answered.
    ResultReceived {
        /// The number of the request.
        request: MsgCounter,
        /// The answer.
        error: ErrorNumber,
    },
    /// A request was never answered.
    RequestTimedOut {
        /// The number of the request.
        request: MsgCounter,
    },
    /// A peer asks for a write.
    WriteRequested(WriteRequest),
    /// Anything else.
    Other,
}

/// How often a heartbeat is sent, in nanoseconds.
pub const HEARTBEAT_PERIOD: u128 = 60_000_000_000;

/// After how many nanoseconds of silence a peer's heartbeat counts as lost.
pub const HEARTBEAT_LOST_AFTER: u128 = 120_000_000_000;

/// Sends heartbeats.
#[derive(Clone, Copy, Debug, PartialEq, Eq, Structural)]
pub struct HeartbeatProducer {
    /// When the next one is due.
    pub next: Duration,
    /// How many were sent.
    pub counter: u64,
}

impl HeartbeatProducer {
    /// After one more heartbeat.
    pub open spec fn beaten(self, now: Duration) -> HeartbeatProducer {
        HeartbeatProducer {
            next: after(now, HEARTBEAT_PERIOD as int),
            counter: if self.counter == u64::MAX {
                0
            } else {
                (self.counter + 1) as u64
            },
        }
    }

    /// The command of the next heartbeat.
    pub open spec fn beat(self, feature: FeatureAddressView) -> CommandView {
        CommandView::Beat { feature, counter: self.counter }
    }

    /// Whether a heartbeat is due.
    pub open spec fn due(self, now: Duration) -> bool {
        self.next.nanos <= now.nanos
    }

    /// The first heartbeat is due one period after `now`.
    pub fn new(now: Duration) -> (r: HeartbeatProducer)
        ensures
            r == (HeartbeatProducer { next: after(now, HEARTBEAT_PERIOD as int), counter: 0 }),
    {
        HeartbeatProducer {
            next: now.saturating_add(Duration { nanos: HEARTBEAT_PERIOD }),
            counter: 0,
        }
    }

    /// The next heartbeat is due at `at`.
    #[must_use]
    pub fn due_at(self, at: Duration) -> (r: HeartbeatProducer)
        ensures
            r == (HeartbeatProducer { next: at, ..self }),
    {
        HeartbeatProducer { next: at, ..self }
    }

    /// When the next heartbeat is due.
    pub fn poll_timeout(&self) -> (r: Duration)
        ensures
            r == self.next,
    {
        self.next
    }

    /// Sends a heartbeat now.
    pub fn beat_now(&mut self, engine: &mut Engine, feature: &FeatureAddress, now: Duration)
        ensures
            *final(self) == old(self).beaten(now),
            final(engine)@ == old(engine)@.queued(now, old(self).beat(feature@)),
    {
        engine.queue(Command::Beat { feature: feature.copy(), counter: self.counter }, now);
        self.counter = if self.counter == u64::MAX {
            0
        } else {
            self.counter + 1
        };
        self.next = now.saturating_add(Duration { nanos: HEARTBEAT_PERIOD });
    }

    /// Sends a heartbeat if one is due, and says whether it did.
    pub fn tick(&mut self, engine: &mut Engine, feature: &FeatureAddress, now: Duration) -> (r:
        bool)
        ensures
            r == old(self).due(now),
            *final(self) == if r {
                old(self).beaten(now)
            } else {
                *old(self)
            },
            final(engine)@ == if r {
                old(engine)@.queued(now, old(self).beat(feature@))
            } else {
                old(engine)@
            },
    {
        if self.next.nanos <= now.nanos {
            self.beat_now(engine, feature, now);
            true
        } else {
            false
        }
    }
}

/// Watches a peer's heartbeat.
#[derive(Clone, Copy, Debug, PartialEq, Eq, Structural)]
pub struct HeartbeatMonitor {
    /// When the peer was last heard.
    pub heard_at: Option<Duration>,
    /// Whether its silence was reported.
    pub lost: bool,
}

impl HeartbeatMonitor {
    /// Whether the peer has just been quiet for too long.
    pub open spec fn overdue(self, now: Duration) -> bool {
        !self.lost && (self.heard_at matches Some(at) && elapsed(now, at) >= HEARTBEAT_LOST_AFTER)
    }

    /// After a payload arrived.
    pub open spec fn observed(self, data: Payload, now: Duration) -> HeartbeatMonitor {
        if data is DeviceDiagnosisHeartbeatData {
            HeartbeatMonitor { heard_at: Some(now), lost: false }
        } else {
            self
        }
    }

    /// Nothing heard yet.
    pub fn new() -> (r: HeartbeatMonitor)
        ensures
            r == (HeartbeatMonitor { heard_at: None, lost: false }),
    {
        HeartbeatMonitor { heard_at: None, lost: false }
    }

    /// Takes note of a heartbeat, and says whether the payload was one.
    pub fn observe_data(&mut self, data: &CmdData, now: Duration) -> (r: bool)
        ensures
            r == (data@ is DeviceDiagnosisHeartbeatData),
            *final(self) == old(self).observed(data@, now),
    {
        match data {
            CmdData::DeviceDiagnosisHeartbeatData(_) => {
                self.heard_at = Some(now);
                self.lost = false;
                true
            },
            _ => false,
        }
    }

    /// Says, once, that the peer has been quiet for too long.
    pub fn handle_timeout(&mut self, now: Duration) -> (r: bool)
        ensures
            r == old(self).overdue(now),
            *final(self) == (HeartbeatMonitor { lost: old(self).lost || r, ..*old(self) }),
    {
        if self.lost {
            return false;
        }
        match self.heard_at {
            Some(at) => {
                if now.saturating_sub(at).nanos >= HEARTBEAT_LOST_AFTER {
                    self.lost = true;
                    true
                } else {
                    false
                }
            },
            None => false,
        }
    }
}

} // verus!
