//! What a use case consists of: its actors, its scenarios, and the functions each scenario needs.

use crate::model::{EntityType, FeatureType, Function, Role};
use crate::seqs::{includes, lemma_take_next};
use crate::time::Duration;
use vstd::prelude::*;

verus! {

/// Which side of a use case an actor plays.
#[derive(Clone, Copy, Debug, PartialEq, Eq, Structural)]
pub enum ActorRole {
    /// The side that asks.
    Client,
    /// The side that answers.
    Server,
}

/// How strongly a scenario is asked for.
#[derive(Clone, Copy, Debug, PartialEq, Eq, Structural)]
pub enum Support {
    /// It has to be there.
    Mandatory,
    /// It should be there.
    Recommended,
    /// It may be there.
    Optional,
}

/// When a function's data is sent.
#[derive(Clone, Copy, Debug, PartialEq, Eq, Structural)]
pub enum Delivery {
    /// When it changes.
    OnChange,
    /// At least this often, whether it changed or not.
    Periodic(Duration),
}

/// A function that a scenario needs, and how it is used.
#[derive(Clone, Copy, Debug, PartialEq, Eq, Structural)]
pub struct FunctionUse {
    /// The feature that carries it.
    pub feature: FeatureType,
    /// The function.
    pub function: Function,
    /// On which side the actor that needs it stands.
    pub role: Role,
    /// Whether it is written.
    pub writes: bool,
    /// Whether a write needs a binding.
    pub binding: bool,
    /// When it is sent.
    pub delivery: Delivery,
}

/// A function that is served and read.
pub open spec fn served(feature: FeatureType, function: Function) -> FunctionUse {
    FunctionUse {
        feature,
        function,
        role: Role::Server,
        writes: false,
        binding: false,
        delivery: Delivery::OnChange,
    }
}

/// A function that a client reads.
pub open spec fn asked(feature: FeatureType, function: Function) -> FunctionUse {
    FunctionUse { role: Role::Client, ..served(feature, function) }
}

/// The same use, where the function is written over a binding.
pub open spec fn written(function_use: FunctionUse) -> FunctionUse {
    FunctionUse { writes: true, binding: true, ..function_use }
}

/// The same use, where the function is written without a binding.
pub open spec fn written_unbound(function_use: FunctionUse) -> FunctionUse {
    FunctionUse { writes: true, binding: false, ..function_use }
}

/// The same use, where the function is sent at least every `nanos` nanoseconds.
pub open spec fn sent_every(function_use: FunctionUse, nanos: u128) -> FunctionUse {
    FunctionUse { delivery: Delivery::Periodic(Duration { nanos }), ..function_use }
}

impl FunctionUse {
    /// A function that is served and read.
    pub fn server(feature: FeatureType, function: Function) -> (r: FunctionUse)
        ensures
            r == served(feature, function),
    {
        FunctionUse {
            feature,
            function,
            role: Role::Server,
            writes: false,
            binding: false,
            delivery: Delivery::OnChange,
        }
    }

    /// A function that is served, and written over a binding.
    pub fn server_writeable(feature: FeatureType, function: Function) -> (r: FunctionUse)
        ensures
            r == written(served(feature, function)),
    {
        FunctionUse { writes: true, binding: true, ..FunctionUse::server(feature, function) }
    }

    /// A function that is served, and written without a binding.
    pub fn server_writeable_unbound(feature: FeatureType, function: Function) -> (r: FunctionUse)
        ensures
            r == written_unbound(served(feature, function)),
    {
        FunctionUse { writes: true, binding: false, ..FunctionUse::server(feature, function) }
    }

    /// A function that a client reads.
    pub fn client(feature: FeatureType, function: Function) -> (r: FunctionUse)
        ensures
            r == asked(feature, function),
    {
        FunctionUse { role: Role::Client, ..FunctionUse::server(feature, function) }
    }

    /// A function that a client writes over a binding.
    pub fn client_writes(feature: FeatureType, function: Function) -> (r: FunctionUse)
        ensures
            r == written(asked(feature, function)),
    {
        FunctionUse { writes: true, binding: true, ..FunctionUse::client(feature, function) }
    }

    /// A function that a client writes without a binding.
    pub fn client_writes_unbound(feature: FeatureType, function: Function) -> (r: FunctionUse)
        ensures
            r == written_unbound(asked(feature, function)),
    {
        FunctionUse { writes: true, binding: false, ..FunctionUse::client(feature, function) }
    }

    /// The same use, where the function is sent at least every `nanos` nanoseconds.
    #[must_use]
    pub fn periodic(self, nanos: u128) -> (r: FunctionUse)
        ensures
            r == sent_every(self, nanos),
    {
        FunctionUse { delivery: Delivery::Periodic(Duration { nanos }), ..self }
    }
}

/// One scenario of a use case.
#[derive(Clone, Debug, PartialEq, Eq)]
pub struct Scenario {
    /// Its number.
    pub number: u32,
    /// Its name.
    pub name: &'static str,
    /// How strongly it is asked for.
    pub support: Support,
    /// The functions it needs.
    pub functions: Vec<FunctionUse>,
}

/// The content of a [`Scenario`].
pub struct ScenarioView {
    /// Its number.
    pub number: u32,
    /// Its name.
    pub name: Seq<char>,
    /// How strongly it is asked for.
    pub support: Support,
    /// The functions it needs.
    pub functions: Seq<FunctionUse>,
}

impl View for Scenario {
    type V = ScenarioView;

    open spec fn view(&self) -> ScenarioView {
        ScenarioView {
            number: self.number,
            name: self.name@,
            support: self.support,
            functions: self.functions@,
        }
    }
}

impl ScenarioView {
    /// Whether an implementation is expected to have it.
    pub open spec fn required(self) -> bool {
        !(self.support is Optional)
    }
}

/// A scenario as a mathematical value.
pub open spec fn scenario(
    number: u32,
    name: Seq<char>,
    support: Support,
    functions: Seq<FunctionUse>,
) -> ScenarioView {
    ScenarioView { number, name, support, functions }
}

impl Scenario {
    /// A scenario.
    pub fn new(
        number: u32,
        name: &'static str,
        support: Support,
        functions: Vec<FunctionUse>,
    ) -> (r: Scenario)
        ensures
            r@ == scenario(number, name@, support, functions@),
    {
        Scenario { number, name, support, functions }
    }
}

/// One actor of a use case.
#[derive(Clone, Debug, PartialEq, Eq)]
pub struct UseCaseDescriptor {
    /// The name of the use case.
    pub name: &'static str,
    /// The name of the actor.
    pub actor: &'static str,
    /// Which side the actor plays.
    pub role: ActorRole,
    /// The version of the use case.
    pub version: &'static str,
    /// The sub-revision of its document.
    pub document_sub_revision: &'static str,
    /// The entities the actor may sit on; any, if there are none.
    pub entity_types: Vec<EntityType>,
    /// The actor on the other side.
    pub counterpart: &'static str,
    /// The scenarios.
    pub scenarios: Vec<Scenario>,
}

/// The content of a [`UseCaseDescriptor`].
pub struct DescriptorView {
    /// The name of the use case.
    pub name: Seq<char>,
    /// The name of the actor.
    pub actor: Seq<char>,
    /// Which side the actor plays.
    pub role: ActorRole,
    /// The version of the use case.
    pub version: Seq<char>,
    /// The sub-revision of its document.
    pub document_sub_revision: Seq<char>,
    /// The entities the actor may sit on; any, if there are none.
    pub entity_types: Seq<EntityType>,
    /// The actor on the other side.
    pub counterpart: Seq<char>,
    /// The scenarios.
    pub scenarios: Seq<ScenarioView>,
}

/// The contents of scenarios.
pub open spec fn scenario_views(scenarios: Seq<Scenario>) -> Seq<ScenarioView> {
    scenarios.map_values(|scenario: Scenario| scenario@)
}

impl View for UseCaseDescriptor {
    type V = DescriptorView;

    open spec fn view(&self) -> DescriptorView {
        DescriptorView {
            name: self.name@,
            actor: self.actor@,
            role: self.role,
            version: self.version@,
            document_sub_revision: self.document_sub_revision@,
            entity_types: self.entity_types@,
            counterpart: self.counterpart@,
            scenarios: scenario_views(self.scenarios@),
        }
    }
}

/// Every function use of the scenarios, in order.
pub open spec fn all_uses(scenarios: Seq<ScenarioView>) -> Seq<FunctionUse>
    decreases scenarios.len(),
{
    if scenarios.len() == 0 {
        Seq::empty()
    } else {
        all_uses(scenarios.drop_last()) + scenarios.last().functions
    }
}

/// Takes up a function that is served, unless it is in the list.
pub open spec fn take_up_served(
    found: Seq<(FeatureType, Function)>,
    function_use: FunctionUse,
) -> Seq<(FeatureType, Function)> {
    let pair = (function_use.feature, function_use.function);
    if function_use.role is Server && !found.contains(pair) {
        found.push(pair)
    } else {
        found
    }
}

/// Takes up a feature that is written over a binding, unless it is in the list.
pub open spec fn take_up_bound(found: Seq<FeatureType>, function_use: FunctionUse) -> Seq<
    FeatureType,
> {
    if function_use.writes && function_use.binding && !found.contains(function_use.feature) {
        found.push(function_use.feature)
    } else {
        found
    }
}

impl DescriptorView {
    /// The functions that the actor serves, each once, in the order of the scenarios.
    pub open spec fn server_functions(self) -> Seq<(FeatureType, Function)> {
        all_uses(self.scenarios).fold_left(
            Seq::empty(),
            |found: Seq<(FeatureType, Function)>, function_use: FunctionUse|
                take_up_served(found, function_use),
        )
    }

    /// The features that are written over a binding, each once.
    pub open spec fn bound_features(self) -> Seq<FeatureType> {
        all_uses(self.scenarios).fold_left(
            Seq::empty(),
            |found: Seq<FeatureType>, function_use: FunctionUse|
                take_up_bound(found, function_use),
        )
    }

    /// The numbers of the scenarios that an implementation is expected to have.
    pub open spec fn required(self) -> Seq<u32> {
        self.scenarios.filter(|scenario: ScenarioView| scenario.required()).map_values(
            |scenario: ScenarioView| scenario.number,
        )
    }

    /// Whether the actor may sit on such an entity.
    pub open spec fn permits(self, entity_type: EntityType) -> bool {
        self.entity_types.len() == 0 || self.entity_types.contains(entity_type)
    }
}

impl UseCaseDescriptor {
    /// An actor of a released use case in its first version.
    pub fn released(
        name: &'static str,
        actor: &'static str,
        role: ActorRole,
        entity_types: Vec<EntityType>,
        counterpart: &'static str,
        scenarios: Vec<Scenario>,
    ) -> (r: UseCaseDescriptor)
        ensures
            r@ == first_release(
                name@,
                actor@,
                role,
                entity_types@,
                counterpart@,
                scenario_views(scenarios@),
            ),
    {
        UseCaseDescriptor {
            name,
            actor,
            role,
            version: "1.0.0",
            document_sub_revision: "release",
            entity_types,
            counterpart,
            scenarios,
        }
    }

    /// The name of the use case.
    pub fn use_case_name(&self) -> (r: &'static str)
        ensures
            r@ == self@.name,
    {
        self.name
    }

    /// The name of the actor.
    pub fn use_case_actor(&self) -> (r: &'static str)
        ensures
            r@ == self@.actor,
    {
        self.actor
    }

    /// Whether the actor may sit on such an entity.
    pub fn permits_entity(&self, entity_type: EntityType) -> (r: bool)
        ensures
            r == self@.permits(entity_type),
    {
        self.entity_types.len() == 0 || includes(
            &self.entity_types,
            |other: &EntityType| -> (b: bool)
                ensures
                    b == (*other == entity_type)
                { *other == entity_type },
            Ghost(entity_type),
        )
    }

    /// The numbers of the scenarios that an implementation is expected to have: the mandatory
    /// and the recommended ones.
    pub fn required_scenarios(&self) -> (r: Vec<u32>)
        ensures
            r@ == self@.required(),
    {
        let ghost views = scenario_views(self.scenarios@);
        let ghost wanted = |scenario: ScenarioView| scenario.required();
        let ghost number = |scenario: ScenarioView| scenario.number;
        let mut numbers: Vec<u32> = Vec::new();
        let mut i: usize = 0;
        assert(views.take(0).filter(wanted).map_values(number) =~= Seq::empty()) by {
            reveal(Seq::filter);
        }
        while i < self.scenarios.len()
            invariant
                i <= self.scenarios@.len(),
                views == scenario_views(self.scenarios@),
                wanted == (|scenario: ScenarioView| scenario.required()),
                number == (|scenario: ScenarioView| scenario.number),
                numbers@ == views.take(i as int).filter(wanted).map_values(number),
            decreases self.scenarios@.len() - i,
        {
            proof {
                reveal(Seq::filter);
                lemma_take_next(views, i as int);
                let before = views.take(i as int).filter(wanted);
                assert(before.push(views[i as int]).map_values(number) =~= before.map_values(
                    number,
                ).push(views[i as int].number));
            }
            match self.scenarios[i].support {
                Support::Optional => {},
                _ => {
                    numbers.push(self.scenarios[i].number);
                },
            }
            i = i + 1;
        }
        assert(views.take(i as int) =~= views);
        numbers
    }

    /// Every function use of the scenarios, in order.
    fn uses(&self) -> (r: Vec<FunctionUse>)
        ensures
            r@ == all_uses(self@.scenarios),
    {
        let ghost views = scenario_views(self.scenarios@);
        let mut uses: Vec<FunctionUse> = Vec::new();
        let mut i: usize = 0;
        assert(views.take(0) =~= Seq::empty());
        while i < self.scenarios.len()
            invariant
                i <= self.scenarios@.len(),
                views == scenario_views(self.scenarios@),
                uses@ == all_uses(views.take(i as int)),
            decreases self.scenarios@.len() - i,
        {
            let functions = &self.scenarios[i].functions;
            let mut j: usize = 0;
            assert(functions@.take(0) =~= Seq::empty());
            while j < functions.len()
                invariant
                    j <= functions@.len(),
                    uses@ == all_uses(views.take(i as int)) + functions@.take(j as int),
                decreases functions@.len() - j,
            {
                proof {
                    lemma_take_next(functions@, j as int);
                }
                uses.push(functions[j]);
                assert(uses@ =~= all_uses(views.take(i as int)) + functions@.take(j + 1));
                j = j + 1;
            }
            assert(functions@.take(j as int) =~= functions@);
            proof {
                lemma_take_next(views, i as int);
            }
            i = i + 1;
        }
        assert(views.take(i as int) =~= views);
        uses
    }

    /// The functions that the actor serves, each once, in the order of the scenarios.
    pub fn server_functions(&self) -> (r: Vec<(FeatureType, Function)>)
        ensures
            r@ == self@.server_functions(),
    {
        let uses = self.uses();
        let ghost step = |found: Seq<(FeatureType, Function)>, function_use: FunctionUse|
            take_up_served(found, function_use);
        let mut found: Vec<(FeatureType, Function)> = Vec::new();
        let mut i: usize = 0;
        assert(uses@.take(0) =~= Seq::empty());
        assert(found@ =~= Seq::empty());
        while i < uses.len()
            invariant
                i <= uses@.len(),
                step == (|found: Seq<(FeatureType, Function)>, function_use: FunctionUse|
                    take_up_served(found, function_use)),
                found@ == uses@.take(i as int).fold_left(Seq::empty(), step),
            decreases uses@.len() - i,
        {
            proof {
                lemma_take_next(uses@, i as int);
            }
            let pair = (uses[i].feature, uses[i].function);
            let known = includes(
                &found,
                |other: &(FeatureType, Function)| -> (b: bool)
                    ensures
                        b == (*other == pair)
                    { other.0 == pair.0 && other.1 == pair.1 },
                Ghost(pair),
            );
            if uses[i].role == Role::Server && !known {
                found.push(pair);
            }
            i = i + 1;
        }
        assert(uses@.take(i as int) =~= uses@);
        found
    }

    /// The features that are written over a binding, each once.
    pub fn features_needing_binding(&self) -> (r: Vec<FeatureType>)
        ensures
            r@ == self@.bound_features(),
    {
        let uses = self.uses();
        let ghost step = |found: Seq<FeatureType>, function_use: FunctionUse|
            take_up_bound(found, function_use);
        let mut found: Vec<FeatureType> = Vec::new();
        let mut i: usize = 0;
        assert(uses@.take(0) =~= Seq::empty());
        assert(found@ =~= Seq::empty());
        while i < uses.len()
            invariant
                i <= uses@.len(),
                step == (|found: Seq<FeatureType>, function_use: FunctionUse|
                    take_up_bound(found, function_use)),
                found@ == uses@.take(i as int).fold_left(Seq::empty(), step),
            decreases uses@.len() - i,
        {
            proof {
                lemma_take_next(uses@, i as int);
            }
            let feature = uses[i].feature;
            let known = includes(
                &found,
                |other: &FeatureType| -> (b: bool)
                    ensures
                        b == (*other == feature)
                    { *other == feature },
                Ghost(feature),
            );
            if uses[i].writes && uses[i].binding && !known {
                found.push(feature);
            }
            i = i + 1;
        }
        assert(uses@.take(i as int) =~= uses@);
        found
    }
}

/// An actor of a released use case in its first version.
pub open spec fn first_release(
    name: Seq<char>,
    actor: Seq<char>,
    role: ActorRole,
    entity_types: Seq<EntityType>,
    counterpart: Seq<char>,
    scenarios: Seq<ScenarioView>,
) -> DescriptorView {
    DescriptorView {
        name,
        actor,
        role,
        version: "1.0.0"@,
        document_sub_revision: "release"@,
        entity_types,
        counterpart,
        scenarios,
    }
}

} // verus!
