//! What a descriptor asks for, and which peers are found to answer it.

use super::descriptor::{
    all_uses, take_up_bound, take_up_served, DescriptorView, FunctionUse, ScenarioView,
};
use super::hvac::peer::{all_located, gathered, peer_found, peers_found, serves_modes_on, Subject};
use super::hvac::temperature::{measures_on, unit_found, units_found};
use super::monitoring::appliance::{located, UnitPeerView};
use crate::model::{EntityType, FeatureType, Function, Role};
use crate::seqs::{lemma_filtered, lemma_first_index};
use crate::spine::{RemoteDeviceView, RemoteUseCaseView};
use vstd::prelude::*;

verus! {

proof fn lemma_used(scenarios: Seq<ScenarioView>, scenario: int, place: int)
    requires
        0 <= scenario < scenarios.len(),
        0 <= place < scenarios[scenario].functions.len(),
    ensures
        all_uses(scenarios).contains(scenarios[scenario].functions[place]),
    decreases scenarios.len(),
{
    let rest = scenarios.drop_last();
    let before = all_uses(rest);
    let wanted = scenarios[scenario].functions[place];
    if scenario == scenarios.len() - 1 {
        assert(all_uses(scenarios)[before.len() + place] == wanted);
    } else {
        lemma_used(rest, scenario, place);
        let k = choose|k: int| 0 <= k < before.len() && before[k] == wanted;
        assert(all_uses(scenarios)[k] == wanted);
    }
}

proof fn lemma_used_by(scenarios: Seq<ScenarioView>, wanted: FunctionUse)
    requires
        all_uses(scenarios).contains(wanted),
    ensures
        exists|i: int|
            0 <= i < scenarios.len() && (#[trigger] scenarios[i]).functions.contains(wanted),
    decreases scenarios.len(),
{
    let rest = scenarios.drop_last();
    let before = all_uses(rest);
    let all = all_uses(scenarios);
    let k = choose|k: int| 0 <= k < all.len() && all[k] == wanted;
    if k < before.len() {
        assert(before[k] == wanted);
        lemma_used_by(rest, wanted);
        let i = choose|i: int|
            0 <= i < rest.len() && (#[trigger] rest[i]).functions.contains(wanted);
        assert(scenarios[i].functions.contains(wanted));
    } else {
        let last = scenarios[scenarios.len() - 1];
        assert(last.functions[k - before.len()] == wanted);
        assert(scenarios[scenarios.len() - 1].functions.contains(wanted));
    }
}

spec fn serving() -> spec_fn(Seq<(FeatureType, Function)>, FunctionUse) -> Seq<
    (FeatureType, Function),
> {
    |found: Seq<(FeatureType, Function)>, function_use: FunctionUse|
        take_up_served(found, function_use)
}

spec fn binding() -> spec_fn(Seq<FeatureType>, FunctionUse) -> Seq<FeatureType> {
    |found: Seq<FeatureType>, function_use: FunctionUse| take_up_bound(found, function_use)
}

proof fn lemma_taken_up_served(uses: Seq<FunctionUse>, pair: (FeatureType, Function))
    ensures
        uses.fold_left(Seq::<(FeatureType, Function)>::empty(), serving()).contains(pair)
            <==> exists|k: int|
            0 <= k < uses.len() && (#[trigger] uses[k]).role is Server && uses[k].feature == pair.0
                && uses[k].function == pair.1,
        uses.fold_left(Seq::<(FeatureType, Function)>::empty(), serving()).no_duplicates(),
    decreases uses.len(),
{
    if uses.len() > 0 {
        let rest = uses.drop_last();
        let last = uses[uses.len() - 1];
        lemma_taken_up_served(rest, pair);
        let before = rest.fold_left(Seq::<(FeatureType, Function)>::empty(), serving());
        let after = uses.fold_left(Seq::<(FeatureType, Function)>::empty(), serving());
        assert(after == take_up_served(before, last));
        let added = (last.feature, last.function);
        if last.role is Server && !before.contains(added) {
            assert(after[after.len() - 1] == added);
            assert(after.contains(pair) <==> before.contains(pair) || added == pair) by {
                if before.contains(pair) {
                    let k = choose|k: int| 0 <= k < before.len() && before[k] == pair;
                    assert(after[k] == pair);
                }
            }
        }
        if exists|k: int|
            0 <= k < uses.len() && (#[trigger] uses[k]).role is Server && uses[k].feature == pair.0
                && uses[k].function == pair.1 {
            let k = choose|k: int|
                0 <= k < uses.len() && (#[trigger] uses[k]).role is Server && uses[k].feature
                    == pair.0 && uses[k].function == pair.1;
            if k < rest.len() {
                assert(rest[k].role is Server);
            }
        }
        if before.contains(pair) {
            let k = choose|k: int|
                0 <= k < rest.len() && (#[trigger] rest[k]).role is Server && rest[k].feature
                    == pair.0 && rest[k].function == pair.1;
            assert(uses[k].role is Server);
        } else if after.contains(pair) {
            assert(uses[uses.len() - 1].role is Server);
        }
    }
}

proof fn lemma_taken_up_bound(uses: Seq<FunctionUse>, feature: FeatureType)
    ensures
        uses.fold_left(Seq::<FeatureType>::empty(), binding()).contains(feature) <==> exists|
            k: int,
        |
            0 <= k < uses.len() && (#[trigger] uses[k]).writes && uses[k].binding
                && uses[k].feature == feature,
    decreases uses.len(),
{
    if uses.len() > 0 {
        let rest = uses.drop_last();
        let last = uses[uses.len() - 1];
        lemma_taken_up_bound(rest, feature);
        let before = rest.fold_left(Seq::<FeatureType>::empty(), binding());
        let after = uses.fold_left(Seq::<FeatureType>::empty(), binding());
        assert(after == take_up_bound(before, last));
        if last.writes && last.binding && !before.contains(last.feature) {
            assert(after[after.len() - 1] == last.feature);
            assert(after.contains(feature) <==> before.contains(feature) || last.feature
                == feature) by {
                if before.contains(feature) {
                    let k = choose|k: int| 0 <= k < before.len() && before[k] == feature;
                    assert(after[k] == feature);
                }
            }
        }
        if exists|k: int|
            0 <= k < uses.len() && (#[trigger] uses[k]).writes && uses[k].binding && uses[k].feature
                == feature {
            let k = choose|k: int|
                0 <= k < uses.len() && (#[trigger] uses[k]).writes && uses[k].binding
                    && uses[k].feature == feature;
            if k < rest.len() {
                assert(rest[k].writes);
            }
        }
        if before.contains(feature) {
            let k = choose|k: int|
                0 <= k < rest.len() && (#[trigger] rest[k]).writes && rest[k].binding
                    && rest[k].feature == feature;
            assert(uses[k].writes);
        } else if after.contains(feature) {
            assert(uses[uses.len() - 1].writes);
        }
    }
}

/// What an actor serves is what its scenarios use as a server, each function once.
pub proof fn law_what_is_served_is_what_scenarios_serve(
    actor: DescriptorView,
    scenario: int,
    place: int,
    pair: (FeatureType, Function),
)
    ensures
        ({
            let uses = actor.scenarios[scenario].functions;
            &&& 0 <= scenario < actor.scenarios.len() && 0 <= place < uses.len()
                && uses[place].role is Server ==> actor.server_functions().contains(
                (uses[place].feature, uses[place].function),
            )
            &&& actor.server_functions().contains(pair) ==> exists|i: int, used: FunctionUse|
                0 <= i < actor.scenarios.len() && #[trigger] actor.scenarios[i].functions.contains(
                    used,
                ) && used.role is Server && used.feature == pair.0 && used.function == pair.1
            &&& actor.server_functions().no_duplicates()
        }),
{
    let all = all_uses(actor.scenarios);
    assert(actor.server_functions() == all.fold_left(
        Seq::<(FeatureType, Function)>::empty(),
        serving(),
    ));
    let uses = actor.scenarios[scenario].functions;
    if 0 <= scenario < actor.scenarios.len() && 0 <= place < uses.len()
        && uses[place].role is Server {
        lemma_used(actor.scenarios, scenario, place);
        lemma_taken_up_served(all, (uses[place].feature, uses[place].function));
        let k = choose|k: int| 0 <= k < all.len() && all[k] == uses[place];
        assert(all[k].role is Server);
    }
    lemma_taken_up_served(all, pair);
    if actor.server_functions().contains(pair) {
        let k = choose|k: int|
            0 <= k < all.len() && (#[trigger] all[k]).role is Server && all[k].feature == pair.0
                && all[k].function == pair.1;
        assert(all.contains(all[k]));
        lemma_used_by(actor.scenarios, all[k]);
        let i = choose|i: int|
            0 <= i < actor.scenarios.len() && (
            #[trigger] actor.scenarios[i]).functions.contains(all[k]);
        assert(actor.scenarios[i].functions.contains(all[k]));
    }
}

/// A binding is needed for a feature exactly if some scenario writes one of its functions over a
/// binding.
pub proof fn law_bindings_are_needed_where_something_is_written(
    actor: DescriptorView,
    scenario: int,
    place: int,
    feature: FeatureType,
)
    ensures
        ({
            let uses = actor.scenarios[scenario].functions;
            &&& 0 <= scenario < actor.scenarios.len() && 0 <= place < uses.len()
                && uses[place].writes && uses[place].binding ==> actor.bound_features().contains(
                uses[place].feature,
            )
            &&& actor.bound_features().contains(feature) ==> exists|i: int, used: FunctionUse|
                0 <= i < actor.scenarios.len() && #[trigger] actor.scenarios[i].functions.contains(
                    used,
                ) && used.writes && used.binding && used.feature == feature
        }),
{
    let all = all_uses(actor.scenarios);
    assert(actor.bound_features() == all.fold_left(Seq::<FeatureType>::empty(), binding()));
    let uses = actor.scenarios[scenario].functions;
    if 0 <= scenario < actor.scenarios.len() && 0 <= place < uses.len() && uses[place].writes
        && uses[place].binding {
        lemma_used(actor.scenarios, scenario, place);
        lemma_taken_up_bound(all, uses[place].feature);
        let k = choose|k: int| 0 <= k < all.len() && all[k] == uses[place];
        assert(all[k].writes);
    }
    lemma_taken_up_bound(all, feature);
    if actor.bound_features().contains(feature) {
        let k = choose|k: int|
            0 <= k < all.len() && (#[trigger] all[k]).writes && all[k].binding && all[k].feature
                == feature;
        assert(all.contains(all[k]));
        lemma_used_by(actor.scenarios, all[k]);
        let i = choose|i: int|
            0 <= i < actor.scenarios.len() && (
            #[trigger] actor.scenarios[i]).functions.contains(all[k]);
        assert(actor.scenarios[i].functions.contains(all[k]));
    }
}

/// The scenarios that an actor has to support are those that are mandatory or recommended.
pub proof fn law_all_but_optional_scenarios_are_required(
    actor: DescriptorView,
    scenario: int,
    number: u32,
)
    ensures
        0 <= scenario < actor.scenarios.len() && !(actor.scenarios[scenario].support is Optional)
            ==> actor.required().contains(actor.scenarios[scenario].number),
        actor.required().contains(number) ==> exists|i: int|
            0 <= i < actor.scenarios.len() && (#[trigger] actor.scenarios[i]).number == number
                && !(actor.scenarios[i].support is Optional),
{
    let wanted = |scenario: ScenarioView| scenario.required();
    let kept = actor.scenarios.filter(wanted);
    lemma_filtered(actor.scenarios, wanted);
    if 0 <= scenario < actor.scenarios.len() && !(actor.scenarios[scenario].support is Optional) {
        assert(wanted(actor.scenarios[scenario]));
        broadcast use vstd::seq_lib::group_filter_ensures;

        assert(kept.contains(actor.scenarios[scenario]));
        let k = choose|k: int| 0 <= k < kept.len() && kept[k] == actor.scenarios[scenario];
        assert(actor.required()[k] == actor.scenarios[scenario].number);
    }
    if actor.required().contains(number) {
        let k = choose|k: int| 0 <= k < actor.required().len() && actor.required()[k] == number;
        assert(wanted(kept[k]));
        assert(actor.scenarios.contains(kept[k]));
        let i = choose|i: int| 0 <= i < actor.scenarios.len() && actor.scenarios[i] == kept[k];
        assert(actor.scenarios[i].number == number);
    }
}

/// An actor may live on the entities it names, or on any where it names none.
pub proof fn law_actors_live_where_they_may(actor: DescriptorView, entity: EntityType)
    ensures
        actor.permits(entity) <==> actor.entity_types.len() == 0 || actor.entity_types.contains(
            entity,
        ),
{
}

/// A unit that is measured is found on the entity that announces it, with each of the three
/// features it has; one with neither values nor a curtailment to read is no use.
pub proof fn law_units_are_found_with_their_features(
    remote: RemoteDeviceView,
    use_case: Seq<char>,
    actor: Seq<char>,
)
    ensures
        ({
            let found = located(remote, use_case, actor);
            match remote.use_case(use_case, actor) {
                None => found is None,
                Some(announced) => {
                    let feature = |kind: FeatureType|
                        remote.address_of(announced, kind, Role::Server);
                    &&& found is Some <==> remote.address is Some && (feature(
                        FeatureType::Measurement,
                    ) is Some || feature(FeatureType::DeviceConfiguration) is Some)
                    &&& found matches Some(peer) ==> remote.address == Some(peer.device)
                        && peer.measurement == feature(FeatureType::Measurement)
                        && peer.curtailment == feature(FeatureType::DeviceConfiguration)
                        && peer.electrical_connection == feature(FeatureType::ElectricalConnection)
                },
            }
        }),
{
}

/// A unit is known by its device and the entity of its values, or else of its curtailment.
pub proof fn law_units_are_known_by_their_entity(peer: UnitPeerView)
    ensures
        peer.unit().device == peer.device,
        peer.measurement matches Some(feature) ==> peer.unit().entity == feature.path(),
        peer.measurement is None ==> (peer.curtailment matches Some(feature) ==> peer.unit().entity
            == feature.path()),
{
}

proof fn lemma_units_stay(
    remote: RemoteDeviceView,
    announced: Seq<RemoteUseCaseView>,
    use_case: Seq<char>,
    actor: Seq<char>,
    at: int,
    feature: crate::address::FeatureAddressView,
)
    requires
        0 <= at < announced.len(),
        announced[at].name == use_case && announced[at].actor == actor,
        remote.address_of(announced[at], FeatureType::Measurement, Role::Server) == Some(feature),
    ensures
        exists|i: int|
            0 <= i < units_found(remote, announced, use_case, actor).len() && (
            #[trigger] units_found(remote, announced, use_case, actor)[i]).measurement == Some(
                feature,
            ),
    decreases announced.len(),
{
    let rest = announced.drop_last();
    let before = units_found(remote, rest, use_case, actor);
    let after = units_found(remote, announced, use_case, actor);
    assert(after == unit_found(
        remote,
        before,
        announced[announced.len() - 1],
        use_case,
        actor,
    ));
    if at < rest.len() {
        assert(rest[at] == announced[at]);
        lemma_units_stay(remote, rest, use_case, actor, at, feature);
        let i = choose|i: int|
            0 <= i < before.len() && (#[trigger] before[i]).measurement == Some(feature);
        assert(after[i] == before[i]);
    } else {
        lemma_first_index(before, measures_on(feature));
        if let Some(i) = crate::seqs::first_index(before, measures_on(feature)) {
            assert(measures_on(feature)(before[i]));
            assert(after[i].measurement == Some(feature));
        } else {
            assert(after[after.len() - 1].measurement == Some(feature));
        }
    }
}

/// Every thermometer that a device announces is found, on the feature that serves its values, and
/// what is found measures on its own device.
pub proof fn law_every_announced_thermometer_is_found(
    remote: RemoteDeviceView,
    use_case: Seq<char>,
    actor: Seq<char>,
    at: int,
    feature: crate::address::FeatureAddressView,
)
    requires
        remote.address is Some,
        0 <= at < remote.use_cases.len(),
        remote.use_cases[at].name == use_case && remote.use_cases[at].actor == actor,
        remote.address_of(remote.use_cases[at], FeatureType::Measurement, Role::Server) == Some(
            feature,
        ),
    ensures
        exists|i: int|
            0 <= i < super::hvac::temperature::all_located(remote, use_case, actor).len() && (
            #[trigger] super::hvac::temperature::all_located(
                remote,
                use_case,
                actor,
            )[i]).measurement == Some(feature),
{
    lemma_units_stay(remote, remote.use_cases, use_case, actor, at, feature);
    let found = super::hvac::temperature::all_located(remote, use_case, actor);
    assert(found == units_found(remote, remote.use_cases, use_case, actor));
    let i = choose|i: int|
        0 <= i < units_found(remote, remote.use_cases, use_case, actor).len() && (
        #[trigger] units_found(remote, remote.use_cases, use_case, actor)[i]).measurement == Some(
            feature,
        );
    assert(found[i].measurement == Some(feature));
}

proof fn lemma_peers_stay(
    remote: RemoteDeviceView,
    announced: Seq<RemoteUseCaseView>,
    descriptor: DescriptorView,
    subject: Subject,
    at: int,
    feature: crate::address::FeatureAddressView,
)
    requires
        0 <= at < announced.len(),
        announced[at].name == descriptor.name && announced[at].actor == descriptor.actor,
        gathered(remote, announced[at], descriptor.server_functions()) matches Some(all)
            && all.hvac == Some(feature),
    ensures
        exists|i: int|
            0 <= i < peers_found(remote, announced, descriptor, subject).len() && (
            #[trigger] peers_found(remote, announced, descriptor, subject)[i]).hvac == feature,
    decreases announced.len(),
{
    let rest = announced.drop_last();
    let before = peers_found(remote, rest, descriptor, subject);
    let after = peers_found(remote, announced, descriptor, subject);
    assert(after == peer_found(
        remote,
        before,
        announced[announced.len() - 1],
        descriptor,
        subject,
    ));
    if at < rest.len() {
        assert(rest[at] == announced[at]);
        lemma_peers_stay(remote, rest, descriptor, subject, at, feature);
        let i = choose|i: int| 0 <= i < before.len() && (#[trigger] before[i]).hvac == feature;
        assert(after[i] == before[i]);
    } else {
        lemma_first_index(before, serves_modes_on(feature));
        if let Some(i) = crate::seqs::first_index(before, serves_modes_on(feature)) {
            assert(serves_modes_on(feature)(before[i]));
            assert(after[i].hvac == feature);
        } else {
            assert(after[after.len() - 1].hvac == feature);
        }
    }
}

/// Every unit of heating, hot water or cooling that a device announces, and that has every feature
/// the use case asks for, is found.
pub proof fn law_every_announced_unit_is_found(
    remote: RemoteDeviceView,
    descriptor: DescriptorView,
    subject: Subject,
    at: int,
    feature: crate::address::FeatureAddressView,
)
    requires
        remote.address is Some,
        0 <= at < remote.use_cases.len(),
        remote.use_cases[at].name == descriptor.name && remote.use_cases[at].actor
            == descriptor.actor,
        gathered(remote, remote.use_cases[at], descriptor.server_functions()) matches Some(all)
            && all.hvac == Some(feature),
    ensures
        exists|i: int|
            0 <= i < all_located(remote, descriptor, subject).len() && (#[trigger] all_located(
                remote,
                descriptor,
                subject,
            )[i]).hvac == feature,
{
    lemma_peers_stay(remote, remote.use_cases, descriptor, subject, at, feature);
    let found = all_located(remote, descriptor, subject);
    assert(found == peers_found(remote, remote.use_cases, descriptor, subject));
    let i = choose|i: int|
        0 <= i < peers_found(remote, remote.use_cases, descriptor, subject).len() && (
        #[trigger] peers_found(remote, remote.use_cases, descriptor, subject)[i]).hvac == feature;
    assert(found[i].hvac == feature);
}

/// What is gathered for a use case is complete: every feature that it asks for is there, its modes
/// and its setpoints are on those features, and every function that is served is read.
pub proof fn law_what_is_gathered_is_complete(
    remote: RemoteDeviceView,
    played: RemoteUseCaseView,
    functions: Seq<(FeatureType, Function)>,
    at: int,
)
    requires
        0 <= at < functions.len(),
    ensures
        ({
            let found = gathered(remote, played, functions);
            let feature = remote.feature_for(played, functions[at].0, Role::Server);
            &&& feature is None ==> found is None
            &&& found matches Some(all) ==> (feature matches Some(feature) && (functions[at].0
                is HVAC ==> all.hvac == Some(feature.address)) && (functions[at].0 is Setpoint
                ==> all.setpoint == Some(feature.address)) && (feature.may_serve(functions[at].1)
                ==> all.reads.contains((feature.address, functions[at].1))))
        }),
    decreases functions.len(),
{
    let rest = functions.drop_last();
    let found = gathered(remote, played, functions);
    let last = functions[functions.len() - 1];
    if at < rest.len() {
        assert(rest[at] == functions[at]);
        law_what_is_gathered_is_complete(remote, played, rest, at);
        if let Some(all) = found {
            let before = gathered(remote, played, rest)->0;
            let feature = remote.feature_for(played, functions[at].0, Role::Server)->0;
            if feature.may_serve(functions[at].1) {
                let wanted = (feature.address, functions[at].1);
                let k = choose|k: int| 0 <= k < before.reads.len() && before.reads[k] == wanted;
                assert(all.reads[k] == wanted);
            }
        }
    } else if let Some(all) = found {
        let feature = remote.feature_for(played, last.0, Role::Server)->0;
        if feature.may_serve(last.1) {
            assert(all.reads[all.reads.len() - 1] == (feature.address, last.1));
        }
    }
}

} // verus!
