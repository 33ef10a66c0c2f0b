//! What holds of the use cases taken together.

use super::descriptor::{
    all_uses, take_up_bound, DescriptorView, Delivery, FunctionUse, ScenarioView,
};
use super::hvac::setpoint::{relation_feature_view, setpoint_feature_view};
use super::hvac::system_function::{hvac_feature_view, writeable_view};
use super::hvac::{cdsf, cdt, crct, mdsf, mdt, mot, mrcsf, mrt};
use super::monitoring::unit::measurement_feature_view;
use super::{lpc, lpp, mgcp, mob, moi};
use crate::model::FeatureType;
use crate::spine::HEARTBEAT_PERIOD;
use crate::time::Duration;
use vstd::prelude::*;

verus! {

/// The actors of heating, hot water and cooling.
pub open spec fn hvac_actor(actor: DescriptorView) -> bool {
    ||| actor == cdsf::dhw_circuit_view() || actor == cdsf::configuration_appliance_view()
    ||| actor == cdt::dhw_circuit_view() || actor == cdt::configuration_appliance_view()
    ||| actor == crct::hvac_room_view() || actor == crct::configuration_appliance_view()
    ||| actor == mdsf::dhw_circuit_view() || actor == mdsf::monitoring_appliance_view()
    ||| actor == mdt::dhw_circuit_view() || actor == mdt::monitoring_appliance_view()
    ||| actor == mot::outdoor_temperature_sensor_view()
    ||| actor == mot::monitoring_appliance_view()
    ||| actor == mrcsf::hvac_room_view() || actor == mrcsf::monitoring_appliance_view()
    ||| actor == mrt::hvac_room_view() || actor == mrt::monitoring_appliance_view()
}

/// The actors that read measurements of electricity, or publish them.
pub open spec fn measuring_actor(actor: DescriptorView) -> bool {
    ||| actor == mgcp::monitoring_appliance_view() || actor == mgcp::grid_connection_point_view()
    ||| actor == mob::battery_view() || actor == mob::monitoring_appliance_view()
    ||| actor == moi::inverter_view() || actor == moi::monitoring_appliance_view()
}

/// The actors of the limitation of power.
pub open spec fn limiting_actor(actor: DescriptorView) -> bool {
    ||| actor == lpc::energy_guard_view() || actor == lpc::controllable_system_view()
    ||| actor == lpp::energy_guard_view() || actor == lpp::controllable_system_view()
}

/// Whether something holds of every function that a scenario uses.
pub open spec fn every_use(
    scenarios: Seq<ScenarioView>,
    holds: spec_fn(FunctionUse) -> bool,
) -> bool {
    forall|i: int, j: int|
        0 <= i < scenarios.len() && 0 <= j < scenarios[i].functions.len() ==> holds(
            #[trigger] scenarios[i].functions[j],
        )
}

/// Whether a function is used without a binding.
pub open spec fn unbound() -> spec_fn(FunctionUse) -> bool {
    |function_use: FunctionUse| !function_use.binding
}

/// Whether a function is sent periodically, once a minute, exactly if it is the heartbeat.
pub open spec fn periodic_only_as_heartbeat() -> spec_fn(FunctionUse) -> bool {
    |function_use: FunctionUse|
        function_use.delivery == if function_use.function is DeviceDiagnosisHeartbeatData {
            Delivery::Periodic(Duration { nanos: HEARTBEAT_PERIOD })
        } else {
            Delivery::OnChange
        }
}

proof fn lemma_all_uses(scenarios: Seq<ScenarioView>, holds: spec_fn(FunctionUse) -> bool)
    requires
        every_use(scenarios, holds),
    ensures
        forall|k: int| 0 <= k < all_uses(scenarios).len() ==> holds(
            #[trigger] all_uses(scenarios)[k],
        ),
    decreases scenarios.len(),
{
    if scenarios.len() > 0 {
        let rest = scenarios.drop_last();
        assert forall|i: int, j: int|
            0 <= i < rest.len() && 0 <= j < rest[i].functions.len() implies holds(
            #[trigger] rest[i].functions[j],
        ) by {
            assert(holds(scenarios[i].functions[j]));
        }
        lemma_all_uses(rest, holds);
        assert forall|k: int| 0 <= k < all_uses(scenarios).len() implies holds(
            #[trigger] all_uses(scenarios)[k],
        ) by {
            let before = all_uses(rest);
            if k < before.len() {
                assert(all_uses(scenarios)[k] == before[k]);
            } else {
                assert(holds(
                    scenarios[scenarios.len() - 1].functions[k - before.len()],
                ));
            }
        }
    }
}

proof fn lemma_nothing_taken_up(uses: Seq<FunctionUse>)
    requires
        forall|k: int| 0 <= k < uses.len() ==> !(#[trigger] uses[k]).binding,
    ensures
        uses.fold_left(
            Seq::<FeatureType>::empty(),
            |found: Seq<FeatureType>, function_use: FunctionUse|
                take_up_bound(found, function_use),
        ) == Seq::<FeatureType>::empty(),
    decreases uses.len(),
{
    if uses.len() > 0 {
        assert forall|k: int| 0 <= k < uses.drop_last().len() implies !(
        #[trigger] uses.drop_last()[k]).binding by {
            assert(!uses[k].binding);
        }
        lemma_nothing_taken_up(uses.drop_last());
        assert(!uses[uses.len() - 1].binding);
    }
}

proof fn lemma_unbound_scenarios(actor: DescriptorView)
    requires
        every_use(actor.scenarios, unbound()),
    ensures
        actor.bound_features() == Seq::<FeatureType>::empty(),
{
    lemma_all_uses(actor.scenarios, unbound());
    assert forall|k: int| 0 <= k < all_uses(actor.scenarios).len() implies !(
    #[trigger] all_uses(actor.scenarios)[k]).binding by {
        assert(unbound()(all_uses(actor.scenarios)[k]));
    }
    lemma_nothing_taken_up(all_uses(actor.scenarios));
}

/// Nothing here binds: no actor of heating, hot water and cooling needs a binding, not even those
/// that write.
pub proof fn law_hvac_binds_nothing(actor: DescriptorView)
    requires
        hvac_actor(actor),
    ensures
        every_use(actor.scenarios, unbound()),
        actor.bound_features() == Seq::<FeatureType>::empty(),
{
    lemma_unbound_scenarios(actor);
}

/// An actor that only measures, or reads measurements, writes nothing and needs no binding.
pub proof fn law_measuring_binds_nothing(actor: DescriptorView)
    requires
        measuring_actor(actor),
    ensures
        every_use(actor.scenarios, unbound()),
        actor.bound_features() == Seq::<FeatureType>::empty(),
{
    lemma_unbound_scenarios(actor);
}

/// The heartbeats, and only the heartbeats, are sent whether or not they changed: the age of any
/// other value says nothing about the health of the peer.
pub proof fn law_only_heartbeats_are_periodic(actor: DescriptorView)
    requires
        hvac_actor(actor) || measuring_actor(actor) || limiting_actor(actor),
    ensures
        every_use(actor.scenarios, periodic_only_as_heartbeat()),
{
}

/// What only reports is read and never written; what can be written in heating, hot water and
/// cooling needs no binding, and each write waits for the application's decision.
pub proof fn law_writes_are_decided_not_bound(address: u32, overrun: bool)
    ensures
        hvac_feature_view(address, overrun).nothing_writeable(),
        relation_feature_view(address).nothing_writeable(),
        measurement_feature_view(address).nothing_writeable(),
        writeable_view(address, overrun).write_binding is NotRequired,
        writeable_view(address, overrun).deferred_writes,
        setpoint_feature_view(address).write_binding is NotRequired,
        setpoint_feature_view(address).deferred_writes,
{
}

} // verus!
