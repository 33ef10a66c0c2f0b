//! The names of the actors that several use cases share.

use vstd::prelude::*;

verus! {

/// The actor that limits.
pub const ENERGY_GUARD: &'static str = "EnergyGuard";

/// The actor that is limited.
pub const CONTROLLABLE_SYSTEM: &'static str = "ControllableSystem";

/// The actor that watches.
pub const MONITORING_APPLIANCE: &'static str = "MonitoringAppliance";

/// The point where a premises meets the grid.
pub const GRID_CONNECTION_POINT: &'static str = "GridConnectionPoint";

} // verus!
