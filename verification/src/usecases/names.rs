//! The `useCaseName` of each use case.

use vstd::prelude::*;

verus! {

/// Limitation of Power Consumption.
pub const LPC: &'static str = "limitationOfPowerConsumption";

/// Limitation of Power Production.
pub const LPP: &'static str = "limitationOfPowerProduction";

/// Monitoring of Grid Connection Point.
pub const MGCP: &'static str = "monitoringOfGridConnectionPoint";

} // verus!
