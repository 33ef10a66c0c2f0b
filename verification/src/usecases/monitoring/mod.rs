//! Measurements: the unit that publishes them, and the appliance that reads them.
//!
//! A *Monitored Unit* publishes measurements, an `ElectricalConnection` feature that binds each
//! of them to its phases, and a `Measurement` feature that says what each of them is and reads. A
//! *Monitoring Appliance* reads the descriptions once and resolves every value against them.

pub mod appliance;
pub mod appliance_laws;
pub mod functions;
pub mod laws;
pub mod measurand;
pub mod readings;
pub mod unit;
pub mod unit_laws;

pub use self::appliance::{locate, MonitoredUnitPeer, MonitoringApplianceActor, MonitoringEvent};
pub use self::measurand::{Measurand, Quantity};
pub use self::readings::{Reading, ReadingState, Readings};
pub use self::unit::{MonitoredUnit, Naming};
