//! The use cases.

pub mod actors;
pub mod descriptor;
pub mod hvac;
pub mod laws;
pub mod limitation;
pub mod locating_laws;
pub mod lpc;
pub mod lpp;
pub mod mgcp;
pub mod mgcp_laws;
pub mod mob;
pub mod moi;
pub mod monitoring;
pub mod names;
pub mod signals;

pub use self::descriptor::{
    ActorRole, Delivery, FunctionUse, Scenario, Support, UseCaseDescriptor,
};
pub use crate::address::UnitId;
