//! Use cases of the EEBUS family, as verified state machines and payload rules.
//!
//! * [`model`] holds the payloads that travel between devices;
//! * [`address`] and [`spine`] hold addresses, features, discovery data, and the queue of outgoing
//!   commands;
//! * [`usecases`] holds the use cases themselves.
//!
//! The contracts speak of mathematical values: each type has a view, and each step of an actor is
//! a function from views to views.

pub mod address;
pub mod assoc;
pub mod model;
pub mod number;
pub mod seqs;
pub mod spine;
pub mod text;
pub mod time;
pub mod usecases;
pub mod wire_laws;
