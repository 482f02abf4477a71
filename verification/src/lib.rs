//! Three small, independent subsystems built around classic object-oriented
//! design patterns, each with a verified behavioural contract:
//!
//! - `command`: a command invoker with a pending queue, a history stack and
//!   undo, driving a two-dimensional grid robot;
//! - `state`: a single-button electronic die cycling through off, on and
//!   stopped states;
//! - `factory`: an abstract factory producing paired families of labelled
//!   products.

pub mod command;
pub mod factory;
pub mod state;
