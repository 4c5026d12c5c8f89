//! Device connection orchestrator for a single wearable peripheral.
//!
//! The crate holds the decisions of the orchestrator as verified state
//! machines: which peripherals are listed, when a scan runs, how a connection
//! attempt moves a peripheral between its states, and what is chosen
//! automatically at startup. It performs no I/O itself. Every handler takes a
//! message, changes the model, and returns the effects that the surrounding
//! program has to carry out.

pub mod address;
pub mod device;
pub mod registry;
pub mod messages;
pub mod policy;
pub mod model;
pub mod scanner;
pub mod laws;
