//! Control core of a laboratory test-automation rig.
//!
//! The crate coordinates heterogeneous hardware (a robot arm, a load cell, a
//! wind-generation device, and a dynamic list of network-attached auxiliary
//! devices): it decodes the binary telemetry wire protocol, resolves scripted
//! instruction sequences against the registered hardware, and gates recorded
//! telemetry to the window between explicit start- and stop-recording calls.

pub mod codec;
pub mod exec;
pub mod hardware;
pub mod orchestrator;
pub mod sink;
