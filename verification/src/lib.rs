//! Coordination core for a small federation of training nodes.
//!
//! A central aggregator accumulates parameter updates from nodes, averages
//! them once the expected number of contributions has arrived, and hands the
//! averaged vector back for broadcast. Parameter values are carried as
//! fixed-point `i64` scalars; the surrounding process converts at its
//! boundary and performs all transport.

pub mod messages;
pub mod model;
pub mod node;
pub mod params;
pub mod registry;
pub mod server;
