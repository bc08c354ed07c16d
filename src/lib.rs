//! Decision logic of a QUIC interoperability client: the driver loop that
//! advances a protocol engine against one peer, the probes that judge each
//! scenario, and the selection and fan-in of the scheduler.
//!
//! The engine, the sockets and the threads live with the caller; every
//! decision they need is taken here, from plain values, and proved.
pub mod driver;
pub mod engine;
pub mod peer;
pub mod probes;
pub mod schedule;
pub mod verdict;
