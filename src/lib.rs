//! A network-health gauge: latency probes over a wireless link, kept in a
//! rolling window and shown as a band of colors on an addressable LED strip.
//!
//! The library holds the decisions: the color of a sample, the rolling window,
//! the choice of authentication mode, the steps of a connection attempt and the
//! restart policy. The firmware around it performs the I/O they ask for.
pub mod color;
pub mod connection;
pub mod sampler;
pub mod strip;
pub mod supervisor;
pub mod window;
