//! Bridge between a single mesh-radio device and a pull-based metrics
//! endpoint.
//!
//! The crate decodes the stream of envelopes a device emits, dispatches them
//! by message kind and application port, and turns selected fields into
//! labeled gauge and counter series.  The supervisor tick logic, the bounded
//! queues between the connection worker and the supervisor, and the metric
//! registry itself are modeled and verified here; the surrounding process
//! (transport I/O, the scrape endpoint) lives outside the library and hands
//! plain values in and out.

pub mod codec;
pub mod consts;
pub mod frames;
pub mod hexfmt;
pub mod ipc;
pub mod metrics;
pub mod processing;
pub mod structs;
pub mod supervisor;
pub mod worker;
