//! The computing core of a benchmark suite for local inference services: reading process
//! memory accounts, describing the machine, the HTTP and event-stream text that the load
//! generators exchange, provenance checksums, the chart markup, and the settings of a
//! branching sweep.
pub mod text;
pub mod smaps;
pub mod memory;
pub mod system;
pub mod http;
pub mod stream;
pub mod provenance;
pub mod models;
pub mod svg;
pub mod sweep;
