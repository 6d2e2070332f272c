//! Storage event pipeline: turns kernel journal lines into typed storage
//! events, enriches them with block-device topology and routes them to the
//! subsystem parsers.

pub mod text;
pub mod event;
pub mod regex_conf;
pub mod collector;
pub mod timestamp;
pub mod builtin;
pub mod sysfs;
pub mod router;
pub mod scsi;
pub mod mpath;
pub mod query;
pub mod sink;
