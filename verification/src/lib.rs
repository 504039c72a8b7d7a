//! Control-group resource management: translation of an abstract resource
//! specification onto the legacy (v1) and unified (v2) kernel control-group
//! hierarchies, parsing of the kernel's mount and path tables, normalized
//! statistics collection, and the decision logic of the out-of-memory event
//! notifier.

pub mod convert;
pub mod strutil;
pub mod kvmap;
pub mod parse;
pub mod resolver;
pub mod devices;
pub mod resources;
pub mod stats;
pub mod notifier;
pub mod manager;
pub mod errors;
