//! Ground-control client for MAVLink 1.0: the field and frame codecs, the
//! message registry, the watcher engine and the vehicle mirror.

pub mod bits;
pub mod connection;
pub mod framing;
pub mod mavlink;
pub mod profile;
pub mod vehicle;
pub mod watcher;
pub mod wire;
