//! Verified core of a wake-up light client: the per-second alarm scheduler,
//! the illumination state machines, and the connection supervisor's
//! decisions. The I/O around them (sockets, database, light hardware, timers)
//! is driven by a thin runner that feeds these functions plain values.

pub mod clock;
pub mod model;
pub mod schedule;
pub mod status;
pub mod text;
pub mod zone;
pub mod light;
pub mod messages;
pub mod connection;
pub mod env;
