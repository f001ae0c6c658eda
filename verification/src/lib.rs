//! Firmware core of a wheel-rotation sensor: checksums, the framed host
//! protocol, the connection and session state machine, the offline
//! aggregate and the firmware image decoder.

pub mod codec;
pub mod context;
pub mod crc;
pub mod critical;
pub mod cycling;
pub mod datetime;
pub mod endian;
pub mod host;
pub mod interrupt;
pub mod machine;
pub mod offline;
pub mod payload;
pub mod queue;
pub mod rgb;
pub mod state;
pub mod uf2;
pub mod update;
