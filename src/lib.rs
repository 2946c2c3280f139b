//! Secure telemetry transport for a battery-powered sensor node and its gateway: the packet
//! codec, the radio link layer's buffer, configuration and events, the node's sampling cycle,
//! and the decisions and bus exchanges of the sensor drivers. Register access and the
//! hardware cipher stay with the caller.

pub mod bytes;
pub mod clock;
pub mod codec;
pub mod exchange;
pub mod lsm303agr;
pub mod mmc5603nj;
pub mod node;
pub mod p0;
pub mod power;
pub mod radio;
pub mod rng;
pub mod sht3;
pub mod sht4x;
pub mod twim;
pub mod utils;
