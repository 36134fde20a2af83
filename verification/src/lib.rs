//! Verified core of an SX1262 LoRa mesh node and its base station.
//!
//! Everything here is a value and a rule: wire formats, protocols, controllers
//! and the order of operations. What touches hardware is left to the caller,
//! who is told what to do next and reports how it went.

pub mod basestation;
pub mod board;
pub mod bytes;
pub mod config;
pub mod crc;
pub mod driver;
pub mod gpslog;
pub mod laws;
pub mod mesh;
pub mod node;
pub mod ota;
pub mod ota_protocol;
pub mod ota_sender;
pub mod ota_transfer;
pub mod platform;
pub mod radio;
pub mod radio_send;
pub mod rh_radio;
pub mod rs422;
pub mod rs422_exchange;
pub mod sensors;
pub mod subghz;
pub mod text;
pub mod timer;
pub mod uart_proto;
pub mod upload;

pub use ota::OtaReceiver;
pub use ota_sender::OtaSender;
