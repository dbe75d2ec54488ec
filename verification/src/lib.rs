//! Data-logger core: state records with their binary packet format,
//! timestamps, and the decoding of BLE advertisements from sensors.

pub mod crc;
pub mod byte_buf;
pub mod be_bytes;
pub mod clock;
pub mod timestamp;
pub mod state_types;
pub mod logger_types;
pub mod text;
pub mod advertising;
pub mod govee;
pub mod nus_service;
pub mod nus_scanner;
pub mod gps;
pub mod state_eq;
