//! Telemetry transmission engine for a high-altitude balloon payload.
//!
//! The library frames position reports and image chunks as AX.25/APRS
//! packets (address encoding, CRC-16 checksum, Base-91 payload compaction),
//! segments a baseline JPEG byte stream into fixed-size SSDV image packets,
//! and decides, tick by tick, what the transmitter should send next.

pub mod ax25;
pub mod base91;
pub mod crc16;
pub mod crc32;
pub mod framer;
pub mod sc16is752;
pub mod scheduler;
pub mod ssdv;
pub mod textfmt;
