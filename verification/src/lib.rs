//! Library for talking to an Aranet4 environmental sensor.
//!
//! The heart of the crate is the sensor's history-retrieval protocol: a
//! request/notify exchange that streams historical samples back in small
//! chunked frames.  The frames are validated, reassembled and decoded into
//! typed numeric arrays, and absolute timestamps are reconstructed for each
//! sample from device-reported interval metadata.  All of that logic lives
//! here, with contracts checked by Verus; the Bluetooth transport itself is
//! driven by the (unverified) binary around the library.

pub mod device_info;
pub mod display;
pub mod fetch;
pub mod history;
pub mod protocol;
pub mod reassembly;
pub mod table;
pub mod types;
