//! Sans-I/O core of the USB Device Firmware Upgrade (DFU) class protocol.
//!
//! Nothing in this crate talks to a device. Every step computes the control
//! transfer that the caller has to perform next, and parses the bytes that the
//! caller hands back.

pub mod chained;
pub mod command;
pub mod cursor;
pub mod device;
pub mod download;
pub mod error;
pub mod get_status;
pub mod memory_layout;
pub mod report;
pub mod request;
pub mod reset;
pub mod status;
pub mod wire;

pub use chained::ChainedCommand;
pub use device::{DfuSansIo, FunctionalDescriptor};
pub use error::Error;
pub use status::{State, Status};
