//! Register-level driver core for the FUSB302B family USB Type-C and USB PD BMC PHY.
//!
//! This crate owns only physical-layer configuration, status, FIFO, and packet transport. It
//! deliberately does not implement USB Power Delivery policy or contract negotiation.

pub mod registers;
pub mod types;
pub mod error;
pub mod packet;
pub mod fifo;
pub mod fields;
pub mod transfer;
pub mod operations;
pub mod driver;

pub use driver::Fusb302;
pub use error::{Error, PacketError, ReceiveError};
pub use packet::{PdPacket, SopType};
pub use registers::{CcPin, CcPull, DataRole, HostCurrent, PdRevision, PowerRole, ToggleMode};
pub use transfer::{Step, Transfer};
pub use types::{
    DeviceId, InterruptMasks, InterruptSnapshot, PhyConfig, ReceiveSopMask, RetryCount, Status,
    ToggleStatus, TransmitStatus, VbusComparator, VbusThreshold,
};

use vstd::prelude::*;

verus! {

/// Default 7-bit I2C address of FUSB302B-family devices.
pub const DEFAULT_ADDRESS: u8 = 0x22;

/// Largest USB PD packet payload the FUSB302B FIFO transport accepts.
pub const MAX_PD_PAYLOAD_BYTES: usize = 28;

} // verus!
