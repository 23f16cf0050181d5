//! Plain descriptions of transfers and channels.

use vstd::prelude::*;

verus! {

/// Direction of a transfer.
#[derive(Debug, Clone, Copy, PartialEq, Eq, Structural)]
pub enum DmaDirection {
    /// From memory to the device (transmit).
    MemoryToDevice,
    /// From the device to memory (receive).
    DeviceToMemory,
}

/// Description of a channel's binding to a peripheral.
#[derive(Debug, Clone, Copy)]
pub struct DmaChannelConfig {
    /// Channel number, 0 to 7.
    pub channel: u8,
    /// Request line of the peripheral, 0 to 31.
    pub peripheral_id: u8,
    /// Direction of the transfers.
    pub direction: DmaDirection,
    /// Whether the hardware timeout is enabled.
    pub timeout_enable: bool,
    /// Threshold of the hardware timeout.
    pub timeout_count: u32,
}

/// Description of one transfer.
#[derive(Debug, Clone, Copy)]
pub struct DmaTransfer {
    /// Where the data comes from: memory when transmitting, the device when
    /// receiving.
    pub src_addr: u64,
    /// Where the data goes.
    pub dst_addr: u32,
    /// Number of bytes.
    pub size: u32,
}

} // verus!
