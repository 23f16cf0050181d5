//! Request lines of common peripherals.

use vstd::prelude::*;

verus! {

/// UART0 transmit.
pub const UART0_TX: u8 = 2;

/// UART0 receive.
pub const UART0_RX: u8 = 15;

/// UART1 transmit.
pub const UART1_TX: u8 = 3;

/// UART1 receive.
pub const UART1_RX: u8 = 16;

} // verus!
