//! Node logic for a masterless, token-passing RS485 bus shared by a main
//! controller and its satellite button/LED boards.
//!
//! Everything here is pure state and arithmetic: the bus arbiter, the LED
//! animation, the button classifier and the command decoder take plain values
//! and hand plain values back, so that the firmware around them only has to
//! move bytes between these functions and the peripherals.

use vstd::prelude::*;

pub mod adc;
pub mod address;
pub mod buffer;
pub mod command;
pub mod led;
pub mod message;
pub mod rs485;
pub mod runs;
mod units;

verus! {

/// Line speed of the bus, in bits per second.
pub const RS485_BAUD: u32 = 115200;

/// Silent slots a freshly started node waits before it assumes the bus is empty.
pub const MAX_DETECT_CYCLES: u32 = 8192;

/// Slots without foreign traffic after which a node assumes it is isolated.
pub const MAX_ALONE_CYCLES: u32 = 2048;

/// Bus address of this node.
pub const DEVICE_ADDRESS: u8 = 11;

} // verus!
