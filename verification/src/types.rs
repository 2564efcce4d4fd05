//! The integer types that the simulator uses for packed bits.

use vstd::prelude::*;

verus! {

/// Data of 1 to 8 packed bits.
pub type CData = u8;

/// Data of 9 to 16 packed bits.
pub type SData = u16;

/// Data of 17 to 32 packed bits.
pub type IData = u32;

/// Data of 33 to 64 packed bits.
pub type QData = u64;

/// One element of an array that holds more than 64 packed bits.
pub type EData = u32;

/// Data of more than 64 packed bits, reached through a pointer.
pub type WData = EData;

} // verus!
