//! A verified decoder for the binary firmware-update container format used
//! by grid-tied inverter devices: container-header validation, the streaming
//! record framing, the per-record-type body decoders, and the sub-framing of
//! firmware payloads into checksummed blocks.

use vstd::prelude::*;

pub mod blocks;
pub mod parse;
pub mod types;
pub mod wire;

verus! {

/// Magic value at the start of every valid container: the ASCII bytes
/// "SMA:" read as a little-endian `u32`.
pub const UP2_MAGIC: u32 = 0x3A414D53;

} // verus!
