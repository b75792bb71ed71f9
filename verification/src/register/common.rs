//! Addresses within the chip's common register block.

use vstd::prelude::*;

verus! {

/// Address of the mode register, the target of the soft-reset command.
pub const MODE: u16 = 0x0000;

} // verus!
