//! Masks that select fields of a 32-bit instruction or status word.

use vstd::prelude::*;

verus! {

pub const B_0: u32 = 0x0000_0001;

pub const B_3: u32 = 0x0000_0008;

pub const B_4: u32 = 0x0000_0010;

pub const B_5: u32 = 0x0000_0020;

pub const B_6: u32 = 0x0000_0040;

pub const B_7: u32 = 0x0000_0080;

pub const B_15: u32 = 0x0000_8000;

pub const B_20: u32 = 0x0010_0000;

pub const B_21: u32 = 0x0020_0000;

pub const B_22: u32 = 0x0040_0000;

pub const B_23: u32 = 0x0080_0000;

pub const B_24: u32 = 0x0100_0000;

pub const B_25: u32 = 0x0200_0000;

pub const B_31: u32 = 0x8000_0000;

pub const B_3_0: u32 = 0x0000_000F;

pub const B_4_0: u32 = 0x0000_001F;

pub const B_6_5: u32 = 0x0000_0060;

pub const B_7_0: u32 = 0x0000_00FF;

pub const B_11_0: u32 = 0x0000_0FFF;

pub const B_11_4: u32 = 0x0000_0FF0;

pub const B_11_7: u32 = 0x0000_0F80;

pub const B_11_8: u32 = 0x0000_0F00;

pub const B_15_0: u32 = 0x0000_FFFF;

pub const B_15_12: u32 = 0x0000_F000;

pub const B_19_16: u32 = 0x000F_0000;

pub const B_23_0: u32 = 0x00FF_FFFF;

pub const B_24_21: u32 = 0x01E0_0000;

pub const B_31_28: u32 = 0xF000_0000;

} // verus!
