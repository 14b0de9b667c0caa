//! The memory map: which region a byte address falls into, and how bytes,
//! halfwords and words are laid out in a region.

use vstd::prelude::*;
use crate::error::EmuError;

verus! {

/// Access width: one byte.
pub const BYTE: u32 = 0;

/// Access width: a halfword of two bytes.
pub const HALFWORD: u32 = 1;

/// Access width: a word of four bytes.
pub const WORD: u32 = 2;

/// The regions of the memory map. The three wait-state windows of the game pak
/// are one region: they mirror the same ROM.
#[derive(Clone, Copy, Debug, PartialEq, Eq, Structural)]
pub enum Region {
    Bios,
    BoardRam,
    ChipRam,
    IoRegisters,
    Palette,
    VideoRam,
    ObjAttributes,
    GamePakRom,
    GamePakSram,
}

impl Region {
    /// The number of bytes of the region. For the game pak ROM this is the size
    /// of one window.
    pub open spec fn size(self) -> int {
        match self {
            Region::Bios => 0x4000,
            Region::BoardRam => 0x4_0000,
            Region::ChipRam => 0x8000,
            Region::IoRegisters => 0x3FF,
            Region::Palette => 0x400,
            Region::VideoRam => 0x1_8000,
            Region::ObjAttributes => 0x400,
            Region::GamePakRom => 0x200_0000,
            Region::GamePakSram => 0x1_0000,
        }
    }

    /// The first address of the region; for the game pak ROM, of its first
    /// window.
    pub open spec fn start(self) -> int {
        match self {
            Region::Bios => 0,
            Region::BoardRam => 0x0200_0000,
            Region::ChipRam => 0x0300_0000,
            Region::IoRegisters => 0x0400_0000,
            Region::Palette => 0x0500_0000,
            Region::VideoRam => 0x0600_0000,
            Region::ObjAttributes => 0x0700_0000,
            Region::GamePakRom => 0x0800_0000,
            Region::GamePakSram => 0x0E00_0000,
        }
    }

    /// Whether the region is storage that the interpreter itself holds and may
    /// write.
    pub open spec fn is_ram(self) -> bool {
        self != Region::IoRegisters && self != Region::GamePakRom
    }
}

/// The region that holds `addr`, and the offset of `addr` in it; `None` where
/// the address lies in no region.
pub open spec fn resolve(addr: u32) -> Option<(Region, u32)> {
    if addr <= 0x0000_3FFF {
        Some((Region::Bios, addr))
    } else if 0x0200_0000 <= addr <= 0x0203_FFFF {
        Some((Region::BoardRam, (addr - 0x0200_0000) as u32))
    } else if 0x0300_0000 <= addr <= 0x0300_7FFF {
        Some((Region::ChipRam, (addr - 0x0300_0000) as u32))
    } else if 0x0400_0000 <= addr <= 0x0400_03FE {
        Some((Region::IoRegisters, (addr - 0x0400_0000) as u32))
    } else if 0x0500_0000 <= addr <= 0x0500_03FF {
        Some((Region::Palette, (addr - 0x0500_0000) as u32))
    } else if 0x0600_0000 <= addr <= 0x0601_7FFF {
        Some((Region::VideoRam, (addr - 0x0600_0000) as u32))
    } else if 0x0700_0000 <= addr <= 0x0700_03FF {
        Some((Region::ObjAttributes, (addr - 0x0700_0000) as u32))
    } else if 0x0800_0000 <= addr <= 0x09FF_FFFF {
        Some((Region::GamePakRom, (addr - 0x0800_0000) as u32))
    } else if 0x0A00_0000 <= addr <= 0x0BFF_FFFF {
        Some((Region::GamePakRom, (addr - 0x0A00_0000) as u32))
    } else if 0x0C00_0000 <= addr <= 0x0DFF_FFFF {
        Some((Region::GamePakRom, (addr - 0x0C00_0000) as u32))
    } else if 0x0E00_0000 <= addr <= 0x0E00_FFFF {
        Some((Region::GamePakSram, (addr - 0x0E00_0000) as u32))
    } else {
        None
    }
}

/// Finds the region of `addr` and the offset in it.
pub fn resolve_address(addr: u32) -> (r: Result<(Region, u32), EmuError>)
    ensures
        match resolve(addr) {
            Some(hit) => r == Ok::<(Region, u32), EmuError>(hit),
            None => r == Err::<(Region, u32), EmuError>(EmuError::UnmappedAccess),
        },
{
    if addr <= 0x0000_3FFF {
        Ok((Region::Bios, addr))
    } else if 0x0200_0000 <= addr && addr <= 0x0203_FFFF {
        Ok((Region::BoardRam, addr - 0x0200_0000))
    } else if 0x0300_0000 <= addr && addr <= 0x0300_7FFF {
        Ok((Region::ChipRam, addr - 0x0300_0000))
    } else if 0x0400_0000 <= addr && addr <= 0x0400_03FE {
        Ok((Region::IoRegisters, addr - 0x0400_0000))
    } else if 0x0500_0000 <= addr && addr <= 0x0500_03FF {
        Ok((Region::Palette, addr - 0x0500_0000))
    } else if 0x0600_0000 <= addr && addr <= 0x0601_7FFF {
        Ok((Region::VideoRam, addr - 0x0600_0000))
    } else if 0x0700_0000 <= addr && addr <= 0x0700_03FF {
        Ok((Region::ObjAttributes, addr - 0x0700_0000))
    } else if 0x0800_0000 <= addr && addr <= 0x09FF_FFFF {
        Ok((Region::GamePakRom, addr - 0x0800_0000))
    } else if 0x0A00_0000 <= addr && addr <= 0x0BFF_FFFF {
        Ok((Region::GamePakRom, addr - 0x0A00_0000))
    } else if 0x0C00_0000 <= addr && addr <= 0x0DFF_FFFF {
        Ok((Region::GamePakRom, addr - 0x0C00_0000))
    } else if 0x0E00_0000 <= addr && addr <= 0x0E00_FFFF {
        Ok((Region::GamePakSram, addr - 0x0E00_0000))
    } else {
        Err(EmuError::UnmappedAccess)
    }
}

/// An address that resolves lies inside its region, at the same position in
/// its word as the address itself, and every region but the I/O registers
/// holds whole words.
pub proof fn lemma_resolve_offset(addr: u32)
    requires
        resolve(addr) is Some,
    ensures
        resolve(addr)->Some_0.1 < resolve(addr)->Some_0.0.size(),
        resolve(addr)->Some_0.1 % 4 == addr % 4,
        resolve(addr)->Some_0.0 != Region::IoRegisters ==> resolve(addr)->Some_0.0.size() % 4 == 0,
        resolve(addr)->Some_0.0 != Region::GamePakRom ==> resolve(addr)->Some_0.1 == addr
            - resolve(addr)->Some_0.0.start(),
{
}

/// The bits of a value that an access of the given width transfers.
pub open spec fn width_mask(width: u32) -> u32 {
    if width == BYTE {
        0xFF
    } else if width == HALFWORD {
        0xFFFF
    } else {
        0xFFFF_FFFF
    }
}

/// The number of bytes that an access of the given width transfers.
pub open spec fn width_bytes(width: u32) -> int {
    if width == BYTE {
        1
    } else if width == HALFWORD {
        2
    } else {
        4
    }
}

/// The little-endian halfword made of two bytes.
pub open spec fn half_of(b0: u8, b1: u8) -> u32 {
    (b0 as u32) | ((b1 as u32) << 8)
}

/// The little-endian word made of four bytes.
pub open spec fn word_of(b0: u8, b1: u8, b2: u8, b3: u8) -> u32 {
    (b0 as u32) | ((b1 as u32) << 8) | ((b2 as u32) << 16) | ((b3 as u32) << 24)
}

/// Byte `index` of a value, counted from the least significant one.
pub open spec fn byte_of(value: u32, index: u32) -> u8 {
    ((value >> (8 * index) as u32) & 0xFF) as u8
}

/// A halfword read at an odd address: the halfword that contains the address,
/// rotated right by eight bits within its sixteen.
pub open spec fn swap_half(h: u32) -> u32 {
    ((h >> 8) & 0xFF) | ((h & 0xFF) << 8)
}

/// Splitting a value into bytes and putting them together again gives the
/// transferred bits of the value back.
pub proof fn lemma_bytes_round_trip(value: u32)
    by (bit_vector)
    ensures
        (value & 0xFF) as u8 as u32 == value & 0xFF,
        half_of((value & 0xFF) as u8, ((value >> 8) & 0xFF) as u8) == value & 0xFFFF,
        word_of(
            (value & 0xFF) as u8,
            ((value >> 8) & 0xFF) as u8,
            ((value >> 16) & 0xFF) as u8,
            ((value >> 24) & 0xFF) as u8,
        ) == value,
        value & 0xFFFF_FFFF == value,
{
}

} // verus!
