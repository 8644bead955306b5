//! The cartridge metadata header: field layout and the verified parse from
//! the raw program bytes.

use vstd::prelude::*;

use crate::bits::word_at;

verus! {

/// The byte length of the cartridge header.
pub const HEADER_LEN: usize = 0xE4;

/// The fixed byte the header must carry at offset 0xB2.
pub const HEADER_FIXED_VALUE: u8 = 0x96;

/// The cartridge metadata header, field by field as laid out in the first
/// 0xE4 bytes of a program image.
#[derive(Debug)]
pub struct GBAHeader {
    /// u32 rom_entry_point @ 0x00
    ///
    /// Space for a single 32-bit opcode that redirects to the actual start
    /// address of the cartridge, usually a branch instruction.
    pub rom_entry_point: u32,
    /// u8 nintendo_logo[0x9C] @ 0x04
    ///
    /// Compressed boot logo, 156 bytes.
    pub nintendo_logo: Vec<u8>,
    /// char game_title[0x0C] @ 0xA0
    ///
    /// Game title (12 bytes).
    pub game_title: Vec<u8>,
    /// char game_code[0x04] @ 0xAC
    ///
    /// Game code (4 bytes).
    pub game_code: Vec<u8>,
    /// char maker_code[0x2] @ 0xB0
    ///
    /// Maker code (2 bytes).
    pub maker_code: Vec<u8>,
    /// u8 fixed_value @ 0xB2
    ///
    /// Fixed value, must be 0x96.
    pub fixed_value: u8,
    /// u8 main_unit_code @ 0xB3
    ///
    /// Main unit code, 0 for current hardware models.
    pub main_unit_code: u8,
    /// u8 device_type @ 0xB4
    ///
    /// Device type, usually 0.
    pub device_type: u8,
    /// u8 software_version @ 0xBC
    ///
    /// Software version, usually 0.
    pub software_version: u8,
    /// u8 complement_check @ 0xBD
    ///
    /// Header checksum byte.
    pub complement_check: u8,
    /// u32 ram_entry_point @ 0xC0
    ///
    /// Normal/multiplay transfer-mode entry point.
    pub ram_entry_point: u32,
    /// u8 boot_mode @ 0xC4
    ///
    /// Overwritten by the download procedure with the transfer mode used.
    pub boot_mode: u8,
    /// u8 slave_id @ 0xC5
    ///
    /// Overwritten with the slave number when booted over the link port.
    pub slave_id: u8,
    /// u32 joy_entry_point @ 0xE0
    ///
    /// Entry point used when booted over the serial port.
    pub joy_entry_point: u32,
}

/// Copy `bytes[start..end]` into a fresh vector.
fn copy_range(bytes: &[u8], start: usize, end: usize) -> (r: Vec<u8>)
    requires
        start <= end <= bytes@.len(),
    ensures
        r@ == bytes@.subrange(start as int, end as int),
{
    let mut out: Vec<u8> = Vec::new();
    let mut i: usize = start;
    while i < end
        invariant
            start <= i <= end <= bytes@.len(),
            out@ == bytes@.subrange(start as int, i as int),
        decreases end - i,
    {
        out.push(bytes[i]);
        proof {
            assert(bytes@.subrange(start as int, i + 1) =~= bytes@.subrange(
                start as int,
                i as int,
            ).push(bytes@[i as int]));
        }
        i += 1;
    }
    out
}

/// Read the 32-bit little-endian word at byte offset `off`.
fn read_word(bytes: &[u8], off: usize) -> (r: u32)
    requires
        off + 4 <= bytes@.len(),
    ensures
        r == word_at(bytes@, off as int),
{
    bytes[off] as u32 + bytes[off + 1] as u32 * 0x100 + bytes[off + 2] as u32 * 0x1_0000
        + bytes[off + 3] as u32 * 0x100_0000
}

impl GBAHeader {
    /// Parse the header fields out of the first 0xE4 bytes of a program
    /// image. The image must be long enough and carry the fixed header
    /// byte.
    pub fn from_file(bytes: &[u8]) -> (r: GBAHeader)
        requires
            bytes@.len() >= HEADER_LEN,
            bytes@[0xB2] == HEADER_FIXED_VALUE,
        ensures
            r.rom_entry_point == word_at(bytes@, 0),
            r.nintendo_logo@ == bytes@.subrange(0x04, 0xA0),
            r.game_title@ == bytes@.subrange(0xA0, 0xAC),
            r.game_code@ == bytes@.subrange(0xAC, 0xB0),
            r.maker_code@ == bytes@.subrange(0xB0, 0xB2),
            r.fixed_value == HEADER_FIXED_VALUE,
            r.main_unit_code == bytes@[0xB3],
            r.device_type == bytes@[0xB4],
            r.software_version == bytes@[0xBC],
            r.complement_check == bytes@[0xBD],
            r.ram_entry_point == word_at(bytes@, 0xC0),
            r.boot_mode == bytes@[0xC4],
            r.slave_id == bytes@[0xC5],
            r.joy_entry_point == word_at(bytes@, 0xE0),
    {
        GBAHeader {
            rom_entry_point: read_word(bytes, 0x00),
            nintendo_logo: copy_range(bytes, 0x04, 0x04 + 0x9C),
            game_title: copy_range(bytes, 0xA0, 0xA0 + 12),
            game_code: copy_range(bytes, 0xAC, 0xAC + 4),
            maker_code: copy_range(bytes, 0xB0, 0xB0 + 2),
            fixed_value: bytes[0xB2],
            main_unit_code: bytes[0xB3],
            device_type: bytes[0xB4],
            software_version: bytes[0xBC],
            complement_check: bytes[0xBD],
            ram_entry_point: read_word(bytes, 0xC0),
            boot_mode: bytes[0xC4],
            slave_id: bytes[0xC5],
            joy_entry_point: read_word(bytes, 0xE0),
        }
    }
}

} // verus!
