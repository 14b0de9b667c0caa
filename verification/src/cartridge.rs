//! The cartridge image: a fixed header of 228 bytes followed by the ROM.

use vstd::prelude::*;
use crate::error::EmuError;

verus! {

/// Length of the header in bytes.
pub const HEADER_LEN: usize = 228;

/// What a cartridge holds, field by field.
pub struct CartridgeView {
    pub entry: Seq<u8>,
    pub logo: Seq<u8>,
    pub title: Seq<u8>,
    pub game_code: Seq<u8>,
    pub maker_code: Seq<u8>,
    pub fixed_value: u8,
    pub main_unit_code: u8,
    pub device_type: u8,
    pub reserve_area: Seq<u8>,
    pub software_version: u8,
    pub complement_check: u8,
    pub reserved_area: Seq<u8>,
    pub ram_entry_point: Seq<u8>,
    pub boot_mode: u8,
    pub slave_id_number: u8,
    pub not_used: Seq<u8>,
    pub joybus_entry_point: Seq<u8>,
    pub rom: Seq<u8>,
}

impl CartridgeView {
    /// The header as it lies in the image: the fields one after the other.
    pub open spec fn header_bytes(self) -> Seq<u8> {
        self.entry + self.logo + self.title + self.game_code + self.maker_code
            + seq![self.fixed_value, self.main_unit_code, self.device_type] + self.reserve_area
            + seq![self.software_version, self.complement_check] + self.reserved_area
            + self.ram_entry_point + seq![self.boot_mode, self.slave_id_number] + self.not_used
            + self.joybus_entry_point
    }

    /// The whole image: the header followed by the ROM.
    pub open spec fn image(self) -> Seq<u8> {
        self.header_bytes() + self.rom
    }
}

/// The fields of an image, each taken from its byte offsets. Meant for images of
/// at least 228 bytes.
pub open spec fn parse_image(bytes: Seq<u8>) -> CartridgeView
    recommends
        bytes.len() >= 228,
{
    CartridgeView {
        entry: bytes.subrange(0, 4),
        logo: bytes.subrange(4, 160),
        title: bytes.subrange(160, 172),
        game_code: bytes.subrange(172, 176),
        maker_code: bytes.subrange(176, 178),
        fixed_value: bytes[178],
        main_unit_code: bytes[179],
        device_type: bytes[180],
        reserve_area: bytes.subrange(181, 188),
        software_version: bytes[188],
        complement_check: bytes[189],
        reserved_area: bytes.subrange(190, 192),
        ram_entry_point: bytes.subrange(192, 196),
        boot_mode: bytes[196],
        slave_id_number: bytes[197],
        not_used: bytes.subrange(198, 224),
        joybus_entry_point: bytes.subrange(224, 228),
        rom: bytes.subrange(228, bytes.len() as int),
    }
}

/// Splitting an image into its fields and writing the fields out again gives
/// the image back: the first 228 bytes from the header, the rest from the ROM.
pub proof fn lemma_header_round_trip(bytes: Seq<u8>)
    requires
        bytes.len() >= 228,
    ensures
        parse_image(bytes).header_bytes() == bytes.subrange(0, 228),
        parse_image(bytes).image() == bytes,
{
    let v = parse_image(bytes);
    assert(v.header_bytes() =~= bytes.subrange(0, 228));
    assert(v.image() =~= bytes);
}

pub struct Cartridge {
    entry: [u8; 4],
    logo: [u8; 156],
    title: [u8; 12],
    game_code: [u8; 4],
    maker_code: [u8; 2],
    fixed_value: u8,
    main_unit_code: u8,
    device_type: u8,
    reserve_area: [u8; 7],
    software_version: u8,
    complement_check: u8,
    reserved_area: [u8; 2],
    ram_entry_point: [u8; 4],
    boot_mode: u8,
    slave_id_number: u8,
    not_used: [u8; 26],
    joybus_entry_point: [u8; 4],
    rom_data: Vec<u8>,
}

/// Copies `N` bytes of `bytes`, starting at `start`, into an array.
fn take_array<const N: usize>(bytes: &Vec<u8>, start: usize) -> (out: [u8; N])
    requires
        start + N <= bytes.len(),
    ensures
        out@ == bytes@.subrange(start as int, start + N),
{
    let mut out: [u8; N] = [0u8; N];
    let mut i: usize = 0;
    while i < N
        invariant
            i <= N,
            start + N <= bytes.len(),
            forall|j: int| 0 <= j < i ==> out@[j] == bytes@[start + j],
        decreases N - i,
    {
        out[i] = bytes[start + i];
        i = i + 1;
    }
    assert(out@ =~= bytes@.subrange(start as int, start + N));
    out
}

/// Appends the bytes of `field` to `out`.
fn put_array<const N: usize>(out: &mut Vec<u8>, field: &[u8; N])
    ensures
        final(out)@ == old(out)@ + field@,
{
    let mut i: usize = 0;
    while i < N
        invariant
            i <= N,
            out@ == old(out)@ + field@.subrange(0, i as int),
        decreases N - i,
    {
        out.push(field[i]);
        assert(out@ =~= old(out)@ + field@.subrange(0, i + 1));
        i = i + 1;
    }
    assert(field@.subrange(0, N as int) =~= field@);
}

impl View for Cartridge {
    type V = CartridgeView;

    closed spec fn view(&self) -> CartridgeView {
        CartridgeView {
            entry: self.entry@,
            logo: self.logo@,
            title: self.title@,
            game_code: self.game_code@,
            maker_code: self.maker_code@,
            fixed_value: self.fixed_value,
            main_unit_code: self.main_unit_code,
            device_type: self.device_type,
            reserve_area: self.reserve_area@,
            software_version: self.software_version,
            complement_check: self.complement_check,
            reserved_area: self.reserved_area@,
            ram_entry_point: self.ram_entry_point@,
            boot_mode: self.boot_mode,
            slave_id_number: self.slave_id_number,
            not_used: self.not_used@,
            joybus_entry_point: self.joybus_entry_point@,
            rom: self.rom_data@,
        }
    }
}

impl Cartridge {
    /// Splits an image into header and ROM. An image shorter than a header is
    /// refused; every other image is accepted.
    pub fn from_bytes(bytes: &Vec<u8>) -> (r: Result<Cartridge, EmuError>)
        ensures
            bytes.len() < 228 ==> r == Err::<Cartridge, EmuError>(EmuError::CartridgeIO),
            bytes.len() >= 228 ==> r is Ok && r->Ok_0@ == parse_image(bytes@),
    {
        if bytes.len() < HEADER_LEN {
            return Err(EmuError::CartridgeIO);
        }
        let n = bytes.len() - HEADER_LEN;
        let mut rom_data: Vec<u8> = Vec::new();
        let mut i: usize = 0;
        while i < n
            invariant
                i <= n,
                n + 228 == bytes.len(),
                rom_data@ == bytes@.subrange(228, 228 + i),
            decreases n - i,
        {
            rom_data.push(bytes[HEADER_LEN + i]);
            assert(rom_data@ =~= bytes@.subrange(228, 228 + i + 1));
            i = i + 1;
        }
        Ok(
            Cartridge {
                entry: take_array::<4>(bytes, 0),
                logo: take_array::<156>(bytes, 4),
                title: take_array::<12>(bytes, 160),
                game_code: take_array::<4>(bytes, 172),
                maker_code: take_array::<2>(bytes, 176),
                fixed_value: bytes[178],
                main_unit_code: bytes[179],
                device_type: bytes[180],
                reserve_area: take_array::<7>(bytes, 181),
                software_version: bytes[188],
                complement_check: bytes[189],
                reserved_area: take_array::<2>(bytes, 190),
                ram_entry_point: take_array::<4>(bytes, 192),
                boot_mode: bytes[196],
                slave_id_number: bytes[197],
                not_used: take_array::<26>(bytes, 198),
                joybus_entry_point: take_array::<4>(bytes, 224),
                rom_data,
            },
        )
    }

    /// Writes the header out again, byte for byte as it lay in the image.
    pub fn header_to_bytes(&self) -> (out: Vec<u8>)
        ensures
            out@ == self@.header_bytes(),
            out.len() == 228,
    {
        let mut out: Vec<u8> = Vec::new();
        put_array(&mut out, &self.entry);
        put_array(&mut out, &self.logo);
        put_array(&mut out, &self.title);
        put_array(&mut out, &self.game_code);
        put_array(&mut out, &self.maker_code);
        out.push(self.fixed_value);
        out.push(self.main_unit_code);
        out.push(self.device_type);
        put_array(&mut out, &self.reserve_area);
        out.push(self.software_version);
        out.push(self.complement_check);
        put_array(&mut out, &self.reserved_area);
        put_array(&mut out, &self.ram_entry_point);
        out.push(self.boot_mode);
        out.push(self.slave_id_number);
        put_array(&mut out, &self.not_used);
        put_array(&mut out, &self.joybus_entry_point);
        assert(out@ =~= self@.header_bytes());
        out
    }

    /// The title field of the header.
    pub fn title(&self) -> (t: [u8; 12])
        ensures
            t@ == self@.title,
    {
        self.title
    }

    /// The game code field of the header.
    pub fn game_code(&self) -> (c: [u8; 4])
        ensures
            c@ == self@.game_code,
    {
        self.game_code
    }

    /// The maker code field of the header.
    pub fn maker_code(&self) -> (c: [u8; 2])
        ensures
            c@ == self@.maker_code,
    {
        self.maker_code
    }

    /// The software version field of the header.
    pub fn software_version(&self) -> (v: u8)
        ensures
            v == self@.software_version,
    {
        self.software_version
    }

    /// The number of ROM bytes behind the header.
    pub fn rom_len(&self) -> (n: usize)
        ensures
            n == self@.rom.len(),
    {
        self.rom_data.len()
    }

    /// The ROM byte at `adress`, counted from the end of the header.
    pub fn read_adress(&self, adress: usize) -> (b: u8)
        requires
            adress < self@.rom.len(),
        ensures
            b == self@.rom[adress as int],
    {
        self.rom_data[adress]
    }
}

} // verus!
