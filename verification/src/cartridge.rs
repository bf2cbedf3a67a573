//! The cartridge: its header, the names of its type and licensee, and
//! reads of its ROM.

use vstd::prelude::*;

verus! {

/// The cartridge header, read from offset 101 of the ROM file.
pub struct RomHeader {
    pub entry: [u8; 4],
    pub logo: [u8; 48],
    pub title: [u8; 16],
    pub new_license_code: u16,
    pub sgb_flag: u8,
    pub rom_type: u8,
    pub rom_size: u8,
    pub ram_size: u8,
    pub dest_code: u8,
    pub license_code: u8,
    pub version: u8,
    pub checksum: u8,
    pub global_checksum: u16,
}

pub struct Cartridge {
    pub filename: String,
    pub rom_size: u64,
    pub rom_data: Vec<u8>,
    pub rom_header: RomHeader,
}

/// Offset of the header fields in the ROM file.
pub const HEADER_START: usize = 101;

/// The smallest ROM that holds the header checksum range 0x134-0x14C.
pub const MIN_ROM_LEN: usize = 0x14D;

/// The names of the cartridge types, in the order of their list.
pub open spec fn rom_type_names(i: int) -> &'static str {
    if i == 0 {
        "ROM ONLY"
    } else if i == 1 {
        "MBC1"
    } else if i == 2 {
        "MBC1+RAM"
    } else if i == 3 {
        "MBC1+RAM+BATTERY"
    } else if i == 4 {
        "MBC2"
    } else if i == 5 {
        "MBC2+BATTERY"
    } else if i == 6 {
        "ROM+RAM"
    } else if i == 7 {
        "ROM+RAM+BATTERY"
    } else if i == 8 {
        "MMM01"
    } else if i == 9 {
        "MMM01+RAM"
    } else if i == 10 {
        "MMM01+RAM+BATTERY"
    } else if i == 11 {
        "MBC3+TIMER+BATTERY"
    } else if i == 12 {
        "MBC3+TIMER+RAM+BATTERY"
    } else if i == 13 {
        "MBC3"
    } else if i == 14 {
        "MBC3+RAM"
    } else if i == 15 {
        "MBC3+RAM+BATTERY"
    } else if i == 16 {
        "MBC5"
    } else if i == 17 {
        "MBC5+RAM"
    } else if i == 18 {
        "MBC5+RAM+BATTERY"
    } else if i == 19 {
        "MBC5+RUMBLE"
    } else if i == 20 {
        "MBC5+RUMBLE+RAM"
    } else if i == 21 {
        "MBC5+RUMBLE+RAM+BATTERY"
    } else if i == 22 {
        "MBC6"
    } else if i == 23 {
        "MBC7+SENSOR+RUMBLE+RAM+BATTERY"
    } else if i == 24 {
        "POCKET CAMERA"
    } else if i == 25 {
        "BANDAI TAMA5"
    } else if i == 26 {
        "HuC3"
    } else if i == 27 {
        "HuC1+RAM+BATTERY"
    } else {
        ""
    }
}

/// The names of the licensees, in the order of their list.
pub open spec fn license_names(i: int) -> &'static str {
    if i == 0 {
        "None"
    } else if i == 1 {
        "Nintendo R&D1"
    } else if i == 2 {
        "Capcom"
    } else if i == 3 {
        "Electronic Arts"
    } else if i == 4 {
        "Hudson Soft"
    } else if i == 5 {
        "b-ai"
    } else if i == 6 {
        "kss"
    } else if i == 7 {
        "pow"
    } else if i == 8 {
        "PCM Complete"
    } else if i == 9 {
        "san-x"
    } else if i == 10 {
        "Kemco Japan"
    } else if i == 11 {
        "seta"
    } else if i == 12 {
        "Viacom"
    } else if i == 13 {
        "Nintendo"
    } else if i == 14 {
        "Bandai"
    } else if i == 15 {
        "Ocean/Acclaim"
    } else if i == 16 {
        "Konami"
    } else if i == 17 {
        "Hector"
    } else if i == 18 {
        "Taito"
    } else if i == 19 {
        "Hudson"
    } else if i == 20 {
        "Banpresto"
    } else if i == 21 {
        "UbiSoft"
    } else if i == 22 {
        "Atlus"
    } else if i == 23 {
        "Malibu"
    } else if i == 24 {
        "angel"
    } else if i == 25 {
        "Bullet-Proof"
    } else if i == 26 {
        "irem"
    } else if i == 27 {
        "Absolute"
    } else if i == 28 {
        "Acclaim"
    } else if i == 29 {
        "Activision"
    } else if i == 30 {
        "American sammy"
    } else if i == 31 {
        "Konami"
    } else if i == 32 {
        "Hi tech entertainment"
    } else if i == 33 {
        "LJN"
    } else if i == 34 {
        "Matchbox"
    } else if i == 35 {
        "Mattel"
    } else if i == 36 {
        "Milton Bradley"
    } else if i == 37 {
        "Titus"
    } else if i == 38 {
        "Virgin"
    } else if i == 39 {
        "LucasArts"
    } else if i == 40 {
        "Ocean"
    } else if i == 41 {
        "Electronic Arts"
    } else if i == 42 {
        "Infogrames"
    } else if i == 43 {
        "Interplay"
    } else if i == 44 {
        "Broderbund"
    } else if i == 45 {
        "sculptured"
    } else if i == 46 {
        "sci"
    } else if i == 47 {
        "THQ"
    } else if i == 48 {
        "Accolade"
    } else if i == 49 {
        "misawa"
    } else if i == 50 {
        "lozc"
    } else if i == 51 {
        "Tokuma Shoten Intermedia"
    } else if i == 52 {
        "Tsukuda Original"
    } else if i == 53 {
        "Chunsoft"
    } else if i == 54 {
        "Video system"
    } else if i == 55 {
        "Ocean/Acclaim"
    } else if i == 56 {
        "Varie"
    } else if i == 57 {
        "Yonezawa/s’pal"
    } else if i == 58 {
        "Kaneko"
    } else if i == 59 {
        "Pack in soft"
    } else if i == 60 {
        "Bottom Up"
    } else if i == 61 {
        "Konami (Yu-Gi-Oh!)"
    } else {
        ""
    }
}

/// The name of a cartridge's type: the entry of the type list at the type
/// byte when it is at most 0x22, "UNKNOWN" above.
pub open spec fn rom_type_name_spec(cart: &Cartridge) -> &'static str {
    if cart.rom_header.rom_type <= 0x22 {
        rom_type_names(cart.rom_header.rom_type as int)
    } else {
        "UNKNOWN"
    }
}

/// The name of a cartridge's licensee: the entry of the licensee list at the
/// old licence code when the new licence code is at most 0xA4, "UNKNOWN"
/// otherwise.
pub open spec fn rom_license_name_spec(cart: &Cartridge) -> &'static str {
    if cart.rom_header.new_license_code <= 0xA4 {
        license_names(cart.rom_header.license_code as int)
    } else {
        "UNKNOWN"
    }
}

fn rom_type_at(i: u8) -> (r: &'static str)
    requires
        i < 28,
    ensures
        r == rom_type_names(i as int),
{
    match i {
            0 => "ROM ONLY",
            1 => "MBC1",
            2 => "MBC1+RAM",
            3 => "MBC1+RAM+BATTERY",
            4 => "MBC2",
            5 => "MBC2+BATTERY",
            6 => "ROM+RAM",
            7 => "ROM+RAM+BATTERY",
            8 => "MMM01",
            9 => "MMM01+RAM",
            10 => "MMM01+RAM+BATTERY",
            11 => "MBC3+TIMER+BATTERY",
            12 => "MBC3+TIMER+RAM+BATTERY",
            13 => "MBC3",
            14 => "MBC3+RAM",
            15 => "MBC3+RAM+BATTERY",
            16 => "MBC5",
            17 => "MBC5+RAM",
            18 => "MBC5+RAM+BATTERY",
            19 => "MBC5+RUMBLE",
            20 => "MBC5+RUMBLE+RAM",
            21 => "MBC5+RUMBLE+RAM+BATTERY",
            22 => "MBC6",
            23 => "MBC7+SENSOR+RUMBLE+RAM+BATTERY",
            24 => "POCKET CAMERA",
            25 => "BANDAI TAMA5",
            26 => "HuC3",
            _ => "HuC1+RAM+BATTERY",
    }
}

fn license_at(i: u8) -> (r: &'static str)
    requires
        i < 62,
    ensures
        r == license_names(i as int),
{
    match i {
            0 => "None",
            1 => "Nintendo R&D1",
            2 => "Capcom",
            3 => "Electronic Arts",
            4 => "Hudson Soft",
            5 => "b-ai",
            6 => "kss",
            7 => "pow",
            8 => "PCM Complete",
            9 => "san-x",
            10 => "Kemco Japan",
            11 => "seta",
            12 => "Viacom",
            13 => "Nintendo",
            14 => "Bandai",
            15 => "Ocean/Acclaim",
            16 => "Konami",
            17 => "Hector",
            18 => "Taito",
            19 => "Hudson",
            20 => "Banpresto",
            21 => "UbiSoft",
            22 => "Atlus",
            23 => "Malibu",
            24 => "angel",
            25 => "Bullet-Proof",
            26 => "irem",
            27 => "Absolute",
            28 => "Acclaim",
            29 => "Activision",
            30 => "American sammy",
            31 => "Konami",
            32 => "Hi tech entertainment",
            33 => "LJN",
            34 => "Matchbox",
            35 => "Mattel",
            36 => "Milton Bradley",
            37 => "Titus",
            38 => "Virgin",
            39 => "LucasArts",
            40 => "Ocean",
            41 => "Electronic Arts",
            42 => "Infogrames",
            43 => "Interplay",
            44 => "Broderbund",
            45 => "sculptured",
            46 => "sci",
            47 => "THQ",
            48 => "Accolade",
            49 => "misawa",
            50 => "lozc",
            51 => "Tokuma Shoten Intermedia",
            52 => "Tsukuda Original",
            53 => "Chunsoft",
            54 => "Video system",
            55 => "Ocean/Acclaim",
            56 => "Varie",
            57 => "Yonezawa/s’pal",
            58 => "Kaneko",
            59 => "Pack in soft",
            60 => "Bottom Up",
            _ => "Konami (Yu-Gi-Oh!)",
    }
}

/// The name of the cartridge type. Type bytes from 28 to 0x22 lie past the
/// end of the list.
pub fn rom_type_name(cart: &Cartridge) -> (r: &'static str)
    requires
        cart.rom_header.rom_type < 28 || cart.rom_header.rom_type > 0x22,
    ensures
        r == rom_type_name_spec(cart),
{
    let rom_type = cart.rom_header.rom_type;
    if rom_type <= 0x22 {
        return rom_type_at(rom_type);
    }
    "UNKNOWN"
}

/// The name of the licensee. Old licence codes from 62 up lie past the end
/// of the list.
pub fn rom_license_name(cart: &Cartridge) -> (r: &'static str)
    requires
        cart.rom_header.new_license_code > 0xA4 || cart.rom_header.license_code < 62,
    ensures
        r == rom_license_name_spec(cart),
{
    if cart.rom_header.new_license_code <= 0xA4 {
        return license_at(cart.rom_header.license_code);
    }
    "UNKNOWN"
}

/// The big-endian word at `i` and `i + 1`.
pub open spec fn be16(data: Seq<u8>, i: int) -> u16 {
    (data[i] * 256 + data[i + 1]) as u16
}

/// The header that the ROM bytes hold from offset 101 on: entry (4 bytes),
/// logo (48), title (16), new licence code (2, big-endian), SGB flag,
/// type, ROM size, RAM size, destination, old licence code, version,
/// header checksum, global checksum (2, big-endian).
pub open spec fn header_of(data: Seq<u8>, h: RomHeader) -> bool {
    let s = HEADER_START as int;
    &&& h.entry@ == data.subrange(s, s + 4)
    &&& h.logo@ == data.subrange(s + 4, s + 52)
    &&& h.title@ == data.subrange(s + 52, s + 68)
    &&& h.new_license_code == be16(data, s + 68)
    &&& h.sgb_flag == data[s + 70]
    &&& h.rom_type == data[s + 71]
    &&& h.rom_size == data[s + 72]
    &&& h.ram_size == data[s + 73]
    &&& h.dest_code == data[s + 74]
    &&& h.license_code == data[s + 75]
    &&& h.version == data[s + 76]
    &&& h.checksum == data[s + 77]
    &&& h.global_checksum == be16(data, s + 78)
}

/// Copies `n` bytes from `data` at `start`.
fn copy_bytes<const N: usize>(data: &Vec<u8>, start: usize) -> (r: [u8; N])
    requires
        start + N <= data@.len(),
    ensures
        r@ == data@.subrange(start as int, start + N),
{
    let mut r = [0u8; N];
    let len = data.len();
    for i in 0..N
        invariant
            len == data@.len(),
            start + N <= data@.len(),
            forall|j: int| 0 <= j < i ==> #[trigger] r@[j] == data@[start + j],
    {
        r[i] = data[start + i];
    }
    assert(r@ =~= data@.subrange(start as int, start + N));
    r
}

impl Cartridge {
    /// Builds the cartridge from its file name and the bytes of the ROM
    /// file, reading the header at offset 101.
    pub fn from_rom(filename: String, data: Vec<u8>) -> (cart: Cartridge)
        requires
            data@.len() >= MIN_ROM_LEN,
        ensures
            cart.filename == filename,
            cart.rom_data@ == data@,
            cart.rom_size == data@.len(),
            header_of(data@, cart.rom_header),
    {
        let s = HEADER_START;
        let header = RomHeader {
            entry: copy_bytes(&data, s),
            logo: copy_bytes(&data, s + 4),
            title: copy_bytes(&data, s + 52),
            new_license_code: (data[s + 68] as u16) * 256 + data[s + 69] as u16,
            sgb_flag: data[s + 70],
            rom_type: data[s + 71],
            rom_size: data[s + 72],
            ram_size: data[s + 73],
            dest_code: data[s + 74],
            license_code: data[s + 75],
            version: data[s + 76],
            checksum: data[s + 77],
            global_checksum: (data[s + 78] as u16) * 256 + data[s + 79] as u16,
        };
        let size = data.len() as u64;
        Cartridge { filename: filename, rom_size: size, rom_data: data, rom_header: header }
    }
}

/// The header checksum over 0x134-0x14C: starting from 0, each byte and one
/// more are subtracted, wrapping.
pub open spec fn header_checksum_spec(data: Seq<u8>, end: int) -> u8
    decreases end - 0x134,
{
    if end <= 0x134 {
        0
    } else {
        ((header_checksum_spec(data, end - 1) - data[end - 1] - 1) % 256) as u8
    }
}

pub fn header_checksum(data: &Vec<u8>) -> (check: u8)
    requires
        data@.len() >= MIN_ROM_LEN,
    ensures
        check == header_checksum_spec(data@, 0x14D),
{
    let mut check: u8 = 0;
    for address in 0x0134..0x014c + 1
        invariant
            data@.len() >= MIN_ROM_LEN,
            check == header_checksum_spec(data@, address as int),
    {
        check = check.wrapping_sub(data[address]).wrapping_sub(1);
    }
    check
}

/// Whether a ROM file of `rom_size` bytes is within the limit of
/// `max_size_kb` kilobytes (1024 bytes each) that the loader accepts.
pub fn rom_fits(rom_size: usize, max_size_kb: usize) -> (r: bool)
    requires
        max_size_kb * 1024 <= usize::MAX,
    ensures
        r == (rom_size <= max_size_kb * 1024),
{
    rom_size <= max_size_kb * 1024
}

/// Reads a byte of the ROM.
pub fn rom_read(cart: &Cartridge, address: u16) -> (r: u8)
    requires
        (address as int) < cart.rom_data@.len(),
    ensures
        r == cart.rom_data@[address as int],
{
    cart.rom_data[address as usize]
}

/// Writes to ROM are ignored.
pub fn rom_write(address: u16, val: u8) {
}

} // verus!
