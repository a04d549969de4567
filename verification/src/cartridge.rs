//! Cartridge parsing: header detection, LoROM/HiROM mapping.

use vstd::prelude::*;

verus! {

broadcast use vstd::string::group_string_axioms;

#[derive(Debug, Clone, Copy, PartialEq, Eq, Structural)]
pub enum MapMode {
    LoRom,
    HiRom,
}

pub struct Cartridge {
    rom: Vec<u8>,
    map_mode: MapMode,
    title: String,
    cart_type: u8,
    sram_size: usize,
}

/// Little-endian 16-bit word from two bytes.
pub open spec fn le16(lo: u8, hi: u8) -> u16 {
    ((lo as u16) | ((hi as u16) << 8u16)) as u16
}

/// Image with a 512-byte copier header removed when one is present.
pub open spec fn strip_copier_header(data: Seq<u8>) -> Seq<u8> {
    if data.len() % 0x8000 == 512 {
        data.subrange(512, data.len() as int)
    } else {
        data
    }
}

pub open spec fn is_printable(b: u8) -> bool {
    0x20 <= b < 0x7F
}

/// Number of printable ASCII bytes in `s`.
pub open spec fn count_printable(s: Seq<u8>) -> nat
    decreases s.len(),
{
    if s.len() == 0 {
        0
    } else {
        count_printable(s.drop_last()) + if is_printable(s.last()) {
            1nat
        } else {
            0nat
        }
    }
}

pub open spec fn is_header_map_byte(mode: u8) -> bool {
    mode == 0x20 || mode == 0x21 || mode == 0x30 || mode == 0x31
}

/// Plausibility score of a header candidate at `off`: 2 for a valid
/// checksum/complement pair, 1 for a known map-mode byte, 1 for a mostly
/// printable title.
pub open spec fn header_score(data: Seq<u8>, off: int) -> nat {
    if data.len() < off + 0x40 {
        0
    } else {
        (if le16(data[off + 0x1E], data[off + 0x1F]) ^ le16(data[off + 0x1C], data[off + 0x1D])
            == 0xFFFF {
            2nat
        } else {
            0nat
        }) + (if is_header_map_byte(data[off + 0x15]) {
            1nat
        } else {
            0nat
        }) + (if count_printable(data.subrange(off, off + 21)) >= 16 {
            1nat
        } else {
            0nat
        })
    }
}

/// Layout chosen for an image: HiROM only when its header scores strictly higher.
pub open spec fn detect_map_mode(data: Seq<u8>) -> MapMode {
    if header_score(data, 0xFFC0) > header_score(data, 0x7FC0) {
        MapMode::HiRom
    } else {
        MapMode::LoRom
    }
}

pub open spec fn header_offset(mode: MapMode) -> int {
    match mode {
        MapMode::LoRom => 0x7FC0,
        MapMode::HiRom => 0xFFC0,
    }
}

/// Save RAM size declared by header byte $18: 1 KiB << n for 0 < n < 16.
pub open spec fn sram_size_from_shift(shift: u8) -> usize {
    if 0 < shift < 16 {
        1024usize << shift
    } else {
        0
    }
}

/// Unicode `White_Space` code points, the set `str::trim` removes.
pub open spec fn is_unicode_whitespace(c: char) -> bool {
    let u = c as u32;
    (0x09 <= u <= 0x0D) || u == 0x20 || u == 0x85 || u == 0xA0 || u == 0x1680 || (0x2000 <= u
        <= 0x200A) || u == 0x2028 || u == 0x2029 || u == 0x202F || u == 0x205F || u == 0x3000
}

pub open spec fn trim_start_spec(s: Seq<char>) -> Seq<char>
    decreases s.len(),
{
    if s.len() > 0 && is_unicode_whitespace(s[0]) {
        trim_start_spec(s.drop_first())
    } else {
        s
    }
}

pub open spec fn trim_end_spec(s: Seq<char>) -> Seq<char>
    decreases s.len(),
{
    if s.len() > 0 && is_unicode_whitespace(s.last()) {
        trim_end_spec(s.drop_last())
    } else {
        s
    }
}

pub open spec fn trim_spec(s: Seq<char>) -> Seq<char> {
    trim_end_spec(trim_start_spec(s))
}

/// Characters that `String::from_utf8_lossy` produces for a byte string.
pub uninterp spec fn utf8_lossy_view(bytes: Seq<u8>) -> Seq<char>;

/// `String::from_utf8_lossy`: decodes `bytes`, replacing invalid
/// sequences with U+FFFD. The contract names the result and states the
/// documented fact that pure ASCII input decodes to the same characters.
#[verifier::external_body]
fn utf8_lossy(bytes: &[u8]) -> (s: String)
    ensures
        s@ == utf8_lossy_view(bytes@),
        (forall|i: int| 0 <= i < bytes@.len() ==> bytes@[i] < 0x80) ==> s@ == bytes@.map_values(
            |b: u8| b as char,
        ),
{
    String::from_utf8_lossy(bytes).into_owned()
}

/// `str::trim`: removes leading and trailing Unicode whitespace.
#[verifier::external_body]
fn trim_owned(s: &str) -> (t: String)
    ensures
        t@ == trim_spec(s@),
{
    s.trim().to_string()
}

/// Cartridge ROM byte at a CPU address under the given layout, or `None`
/// where the layout maps no ROM.
pub open spec fn rom_offset(mode: MapMode, bank: u8, addr: u16) -> Option<int> {
    match mode {
        MapMode::LoRom => {
            let b = (bank & 0x7F) as int;
            if 0x40 <= b <= 0x7D {
                Some((b - 0x40) * 0x10000 + addr)
            } else if addr >= 0x8000 {
                Some(b * 0x8000 + (addr & 0x7FFF))
            } else {
                None
            }
        },
        MapMode::HiRom => {
            if bank >= 0xC0 {
                Some((bank - 0xC0) * 0x10000 + addr)
            } else if addr >= 0x8000 {
                Some((bank & 0x3F) * 0x10000 + addr)
            } else {
                None
            }
        },
    }
}

pub open spec fn cart_read_spec(mode: MapMode, rom: Seq<u8>, bank: u8, addr: u16) -> u8 {
    match rom_offset(mode, bank, addr) {
        None => 0,
        Some(off) => if rom.len() == 0 {
            0
        } else {
            rom[off % (rom.len() as int)]
        },
    }
}

impl Cartridge {
    pub closed spec fn spec_rom(&self) -> Seq<u8> {
        self.rom@
    }

    pub closed spec fn spec_map_mode(&self) -> MapMode {
        self.map_mode
    }

    pub closed spec fn spec_cart_type(&self) -> u8 {
        self.cart_type
    }

    pub closed spec fn spec_sram_size(&self) -> usize {
        self.sram_size
    }

    pub closed spec fn spec_title(&self) -> Seq<char> {
        self.title@
    }

    /// What `load` produces from `data`, once it has been accepted.
    pub open spec fn loaded_from(&self, data: Seq<u8>) -> bool {
        let d = strip_copier_header(data);
        let mode = detect_map_mode(d);
        let h = header_offset(mode);
        &&& self.spec_rom() == d
        &&& self.spec_map_mode() == mode
        &&& self.spec_title() == trim_spec(utf8_lossy_view(d.subrange(h, h + 21)))
        &&& (forall|i: int| h <= i < h + 21 ==> #[trigger] d[i] < 0x80) ==> self.spec_title() == trim_spec(
            d.subrange(h, h + 21).map_values(|b: u8| b as char),
        )
        &&& self.spec_cart_type() == d[h + 0x16]
        &&& self.spec_sram_size() == sram_size_from_shift(d[h + 0x18])
    }

    pub fn load(data: &[u8]) -> (res: Result<Self, String>)
        ensures
            res is Err <==> strip_copier_header(data@).len() < 0x8000,
            res matches Ok(c) ==> c.loaded_from(data@),
            res matches Err(e) ==> e@ == "ROM too small"@,
    {
        let d: &[u8] = if data.len() % 0x8000 == 512 {
            &data[512..data.len()]
        } else {
            data
        };
        assert(d@ == strip_copier_header(data@));
        if d.len() < 0x8000 {
            return Err("ROM too small".to_string());
        }
        let lorom_score = Self::score_header(d, 0x7FC0);
        let hirom_score = Self::score_header(d, 0xFFC0);
        let (map_mode, header): (MapMode, usize) = if hirom_score > lorom_score {
            (MapMode::HiRom, 0xFFC0)
        } else {
            (MapMode::LoRom, 0x7FC0)
        };
        if header + 0x40 > d.len() {
            // Only the LoROM header can be chosen for images this short,
            // and every image of at least 0x8000 bytes holds it.
            assert(false);
        }
        let raw = utf8_lossy(&d[header..header + 21]);
        let title = trim_owned(raw.as_str());
        let cart_type = d[header + 0x16];
        // Header byte 0x18: SRAM size as 1 KB << n. Some carts (DSP-1 games)
        // leave it 0 despite having battery-backed RAM; the bus falls back
        // to 8 KB for cart types known to carry SRAM.
        let sram_shift = d[header + 0x18];
        let sram_size: usize = if sram_shift > 0 && sram_shift < 16 {
            1024usize << sram_shift
        } else {
            0
        };
        let mut rom: Vec<u8> = Vec::with_capacity(d.len());
        let mut i: usize = 0;
        while i < d.len()
            invariant
                i <= d@.len(),
                rom@ == d@.subrange(0, i as int),
            decreases d@.len() - i,
        {
            rom.push(d[i]);
            i += 1;
            assert(rom@ == d@.subrange(0, i as int));
        }
        assert(rom@ == d@);
        Ok(Cartridge { rom, map_mode, title, cart_type, sram_size })
    }

    fn score_header(data: &[u8], off: usize) -> (score: u32)
        requires
            off <= 0xFFC0,
        ensures
            score as nat == header_score(data@, off as int),
    {
        if data.len() < off + 0x40 {
            return 0;
        }
        let mut score: u32 = 0;
        let checksum: u16 = (data[off + 0x1E] as u16) | ((data[off + 0x1F] as u16) << 8u16);
        let complement: u16 = (data[off + 0x1C] as u16) | ((data[off + 0x1D] as u16) << 8u16);
        if checksum ^ complement == 0xFFFF {
            score += 2;
        }
        let mode = data[off + 0x15];
        if mode == 0x20 || mode == 0x21 || mode == 0x30 || mode == 0x31 {
            score += 1;
        }
        // Title should be mostly printable ASCII.
        let mut printable: usize = 0;
        let mut i: usize = 0;
        while i < 21
            invariant
                i <= 21,
                off <= 0xFFC0,
                off + 0x40 <= data@.len(),
                printable as nat == count_printable(data@.subrange(off as int, off + i)),
                printable <= i,
            decreases 21 - i,
        {
            let b = data[off + i];
            assert(data@.subrange(off as int, off + i + 1).drop_last() == data@.subrange(
                off as int,
                off + i,
            ));
            if b >= 0x20 && b < 0x7F {
                printable += 1;
            }
            i += 1;
        }
        if printable >= 16 {
            score += 1;
        }
        score
    }

    pub fn title(&self) -> (t: &str)
        ensures
            t@ == self.spec_title(),
    {
        self.title.as_str()
    }

    pub fn map_mode(&self) -> (m: MapMode)
        ensures
            m == self.spec_map_mode(),
    {
        self.map_mode
    }

    /// Cartridge type byte (header offset $16): ROM/RAM/battery/coprocessor.
    pub fn cart_type(&self) -> (t: u8)
        ensures
            t == self.spec_cart_type(),
    {
        self.cart_type
    }

    pub fn sram_size(&self) -> (n: usize)
        ensures
            n == self.spec_sram_size(),
    {
        self.sram_size
    }

    /// The ROM image.
    pub fn rom_bytes(&self) -> (r: &[u8])
        ensures
            r@ == self.spec_rom(),
    {
        self.rom.as_slice()
    }

    pub fn rom_len(&self) -> (n: usize)
        ensures
            n == self.spec_rom().len(),
    {
        self.rom.len()
    }

    /// Read a byte from cartridge ROM at a CPU address (bank:addr).
    pub fn read(&self, bank: u8, addr: u16) -> (v: u8)
        ensures
            v == cart_read_spec(self.spec_map_mode(), self.spec_rom(), bank, addr),
    {
        let offset: usize = match self.map_mode {
            MapMode::LoRom => {
                let b = (bank & 0x7F) as usize;
                if b >= 0x40 && b <= 0x7D {
                    // Banks $40-$7D: full 64KB ROM mapping
                    (b - 0x40) * 0x10000 + addr as usize
                } else if addr >= 0x8000 {
                    // Banks $00-$3F and $80-$FF: ROM at $8000-$FFFF
                    b * 0x8000 + (addr & 0x7FFF) as usize
                } else {
                    return 0;
                }
            },
            MapMode::HiRom => {
                // $C0-FF:$0000-FFFF and $00-3F:$8000-FFFF (mirrors)
                if bank >= 0xC0 {
                    (bank as usize - 0xC0) * 0x10000 + addr as usize
                } else if addr >= 0x8000 {
                    ((bank & 0x3F) as usize) * 0x10000 + addr as usize
                } else {
                    return 0;
                }
            },
        };
        if self.rom.len() == 0 {
            return 0;
        }
        self.rom[offset % self.rom.len()]
    }
}

/// LoROM ignores the top bank bit: banks $80-$FF mirror banks $00-$7F.
pub proof fn lemma_lorom_high_banks_mirror(rom: Seq<u8>, bank: u8, addr: u16)
    requires
        bank < 0x80,
    ensures
        cart_read_spec(MapMode::LoRom, rom, (bank + 0x80) as u8, addr) == cart_read_spec(
            MapMode::LoRom,
            rom,
            bank,
            addr,
        ),
{
    vstd::bits::lemma_low_bits_mask_values();
    vstd::arithmetic::power2::lemma2_to64();
    vstd::bits::lemma_u8_low_bits_mask_is_mod(bank, 7);
    vstd::bits::lemma_u8_low_bits_mask_is_mod((bank + 0x80) as u8, 7);
    assert(bank & 0x7F == bank % 128);
    assert(((bank + 0x80) as u8) & 0x7F == ((bank + 0x80) as u8) % 128);
    assert(((bank + 0x80) as u8) & 0x7F == bank & 0x7F);
}

/// HiROM: the upper halves of banks $00-$3F mirror banks $C0-$FF.
pub proof fn lemma_hirom_low_banks_mirror(rom: Seq<u8>, bank: u8, addr: u16)
    requires
        bank < 0x40,
        addr >= 0x8000,
    ensures
        cart_read_spec(MapMode::HiRom, rom, bank, addr) == cart_read_spec(
            MapMode::HiRom,
            rom,
            (bank + 0xC0) as u8,
            addr,
        ),
{
    vstd::bits::lemma_low_bits_mask_values();
    vstd::arithmetic::power2::lemma2_to64();
    vstd::bits::lemma_u8_low_bits_mask_is_mod(bank, 6);
    assert(bank & 0x3F == bank % 64);
}

/// A 512-byte copier header in front of a whole number of 32 KiB blocks is
/// removed, leaving exactly the ROM image.
pub proof fn lemma_copier_header_stripped(header: Seq<u8>, rom: Seq<u8>)
    requires
        header.len() == 512,
        rom.len() % 0x8000 == 0,
    ensures
        strip_copier_header(header + rom) == rom,
{
    assert((header + rom).len() % 0x8000 == 512);
    assert((header + rom).subrange(512, (header + rom).len() as int) =~= rom);
}

} // verus!
