//! Cartridge-image loader: parses a raw iNES ROM image into a program-code
//! region, a character (pattern) data region, a mapper identifier and a
//! nametable-mirroring mode. Pure and stateless: bytes in, record or typed
//! failure out.

use vstd::prelude::*;

verus! {

/// Number of bytes in one program-code page.
pub const PRG_ROM_PAGE_SIZE: usize = 16384;

/// Number of bytes in one character-data page.
pub const CHR_ROM_PAGE_SIZE: usize = 8192;

/// Number of bytes in the fixed header.
pub const HEADER_SIZE: usize = 16;

/// Number of bytes in the optional trainer block between header and program data.
pub const TRAINER_SIZE: usize = 512;

/// How the cartridge asks the picture unit to alias its four logical
/// nametables onto the two physical 1KB banks.
#[derive(Clone, Copy, Debug, PartialEq, Eq, Structural)]
pub enum Mirroring {
    Vertical,
    Horizontal,
    FourScreen,
}

/// Why a ROM image was rejected by the loader. Every failure is permanent:
/// malformed input is never retried.
#[derive(Clone, Copy, Debug, PartialEq, Eq, Structural)]
pub enum ParseError {
    /// The image does not begin with the iNES magic signature.
    InvalidFormat,
    /// The header declares a newer format revision than the legacy one handled here.
    UnsupportedFormat,
    /// The image is shorter than the header, or the header declares more
    /// data than the image holds.
    OutOfBounds,
}

/// A parsed cartridge image. Immutable once constructed.
#[derive(Debug, PartialEq)]
pub struct NesRom {
    pub prg_rom: Vec<u8>,
    pub chr_rom: Vec<u8>,
    pub mapper: u8,
    pub mirror: Mirroring,
}

/// The image begins with the 4-byte iNES magic signature.
pub open spec fn magic_ok(s: Seq<u8>) -> bool {
    s.len() >= 4 && s[0] == 0x4Eu8 && s[1] == 0x45u8 && s[2] == 0x53u8 && s[3] == 0x1Au8
}

/// Format-version field: bits 2-3 of header byte 7. Only version 0 (the
/// legacy format) is handled.
pub open spec fn spec_version(b7: u8) -> u8 {
    (b7 >> 2) & 0x03
}

/// Mapper identifier: high nibble of header byte 7 joined with the high
/// nibble of header byte 6.
pub open spec fn spec_mapper(b6: u8, b7: u8) -> u8 {
    (b7 & 0xF0) | (b6 >> 4)
}

/// Mirroring mode from header byte 6: the four-screen bit (bit 3) takes
/// precedence; otherwise bit 0 selects vertical (set) or horizontal (clear).
pub open spec fn spec_mirroring(b6: u8) -> Mirroring {
    if b6 & 0x08u8 != 0 {
        Mirroring::FourScreen
    } else if b6 & 0x01u8 != 0 {
        Mirroring::Vertical
    } else {
        Mirroring::Horizontal
    }
}

/// A 512-byte trainer block precedes the program data (header byte 6, bit 2).
pub open spec fn has_trainer(b6: u8) -> bool {
    b6 & 0x04u8 != 0
}

/// Offset of the program data: right after the header, plus the trainer if
/// one is declared.
pub open spec fn spec_prg_start(s: Seq<u8>) -> int {
    HEADER_SIZE + if has_trainer(s[6]) { TRAINER_SIZE as int } else { 0 }
}

/// Declared program-data length: header byte 4 counts 16384-byte pages.
pub open spec fn spec_prg_size(s: Seq<u8>) -> int {
    s[4] * PRG_ROM_PAGE_SIZE
}

/// Declared character-data length: header byte 5 counts 8192-byte pages.
pub open spec fn spec_chr_size(s: Seq<u8>) -> int {
    s[5] * CHR_ROM_PAGE_SIZE
}

/// Total number of bytes the header lays claim to.
pub open spec fn spec_total_len(s: Seq<u8>) -> int {
    spec_prg_start(s) + spec_prg_size(s) + spec_chr_size(s)
}

/// An image parses successfully exactly when it has a full header, the magic
/// signature, the legacy format version, and enough bytes for everything the
/// header declares.
pub open spec fn parse_ok(s: Seq<u8>) -> bool {
    &&& s.len() >= HEADER_SIZE
    &&& magic_ok(s)
    &&& spec_version(s[7]) == 0
    &&& s.len() >= spec_total_len(s)
}

/// Which error a rejected image is reported with. Checks run in a fixed
/// order: length of the header, magic signature, format version, then the
/// declared region sizes against the image length.
pub open spec fn spec_parse_err(s: Seq<u8>) -> ParseError
    recommends
        !parse_ok(s),
{
    if s.len() < HEADER_SIZE {
        ParseError::OutOfBounds
    } else if !magic_ok(s) {
        ParseError::InvalidFormat
    } else if spec_version(s[7]) != 0 {
        ParseError::UnsupportedFormat
    } else {
        ParseError::OutOfBounds
    }
}

/// The program-data slice of a well-formed image.
pub open spec fn spec_prg(s: Seq<u8>) -> Seq<u8>
    recommends
        parse_ok(s),
{
    s.subrange(spec_prg_start(s), spec_prg_start(s) + spec_prg_size(s))
}

/// The character-data slice of a well-formed image: it follows the program
/// data immediately.
pub open spec fn spec_chr(s: Seq<u8>) -> Seq<u8>
    recommends
        parse_ok(s),
{
    s.subrange(spec_prg_start(s) + spec_prg_size(s), spec_total_len(s))
}

/// Header byte 6's mirroring bits for a mode: the four-screen flag (bit 3)
/// or the vertical flag (bit 0).
pub open spec fn spec_mirror_bits(m: Mirroring) -> u8 {
    match m {
        Mirroring::FourScreen => 0x08u8,
        Mirroring::Vertical => 0x01u8,
        Mirroring::Horizontal => 0x00u8,
    }
}

/// The 16-byte header that declares a record's page counts, mapper and
/// mirroring mode, with no trainer and the legacy format version.
pub open spec fn spec_header(rom: NesRom) -> Seq<u8> {
    seq![
        0x4Eu8,
        0x45u8,
        0x53u8,
        0x1Au8,
        ((rom.prg_rom@.len() as int) / (PRG_ROM_PAGE_SIZE as int)) as u8,
        ((rom.chr_rom@.len() as int) / (CHR_ROM_PAGE_SIZE as int)) as u8,
        ((rom.mapper & 0x0F) << 4) | spec_mirror_bits(rom.mirror),
        rom.mapper & 0xF0,
        0u8,
        0u8,
        0u8,
        0u8,
        0u8,
        0u8,
        0u8,
        0u8,
    ]
}

/// A whole image for a record: its header followed by the program bytes and
/// then the character bytes.
pub open spec fn spec_serialize(rom: NesRom) -> Seq<u8> {
    spec_header(rom) + rom.prg_rom@ + rom.chr_rom@
}

/// Copies `src[start..end]` into a fresh vector.
fn copy_range(src: &Vec<u8>, start: usize, end: usize) -> (r: Vec<u8>)
    requires
        start <= end <= src.len(),
    ensures
        r@ == src@.subrange(start as int, end as int),
{
    let mut out: Vec<u8> = Vec::new();
    let mut i: usize = start;
    while i < end
        invariant
            start <= i <= end <= src.len(),
            out@ == src@.subrange(start as int, i as int),
        decreases end - i,
    {
        out.push(src[i]);
        i = i + 1;
        proof {
            assert(out@ =~= src@.subrange(start as int, i as int));
        }
    }
    out
}

impl NesRom {
    /// Both regions hold whole pages, and no more pages than a one-byte
    /// count can declare. Every record the loader produces satisfies this.
    pub open spec fn wf(&self) -> bool {
        &&& (self.prg_rom@.len() as int) % (PRG_ROM_PAGE_SIZE as int) == 0
        &&& self.prg_rom@.len() <= 255 * PRG_ROM_PAGE_SIZE
        &&& (self.chr_rom@.len() as int) % (CHR_ROM_PAGE_SIZE as int) == 0
        &&& self.chr_rom@.len() <= 255 * CHR_ROM_PAGE_SIZE
    }

    /// Parses a raw ROM image. Succeeds exactly on the images `parse_ok`
    /// admits, and reports each rejection with the error `spec_parse_err`
    /// names; never reads past the end of the input.
    pub fn new(raw: &Vec<u8>) -> (r: Result<NesRom, ParseError>)
        ensures
            parse_ok(raw@) ==> (r matches Ok(rom)
                && rom.prg_rom@ == spec_prg(raw@)
                && rom.chr_rom@ == spec_chr(raw@)
                && rom.mapper == spec_mapper(raw@[6], raw@[7])
                && rom.mirror == spec_mirroring(raw@[6])
                && rom.wf()),
            !parse_ok(raw@) ==> (r matches Err(e) && e == spec_parse_err(raw@)),
    {
        if raw.len() < HEADER_SIZE {
            return Err(ParseError::OutOfBounds);
        }
        if !(raw[0] == 0x4E && raw[1] == 0x45 && raw[2] == 0x53 && raw[3] == 0x1A) {
            return Err(ParseError::InvalidFormat);
        }
        let b6 = raw[6];
        let b7 = raw[7];
        if (b7 >> 2) & 0x03 != 0 {
            return Err(ParseError::UnsupportedFormat);
        }
        let mapper = (b7 & 0xF0) | (b6 >> 4);
        let four_screen = b6 & 0x08 != 0;
        let vertical_mirroring = b6 & 0x01 != 0;
        let screen_mirroring = if four_screen {
            Mirroring::FourScreen
        } else if vertical_mirroring {
            Mirroring::Vertical
        } else {
            Mirroring::Horizontal
        };
        let prg_rom_size = (raw[4] as usize) * PRG_ROM_PAGE_SIZE;
        let chr_rom_size = (raw[5] as usize) * CHR_ROM_PAGE_SIZE;
        let skip_trainer = b6 & 0x04 != 0;
        let prg_rom_start = HEADER_SIZE + if skip_trainer { TRAINER_SIZE } else { 0 };
        let chr_rom_start = prg_rom_start + prg_rom_size;
        if raw.len() < chr_rom_start + chr_rom_size {
            return Err(ParseError::OutOfBounds);
        }
        let prg_rom = copy_range(raw, prg_rom_start, chr_rom_start);
        let chr_rom = copy_range(raw, chr_rom_start, chr_rom_start + chr_rom_size);
        proof {
            assert((raw@[4] * (PRG_ROM_PAGE_SIZE as int)) % (PRG_ROM_PAGE_SIZE as int) == 0)
                by (nonlinear_arith);
            assert((raw@[5] * (CHR_ROM_PAGE_SIZE as int)) % (CHR_ROM_PAGE_SIZE as int) == 0)
                by (nonlinear_arith);
        }
        Ok(NesRom { prg_rom, chr_rom, mapper, mirror: screen_mirroring })
    }

    /// Writes the record back out as an image: a 16-byte header with no
    /// trainer, then the program bytes, then the character bytes. Parsing
    /// the result reproduces the record (`lemma_parse_serialize_round_trip`).
    pub fn serialize(&self) -> (r: Vec<u8>)
        requires
            self.wf(),
        ensures
            r@ == spec_serialize(*self),
    {
        proof {
            assert((self.prg_rom@.len() as int) / (PRG_ROM_PAGE_SIZE as int) <= 255)
                by (nonlinear_arith)
                requires
                    self.prg_rom@.len() <= 255 * PRG_ROM_PAGE_SIZE,
                    PRG_ROM_PAGE_SIZE == 16384usize,
            ;
            assert((self.chr_rom@.len() as int) / (CHR_ROM_PAGE_SIZE as int) <= 255)
                by (nonlinear_arith)
                requires
                    self.chr_rom@.len() <= 255 * CHR_ROM_PAGE_SIZE,
                    CHR_ROM_PAGE_SIZE == 8192usize,
            ;
        }
        let mut out: Vec<u8> = Vec::new();
        out.push(0x4E);
        out.push(0x45);
        out.push(0x53);
        out.push(0x1A);
        out.push((self.prg_rom.len() / PRG_ROM_PAGE_SIZE) as u8);
        out.push((self.chr_rom.len() / CHR_ROM_PAGE_SIZE) as u8);
        let mirror_bits: u8 = match self.mirror {
            Mirroring::FourScreen => 0x08,
            Mirroring::Vertical => 0x01,
            Mirroring::Horizontal => 0x00,
        };
        out.push(((self.mapper & 0x0F) << 4) | mirror_bits);
        out.push(self.mapper & 0xF0);
        let mut pad: usize = 0;
        while pad < 8
            invariant
                out@ == spec_header(*self).subrange(0, 8 + pad as int),
                pad <= 8,
            decreases 8 - pad,
        {
            out.push(0);
            pad = pad + 1;
            proof {
                assert(out@ =~= spec_header(*self).subrange(0, 8 + pad as int));
            }
        }
        proof {
            assert(out@ =~= spec_header(*self));
        }
        let mut i: usize = 0;
        while i < self.prg_rom.len()
            invariant
                i <= self.prg_rom.len(),
                out@ == spec_header(*self) + self.prg_rom@.subrange(0, i as int),
            decreases self.prg_rom.len() - i,
        {
            out.push(self.prg_rom[i]);
            i = i + 1;
            proof {
                assert(out@ =~= spec_header(*self) + self.prg_rom@.subrange(0, i as int));
            }
        }
        proof {
            assert(self.prg_rom@.subrange(0, self.prg_rom@.len() as int) =~= self.prg_rom@);
        }
        let mut j: usize = 0;
        while j < self.chr_rom.len()
            invariant
                j <= self.chr_rom.len(),
                out@ == spec_header(*self) + self.prg_rom@ + self.chr_rom@.subrange(0, j as int),
            decreases self.chr_rom.len() - j,
        {
            out.push(self.chr_rom[j]);
            j = j + 1;
            proof {
                assert(out@ =~= spec_header(*self) + self.prg_rom@ + self.chr_rom@.subrange(
                    0,
                    j as int,
                ));
            }
        }
        proof {
            assert(self.chr_rom@.subrange(0, self.chr_rom@.len() as int) =~= self.chr_rom@);
        }
        out
    }
}

/// Round trip: an image written out for a well-formed record parses
/// successfully, and parsing reproduces the record's program bytes,
/// character bytes, mirroring mode and mapper identifier.
pub proof fn lemma_parse_serialize_round_trip(rom: NesRom)
    requires
        rom.wf(),
    ensures
        parse_ok(spec_serialize(rom)),
        spec_prg(spec_serialize(rom)) == rom.prg_rom@,
        spec_chr(spec_serialize(rom)) == rom.chr_rom@,
        spec_mirroring(spec_serialize(rom)[6]) == rom.mirror,
        spec_mapper(spec_serialize(rom)[6], spec_serialize(rom)[7]) == rom.mapper,
{
    let s = spec_serialize(rom);
    let h = spec_header(rom);
    let p = rom.prg_rom@;
    let c = rom.chr_rom@;
    let m = rom.mapper;
    let bits = spec_mirror_bits(rom.mirror);
    assert(s.len() == 16 + p.len() + c.len());
    assert(forall|i: int| 0 <= i < 16 ==> s[i] == h[i]);
    let b6 = ((m & 0x0F) << 4) | bits;
    let b7 = m & 0xF0;
    assert(s[6] == b6 && s[7] == b7);
    assert(spec_version(b7) == 0) by (bit_vector)
        requires
            b7 == m & 0xF0,
    ;
    assert(!has_trainer(b6)) by (bit_vector)
        requires
            b6 == ((m & 0x0F) << 4) | bits && (bits == 0 || bits == 1 || bits == 8),
    ;
    assert(spec_mapper(b6, b7) == m) by (bit_vector)
        requires
            b6 == ((m & 0x0F) << 4) | bits && b7 == m & 0xF0 && (bits == 0 || bits == 1 || bits
                == 8),
    ;
    assert(b6 & 0x08u8 != 0 <==> bits == 8) by (bit_vector)
        requires
            b6 == ((m & 0x0F) << 4) | bits && (bits == 0 || bits == 1 || bits == 8),
    ;
    assert(b6 & 0x01u8 != 0 <==> bits == 1) by (bit_vector)
        requires
            b6 == ((m & 0x0F) << 4) | bits && (bits == 0 || bits == 1 || bits == 8),
    ;
    vstd::arithmetic::div_mod::lemma_fundamental_div_mod(
        p.len() as int,
        PRG_ROM_PAGE_SIZE as int,
    );
    vstd::arithmetic::div_mod::lemma_fundamental_div_mod(
        c.len() as int,
        CHR_ROM_PAGE_SIZE as int,
    );
    assert((p.len() as int) / (PRG_ROM_PAGE_SIZE as int) <= 255) by (nonlinear_arith)
        requires
            p.len() <= 255 * PRG_ROM_PAGE_SIZE,
            PRG_ROM_PAGE_SIZE == 16384usize,
    ;
    assert((c.len() as int) / (CHR_ROM_PAGE_SIZE as int) <= 255) by (nonlinear_arith)
        requires
            c.len() <= 255 * CHR_ROM_PAGE_SIZE,
            CHR_ROM_PAGE_SIZE == 8192usize,
    ;
    assert(spec_prg_size(s) == p.len());
    assert(spec_chr_size(s) == c.len());
    assert(parse_ok(s));
    assert forall|i: int| 0 <= i < p.len() implies s[16 + i] == p[i] by {
        assert((h + p)[16 + i] == p[i]);
    }
    assert(spec_prg(s) =~= p);
    assert forall|i: int| 0 <= i < c.len() implies s[16 + p.len() + i] == c[i] by {
    }
    assert(spec_chr(s) =~= c);
}

/// Trainer skip: two images whose headers agree except for the
/// trainer-present bit, and whose payloads are byte-for-byte identical but
/// for the 512-byte trainer block, parse to identical program and character
/// slices and the same mirroring mode.
pub proof fn lemma_trainer_only_offsets_data(plain: Seq<u8>, trained: Seq<u8>)
    requires
        plain.len() >= 16,
        trained.len() == plain.len() + 512,
        forall|i: int| 0 <= i < 16 && i != 6 ==> trained[i] == plain[i],
        plain[6] & 0x04u8 == 0,
        trained[6] == plain[6] | 0x04u8,
        trained.subrange(528, trained.len() as int) == plain.subrange(16, plain.len() as int),
    ensures
        parse_ok(trained) <==> parse_ok(plain),
        parse_ok(plain) ==> spec_prg(trained) == spec_prg(plain),
        parse_ok(plain) ==> spec_chr(trained) == spec_chr(plain),
        spec_mirroring(trained[6]) == spec_mirroring(plain[6]),
        spec_mapper(trained[6], trained[7]) == spec_mapper(plain[6], plain[7]),
{
    let b6 = plain[6];
    let t6 = trained[6];
    assert(!has_trainer(b6) && has_trainer(t6) && t6 & 0x08u8 == b6 & 0x08u8 && t6 & 0x01u8 == b6
        & 0x01u8 && t6 >> 4 == b6 >> 4) by (bit_vector)
        requires
            b6 & 0x04u8 == 0 && t6 == b6 | 0x04u8,
    ;
    assert(magic_ok(trained) <==> magic_ok(plain));
    assert(spec_prg_start(plain) == 16 && spec_prg_start(trained) == 528);
    assert(spec_prg_size(trained) == spec_prg_size(plain));
    assert(spec_chr_size(trained) == spec_chr_size(plain));
    assert(parse_ok(trained) <==> parse_ok(plain));
    if parse_ok(plain) {
        let tail_t = trained.subrange(528, trained.len() as int);
        let tail_p = plain.subrange(16, plain.len() as int);
        assert forall|i: int| 16 <= i < plain.len() implies trained[i + 512] == plain[i] by {
            assert(tail_t[i - 16] == tail_p[i - 16]);
        }
        assert(spec_prg(trained) =~= spec_prg(plain));
        assert(spec_chr(trained) =~= spec_chr(plain));
    }
}

} // verus!
