//! Cartridge images in the iNES 1.0 layout: a 16-byte header, an optional
//! 512-byte trainer, the program ROM and the character ROM.

use vstd::prelude::*;

verus! {

/// Bytes in one bank of program ROM.
pub const PRG_ROM_PAGE_SIZE: usize = 16384;

/// Bytes in one bank of character ROM.
pub const CHR_ROM_PAGE_SIZE: usize = 8192;

/// Bytes in the header.
pub const HEADER_SIZE: usize = 16;

/// Bytes in a trainer block.
pub const TRAINER_SIZE: usize = 512;

/// How the four logical nametables share the physical video RAM.
#[derive(Clone, Copy, Debug, PartialEq, Eq, Structural)]
pub enum Mirroring {
    VERTICAL,
    HORIZONTAL,
    FOUR_SCREEN,
}

/// Why an image was turned down.
#[derive(Clone, Copy, Debug, PartialEq, Eq, Structural)]
pub enum RomError {
    /// The image does not start with the bytes `N`, `E`, `S`, `0x1A`.
    NotInes,
    /// The header announces the NES 2.0 layout.
    Nes2Unsupported,
    /// The image ends before the header or the banks it announces.
    Truncated,
}

impl RomError {
    /// The text for this error.
    pub open spec fn spec_message(self) -> Seq<char> {
        match self {
            RomError::NotInes => "File is not in iNES file format"@,
            RomError::Nes2Unsupported => "NES2.0 format is not supported"@,
            RomError::Truncated => "File ends before the banks its header announces"@,
        }
    }

    /// A sentence that describes the error.
    pub fn message(&self) -> (s: String)
        ensures
            s@ == self.spec_message(),
    {
        match self {
            RomError::NotInes => "File is not in iNES file format".to_string(),
            RomError::Nes2Unsupported => "NES2.0 format is not supported".to_string(),
            RomError::Truncated => "File ends before the banks its header announces".to_string(),
        }
    }
}

/// A decoded cartridge.
pub struct Rom {
    pub prg_rom: Vec<u8>,
    pub chr_rom: Vec<u8>,
    pub mapper: u8,
    pub screen_mirroring: Mirroring,
}

/// The image starts with the iNES tag.
pub open spec fn has_tag(raw: Seq<u8>) -> bool {
    &&& raw.len() >= 4
    &&& raw[0] == 0x4E
    &&& raw[1] == 0x45
    &&& raw[2] == 0x53
    &&& raw[3] == 0x1A
}

/// Bits 2 and 3 of header byte 7 hold the value 2: the NES 2.0 mark.
pub open spec fn is_nes2(raw: Seq<u8>) -> bool {
    (raw[7] >> 2) & 0b11 == 2
}

/// Where the program ROM starts: after the header, and after the trainer if
/// bit 2 of byte 6 announces one.
pub open spec fn prg_start(raw: Seq<u8>) -> int {
    if raw[6] & 0b100 != 0 {
        528
    } else {
        16
    }
}

/// Size of the program ROM: byte 4 counts banks of 16 KiB.
pub open spec fn prg_len(raw: Seq<u8>) -> int {
    raw[4] as int * 16384
}

/// Size of the character ROM: byte 5 counts banks of 8 KiB.
pub open spec fn chr_len(raw: Seq<u8>) -> int {
    raw[5] as int * 8192
}

/// Where the image must end at the earliest.
pub open spec fn image_end(raw: Seq<u8>) -> int {
    prg_start(raw) + prg_len(raw) + chr_len(raw)
}

/// The mapper number: high nibble from byte 7, low nibble from byte 6.
pub open spec fn image_mapper(raw: Seq<u8>) -> u8 {
    (raw[7] & 0b1111_0000) | (raw[6] >> 4)
}

/// The mirroring: four-screen if bit 3 of byte 6 is set, else vertical if bit
/// 0 is set, else horizontal.
pub open spec fn image_mirroring(raw: Seq<u8>) -> Mirroring {
    if raw[6] & 0b1000 != 0 {
        Mirroring::FOUR_SCREEN
    } else if raw[6] & 0b1 != 0 {
        Mirroring::VERTICAL
    } else {
        Mirroring::HORIZONTAL
    }
}

/// The reason to turn the image down, if there is one. The tag is looked at
/// first, then the header's length, then the version mark, then the length of
/// the whole image.
pub open spec fn image_error(raw: Seq<u8>) -> Option<RomError> {
    if !has_tag(raw) {
        Some(RomError::NotInes)
    } else if raw.len() < 16 {
        Some(RomError::Truncated)
    } else if is_nes2(raw) {
        Some(RomError::Nes2Unsupported)
    } else if raw.len() < image_end(raw) {
        Some(RomError::Truncated)
    } else {
        None
    }
}

/// `rom` holds what the image `raw` describes.
pub open spec fn decodes_to(raw: Seq<u8>, rom: Rom) -> bool {
    &&& rom.prg_rom@ == raw.subrange(prg_start(raw), prg_start(raw) + prg_len(raw))
    &&& rom.chr_rom@ == raw.subrange(prg_start(raw) + prg_len(raw), image_end(raw))
    &&& rom.mapper == image_mapper(raw)
    &&& rom.screen_mirroring == image_mirroring(raw)
}

/// A copy of `raw[from..to]`.
fn copy_range(raw: &Vec<u8>, from: usize, to: usize) -> (out: Vec<u8>)
    requires
        from <= to <= raw.len(),
    ensures
        out@ == raw@.subrange(from as int, to as int),
{
    let mut out: Vec<u8> = Vec::new();
    let mut i: usize = from;
    while i < to
        invariant
            from <= i <= to <= raw.len(),
            out@ == raw@.subrange(from as int, i as int),
        decreases to - i,
    {
        out.push(raw[i]);
        i += 1;
        assert(out@ =~= raw@.subrange(from as int, i as int));
    }
    out
}

impl Rom {
    /// Decodes an image. It succeeds exactly on the images that
    /// [`image_error`] finds no fault with.
    pub fn new(raw: &Vec<u8>) -> (r: Result<Rom, RomError>)
        ensures
            match r {
                Ok(rom) => image_error(raw@) is None && decodes_to(raw@, rom),
                Err(e) => image_error(raw@) == Some(e),
            },
    {
        if raw.len() < 4 || raw[0] != 0x4E || raw[1] != 0x45 || raw[2] != 0x53 || raw[3] != 0x1A {
            return Err(RomError::NotInes);
        }
        if raw.len() < HEADER_SIZE {
            return Err(RomError::Truncated);
        }
        let mapper: u8 = (raw[7] & 0b1111_0000) | (raw[6] >> 4);
        let ines_ver: u8 = (raw[7] >> 2) & 0b11;
        if ines_ver == 2 {
            return Err(RomError::Nes2Unsupported);
        }
        let four_screen = raw[6] & 0b1000 != 0;
        let vertical_mirroring = raw[6] & 0b1 != 0;
        let screen_mirroring = if four_screen {
            Mirroring::FOUR_SCREEN
        } else if vertical_mirroring {
            Mirroring::VERTICAL
        } else {
            Mirroring::HORIZONTAL
        };
        let prg_rom_size: usize = raw[4] as usize * PRG_ROM_PAGE_SIZE;
        let chr_rom_size: usize = raw[5] as usize * CHR_ROM_PAGE_SIZE;
        let skip_trainer = raw[6] & 0b100 != 0;
        let prg_rom_start: usize = HEADER_SIZE + if skip_trainer { TRAINER_SIZE } else { 0 };
        let chr_rom_start: usize = prg_rom_start + prg_rom_size;
        if raw.len() < chr_rom_start + chr_rom_size {
            return Err(RomError::Truncated);
        }
        Ok(
            Rom {
                prg_rom: copy_range(raw, prg_rom_start, chr_rom_start),
                chr_rom: copy_range(raw, chr_rom_start, chr_rom_start + chr_rom_size),
                mapper,
                screen_mirroring,
            },
        )
    }
}

/// Appends the bytes of `part` to `out`.
fn append_bytes(out: &mut Vec<u8>, part: &Vec<u8>)
    ensures
        final(out)@ == old(out)@ + part@,
{
    let mut i: usize = 0;
    while i < part.len()
        invariant
            i <= part.len(),
            out@ == old(out)@ + part@.subrange(0, i as int),
        decreases part.len() - i,
    {
        out.push(part[i]);
        i += 1;
        assert(out@ =~= old(out)@ + part@.subrange(0, i as int));
    }
    assert(part@.subrange(0, part.len() as int) =~= part@);
}

/// The bytes of an image laid out from its parts.
pub open spec fn image_of(
    header: Seq<u8>,
    trainer: Option<Seq<u8>>,
    prg_rom: Seq<u8>,
    chr_rom: Seq<u8>,
) -> Seq<u8> {
    header + (match trainer {
        Some(t) => t,
        None => Seq::empty(),
    }) + prg_rom + chr_rom
}

/// An image laid out from a sound header and from parts of the sizes that
/// the header announces is decoded into those parts.
pub proof fn laid_out_image_decodes(
    header: Seq<u8>,
    trainer: Option<Seq<u8>>,
    prg_rom: Seq<u8>,
    chr_rom: Seq<u8>,
)
    requires
        header.len() == 16,
        has_tag(header),
        !is_nes2(header),
        trainer is Some <==> header[6] & 0b100 != 0,
        trainer is Some ==> trainer->0.len() == 512,
        prg_rom.len() == header[4] * 16384,
        chr_rom.len() == header[5] * 8192,
    ensures
        ({
            let raw = image_of(header, trainer, prg_rom, chr_rom);
            &&& image_error(raw) is None
            &&& raw.subrange(prg_start(raw), prg_start(raw) + prg_len(raw)) == prg_rom
            &&& raw.subrange(prg_start(raw) + prg_len(raw), image_end(raw)) == chr_rom
            &&& image_mapper(raw) == image_mapper(header)
            &&& image_mirroring(raw) == image_mirroring(header)
        }),
{
    let raw = image_of(header, trainer, prg_rom, chr_rom);
    assert(forall|k: int| 0 <= k < 16 ==> raw[k] == header[k]);
    assert(raw[4] == header[4] && raw[5] == header[5] && raw[6] == header[6] && raw[7]
        == header[7]);
    assert(raw.subrange(prg_start(raw), prg_start(raw) + prg_len(raw)) =~= prg_rom);
    assert(raw.subrange(prg_start(raw) + prg_len(raw), image_end(raw)) =~= chr_rom);
}

/// Lays out an image: the header, the trainer if there is one, then the two
/// ROMs.
pub fn create_rom(
    header: &Vec<u8>,
    trainer: &Option<Vec<u8>>,
    pgp_rom: &Vec<u8>,
    chr_rom: &Vec<u8>,
) -> (result: Vec<u8>)
    ensures
        result@ == image_of(
            header@,
            match *trainer {
                Some(t) => Some(t@),
                None => None,
            },
            pgp_rom@,
            chr_rom@,
        ),
{
    let mut result: Vec<u8> = Vec::new();
    append_bytes(&mut result, header);
    match trainer {
        Some(t) => {
            append_bytes(&mut result, t);
        },
        None => {
            assert(result@ + Seq::<u8>::empty() =~= result@);
        },
    }
    append_bytes(&mut result, pgp_rom);
    append_bytes(&mut result, chr_rom);
    result
}

/// `program` cut or zero-filled to `len` bytes.
pub open spec fn padded(program: Seq<u8>, len: int) -> Seq<u8> {
    Seq::new(
        len as nat,
        |i: int|
            if i < program.len() {
                program[i]
            } else {
                0u8
            },
    )
}

/// The header of the cartridge that [`test_rom`] builds: two banks of program
/// ROM, one of character ROM, mapper 3, vertical mirroring, no trainer.
pub open spec fn test_header() -> Seq<u8> {
    seq![0x4Eu8, 0x45u8, 0x53u8, 0x1Au8, 0x02u8, 0x01u8, 0x31u8, 0u8, 0u8, 0u8, 0u8, 0u8, 0u8, 0u8, 0u8, 0u8]
}

/// A cartridge for experiments: 32 KiB of program ROM that starts with
/// `program` and is zero after it, and 8 KiB of character ROM filled with 2.
pub fn test_rom(program: Vec<u8>) -> (rom: Rom)
    ensures
        rom.prg_rom@ == padded(program@, 32768),
        rom.chr_rom@ == Seq::new(8192, |i: int| 2u8),
        rom.mapper == 3,
        rom.screen_mirroring == Mirroring::VERTICAL,
{
    let mut pgp_rom_contents: Vec<u8> = Vec::new();
    let mut i: usize = 0;
    while i < 2 * PRG_ROM_PAGE_SIZE
        invariant
            i <= 2 * PRG_ROM_PAGE_SIZE,
            pgp_rom_contents@ == padded(program@, i as int),
        decreases 2 * PRG_ROM_PAGE_SIZE - i,
    {
        let b: u8 = if i < program.len() { program[i] } else { 0 };
        pgp_rom_contents.push(b);
        i += 1;
        assert(pgp_rom_contents@ =~= padded(program@, i as int));
    }
    let mut chr: Vec<u8> = Vec::new();
    let mut j: usize = 0;
    while j < CHR_ROM_PAGE_SIZE
        invariant
            j <= CHR_ROM_PAGE_SIZE,
            chr@ == Seq::new(j as nat, |k: int| 2u8),
        decreases CHR_ROM_PAGE_SIZE - j,
    {
        chr.push(2);
        j += 1;
        assert(chr@ =~= Seq::new(j as nat, |k: int| 2u8));
    }
    let header: Vec<u8> = vec![
        0x4E, 0x45, 0x53, 0x1A, 0x02, 0x01, 0x31, 0, 0, 0, 0, 0, 0, 0, 0, 0,
    ];
    assert(header@ =~= test_header());
    let raw = create_rom(&header, &None, &pgp_rom_contents, &chr);
    proof {
        let img = raw@;
        assert(img.len() == 16 + 32768 + 8192);
        assert(forall|k: int| 0 <= k < 16 ==> img[k] == test_header()[k]);
        assert(img[4] == 2 && img[5] == 1 && img[6] == 0x31 && img[7] == 0);
        assert(0x31u8 & 0b100 == 0 && 0x31u8 & 0b1000 == 0 && 0x31u8 & 0b1 != 0 && (0u8 >> 2) & 0b11
            != 2 && (0u8 & 0b1111_0000) | (0x31u8 >> 4) == 3) by (bit_vector);
        assert(img.subrange(16, 32784) =~= pgp_rom_contents@);
        assert(img.subrange(32784, 40976) =~= chr@);
    }
    match Rom::new(&raw) {
        Ok(rom) => rom,
        Err(_) => {
            proof {
                assert(false);
            }
            Rom { prg_rom: pgp_rom_contents, chr_rom: chr, mapper: 3, screen_mirroring: Mirroring::VERTICAL }
        },
    }
}

} // verus!
