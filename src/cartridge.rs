//! iNES 1.0 cartridge images: a 16-byte header, an optional 512-byte
//! trainer, PRG ROM in 16 KiB banks, then CHR ROM in 8 KiB banks.
use crate::mem::Mirroring;
use vstd::prelude::*;

verus! {

pub const HEADER_SIZE: usize = 16;
pub const TRAINER_SIZE: usize = 512;
pub const PRG_BANK_SIZE: usize = 16384;
pub const CHR_BANK_SIZE: usize = 8192;

/// Why a cartridge image cannot be loaded.
#[derive(Clone, Copy, Debug, PartialEq, Eq, Structural)]
pub enum LoadError {
    /// Fewer than 16 bytes: no header.
    MissingHeader,
    /// The header does not start with "NES" and 0x1A.
    BadMagic,
    /// A mapper other than 0; the number is given.
    UnsupportedMapper(u8),
    /// The file ends before the PRG or CHR data the header announces.
    Truncated,
}

/// A loaded cartridge.
pub struct Cartridge {
    pub header: Vec<u8>,
    pub prg_rom: Vec<u8>,
    pub chr_rom: Vec<u8>,
    pub mirroring: Mirroring,
}

pub open spec fn has_magic(b: Seq<u8>) -> bool {
    b[0] == 0x4E && b[1] == 0x45 && b[2] == 0x53 && b[3] == 0x1A
}

/// The mapper number: the high nibbles of header bytes 7 and 6.
pub open spec fn mapper_of(b: Seq<u8>) -> u8 {
    ((b[7] / 16) * 16 + b[6] / 16) as u8
}

/// Where PRG ROM starts: after the header and, when byte 6 bit 2 says so, the trainer.
pub open spec fn prg_start(b: Seq<u8>) -> int {
    if (b[6] / 4) % 2 == 1 {
        528int
    } else {
        16int
    }
}

pub open spec fn prg_len(b: Seq<u8>) -> int {
    b[4] * 16384
}

pub open spec fn chr_len(b: Seq<u8>) -> int {
    b[5] * 8192
}

/// Mirroring from header byte 6 bit 0: 0 horizontal, 1 vertical.
pub open spec fn mirroring_of(b: Seq<u8>) -> Mirroring {
    if b[6] % 2 == 1 {
        Mirroring::Vertical
    } else {
        Mirroring::Horizontal
    }
}

/// The error of an image, if it has one, in the order the checks are made.
pub open spec fn load_error(b: Seq<u8>) -> Option<LoadError> {
    if b.len() < 16 {
        Some(LoadError::MissingHeader)
    } else if !has_magic(b) {
        Some(LoadError::BadMagic)
    } else if mapper_of(b) != 0 {
        Some(LoadError::UnsupportedMapper(mapper_of(b)))
    } else if b.len() < prg_start(b) + prg_len(b) + chr_len(b) {
        Some(LoadError::Truncated)
    } else {
        None
    }
}

fn copy_range(b: &Vec<u8>, start: usize, len: usize) -> (r: Vec<u8>)
    requires
        start + len <= b@.len(),
    ensures
        r@ == b@.subrange(start as int, start + len),
{
    let n = b.len();
    let mut r: Vec<u8> = Vec::new();
    let mut i: usize = 0;
    while i < len
        invariant
            i <= len,
            n == b@.len(),
            start + len <= n,
            r@ == b@.subrange(start as int, start + i),
        decreases len - i,
    {
        r.push(b[start + i]);
        i = i + 1;
        assert(r@ =~= b@.subrange(start as int, start + i));
    }
    r
}

/// Parses an iNES image. Only mapper 0 is taken.
pub fn parse_ines(bytes: &Vec<u8>) -> (r: Result<Cartridge, LoadError>)
    ensures
        match load_error(bytes@) {
            Some(e) => r == Err::<Cartridge, LoadError>(e),
            None => r.is_ok(),
        },
        r.is_ok() ==> ({
            let c = r->Ok_0;
            let b = bytes@;
            &&& c.header@ == b.subrange(0, 16)
            &&& c.prg_rom@ == b.subrange(prg_start(b), prg_start(b) + prg_len(b))
            &&& c.chr_rom@ == b.subrange(
                prg_start(b) + prg_len(b),
                prg_start(b) + prg_len(b) + chr_len(b),
            )
            &&& c.mirroring == mirroring_of(b)
        }),
{
    if bytes.len() < HEADER_SIZE {
        return Err(LoadError::MissingHeader);
    }
    if !(bytes[0] == 0x4E && bytes[1] == 0x45 && bytes[2] == 0x53 && bytes[3] == 0x1A) {
        return Err(LoadError::BadMagic);
    }
    let mapper: u8 = (bytes[7] / 16) * 16 + bytes[6] / 16;
    if mapper != 0 {
        return Err(LoadError::UnsupportedMapper(mapper));
    }
    let start: usize = if (bytes[6] / 4) % 2 == 1 {
        HEADER_SIZE + TRAINER_SIZE
    } else {
        HEADER_SIZE
    };
    let prg: usize = bytes[4] as usize * PRG_BANK_SIZE;
    let chr: usize = bytes[5] as usize * CHR_BANK_SIZE;
    if bytes.len() < start + prg + chr {
        return Err(LoadError::Truncated);
    }
    let mirroring = if bytes[6] % 2 == 1 {
        Mirroring::Vertical
    } else {
        Mirroring::Horizontal
    };
    Ok(
        Cartridge {
            header: copy_range(bytes, 0, HEADER_SIZE),
            prg_rom: copy_range(bytes, start, prg),
            chr_rom: copy_range(bytes, start + prg, chr),
            mirroring,
        },
    )
}

} // verus!
