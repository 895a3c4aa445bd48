//! The iNES cartridge format.
//!
//! ```text
//! Byte     Contents
//! ---------------------------------------------------------------------------
//! 0-3      "NES" followed by 0x1A.
//! 4        Number of 16 KiB PRG-ROM banks.
//! 5        Number of 8 KiB CHR-ROM banks.
//! 6        bit 0     1 for vertical mirroring, 0 for horizontal mirroring.
//!          bit 1     1 for battery-backed RAM at $6000-$7FFF.
//!          bit 2     1 for a 512-byte trainer at $7000-$71FF.
//!          bit 3     1 for a four-screen VRAM layout.
//!          bit 4-7   Four lower bits of the mapper number.
//! 7        bit 0     1 for VS-System cartridges.
//!          bit 2-3   Binary 10 marks the NES 2.0 format.
//!          bit 4-7   Four higher bits of the mapper number.
//! 8        Number of 8 KiB RAM banks.
//! 9        bit 0     1 for PAL cartridges, otherwise NTSC.
//! 10-15    Reserved.
//! 16-...   The trainer, if present, then the PRG banks, then the CHR banks.
//! ```

use vstd::prelude::*;
use vstd::slice::{slice_subrange, slice_to_vec};

verus! {

pub const PRG_ROM_PAGE_SIZE: usize = 16384;

pub const CHR_ROM_PAGE_SIZE: usize = 8192;

pub const PRG_RAM_PAGE_SIZE: usize = 8192;

pub const TRAINER_SIZE: usize = 512;

pub const HEADER_SIZE: usize = 16;

/// How the four logical name tables share the two physical ones.
#[derive(Clone, Copy, Debug, PartialEq, Eq, Structural)]
#[allow(non_camel_case_types)]
pub enum Mirroring {
    VERTICAL,
    HORIZONTAL,
    FOUR_SCREEN,
}

#[derive(Clone, Copy, Debug, PartialEq, Eq, Structural)]
pub enum TVFormat {
    PAL,
    NTSC,
}

/// Why an image was not accepted.
#[derive(Clone, Copy, Debug, PartialEq, Eq, Structural)]
pub enum RomError {
    /// The image does not start with the format's four magic bytes.
    BadMagic,
    /// The header announces the NES 2.0 format.
    Nes2,
    /// The image ends before the header or the banks that the header
    /// announces do.
    UnexpectedEof,
    /// The cartridge needs a mapper other than NROM.
    UnsupportedMapper,
}

/// The low four bits of header byte 6.
#[derive(Clone, Copy, Debug, PartialEq, Eq, Structural)]
pub struct RomFlags {
    pub bits: u8,
}

/// A cartridge as the image describes it.
#[derive(Debug)]
pub struct Rom {
    pub trainer: Option<Vec<u8>>,
    pub prg_rom: Vec<u8>,
    pub chr_rom: Vec<u8>,
    pub mapper: u8,
    pub tv_format: TVFormat,
    /// Bytes of cartridge RAM that the header counts, zero banks included.
    pub ram_size: usize,
    pub rom_flags: RomFlags,
}


/// What an image holds, read off its bytes.
pub struct Layout {
    pub trainer: bool,
    pub prg_len: int,
    pub chr_len: int,
}

/// The four magic bytes.
pub open spec fn has_magic(image: Seq<u8>) -> bool {
    image.len() >= 4 && image[0] == 0x4e && image[1] == 0x45 && image[2] == 0x53 && image[3]
        == 0x1a
}

/// Bits 2 and 3 of header byte 7 read binary 10.
pub open spec fn announces_nes2(byte7: u8) -> bool {
    (byte7 / 4) % 4 == 2
}

pub open spec fn layout(image: Seq<u8>) -> Layout {
    Layout {
        trainer: (image[6] / 4) % 2 == 1,
        prg_len: PRG_ROM_PAGE_SIZE * image[4],
        chr_len: CHR_ROM_PAGE_SIZE * image[5],
    }
}

/// Where the PRG banks start.
pub open spec fn prg_start(image: Seq<u8>) -> int {
    if layout(image).trainer {
        HEADER_SIZE + TRAINER_SIZE
    } else {
        HEADER_SIZE as int
    }
}

/// The error of an image that is not accepted, `None` for one that is.
pub open spec fn load_error(image: Seq<u8>) -> Option<RomError> {
    if !has_magic(image) {
        Some(RomError::BadMagic)
    } else if image.len() < 8 {
        Some(RomError::UnexpectedEof)
    } else if announces_nes2(image[7]) {
        Some(RomError::Nes2)
    } else if image.len() < HEADER_SIZE || image.len() < prg_start(image) + layout(image).prg_len
        + layout(image).chr_len {
        Some(RomError::UnexpectedEof)
    } else {
        None
    }
}

impl RomError {
    /// A sentence for the user.
    pub fn message(&self) -> (text: &'static str)
        ensures
            text@ == match *self {
                RomError::BadMagic => "failed to read file"@,
                RomError::Nes2 => "NES2.0 format is not supported"@,
                RomError::UnexpectedEof => "Unexpected end of file"@,
                RomError::UnsupportedMapper => "mapper is not supported"@,
            },
    {
        match self {
            RomError::BadMagic => "failed to read file",
            RomError::Nes2 => "NES2.0 format is not supported",
            RomError::UnexpectedEof => "Unexpected end of file",
            RomError::UnsupportedMapper => "mapper is not supported",
        }
    }
}

impl RomFlags {
    pub const VERTICAL_MIRRORING: u8 = 0b0000_0001;

    pub const BATTERY_RAM: u8 = 0b0000_0010;

    pub const TRAINER: u8 = 0b0000_0100;

    pub const FOUR_SCREEN: u8 = 0b0000_1000;

    /// Four-screen wins over the mirroring bit.
    pub open spec fn mirroring_spec(self) -> Mirroring {
        if (self.bits / 8) % 2 == 1 {
            Mirroring::FOUR_SCREEN
        } else if self.bits % 2 == 1 {
            Mirroring::VERTICAL
        } else {
            Mirroring::HORIZONTAL
        }
    }

    pub fn mirroring(&self) -> (mirroring: Mirroring)
        ensures
            mirroring == self.mirroring_spec(),
    {
        if (self.bits / 8) % 2 == 1 {
            Mirroring::FOUR_SCREEN
        } else if self.bits % 2 == 1 {
            Mirroring::VERTICAL
        } else {
            Mirroring::HORIZONTAL
        }
    }

    pub fn has_trainer(&self) -> (present: bool)
        ensures
            present == ((self.bits / 4) % 2 == 1),
    {
        (self.bits / 4) % 2 == 1
    }

    pub fn has_battery_ram(&self) -> (present: bool)
        ensures
            present == ((self.bits / 2) % 2 == 1),
    {
        (self.bits / 2) % 2 == 1
    }
}

impl Rom {
    /// Whether `self` holds what `image`, an accepted image, describes.
    pub open spec fn describes(self, image: Seq<u8>) -> bool {
        let start = prg_start(image);
        let shape = layout(image);
        &&& self.trainer.is_some() == shape.trainer
        &&& shape.trainer ==> self.trainer.unwrap()@ == image.subrange(
            HEADER_SIZE as int,
            HEADER_SIZE + TRAINER_SIZE,
        )
        &&& self.prg_rom@ == image.subrange(start, start + shape.prg_len)
        &&& self.chr_rom@ == image.subrange(
            start + shape.prg_len,
            start + shape.prg_len + shape.chr_len,
        )
        &&& self.mapper == (image[7] / 16) * 16 + image[6] / 16
        &&& self.tv_format == if image[9] % 2 == 1 {
            TVFormat::PAL
        } else {
            TVFormat::NTSC
        }
        &&& self.ram_size == PRG_RAM_PAGE_SIZE * image[8]
        &&& self.rom_flags.bits == image[6] % 16
    }

    /// Reads a cartridge image. Bytes behind the last bank are ignored, and
    /// any mapper number is read: `check_mapper` tells whether the core can
    /// run the cartridge.
    pub fn load(input: &[u8]) -> (loaded: Result<Rom, RomError>)
        ensures
            match loaded {
                Ok(rom) => load_error(input@) is None && rom.describes(input@),
                Err(error) => load_error(input@) == Some(error),
            },
    {
        let len = input.len();
        if len < 4 || input[0] != 0x4e || input[1] != 0x45 || input[2] != 0x53 || input[3] != 0x1a {
            return Err(RomError::BadMagic);
        }
        if len < 8 {
            return Err(RomError::UnexpectedEof);
        }
        let len_prg_rom = input[4];
        let len_chr_rom = input[5];
        let byte6 = input[6];
        let byte7 = input[7];
        if (byte7 / 4) % 4 == 2 {
            return Err(RomError::Nes2);
        }
        if len < HEADER_SIZE {
            return Err(RomError::UnexpectedEof);
        }
        let rom_flags = RomFlags { bits: byte6 % 16 };
        let mapper = (byte7 / 16) * 16 + byte6 / 16;
        let len_ram_banks = input[8];
        let pal = input[9] % 2;
        let prg_len = PRG_ROM_PAGE_SIZE * len_prg_rom as usize;
        let chr_len = CHR_ROM_PAGE_SIZE * len_chr_rom as usize;
        let start = if rom_flags.has_trainer() {
            HEADER_SIZE + TRAINER_SIZE
        } else {
            HEADER_SIZE
        };
        if len < start + prg_len + chr_len {
            return Err(RomError::UnexpectedEof);
        }
        let trainer = if rom_flags.has_trainer() {
            Some(slice_to_vec(slice_subrange(input, HEADER_SIZE, HEADER_SIZE + TRAINER_SIZE)))
        } else {
            None
        };
        let prg_rom = slice_to_vec(slice_subrange(input, start, start + prg_len));
        let chr_rom = slice_to_vec(
            slice_subrange(input, start + prg_len, start + prg_len + chr_len),
        );
        Ok(
            Rom {
                trainer,
                prg_rom,
                chr_rom,
                mapper,
                tv_format: (if pal == 1 {
                    TVFormat::PAL
                } else {
                    TVFormat::NTSC
                }),
                ram_size: PRG_RAM_PAGE_SIZE * len_ram_banks as usize,
                rom_flags,
            },
        )
    }

    /// The core runs NROM cartridges only, mapper 0.
    pub fn check_mapper(&self) -> (checked: Result<(), RomError>)
        ensures
            checked == if self.mapper == 0 {
                Ok::<(), RomError>(())
            } else {
                Err::<(), RomError>(RomError::UnsupportedMapper)
            },
    {
        if self.mapper == 0 {
            Ok(())
        } else {
            Err(RomError::UnsupportedMapper)
        }
    }

    /// Bytes of cartridge RAM: a header that counts no bank means one.
    pub fn prg_ram_size(&self) -> (size: usize)
        ensures
            size == if self.ram_size == 0 {
                PRG_RAM_PAGE_SIZE
            } else {
                self.ram_size
            },
    {
        if self.ram_size == 0 {
            PRG_RAM_PAGE_SIZE
        } else {
            self.ram_size
        }
    }
}

} // verus!
