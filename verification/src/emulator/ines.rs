//! Cartridge images in the iNES format: a 16-byte header, the PRG ROM, then
//! the CHR ROM.
use vstd::prelude::*;

use crate::emulator::mappers::axrom::AxromView;
use crate::emulator::mappers::cartridge::{Cartridge, CartridgeView};
use crate::emulator::mappers::cnrom::CnromView;
use crate::emulator::mappers::color_dreams::ColorDreamsView;
use crate::emulator::mappers::mmc1::mmc1_initial;
use crate::emulator::mappers::mmc3::mmc3_initial;
use crate::emulator::mappers::nrom::NromView;
use crate::emulator::mappers::uxrom::UxromView;
use crate::emulator::mappers::{AXROM, CNROM, ColorDreams, MMC1, MMC3, NROM, UXROM};
use crate::emulator::memory::{Memory, MemoryView};
use crate::emulator::ppu::MirrorMode;

verus! {

pub struct ROM {
    data: Vec<u8>,
}

impl View for ROM {
    type V = Seq<u8>;

    closed spec fn view(&self) -> Seq<u8> {
        self.data@
    }
}

/// The mapper number: the high nibbles of header bytes 6 and 7.
pub open spec fn ines_mapper_number(data: Seq<u8>) -> u8 {
    ((data[6] & 0xF0) >> 4u8) | (data[7] & 0xF0)
}

/// Header byte 4 counts 16KiB units of PRG ROM.
pub open spec fn ines_prg_size(data: Seq<u8>) -> nat {
    data[4] as nat * 16384
}

/// Header byte 5 counts 8KiB units of CHR ROM.
pub open spec fn ines_chr_size(data: Seq<u8>) -> nat {
    data[5] as nat * 8192
}

/// Bit 0 of header byte 6: clear for horizontal mirroring, set for vertical.
pub open spec fn ines_mirror_mode(data: Seq<u8>) -> MirrorMode {
    if data[6] & 0x1 == 0 {
        MirrorMode::Horizontal
    } else {
        MirrorMode::Vertical
    }
}

/// The PRG ROM, right after the header.
pub open spec fn ines_prg_rom(data: Seq<u8>) -> MemoryView {
    MemoryView { data: data.subrange(16, 16 + ines_prg_size(data) as int), writeable: false }
}

/// The CHR ROM after the PRG ROM or, where the header counts none, 8KiB of
/// zeroed CHR RAM.
pub open spec fn ines_chr_mem(data: Seq<u8>) -> MemoryView {
    let prg = ines_prg_size(data);
    let chr = ines_chr_size(data);
    if chr == 0 {
        MemoryView { data: Seq::new(0x2000, |i: int| 0u8), writeable: true }
    } else {
        MemoryView { data: data.subrange(16 + prg as int, 16 + prg as int + chr as int), writeable: false }
    }
}

/// The image is long enough for the PRG and CHR ROM its header announces.
pub open spec fn ines_complete(data: Seq<u8>) -> bool {
    &&& data.len() >= 16
    &&& 16 + ines_prg_size(data) + ines_chr_size(data) <= data.len()
}

/// The mapper numbers of the supported boards.
pub open spec fn ines_supported(number: u8) -> bool {
    number == 0 || number == 1 || number == 2 || number == 3 || number == 4 || number == 7
        || number == 11
}

/// The board a complete image with a supported mapper number starts as.
pub open spec fn ines_cartridge(data: Seq<u8>) -> CartridgeView {
    let prg_rom = ines_prg_rom(data);
    let chr_mem = ines_chr_mem(data);
    let mirror_mode = ines_mirror_mode(data);
    let number = ines_mapper_number(data);
    if number == 0 {
        CartridgeView::Nrom(NromView { prg_rom, chr_rom: chr_mem, mirror_mode })
    } else if number == 1 {
        CartridgeView::Mmc1(mmc1_initial(prg_rom, chr_mem))
    } else if number == 2 {
        CartridgeView::Uxrom(UxromView { prg_rom, chr_rom: chr_mem, mirror_mode, prg_bank: 0 })
    } else if number == 3 {
        CartridgeView::Cnrom(CnromView { prg_rom, chr_mem, mirror_mode, chr_bank: 0 })
    } else if number == 4 {
        CartridgeView::Mmc3(mmc3_initial(prg_rom, chr_mem))
    } else if number == 7 {
        CartridgeView::Axrom(
            AxromView {
                prg_rom,
                chr_rom: chr_mem,
                mirror_mode: MirrorMode::SingleLower,
                prg_bank: 0,
            },
        )
    } else {
        CartridgeView::ColorDreams(
            ColorDreamsView { prg_rom, chr_mem, prg_bank: 0, chr_bank: 0, mirror_mode },
        )
    }
}

/// How an image is laid out: the mapper number takes its low nibble from
/// the high nibble of header byte 6 and its high nibble from that of byte 7;
/// mirroring is vertical exactly when bit 0 of byte 6 is set; the PRG ROM
/// holds byte 4 times 16KiB from offset 16 on, and the CHR ROM (when byte 5
/// counts any) byte 5 times 8KiB right after it, each a read-only copy of
/// the image's bytes; with none the board gets 8KiB of writable zeros.
pub proof fn law_ines_layout(data: Seq<u8>)
    requires
        ines_complete(data),
    ensures
        ines_mapper_number(data) == data[6] / 16 + (data[7] / 16) * 16,
        (ines_mirror_mode(data) == MirrorMode::Vertical) == (data[6] % 2 == 1),
        ines_mirror_mode(data) == MirrorMode::Vertical || ines_mirror_mode(data)
            == MirrorMode::Horizontal,
        ines_prg_rom(data).data.len() == data[4] * 0x4000 && !ines_prg_rom(data).writeable,
        forall|i: int|
            0 <= i < data[4] * 0x4000 ==> #[trigger] ines_prg_rom(data).data[i] == data[16 + i],
        data[5] > 0 ==> ines_chr_mem(data).data.len() == data[5] * 0x2000 && !ines_chr_mem(
            data,
        ).writeable,
        data[5] > 0 ==> forall|i: int|
            0 <= i < data[5] * 0x2000 ==> #[trigger] ines_chr_mem(data).data[i] == data[16
                + data[4] * 0x4000 + i],
        data[5] == 0 ==> ines_chr_mem(data).data.len() == 0x2000 && ines_chr_mem(data).writeable
            && forall|i: int| 0 <= i < 0x2000 ==> #[trigger] ines_chr_mem(data).data[i] == 0,
{
    crate::emulator::bits::lemma_register_bits(data[6], data[7], 0);
}

/// A copy of `data[start..end]`.
fn copy_range(data: &Vec<u8>, start: usize, end: usize) -> (v: Vec<u8>)
    requires
        start <= end <= data.len(),
    ensures
        v@ == data@.subrange(start as int, end as int),
{
    let mut v: Vec<u8> = Vec::new();
    let mut i = start;
    while i < end
        invariant
            start <= i <= end <= data.len(),
            v@ == data@.subrange(start as int, i as int),
        decreases end - i,
    {
        v.push(data[i]);
        i = i + 1;
    }
    v
}

impl ROM {
    pub fn from_bytes(data: Vec<u8>) -> (rom: ROM)
        ensures
            rom@ == data@,
    {
        ROM { data }
    }

    pub fn mapper_number(&self) -> (number: u8)
        requires
            self@.len() >= 8,
        ensures
            number == ines_mapper_number(self@),
    {
        ((self.data[6] & 0xF0) >> 4u8) | (self.data[7] & 0xF0)
    }

    pub fn prg_rom(&self) -> (prg: Memory)
        requires
            self@.len() >= 16 + ines_prg_size(self@),
        ensures
            prg@ == ines_prg_rom(self@),
    {
        let size = self.prg_rom_size_bytes();
        let start: usize = 16;
        let end = start + size as usize;
        Memory::new_rom(copy_range(&self.data, start, end))
    }

    pub fn prg_rom_size_bytes(&self) -> (size: u32)
        requires
            self@.len() >= 5,
        ensures
            size == ines_prg_size(self@),
    {
        (self.data[4] as u32) * 16384
    }

    /// The CHR ROM's bytes, or 8KiB of zeros where the header counts none.
    pub fn chr_rom(&self) -> (chr: Vec<u8>)
        requires
            self@.len() >= 6,
            ines_chr_size(self@) > 0 ==> 16 + ines_prg_size(self@) + ines_chr_size(self@)
                <= self@.len(),
        ensures
            chr@ == ines_chr_mem(self@).data,
    {
        let prg_size = self.prg_rom_size_bytes();
        let size = self.chr_rom_size_bytes();
        if size == 0 {
            // Cartridge uses CHR RAM.
            let mut zeros: Vec<u8> = Vec::new();
            let mut i: usize = 0;
            while i < 0x2000
                invariant
                    i <= 0x2000,
                    zeros@ == Seq::new(i as nat, |j: int| 0u8),
                decreases 0x2000 - i,
            {
                zeros.push(0);
                i = i + 1;
            }
            zeros
        } else {
            let start = (16 + prg_size) as usize;
            let end = start + size as usize;
            copy_range(&self.data, start, end)
        }
    }

    pub fn chr_mem(&self) -> (chr: Memory)
        requires
            self@.len() >= 6,
            ines_chr_size(self@) > 0 ==> 16 + ines_prg_size(self@) + ines_chr_size(self@)
                <= self@.len(),
        ensures
            chr@ == ines_chr_mem(self@),
    {
        let prg_size = self.prg_rom_size_bytes();
        let size = self.chr_rom_size_bytes();
        if size == 0 {
            // Cartridge uses CHR RAM.
            Memory::new_ram(0x2000)
        } else {
            let start = (16 + prg_size) as usize;
            let end = start + size as usize;
            Memory::new_rom(copy_range(&self.data, start, end))
        }
    }

    pub fn chr_rom_size_bytes(&self) -> (size: u32)
        requires
            self@.len() >= 6,
        ensures
            size == ines_chr_size(self@),
    {
        (self.data[5] as u32) * 8192
    }

    pub fn mirror_mode(&self) -> (mode: MirrorMode)
        requires
            self@.len() >= 7,
        ensures
            mode == ines_mirror_mode(self@),
    {
        if self.data[6] & 0x1 == 0 {
            MirrorMode::Horizontal
        } else {
            MirrorMode::Vertical
        }
    }

    /// The board the image's mapper number names, loaded with its ROM. The
    /// two boards that cut the PRG ROM into banks need at least one 16KiB
    /// unit of it.
    pub fn get_mapper(&self) -> (mapper: Cartridge)
        requires
            ines_complete(self@),
            ines_supported(ines_mapper_number(self@)),
            (ines_mapper_number(self@) == 1 || ines_mapper_number(self@) == 4) ==> ines_prg_size(
                self@,
            ) > 0,
        ensures
            mapper@ == ines_cartridge(self@),
    {
        let prg_rom = self.prg_rom();
        let chr_mem = self.chr_mem();
        let mirror_mode = self.mirror_mode();
        let number = self.mapper_number();
        if number == 0 {
            Cartridge::Nrom(NROM::new(prg_rom, chr_mem, mirror_mode))
        } else if number == 1 {
            Cartridge::Mmc1(MMC1::new(prg_rom, chr_mem))
        } else if number == 2 {
            Cartridge::Uxrom(UXROM::new(prg_rom, chr_mem, mirror_mode))
        } else if number == 3 {
            Cartridge::Cnrom(CNROM::new(prg_rom, chr_mem, mirror_mode))
        } else if number == 4 {
            Cartridge::Mmc3(MMC3::new(prg_rom, chr_mem))
        } else if number == 7 {
            Cartridge::Axrom(AXROM::new(prg_rom, chr_mem))
        } else {
            Cartridge::ColorDreams(ColorDreams::new(prg_rom, chr_mem, mirror_mode))
        }
    }
}

} // verus!
