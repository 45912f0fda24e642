//! Any of the supported boards, chosen at run time by the cartridge's
//! mapper number.
use vstd::prelude::*;

use crate::emulator::mappers::axrom::{AXROM, AxromView};
use crate::emulator::mappers::cnrom::{CNROM, CnromView};
use crate::emulator::mappers::color_dreams::{ColorDreams, ColorDreamsView};
use crate::emulator::mappers::mmc1::{MMC1, Mmc1View};
use crate::emulator::mappers::mmc3::{MMC3, Mmc3View};
use crate::emulator::mappers::nrom::{NROM, NromView};
use crate::emulator::mappers::uxrom::{UXROM, UxromView};
use crate::emulator::memory::Mapper;
use crate::emulator::ppu::MirrorMode;

verus! {

pub enum Cartridge {
    Nrom(NROM),
    Mmc1(MMC1),
    Uxrom(UXROM),
    Cnrom(CNROM),
    Mmc3(MMC3),
    Axrom(AXROM),
    ColorDreams(ColorDreams),
}

pub enum CartridgeView {
    Nrom(NromView),
    Mmc1(Mmc1View),
    Uxrom(UxromView),
    Cnrom(CnromView),
    Mmc3(Mmc3View),
    Axrom(AxromView),
    ColorDreams(ColorDreamsView),
}

impl View for Cartridge {
    type V = CartridgeView;

    open spec fn view(&self) -> CartridgeView {
        match self {
            Cartridge::Nrom(m) => CartridgeView::Nrom(m@),
            Cartridge::Mmc1(m) => CartridgeView::Mmc1(m@),
            Cartridge::Uxrom(m) => CartridgeView::Uxrom(m@),
            Cartridge::Cnrom(m) => CartridgeView::Cnrom(m@),
            Cartridge::Mmc3(m) => CartridgeView::Mmc3(m@),
            Cartridge::Axrom(m) => CartridgeView::Axrom(m@),
            Cartridge::ColorDreams(m) => CartridgeView::ColorDreams(m@),
        }
    }
}

impl Mapper for Cartridge {
    open spec fn chr_accessible(state: CartridgeView, address: u16) -> bool {
        match state {
            CartridgeView::Nrom(s) => NROM::chr_accessible(s, address),
            CartridgeView::Mmc1(s) => MMC1::chr_accessible(s, address),
            CartridgeView::Uxrom(s) => UXROM::chr_accessible(s, address),
            CartridgeView::Cnrom(s) => CNROM::chr_accessible(s, address),
            CartridgeView::Mmc3(s) => MMC3::chr_accessible(s, address),
            CartridgeView::Axrom(s) => AXROM::chr_accessible(s, address),
            CartridgeView::ColorDreams(s) => ColorDreams::chr_accessible(s, address),
        }
    }

    open spec fn prg_accessible(state: CartridgeView, address: u16) -> bool {
        match state {
            CartridgeView::Nrom(s) => NROM::prg_accessible(s, address),
            CartridgeView::Mmc1(s) => MMC1::prg_accessible(s, address),
            CartridgeView::Uxrom(s) => UXROM::prg_accessible(s, address),
            CartridgeView::Cnrom(s) => CNROM::prg_accessible(s, address),
            CartridgeView::Mmc3(s) => MMC3::prg_accessible(s, address),
            CartridgeView::Axrom(s) => AXROM::prg_accessible(s, address),
            CartridgeView::ColorDreams(s) => ColorDreams::prg_accessible(s, address),
        }
    }

    open spec fn prg_writable(state: CartridgeView, address: u16) -> bool {
        match state {
            CartridgeView::Nrom(s) => NROM::prg_writable(s, address),
            CartridgeView::Mmc1(s) => MMC1::prg_writable(s, address),
            CartridgeView::Uxrom(s) => UXROM::prg_writable(s, address),
            CartridgeView::Cnrom(s) => CNROM::prg_writable(s, address),
            CartridgeView::Mmc3(s) => MMC3::prg_writable(s, address),
            CartridgeView::Axrom(s) => AXROM::prg_writable(s, address),
            CartridgeView::ColorDreams(s) => ColorDreams::prg_writable(s, address),
        }
    }

    open spec fn chr_sound(state: CartridgeView) -> bool {
        match state {
            CartridgeView::Nrom(s) => NROM::chr_sound(s),
            CartridgeView::Mmc1(s) => MMC1::chr_sound(s),
            CartridgeView::Uxrom(s) => UXROM::chr_sound(s),
            CartridgeView::Cnrom(s) => CNROM::chr_sound(s),
            CartridgeView::Mmc3(s) => MMC3::chr_sound(s),
            CartridgeView::Axrom(s) => AXROM::chr_sound(s),
            CartridgeView::ColorDreams(s) => ColorDreams::chr_sound(s),
        }
    }

    open spec fn prg_sound(state: CartridgeView) -> bool {
        match state {
            CartridgeView::Nrom(s) => NROM::prg_sound(s),
            CartridgeView::Mmc1(s) => MMC1::prg_sound(s),
            CartridgeView::Uxrom(s) => UXROM::prg_sound(s),
            CartridgeView::Cnrom(s) => CNROM::prg_sound(s),
            CartridgeView::Mmc3(s) => MMC3::prg_sound(s),
            CartridgeView::Axrom(s) => AXROM::prg_sound(s),
            CartridgeView::ColorDreams(s) => ColorDreams::prg_sound(s),
        }
    }

    open spec fn chr_peek(state: CartridgeView, address: u16) -> u8 {
        match state {
            CartridgeView::Nrom(s) => NROM::chr_peek(s, address),
            CartridgeView::Mmc1(s) => MMC1::chr_peek(s, address),
            CartridgeView::Uxrom(s) => UXROM::chr_peek(s, address),
            CartridgeView::Cnrom(s) => CNROM::chr_peek(s, address),
            CartridgeView::Mmc3(s) => MMC3::chr_peek(s, address),
            CartridgeView::Axrom(s) => AXROM::chr_peek(s, address),
            CartridgeView::ColorDreams(s) => ColorDreams::chr_peek(s, address),
        }
    }

    open spec fn after_chr_read(state: CartridgeView, address: u16) -> CartridgeView {
        match state {
            CartridgeView::Nrom(s) => CartridgeView::Nrom(NROM::after_chr_read(s, address)),
            CartridgeView::Mmc1(s) => CartridgeView::Mmc1(MMC1::after_chr_read(s, address)),
            CartridgeView::Uxrom(s) => CartridgeView::Uxrom(UXROM::after_chr_read(s, address)),
            CartridgeView::Cnrom(s) => CartridgeView::Cnrom(CNROM::after_chr_read(s, address)),
            CartridgeView::Mmc3(s) => CartridgeView::Mmc3(MMC3::after_chr_read(s, address)),
            CartridgeView::Axrom(s) => CartridgeView::Axrom(AXROM::after_chr_read(s, address)),
            CartridgeView::ColorDreams(s) => CartridgeView::ColorDreams(ColorDreams::after_chr_read(s, address)),
        }
    }

    open spec fn after_chr_write(state: CartridgeView, address: u16, byte: u8) -> CartridgeView {
        match state {
            CartridgeView::Nrom(s) => CartridgeView::Nrom(NROM::after_chr_write(s, address, byte)),
            CartridgeView::Mmc1(s) => CartridgeView::Mmc1(MMC1::after_chr_write(s, address, byte)),
            CartridgeView::Uxrom(s) => CartridgeView::Uxrom(UXROM::after_chr_write(s, address, byte)),
            CartridgeView::Cnrom(s) => CartridgeView::Cnrom(CNROM::after_chr_write(s, address, byte)),
            CartridgeView::Mmc3(s) => CartridgeView::Mmc3(MMC3::after_chr_write(s, address, byte)),
            CartridgeView::Axrom(s) => CartridgeView::Axrom(AXROM::after_chr_write(s, address, byte)),
            CartridgeView::ColorDreams(s) => CartridgeView::ColorDreams(ColorDreams::after_chr_write(s, address, byte)),
        }
    }

    open spec fn prg_peek(state: CartridgeView, address: u16) -> u8 {
        match state {
            CartridgeView::Nrom(s) => NROM::prg_peek(s, address),
            CartridgeView::Mmc1(s) => MMC1::prg_peek(s, address),
            CartridgeView::Uxrom(s) => UXROM::prg_peek(s, address),
            CartridgeView::Cnrom(s) => CNROM::prg_peek(s, address),
            CartridgeView::Mmc3(s) => MMC3::prg_peek(s, address),
            CartridgeView::Axrom(s) => AXROM::prg_peek(s, address),
            CartridgeView::ColorDreams(s) => ColorDreams::prg_peek(s, address),
        }
    }

    open spec fn after_prg_write(state: CartridgeView, address: u16, byte: u8) -> CartridgeView {
        match state {
            CartridgeView::Nrom(s) => CartridgeView::Nrom(NROM::after_prg_write(s, address, byte)),
            CartridgeView::Mmc1(s) => CartridgeView::Mmc1(MMC1::after_prg_write(s, address, byte)),
            CartridgeView::Uxrom(s) => CartridgeView::Uxrom(UXROM::after_prg_write(s, address, byte)),
            CartridgeView::Cnrom(s) => CartridgeView::Cnrom(CNROM::after_prg_write(s, address, byte)),
            CartridgeView::Mmc3(s) => CartridgeView::Mmc3(MMC3::after_prg_write(s, address, byte)),
            CartridgeView::Axrom(s) => CartridgeView::Axrom(AXROM::after_prg_write(s, address, byte)),
            CartridgeView::ColorDreams(s) => CartridgeView::ColorDreams(ColorDreams::after_prg_write(s, address, byte)),
        }
    }

    open spec fn mirroring(state: CartridgeView) -> MirrorMode {
        match state {
            CartridgeView::Nrom(s) => NROM::mirroring(s),
            CartridgeView::Mmc1(s) => MMC1::mirroring(s),
            CartridgeView::Uxrom(s) => UXROM::mirroring(s),
            CartridgeView::Cnrom(s) => CNROM::mirroring(s),
            CartridgeView::Mmc3(s) => MMC3::mirroring(s),
            CartridgeView::Axrom(s) => AXROM::mirroring(s),
            CartridgeView::ColorDreams(s) => ColorDreams::mirroring(s),
        }
    }

    open spec fn irq_pending(state: CartridgeView) -> bool {
        match state {
            CartridgeView::Nrom(s) => NROM::irq_pending(s),
            CartridgeView::Mmc1(s) => MMC1::irq_pending(s),
            CartridgeView::Uxrom(s) => UXROM::irq_pending(s),
            CartridgeView::Cnrom(s) => CNROM::irq_pending(s),
            CartridgeView::Mmc3(s) => MMC3::irq_pending(s),
            CartridgeView::Axrom(s) => AXROM::irq_pending(s),
            CartridgeView::ColorDreams(s) => ColorDreams::irq_pending(s),
        }
    }

    open spec fn after_irq_check(state: CartridgeView) -> CartridgeView {
        match state {
            CartridgeView::Nrom(s) => CartridgeView::Nrom(NROM::after_irq_check(s)),
            CartridgeView::Mmc1(s) => CartridgeView::Mmc1(MMC1::after_irq_check(s)),
            CartridgeView::Uxrom(s) => CartridgeView::Uxrom(UXROM::after_irq_check(s)),
            CartridgeView::Cnrom(s) => CartridgeView::Cnrom(CNROM::after_irq_check(s)),
            CartridgeView::Mmc3(s) => CartridgeView::Mmc3(MMC3::after_irq_check(s)),
            CartridgeView::Axrom(s) => CartridgeView::Axrom(AXROM::after_irq_check(s)),
            CartridgeView::ColorDreams(s) => CartridgeView::ColorDreams(ColorDreams::after_irq_check(s)),
        }
    }

    proof fn lemma_prg_sound_kept(state: CartridgeView, address: u16, byte: u8) {
        match state {
            CartridgeView::Nrom(s) => NROM::lemma_prg_sound_kept(s, address, byte),
            CartridgeView::Mmc1(s) => MMC1::lemma_prg_sound_kept(s, address, byte),
            CartridgeView::Uxrom(s) => UXROM::lemma_prg_sound_kept(s, address, byte),
            CartridgeView::Cnrom(s) => CNROM::lemma_prg_sound_kept(s, address, byte),
            CartridgeView::Mmc3(s) => MMC3::lemma_prg_sound_kept(s, address, byte),
            CartridgeView::Axrom(s) => AXROM::lemma_prg_sound_kept(s, address, byte),
            CartridgeView::ColorDreams(s) => ColorDreams::lemma_prg_sound_kept(s, address, byte),
        }
    }

    fn prg_read_ok(&self, address: u16) -> (r: bool) {
        match self {
            Cartridge::Nrom(m) => m.prg_read_ok(address),
            Cartridge::Mmc1(m) => m.prg_read_ok(address),
            Cartridge::Uxrom(m) => m.prg_read_ok(address),
            Cartridge::Cnrom(m) => m.prg_read_ok(address),
            Cartridge::Mmc3(m) => m.prg_read_ok(address),
            Cartridge::Axrom(m) => m.prg_read_ok(address),
            Cartridge::ColorDreams(m) => m.prg_read_ok(address),
        }
    }

    fn prg_write_ok(&self, address: u16) -> (r: bool) {
        match self {
            Cartridge::Nrom(m) => m.prg_write_ok(address),
            Cartridge::Mmc1(m) => m.prg_write_ok(address),
            Cartridge::Uxrom(m) => m.prg_write_ok(address),
            Cartridge::Cnrom(m) => m.prg_write_ok(address),
            Cartridge::Mmc3(m) => m.prg_write_ok(address),
            Cartridge::Axrom(m) => m.prg_write_ok(address),
            Cartridge::ColorDreams(m) => m.prg_write_ok(address),
        }
    }

    proof fn lemma_chr_sound_kept(state: CartridgeView, address: u16, byte: u8) {
        match state {
            CartridgeView::Nrom(s) => NROM::lemma_chr_sound_kept(s, address, byte),
            CartridgeView::Mmc1(s) => MMC1::lemma_chr_sound_kept(s, address, byte),
            CartridgeView::Uxrom(s) => UXROM::lemma_chr_sound_kept(s, address, byte),
            CartridgeView::Cnrom(s) => CNROM::lemma_chr_sound_kept(s, address, byte),
            CartridgeView::Mmc3(s) => MMC3::lemma_chr_sound_kept(s, address, byte),
            CartridgeView::Axrom(s) => AXROM::lemma_chr_sound_kept(s, address, byte),
            CartridgeView::ColorDreams(s) => ColorDreams::lemma_chr_sound_kept(s, address, byte),
        }
    }

    fn chr_read_ok(&self, address: u16) -> (r: bool) {
        match self {
            Cartridge::Nrom(m) => m.chr_read_ok(address),
            Cartridge::Mmc1(m) => m.chr_read_ok(address),
            Cartridge::Uxrom(m) => m.chr_read_ok(address),
            Cartridge::Cnrom(m) => m.chr_read_ok(address),
            Cartridge::Mmc3(m) => m.chr_read_ok(address),
            Cartridge::Axrom(m) => m.chr_read_ok(address),
            Cartridge::ColorDreams(m) => m.chr_read_ok(address),
        }
    }

    fn read_chr(&mut self, address: u16) -> (byte: u8) {
        match self {
            Cartridge::Nrom(m) => m.read_chr(address),
            Cartridge::Mmc1(m) => m.read_chr(address),
            Cartridge::Uxrom(m) => m.read_chr(address),
            Cartridge::Cnrom(m) => m.read_chr(address),
            Cartridge::Mmc3(m) => m.read_chr(address),
            Cartridge::Axrom(m) => m.read_chr(address),
            Cartridge::ColorDreams(m) => m.read_chr(address),
        }
    }

    fn write_chr(&mut self, address: u16, byte: u8) {
        match self {
            Cartridge::Nrom(m) => m.write_chr(address, byte),
            Cartridge::Mmc1(m) => m.write_chr(address, byte),
            Cartridge::Uxrom(m) => m.write_chr(address, byte),
            Cartridge::Cnrom(m) => m.write_chr(address, byte),
            Cartridge::Mmc3(m) => m.write_chr(address, byte),
            Cartridge::Axrom(m) => m.write_chr(address, byte),
            Cartridge::ColorDreams(m) => m.write_chr(address, byte),
        }
    }

    fn read_prg(&mut self, address: u16) -> (byte: u8) {
        match self {
            Cartridge::Nrom(m) => m.read_prg(address),
            Cartridge::Mmc1(m) => m.read_prg(address),
            Cartridge::Uxrom(m) => m.read_prg(address),
            Cartridge::Cnrom(m) => m.read_prg(address),
            Cartridge::Mmc3(m) => m.read_prg(address),
            Cartridge::Axrom(m) => m.read_prg(address),
            Cartridge::ColorDreams(m) => m.read_prg(address),
        }
    }

    fn write_prg(&mut self, address: u16, byte: u8) {
        match self {
            Cartridge::Nrom(m) => m.write_prg(address, byte),
            Cartridge::Mmc1(m) => m.write_prg(address, byte),
            Cartridge::Uxrom(m) => m.write_prg(address, byte),
            Cartridge::Cnrom(m) => m.write_prg(address, byte),
            Cartridge::Mmc3(m) => m.write_prg(address, byte),
            Cartridge::Axrom(m) => m.write_prg(address, byte),
            Cartridge::ColorDreams(m) => m.write_prg(address, byte),
        }
    }

    fn mirror_mode(&self) -> (mode: MirrorMode) {
        match self {
            Cartridge::Nrom(m) => m.mirror_mode(),
            Cartridge::Mmc1(m) => m.mirror_mode(),
            Cartridge::Uxrom(m) => m.mirror_mode(),
            Cartridge::Cnrom(m) => m.mirror_mode(),
            Cartridge::Mmc3(m) => m.mirror_mode(),
            Cartridge::Axrom(m) => m.mirror_mode(),
            Cartridge::ColorDreams(m) => m.mirror_mode(),
        }
    }

    fn irq_triggered(&mut self) -> (flag: bool) {
        match self {
            Cartridge::Nrom(m) => m.irq_triggered(),
            Cartridge::Mmc1(m) => m.irq_triggered(),
            Cartridge::Uxrom(m) => m.irq_triggered(),
            Cartridge::Cnrom(m) => m.irq_triggered(),
            Cartridge::Mmc3(m) => m.irq_triggered(),
            Cartridge::Axrom(m) => m.irq_triggered(),
            Cartridge::ColorDreams(m) => m.irq_triggered(),
        }
    }
}

} // verus!
