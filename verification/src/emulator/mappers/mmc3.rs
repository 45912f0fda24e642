//! iNES mapper 4: MMC3. Four switchable 8KiB PRG windows, two 2KiB and four
//! 1KiB switchable CHR windows, and a scanline counter that raises an IRQ.
use vstd::prelude::*;
use crate::emulator::bits::{lemma_byte_bits, lemma_offset_bits};

use crate::emulator::memory::{Mapper, Memory, MemoryView};
use crate::emulator::ppu::MirrorMode;

verus! {

pub struct MMC3 {
    prg_rom: Memory,
    chr_rom: Memory,
    /// The eight bank registers R0-R7, then the starts of the second last
    /// and last PRG banks.
    bank_registers: [usize; 10],
    bank_select: usize,
    prg_inversion: bool,
    chr_inversion: bool,
    irq_flag: bool,
    irq_counter: u8,
    irq_reload_flag: bool,
    irq_counter_reload: u8,
    irq_enabled: bool,
    ppu_a12: bool,
    ppu_a12_low_counter: u8,
    mirror_mode: MirrorMode,
}

pub struct Mmc3View {
    pub prg_rom: MemoryView,
    pub chr_rom: MemoryView,
    pub bank_registers: Seq<usize>,
    pub bank_select: usize,
    pub prg_inversion: bool,
    pub chr_inversion: bool,
    pub irq_flag: bool,
    pub irq_counter: u8,
    pub irq_reload_flag: bool,
    pub irq_counter_reload: u8,
    pub irq_enabled: bool,
    pub ppu_a12: bool,
    pub ppu_a12_low_counter: u8,
    pub mirror_mode: MirrorMode,
}

impl View for MMC3 {
    type V = Mmc3View;

    closed spec fn view(&self) -> Mmc3View {
        Mmc3View {
            prg_rom: self.prg_rom@,
            chr_rom: self.chr_rom@,
            bank_registers: self.bank_registers@,
            bank_select: self.bank_select,
            prg_inversion: self.prg_inversion,
            chr_inversion: self.chr_inversion,
            irq_flag: self.irq_flag,
            irq_counter: self.irq_counter,
            irq_reload_flag: self.irq_reload_flag,
            irq_counter_reload: self.irq_counter_reload,
            irq_enabled: self.irq_enabled,
            ppu_a12: self.ppu_a12,
            ppu_a12_low_counter: self.ppu_a12_low_counter,
            mirror_mode: self.mirror_mode,
        }
    }
}

/// The bank register and bank size behind a pattern-table address; the CHR
/// inversion bit swaps the 2KiB and the 1KiB halves.
pub open spec fn mmc3_chr_bank(inversion: bool, address: u16) -> (int, int) {
    let quarter = address / 0x400;
    if quarter == 0 {
        if inversion { (2, 0x400) } else { (0, 0x800) }
    } else if quarter == 1 {
        if inversion { (3, 0x400) } else { (0, 0x800) }
    } else if quarter == 2 {
        if inversion { (4, 0x400) } else { (1, 0x800) }
    } else if quarter == 3 {
        if inversion { (5, 0x400) } else { (1, 0x800) }
    } else if quarter == 4 {
        if inversion { (0, 0x800) } else { (2, 0x400) }
    } else if quarter == 5 {
        if inversion { (0, 0x800) } else { (3, 0x400) }
    } else if quarter == 6 {
        if inversion { (1, 0x800) } else { (4, 0x400) }
    } else {
        if inversion { (1, 0x800) } else { (5, 0x400) }
    }
}

/// The bank register behind a program address; the PRG inversion bit swaps
/// the windows at $8000 and $C000.
pub open spec fn mmc3_prg_bank(inversion: bool, address: u16) -> int {
    if address <= 0x9FFF {
        if inversion { 8 } else { 6 }
    } else if address <= 0xBFFF {
        7
    } else if address <= 0xDFFF {
        if inversion { 6 } else { 8 }
    } else {
        9
    }
}

/// One clock of the scanline counter: at zero, or when a reload is pending,
/// it reloads and raises the IRQ if enabled; otherwise it counts down.
pub open spec fn mmc3_clocked(s: Mmc3View) -> Mmc3View {
    if s.irq_counter == 0 || s.irq_reload_flag {
        Mmc3View {
            irq_flag: s.irq_enabled,
            irq_counter: s.irq_counter_reload,
            irq_reload_flag: false,
            ..s
        }
    } else {
        Mmc3View { irq_counter: (s.irq_counter - 1) as u8, ..s }
    }
}

/// The board after `n` clocks of its scanline counter.
pub open spec fn mmc3_clocked_times(s: Mmc3View, n: nat) -> Mmc3View
    decreases n,
{
    if n == 0 {
        s
    } else {
        mmc3_clocked(mmc3_clocked_times(s, (n - 1) as nat))
    }
}

/// The scanline counter counts down: from a counter of `c` with no reload
/// pending, the next `c` clocks take it down to 0 with the interrupt flag
/// and everything else left as it was, and the clock after that reloads it
/// from the reload value and sets the interrupt flag exactly when
/// interrupts are enabled. So after the reload register is written and a
/// reload requested, the interrupt comes every reload value + 1 clocks.
pub proof fn law_mmc3_irq_countdown(s: Mmc3View, k: nat)
    requires
        !s.irq_reload_flag,
        k <= s.irq_counter,
    ensures
        mmc3_clocked_times(s, k) == (Mmc3View { irq_counter: (s.irq_counter - k) as u8, ..s }),
        mmc3_clocked_times(s, (s.irq_counter + 1) as nat) == (Mmc3View {
            irq_counter: s.irq_counter_reload,
            irq_flag: s.irq_enabled,
            ..s
        }),
{
    lemma_mmc3_counts_down(s, k);
    lemma_mmc3_counts_down(s, s.irq_counter as nat);
}

proof fn lemma_mmc3_counts_down(s: Mmc3View, k: nat)
    requires
        !s.irq_reload_flag,
        k <= s.irq_counter,
    ensures
        mmc3_clocked_times(s, k) == (Mmc3View { irq_counter: (s.irq_counter - k) as u8, ..s }),
    decreases k,
{
    if k > 0 {
        lemma_mmc3_counts_down(s, (k - 1) as nat);
    }
}

/// The interrupt registers: an even write in $C000-$DFFF sets the reload
/// value, an odd one requests a reload, which the next clock performs
/// whatever the counter holds; an even write in $E000-$FFFF disables and
/// acknowledges the interrupt, an odd one enables it. None of them touches
/// the counter itself or the banks.
pub proof fn law_mmc3_irq_registers(s: Mmc3View, byte: u8)
    ensures
        mmc3_written(s, 0xC000, byte) == (Mmc3View { irq_counter_reload: byte, ..s }),
        mmc3_written(s, 0xC001, byte) == (Mmc3View { irq_reload_flag: true, ..s }),
        mmc3_written(s, 0xE000, byte) == (Mmc3View { irq_enabled: false, irq_flag: false, ..s }),
        mmc3_written(s, 0xE001, byte) == (Mmc3View { irq_enabled: true, ..s }),
        mmc3_clocked(mmc3_written(s, 0xC001, byte)) == (Mmc3View {
            irq_counter: s.irq_counter_reload,
            irq_flag: s.irq_enabled,
            irq_reload_flag: false,
            ..s
        }),
{
    crate::emulator::bits::lemma_byte_bits(byte, 0);
}

/// Writes to $A000-$BFFF pick the mirroring by bit 0: vertical when clear,
/// horizontal when set; they change nothing else.
pub proof fn law_mmc3_mirroring(s: Mmc3View, address: u16, byte: u8)
    requires
        0xA000 <= address < 0xC000,
    ensures
        mmc3_written(s, address, byte) == (Mmc3View {
            mirror_mode: if byte % 2 == 0 {
                MirrorMode::Vertical
            } else {
                MirrorMode::Horizontal
            },
            ..s
        }),
{
    crate::emulator::bits::lemma_address_bits(address);
    crate::emulator::bits::lemma_register_bits(byte, 0, 0);
}

/// The scanline counter is clocked by the PPU's address line 12 only: a
/// read with A12 high clocks it exactly when the previous read had A12 low
/// and more than twelve reads in a row had it low; any other read leaves
/// the counter, its reload, the interrupt and the banks as they were. The
/// board follows A12 and counts the reads with it low (wrapping after 255),
/// restarting the count on a read with it high.
pub proof fn law_mmc3_a12_clock(s: Mmc3View, address: u16)
    ensures
        ({
            let t = mmc3_chr_read(s, address);
            let high = address & 0x1000 == 0x1000;
            let rises = high && !s.ppu_a12 && s.ppu_a12_low_counter > 12;
            &&& t.ppu_a12 == high
            &&& rises ==> t == (Mmc3View { ppu_a12: true, ..mmc3_clocked(s) })
            &&& !rises ==> t.irq_counter == s.irq_counter && t.irq_flag == s.irq_flag
                && t.irq_reload_flag == s.irq_reload_flag && t.bank_registers == s.bank_registers
            &&& !high && !s.ppu_a12 ==> t.ppu_a12_low_counter == (s.ppu_a12_low_counter + 1) % 256
            &&& high && !rises ==> t.ppu_a12_low_counter == 0
        }),
{
}

/// The board after the PPU reads `address`: a rise of address line 12 after
/// more than twelve reads with it low clocks the scanline counter.
pub open spec fn mmc3_chr_read(s: Mmc3View, address: u16) -> Mmc3View {
    let a12 = address & 0x1000 == 0x1000;
    let t = if a12 && !s.ppu_a12 && s.ppu_a12_low_counter > 12 {
        mmc3_clocked(s)
    } else if !a12 && !s.ppu_a12 {
        Mmc3View {
            ppu_a12_low_counter: if s.ppu_a12_low_counter == 255 {
                0
            } else {
                (s.ppu_a12_low_counter + 1) as u8
            },
            ..s
        }
    } else if a12 {
        Mmc3View { ppu_a12_low_counter: 0, ..s }
    } else {
        s
    };
    Mmc3View { ppu_a12: a12, ..t }
}

/// The board after a write to one of its eight registers, chosen by bits
/// 13-14 and bit 0 of the address.
pub open spec fn mmc3_written(s: Mmc3View, address: u16, byte: u8) -> Mmc3View {
    let pair = address & 0xE000;
    let odd = address & 0x1 != 0;
    if pair == 0x8000 {
        if !odd {
            Mmc3View {
                bank_select: (byte & 0x0F) as usize,
                prg_inversion: byte & 0x40 == 0x40,
                chr_inversion: byte & 0x80 == 0x80,
                ..s
            }
        } else {
            let value: usize = if s.bank_select >= 6 {
                ((byte & 0x7F) as usize) << 13usize
            } else if s.bank_select <= 1 {
                ((byte & 0xFE) as usize) << 10usize
            } else {
                (byte as usize) << 10usize
            };
            Mmc3View { bank_registers: s.bank_registers.update(s.bank_select as int, value), ..s }
        }
    } else if pair == 0xA000 {
        Mmc3View {
            mirror_mode: if byte & 0x1 == 0 {
                MirrorMode::Vertical
            } else {
                MirrorMode::Horizontal
            },
            ..s
        }
    } else if pair == 0xC000 {
        if !odd {
            Mmc3View { irq_counter_reload: byte, ..s }
        } else {
            Mmc3View { irq_reload_flag: true, ..s }
        }
    } else {
        if !odd {
            Mmc3View { irq_enabled: false, irq_flag: false, ..s }
        } else {
            Mmc3View { irq_enabled: true, ..s }
        }
    }
}

/// A board fresh from power-on: all switchable banks at zero, the last two
/// PRG windows on the last two banks, interrupts off.
pub open spec fn mmc3_initial(prg_rom: MemoryView, chr_rom: MemoryView) -> Mmc3View {
    Mmc3View {
        prg_rom,
        chr_rom,
        bank_registers: seq![
            0usize,
            0,
            0,
            0,
            0,
            0,
            0,
            0,
            ((prg_rom.data.len() / 0x2000 - 2) * 0x2000) as usize,
            ((prg_rom.data.len() / 0x2000 - 1) * 0x2000) as usize,
        ],
        bank_select: 0,
        prg_inversion: false,
        chr_inversion: false,
        irq_flag: false,
        irq_counter: 0,
        irq_reload_flag: false,
        irq_counter_reload: 0,
        irq_enabled: false,
        ppu_a12: false,
        ppu_a12_low_counter: 0,
        mirror_mode: MirrorMode::Horizontal,
    }
}

/// The board's ten bank registers are all there.
pub open spec fn mmc3_valid(s: Mmc3View) -> bool {
    s.bank_registers.len() == 10
}

/// The bank data register, which writes the bank register that the bank
/// select register names.
pub open spec fn mmc3_is_bank_data(address: u16) -> bool {
    address & 0xE001 == 0x8001
}

/// The CHR byte a pattern-table address reads.
pub open spec fn mmc3_chr_index(s: Mmc3View, address: u16) -> int {
    let (ix, size) = mmc3_chr_bank(s.chr_inversion, address);
    s.bank_registers[ix] + (address as int) % size
}

/// The PRG byte a program address reads.
pub open spec fn mmc3_prg_index(s: Mmc3View, address: u16) -> int {
    s.bank_registers[mmc3_prg_bank(s.prg_inversion, address)] + (address as int) % 0x2000
}

impl MMC3 {
    pub fn new(prg_rom: Memory, chr_rom: Memory) -> (m: MMC3)
        requires
            prg_rom@.data.len() >= 0x4000,
        ensures
            m@ == mmc3_initial(prg_rom@, chr_rom@),
            mmc3_valid(m@),
    {
        let mut m = MMC3 {
            prg_rom,
            chr_rom,
            bank_registers: [0usize, 0, 0, 0, 0, 0, 0, 0, 0, 0],
            bank_select: 0,
            prg_inversion: false,
            chr_inversion: false,
            irq_flag: false,
            irq_counter: 0,
            irq_reload_flag: false,
            irq_counter_reload: 0,
            irq_enabled: false,
            ppu_a12: false,
            ppu_a12_low_counter: 0,
            mirror_mode: MirrorMode::Horizontal,
        };
        let num_banks = m.prg_rom.len() / 0x2000;
        assert((num_banks - 1) * 0x2000 + 0x2000 <= m.prg_rom@.data.len()) by (nonlinear_arith)
            requires
                num_banks == m.prg_rom@.data.len() / 0x2000,
                num_banks >= 2,
        ;
        m.bank_registers[8] = (num_banks - 2) * 0x2000;
        m.bank_registers[9] = (num_banks - 1) * 0x2000;
        assert(m.bank_registers@ =~= seq![
            0usize,
            0,
            0,
            0,
            0,
            0,
            0,
            0,
            ((m.prg_rom@.data.len() / 0x2000 - 2) * 0x2000) as usize,
            ((m.prg_rom@.data.len() / 0x2000 - 1) * 0x2000) as usize,
        ]);
        m
    }

    fn clock_irq(&mut self)
        ensures
            final(self)@ == mmc3_clocked(old(self)@),
    {
        if self.irq_counter == 0 || self.irq_reload_flag {
            self.irq_flag = self.irq_enabled;
            self.irq_counter = self.irq_counter_reload;
            self.irq_reload_flag = false;
        } else {
            self.irq_counter = self.irq_counter.saturating_sub(1);
        }
    }
}

/// The PRG windows of MMC3: $8000 shows the bank in R6 and $C000 the
/// second-last bank (R8), or the other way round with PRG inversion; $A000
/// shows R7 and $E000 the last bank (R9). Inverting swaps what $8000-$9FFF
/// and $C000-$DFFF show and leaves the other windows alone.
pub proof fn law_mmc3_prg_windows(s: Mmc3View, i: u16)
    requires
        mmc3_valid(s),
        i < 0x2000,
    ensures
        ({
            let r = s.bank_registers;
            let d = s.prg_rom.data;
            let flipped = Mmc3View { prg_inversion: !s.prg_inversion, ..s };
            &&& <MMC3 as Mapper>::prg_peek(s, (0x8000 + i) as u16) == d[r[if s.prg_inversion {
                8int
            } else {
                6int
            }] + i]
            &&& <MMC3 as Mapper>::prg_peek(s, (0xA000 + i) as u16) == d[r[7] + i]
            &&& <MMC3 as Mapper>::prg_peek(s, (0xC000 + i) as u16) == d[r[if s.prg_inversion {
                6int
            } else {
                8int
            }] + i]
            &&& <MMC3 as Mapper>::prg_peek(s, (0xE000 + i) as u16) == d[r[9] + i]
            &&& <MMC3 as Mapper>::prg_peek(flipped, (0x8000 + i) as u16) == <MMC3 as Mapper>::prg_peek(
                s,
                (0xC000 + i) as u16,
            )
            &&& <MMC3 as Mapper>::prg_peek(flipped, (0xA000 + i) as u16) == <MMC3 as Mapper>::prg_peek(
                s,
                (0xA000 + i) as u16,
            )
        }),
{
}

/// The CHR windows of MMC3: without CHR inversion $0000 and $0800 show the
/// 2KiB banks at R0 and R1, and $1000, $1400, $1800 and $1C00 the 1KiB
/// banks at R2 to R5; inverting swaps the two pattern tables.
pub proof fn law_mmc3_chr_windows(s: Mmc3View, a: u16)
    requires
        mmc3_valid(s),
        a < 0x2000,
    ensures
        ({
            let r = s.bank_registers;
            let d = s.chr_rom.data;
            let flipped = Mmc3View { chr_inversion: !s.chr_inversion, ..s };
            let half: int = if a < 0x1000 {
                (a + 0x1000) as int
            } else {
                (a - 0x1000) as int
            };
            &&& !s.chr_inversion ==> <MMC3 as Mapper>::chr_peek(s, a) == if a < 0x800 {
                d[r[0] + a]
            } else if a < 0x1000 {
                d[r[1] + a - 0x800]
            } else {
                d[r[2 + (a - 0x1000) / 0x400] + a % 0x400]
            }
            &&& <MMC3 as Mapper>::chr_peek(flipped, half as u16) == <MMC3 as Mapper>::chr_peek(s, a)
        }),
{
    let half: int = if a < 0x1000 {
        (a + 0x1000) as int
    } else {
        (a - 0x1000) as int
    };
    let h = half as u16;
    assert(h as int == half);
    assert(h / 0x400 == if a < 0x1000 {
        a / 0x400 + 4
    } else {
        a / 0x400 - 4
    });
    assert(h % 0x400 == a % 0x400 && h % 0x800 == a % 0x800);
}

/// Register writes at $8000 and $8001: bank select takes the register
/// number from bits 0-3, PRG inversion from bit 6 and CHR inversion from bit
/// 7; bank data stores into the selected register an 8KiB PRG bank number
/// (its low seven bits) for R6 and R7, a 2KiB CHR bank (even 1KiB banks
/// only) for R0 and R1, and a 1KiB CHR bank for R2 to R5, as byte offsets;
/// the other registers stay.
pub proof fn law_mmc3_bank_registers(s: Mmc3View, byte: u8)
    requires
        mmc3_valid(s),
        s.bank_select < 8,
    ensures
        ({
            let sel = <MMC3 as Mapper>::after_prg_write(s, 0x8000, byte);
            let data = <MMC3 as Mapper>::after_prg_write(s, 0x8001, byte);
            let k = s.bank_select as int;
            &&& sel.bank_select == byte % 16
            &&& sel.prg_inversion == (byte / 64 % 2 == 1)
            &&& sel.chr_inversion == (byte >= 128)
            &&& sel.bank_registers == s.bank_registers
            &&& data.bank_registers[k] == if k >= 6 {
                (byte % 128) * 0x2000
            } else if k <= 1 {
                (byte / 2) * 0x800
            } else {
                byte * 0x400
            }
            &&& forall|j: int| 0 <= j < 10 && j != k ==> data.bank_registers[j]
                == s.bank_registers[j]
        }),
{
    lemma_byte_bits(byte, 0);
    lemma_offset_bits(byte, byte as usize);
}

impl Mapper for MMC3 {
    /// A pattern-table address whose byte in its bank the CHR memory holds.
    open spec fn chr_accessible(state: Mmc3View, address: u16) -> bool {
        &&& mmc3_valid(state)
        &&& address < 0x2000
        &&& mmc3_chr_index(state, address) < state.chr_rom.data.len()
    }

    /// A program address whose byte in its bank the PRG ROM holds.
    open spec fn prg_accessible(state: Mmc3View, address: u16) -> bool {
        &&& mmc3_valid(state)
        &&& address >= 0x8000
        &&& mmc3_prg_index(state, address) < state.prg_rom.data.len()
    }

    /// Any register address, but bank data only while the bank select
    /// register names one of the ten bank registers.
    open spec fn prg_writable(state: Mmc3View, address: u16) -> bool {
        &&& mmc3_valid(state)
        &&& address >= 0x8000
        &&& mmc3_is_bank_data(address) ==> state.bank_select < 10
    }

    /// The ten bank registers stay.
    open spec fn chr_sound(state: Mmc3View) -> bool {
        mmc3_valid(state)
    }

    open spec fn prg_sound(state: Mmc3View) -> bool {
        mmc3_valid(state)
    }

    open spec fn chr_peek(state: Mmc3View, address: u16) -> u8 {
        state.chr_rom.data[mmc3_chr_index(state, address)]
    }

    open spec fn after_chr_read(state: Mmc3View, address: u16) -> Mmc3View {
        mmc3_chr_read(state, address)
    }

    /// CHR ROM cannot be written.
    open spec fn after_chr_write(state: Mmc3View, address: u16, byte: u8) -> Mmc3View {
        state
    }

    open spec fn prg_peek(state: Mmc3View, address: u16) -> u8 {
        state.prg_rom.data[mmc3_prg_index(state, address)]
    }

    open spec fn after_prg_write(state: Mmc3View, address: u16, byte: u8) -> Mmc3View {
        mmc3_written(state, address, byte)
    }

    open spec fn mirroring(state: Mmc3View) -> MirrorMode {
        state.mirror_mode
    }

    open spec fn irq_pending(state: Mmc3View) -> bool {
        state.irq_flag
    }

    open spec fn after_irq_check(state: Mmc3View) -> Mmc3View {
        Mmc3View { irq_flag: false, ..state }
    }

    proof fn lemma_prg_sound_kept(state: Mmc3View, address: u16, byte: u8) {
        assert((address & 0xE000 == 0x8000 && address & 0x1 != 0) ==> address & 0xE001 == 0x8001)
            by (bit_vector);
    }

    fn prg_read_ok(&self, address: u16) -> (r: bool) {
        if address < 0x8000 {
            return false;
        }
        let inv = self.prg_inversion;
        let bank_ix: usize = if address <= 0x9FFF {
            if inv { 8 } else { 6 }
        } else if address <= 0xBFFF {
            7
        } else if address <= 0xDFFF {
            if inv { 6 } else { 8 }
        } else {
            9
        };
        let base = self.bank_registers[bank_ix];
        let offset = (address % 0x2000) as usize;
        let len = self.prg_rom.len();
        base < len && offset < len - base
    }

    fn prg_write_ok(&self, address: u16) -> (r: bool) {
        address >= 0x8000 && (address & 0xE001 != 0x8001 || self.bank_select < 10)
    }

    proof fn lemma_chr_sound_kept(state: Mmc3View, address: u16, byte: u8) {
    }

    fn chr_read_ok(&self, address: u16) -> (r: bool) {
        if address >= 0x2000 {
            return false;
        }
        let inv = self.chr_inversion;
        let quarter = address / 0x400;
        let (bank_ix, bank_size): (usize, u16) = if quarter == 0 {
            if inv { (2, 0x400) } else { (0, 0x800) }
        } else if quarter == 1 {
            if inv { (3, 0x400) } else { (0, 0x800) }
        } else if quarter == 2 {
            if inv { (4, 0x400) } else { (1, 0x800) }
        } else if quarter == 3 {
            if inv { (5, 0x400) } else { (1, 0x800) }
        } else if quarter == 4 {
            if inv { (0, 0x800) } else { (2, 0x400) }
        } else if quarter == 5 {
            if inv { (0, 0x800) } else { (3, 0x400) }
        } else if quarter == 6 {
            if inv { (1, 0x800) } else { (4, 0x400) }
        } else {
            if inv { (1, 0x800) } else { (5, 0x400) }
        };
        let base = self.bank_registers[bank_ix];
        let offset = (address % bank_size) as usize;
        assert(mmc3_chr_bank(self.chr_inversion, address) == (bank_ix as int, bank_size as int));
        let len = self.chr_rom.len();
        base < len && offset < len - base
    }

    fn read_chr(&mut self, address: u16) -> (byte: u8) {
        let inv = self.chr_inversion;
        let quarter = address / 0x400;
        let (bank_ix, bank_size): (usize, u16) = if quarter == 0 {
            if inv { (2, 0x400) } else { (0, 0x800) }
        } else if quarter == 1 {
            if inv { (3, 0x400) } else { (0, 0x800) }
        } else if quarter == 2 {
            if inv { (4, 0x400) } else { (1, 0x800) }
        } else if quarter == 3 {
            if inv { (5, 0x400) } else { (1, 0x800) }
        } else if quarter == 4 {
            if inv { (0, 0x800) } else { (2, 0x400) }
        } else if quarter == 5 {
            if inv { (0, 0x800) } else { (3, 0x400) }
        } else if quarter == 6 {
            if inv { (1, 0x800) } else { (4, 0x400) }
        } else {
            if inv { (1, 0x800) } else { (5, 0x400) }
        };
        let base = self.bank_registers[bank_ix];
        let offset = (address % bank_size) as usize;
        assert(mmc3_chr_bank(self.chr_inversion, address) == (bank_ix as int, bank_size as int));
        assert(base + offset == mmc3_chr_index(self@, address));
        let _len = self.chr_rom.len();
        // Update A12 and clock the IRQ counter.
        let a12 = address & 0x1000 == 0x1000;
        if a12 && !self.ppu_a12 && self.ppu_a12_low_counter > 12 {
            self.clock_irq();
        } else if !a12 && !self.ppu_a12 {
            self.ppu_a12_low_counter = self.ppu_a12_low_counter.wrapping_add(1);
        } else if a12 {
            self.ppu_a12_low_counter = 0;
        }
        self.ppu_a12 = a12;
        self.chr_rom.get(base + offset)
    }

    fn write_chr(&mut self, address: u16, byte: u8) {
        // CHR ROM not writeable.
    }

    fn read_prg(&mut self, address: u16) -> (byte: u8) {
        let inv = self.prg_inversion;
        let bank_ix: usize = if address <= 0x9FFF {
            if inv { 8 } else { 6 }
        } else if address <= 0xBFFF {
            7
        } else if address <= 0xDFFF {
            if inv { 6 } else { 8 }
        } else {
            9
        };
        let base = self.bank_registers[bank_ix];
        let offset = (address % 0x2000) as usize;
        assert(base + offset == mmc3_prg_index(self@, address));
        let _len = self.prg_rom.len();
        self.prg_rom.get(base + offset)
    }

    fn write_prg(&mut self, address: u16, byte: u8) {
        // Two functional units, each with four registers: memory mapping at
        // $8000-$BFFF and scanline counting at $C000-$FFFF; even and odd
        // addresses select the two registers of each pair.
        let pair = address & 0xE000;
        let odd = address & 0x1 != 0;
        assert(address >= 0x8000 ==> (address & 0xE000 == 0x8000 || address & 0xE000 == 0xA000
            || address & 0xE000 == 0xC000 || address & 0xE000 == 0xE000)) by (bit_vector);
        assert((address & 0xE000 == 0x8000 && address & 0x1 != 0) ==> address & 0xE001 == 0x8001)
            by (bit_vector);
        if pair == 0x8000 {
            if !odd {
                // Bank select.
                self.bank_select = (byte & 0x0F) as usize;
                self.prg_inversion = byte & 0x40 == 0x40;
                self.chr_inversion = byte & 0x80 == 0x80;
            } else {
                // Bank data: PRG banks are 8KiB and ignore the top two bits;
                // the 2KiB CHR banks can only select even banks.
                let bank_select = self.bank_select;
                if bank_select >= 6 {
                    self.bank_registers[bank_select] = ((byte & 0x7F) as usize) << 13usize;
                } else if bank_select <= 1 {
                    self.bank_registers[bank_select] = ((byte & 0xFE) as usize) << 10usize;
                } else {
                    self.bank_registers[bank_select] = (byte as usize) << 10usize;
                }
            }
        } else if pair == 0xA000 {
            self.mirror_mode = if byte & 0x1 == 0 {
                MirrorMode::Vertical
            } else {
                MirrorMode::Horizontal
            };
        } else if pair == 0xC000 {
            if !odd {
                self.irq_counter_reload = byte;
            } else {
                self.irq_reload_flag = true;
            }
        } else {
            if !odd {
                self.irq_enabled = false;
                self.irq_flag = false;
            } else {
                self.irq_enabled = true;
            }
        }
    }

    fn mirror_mode(&self) -> (mode: MirrorMode) {
        self.mirror_mode
    }

    fn irq_triggered(&mut self) -> (flag: bool) {
        let flag = self.irq_flag;
        self.irq_flag = false;
        flag
    }
}

} // verus!
