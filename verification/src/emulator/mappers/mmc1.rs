//! iNES mapper 1: MMC1. Two switchable 16KiB PRG banks and two switchable
//! 4KiB CHR banks, loaded through a five-write serial shift register.
use vstd::prelude::*;

use crate::emulator::bits::{lemma_address_bits, lemma_byte_bits, lemma_register_bits, lemma_word_bits};
use crate::emulator::memory::{Mapper, Memory, MemoryView, memory_put};
use crate::emulator::ppu::MirrorMode;
use crate::emulator::state::{MMC1State, MapperState, MapperStateView, MemoryState, Mmc1StateView, SaveState};

verus! {

pub struct MMC1 {
    prg_rom: Memory,
    chr_mem: Memory,
    load_register: u8,
    write_index: u8,
    /// 4bit0
    /// -----
    /// CPPMM
    /// |||||
    /// |||++- Mirroring (0: one-screen, lower bank; 1: one-screen, upper bank;
    /// |||               2: vertical; 3: horizontal)
    /// |++--- PRG ROM bank mode (0, 1: switch 32 KB at $8000, ignoring low bit of bank number;
    /// |                         2: fix first bank at $8000 and switch 16 KB bank at $C000;
    /// |                         3: fix last bank at $C000 and switch 16 KB bank at $8000)
    /// +----- CHR ROM bank mode (0: switch 8 KB at a time; 1: switch two separate 4 KB banks)
    control: u8,
    prg_bank: u8,
    chr_bank_1: u8,
    chr_bank_2: u8,
    prg_offsets: [u32; 2],
    chr_offsets: [u32; 2],
}

pub struct Mmc1View {
    pub prg_rom: MemoryView,
    pub chr_mem: MemoryView,
    pub load_register: u8,
    pub write_index: u8,
    pub control: u8,
    pub prg_bank: u8,
    pub chr_bank_1: u8,
    pub chr_bank_2: u8,
    /// Where in PRG ROM the banks at $8000 and $C000 start.
    pub prg_offsets: Seq<u32>,
    /// Where in CHR memory the banks at $0000 and $1000 start.
    pub chr_offsets: Seq<u32>,
}

impl View for MMC1 {
    type V = Mmc1View;

    closed spec fn view(&self) -> Mmc1View {
        Mmc1View {
            prg_rom: self.prg_rom@,
            chr_mem: self.chr_mem@,
            load_register: self.load_register,
            write_index: self.write_index,
            control: self.control,
            prg_bank: self.prg_bank,
            chr_bank_1: self.chr_bank_1,
            chr_bank_2: self.chr_bank_2,
            prg_offsets: self.prg_offsets@,
            chr_offsets: self.chr_offsets@,
        }
    }
}

/// The start of bank `index` in a memory of `len` bytes cut into banks of
/// `bank_size`, the bank number wrapping at the number of banks.
pub open spec fn mmc1_bank_offset(len: nat, bank_size: nat, index: u32) -> u32 {
    ((index as nat % (len / bank_size)) * bank_size) as u32
}

/// The PRG bank offsets that the control register's bank mode and the PRG
/// bank register select.
pub open spec fn mmc1_prg_offsets(control: u8, prg_bank: u8, prg_len: nat) -> Seq<u32> {
    let bank = prg_bank as u32;
    let mode = (control & 0x0C) >> 2u8;
    if mode <= 1 {
        seq![
            mmc1_bank_offset(prg_len, 0x4000, bank & 0x0E),
            mmc1_bank_offset(prg_len, 0x4000, (bank | 0x01) & 0x0F),
        ]
    } else if mode == 2 {
        seq![0u32, mmc1_bank_offset(prg_len, 0x4000, bank & 0x0F)]
    } else {
        seq![
            mmc1_bank_offset(prg_len, 0x4000, bank & 0x0F),
            mmc1_bank_offset(prg_len, 0x4000, ((prg_len / 0x4000) - 1) as u32),
        ]
    }
}

/// The CHR bank offsets that the control register's CHR mode and the two
/// CHR bank registers select.
pub open spec fn mmc1_chr_offsets(control: u8, chr_bank_1: u8, chr_bank_2: u8, chr_len: nat) -> Seq<
    u32,
> {
    if (control & 0x10) >> 4u8 == 0 {
        seq![
            mmc1_bank_offset(chr_len, 0x1000, (chr_bank_1 as u32) & 0x1E),
            mmc1_bank_offset(chr_len, 0x1000, (chr_bank_1 as u32) | 0x01),
        ]
    } else {
        seq![
            mmc1_bank_offset(chr_len, 0x1000, (chr_bank_1 as u32) & 0x1F),
            mmc1_bank_offset(chr_len, 0x1000, (chr_bank_2 as u32) & 0x1F),
        ]
    }
}

/// `s` with its bank offsets brought up to date with its registers.
pub open spec fn mmc1_updated(s: Mmc1View) -> Mmc1View {
    Mmc1View {
        prg_offsets: mmc1_prg_offsets(s.control, s.prg_bank, s.prg_rom.data.len()),
        chr_offsets: mmc1_chr_offsets(s.control, s.chr_bank_1, s.chr_bank_2, s.chr_mem.data.len()),
        ..s
    }
}

/// A board fresh from power-on: the shift register empty (its marker bit
/// set), PRG mode 3 and all banks zero.
pub open spec fn mmc1_initial(prg_rom: MemoryView, chr_mem: MemoryView) -> Mmc1View {
    mmc1_updated(
        Mmc1View {
            prg_rom,
            chr_mem,
            load_register: 0x10,
            write_index: 0,
            control: 0x0C,
            prg_bank: 0,
            chr_bank_1: 0,
            chr_bank_2: 0,
            prg_offsets: seq![0u32, 0u32],
            chr_offsets: seq![0u32, 0u32],
        },
    )
}

/// The memories hold at least one bank each and are addressable by 32-bit
/// offsets; the shift register is mid-load; the offsets follow the registers.
pub open spec fn mmc1_valid(s: Mmc1View) -> bool {
    &&& 0x4000 <= s.prg_rom.data.len() <= u32::MAX
    &&& 0x1000 <= s.chr_mem.data.len() <= u32::MAX
    &&& s.write_index < 5
    &&& s == mmc1_updated(s)
}

/// The serial port after a write of `byte` to `address`: bit 7 resets the
/// shift register; otherwise bit 0 is shifted in, and the fifth bit goes to
/// the register that bits 13-14 of the address select.
pub open spec fn mmc1_written(s: Mmc1View, address: u16, byte: u8) -> Mmc1View {
    if byte & 0x80 != 0 {
        Mmc1View { load_register: 0, write_index: 0, ..s }
    } else {
        let value = (s.load_register >> 1u8) | ((byte & 0x01) << 4u8);
        if s.write_index + 1 == 5 {
            let target = address & 0xE000;
            let loaded = if target == 0x8000 {
                Mmc1View { control: value, ..s }
            } else if target == 0xA000 {
                Mmc1View { chr_bank_1: value, ..s }
            } else if target == 0xC000 {
                Mmc1View { chr_bank_2: value, ..s }
            } else {
                Mmc1View { prg_bank: value, ..s }
            };
            mmc1_updated(Mmc1View { load_register: 0, write_index: 0, ..loaded })
        } else {
            Mmc1View { load_register: value, write_index: (s.write_index + 1) as u8, ..s }
        }
    }
}

/// Loading a register through the serial port: from an empty shift
/// register, five writes of bytes without bit 7 to `address` shift in bit 0
/// of each, the first written becoming the lowest; the fifth puts the
/// five-bit value into the register that the address selects ($8000-$9FFF
/// control, $A000-$BFFF the first CHR bank, $C000-$DFFF the second,
/// $E000-$FFFF the PRG bank) and empties the shift register. The other
/// registers, and all four during the first four writes, keep their values.
/// A write with bit 7 set empties the shift register, whatever it held.
pub proof fn law_mmc1_serial_load(s: Mmc1View, address: u16, d0: u8, d1: u8, d2: u8, d3: u8, d4: u8)
    requires
        s.write_index == 0,
        s.load_register < 32,
        address >= 0x8000,
        d0 < 0x80 && d1 < 0x80 && d2 < 0x80 && d3 < 0x80 && d4 < 0x80,
    ensures
        ({
            let t4 = mmc1_written(
                mmc1_written(mmc1_written(mmc1_written(s, address, d0), address, d1), address, d2),
                address,
                d3,
            );
            let t = mmc1_written(t4, address, d4);
            let v = d0 % 2 + 2 * (d1 % 2) + 4 * (d2 % 2) + 8 * (d3 % 2) + 16 * (d4 % 2);
            &&& t4.control == s.control && t4.chr_bank_1 == s.chr_bank_1 && t4.chr_bank_2
                == s.chr_bank_2 && t4.prg_bank == s.prg_bank && t4.write_index == 4
            &&& t.write_index == 0 && t.load_register == 0
            &&& t.prg_rom == s.prg_rom && t.chr_mem == s.chr_mem
            &&& t.control == if address < 0xA000 {
                v
            } else {
                s.control as int
            }
            &&& t.chr_bank_1 == if 0xA000 <= address < 0xC000 {
                v
            } else {
                s.chr_bank_1 as int
            }
            &&& t.chr_bank_2 == if 0xC000 <= address < 0xE000 {
                v
            } else {
                s.chr_bank_2 as int
            }
            &&& t.prg_bank == if 0xE000 <= address {
                v
            } else {
                s.prg_bank as int
            }
        }),
        forall|u: Mmc1View, b: u8|
            b >= 0x80 ==> #[trigger] mmc1_written(u, address, b) == (Mmc1View {
                load_register: 0,
                write_index: 0,
                ..u
            }),
{
    lemma_address_bits(address);
    let l0 = s.load_register;
    lemma_register_bits(d0, l0, 0);
    let t0 = mmc1_written(s, address, d0);
    lemma_register_bits(d1, t0.load_register, 0);
    let t1 = mmc1_written(t0, address, d1);
    lemma_register_bits(d2, t1.load_register, 0);
    let t2 = mmc1_written(t1, address, d2);
    lemma_register_bits(d3, t2.load_register, 0);
    let t3 = mmc1_written(t2, address, d3);
    lemma_register_bits(d4, t3.load_register, 0);
    assert forall|u: Mmc1View, b: u8|
        b >= 0x80 implies #[trigger] mmc1_written(u, address, b) == (Mmc1View {
            load_register: 0,
            write_index: 0,
            ..u
        }) by {
        lemma_register_bits(b, 0, 0);
    }
}

/// A bank that starts at an offset computed for `len` ends within it.
pub proof fn lemma_bank_in_range(len: nat, bank_size: nat, index: u32)
    requires
        bank_size > 0,
        bank_size <= len <= u32::MAX,
    ensures
        mmc1_bank_offset(len, bank_size, index) + bank_size <= len,
{
    let n = len / bank_size;
    let k = index as nat % n;
    assert(n >= 1) by (nonlinear_arith)
        requires
            bank_size > 0,
            bank_size <= len,
            n == len / bank_size,
    ;
    assert(k * bank_size + bank_size <= len) by (nonlinear_arith)
        requires
            k < n,
            n == len / bank_size,
            bank_size > 0,
    ;
}

/// Doubling a bank number and its successor inside a memory of `2 * banks`
/// half-size banks: the even half-bank is twice the bank modulo `banks`,
/// and the odd one follows it.
proof fn lemma_half_banks(k: int, banks: int)
    requires
        k >= 0,
        banks >= 1,
    ensures
        (2 * k) % (2 * banks) == 2 * (k % banks),
        (2 * k + 1) % (2 * banks) == 2 * (k % banks) + 1,
{
    let q = k / banks;
    let r = k % banks;
    assert(k == q * banks + r && 0 <= r < banks) by (nonlinear_arith)
        requires
            banks >= 1,
            q == k / banks,
            r == k % banks,
    ;
    assert(2 * k == q * (2 * banks) + 2 * r) by (nonlinear_arith)
        requires
            k == q * banks + r,
    ;
    vstd::arithmetic::div_mod::lemma_fundamental_div_mod_converse(2 * k, 2 * banks, q, 2 * r);
    vstd::arithmetic::div_mod::lemma_fundamental_div_mod_converse(
        2 * k + 1,
        2 * banks,
        q,
        2 * r + 1,
    );
}

/// In 8KiB CHR mode (control bit 4 clear) the two pattern tables show the
/// two consecutive 4KiB halves of one 8KiB bank: the one that bits 1 to 4 of
/// the first CHR bank register select, counted modulo the 8KiB banks of the
/// CHR memory.
pub proof fn law_mmc1_chr_8k_mode(s: Mmc1View, address: u16)
    requires
        mmc1_valid(s),
        s.control & 0x10 == 0,
        s.chr_bank_1 < 32,
        s.chr_mem.data.len() % 0x2000 == 0,
        address < 0x2000,
    ensures
        ({
            let banks = s.chr_mem.data.len() / 0x2000;
            let base = ((s.chr_bank_1 / 2) as int % banks as int) * 0x2000;
            &&& base + 0x2000 <= s.chr_mem.data.len()
            &&& <MMC1 as Mapper>::chr_peek(s, address) == s.chr_mem.data[base + address]
        }),
{
    let len = s.chr_mem.data.len();
    let banks = len / 0x2000;
    let b = s.chr_bank_1;
    let k = (b / 2) as int;
    assert(len / 0x1000 == 2 * banks);
    assert(banks >= 1);
    let bu = b as u32;
    lemma_word_bits(bu);
    lemma_half_banks(k, banks as int);
    let c = s.control;
    lemma_byte_bits(c, 0);
    assert(k % (banks as int) < banks as int);
    assert((k % banks as int) * 0x2000 + 0x2000 <= len) by (nonlinear_arith)
        requires
            k % (banks as int) < banks as int,
            len == banks * 0x2000,
            k % (banks as int) >= 0,
    ;
}

/// The PRG windows of MMC1 by the control register's PRG mode (bits 2-3):
/// in modes 0 and 1 the two windows show the two 16KiB halves of the 32KiB
/// bank that bits 1-3 of the PRG bank register select; in mode 2 $8000
/// shows the first bank and $C000 the selected one; in mode 3 $8000 shows
/// the selected bank and $C000 the last. Bank numbers wrap at the ROM's
/// banks.
pub proof fn law_mmc1_prg_modes(s: Mmc1View, i: u16)
    requires
        mmc1_valid(s),
        s.prg_rom.data.len() % 0x8000 == 0,
        i < 0x4000,
    ensures
        ({
            let len = s.prg_rom.data.len() as int;
            let n = len / 0x4000;
            let mode = (s.control as int / 4) % 4;
            let bank = s.prg_bank as int % 16;
            let low = <MMC1 as Mapper>::prg_peek(s, (0x8000 + i) as u16);
            let high = <MMC1 as Mapper>::prg_peek(s, (0xC000 + i) as u16);
            &&& mode <= 1 ==> {
                let base = ((bank / 2) % (n / 2)) * 0x8000;
                &&& low == s.prg_rom.data[base + i]
                &&& high == s.prg_rom.data[base + 0x4000 + i]
            }
            &&& mode == 2 ==> low == s.prg_rom.data[i as int] && high == s.prg_rom.data[(bank
                % n) * 0x4000 + i]
            &&& mode == 3 ==> low == s.prg_rom.data[(bank % n) * 0x4000 + i] && high
                == s.prg_rom.data[len - 0x4000 + i]
        }),
{
    let len = s.prg_rom.data.len();
    let n = len / 0x4000;
    let c = s.control;
    let bu = s.prg_bank as u32;
    lemma_byte_bits(c, 0);
    lemma_word_bits(bu);
    assert(n == 2 * (len / 0x8000));
    assert(len / 0x8000 >= 1);
    lemma_half_banks((s.prg_bank as int % 16) / 2, (len / 0x8000) as int);
    let lo = (0x8000 + i) as u16;
    let hi = (0xC000 + i) as u16;
    assert(lo == 0x8000 + i && hi == 0xC000 + i);
    assert(n >= 2);
    vstd::arithmetic::div_mod::lemma_small_mod((n - 1) as nat, n);
    assert(n * 0x4000 == len);
    assert((((n - 1) as nat % n) * 0x4000) as int == len - 0x4000);
    let k = ((s.prg_bank as int % 16) / 2) % (n as int / 2);
    assert(k * 0x8000 == (2 * k) * 0x4000);
}

/// In 4KiB CHR mode (control bit 4 set) the pattern table at $0000 shows
/// the 4KiB bank of the first CHR bank register and the one at $1000 that
/// of the second, each wrapping at the CHR memory's 4KiB banks.
pub proof fn law_mmc1_chr_4k_mode(s: Mmc1View, a: u16)
    requires
        mmc1_valid(s),
        s.control & 0x10 != 0,
        s.chr_mem.data.len() % 0x1000 == 0,
        a < 0x1000,
    ensures
        ({
            let n = s.chr_mem.data.len() as int / 0x1000;
            &&& <MMC1 as Mapper>::chr_peek(s, a) == s.chr_mem.data[((s.chr_bank_1 as int % 32)
                % n) * 0x1000 + a]
            &&& <MMC1 as Mapper>::chr_peek(s, (0x1000 + a) as u16) == s.chr_mem.data[((
            s.chr_bank_2 as int % 32) % n) * 0x1000 + a]
        }),
{
    let c = s.control;
    let b1 = s.chr_bank_1 as u32;
    let b2 = s.chr_bank_2 as u32;
    lemma_byte_bits(c, 0);
    lemma_word_bits(b1);
    lemma_word_bits(b2);
    let hi = (0x1000 + a) as u16;
    assert(hi == 0x1000 + a);
}

impl MMC1 {
    pub fn new(prg_rom: Memory, chr_mem: Memory) -> (m: MMC1)
        requires
            0x4000 <= prg_rom@.data.len() <= u32::MAX,
            0x1000 <= chr_mem@.data.len() <= u32::MAX,
        ensures
            m@ == mmc1_initial(prg_rom@, chr_mem@),
            mmc1_valid(m@),
    {
        let mut mapper = MMC1 {
            prg_rom,
            chr_mem,
            load_register: 0x10,
            write_index: 0,
            control: 0x0C,
            prg_bank: 0,
            chr_bank_1: 0,
            chr_bank_2: 0,
            prg_offsets: [0u32, 0u32],
            chr_offsets: [0u32, 0u32],
        };
        mapper.update_offsets();
        mapper
    }

    fn update_offsets(&mut self)
        requires
            0x4000 <= old(self)@.prg_rom.data.len() <= u32::MAX,
            0x1000 <= old(self)@.chr_mem.data.len() <= u32::MAX,
        ensures
            final(self)@ == mmc1_updated(old(self)@),
    {
        let bank = self.prg_bank as u32;
        let mode = (self.control & 0x0C) >> 2u8;
        if mode <= 1 {
            self.prg_offsets[0] = self.prg_offset(bank & 0x0E);
            self.prg_offsets[1] = self.prg_offset((bank | 0x01) & 0x0F);
        } else if mode == 2 {
            self.prg_offsets[0] = 0;
            self.prg_offsets[1] = self.prg_offset(bank & 0x0F);
        } else {
            self.prg_offsets[0] = self.prg_offset(bank & 0x0F);
            let last = (self.prg_rom.len() as u32) / 0x4000 - 1;
            self.prg_offsets[1] = self.prg_offset(last);
        }
        if (self.control & 0x10) >> 4u8 == 0 {
            self.chr_offsets[0] = self.chr_offset((self.chr_bank_1 as u32) & 0x1E);
            self.chr_offsets[1] = self.chr_offset((self.chr_bank_1 as u32) | 0x01);
        } else {
            self.chr_offsets[0] = self.chr_offset((self.chr_bank_1 as u32) & 0x1F);
            self.chr_offsets[1] = self.chr_offset((self.chr_bank_2 as u32) & 0x1F);
        }
        assert(self.prg_offsets@ =~= mmc1_prg_offsets(
            self.control,
            self.prg_bank,
            self.prg_rom@.data.len(),
        ));
        assert(self.chr_offsets@ =~= mmc1_chr_offsets(
            self.control,
            self.chr_bank_1,
            self.chr_bank_2,
            self.chr_mem@.data.len(),
        ));
    }

    fn prg_offset(&self, index: u32) -> (offset: u32)
        requires
            0x4000 <= self@.prg_rom.data.len() <= u32::MAX,
        ensures
            offset == mmc1_bank_offset(self@.prg_rom.data.len(), 0x4000, index),
    {
        proof {
            lemma_bank_in_range(self@.prg_rom.data.len(), 0x4000, index);
        }
        let banks = (self.prg_rom.len() as u32) / 0x4000;
        (index % banks) * 0x4000
    }

    fn chr_offset(&self, index: u32) -> (offset: u32)
        requires
            0x1000 <= self@.chr_mem.data.len() <= u32::MAX,
        ensures
            offset == mmc1_bank_offset(self@.chr_mem.data.len(), 0x1000, index),
    {
        proof {
            lemma_bank_in_range(self@.chr_mem.data.len(), 0x1000, index);
        }
        let banks = (self.chr_mem.len() as u32) / 0x1000;
        (index % banks) * 0x1000
    }
}

/// Every bank offset of a valid board leaves room for a whole bank.
proof fn lemma_offsets_in_range(s: Mmc1View)
    requires
        mmc1_valid(s),
    ensures
        s.prg_offsets.len() == 2 && s.chr_offsets.len() == 2,
        forall|i: int| 0 <= i < 2 ==> s.prg_offsets[i] + 0x4000 <= s.prg_rom.data.len(),
        forall|i: int| 0 <= i < 2 ==> s.chr_offsets[i] + 0x1000 <= s.chr_mem.data.len(),
{
    let p = s.prg_rom.data.len();
    let c = s.chr_mem.data.len();
    let bank = s.prg_bank as u32;
    lemma_bank_in_range(p, 0x4000, bank & 0x0E);
    lemma_bank_in_range(p, 0x4000, (bank | 0x01) & 0x0F);
    lemma_bank_in_range(p, 0x4000, bank & 0x0F);
    lemma_bank_in_range(p, 0x4000, ((p / 0x4000) - 1) as u32);
    lemma_bank_in_range(c, 0x1000, (s.chr_bank_1 as u32) & 0x1E);
    lemma_bank_in_range(c, 0x1000, (s.chr_bank_1 as u32) | 0x01);
    lemma_bank_in_range(c, 0x1000, (s.chr_bank_1 as u32) & 0x1F);
    lemma_bank_in_range(c, 0x1000, (s.chr_bank_2 as u32) & 0x1F);
}

impl Mapper for MMC1 {
    open spec fn chr_accessible(state: Mmc1View, address: u16) -> bool {
        mmc1_valid(state) && address < 0x2000
    }

    open spec fn prg_accessible(state: Mmc1View, address: u16) -> bool {
        mmc1_valid(state) && address >= 0x8000
    }

    open spec fn prg_writable(state: Mmc1View, address: u16) -> bool {
        Self::prg_accessible(state, address)
    }

    open spec fn chr_sound(state: Mmc1View) -> bool {
        mmc1_valid(state)
    }

    open spec fn prg_sound(state: Mmc1View) -> bool {
        mmc1_valid(state)
    }

    open spec fn chr_peek(state: Mmc1View, address: u16) -> u8 {
        state.chr_mem.data[state.chr_offsets[(address / 0x1000) as int] + address % 0x1000]
    }

    open spec fn after_chr_read(state: Mmc1View, address: u16) -> Mmc1View {
        state
    }

    open spec fn after_chr_write(state: Mmc1View, address: u16, byte: u8) -> Mmc1View {
        Mmc1View {
            chr_mem: memory_put(
                state.chr_mem,
                state.chr_offsets[(address / 0x1000) as int] + address % 0x1000,
                byte,
            ),
            ..state
        }
    }

    open spec fn prg_peek(state: Mmc1View, address: u16) -> u8 {
        state.prg_rom.data[state.prg_offsets[(address - 0x8000) / 0x4000] + (address - 0x8000)
            % 0x4000]
    }

    open spec fn after_prg_write(state: Mmc1View, address: u16, byte: u8) -> Mmc1View {
        mmc1_written(state, address, byte)
    }

    open spec fn mirroring(state: Mmc1View) -> MirrorMode {
        let m = state.control & 0x3;
        if m == 0 {
            MirrorMode::SingleLower
        } else if m == 1 {
            MirrorMode::SingleUpper
        } else if m == 2 {
            MirrorMode::Vertical
        } else {
            MirrorMode::Horizontal
        }
    }

    open spec fn irq_pending(state: Mmc1View) -> bool {
        false
    }

    open spec fn after_irq_check(state: Mmc1View) -> Mmc1View {
        state
    }

    proof fn lemma_prg_sound_kept(state: Mmc1View, address: u16, byte: u8) {
    }

    fn prg_read_ok(&self, address: u16) -> (r: bool) {
        address >= 0x8000
    }

    fn prg_write_ok(&self, address: u16) -> (r: bool) {
        address >= 0x8000
    }

    proof fn lemma_chr_sound_kept(state: Mmc1View, address: u16, byte: u8) {
    }

    fn chr_read_ok(&self, address: u16) -> (r: bool) {
        address < 0x2000
    }

    fn read_chr(&mut self, address: u16) -> (byte: u8) {
        proof {
            lemma_offsets_in_range(self@);
        }
        let bank = address / 0x1000;
        let offset = address % 0x1000;
        self.chr_mem.get((self.chr_offsets[bank as usize] + (offset as u32)) as usize)
    }

    fn write_chr(&mut self, address: u16, byte: u8) {
        proof {
            lemma_offsets_in_range(self@);
        }
        let bank = address / 0x1000;
        let offset = address % 0x1000;
        self.chr_mem.put((self.chr_offsets[bank as usize] + (offset as u32)) as usize, byte);
    }

    fn read_prg(&mut self, address: u16) -> (byte: u8) {
        proof {
            lemma_offsets_in_range(self@);
        }
        let rel = address - 0x8000;
        let bank = rel / 0x4000;
        let offset = rel % 0x4000;
        let final_addr = self.prg_offsets[bank as usize] + (offset as u32);
        self.prg_rom.get(final_addr as usize)
    }

    fn write_prg(&mut self, address: u16, byte: u8) {
        // If bit 7 is set, clear the register.
        if byte & 0x80 != 0 {
            self.load_register = 0;
            self.write_index = 0;
            return;
        }
        // Otherwise, shift bit into the register.

        self.load_register = self.load_register >> 1u8;
        self.load_register = self.load_register | ((byte & 0x01) << 4u8);
        // On the 5th write, copy into the register that bits 13 and 14 of
        // the address select.
        self.write_index = self.write_index + 1;
        if self.write_index == 5 {
            let target = address & 0xE000;
            assert(address >= 0x8000 ==> (address & 0xE000 == 0x8000 || address & 0xE000 == 0xA000
                || address & 0xE000 == 0xC000 || address & 0xE000 == 0xE000)) by (bit_vector);
            if target == 0x8000 {
                self.control = self.load_register;
            } else if target == 0xA000 {
                self.chr_bank_1 = self.load_register;
            } else if target == 0xC000 {
                self.chr_bank_2 = self.load_register;
            } else {
                self.prg_bank = self.load_register;
            }
            self.load_register = 0;
            self.write_index = 0;
            self.update_offsets();
        }
    }

    fn mirror_mode(&self) -> (mode: MirrorMode) {
        let m = self.control & 0x3;
        if m == 0 {
            MirrorMode::SingleLower
        } else if m == 1 {
            MirrorMode::SingleUpper
        } else if m == 2 {
            MirrorMode::Vertical
        } else {
            MirrorMode::Horizontal
        }
    }

    fn irq_triggered(&mut self) -> (flag: bool) {
        false
    }
}

impl SaveState<MapperState> for MMC1 {
    open spec fn frozen(state: Mmc1View) -> MapperStateView {
        MapperStateView::MMC1(
            Mmc1StateView {
                load_register: state.load_register,
                write_index: state.write_index,
                control: state.control,
                prg_bank: state.prg_bank,
                chr_bank_1: state.chr_bank_1,
                chr_bank_2: state.chr_bank_2,
                prg_offsets: state.prg_offsets,
                chr_offsets: state.chr_offsets,
                chr_mem: <Memory as SaveState<MemoryState>>::frozen(state.chr_mem),
            },
        )
    }

    /// An MMC1 snapshot with two offsets of each kind.
    open spec fn accepts(state: Mmc1View, saved: MapperStateView) -> bool {
        &&& saved is MMC1
        &&& saved->MMC1_0.prg_offsets.len() == 2
        &&& saved->MMC1_0.chr_offsets.len() == 2
    }

    /// The registers and offsets are taken as saved, the CHR memory as a
    /// memory takes a snapshot.
    open spec fn hydrated(state: Mmc1View, saved: MapperStateView) -> Mmc1View {
        let s = saved->MMC1_0;
        Mmc1View {
            load_register: s.load_register,
            write_index: s.write_index,
            control: s.control,
            prg_bank: s.prg_bank,
            chr_bank_1: s.chr_bank_1,
            chr_bank_2: s.chr_bank_2,
            prg_offsets: s.prg_offsets,
            chr_offsets: s.chr_offsets,
            chr_mem: <Memory as SaveState<MemoryState>>::hydrated(state.chr_mem, s.chr_mem),
            ..state
        }
    }

    fn freeze(&mut self) -> (saved: MapperState) {
        let prg_offsets = vec![self.prg_offsets[0], self.prg_offsets[1]];
        let chr_offsets = vec![self.chr_offsets[0], self.chr_offsets[1]];
        let chr_mem = self.chr_mem.freeze();
        let saved = MapperState::MMC1(
            MMC1State {
                load_register: self.load_register,
                write_index: self.write_index,
                control: self.control,
                prg_bank: self.prg_bank,
                chr_bank_1: self.chr_bank_1,
                chr_bank_2: self.chr_bank_2,
                prg_offsets,
                chr_offsets,
                chr_mem,
            },
        );
        assert(self.prg_offsets@ =~= prg_offsets@);
        assert(self.chr_offsets@ =~= chr_offsets@);
        saved
    }

    fn hydrate(&mut self, saved: MapperState) {
        match saved {
            MapperState::MMC1(s) => {
                self.load_register = s.load_register;
                self.write_index = s.write_index;
                self.control = s.control;
                self.prg_bank = s.prg_bank;
                self.chr_bank_1 = s.chr_bank_1;
                self.chr_bank_2 = s.chr_bank_2;
                self.prg_offsets[0] = s.prg_offsets[0];
                self.prg_offsets[1] = s.prg_offsets[1];
                self.chr_offsets[0] = s.chr_offsets[0];
                self.chr_offsets[1] = s.chr_offsets[1];
                self.chr_mem.hydrate(s.chr_mem);
                assert(self.prg_offsets@ =~= s.prg_offsets@);
                assert(self.chr_offsets@ =~= s.chr_offsets@);
            },
            _ => {
                assert(false);
            },
        }
    }
}

/// Loading what was saved gives the board back as it was.
pub proof fn law_mmc1_state_round_trip(s: Mmc1View)
    requires
        s.prg_offsets.len() == 2,
        s.chr_offsets.len() == 2,
    ensures
        <MMC1 as SaveState<MapperState>>::accepts(s, <MMC1 as SaveState<MapperState>>::frozen(s)),
        <MMC1 as SaveState<MapperState>>::hydrated(s, <MMC1 as SaveState<MapperState>>::frozen(s))
            == s,
{
}

} // verus!
