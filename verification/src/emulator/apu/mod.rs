//! The audio processing unit: five channels, the frame sequencer that clocks
//! their envelopes and length counters, and the registers at
//! $4000-$4017.
pub mod debug;
pub mod laws;
pub mod synth;

use vstd::prelude::*;

use crate::emulator::apu::synth::{
    dmc_clocked,
    dmc_period,
    dmc_restarted,
    envelope_clocked,
    noise_clocked,
    noise_length_clocked,
    noise_period,
    pulse_clocked,
    pulse_length_clocked,
    triangle_clocked,
    triangle_length_clocked,
    triangle_linear_clocked,
    Divider,
    DmcState,
    Envelope,
    Noise,
    Pulse,
    Sweep,
    Triangle,
    DMC,
};
use crate::emulator::clock::Ticker;
use crate::emulator::memory::{Reader, Writer};

verus! {

#[derive(Clone, Copy, Debug, Eq, Hash, PartialEq)]
pub enum SequenceMode {
    FourStep,
    FiveStep,
}

/// The length counter values selected by the top five bits of a length
/// register write.
pub open spec fn length_counter(ix: u8) -> u8 {
    if ix == 1 {
        254
    } else if ix < 16 {
        if ix % 2 == 1 {
            (ix - 1) as u8
        } else if ix == 0 {
            10
        } else if ix == 2 {
            20
        } else if ix == 4 {
            40
        } else if ix == 6 {
            80
        } else if ix == 8 {
            160
        } else if ix == 10 {
            60
        } else if ix == 12 {
            14
        } else {
            26
        }
    } else {
        if ix % 2 == 1 {
            (ix - 1) as u8
        } else if ix == 16 {
            12
        } else if ix == 18 {
            24
        } else if ix == 20 {
            48
        } else if ix == 22 {
            96
        } else if ix == 24 {
            192
        } else if ix == 26 {
            72
        } else if ix == 28 {
            16
        } else {
            32
        }
    }
}

pub fn length_counter_lookup(ix: u8) -> (length: u8)
    requires
        ix < 32,
    ensures
        length == length_counter(ix),
{
    if ix % 2 == 1 {
        if ix == 1 {
            254
        } else {
            ix - 1
        }
    } else if ix == 0 {
        10
    } else if ix == 2 {
        20
    } else if ix == 4 {
        40
    } else if ix == 6 {
        80
    } else if ix == 8 {
        160
    } else if ix == 10 {
        60
    } else if ix == 12 {
        14
    } else if ix == 14 {
        26
    } else if ix == 16 {
        12
    } else if ix == 18 {
        24
    } else if ix == 20 {
        48
    } else if ix == 22 {
        96
    } else if ix == 24 {
        192
    } else if ix == 26 {
        72
    } else if ix == 28 {
        16
    } else {
        32
    }
}

/// The ranges of the bit fields that the registers pack into a byte.
proof fn lemma_register_fields(byte: u8)
    ensures
        byte >> 3u8 < 32,
        byte & 0x0F < 16,
        byte >> 6u8 < 4,
        byte & 0x07 < 8,
        ((byte as u16) << 4u16) <= 0xFF0,
{
    assert((byte >> 3u8 < 32) && (byte & 0x0F < 16) && (byte >> 6u8 < 4) && (byte & 0x07 < 8) && (((
    byte as u16) << 4u16) <= 0xFF0)) by (bit_vector);
}

pub struct APU<R> {
    pub sequence_mode: SequenceMode,
    pub cycle_counter: u64,
    pub irq_flag: bool,
    pub irq_enabled: bool,
    pub pulse_1: Pulse,
    pub pulse_2: Pulse,
    pub triangle: Triangle,
    pub noise: Noise,
    pub dmc: DMC<R>,
}

/// The APU as the specifications see it, with the DMC's sample source by its view.
pub struct ApuState<V> {
    pub sequence_mode: SequenceMode,
    pub cycle_counter: u64,
    pub irq_flag: bool,
    pub irq_enabled: bool,
    pub pulse_1: Pulse,
    pub pulse_2: Pulse,
    pub triangle: Triangle,
    pub noise: Noise,
    pub dmc: DmcState<V>,
}

impl<R: Reader> View for APU<R> {
    type V = ApuState<R::V>;

    open spec fn view(&self) -> ApuState<R::V> {
        ApuState {
            sequence_mode: self.sequence_mode,
            cycle_counter: self.cycle_counter,
            irq_flag: self.irq_flag,
            irq_enabled: self.irq_enabled,
            pulse_1: self.pulse_1,
            pulse_2: self.pulse_2,
            triangle: self.triangle,
            noise: self.noise,
            dmc: self.dmc.state(),
        }
    }
}

/// An envelope as it powers on: restarting, silent, not looping.
pub open spec fn envelope_initial() -> Envelope {
    Envelope {
        start_flag: true,
        decay_level: 0,
        divider: Divider { period: 0, counter: 0 },
        loop_flag: false,
        constant_volume: false,
        volume: 0,
    }
}

/// A pulse channel as it powers on with the given sweep unit.
pub open spec fn pulse_initial(twos_complement: bool) -> Pulse {
    Pulse {
        enabled: false,
        timer: Divider { period: 0, counter: 0 },
        length: 0,
        halt_length: false,
        sequence: 0,
        envelope: envelope_initial(),
        sweep: Sweep {
            twos_complement,
            enabled: true,
            divider: Divider { period: 0, counter: 0 },
            negate_flag: false,
            shift_count: 0,
            reload_flag: false,
            target_period: 0,
        },
        sequence_ix: 0,
    }
}

/// The APU as it powers on, reading samples from `prg_rom`: the four-step
/// sequence at its start, the frame interrupt enabled, every channel off.
pub open spec fn apu_initial<V>(prg_rom: V) -> ApuState<V> {
    ApuState {
        sequence_mode: SequenceMode::FourStep,
        cycle_counter: 0,
        irq_flag: false,
        irq_enabled: true,
        pulse_1: pulse_initial(false),
        pulse_2: pulse_initial(true),
        triangle: Triangle {
            enabled: false,
            timer: Divider { period: 0, counter: 0 },
            linear: 0,
            length: 0,
            halt_length: false,
            linear_reload_flag: false,
            linear_reload_value: 0,
            control_flag: false,
            sequence_ix: 0,
        },
        noise: Noise {
            enabled: false,
            envelope: envelope_initial(),
            shift_register: 1,
            length: 0,
            halt_length: false,
            mode: false,
            timer: Divider { period: 0, counter: 0 },
        },
        dmc: DmcState {
            enabled: false,
            irq_enabled: false,
            loop_flag: false,
            silence_flag: false,
            timer: Divider { period: 0, counter: 0 },
            volume: 0,
            sample_addr: 0,
            sample_len: 0,
            prg_rom,
            sample_buffer: None,
            current_addr: 0,
            bytes_remaining: 0,
            irq_flag: false,
            shift_register: 0,
            bits_remaining: 0,
        },
    }
}

/// The frame sequencer's period in APU cycles for each mode.
pub open spec fn frame_period(mode: SequenceMode) -> u64 {
    match mode {
        SequenceMode::FourStep => 14915,
        SequenceMode::FiveStep => 18641,
    }
}

/// The channels' duty and step tables are in range, the DMC's sample source
/// is readable everywhere, and the frame counter is within its period.
pub open spec fn apu_wf<V, R: Reader<V = V>>(s: ApuState<V>) -> bool {
    &&& s.pulse_1.wf()
    &&& s.pulse_2.wf()
    &&& s.triangle.wf()
    &&& forall|a: u16| #[trigger] R::accessible(s.dmc.prg_rom, a)
    &&& s.cycle_counter < frame_period(s.sequence_mode)
}

pub open spec fn quarter_frame<V>(s: ApuState<V>) -> ApuState<V> {
    ApuState {
        pulse_1: Pulse { envelope: envelope_clocked(s.pulse_1.envelope), ..s.pulse_1 },
        pulse_2: Pulse { envelope: envelope_clocked(s.pulse_2.envelope), ..s.pulse_2 },
        triangle: triangle_linear_clocked(s.triangle),
        noise: Noise { envelope: envelope_clocked(s.noise.envelope), ..s.noise },
        ..s
    }
}

pub open spec fn half_frame<V>(s: ApuState<V>) -> ApuState<V> {
    ApuState {
        pulse_1: pulse_length_clocked(s.pulse_1),
        pulse_2: pulse_length_clocked(s.pulse_2),
        triangle: triangle_length_clocked(s.triangle),
        noise: noise_length_clocked(s.noise),
        ..s
    }
}

/// The frame sequencer's step: envelopes and the linear counter are clocked
/// at each quarter of the frame, length counters and sweeps at each half;
/// the four-step frame raises the IRQ flag (when enabled) as it wraps.
pub open spec fn frame_step<V>(s: ApuState<V>) -> ApuState<V> {
    let c = (s.cycle_counter + 1) as u64;
    let s1 = ApuState { cycle_counter: c, ..s };
    if c == 3729 || c == 11186 {
        quarter_frame(s1)
    } else if c == 7457 {
        half_frame(quarter_frame(s1))
    } else if c == frame_period(s.sequence_mode) {
        let s2 = half_frame(quarter_frame(ApuState { cycle_counter: 0, ..s1 }));
        match s.sequence_mode {
            SequenceMode::FourStep => ApuState { irq_flag: s.irq_enabled, ..s2 },
            SequenceMode::FiveStep => s2,
        }
    } else {
        s1
    }
}

/// One APU cycle: the frame sequencer steps, then the pulse and noise
/// channels clock once and the triangle and DMC twice.
pub open spec fn apu_ticked<V, R: Reader<V = V>>(s: ApuState<V>) -> ApuState<V> {
    let s1 = frame_step(s);
    ApuState {
        pulse_1: pulse_clocked(s1.pulse_1),
        pulse_2: pulse_clocked(s1.pulse_2),
        noise: noise_clocked(s1.noise),
        triangle: triangle_clocked(triangle_clocked(s1.triangle)),
        dmc: dmc_clocked::<R>(dmc_clocked::<R>(s1.dmc)),
        ..s1
    }
}

/// The status byte read from $4015: which channels still have length (or
/// DMC bytes) left, and the two IRQ flags.
pub open spec fn apu_status<V>(s: ApuState<V>) -> u8 {
    ((if s.pulse_1.length != 0 {
        1int
    } else {
        0
    }) + (if s.pulse_2.length != 0 {
        2int
    } else {
        0
    }) + (if s.triangle.length != 0 {
        4int
    } else {
        0
    }) + (if s.noise.length != 0 {
        8int
    } else {
        0
    }) + (if s.dmc.bytes_remaining != 0 {
        16int
    } else {
        0
    }) + (if s.dmc.irq_flag {
        32int
    } else {
        0
    }) + (if s.irq_flag {
        64int
    } else {
        0
    })) as u8
}

/// $4000/$4004: duty, length halt (which is also the envelope loop),
/// constant volume and volume; restarts the envelope.
pub open spec fn first_pulse_written(p: Pulse, byte: u8) -> Pulse {
    Pulse {
        sequence: byte >> 6u8,
        halt_length: byte & 0x20 != 0,
        envelope: Envelope {
            loop_flag: byte & 0x20 != 0,
            constant_volume: byte & 0x10 != 0,
            volume: byte & 0x0F,
            divider: synth::Divider { period: (byte & 0x0F) as u16, ..p.envelope.divider },
            start_flag: true,
            ..p.envelope
        },
        ..p
    }
}

/// $4001/$4005: sweep enable, divider period, negate and shift.
pub open spec fn sweep_written(s: Sweep, byte: u8) -> Sweep {
    Sweep {
        enabled: byte & 0x80 != 0,
        divider: synth::Divider { period: ((byte & 0x70) >> 4u8) as u16, ..s.divider },
        negate_flag: byte & 0x08 != 0,
        shift_count: byte & 0x07,
        ..s
    }
}

/// The low byte of a timer period.
pub open spec fn period_low_written(period: u16, byte: u8) -> u16 {
    (period & 0xFF00) | (byte as u16)
}

/// The high three bits of a timer period.
pub open spec fn period_high_written(period: u16, byte: u8) -> u16 {
    (period & 0x00FF) | (((byte & 0x7) as u16) << 8u16)
}

/// $4003/$4007: length, the timer's high bits; restarts the sequence and
/// the envelope.
pub open spec fn third_pulse_written(p: Pulse, byte: u8) -> Pulse {
    Pulse {
        length: length_counter(byte >> 3u8),
        timer: synth::Divider { period: period_high_written(p.timer.period, byte), ..p.timer },
        sequence_ix: 0,
        envelope: Envelope { start_flag: true, ..p.envelope },
        ..p
    }
}

/// The DMC after $4015 is written: its IRQ flag clears; enabling restarts
/// a finished sample, disabling drops the remaining bytes.
pub open spec fn dmc_enable_written<V>(d: DmcState<V>, byte: u8) -> DmcState<V> {
    let d0 = DmcState { irq_flag: false, ..d };
    if (byte >> 4u8) & 1 != 0 {
        let d1 = DmcState { enabled: true, ..d0 };
        if d1.bytes_remaining == 0 {
            dmc_restarted(d1)
        } else {
            d1
        }
    } else {
        DmcState { enabled: false, bytes_remaining: 0, ..d0 }
    }
}

/// The channel enables written to $4015: a disabled channel loses its length.
pub open spec fn status_written<V>(s: ApuState<V>, byte: u8) -> ApuState<V> {
    let on3 = (byte >> 3u8) & 1 != 0;
    let on2 = (byte >> 2u8) & 1 != 0;
    let on1 = (byte >> 1u8) & 1 != 0;
    let on0 = byte & 1 != 0;
    ApuState {
        dmc: dmc_enable_written(s.dmc, byte),
        noise: Noise { enabled: on3, length: if on3 { s.noise.length } else { 0 }, ..s.noise },
        triangle: Triangle {
            enabled: on2,
            length: if on2 {
                s.triangle.length
            } else {
                0
            },
            ..s.triangle
        },
        pulse_2: Pulse {
            enabled: on1,
            length: if on1 {
                s.pulse_2.length
            } else {
                0
            },
            ..s.pulse_2
        },
        pulse_1: Pulse {
            enabled: on0,
            length: if on0 {
                s.pulse_1.length
            } else {
                0
            },
            ..s.pulse_1
        },
        ..s
    }
}

/// The APU after `byte` is written to register `address`.
#[verifier::opaque]
pub open spec fn apu_written<V>(s: ApuState<V>, address: u16, byte: u8) -> ApuState<V> {
    if address == 0x4000 {
        ApuState { pulse_1: first_pulse_written(s.pulse_1, byte), ..s }
    } else if address == 0x4001 {
        ApuState { pulse_1: Pulse { sweep: sweep_written(s.pulse_1.sweep, byte), ..s.pulse_1 }, ..s }
    } else if address == 0x4002 {
        ApuState {
            pulse_1: Pulse {
                timer: synth::Divider {
                    period: period_low_written(s.pulse_1.timer.period, byte),
                    ..s.pulse_1.timer
                },
                ..s.pulse_1
            },
            ..s
        }
    } else if address == 0x4003 {
        ApuState { pulse_1: third_pulse_written(s.pulse_1, byte), ..s }
    } else if address == 0x4004 {
        ApuState { pulse_2: first_pulse_written(s.pulse_2, byte), ..s }
    } else if address == 0x4005 {
        ApuState { pulse_2: Pulse { sweep: sweep_written(s.pulse_2.sweep, byte), ..s.pulse_2 }, ..s }
    } else if address == 0x4006 {
        ApuState {
            pulse_2: Pulse {
                timer: synth::Divider {
                    period: period_low_written(s.pulse_2.timer.period, byte),
                    ..s.pulse_2.timer
                },
                ..s.pulse_2
            },
            ..s
        }
    } else if address == 0x4007 {
        ApuState { pulse_2: third_pulse_written(s.pulse_2, byte), ..s }
    } else if address == 0x4008 {
        ApuState {
            triangle: Triangle {
                linear_reload_value: byte & 0x7F,
                halt_length: byte & 0x80 != 0,
                control_flag: byte & 0x80 != 0,
                ..s.triangle
            },
            ..s
        }
    } else if address == 0x400A {
        ApuState {
            triangle: Triangle {
                timer: synth::Divider {
                    period: period_low_written(s.triangle.timer.period, byte),
                    ..s.triangle.timer
                },
                ..s.triangle
            },
            ..s
        }
    } else if address == 0x400B {
        ApuState {
            triangle: Triangle {
                length: length_counter(byte >> 3u8),
                timer: synth::Divider {
                    period: period_high_written(s.triangle.timer.period, byte),
                    ..s.triangle.timer
                },
                linear_reload_flag: true,
                ..s.triangle
            },
            ..s
        }
    } else if address == 0x400C {
        ApuState {
            noise: Noise {
                halt_length: byte & 0x20 != 0,
                envelope: Envelope {
                    loop_flag: byte & 0x20 != 0,
                    constant_volume: byte & 0x10 != 0,
                    volume: byte & 0x0F,
                    divider: synth::Divider {
                        period: (byte & 0x0F) as u16,
                        ..s.noise.envelope.divider
                    },
                    start_flag: true,
                    ..s.noise.envelope
                },
                ..s.noise
            },
            ..s
        }
    } else if address == 0x400E {
        ApuState {
            noise: Noise {
                mode: byte & 0x80 != 0,
                timer: synth::Divider { period: noise_period(byte & 0x0F), ..s.noise.timer },
                ..s.noise
            },
            ..s
        }
    } else if address == 0x400F {
        ApuState {
            noise: Noise {
                length: length_counter(byte >> 3u8),
                envelope: Envelope { start_flag: true, ..s.noise.envelope },
                ..s.noise
            },
            ..s
        }
    } else if address == 0x4010 {
        ApuState {
            dmc: DmcState {
                irq_enabled: byte & 0x80 != 0,
                loop_flag: byte & 0x40 != 0,
                timer: synth::Divider { period: dmc_period(byte & 0x0F), ..s.dmc.timer },
                ..s.dmc
            },
            ..s
        }
    } else if address == 0x4011 {
        ApuState { dmc: DmcState { volume: byte & 0x7F, ..s.dmc }, ..s }
    } else if address == 0x4012 {
        ApuState { dmc: DmcState { sample_addr: 0xC000 | ((byte as u16) << 6u16), ..s.dmc }, ..s }
    } else if address == 0x4013 {
        ApuState { dmc: DmcState { sample_len: (((byte as u16) << 4u16) + 1) as u16, ..s.dmc }, ..s }
    } else if address == 0x4015 {
        status_written(s, byte)
    } else if address == 0x4017 {
        ApuState {
            sequence_mode: if byte & 0x80 == 0 {
                SequenceMode::FourStep
            } else {
                SequenceMode::FiveStep
            },
            irq_enabled: byte & 0x70 == 0,
            irq_flag: if byte & 0x70 != 0 {
                false
            } else {
                s.irq_flag
            },
            cycle_counter: 0,
            ..s
        }
    } else {
        s
    }
}

impl<R: Reader> APU<R> {
    pub open spec fn wf(&self) -> bool {
        apu_wf::<R::V, R>(self@)
    }

    pub fn new(prg_rom: R) -> (apu: APU<R>)
        requires
            forall|a: u16| #[trigger] R::accessible(prg_rom@, a),
        ensures
            apu.wf(),
            apu@ == apu_initial(prg_rom@),
            apu.dmc.prg_rom@ == prg_rom@,
    {
        APU {
            sequence_mode: SequenceMode::FourStep,
            cycle_counter: 0,
            irq_flag: false,
            irq_enabled: true,
            pulse_1: Pulse::new(Sweep::new(false)),
            pulse_2: Pulse::new(Sweep::new(true)),
            triangle: Triangle::new(),
            noise: Noise::new(),
            dmc: DMC::new(prg_rom),
        }
    }

    /// Whether the frame counter or the DMC is raising an interrupt.
    pub fn irq_triggered(&mut self) -> (irq: bool)
        ensures
            irq == (old(self).irq_flag || old(self).dmc.irq_flag),
            final(self)@ == old(self)@,
    {
        self.irq_flag || self.dmc.irq_flag
    }

    fn clock_linear_and_envelope(&mut self)
        requires
            old(self).wf(),
        ensures
            final(self).wf(),
            final(self)@ == quarter_frame(old(self)@),
    {
        self.pulse_1.envelope.clock();
        self.pulse_2.envelope.clock();
        self.triangle.clock_linear();
        self.noise.envelope.clock();
    }

    fn clock_length_counters(&mut self)
        requires
            old(self).wf(),
        ensures
            final(self).wf(),
            final(self)@ == half_frame(old(self)@),
    {
        self.pulse_1.clock_length();
        self.pulse_2.clock_length();
        self.triangle.clock_length();
        self.noise.clock_length();
    }

    fn step_frame_sequencer(&mut self)
        requires
            old(self).wf(),
        ensures
            final(self).wf(),
            final(self)@ == frame_step(old(self)@),
    {
        self.cycle_counter += 1;
        match self.sequence_mode {
            SequenceMode::FourStep => {
                if self.cycle_counter == 3729 {
                    self.clock_linear_and_envelope();
                } else if self.cycle_counter == 7457 {
                    self.clock_linear_and_envelope();
                    self.clock_length_counters();
                } else if self.cycle_counter == 11186 {
                    self.clock_linear_and_envelope();
                } else if self.cycle_counter == 14915 {
                    self.cycle_counter = 0;
                    self.clock_linear_and_envelope();
                    self.clock_length_counters();
                    self.irq_flag = self.irq_enabled;
                }
            },
            SequenceMode::FiveStep => {
                if self.cycle_counter == 3729 {
                    self.clock_linear_and_envelope();
                } else if self.cycle_counter == 7457 {
                    self.clock_linear_and_envelope();
                    self.clock_length_counters();
                } else if self.cycle_counter == 11186 {
                    self.clock_linear_and_envelope();
                } else if self.cycle_counter == 18641 {
                    self.cycle_counter = 0;
                    self.clock_linear_and_envelope();
                    self.clock_length_counters();
                }
            },
        }
    }

    fn write_pulse_register(&mut self, address: u16, byte: u8)
        requires
            old(self).wf(),
            0x4000 <= address <= 0x4007,
        ensures
            final(self).wf(),
            final(self)@ == apu_written(old(self)@, address, byte),
    {
        reveal(apu_written);
        if address == 0x4000 {
            write_first_pulse_register(&mut self.pulse_1, byte);
        } else if address == 0x4001 {
            write_sweep_register(&mut self.pulse_1.sweep, byte);
        } else if address == 0x4002 {
            write_second_pulse_register(&mut self.pulse_1, byte);
        } else if address == 0x4003 {
            write_third_pulse_register(&mut self.pulse_1, byte);
        } else if address == 0x4004 {
            write_first_pulse_register(&mut self.pulse_2, byte);
        } else if address == 0x4005 {
            write_sweep_register(&mut self.pulse_2.sweep, byte);
        } else if address == 0x4006 {
            write_second_pulse_register(&mut self.pulse_2, byte);
        } else if address == 0x4007 {
            write_third_pulse_register(&mut self.pulse_2, byte);
        }
    }

    fn write_register_4008(&mut self, byte: u8)
        requires
            old(self).wf(),
        ensures
            final(self).wf(),
            final(self)@ == apu_written(old(self)@, 0x4008, byte),
    {
        reveal(apu_written);
            self.triangle.linear_reload_value = byte & 0x7F;
            self.triangle.halt_length = (byte & 0x80) != 0;
            self.triangle.control_flag = (byte & 0x80) != 0;
    }

    fn write_register_400a(&mut self, byte: u8)
        requires
            old(self).wf(),
        ensures
            final(self).wf(),
            final(self)@ == apu_written(old(self)@, 0x400A, byte),
    {
        reveal(apu_written);
            let new_period = (self.triangle.timer.period() & 0xFF00) | (byte as u16);
            self.triangle.timer.set_period(new_period);
    }

    fn write_register_400b(&mut self, byte: u8)
        requires
            old(self).wf(),
        ensures
            final(self).wf(),
            final(self)@ == apu_written(old(self)@, 0x400B, byte),
    {
        reveal(apu_written);
            proof {
                lemma_register_fields(byte);
            }
            self.triangle.length = length_counter_lookup(byte >> 3);
            let new_period = (self.triangle.timer.period() & 0x00FF) | (((byte & 0x7) as u16)
                << 8);
            self.triangle.timer.set_period(new_period);
            self.triangle.linear_reload_flag = true;
    }

    fn write_register_400c(&mut self, byte: u8)
        requires
            old(self).wf(),
        ensures
            final(self).wf(),
            final(self)@ == apu_written(old(self)@, 0x400C, byte),
    {
        reveal(apu_written);
            self.noise.halt_length = (byte & 0x20) != 0;
            self.noise.envelope.loop_flag = (byte & 0x20) != 0;
            self.noise.envelope.constant_volume = (byte & 0x10) != 0;
            self.noise.envelope.set_volume(byte & 0x0F);
            self.noise.envelope.restart();
    }

    fn write_register_400e(&mut self, byte: u8)
        requires
            old(self).wf(),
        ensures
            final(self).wf(),
            final(self)@ == apu_written(old(self)@, 0x400E, byte),
    {
        reveal(apu_written);
            proof {
                lemma_register_fields(byte);
            }
            self.noise.mode = byte & 0x80 != 0;
            self.noise.timer.set_period(Noise::period_lookup(byte & 0x0F));
    }

    fn write_register_400f(&mut self, byte: u8)
        requires
            old(self).wf(),
        ensures
            final(self).wf(),
            final(self)@ == apu_written(old(self)@, 0x400F, byte),
    {
        reveal(apu_written);
            proof {
                lemma_register_fields(byte);
            }
            self.noise.length = length_counter_lookup(byte >> 3);
            self.noise.envelope.restart();
    }

    fn write_register_4010(&mut self, byte: u8)
        requires
            old(self).wf(),
        ensures
            final(self).wf(),
            final(self)@ == apu_written(old(self)@, 0x4010, byte),
    {
        reveal(apu_written);
            proof {
                lemma_register_fields(byte);
            }
            self.dmc.irq_enabled = byte & 0x80 != 0;
            self.dmc.loop_flag = byte & 0x40 != 0;
            self.dmc.timer.set_period(DMC::<R>::period_lookup(byte & 0x0F));
    }

    fn write_register_4011(&mut self, byte: u8)
        requires
            old(self).wf(),
        ensures
            final(self).wf(),
            final(self)@ == apu_written(old(self)@, 0x4011, byte),
    {
        reveal(apu_written);
            self.dmc.volume = byte & 0x7F;
    }

    fn write_register_4012(&mut self, byte: u8)
        requires
            old(self).wf(),
        ensures
            final(self).wf(),
            final(self)@ == apu_written(old(self)@, 0x4012, byte),
    {
        reveal(apu_written);
            self.dmc.sample_addr = 0xC000 | ((byte as u16) << 6);
    }

    fn write_register_4013(&mut self, byte: u8)
        requires
            old(self).wf(),
        ensures
            final(self).wf(),
            final(self)@ == apu_written(old(self)@, 0x4013, byte),
    {
        reveal(apu_written);
            proof {
                lemma_register_fields(byte);
            }
            self.dmc.sample_len = ((byte as u16) << 4) + 1;
    }

    fn write_channel_register(&mut self, address: u16, byte: u8)
        requires
            old(self).wf(),
            0x4008 <= address <= 0x4013,
        ensures
            final(self).wf(),
            final(self)@ == apu_written(old(self)@, address, byte),
    {
        if address == 0x4008 {
            self.write_register_4008(byte);
        } else if address == 0x400A {
            self.write_register_400a(byte);
        } else if address == 0x400B {
            self.write_register_400b(byte);
        } else if address == 0x400C {
            self.write_register_400c(byte);
        } else if address == 0x400E {
            self.write_register_400e(byte);
        } else if address == 0x400F {
            self.write_register_400f(byte);
        } else if address == 0x4010 {
            self.write_register_4010(byte);
        } else if address == 0x4011 {
            self.write_register_4011(byte);
        } else if address == 0x4012 {
            self.write_register_4012(byte);
        } else if address == 0x4013 {
            self.write_register_4013(byte);
        } else {
            reveal(apu_written);
        }
    }

    fn write_dmc_enable(&mut self, byte: u8)
        ensures
            final(self).dmc.prg_rom == old(self).dmc.prg_rom,
            final(self).dmc.state() == dmc_enable_written(old(self).dmc.state(), byte),
            final(self)@ == (ApuState { dmc: final(self).dmc.state(), ..old(self)@ }),
    {
        self.dmc.irq_flag = false;
        if (byte >> 4) & 0x1 != 0 {
            self.dmc.enabled = true;
            if self.dmc.bytes_remaining == 0 {
                self.dmc.restart_sample();
            }
        } else {
            self.dmc.enabled = false;
            self.dmc.bytes_remaining = 0;
        }
    }

    fn enable_noise(&mut self, on: bool)
        ensures
            final(self).dmc.prg_rom == old(self).dmc.prg_rom,
            final(self)@ == (ApuState {
                noise: Noise {
                    enabled: on,
                    length: if on {
                        old(self).noise.length
                    } else {
                        0
                    },
                    ..old(self).noise
                },
                ..old(self)@
            }),
    {
        self.noise.enabled = on;
        if !on {
            self.noise.length = 0;
        }
    }

    fn enable_triangle(&mut self, on: bool)
        ensures
            final(self).dmc.prg_rom == old(self).dmc.prg_rom,
            final(self)@ == (ApuState {
                triangle: Triangle {
                    enabled: on,
                    length: if on {
                        old(self).triangle.length
                    } else {
                        0
                    },
                    ..old(self).triangle
                },
                ..old(self)@
            }),
    {
        self.triangle.enabled = on;
        if !on {
            self.triangle.length = 0;
        }
    }

    fn enable_pulse_2(&mut self, on: bool)
        ensures
            final(self).dmc.prg_rom == old(self).dmc.prg_rom,
            final(self)@ == (ApuState {
                pulse_2: Pulse {
                    enabled: on,
                    length: if on {
                        old(self).pulse_2.length
                    } else {
                        0
                    },
                    ..old(self).pulse_2
                },
                ..old(self)@
            }),
    {
        self.pulse_2.enabled = on;
        if !on {
            self.pulse_2.length = 0;
        }
    }

    fn enable_pulse_1(&mut self, on: bool)
        ensures
            final(self).dmc.prg_rom == old(self).dmc.prg_rom,
            final(self)@ == (ApuState {
                pulse_1: Pulse {
                    enabled: on,
                    length: if on {
                        old(self).pulse_1.length
                    } else {
                        0
                    },
                    ..old(self).pulse_1
                },
                ..old(self)@
            }),
    {
        self.pulse_1.enabled = on;
        if !on {
            self.pulse_1.length = 0;
        }
    }

    fn write_register_4015(&mut self, byte: u8)
        requires
            old(self).wf(),
        ensures
            final(self).wf(),
            final(self)@ == apu_written(old(self)@, 0x4015, byte),
    {
        assert(apu_written(old(self)@, 0x4015, byte) == status_written(old(self)@, byte)) by {
            reveal(apu_written);
        }
        self.write_dmc_enable(byte);
        self.enable_noise((byte >> 3) & 0x1 != 0);
        self.enable_triangle((byte >> 2) & 0x1 != 0);
        self.enable_pulse_2((byte >> 1) & 0x1 != 0);
        self.enable_pulse_1(byte & 0x1 != 0);
    }

    fn write_register_4017(&mut self, byte: u8)
        requires
            old(self).wf(),
        ensures
            final(self).wf(),
            final(self)@ == apu_written(old(self)@, 0x4017, byte),
    {
        reveal(apu_written);
            self.sequence_mode = if byte & 0x80 == 0 {
                SequenceMode::FourStep
            } else {
                SequenceMode::FiveStep
            };
            // IRQ inhibit.
            if byte & 0x70 != 0 {
                self.irq_enabled = false;
                self.irq_flag = false;
            } else {
                self.irq_enabled = true;
            }
            self.cycle_counter = 0;
    }

    fn write_control_register(&mut self, address: u16, byte: u8)
        requires
            old(self).wf(),
            address == 0x4015 || address == 0x4017,
        ensures
            final(self).wf(),
            final(self)@ == apu_written(old(self)@, address, byte),
    {
        if address == 0x4015 {
            self.write_register_4015(byte);
        } else if address == 0x4017 {
            self.write_register_4017(byte);
        } else {
            assert(false);
        }
    }

    /// The channels' current outputs: pulse 1, pulse 2, triangle, noise and
    /// the DMC's level, for the mixer.
    pub fn channel_levels(&self) -> (levels: (u8, u8, u8, u8, u8))
        requires
            self.wf(),
        ensures
            levels == (
                self.pulse_1.volume_spec(),
                self.pulse_2.volume_spec(),
                self.triangle.volume_spec(),
                self.noise.volume_spec(),
                self.dmc.volume,
            ),
    {
        (
            self.pulse_1.volume(),
            self.pulse_2.volume(),
            self.triangle.volume(),
            self.noise.volume(),
            self.dmc.volume,
        )
    }
}

impl<R: Reader> Ticker for APU<R> {
    open spec fn ready(&self) -> bool {
        self.wf()
    }

    open spec fn step_cycles(&self) -> u32 {
        1
    }

    /// One APU cycle (see `apu_ticked`).
    open spec fn ticked(&self, next: &Self) -> bool {
        &&& next.wf()
        &&& next@ == apu_ticked::<R::V, R>(self@)
    }

    /// One APU cycle; returns 1.
    fn tick(&mut self) -> (cycles: u32) {
        let ghost start = self@;
        self.step_frame_sequencer();
        self.pulse_1.clock();
        self.pulse_2.clock();
        self.noise.clock();
        // Triangle and DMC clock twice as fast as the other components.
        self.triangle.clock();
        self.triangle.clock();
        assert(self.dmc.wf());
        self.dmc.clock();
        self.dmc.clock();
        assert(self@ == apu_ticked::<R::V, R>(start));
        1
    }
}

fn write_first_pulse_register(pulse: &mut Pulse, byte: u8)
    requires
        old(pulse).wf(),
    ensures
        final(pulse).wf(),
        *final(pulse) == first_pulse_written(*old(pulse), byte),
{
    proof {
        lemma_register_fields(byte);
    }
    pulse.sequence = byte >> 6;
    // These 2 flags share the same bit.
    pulse.envelope.loop_flag = (byte & 0x20) != 0;
    pulse.halt_length = (byte & 0x20) != 0;
    pulse.envelope.constant_volume = (byte & 0x10) != 0;
    pulse.envelope.set_volume(byte & 0x0F);
    pulse.envelope.restart();
}

fn write_sweep_register(sweep: &mut Sweep, byte: u8)
    ensures
        *final(sweep) == sweep_written(*old(sweep), byte),
        final(sweep).shift_count < 8,
{
    proof {
        lemma_register_fields(byte);
    }
    sweep.enabled = byte & 0x80 != 0;
    sweep.divider.set_period(((byte & 0x70) >> 4) as u16);
    sweep.negate_flag = byte & 0x08 != 0;
    sweep.shift_count = byte & 0x07;
}

fn write_second_pulse_register(pulse: &mut Pulse, byte: u8)
    ensures
        *final(pulse) == (Pulse {
            timer: synth::Divider {
                period: period_low_written(old(pulse).timer.period, byte),
                ..old(pulse).timer
            },
            ..*old(pulse)
        }),
{
    let new_period = (pulse.timer.period() & 0xFF00) | (byte as u16);
    pulse.timer.set_period(new_period);
}

fn write_third_pulse_register(pulse: &mut Pulse, byte: u8)
    requires
        old(pulse).wf(),
    ensures
        final(pulse).wf(),
        *final(pulse) == third_pulse_written(*old(pulse), byte),
{
    proof {
        lemma_register_fields(byte);
    }
    pulse.length = length_counter_lookup(byte >> 3);
    let new_period = (pulse.timer.period() & 0x00FF) | (((byte & 0x7) as u16) << 8);
    pulse.timer.set_period(new_period);
    pulse.restart();
}

impl<R: Reader> Writer for APU<R> {
    open spec fn writable(state: ApuState<R::V>, address: u16) -> bool {
        apu_wf::<R::V, R>(state)
    }

    proof fn lemma_read_keeps_writable(state: ApuState<R::V>, address: u16) {
        Self::lemma_read_keeps_access(state, address);
    }

    open spec fn after_write(state: ApuState<R::V>, address: u16, byte: u8) -> ApuState<R::V> {
        apu_written(state, address, byte)
    }

    proof fn lemma_write_keeps_access(state: ApuState<R::V>, address: u16, byte: u8) {
        reveal(apu_written);
        lemma_register_fields(byte);
    }

    fn write(&mut self, address: u16, byte: u8) {
        reveal(apu_written);
        if 0x4000 <= address && address <= 0x4007 {
            self.write_pulse_register(address, byte);
        } else if 0x4008 <= address && address <= 0x4013 {
            self.write_channel_register(address, byte);
        } else if address == 0x4015 || address == 0x4017 {
            self.write_control_register(address, byte);
        }
    }
}

impl<R: Reader> Reader for APU<R> {
    /// Every register is reachable while the APU is well formed.
    open spec fn accessible(state: ApuState<R::V>, address: u16) -> bool {
        apu_wf::<R::V, R>(state)
    }

    open spec fn peek(state: ApuState<R::V>, address: u16) -> u8 {
        if address == 0x4015 {
            apu_status(state)
        } else {
            0
        }
    }

    /// Reading the status clears the frame IRQ flag.
    open spec fn after_read(state: ApuState<R::V>, address: u16) -> ApuState<R::V> {
        if address == 0x4015 {
            ApuState { irq_flag: false, ..state }
        } else {
            state
        }
    }

    proof fn lemma_read_keeps_access(state: ApuState<R::V>, address: u16) {
    }

    fn read(&mut self, address: u16) -> (byte: u8) {
        if address == 0x4015 {
            let mut status: u8 = 0;
            if self.pulse_1.length != 0 {
                status = status + 1;
            }
            if self.pulse_2.length != 0 {
                status = status + 2;
            }
            if self.triangle.length != 0 {
                status = status + 4;
            }
            if self.noise.length != 0 {
                status = status + 8;
            }
            if self.dmc.bytes_remaining != 0 {
                status = status + 16;
            }
            if self.dmc.irq_flag {
                status = status + 32;
            }
            if self.irq_flag {
                status = status + 64;
            }
            self.irq_flag = false;
            status
        } else {
            0
        }
    }
}

} // verus!
