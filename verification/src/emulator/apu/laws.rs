//! What the sound channels' building blocks do over all their inputs: the
//! shape of the triangle wave, the decay of an envelope, the sweep's target
//! period, the noise shift register and the period and length tables.
use vstd::prelude::*;
use vstd::arithmetic::power2::pow2;

use crate::emulator::apu::{
    ApuState,
    SequenceMode,
    apu_status,
    apu_written,
    frame_period,
    frame_step,
    length_counter,
};
use crate::emulator::apu::synth::{
    DmcState,
    Envelope,
    dmc_output,
    dmc_period,
    envelope_clocked,
    noise_period,
    noise_shifted,
    sweep_target,
    triangle_step,
};

verus! {

/// The triangle wave over its 32 steps: it falls by one from 15 to 0 over
/// the first 16 steps, holds 0 for one step, rises by one back to 15 over the
/// last 16, and is symmetric, step `ix` equal to step `31 - ix`.
pub proof fn law_triangle_wave(ix: u8)
    requires
        ix < 32,
    ensures
        triangle_step(ix) <= 15,
        triangle_step(ix) == triangle_step((31 - ix) as u8),
        ix < 15 ==> triangle_step((ix + 1) as u8) + 1 == triangle_step(ix),
        16 <= ix < 31 ==> triangle_step((ix + 1) as u8) == triangle_step(ix) + 1,
        triangle_step(0) == 15 && triangle_step(15) == 0 && triangle_step(16) == 0,
{
}

/// An envelope clocked after a restart sets its level to 15 and reloads its
/// divider; otherwise the level stays while the divider counts down, and
/// drops by one each time the divider fires, until it reaches 0, where it
/// stays, or jumps back to 15 when looping. The divider, fired, reloads
/// from the envelope's period.
pub proof fn law_envelope_decay(e: Envelope)
    ensures
        ({
            let n = envelope_clocked(e);
            &&& !n.start_flag
            &&& n.loop_flag == e.loop_flag && n.constant_volume == e.constant_volume && n.volume
                == e.volume && n.divider.period == e.divider.period
            &&& e.start_flag ==> n.decay_level == 15 && n.divider.counter == e.divider.period
            &&& !e.start_flag && e.divider.counter != 0 ==> n.decay_level == e.decay_level
                && n.divider.counter + 1 == e.divider.counter
            &&& !e.start_flag && e.divider.counter == 0 ==> n.divider.counter == e.divider.period
                && n.decay_level == if e.decay_level > 0 {
                e.decay_level - 1
            } else if e.loop_flag {
                15
            } else {
                0
            }
        }),
{
}

/// The sweep's target from a current period `c` and a shift `k`: the change
/// is `c / 2^k`; raising adds it (saturating at 0xFFFF), lowering takes it
/// off, and the second pulse channel's lowering takes one more (not going
/// under 0). A raise and a plain lowering of the same period lie the change
/// on either side of it, and a shift of 0 lowers any period to 0.
pub proof fn law_sweep_target(c: u16, k: u8, twos_complement: bool)
    requires
        k < 8,
    ensures
        ({
            let change = c as int / pow2(k as nat) as int;
            let up = sweep_target(c, k, false, twos_complement) as int;
            let down = sweep_target(c, k, true, false) as int;
            let down2 = sweep_target(c, k, true, true) as int;
            &&& up == if c + change <= 0xFFFF {
                c + change
            } else {
                0xFFFF
            }
            &&& down == c - change
            &&& down2 == if down > 0 {
                down - 1
            } else {
                0
            }
            &&& c + change <= 0xFFFF ==> up + down == 2 * c
            &&& k == 0 ==> sweep_target(c, k, true, false) == 0 && sweep_target(c, k, true, true)
                == 0
        }),
{
    vstd::bits::lemma_u16_shr_is_div(c, k as u16);
    assert(c >> k == c >> (k as u16));
    vstd::arithmetic::power2::lemma_pow2_pos(k as nat);
    vstd::arithmetic::div_mod::lemma_div_is_ordered_by_denominator(c as int, 1, pow2(k as nat) as int);
    vstd::arithmetic::power2::lemma2_to64();
}

/// The noise shift register, kept to 14 bits, shifts one place towards bit
/// 0 and takes in at bit 13 the exclusive or of bit 0 and bit 1, or of bit 0
/// and bit 5 in short mode.
pub proof fn law_noise_shift(r: u16, mode: bool)
    requires
        r < 0x4000,
    ensures
        ({
            let tap = if mode {
                (r as int / 32) % 2
            } else {
                (r as int / 2) % 2
            };
            let fed = if r as int % 2 != tap {
                1int
            } else {
                0
            };
            &&& noise_shifted(r, mode) < 0x4000
            &&& noise_shifted(r, mode) as int % 0x2000 == r as int / 2
            &&& noise_shifted(r, mode) as int / 0x2000 == fed
        }),
{
    crate::emulator::bits::lemma_shift_register_bits(r);
}

proof fn lemma_periods_step(i: u8)
    requires
        i < 15,
    ensures
        noise_period(i) < noise_period((i + 1) as u8),
        dmc_period(i) > dmc_period((i + 1) as u8),
        noise_period(i) % 2 == 0 && dmc_period(i) % 2 == 0,
{
}

/// The noise channel's sixteen periods rise from 4 to 4068 and the delta
/// modulation channel's fall from 428 to 54: a higher index picks a longer
/// noise period and a shorter sample period. Every period is even.
pub proof fn law_period_tables(i: u8, j: u8)
    requires
        i < j < 16,
    ensures
        noise_period(i) < noise_period(j),
        dmc_period(i) > dmc_period(j),
        noise_period(0) == 4 && noise_period(15) == 4068,
        dmc_period(0) == 428 && dmc_period(15) == 54,
        noise_period(j) % 2 == 0 && dmc_period(j) % 2 == 0,
    decreases j - i,
{
    lemma_periods_step((j - 1) as u8);
    if i + 1 < j {
        law_period_tables(i, (j - 1) as u8);
    }
}

/// The length counter table: an odd index `ix` above 1 loads `ix - 1`,
/// index 1 loads 254; the even indices count in two runs of doubling
/// lengths (10, 20, 40, 80, 160 and 12, 24, 48, 96, 192), then 60, 14, 26
/// and 72, 16, 32.
pub proof fn law_length_table(ix: u8)
    requires
        ix < 32,
    ensures
        ix % 2 == 1 && ix > 1 ==> length_counter(ix) == ix - 1,
        length_counter(1) == 254,
        (ix % 2 == 0 && (ix < 8 || 16 <= ix < 24)) ==> length_counter((ix + 2) as u8) == 2
            * length_counter(ix),
        length_counter(0) == 10 && length_counter(16) == 12,
        length_counter(10) == 60 && length_counter(12) == 14 && length_counter(14) == 26,
        length_counter(26) == 72 && length_counter(28) == 16 && length_counter(30) == 32,
{
}

/// Writing a pulse channel's four registers sets its fields from the bytes:
/// $4000 gives the duty (top two bits), the length halt and envelope loop
/// (bit 5), constant volume (bit 4) and the volume (low four bits), and
/// restarts the envelope; $4001 the sweep's enable (bit 7), divider period
/// (bits 4-6), negate (bit 3) and shift (low three bits); $4002 and $4003
/// the 11-bit timer period, low byte then high three bits; $4003 also loads
/// the length from the table by its top five bits and restarts the sequence.
/// The second pulse channel keeps its state.
pub proof fn law_pulse_registers<V>(s: ApuState<V>, b0: u8, b1: u8, b2: u8, b3: u8)
    ensures
        ({
            let t = apu_written(
                apu_written(apu_written(apu_written(s, 0x4000, b0), 0x4001, b1), 0x4002, b2),
                0x4003,
                b3,
            );
            let p = t.pulse_1;
            &&& p.sequence == b0 / 64
            &&& p.halt_length == (b0 / 32 % 2 == 1) && p.envelope.loop_flag == p.halt_length
            &&& p.envelope.constant_volume == (b0 / 16 % 2 == 1)
            &&& p.envelope.volume == b0 % 16 && p.envelope.divider.period == b0 % 16
            &&& p.envelope.start_flag
            &&& p.sweep.enabled == (b1 >= 128) && p.sweep.divider.period == (b1 / 16) % 8
            &&& p.sweep.negate_flag == (b1 / 8 % 2 == 1) && p.sweep.shift_count == b1 % 8
            &&& p.timer.period == (b3 % 8) * 256 + b2
            &&& p.length == length_counter(b3 / 8) && p.sequence_ix == 0
            &&& p.enabled == s.pulse_1.enabled
            &&& t.pulse_2 == s.pulse_2 && t.triangle == s.triangle && t.noise == s.noise
        }),
{
    reveal(apu_written);
    crate::emulator::bits::lemma_register_bits(b0, b2, s.pulse_1.timer.period);
    crate::emulator::bits::lemma_register_bits(b1, b2, s.pulse_1.timer.period);
    crate::emulator::bits::lemma_register_bits(b3, b2, s.pulse_1.timer.period);
}

/// The status byte read from $4015 has bit 0 to 3 set exactly when the
/// pulse, pulse, triangle and noise channel have length left, bit 4 when
/// the delta modulation channel has bytes left, bit 5 when it has raised
/// its interrupt and bit 6 when the frame interrupt is raised; bit 7 is
/// clear.
pub proof fn law_status_reports<V>(s: ApuState<V>)
    ensures
        ({
            let st = apu_status(s) as int;
            &&& st < 128
            &&& (st % 2 == 1) == (s.pulse_1.length != 0)
            &&& (st / 2 % 2 == 1) == (s.pulse_2.length != 0)
            &&& (st / 4 % 2 == 1) == (s.triangle.length != 0)
            &&& (st / 8 % 2 == 1) == (s.noise.length != 0)
            &&& (st / 16 % 2 == 1) == (s.dmc.bytes_remaining != 0)
            &&& (st / 32 % 2 == 1) == s.dmc.irq_flag
            &&& (st / 64 % 2 == 1) == s.irq_flag
        }),
{
}

/// Writing $4015 enables the channels whose bits (0 to 4) are set: a
/// channel whose bit is clear is disabled and its length (for the delta
/// modulation channel, its bytes left) drops to 0, so the status reads it
/// as finished; one whose bit is set keeps its length. The delta modulation
/// channel's interrupt is acknowledged.
pub proof fn law_status_write<V>(s: ApuState<V>, byte: u8)
    ensures
        ({
            let t = apu_written(s, 0x4015, byte);
            &&& t.pulse_1.enabled == (byte % 2 == 1) && t.pulse_2.enabled == (byte / 2 % 2 == 1)
            &&& t.triangle.enabled == (byte / 4 % 2 == 1) && t.noise.enabled == (byte / 8 % 2 == 1)
            &&& t.dmc.enabled == (byte / 16 % 2 == 1)
            &&& t.pulse_1.length == if byte % 2 == 1 {
                s.pulse_1.length
            } else {
                0
            }
            &&& t.pulse_2.length == if byte / 2 % 2 == 1 {
                s.pulse_2.length
            } else {
                0
            }
            &&& t.triangle.length == if byte / 4 % 2 == 1 {
                s.triangle.length
            } else {
                0
            }
            &&& t.noise.length == if byte / 8 % 2 == 1 {
                s.noise.length
            } else {
                0
            }
            &&& byte / 16 % 2 == 0 ==> t.dmc.bytes_remaining == 0
            &&& byte / 16 % 2 == 1 && s.dmc.bytes_remaining != 0 ==> t.dmc.bytes_remaining
                == s.dmc.bytes_remaining
            &&& byte / 16 % 2 == 1 && s.dmc.bytes_remaining == 0 ==> t.dmc.bytes_remaining
                == s.dmc.sample_len && t.dmc.current_addr == s.dmc.sample_addr
            &&& !t.dmc.irq_flag && t.irq_flag == s.irq_flag
        }),
{
    reveal(apu_written);
    crate::emulator::bits::lemma_shifted_flags(byte);
}

/// Writing $4012 and $4013 sets the delta modulation channel's sample to
/// start at $C000 + 64 * the first byte and to run 16 * the second byte + 1
/// bytes.
pub proof fn law_sample_registers<V>(s: ApuState<V>, a: u8, l: u8)
    ensures
        ({
            let t = apu_written(apu_written(s, 0x4012, a), 0x4013, l);
            &&& t.dmc.sample_addr == 0xC000 + 64 * a
            &&& t.dmc.sample_len == 16 * l + 1
            &&& t.dmc.bytes_remaining == s.dmc.bytes_remaining
        }),
{
    reveal(apu_written);
    crate::emulator::bits::lemma_register_bits(a, 0, 0);
    crate::emulator::bits::lemma_register_bits(l, 0, 0);
}

/// The frame sequencer counts APU cycles round its frame (14915 cycles in
/// four-step mode, 18641 in five-step mode). Envelopes and the triangle's
/// linear counter are clocked only on the quarter-frame cycles 3729, 7457,
/// 11186 and the frame's last, length counters only on the half-frame
/// cycles 7457 and the last, always together with a quarter-frame clock.
/// The frame interrupt can only be raised as a four-step frame wraps, and
/// only when it is enabled; nothing else in the sequencer changes.
pub proof fn law_frame_sequencer<V>(s: ApuState<V>)
    requires
        s.cycle_counter < frame_period(s.sequence_mode),
    ensures
        ({
            let t = frame_step(s);
            let c = s.cycle_counter + 1;
            let last = frame_period(s.sequence_mode);
            let quarter = c == 3729 || c == 7457 || c == 11186 || c == last;
            let half = c == 7457 || c == last;
            &&& t.cycle_counter == c % last as int
            &&& t.sequence_mode == s.sequence_mode && t.irq_enabled == s.irq_enabled
            &&& !quarter ==> t.pulse_1.envelope == s.pulse_1.envelope && t.pulse_2.envelope
                == s.pulse_2.envelope && t.noise.envelope == s.noise.envelope && t.triangle.linear
                == s.triangle.linear
            &&& quarter ==> t.pulse_1.envelope == envelope_clocked(s.pulse_1.envelope)
                && t.noise.envelope == envelope_clocked(s.noise.envelope)
            &&& !half ==> t.pulse_1.length == s.pulse_1.length && t.pulse_2.length
                == s.pulse_2.length && t.triangle.length == s.triangle.length && t.noise.length
                == s.noise.length
            &&& half ==> t.noise.length == (if !s.noise.halt_length && s.noise.length > 0 {
                s.noise.length - 1
            } else {
                s.noise.length as int
            })
            &&& t.irq_flag != s.irq_flag ==> s.sequence_mode == SequenceMode::FourStep && c
                == 14915 && t.irq_flag == s.irq_enabled
            &&& (s.sequence_mode == SequenceMode::FourStep && c == 14915 && s.irq_enabled)
                ==> t.irq_flag
        }),
{
}

/// One step of the delta modulation channel's output unit: the volume moves
/// two steps up for a 1 bit and down for a 0 bit of the shift register,
/// unless silenced or that would leave 0..=127; the register shifts one bit
/// out (lowest first). When the last of a byte's eight bits is out, the
/// sample buffer's byte, if any, is taken for the next eight, and the
/// channel is silenced if there is none.
pub proof fn law_dmc_output<V>(s: DmcState<V>)
    ensures
        ({
            let t = dmc_output(s);
            let v = s.volume as int;
            let bit = s.shift_register % 2;
            &&& s.volume <= 127 ==> t.volume <= 127
            &&& t.volume == v || t.volume == v + 2 || t.volume == v - 2
            &&& t.volume == v + 2 <==> !s.silence_flag && bit == 1 && v <= 125
            &&& t.volume == v - 2 <==> !s.silence_flag && bit == 0 && v >= 2
            &&& s.bits_remaining > 1 ==> t.bits_remaining == s.bits_remaining - 1
                && t.shift_register == s.shift_register / 2 && t.sample_buffer == s.sample_buffer
                && t.silence_flag == s.silence_flag
            &&& s.bits_remaining <= 1 ==> t.bits_remaining == 8 && match s.sample_buffer {
                Some(b) => t.shift_register == b && t.sample_buffer is None && !t.silence_flag,
                None => t.silence_flag && t.sample_buffer is None,
            }
        }),
{
    crate::emulator::bits::lemma_shifted_flags(s.shift_register);
    crate::emulator::bits::lemma_register_bits(s.shift_register, 0, 0);
}

/// The other channels' registers: $4008 sets the triangle's linear reload
/// value (low seven bits) and, by bit 7, both its control flag and length
/// halt; $400A and $400B its 11-bit period, low byte then high three bits,
/// $400B also its length by the top five bits and a linear reload. $400C
/// sets the noise envelope as $4000 does a pulse's, $400E the noise mode
/// (bit 7) and period by the low four bits, $400F its length and an
/// envelope restart. $4010 sets the delta modulation channel's interrupt
/// enable (bit 7), loop (bit 6) and period by the low four bits, $4011 its
/// level (low seven bits). $4017 picks the five-step sequence by bit 7,
/// enables the frame interrupt exactly when bits 4-6 are clear (clearing
/// the raised flag otherwise) and restarts the frame.
pub proof fn law_channel_registers<V>(s: ApuState<V>, b: u8, c: u8)
    ensures
        ({
            let tri = apu_written(apu_written(apu_written(s, 0x4008, b), 0x400A, c), 0x400B, b).triangle;
            let noise = apu_written(apu_written(apu_written(s, 0x400C, b), 0x400E, c), 0x400F, b).noise;
            let dmc = apu_written(apu_written(s, 0x4010, b), 0x4011, c).dmc;
            let f = apu_written(s, 0x4017, b);
            &&& tri.linear_reload_value == b % 128 && tri.control_flag == (b >= 128)
                && tri.halt_length == (b >= 128)
            &&& tri.timer.period == (b % 8) * 256 + c && tri.length == length_counter(b / 8)
                && tri.linear_reload_flag
            &&& noise.halt_length == (b / 32 % 2 == 1) && noise.envelope.loop_flag
                == noise.halt_length && noise.envelope.constant_volume == (b / 16 % 2 == 1)
            &&& noise.envelope.volume == b % 16 && noise.envelope.start_flag
            &&& noise.mode == (c >= 128) && noise.timer.period == noise_period(c % 16)
            &&& noise.length == length_counter(b / 8)
            &&& dmc.irq_enabled == (b >= 128) && dmc.loop_flag == (b / 64 % 2 == 1)
                && dmc.timer.period == dmc_period(b % 16) && dmc.volume == c % 128
            &&& (f.sequence_mode == SequenceMode::FiveStep) == (b >= 128)
            &&& f.irq_enabled == (b / 16 % 8 == 0) && f.cycle_counter == 0
            &&& f.irq_flag == (s.irq_flag && b / 16 % 8 == 0)
        }),
{
    reveal(apu_written);
    crate::emulator::bits::lemma_register_bits(b, c, s.triangle.timer.period);
    crate::emulator::bits::lemma_register_bits(c, c, 0);
    crate::emulator::bits::lemma_shifted_flags(b);
}

} // verus!
