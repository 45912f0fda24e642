//! A waveform view of the two pulse channels, for debugging sound.
use vstd::prelude::*;

use crate::emulator::apu::synth::{Pulse, pulse_duty, pulse_duty_value};
use crate::emulator::apu::APU;
use crate::emulator::memory::Reader;

verus! {

/// Columns of the waveform view.
pub const WAVEFORM_WIDTH: usize = 256;

/// Rows of the waveform view.
pub const WAVEFORM_HEIGHT: usize = 160;

/// Bytes of the waveform view: three per pixel.
pub const WAVEFORM_BYTES: usize = 256 * 160 * 3;

/// The envelope's output level.
pub open spec fn wave_amplitude(pulse: Pulse) -> int {
    if pulse.envelope.constant_volume {
        pulse.envelope.volume as int
    } else {
        pulse.envelope.decay_level as int
    }
}

/// The row at which column `dx` draws the wave: the duty step reached after
/// `dx * 64` timer cycles, scaled by the amplitude, eight rows down.
pub open spec fn wave_level(pulse: Pulse, dx: int) -> int {
    let step = (dx * 64) / (pulse.timer.period as int);
    pulse_duty(pulse.sequence, (step % 8) as u8) * wave_amplitude(pulse) + 8
}

/// The first row column `dx` paints: with a step from the previous column,
/// the wave's vertical edge is drawn too.
pub open spec fn wave_low(pulse: Pulse, dx: int) -> int {
    if dx > 0 && wave_level(pulse, dx - 1) < wave_level(pulse, dx) {
        wave_level(pulse, dx - 1)
    } else {
        wave_level(pulse, dx)
    }
}

/// The last row column `dx` paints.
pub open spec fn wave_high(pulse: Pulse, dx: int) -> int {
    if dx > 0 && wave_level(pulse, dx - 1) > wave_level(pulse, dx) {
        wave_level(pulse, dx - 1)
    } else {
        wave_level(pulse, dx)
    }
}

/// The index of the red byte of pixel (`col`, `row`).
pub open spec fn pixel_index(row: int, col: int) -> int {
    (row * 256 + col) * 3
}

/// Whether column `dx` of a wave drawn at (`x`, `y`) paints byte `i`.
pub open spec fn column_paints(pulse: Pulse, x: int, y: int, dx: int, i: int) -> bool {
    exists|r: int|
        wave_low(pulse, dx) <= r <= wave_high(pulse, dx) && i == #[trigger] pixel_index(
            y + r,
            x + dx,
        )
}

/// Whether one of the first `n` columns paints byte `i`.
pub open spec fn wave_paints(pulse: Pulse, x: int, y: int, n: int, i: int) -> bool {
    exists|dx: int| 0 <= dx < n && #[trigger] column_paints(pulse, x, y, dx, i)
}

/// A wave is drawn only when the period is above 8; then every level fits a
/// byte and every pixel it paints lies in a buffer of `len` bytes.
pub open spec fn wave_fits(pulse: Pulse, x: int, y: int, len: int) -> bool {
    pulse.timer.period > 8 ==> forall|dx: int|
        0 <= dx < 256 ==> #[trigger] wave_level(pulse, dx) < 256 && pixel_index(
            y + wave_high(pulse, dx),
            x + dx,
        ) + 2 < len
}

/// Whether the wave of `pulse` drawn at (`x`, `y`) paints byte `i`.
pub open spec fn wave_drawn(pulse: Pulse, x: int, y: int, i: int) -> bool {
    pulse.timer.period > 8 && wave_paints(pulse, x, y, 256, i)
}

/// The waveform view of two pulse channels, the first at the top and the
/// second 32 rows down, on black.
pub open spec fn waveform_view(pulse_1: Pulse, pulse_2: Pulse) -> Seq<u8> {
    Seq::new(
        WAVEFORM_BYTES as nat,
        |i: int|
            if wave_drawn(pulse_1, 0, 0, i) || wave_drawn(pulse_2, 0, 32, i) {
                0xFFu8
            } else {
                0u8
            },
    )
}

/// Draws the pulse channels' waveforms for an APU.
pub struct APUDebug<'a, R> {
    apu: &'a APU<R>,
}

impl<'a, R: Reader> APUDebug<'a, R> {
    pub fn new(apu: &'a APU<R>) -> (d: APUDebug<'a, R>)
        ensures
            *d.apu() == *apu,
    {
        APUDebug { apu }
    }

    pub closed spec fn apu(&self) -> &'a APU<R> {
        self.apu
    }

    /// Hands a waveform view of both pulse channels, one above the other,
    /// to `render_waveforms`.
    pub fn do_render<F: FnOnce(&[u8])>(&mut self, render_waveforms: F)
        requires
            old(self).apu().pulse_1.sequence < 4,
            old(self).apu().pulse_2.sequence < 4,
            wave_fits(old(self).apu().pulse_1, 0, 0, WAVEFORM_BYTES as int),
            wave_fits(old(self).apu().pulse_2, 0, 32, WAVEFORM_BYTES as int),
            forall|frame: &[u8]| #[trigger] call_requires(render_waveforms, (frame,)),
        ensures
            exists|frame: &[u8]|
                frame@ == waveform_view(old(self).apu().pulse_1, old(self).apu().pulse_2)
                    && #[trigger] call_ensures(render_waveforms, (frame,), ()),
    {
        let mut waveform_buffer: Vec<u8> = Vec::new();
        let mut i: usize = 0;
        while i < WAVEFORM_BYTES
            invariant
                i <= WAVEFORM_BYTES,
                waveform_buffer@.len() == i,
                forall|j: int| 0 <= j < i ==> #[trigger] waveform_buffer@[j] == 0,
            decreases WAVEFORM_BYTES - i,
        {
            waveform_buffer.push(0);
            i = i + 1;
        }
        self.fill_waveform_buffer(&mut waveform_buffer);
        render_waveforms(waveform_buffer.as_slice());
    }

    fn fill_waveform_buffer(&self, buffer: &mut Vec<u8>)
        requires
            old(buffer)@.len() == WAVEFORM_BYTES,
            self.apu().pulse_1.sequence < 4,
            self.apu().pulse_2.sequence < 4,
            wave_fits(self.apu().pulse_1, 0, 0, WAVEFORM_BYTES as int),
            wave_fits(self.apu().pulse_2, 0, 32, WAVEFORM_BYTES as int),
            forall|i: int| 0 <= i < WAVEFORM_BYTES ==> #[trigger] old(buffer)@[i] == 0,
        ensures
            final(buffer)@ == waveform_view(self.apu().pulse_1, self.apu().pulse_2),
    {
        Self::draw_pulse_wave(buffer, &self.apu.pulse_1, 0, 0);
        Self::draw_pulse_wave(buffer, &self.apu.pulse_2, 0, 32);
        assert(buffer@ =~= waveform_view(self.apu().pulse_1, self.apu().pulse_2));
    }

    /// Paints the wave's pixels at (`x`, `y`) red in full (0xFF), one column
    /// at a time, with the edges between columns of different level.
    pub fn draw_pulse_wave(buffer: &mut Vec<u8>, pulse: &Pulse, x: usize, y: usize)
        requires
            pulse.sequence < 4,
            wave_fits(*pulse, x as int, y as int, old(buffer)@.len() as int),
        ensures
            final(buffer)@.len() == old(buffer)@.len(),
            forall|i: int|
                0 <= i < old(buffer)@.len() ==> #[trigger] final(buffer)@[i] == if pulse.timer.period
                    > 8 && wave_paints(*pulse, x as int, y as int, 256, i) {
                    0xFFu8
                } else {
                    old(buffer)@[i]
                },
    {
        let period = pulse.timer.period;
        let amplitude = if pulse.envelope.constant_volume {
            pulse.envelope.volume
        } else {
            pulse.envelope.decay_level
        };
        if period <= 8 {
            return;
        }
        let ghost p = *pulse;
        let ghost initial = buffer@;
        let len = buffer.len();
        assert(initial.len() == len);
        let ghost xi = x as int;
        let ghost yi = y as int;
        let mut prev_y: usize = 0;
        let mut dx: usize = 0;
        while dx < WAVEFORM_WIDTH
            invariant
                p == *pulse,
                xi == x,
                yi == y,
                period == p.timer.period,
                period > 8,
                amplitude == wave_amplitude(p),
                p.sequence < 4,
                wave_fits(p, xi, yi, initial.len() as int),
                initial.len() <= usize::MAX,
                buffer@.len() == initial.len(),
                dx <= 256,
                prev_y == if dx == 0 {
                    0
                } else {
                    wave_level(p, dx - 1)
                },
                forall|i: int|
                    0 <= i < initial.len() ==> #[trigger] buffer@[i] == if wave_paints(
                        p,
                        xi,
                        yi,
                        dx as int,
                        i,
                    ) {
                        0xFFu8
                    } else {
                        initial[i]
                    },
            decreases 256 - dx,
        {
            // Draw one column at a time.
            let seq_ix = (dx * 64) / (period as usize);
            assert(wave_level(p, dx as int) < 256);
            let step = pulse_duty_value(pulse.sequence, (seq_ix % 8) as u8);
            assert(step <= 1);
            let dy = (step * amplitude + 8) as usize;
            assert(dy == wave_level(p, dx as int));
            let ghost low = wave_low(p, dx as int);
            let ghost high = wave_high(p, dx as int);
            assert(pixel_index(yi + high, xi + dx) + 2 < initial.len());
            assert(dx > 0 ==> wave_level(p, dx - 1) >= 8);
            let ghost before = buffer@;
            let ghost drawn = prev_y != 0 && dy != prev_y;
            if prev_y != 0 && dy != prev_y {
                // Draw the vertical edge.
                let (from, to) = if dy > prev_y {
                    (prev_y, dy)
                } else {
                    (dy, prev_y)
                };
                assert(from == low && to == high);
                let mut ix = from;
                while ix <= to
                    invariant
                        from <= ix <= to + 1,
                        to == high,
                        from == low,
                        xi == x,
                        yi == y,
                        (dx as int) < 256,
                        pixel_index(yi + high, xi + dx) + 2 < initial.len(),
                        initial.len() <= usize::MAX,
                        buffer@.len() == initial.len(),
                        forall|i: int|
                            0 <= i < initial.len() ==> #[trigger] buffer@[i] == if (exists|
                                r: int,
                            |
                                from <= r < ix && i == #[trigger] pixel_index(yi + r, xi + dx)) {
                                0xFFu8
                            } else {
                                before[i]
                            },
                    decreases to + 1 - ix,
                {
                    let index = ((y + ix) * WAVEFORM_WIDTH + x + dx) * 3;
                    assert(index == pixel_index(yi + ix, xi + dx));
                    let ghost prev = buffer@;
                    buffer.set(index, 0xFF);
                    proof {
                        assert forall|i: int| 0 <= i < initial.len() implies #[trigger] buffer@[i]
                            == if (exists|r: int|
                            from <= r < ix + 1 && i == #[trigger] pixel_index(yi + r, xi + dx)) {
                            0xFFu8
                        } else {
                            before[i]
                        } by {
                            if i == index as int {
                                assert(from <= ix < ix + 1 && i == pixel_index(yi + ix, xi + dx));
                            } else if exists|r: int|
                                from <= r < ix + 1 && i == #[trigger] pixel_index(yi + r, xi + dx) {
                                let r = choose|r: int|
                                    from <= r < ix + 1 && i == #[trigger] pixel_index(
                                        yi + r,
                                        xi + dx,
                                    );
                                assert(r != ix);
                                assert(from <= r < ix && i == pixel_index(yi + r, xi + dx));
                            }
                        }
                    }
                    ix = ix + 1;
                }
            }
            prev_y = dy;
            let index = ((y + dy) * WAVEFORM_WIDTH + x + dx) * 3;
            assert(index == pixel_index(yi + dy, xi + dx));
            let ghost mid = buffer@;
            buffer.set(index, 0xFF);
            proof {
                assert forall|i: int| 0 <= i < initial.len() implies #[trigger] buffer@[i] == if wave_paints(
                    p,
                    xi,
                    yi,
                    dx + 1,
                    i,
                ) {
                    0xFFu8
                } else {
                    initial[i]
                } by {
                    let d = dx as int;
                    let col = column_paints(p, xi, yi, d, i);
                    // What the column paints is the edge, if drawn, and the level.
                    if col {
                        let r = choose|r: int|
                            low <= r <= high && i == #[trigger] pixel_index(yi + r, xi + d);
                        if !drawn {
                            assert(r == dy);
                        } else {
                            assert(low <= r < high + 1 && i == pixel_index(yi + r, xi + d));
                        }
                    }
                    if i == index as int {
                        assert(low <= dy <= high && i == pixel_index(yi + dy, xi + d));
                        assert(col);
                    }
                    if drawn && (exists|r: int|
                        low <= r < high + 1 && i == #[trigger] pixel_index(yi + r, xi + d)) {
                        let r = choose|r: int|
                            low <= r < high + 1 && i == #[trigger] pixel_index(yi + r, xi + d);
                        assert(low <= r <= high && i == pixel_index(yi + r, xi + d));
                        assert(col);
                    }
                    // The first dx + 1 columns are the first dx and this one.
                    if wave_paints(p, xi, yi, d + 1, i) {
                        let e = choose|e: int| 0 <= e < d + 1 && #[trigger] column_paints(p, xi, yi, e, i);
                        if e < d {
                            assert(wave_paints(p, xi, yi, d, i));
                        } else {
                            assert(col);
                        }
                    }
                    if col {
                        assert(0 <= d < d + 1 && column_paints(p, xi, yi, d, i));
                    }
                    if wave_paints(p, xi, yi, d, i) {
                        let e = choose|e: int| 0 <= e < d && #[trigger] column_paints(p, xi, yi, e, i);
                        assert(0 <= e < d + 1 && column_paints(p, xi, yi, e, i));
                    }
                }
            }
            dx = dx + 1;
        }
    }
}

} // verus!
