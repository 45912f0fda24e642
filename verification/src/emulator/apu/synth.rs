//! The sound channels and the units they are built from.
use vstd::prelude::*;

use crate::emulator::memory::Reader;

verus! {

/// Counts down from its period and fires when it reaches zero.
pub struct Divider {
    pub period: u16,
    pub counter: u16,
}

impl Divider {
    pub fn new(period: u16) -> (d: Divider)
        ensures
            d.period == period,
            d.counter == 0,
    {
        Divider { period, counter: 0 }
    }

    /// Fires (returns true) and reloads when the counter is zero; otherwise
    /// counts down.
    pub fn clock(&mut self) -> (fired: bool)
        ensures
            fired == (old(self).counter == 0),
            final(self).period == old(self).period,
            final(self).counter == if old(self).counter == 0 {
                old(self).period as int
            } else {
                old(self).counter - 1
            },
    {
        if self.counter == 0 {
            self.counter = self.period;
            true
        } else {
            self.counter -= 1;
            false
        }
    }

    pub fn reload(&mut self)
        ensures
            final(self).period == old(self).period,
            final(self).counter == old(self).period,
    {
        self.counter = self.period;
    }

    pub fn set_period(&mut self, period: u16)
        ensures
            final(self).period == period,
            final(self).counter == old(self).counter,
    {
        self.period = period;
    }

    pub fn period(&self) -> (p: u16)
        ensures
            p == self.period,
    {
        self.period
    }

    pub fn counter(&self) -> (c: u16)
        ensures
            c == self.counter,
    {
        self.counter
    }
}

/// The counter of a divider with `period` that starts at `counter`, after
/// `n` clocks.
pub open spec fn divider_after(period: u16, counter: u16, n: nat) -> u16
    decreases n,
{
    if n == 0 {
        counter
    } else {
        let c = divider_after(period, counter, (n - 1) as nat);
        if c == 0 {
            period
        } else {
            (c - 1) as u16
        }
    }
}

/// A divider fires once every `period + 1` clocks: from a counter of `c` it
/// counts down through the next `c` clocks without firing, fires on the one
/// after and starts again from its period.
pub proof fn law_divider_period(period: u16, counter: u16, n: nat)
    requires
        n <= counter,
    ensures
        divider_after(period, counter, n) == counter - n,
        divider_after(period, counter, (counter + 1) as nat) == period,
{
    lemma_divider_counts_down(period, counter, n);
    lemma_divider_counts_down(period, counter, counter as nat);
}

proof fn lemma_divider_counts_down(period: u16, counter: u16, n: nat)
    requires
        n <= counter,
    ensures
        divider_after(period, counter, n) == counter - n,
    decreases n,
{
    if n > 0 {
        lemma_divider_counts_down(period, counter, (n - 1) as nat);
    }
}

/// The volume envelope: a decaying level, or a constant volume.
pub struct Envelope {
    pub start_flag: bool,
    pub decay_level: u8,
    pub divider: Divider,
    pub loop_flag: bool,
    pub constant_volume: bool,
    pub volume: u8,
}

/// The envelope after one clock.
pub open spec fn envelope_clocked(e: Envelope) -> Envelope {
    if e.start_flag {
        Envelope {
            start_flag: false,
            decay_level: 15,
            divider: Divider { counter: e.divider.period, ..e.divider },
            ..e
        }
    } else {
        Envelope {
            divider: divider_clocked(e.divider),
            decay_level: if e.divider.counter != 0 {
                e.decay_level
            } else if e.decay_level != 0 {
                (e.decay_level - 1) as u8
            } else if e.loop_flag {
                15
            } else {
                0
            },
            ..e
        }
    }
}

impl Envelope {
    pub fn new() -> (e: Envelope)
        ensures
            e.start_flag,
            e.decay_level == 0,
            e.divider.period == 0 && e.divider.counter == 0,
            !e.loop_flag && !e.constant_volume,
            e.volume == 0,
    {
        Envelope {
            start_flag: true,
            decay_level: 0,
            divider: Divider::new(0),
            loop_flag: false,
            constant_volume: false,
            volume: 0,
        }
    }

    /// After a restart the level goes to 15 and the divider reloads;
    /// otherwise each firing of the divider lowers the level by one, and at
    /// zero it loops back to 15 when the loop flag is set.
    pub fn clock(&mut self)
        ensures
            *final(self) == envelope_clocked(*old(self)),
            final(self).loop_flag == old(self).loop_flag,
            final(self).constant_volume == old(self).constant_volume,
            final(self).volume == old(self).volume,
            final(self).divider.period == old(self).divider.period,
            !final(self).start_flag,
            old(self).start_flag ==> final(self).decay_level == 15 && final(self).divider.counter
                == old(self).divider.period,
            !old(self).start_flag ==> {
                &&& final(self).divider.counter == if old(self).divider.counter == 0 {
                    old(self).divider.period as int
                } else {
                    old(self).divider.counter - 1
                }
                &&& final(self).decay_level == if old(self).divider.counter != 0 {
                    old(self).decay_level as int
                } else if old(self).decay_level != 0 {
                    old(self).decay_level - 1
                } else if old(self).loop_flag {
                    15
                } else {
                    0
                }
            },
    {
        if self.start_flag {
            self.start_flag = false;
            self.decay_level = 15;
            self.divider.reload();
        } else {
            if self.divider.clock() {
                if self.decay_level == 0 {
                    if self.loop_flag {
                        self.decay_level = 15
                    }
                } else {
                    self.decay_level -= 1;
                }
            }
        }
    }

    pub fn volume(&self) -> (v: u8)
        ensures
            v == if self.constant_volume {
                self.volume
            } else {
                self.decay_level
            },
    {
        if self.constant_volume {
            self.volume
        } else {
            self.decay_level
        }
    }

    /// Sets the constant volume, which is also the divider's period.
    pub fn set_volume(&mut self, volume: u8)
        ensures
            final(self).volume == volume,
            final(self).divider.period == volume,
            final(self).divider.counter == old(self).divider.counter,
            final(self).start_flag == old(self).start_flag,
            final(self).decay_level == old(self).decay_level,
            final(self).loop_flag == old(self).loop_flag,
            final(self).constant_volume == old(self).constant_volume,
    {
        self.volume = volume;
        self.divider.set_period(volume as u16);
    }

    pub fn restart(&mut self)
        ensures
            *final(self) == (Envelope { start_flag: true, ..*old(self) }),
    {
        self.start_flag = true;
    }
}

/// Periodically moves a pulse channel's period toward a target.
pub struct Sweep {
    pub twos_complement: bool,
    pub enabled: bool,
    pub divider: Divider,
    pub negate_flag: bool,
    pub shift_count: u8,
    pub reload_flag: bool,
    pub target_period: u16,
}

/// The period a sweep aims for from `current`: the current period plus or
/// minus it shifted right by `shift`, saturating; the second pulse channel
/// subtracts one more.
pub open spec fn sweep_target(current: u16, shift: u8, negate: bool, twos_complement: bool) -> u16 {
    let change = current >> shift;
    if negate {
        let amount = if twos_complement {
            change + 1
        } else {
            change as int
        };
        if current >= amount {
            (current - amount) as u16
        } else {
            0
        }
    } else {
        if current + change <= 0xFFFF {
            (current + change) as u16
        } else {
            0xFFFF
        }
    }
}

/// The sweep after the length clock, and the period it leaves the channel
/// with: when its divider fires with a non-zero shift, enabled and not
/// muting, the target replaces the current period.
pub open spec fn sweep_update(s: Sweep, current: u16) -> (Sweep, u16) {
    let fires = s.divider.counter == 0;
    let applies = fires && s.shift_count != 0 && s.enabled && !s.is_muting_spec(current);
    let counter = if fires || s.reload_flag {
        s.divider.period
    } else {
        (s.divider.counter - 1) as u16
    };
    (Sweep { divider: Divider { counter: counter, ..s.divider }, reload_flag: false, ..s }, if applies {
        s.target_period
    } else {
        current
    })
}

impl Sweep {
    pub fn new(twos_complement: bool) -> (s: Sweep)
        ensures
            s.twos_complement == twos_complement,
            s.enabled,
            s.divider.period == 0 && s.divider.counter == 0,
            !s.negate_flag,
            s.shift_count == 0,
            !s.reload_flag,
            s.target_period == 0,
    {
        Sweep {
            twos_complement,
            enabled: true,
            divider: Divider::new(0),
            negate_flag: false,
            shift_count: 0,
            reload_flag: false,
            target_period: 0,
        }
    }

    /// Recomputes the target period from the current one.
    pub fn clock(&mut self, current_period: u16)
        requires
            old(self).shift_count < 16,
        ensures
            *final(self) == (Sweep {
                target_period: sweep_target(
                    current_period,
                    old(self).shift_count,
                    old(self).negate_flag,
                    old(self).twos_complement,
                ),
                ..*old(self)
            }),
    {
        let change_amount = current_period >> self.shift_count;
        self.target_period = if self.negate_flag {
            if self.twos_complement {
                if change_amount == 0xFFFF {
                    0
                } else {
                    current_period.saturating_sub(change_amount + 1)
                }
            } else {
                current_period.saturating_sub(change_amount)
            }
        } else {
            current_period.saturating_add(change_amount)
        };
    }

    /// Clocks the divider; when it fires with a non-zero shift, enabled and
    /// not muting, the target period replaces the current one.
    pub fn get_updated_period(&mut self, current_period: u16) -> (period: u16)
        ensures
            (*final(self), period) == sweep_update(*old(self), current_period),
            final(self).divider.period == old(self).divider.period,
            final(self).twos_complement == old(self).twos_complement,
            final(self).enabled == old(self).enabled,
            final(self).negate_flag == old(self).negate_flag,
            final(self).shift_count == old(self).shift_count,
            final(self).target_period == old(self).target_period,
            !final(self).reload_flag,
            ({
                let fires = old(self).divider.counter == 0;
                let applies = fires && old(self).shift_count != 0 && old(self).enabled
                    && !old(self).is_muting_spec(current_period);
                &&& period == if applies {
                    old(self).target_period
                } else {
                    current_period
                }
                &&& final(self).divider.counter == if fires {
                    old(self).divider.period as int
                } else if old(self).reload_flag {
                    old(self).divider.period as int
                } else {
                    old(self).divider.counter - 1
                }
            }),
    {
        if self.divider.clock() {
            self.reload_flag = false;
            if self.shift_count != 0 && self.enabled && !self.is_muting(current_period) {
                return self.target_period;
            }
        }
        if self.reload_flag {
            self.divider.reload();
            self.reload_flag = false;
        }

        current_period
    }

    pub open spec fn is_muting_spec(&self, current_period: u16) -> bool {
        self.target_period > 0x7FF || current_period < 8
    }

    pub fn is_muting(&self, current_period: u16) -> (muting: bool)
        ensures
            muting == self.is_muting_spec(current_period),
    {
        self.target_period > 0x7FF || current_period < 8
    }
}

/// The duty cycle tables of the pulse channels.
pub open spec fn pulse_duty(sequence: u8, ix: u8) -> u8 {
    if sequence == 0 {
        if ix == 7 {
            1
        } else {
            0
        }
    } else if sequence == 1 {
        if ix >= 6 {
            1
        } else {
            0
        }
    } else if sequence == 2 {
        if ix >= 4 {
            1
        } else {
            0
        }
    } else {
        if ix < 6 {
            1
        } else {
            0
        }
    }
}

pub fn pulse_duty_value(sequence: u8, ix: u8) -> (v: u8)
    requires
        sequence < 4,
        ix < 8,
    ensures
        v == pulse_duty(sequence, ix),
{
    if sequence == 0 {
        if ix == 7 {
            1
        } else {
            0
        }
    } else if sequence == 1 {
        if ix >= 6 {
            1
        } else {
            0
        }
    } else if sequence == 2 {
        if ix >= 4 {
            1
        } else {
            0
        }
    } else {
        if ix < 6 {
            1
        } else {
            0
        }
    }
}

/// How many of the eight steps of duty `sequence` are high.
pub open spec fn pulse_duty_high_steps(sequence: u8) -> int {
    pulse_duty(sequence, 0) + pulse_duty(sequence, 1) + pulse_duty(sequence, 2) + pulse_duty(
        sequence,
        3,
    ) + pulse_duty(sequence, 4) + pulse_duty(sequence, 5) + pulse_duty(sequence, 6) + pulse_duty(
        sequence,
        7,
    )
}

/// The four duty cycles are high on 1, 2, 4 and 6 of their eight steps
/// (12.5%, 25%, 50%, 75%); each of the first three is high where the next
/// shorter one is, from the end of the sequence back; and the 75% duty is
/// the 25% duty negated.
pub proof fn law_pulse_duty_cycles(ix: u8)
    requires
        ix < 8,
    ensures
        pulse_duty_high_steps(0) == 1,
        pulse_duty_high_steps(1) == 2,
        pulse_duty_high_steps(2) == 4,
        pulse_duty_high_steps(3) == 6,
        pulse_duty(0, 7) == 1,
        pulse_duty(0, ix) <= pulse_duty(1, ix) <= pulse_duty(2, ix) <= 1,
        pulse_duty(1, 6) == 1 && pulse_duty(2, 4) == 1,
        pulse_duty(3, ix) == 1 - pulse_duty(1, ix),
{
}

/// A sounding pulse channel (enabled, timer period at least 8, length
/// running, sweep not muting) plays its envelope's output on the high steps
/// of its duty cycle and is silent on the others: 12.5% is high on step 7,
/// 25% on steps 6 and 7, 50% on steps 4 to 7, 75% on steps 0 to 5.
pub proof fn law_pulse_plays_duty(p: Pulse)
    requires
        p.enabled,
        p.timer.counter >= 8,
        p.length > 0,
        !p.sweep.is_muting_spec(p.timer.period),
        p.sequence < 4,
        p.sequence_ix < 8,
    ensures
        ({
            let ix = p.sequence_ix;
            let high = if p.sequence == 0 {
                ix == 7
            } else if p.sequence == 1 {
                ix >= 6
            } else if p.sequence == 2 {
                ix >= 4
            } else {
                ix < 6
            };
            let out = if p.envelope.constant_volume {
                p.envelope.volume
            } else {
                p.envelope.decay_level
            };
            p.volume_spec() == if high {
                out
            } else {
                0
            }
        }),
{
}

/// A pulse channel after a timer clock.
pub open spec fn pulse_clocked(p: Pulse) -> Pulse {
    Pulse {
        timer: divider_clocked(p.timer),
        sequence_ix: if p.timer.counter != 0 {
            p.sequence_ix
        } else if p.sequence_ix == 0 {
            7
        } else {
            (p.sequence_ix - 1) as u8
        },
        sweep: Sweep {
            target_period: sweep_target(
                p.timer.period,
                p.sweep.shift_count,
                p.sweep.negate_flag,
                p.sweep.twos_complement,
            ),
            ..p.sweep
        },
        ..p
    }
}

/// A pulse channel after a length clock, which also runs the sweep.
pub open spec fn pulse_length_clocked(p: Pulse) -> Pulse {
    let (sweep, period) = sweep_update(p.sweep, p.timer.period);
    Pulse {
        length: if !p.halt_length && p.length > 0 {
            (p.length - 1) as u8
        } else {
            p.length
        },
        sweep: sweep,
        timer: Divider { period: period, ..p.timer },
        ..p
    }
}

/// A square wave channel.
pub struct Pulse {
    pub enabled: bool,
    pub timer: Divider,
    pub length: u8,
    pub halt_length: bool,
    pub sequence: u8,
    pub sequence_ix: u8,
    pub envelope: Envelope,
    pub sweep: Sweep,
}

impl Pulse {
    /// The duty table and step are in range and the sweep's shift is below 16.
    pub open spec fn wf(&self) -> bool {
        self.sequence < 4 && self.sequence_ix < 8 && self.sweep.shift_count < 16
    }

    pub fn new(sweep: Sweep) -> (p: Pulse)
        ensures
            !p.enabled,
            p.timer.period == 0 && p.timer.counter == 0,
            p.length == 0,
            !p.halt_length,
            p.sequence == 0 && p.sequence_ix == 0,
            p.sweep == sweep,
            p.envelope.start_flag && p.envelope.decay_level == 0 && p.envelope.volume == 0,
            p.envelope.divider.period == 0 && p.envelope.divider.counter == 0,
            !p.envelope.loop_flag && !p.envelope.constant_volume,
    {
        Pulse {
            enabled: false,
            timer: Divider::new(0),
            length: 0,
            halt_length: false,
            sequence: 0,
            envelope: Envelope::new(),
            sweep,
            sequence_ix: 0,
        }
    }

    /// Steps the duty sequence backwards each time the timer fires, and
    /// recomputes the sweep target from the timer's period.
    pub fn clock(&mut self)
        requires
            old(self).wf(),
        ensures
            final(self).wf(),
            *final(self) == pulse_clocked(*old(self)),
            final(self).timer.period == old(self).timer.period,
            final(self).timer.counter == if old(self).timer.counter == 0 {
                old(self).timer.period as int
            } else {
                old(self).timer.counter - 1
            },
            final(self).sequence_ix == if old(self).timer.counter != 0 {
                old(self).sequence_ix as int
            } else if old(self).sequence_ix == 0 {
                7
            } else {
                old(self).sequence_ix - 1
            },
            final(self).sweep == (Sweep {
                target_period: sweep_target(
                    old(self).timer.period,
                    old(self).sweep.shift_count,
                    old(self).sweep.negate_flag,
                    old(self).sweep.twos_complement,
                ),
                ..old(self).sweep
            }),
            final(self).enabled == old(self).enabled && final(self).length == old(self).length,
            final(self).halt_length == old(self).halt_length && final(self).sequence == old(self).sequence,
            final(self).envelope == old(self).envelope,
    {
        if self.timer.clock() {
            self.sequence_ix = if self.sequence_ix == 0 {
                7
            } else {
                self.sequence_ix - 1
            }
        }
        let period = self.timer.period();
        self.sweep.clock(period);
    }

    /// Counts the length down (unless halted, stopping at zero) and applies
    /// the sweep to the timer's period.
    pub fn clock_length(&mut self)
        requires
            old(self).wf(),
        ensures
            final(self).wf(),
            *final(self) == pulse_length_clocked(*old(self)),
            final(self).length == if !old(self).halt_length && old(self).length > 0 {
                old(self).length - 1
            } else {
                old(self).length as int
            },
            final(self).timer.counter == old(self).timer.counter,
            final(self).enabled == old(self).enabled,
            final(self).halt_length == old(self).halt_length,
            final(self).sequence == old(self).sequence,
            final(self).sequence_ix == old(self).sequence_ix,
            final(self).envelope == old(self).envelope,
            final(self).sweep.shift_count == old(self).sweep.shift_count,
            ({
                let fires = old(self).sweep.divider.counter == 0;
                let applies = fires && old(self).sweep.shift_count != 0 && old(self).sweep.enabled
                    && !old(self).sweep.is_muting_spec(old(self).timer.period);
                final(self).timer.period == if applies {
                    old(self).sweep.target_period
                } else {
                    old(self).timer.period
                }
            }),
    {
        if !self.halt_length {
            self.length = self.length.saturating_sub(1);
        }
        let period = self.timer.period();
        let new_period = self.sweep.get_updated_period(period);
        self.timer.set_period(new_period);
    }

    pub open spec fn volume_spec(&self) -> u8 {
        if !self.enabled || self.timer.counter < 8 || self.length == 0 || pulse_duty(
            self.sequence,
            self.sequence_ix,
        ) == 0 || self.sweep.is_muting_spec(self.timer.period) {
            0
        } else if self.envelope.constant_volume {
            self.envelope.volume
        } else {
            self.envelope.decay_level
        }
    }

    /// The channel's output: the envelope's volume, or silence when disabled,
    /// the timer is below 8, the length has run out, the duty step is low or
    /// the sweep mutes.
    pub fn volume(&self) -> (v: u8)
        requires
            self.wf(),
        ensures
            v == self.volume_spec(),
    {
        if !self.enabled {
            return 0;
        }
        if self.timer.counter() < 8 {
            return 0;
        }
        if self.length == 0 {
            return 0;
        }
        if pulse_duty_value(self.sequence, self.sequence_ix) == 0 {
            return 0;
        }
        if self.sweep.is_muting(self.timer.period()) {
            return 0;
        }
        self.envelope.volume()
    }

    pub fn restart(&mut self)
        ensures
            *final(self) == (Pulse {
                sequence_ix: 0,
                envelope: Envelope { start_flag: true, ..old(self).envelope },
                ..*old(self)
            }),
    {
        self.sequence_ix = 0;
        self.envelope.restart();
    }
}

/// The triangle channel's 32-step output sequence: 15 down to 0, then 0 up to 15.
pub open spec fn triangle_step(ix: u8) -> u8 {
    if ix < 16 {
        (15 - ix) as u8
    } else {
        (ix - 16) as u8
    }
}

pub open spec fn triangle_clocked(t: Triangle) -> Triangle {
    Triangle {
        timer: divider_clocked(t.timer),
        sequence_ix: if t.timer.counter == 0 {
            ((t.sequence_ix + 1) % 32) as u8
        } else {
            t.sequence_ix
        },
        ..t
    }
}

pub open spec fn triangle_linear_clocked(t: Triangle) -> Triangle {
    Triangle {
        linear: if t.linear_reload_flag {
            t.linear_reload_value
        } else if t.linear > 0 {
            (t.linear - 1) as u8
        } else {
            0
        },
        linear_reload_flag: t.linear_reload_flag && t.control_flag,
        ..t
    }
}

pub open spec fn triangle_length_clocked(t: Triangle) -> Triangle {
    Triangle {
        length: if !t.halt_length && t.length > 0 {
            (t.length - 1) as u8
        } else {
            t.length
        },
        ..t
    }
}

/// The triangle wave channel.
pub struct Triangle {
    pub enabled: bool,
    pub timer: Divider,
    pub linear: u8,
    pub length: u8,
    pub halt_length: bool,
    pub linear_reload_flag: bool,
    pub linear_reload_value: u8,
    pub control_flag: bool,
    pub sequence_ix: u8,
}

impl Triangle {
    pub open spec fn wf(&self) -> bool {
        self.sequence_ix < 32
    }

    pub fn new() -> (t: Triangle)
        ensures
            t.wf(),
            !t.enabled,
            t.timer.period == 0 && t.timer.counter == 0,
            t.linear == 0 && t.length == 0,
            !t.halt_length && !t.linear_reload_flag && !t.control_flag,
            t.linear_reload_value == 0,
            t.sequence_ix == 0,
    {
        Triangle {
            enabled: false,
            timer: Divider::new(0),
            linear: 0,
            length: 0,
            halt_length: false,
            linear_reload_flag: false,
            linear_reload_value: 0,
            control_flag: false,
            sequence_ix: 0,
        }
    }

    /// Advances the sequence, wrapping after 32 steps, when the timer fires.
    pub fn clock(&mut self)
        requires
            old(self).wf(),
        ensures
            *final(self) == triangle_clocked(*old(self)),
            final(self).wf(),
    {
        if self.timer.clock() {
            self.sequence_ix = (self.sequence_ix + 1) % 32;
        }
    }

    /// Reloads the linear counter when flagged, otherwise counts it down to
    /// zero; the flag clears unless the control flag is set.
    pub fn clock_linear(&mut self)
        ensures
            *final(self) == triangle_linear_clocked(*old(self)),
    {
        if self.linear_reload_flag {
            self.linear = self.linear_reload_value;
        } else if self.linear > 0 {
            self.linear -= 1;
        }
        if !self.control_flag {
            self.linear_reload_flag = false;
        }
    }

    pub fn clock_length(&mut self)
        ensures
            *final(self) == triangle_length_clocked(*old(self)),
    {
        if !self.halt_length {
            self.length = self.length.saturating_sub(1);
        }
    }

    pub open spec fn volume_spec(&self) -> u8 {
        if !self.enabled || self.linear == 0 || self.length == 0 {
            0
        } else {
            triangle_step(self.sequence_ix)
        }
    }

    pub fn volume(&self) -> (v: u8)
        requires
            self.wf(),
        ensures
            v == self.volume_spec(),
    {
        if !self.enabled {
            return 0;
        }
        if self.linear == 0 || self.length == 0 {
            return 0;
        }
        if self.sequence_ix < 16 {
            15 - self.sequence_ix
        } else {
            self.sequence_ix - 16
        }
    }
}

/// The timer periods selectable for the noise channel.
pub open spec fn noise_period(ix: u8) -> u16 {
    if ix == 0 {
        4
    } else if ix == 1 {
        8
    } else if ix == 2 {
        16
    } else if ix == 3 {
        32
    } else if ix == 4 {
        64
    } else if ix == 5 {
        96
    } else if ix == 6 {
        128
    } else if ix == 7 {
        160
    } else if ix == 8 {
        202
    } else if ix == 9 {
        254
    } else if ix == 10 {
        380
    } else if ix == 11 {
        508
    } else if ix == 12 {
        762
    } else if ix == 13 {
        1016
    } else if ix == 14 {
        2034
    } else {
        4068
    }
}

pub open spec fn noise_clocked(n: Noise) -> Noise {
    Noise {
        timer: divider_clocked(n.timer),
        shift_register: if n.timer.counter == 0 {
            noise_shifted(n.shift_register, n.mode)
        } else {
            n.shift_register
        },
        ..n
    }
}

pub open spec fn noise_length_clocked(n: Noise) -> Noise {
    Noise {
        length: if !n.halt_length && n.length > 0 {
            (n.length - 1) as u8
        } else {
            n.length
        },
        ..n
    }
}

/// The noise channel: a linear-feedback shift register.
pub struct Noise {
    pub enabled: bool,
    pub envelope: Envelope,
    pub shift_register: u16,
    pub length: u8,
    pub halt_length: bool,
    pub mode: bool,
    pub timer: Divider,
}

/// The shift register after one step: shifted right with the exclusive or
/// of bit 0 and bit 1 (bit 5 in short mode) fed in at bit 13.
pub open spec fn noise_shifted(r: u16, mode: bool) -> u16 {
    let bit2 = if mode {
        (r >> 5u16) & 1
    } else {
        (r >> 1u16) & 1
    };
    (r >> 1u16) | (((r & 1) ^ bit2) << 13u16)
}

impl Noise {
    pub fn period_lookup(ix: u8) -> (period: u16)
        requires
            ix < 16,
        ensures
            period == noise_period(ix),
    {
        if ix == 0 {
            4
        } else if ix == 1 {
            8
        } else if ix == 2 {
            16
        } else if ix == 3 {
            32
        } else if ix == 4 {
            64
        } else if ix == 5 {
            96
        } else if ix == 6 {
            128
        } else if ix == 7 {
            160
        } else if ix == 8 {
            202
        } else if ix == 9 {
            254
        } else if ix == 10 {
            380
        } else if ix == 11 {
            508
        } else if ix == 12 {
            762
        } else if ix == 13 {
            1016
        } else if ix == 14 {
            2034
        } else {
            4068
        }
    }

    pub fn new() -> (n: Noise)
        ensures
            !n.enabled,
            n.shift_register == 1,
            n.length == 0 && !n.halt_length && !n.mode,
            n.timer.period == 0 && n.timer.counter == 0,
            n.envelope.start_flag && n.envelope.decay_level == 0 && n.envelope.volume == 0,
            n.envelope.divider.period == 0 && n.envelope.divider.counter == 0,
            !n.envelope.loop_flag && !n.envelope.constant_volume,
    {
        Noise {
            enabled: false,
            envelope: Envelope::new(),
            shift_register: 1,
            length: 0,
            halt_length: false,
            mode: false,
            timer: Divider::new(0),
        }
    }

    /// Steps the shift register each time the timer fires.
    pub fn clock(&mut self)
        ensures
            *final(self) == noise_clocked(*old(self)),
    {
        if self.timer.clock() {
            let r = self.shift_register;
            let bit1 = r & 0x1;
            let bit2 = if self.mode {
                (r >> 5) & 0x1
            } else {
                (r >> 1) & 0x1
            };
            let feedback = bit1 ^ bit2;
            assert(feedback <= 1) by (bit_vector)
                requires
                    feedback == (r & 1) ^ bit2,
                    bit2 == (r >> 5u16) & 1 || bit2 == (r >> 1u16) & 1,
            ;
            let shifted = (r >> 1) | (feedback << 13);
            self.shift_register = shifted;
        }
    }

    pub fn clock_length(&mut self)
        ensures
            *final(self) == noise_length_clocked(*old(self)),
    {
        if !self.halt_length {
            self.length = self.length.saturating_sub(1);
        }
    }

    pub open spec fn volume_spec(&self) -> u8 {
        if !self.enabled || self.shift_register & 1 != 0 || self.length == 0 {
            0
        } else if self.envelope.constant_volume {
            self.envelope.volume
        } else {
            self.envelope.decay_level
        }
    }

    pub fn volume(&self) -> (v: u8)
        ensures
            v == self.volume_spec(),
    {
        if !self.enabled {
            return 0;
        }
        if self.shift_register & 0x1 != 0 {
            return 0;
        }
        if self.length == 0 {
            return 0;
        }
        self.envelope.volume()
    }
}

/// The timer periods selectable for the delta modulation channel.
pub open spec fn dmc_period(ix: u8) -> u16 {
    if ix == 0 {
        428
    } else if ix == 1 {
        380
    } else if ix == 2 {
        340
    } else if ix == 3 {
        320
    } else if ix == 4 {
        286
    } else if ix == 5 {
        254
    } else if ix == 6 {
        226
    } else if ix == 7 {
        214
    } else if ix == 8 {
        190
    } else if ix == 9 {
        160
    } else if ix == 10 {
        142
    } else if ix == 11 {
        128
    } else if ix == 12 {
        106
    } else if ix == 13 {
        84
    } else if ix == 14 {
        72
    } else {
        54
    }
}

/// The delta modulation channel: plays 1-bit deltas read from PRG ROM.
pub struct DMC<R> {
    // Config.
    pub enabled: bool,
    pub irq_enabled: bool,
    pub loop_flag: bool,
    pub silence_flag: bool,
    pub timer: Divider,
    pub volume: u8,
    pub sample_addr: u16,
    pub sample_len: u16,
    // State.
    /// Read-only access to ROM.
    pub prg_rom: R,
    pub sample_buffer: Option<u8>,
    pub current_addr: u16,
    pub bytes_remaining: u16,
    pub irq_flag: bool,
    pub shift_register: u8,
    pub bits_remaining: u8,
}

/// The delta modulation channel as the specifications see it, with the
/// sample source by its view.
pub struct DmcState<V> {
    pub enabled: bool,
    pub irq_enabled: bool,
    pub loop_flag: bool,
    pub silence_flag: bool,
    pub timer: Divider,
    pub volume: u8,
    pub sample_addr: u16,
    pub sample_len: u16,
    pub prg_rom: V,
    pub sample_buffer: Option<u8>,
    pub current_addr: u16,
    pub bytes_remaining: u16,
    pub irq_flag: bool,
    pub shift_register: u8,
    pub bits_remaining: u8,
}

/// A divider after one clock.
pub open spec fn divider_clocked(d: Divider) -> Divider {
    Divider {
        counter: if d.counter == 0 {
            d.period
        } else {
            (d.counter - 1) as u16
        },
        ..d
    }
}

pub open spec fn dmc_restarted<V>(s: DmcState<V>) -> DmcState<V> {
    DmcState { bytes_remaining: s.sample_len, current_addr: s.sample_addr, ..s }
}

/// The memory reader: an empty sample buffer is filled from the current
/// address, which then advances (wrapping from 0xFFFF to 0x8000); at the end
/// of the sample it restarts when looping, or raises the IRQ flag when
/// enabled.
pub open spec fn dmc_read_sample<R: Reader>(s: DmcState<R::V>) -> DmcState<R::V> {
    if s.sample_buffer is None && s.bytes_remaining != 0 {
        let s1 = DmcState {
            sample_buffer: Some(R::peek(s.prg_rom, s.current_addr)),
            prg_rom: R::after_read(s.prg_rom, s.current_addr),
            current_addr: if s.current_addr == 0xFFFF {
                0x8000
            } else {
                (s.current_addr + 1) as u16
            },
            bytes_remaining: (s.bytes_remaining - 1) as u16,
            ..s
        };
        if s1.bytes_remaining == 0 {
            if s1.loop_flag {
                dmc_restarted(s1)
            } else if s1.irq_enabled {
                DmcState { irq_flag: true, ..s1 }
            } else {
                s1
            }
        } else {
            s1
        }
    } else {
        s
    }
}

/// The output unit: the next delta bit moves the volume two steps up or
/// down, unless silenced; after eight bits the next sample byte is taken, or
/// the channel is silenced when there is none.
pub open spec fn dmc_output<V>(s: DmcState<V>) -> DmcState<V> {
    let volume = if !s.silence_flag && s.shift_register & 1 == 1 && s.volume <= 125 {
        (s.volume + 2) as u8
    } else if !s.silence_flag && s.shift_register & 1 == 0 && s.volume >= 2 {
        (s.volume - 2) as u8
    } else {
        s.volume
    };
    let bits = if s.bits_remaining > 0 {
        (s.bits_remaining - 1) as u8
    } else {
        0
    };
    let s1 = DmcState { volume: volume, shift_register: s.shift_register >> 1u8, bits_remaining: bits, ..s };
    if bits == 0 {
        match s.sample_buffer {
            None => DmcState { bits_remaining: 8, silence_flag: true, ..s1 },
            Some(byte) => DmcState {
                bits_remaining: 8,
                silence_flag: false,
                shift_register: byte,
                sample_buffer: None,
                ..s1
            },
        }
    } else {
        s1
    }
}

/// The channel after one clock: when the timer fires, the memory reader and
/// then the output unit step.
pub open spec fn dmc_clocked<R: Reader>(s: DmcState<R::V>) -> DmcState<R::V> {
    let s1 = DmcState { timer: divider_clocked(s.timer), ..s };
    if s.timer.counter == 0 {
        dmc_output(dmc_read_sample::<R>(s1))
    } else {
        s1
    }
}

impl<R: Reader> DMC<R> {
    pub fn period_lookup(ix: u8) -> (period: u16)
        requires
            ix < 16,
        ensures
            period == dmc_period(ix),
    {
        if ix == 0 {
            428
        } else if ix == 1 {
            380
        } else if ix == 2 {
            340
        } else if ix == 3 {
            320
        } else if ix == 4 {
            286
        } else if ix == 5 {
            254
        } else if ix == 6 {
            226
        } else if ix == 7 {
            214
        } else if ix == 8 {
            190
        } else if ix == 9 {
            160
        } else if ix == 10 {
            142
        } else if ix == 11 {
            128
        } else if ix == 12 {
            106
        } else if ix == 13 {
            84
        } else if ix == 14 {
            72
        } else {
            54
        }
    }

    pub open spec fn state(&self) -> DmcState<R::V> {
        DmcState {
            enabled: self.enabled,
            irq_enabled: self.irq_enabled,
            loop_flag: self.loop_flag,
            silence_flag: self.silence_flag,
            timer: self.timer,
            volume: self.volume,
            sample_addr: self.sample_addr,
            sample_len: self.sample_len,
            prg_rom: self.prg_rom@,
            sample_buffer: self.sample_buffer,
            current_addr: self.current_addr,
            bytes_remaining: self.bytes_remaining,
            irq_flag: self.irq_flag,
            shift_register: self.shift_register,
            bits_remaining: self.bits_remaining,
        }
    }

    /// Every address of the sample source can be read.
    pub open spec fn wf(&self) -> bool {
        forall|a: u16| #[trigger] R::accessible(self.prg_rom@, a)
    }

    pub fn new(prg_rom: R) -> (d: DMC<R>)
        ensures
            d.state() == (DmcState {
                enabled: false,
                irq_enabled: false,
                loop_flag: false,
                silence_flag: false,
                timer: Divider { period: 0, counter: 0 },
                volume: 0,
                sample_addr: 0,
                sample_len: 0,
                prg_rom: prg_rom@,
                sample_buffer: None,
                current_addr: 0,
                bytes_remaining: 0,
                irq_flag: false,
                shift_register: 0,
                bits_remaining: 0,
            }),
    {
        DMC {
            enabled: false,
            irq_enabled: false,
            loop_flag: false,
            silence_flag: false,
            timer: Divider::new(0),
            volume: 0,
            sample_addr: 0,
            sample_len: 0,
            prg_rom,
            sample_buffer: None,
            current_addr: 0,
            bytes_remaining: 0,
            irq_flag: false,
            shift_register: 0,
            bits_remaining: 0,
        }
    }

    pub fn clock(&mut self)
        requires
            old(self).wf(),
        ensures
            final(self).wf(),
            final(self).state() == dmc_clocked::<R>(old(self).state()),
    {
        if self.timer.clock() {
            self.clock_memory_reader();
            self.clock_output_unit();
        }
    }

    pub fn restart_sample(&mut self)
        ensures
            final(self).prg_rom == old(self).prg_rom,
            final(self).state() == dmc_restarted(old(self).state()),
    {
        self.bytes_remaining = self.sample_len;
        self.current_addr = self.sample_addr;
    }

    fn clock_memory_reader(&mut self)
        requires
            old(self).wf(),
        ensures
            final(self).wf(),
            final(self).state() == dmc_read_sample::<R>(old(self).state()),
    {
        if self.sample_buffer.is_none() && self.bytes_remaining != 0 {
            proof {
                R::lemma_read_keeps_access(self.prg_rom@, self.current_addr);
            }
            let byte = self.prg_rom.read(self.current_addr);
            self.sample_buffer = Some(byte);
            self.current_addr = if self.current_addr == 0xFFFF {
                0x8000
            } else {
                self.current_addr + 1
            };

            self.bytes_remaining = self.bytes_remaining.saturating_sub(1);
            if self.bytes_remaining == 0 {
                if self.loop_flag {
                    self.restart_sample();
                } else if self.irq_enabled {
                    self.irq_flag = true;
                }
            }
        }
    }

    fn clock_output_unit(&mut self)
        ensures
            final(self).prg_rom == old(self).prg_rom,
            final(self).state() == dmc_output(old(self).state()),
    {
        if !self.silence_flag {
            let bit = self.shift_register & 0x01;
            if bit == 1 && self.volume <= 125 {
                self.volume += 2;
            } else if bit == 0 && self.volume >= 2 {
                self.volume -= 2;
            }
        }
        self.shift_register >>= 1;
        self.bits_remaining = self.bits_remaining.saturating_sub(1);

        if self.bits_remaining == 0 {
            self.bits_remaining = 8;
            match self.sample_buffer {
                None => {
                    self.silence_flag = true;
                },
                Some(byte) => {
                    self.silence_flag = false;
                    self.shift_register = byte;
                    self.sample_buffer = None;
                },
            }
        }
    }
}

} // verus!
