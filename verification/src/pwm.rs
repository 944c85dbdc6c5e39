//! The PWM controller as the motor driver sees it: sixteen output channels, each
//! switched on and off at a tick inside a period of 4096 ticks.

use vstd::prelude::*;

verus! {

/// Ticks in one PWM period.
pub const PERIOD_TICKS: u16 = 4096;

/// The last tick of a period. An output that goes on at tick 0 and off at this tick is
/// held high for the whole period.
pub const LAST_TICK: u16 = 4095;

/// The largest speed, in percent of the period.
pub const FULL_SPEED: u16 = 100;

/// The prescale value that sets the controller to a frequency of about 100 Hz.
pub const PRESCALE: u8 = 240;

/// One output line of the controller.
#[derive(Clone, Copy, Debug, PartialEq, Eq, Structural)]
pub enum Channel {
    C0,
    C1,
    C2,
    C3,
    C4,
    C5,
    C6,
    C7,
    C8,
    C9,
    C10,
    C11,
    C12,
    C13,
    C14,
    C15,
}

/// A write of one channel's on and off ticks.
#[derive(Clone, Copy, Debug, PartialEq, Eq, Structural)]
pub struct RegisterWrite {
    pub channel: Channel,
    pub on: u16,
    pub off: u16,
}

impl RegisterWrite {
    /// Both ticks lie inside the period. The controller takes no other write.
    pub open spec fn in_period(self) -> bool {
        self.on <= LAST_TICK && self.off <= LAST_TICK
    }
}

/// The integer nearest to `n / d`, a half counted as the integer farther from zero.
pub open spec fn rounded_quotient(n: int, d: int) -> int
    recommends
        d > 0,
{
    if n >= 0 {
        (2 * n + d) / (2 * d)
    } else {
        -((d - 2 * n) / (2 * d))
    }
}

/// The off tick that gives a duty cycle of `speed` percent on a channel that goes on at
/// tick 0: `speed * 4096 / 100 - 1`, rounded to the nearest integer and not below 0.
/// A speed above 100 counts as 100.
pub open spec fn duty_off_tick_spec(speed: int) -> int {
    let percent = if speed > 100 {
        100
    } else {
        speed
    };
    let rounded = rounded_quotient(4096 * percent - 100, 100);
    if rounded < 0 {
        0
    } else {
        rounded
    }
}

/// The off tick of a channel that is fully on or fully off.
pub open spec fn level_off_tick_spec(high: bool) -> int {
    if high {
        4095
    } else {
        0
    }
}

/// The write that sets `channel` to a duty cycle of `speed` percent.
pub open spec fn duty_write(channel: Channel, speed: int) -> RegisterWrite {
    RegisterWrite { channel, on: 0, off: duty_off_tick_spec(speed) as u16 }
}

/// The write that sets `channel` fully on or fully off.
pub open spec fn level_write(channel: Channel, high: bool) -> RegisterWrite {
    RegisterWrite { channel, on: 0, off: level_off_tick_spec(high) as u16 }
}

/// The controller's registers after `writes` were performed in order on `registers`:
/// for each channel the on and off ticks last written to it.
pub open spec fn perform(registers: Map<Channel, (u16, u16)>, writes: Seq<RegisterWrite>) -> Map<
    Channel,
    (u16, u16),
>
    decreases writes.len(),
{
    if writes.len() == 0 {
        registers
    } else {
        let last = writes.last();
        perform(registers, writes.drop_last()).insert(last.channel, (last.on, last.off))
    }
}

/// Computes the off tick for a duty cycle of `speed` percent.
pub fn duty_off_tick(speed: u16) -> (off: u16)
    ensures
        off == duty_off_tick_spec(speed as int),
        off <= LAST_TICK,
        speed == 0 ==> off == 0,
        speed >= FULL_SPEED ==> off == LAST_TICK,
{
    let percent: i32 = if speed > FULL_SPEED {
        100
    } else {
        speed as i32
    };
    let exact: i32 = 4096 * percent - 100;
    if exact < 0 {
        0
    } else {
        ((2 * exact + 100) / 200) as u16
    }
}

/// Rounding picks the nearest integer: `rounded_quotient(n, d)` is no farther from
/// `n / d` than half, and where it is half away it is the integer farther from zero.
pub proof fn lemma_rounded_quotient_is_nearest(n: int, d: int)
    requires
        d > 0,
    ensures
        -d <= 2 * (d * rounded_quotient(n, d) - n) <= d,
        2 * (d * rounded_quotient(n, d) - n) == d ==> n >= 0,
        2 * (d * rounded_quotient(n, d) - n) == -d ==> n < 0,
{
    if n >= 0 {
        let q = (2 * n + d) / (2 * d);
        assert(2 * n + d == (2 * d) * q + (2 * n + d) % (2 * d)) by {
            vstd::arithmetic::div_mod::lemma_fundamental_div_mod(2 * n + d, 2 * d);
        }
        assert(0 <= (2 * n + d) % (2 * d) < 2 * d) by {
            vstd::arithmetic::div_mod::lemma_mod_bound(2 * n + d, 2 * d);
        }
        assert((2 * d) * q == 2 * (d * q)) by (nonlinear_arith);
    } else {
        let q = (d - 2 * n) / (2 * d);
        assert(d - 2 * n == (2 * d) * q + (d - 2 * n) % (2 * d)) by {
            vstd::arithmetic::div_mod::lemma_fundamental_div_mod(d - 2 * n, 2 * d);
        }
        assert(0 <= (d - 2 * n) % (2 * d) < 2 * d) by {
            vstd::arithmetic::div_mod::lemma_mod_bound(d - 2 * n, 2 * d);
        }
        assert((2 * d) * q == 2 * (d * q)) by (nonlinear_arith);
        assert(d * (-q) == -(d * q)) by (nonlinear_arith);
    }
}

/// Between 0 and 100 percent the off tick is the integer nearest to
/// `speed * 4096 / 100 - 1`, and no other integer is as near; at 0 percent, where that
/// number is -1, the off tick is 0.
pub proof fn lemma_duty_off_tick_is_nearest(speed: int)
    requires
        0 <= speed <= 100,
    ensures
        speed == 0 ==> duty_off_tick_spec(speed) == 0,
        speed > 0 ==> -50 < 100 * duty_off_tick_spec(speed) - (4096 * speed - 100) < 50,
        0 <= duty_off_tick_spec(speed) <= 4095,
{
    if speed > 0 {
        let n = 4096 * speed - 100;
        let t = rounded_quotient(n, 100);
        lemma_rounded_quotient_is_nearest(n, 100);
        // 100 * t - n is a multiple of 4, and neither 50 nor -50 is one
        assert(100 * t - n == 4 * (25 * t - 1024 * speed + 25));
    }
}

/// The off tick does not fall when the speed rises.
pub proof fn lemma_duty_off_tick_monotonic(low: int, high: int)
    requires
        low <= high,
    ensures
        duty_off_tick_spec(low) <= duty_off_tick_spec(high),
{
    let below = if low > 100 { 100 } else { low };
    let above = if high > 100 { 100 } else { high };
    let n_below = 4096 * below - 100;
    let n_above = 4096 * above - 100;
    if n_above < 0 {
        vstd::arithmetic::div_mod::lemma_div_pos_is_pos(100 - 2 * n_above, 200);
        vstd::arithmetic::div_mod::lemma_div_pos_is_pos(100 - 2 * n_below, 200);
    } else if n_below < 0 {
        vstd::arithmetic::div_mod::lemma_div_pos_is_pos(100 - 2 * n_below, 200);
        vstd::arithmetic::div_mod::lemma_div_pos_is_pos(2 * n_above + 100, 200);
    } else {
        vstd::arithmetic::div_mod::lemma_div_is_ordered(2 * n_below + 100, 2 * n_above + 100, 200);
    }
}

} // verus!
