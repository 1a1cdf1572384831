//! The delay and sound timers.
//!
//! A timer is stored as the value last written and the clock reading at that
//! write. Its current value is computed on demand from the host's clock,
//! which counts milliseconds: the timer loses one unit per 60 Hz tick and
//! stops at zero.

use vstd::prelude::*;
use crate::cpu::CPU;
use crate::machine::Machine;

verus! {

/// Whole 60 Hz ticks that have passed between the clock readings `written`
/// and `now`; none if the clock reads earlier than at the write.
pub open spec fn ticks_between(written: u128, now: u128) -> int {
    if now >= written {
        (now - written) * 60 / 1000
    } else {
        0
    }
}

/// Value at clock reading `now` of a timer set to `base` at reading `written`.
pub open spec fn timer_value(base: u8, written: u128, now: u128) -> u8 {
    let ticks = ticks_between(written, now);
    if ticks >= base {
        0u8
    } else {
        (base - ticks) as u8
    }
}

impl Machine {
    /// The delay timer at clock reading `now`.
    pub open spec fn delay_at(self, now: u128) -> u8 {
        timer_value(self.delay_timer, self.last_dt_write, now)
    }

    /// The sound timer at clock reading `now`.
    pub open spec fn sound_at(self, now: u128) -> u8 {
        timer_value(self.sound_timer, self.last_st_write, now)
    }

    /// The delay timer set to `value` at clock reading `now`.
    pub open spec fn with_delay(self, value: u8, now: u128) -> Machine {
        Machine { delay_timer: value, last_dt_write: now, ..self }
    }

    /// The sound timer set to `value` at clock reading `now`.
    pub open spec fn with_sound(self, value: u8, now: u128) -> Machine {
        Machine { sound_timer: value, last_st_write: now, ..self }
    }
}

/// Computes the value at clock reading `now` of a timer set to `base` at
/// reading `written`.
pub fn timer_at(base: u8, written: u128, now: u128) -> (value: u8)
    ensures
        value == timer_value(base, written, now),
{
    if now <= written {
        return base;
    }
    let elapsed: u128 = now - written;
    if elapsed >= 4267 {
        // 256 ticks or more have passed: no byte outlasts them.
        return 0;
    }
    let ticks: u128 = elapsed * 60 / 1000;
    if ticks >= base as u128 {
        0
    } else {
        base - (ticks as u8)
    }
}

impl CPU {
    /// The delay timer at clock reading `now`.
    pub fn get_delay(&self, now: u128) -> (value: u8)
        ensures
            value == self@.delay_at(now),
    {
        timer_at(self.delay_timer, self.last_dt_write, now)
    }

    /// The sound timer at clock reading `now`. The speaker is to sound
    /// exactly while this is not zero.
    pub fn get_sound(&self, now: u128) -> (value: u8)
        ensures
            value == self@.sound_at(now),
    {
        timer_at(self.sound_timer, self.last_st_write, now)
    }

    /// Sets the delay timer to `value` at clock reading `now`.
    pub fn set_delay(&mut self, value: u8, now: u128)
        ensures
            final(self)@ == old(self)@.with_delay(value, now),
            final(self)@.delay_at(now) == value,
            old(self).wf() ==> final(self).wf(),
    {
        self.delay_timer = value;
        self.last_dt_write = now;
    }

    /// Sets the sound timer to `value` at clock reading `now`.
    pub fn set_sound(&mut self, value: u8, now: u128)
        ensures
            final(self)@ == old(self)@.with_sound(value, now),
            final(self)@.sound_at(now) == value,
            old(self).wf() ==> final(self).wf(),
    {
        self.sound_timer = value;
        self.last_st_write = now;
    }
}

} // verus!
