//! The delay and sound timers: two 8-bit countdowns, each decremented once
//! per external 60 Hz tick and floored at zero. Playing a tone while the
//! sound timer runs is up to the host, which reads it with `get_sound`.

use vstd::prelude::*;

verus! {

/// The two countdown values.
pub struct TimersModel {
    pub delay: u8,
    pub sound: u8,
}

/// One countdown step: down by one, never below zero.
pub open spec fn count_down(t: u8) -> u8 {
    if t > 0 {
        (t - 1) as u8
    } else {
        0
    }
}

/// The value of a countdown that started at `t` after `n` steps.
pub open spec fn count_down_n(t: u8, n: nat) -> u8
    decreases n,
{
    if n == 0 {
        t
    } else {
        count_down(count_down_n(t, (n - 1) as nat))
    }
}

/// A countdown that starts at `t` stands at `max(t - n, 0)` after `n`
/// steps: it reaches zero after exactly `t` steps and never goes below.
pub proof fn lemma_count_down_n(t: u8, n: nat)
    ensures
        count_down_n(t, n) == if n <= t {
            t - n
        } else {
            0
        },
    decreases n,
{
    if n > 0 {
        lemma_count_down_n(t, (n - 1) as nat);
    }
}

pub struct Timers {
    delay_timer: u8,
    sound_timer: u8,
}

impl View for Timers {
    type V = TimersModel;

    closed spec fn view(&self) -> TimersModel {
        TimersModel { delay: self.delay_timer, sound: self.sound_timer }
    }
}

impl Timers {
    /// Both timers at zero.
    pub fn new() -> (r: Self)
        ensures
            r@ == (TimersModel { delay: 0, sound: 0 }),
    {
        Self { delay_timer: 0, sound_timer: 0 }
    }

    /// One external tick: each timer that is above zero goes down by one.
    pub fn tick(&mut self)
        ensures
            final(self)@ == (TimersModel {
                delay: count_down(old(self)@.delay),
                sound: count_down(old(self)@.sound),
            }),
    {
        if self.delay_timer > 0 {
            self.delay_timer -= 1;
        }
        if self.sound_timer > 0 {
            self.sound_timer -= 1;
        }
    }

    pub fn get_delay(&self) -> (r: u8)
        ensures
            r == self@.delay,
    {
        self.delay_timer
    }

    pub fn set_delay(&mut self, value: u8)
        ensures
            final(self)@ == (TimersModel { delay: value, ..old(self)@ }),
    {
        self.delay_timer = value;
    }

    /// The sound timer's value; a tone sounds while it is above zero.
    pub fn get_sound(&self) -> (r: u8)
        ensures
            r == self@.sound,
    {
        self.sound_timer
    }

    pub fn set_sound(&mut self, value: u8)
        ensures
            final(self)@ == (TimersModel { sound: value, ..old(self)@ }),
    {
        self.sound_timer = value;
    }
}

} // verus!
