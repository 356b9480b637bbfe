//! The delay timer and the sound timer, which count down sixty times a
//! second.

use vstd::prelude::*;

verus! {

/// How many times a second a timer that is not zero is decremented.
pub const DECAY_RATE_HZ: u32 = 60;

/// A timer value one tick later: one less, and zero stays zero.
pub open spec fn decremented(value: u8) -> u8 {
    if value > 0 {
        (value - 1) as u8
    } else {
        0
    }
}

/// A timer value `ticks` ticks later.
pub open spec fn decayed(value: u8, ticks: nat) -> u8
    decreases ticks,
{
    if ticks == 0 {
        value
    } else {
        decremented(decayed(value, (ticks - 1) as nat))
    }
}

/// One tick of a timer's decay, which comes sixty times a second: a value
/// above zero loses one. Returns whether there was anything to decrement;
/// after `false` the decay rests until the timer is written again.
pub fn decrement60hz(value: &mut u8) -> (running: bool)
    ensures
        *final(value) == decremented(*old(value)),
        running == (*old(value) > 0),
{
    if *value > 0 {
        *value -= 1;
        true
    } else {
        false
    }
}

/// After `ticks` ticks a timer has lost `ticks`, or all it had.
pub proof fn lemma_decayed_value(value: u8, ticks: nat)
    ensures
        decayed(value, ticks) == if ticks >= value {
            0
        } else {
            value - ticks
        },
    decreases ticks,
{
    if ticks > 0 {
        lemma_decayed_value(value, (ticks - 1) as nat);
    }
}

/// A timer never rises while it decays, and never passes below zero: each
/// tick leaves it where it was or one lower.
pub proof fn lemma_decay_never_rises(value: u8, ticks: nat)
    ensures
        0 <= decayed(value, ticks + 1) <= decayed(value, ticks) <= value,
        decayed(value, ticks) - decayed(value, ticks + 1) <= 1,
{
    lemma_decayed_value(value, ticks);
    lemma_decayed_value(value, ticks + 1);
}

/// A timer reaches zero after exactly as many ticks as it was set to: set to
/// 60, it is zero one second later and not before.
pub proof fn lemma_decay_reaches_zero(value: u8, ticks: nat)
    ensures
        decayed(value, ticks) == 0 <==> ticks >= value,
{
    lemma_decayed_value(value, ticks);
}

/// The sound timer: a tone is due while it is above zero.
#[derive(Debug)]
pub struct SoundTimer {
    value: u8,
}

impl View for SoundTimer {
    type V = u8;

    closed spec fn view(&self) -> u8 {
        self.value
    }
}

impl SoundTimer {
    /// A timer at zero.
    pub fn new() -> (timer: Self)
        ensures
            timer@ == 0,
    {
        Self { value: 0 }
    }

    /// Sets the timer. From a value above zero it decays, tick by tick, until
    /// it is zero or is set again.
    pub fn write(&mut self, value: u8)
        ensures
            final(self)@ == value,
    {
        self.value = value;
    }

    /// The value of the timer.
    pub fn read(&self) -> (value: u8)
        ensures
            value == self@,
    {
        self.value
    }

    /// One tick of decay. Returns whether there was anything to decrement.
    pub fn tick(&mut self) -> (running: bool)
        ensures
            final(self)@ == decremented(old(self)@),
            running == (old(self)@ > 0),
    {
        decrement60hz(&mut self.value)
    }
}

/// The delay timer, which programs set and read to measure time.
#[derive(Debug)]
pub struct DelayTimer {
    value: u8,
}

impl View for DelayTimer {
    type V = u8;

    closed spec fn view(&self) -> u8 {
        self.value
    }
}

impl DelayTimer {
    /// A timer at zero.
    pub fn new() -> (timer: Self)
        ensures
            timer@ == 0,
    {
        Self { value: 0 }
    }

    /// Sets the timer. From a value above zero it decays, tick by tick, until
    /// it is zero or is set again.
    pub fn write(&mut self, value: u8)
        ensures
            final(self)@ == value,
    {
        self.value = value;
    }

    /// The value of the timer.
    pub fn read(&self) -> (value: u8)
        ensures
            value == self@,
    {
        self.value
    }

    /// One tick of decay. Returns whether there was anything to decrement.
    pub fn tick(&mut self) -> (running: bool)
        ensures
            final(self)@ == decremented(old(self)@),
            running == (old(self)@ > 0),
    {
        decrement60hz(&mut self.value)
    }
}

} // verus!
