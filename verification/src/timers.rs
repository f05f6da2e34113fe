use vstd::prelude::*;

verus! {

/// The timer unit as a value.
pub struct TimersView {
    /// The delay timer.
    pub delay: u8,
    /// The sound timer.
    pub sound: u8,
    /// Whether the latest tick was the one on which the sound timer went
    /// from one to zero.
    pub sound_active: bool,
}

impl TimersView {
    /// Both timers zero and no sound.
    pub open spec fn zeroed() -> TimersView {
        TimersView { delay: 0, sound: 0, sound_active: false }
    }

    /// One tick: each timer that is above zero goes down by one, and the
    /// sound flag says whether the sound timer was exactly one.
    pub open spec fn tick(self) -> TimersView {
        TimersView {
            delay: if self.delay > 0 {
                (self.delay - 1) as u8
            } else {
                0
            },
            sound: if self.sound > 0 {
                (self.sound - 1) as u8
            } else {
                0
            },
            sound_active: self.sound == 1,
        }
    }

    /// The timers after `n` ticks in a row.
    pub open spec fn tick_n(self, n: nat) -> TimersView
        decreases n,
    {
        if n == 0 {
            self
        } else {
            self.tick().tick_n((n - 1) as nat)
        }
    }
}

/// A timer never goes below zero: after `n` ticks it has gone down by `n`,
/// or has stopped at zero if it started below `n`.
pub proof fn lemma_timers_floor_at_zero(timers: TimersView, n: nat)
    ensures
        timers.tick_n(n).delay == if timers.delay >= n {
            timers.delay - n
        } else {
            0
        },
        timers.tick_n(n).sound == if timers.sound >= n {
            timers.sound - n
        } else {
            0
        },
        n > 0 ==> timers.tick_n(n).sound_active == (timers.sound == n),
    decreases n,
{
    if n > 0 {
        lemma_timers_floor_at_zero(timers.tick(), (n - 1) as nat);
    }
}

/// The delay timer, the sound timer and the sound flag.
pub struct Timers {
    delay: u8,
    sound: u8,
    sound_active: bool,
}

impl View for Timers {
    type V = TimersView;

    closed spec fn view(&self) -> TimersView {
        TimersView { delay: self.delay, sound: self.sound, sound_active: self.sound_active }
    }
}

impl Timers {
    /// Timers at zero, with no sound.
    pub fn new() -> (timers: Timers)
        ensures
            timers@ == TimersView::zeroed(),
    {
        Timers { delay: 0, sound: 0, sound_active: false }
    }

    /// Advances both timers by one tick and recomputes the sound flag.
    pub fn tick(&mut self)
        ensures
            final(self)@ == old(self)@.tick(),
    {
        if self.delay > 0 {
            self.delay = self.delay - 1;
        }
        self.sound_active = false;
        if self.sound > 0 {
            if self.sound == 1 {
                self.sound_active = true;
            }
            self.sound = self.sound - 1;
        }
    }

    /// The value of the delay timer.
    pub fn delay(&self) -> (delay: u8)
        ensures
            delay == self@.delay,
    {
        self.delay
    }

    /// The value of the sound timer.
    pub fn sound(&self) -> (sound: u8)
        ensures
            sound == self@.sound,
    {
        self.sound
    }

    /// Whether the latest tick took the sound timer from one to zero.
    pub fn sound_active(&self) -> (active: bool)
        ensures
            active == self@.sound_active,
    {
        self.sound_active
    }

    /// Sets the delay timer to `value`.
    pub fn set_delay(&mut self, value: u8)
        ensures
            final(self)@ == (TimersView { delay: value, ..old(self)@ }),
    {
        self.delay = value;
    }

    /// Sets the sound timer to `value`.
    pub fn set_sound(&mut self, value: u8)
        ensures
            final(self)@ == (TimersView { sound: value, ..old(self)@ }),
    {
        self.sound = value;
    }
}

} // verus!
