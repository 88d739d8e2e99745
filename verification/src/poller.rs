//! The decisions of the input poller.
//!
//! The poller runs beside the session and feeds it key presses and ticks.
//! Reading the keyboard and the clock is left to the caller; this module
//! decides from plain numbers how long a read may block and when a tick is
//! due. Times are in milliseconds.

use vstd::prelude::*;

verus! {

/// What the poller knows between two rounds.
pub struct PollerView {
    /// The time from one tick to the next.
    pub tick_rate: nat,
    /// Whether keys may be read; false while the session has asked the
    /// poller to keep off the keyboard.
    pub input_enabled: bool,
}

impl PollerView {
    /// How long a key read may block when `elapsed` has gone by since the
    /// last tick: the rest of the tick interval, and no read at all while
    /// input is suspended.
    pub open spec fn key_timeout(self, elapsed: nat) -> Option<nat> {
        if !self.input_enabled {
            None
        } else if elapsed < self.tick_rate {
            Some((self.tick_rate - elapsed) as nat)
        } else {
            Some(0)
        }
    }

    /// Whether a tick is to be sent when `elapsed` has gone by since the
    /// last one.
    pub open spec fn tick_due(self, elapsed: nat) -> bool {
        elapsed >= self.tick_rate
    }
}

pub struct Poller {
    tick_rate: u64,
    input_enabled: bool,
}

impl View for Poller {
    type V = PollerView;

    closed spec fn view(&self) -> PollerView {
        PollerView { tick_rate: self.tick_rate as nat, input_enabled: self.input_enabled }
    }
}

impl Poller {
    /// A poller that ticks every `tick_rate` milliseconds and reads keys.
    pub fn new(tick_rate: u64) -> (poller: Poller)
        ensures
            poller@ == (PollerView { tick_rate: tick_rate as nat, input_enabled: true }),
    {
        Poller { tick_rate, input_enabled: true }
    }

    pub fn tick_rate(&self) -> (rate: u64)
        ensures
            rate == self@.tick_rate,
    {
        self.tick_rate
    }

    pub fn input_enabled(&self) -> (enabled: bool)
        ensures
            enabled == self@.input_enabled,
    {
        self.input_enabled
    }

    /// Takes a message from the control channel: `true` suspends the
    /// reading of keys, `false` resumes it. Nothing else changes whether
    /// keys are read.
    pub fn control(&mut self, suspend: bool)
        ensures
            final(self)@ == (PollerView { input_enabled: !suspend, ..old(self)@ }),
    {
        self.input_enabled = !suspend;
    }

    /// How long the next key read may block, or `None` where no key is to
    /// be read.
    pub fn key_timeout(&self, elapsed: u64) -> (timeout: Option<u64>)
        ensures
            match timeout {
                Some(t) => self@.key_timeout(elapsed as nat) == Some(t as nat),
                None => self@.key_timeout(elapsed as nat) is None,
            },
    {
        if !self.input_enabled {
            None
        } else if elapsed < self.tick_rate {
            Some(self.tick_rate - elapsed)
        } else {
            Some(0)
        }
    }

    /// Whether a tick is due.
    pub fn tick_due(&self, elapsed: u64) -> (due: bool)
        ensures
            due == self@.tick_due(elapsed as nat),
    {
        elapsed >= self.tick_rate
    }
}

/// While input is suspended no key is read, whatever the clock says.
pub proof fn lemma_suspended_reads_no_key(poller: PollerView, elapsed: nat)
    requires
        !poller.input_enabled,
    ensures
        poller.key_timeout(elapsed) is None,
{
}

/// A key read never blocks past the moment the next tick is due.
pub proof fn lemma_read_ends_by_next_tick(poller: PollerView, elapsed: nat)
    requires
        poller.input_enabled,
    ensures
        poller.key_timeout(elapsed) matches Some(t) && poller.tick_due(elapsed + t) && (t > 0
            ==> elapsed + t == poller.tick_rate),
{
}

} // verus!
