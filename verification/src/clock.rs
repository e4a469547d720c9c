//! Timing state of one source.
//!
//! A MIDI clock sends 24 pulses per quarter note. Two counters follow the
//! pulses: one since the last quarter-note boundary, one since the last note
//! that was reported. A boundary restarts both counters, so the second never
//! runs ahead of the first.

use vstd::prelude::*;

verus! {

/// Number of timing-clock pulses in one quarter note.
pub const PULSES_PER_QUARTER: u32 = 24;

/// The timing state as a mathematical value.
pub struct ClockModel {
    /// Pulses since the last quarter-note boundary.
    pub pulse: nat,
    /// Pulses since the last reported note.
    pub delta: nat,
}

impl ClockModel {
    /// The state before any pulse.
    pub open spec fn fresh() -> ClockModel {
        ClockModel { pulse: 0, delta: 0 }
    }

    /// Both counters stay inside one quarter note, and no more pulses are
    /// counted towards the next note than towards the next boundary.
    pub open spec fn wf(self) -> bool {
        self.delta <= self.pulse < PULSES_PER_QUARTER
    }

    /// Whether the next pulse completes a quarter note.
    pub open spec fn completes_quarter(self) -> bool {
        self.pulse + 1 >= PULSES_PER_QUARTER
    }

    /// The state after one pulse.
    pub open spec fn tick(self) -> ClockModel {
        if self.completes_quarter() {
            ClockModel::fresh()
        } else {
            ClockModel { pulse: self.pulse + 1, delta: self.delta + 1 }
        }
    }

    /// The state after the pulses counted towards the next note were reported.
    pub open spec fn consume_delta(self) -> ClockModel {
        ClockModel { pulse: self.pulse, delta: 0 }
    }
}

/// Timing state of one source.
#[derive(Debug)]
pub struct ClockState {
    pulse_count: u32,
    delta_pulse_count: u32,
}

impl View for ClockState {
    type V = ClockModel;

    closed spec fn view(&self) -> ClockModel {
        ClockModel { pulse: self.pulse_count as nat, delta: self.delta_pulse_count as nat }
    }
}

impl ClockState {
    /// Every state that exists keeps both counters inside one quarter note.
    #[verifier::type_invariant]
    closed spec fn inv(&self) -> bool {
        self@.wf()
    }

    /// A state in which no pulse has been counted.
    pub fn new() -> (state: ClockState)
        ensures
            state@ == ClockModel::fresh(),
    {
        ClockState { pulse_count: 0, delta_pulse_count: 0 }
    }

    /// Pulses since the last quarter-note boundary: fewer than one quarter
    /// note, and no fewer than those counted towards the next note.
    pub fn pulse_count(&self) -> (pulses: u32)
        ensures
            pulses == self@.pulse,
            self@.wf(),
    {
        proof {
            use_type_invariant(self);
        }
        self.pulse_count
    }

    /// Pulses since the last reported note.
    pub fn delta_pulse_count(&self) -> (pulses: u32)
        ensures
            pulses == self@.delta,
            self@.wf(),
    {
        proof {
            use_type_invariant(self);
        }
        self.delta_pulse_count
    }

    /// Counts one pulse and says whether it completed a quarter note.
    pub fn tick(&mut self) -> (quarter: bool)
        ensures
            final(self)@ == old(self)@.tick(),
            quarter == old(self)@.completes_quarter(),
    {
        proof {
            use_type_invariant(&*self);
        }
        if self.pulse_count + 1 >= PULSES_PER_QUARTER {
            self.delta_pulse_count = 0;
            self.pulse_count = 0;
            true
        } else {
            self.pulse_count += 1;
            self.delta_pulse_count += 1;
            false
        }
    }

    /// Forgets every pulse counted so far.
    pub fn reset(&mut self)
        ensures
            final(self)@ == ClockModel::fresh(),
    {
        proof {
            use_type_invariant(&*self);
        }
        self.delta_pulse_count = 0;
        self.pulse_count = 0;
    }

    /// Hands out the pulses counted towards the next note and starts that
    /// count again.
    pub fn take_delta(&mut self) -> (pulses: u32)
        ensures
            pulses == old(self)@.delta,
            final(self)@ == old(self)@.consume_delta(),
    {
        proof {
            use_type_invariant(&*self);
        }
        let pulses = self.delta_pulse_count;
        self.delta_pulse_count = 0;
        pulses
    }
}

} // verus!
