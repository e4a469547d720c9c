//! The handler of one source: its timing state and the history of the
//! tokens it has reported.

use vstd::prelude::*;
use vstd::string::*;
use crate::classify::{classify, classify_spec, Category, EventCategory};
use crate::clock::{ClockModel, ClockState};
use crate::token::{delta_prefix, event_token, format_event, push_delta_prefix, quarter_marker};

verus! {

/// A handler as a mathematical value.
pub struct HandlerModel {
    /// The timing state.
    pub clock: ClockModel,
    /// Every token reported so far, oldest first.
    pub history: Seq<Seq<char>>,
}

/// The timing state after an event of category `category`.
pub open spec fn clock_after(clock: ClockModel, category: Category) -> ClockModel {
    match category {
        Category::TimingClock => clock.tick(),
        Category::Start => ClockModel::fresh(),
        Category::NoteOff { .. } | Category::NoteOn { .. } => clock.consume_delta(),
        _ => clock,
    }
}

/// The text that reports the message `m` to a handler whose timing state is
/// `clock`; empty where the message is not reported.
pub open spec fn message_token(clock: ClockModel, m: Seq<u8>) -> Seq<char> {
    event_token(classify_spec(m), clock.completes_quarter(), clock.delta)
}

impl HandlerModel {
    /// A handler that has seen nothing.
    pub open spec fn fresh() -> HandlerModel {
        HandlerModel { clock: ClockModel::fresh(), history: Seq::empty() }
    }

    /// The invariant: that of the timing state.
    pub open spec fn wf(self) -> bool {
        self.clock.wf()
    }

    /// What handling the message `m` returns: its token, or nothing where
    /// the message is not reported.
    pub open spec fn emitted(self, m: Seq<u8>) -> Option<Seq<char>> {
        let token = message_token(self.clock, m);
        if token.len() == 0 {
            None
        } else {
            Some(token)
        }
    }

    /// The handler after the message `m`: the timing state follows the
    /// message's category, and a reported token is added to the history.
    pub open spec fn step(self, m: Seq<u8>) -> HandlerModel {
        HandlerModel {
            clock: clock_after(self.clock, classify_spec(m)),
            history: match self.emitted(m) {
                Some(token) => self.history.push(token),
                None => self.history,
            },
        }
    }

    /// The handler after the messages `ms`, handled in order.
    pub open spec fn run(self, ms: Seq<Seq<u8>>) -> HandlerModel
        decreases ms.len(),
    {
        if ms.len() == 0 {
            self
        } else {
            self.run(ms.drop_last()).step(ms.last())
        }
    }
}

/// The text of an optional string.
pub open spec fn text_of(token: Option<String>) -> Option<Seq<char>> {
    match token {
        Some(s) => Some(s@),
        None => None,
    }
}

/// Decodes the messages of one source and keeps what it reported.
#[derive(Debug)]
pub struct MidiHandler {
    clock: ClockState,
    history: Vec<String>,
}

impl View for MidiHandler {
    type V = HandlerModel;

    closed spec fn view(&self) -> HandlerModel {
        HandlerModel { clock: self.clock@, history: self.history@.map_values(|s: String| s@) }
    }
}

impl MidiHandler {
    /// A handler that has seen nothing.
    pub fn new() -> (handler: MidiHandler)
        ensures
            handler@ == HandlerModel::fresh(),
    {
        let handler = MidiHandler { clock: ClockState::new(), history: Vec::new() };
        assert(handler@.history =~= Seq::empty());
        handler
    }

    /// Counts one timing-clock pulse. The pulse that completes a quarter
    /// note yields the quarter marker and restarts both counters.
    pub fn increment_clock(&mut self) -> (marker: Option<String>)
        ensures
            final(self)@.clock == old(self)@.clock.tick(),
            final(self)@.history == old(self)@.history,
            text_of(marker) == (if old(self)@.clock.completes_quarter() {
                Some(quarter_marker())
            } else {
                None
            }),
    {
        if self.clock.tick() {
            Some(format_event(&EventCategory::TimingClock, true, 0))
        } else {
            None
        }
    }

    /// Restarts both counters.
    pub fn reset_clock(&mut self)
        ensures
            final(self)@.clock == ClockModel::fresh(),
            final(self)@.history == old(self)@.history,
    {
        self.clock.reset();
    }

    /// The delta-time prefix for the pulses counted since the last reported
    /// note, empty where there were none. The count starts again.
    pub fn get_delta_time(&mut self) -> (prefix: String)
        ensures
            prefix@ == delta_prefix(old(self)@.clock.delta),
            final(self)@.clock == old(self)@.clock.consume_delta(),
            final(self)@.history == old(self)@.history,
    {
        let delta = self.clock.take_delta();
        let mut prefix = String::new();
        push_delta_prefix(&mut prefix, delta);
        assert(prefix@ =~= delta_prefix(delta as nat));
        prefix
    }

    /// Handles one raw message: classifies it, lets the timing state follow,
    /// and reports it. A reported token is appended to the history and
    /// returned; a message that is not reported changes nothing but, for a
    /// timing-clock pulse, the counters.
    pub fn handle_message(&mut self, message: &[u8]) -> (token: Option<String>)
        ensures
            final(self)@ == old(self)@.step(message@),
            text_of(token) == old(self)@.emitted(message@),
    {
        let ghost before = self@;
        let category = classify(message);
        let output = match category {
            EventCategory::TimingClock => match self.increment_clock() {
                Some(marker) => marker,
                None => String::new(),
            },
            EventCategory::Start => {
                self.reset_clock();
                format_event(&category, false, 0)
            },
            EventCategory::NoteOff { .. } | EventCategory::NoteOn { .. } => {
                let mut text = self.get_delta_time();
                let note = format_event(&category, false, 0);
                text.append(note.as_str());
                text
            },
            _ => format_event(&category, false, 0),
        };
        assert(output@ =~= message_token(before.clock, message@));
        assert(self@.clock == clock_after(before.clock, classify_spec(message@)));
        assert(self@.history == before.history);
        if output.as_str().is_empty() {
            None
        } else {
            self.history.push(output.clone());
            assert(self@.history =~= before.history.push(output@));
            Some(output)
        }
    }

    /// Every token reported so far, oldest first.
    pub fn history(&self) -> (tokens: &Vec<String>)
        ensures
            tokens@.map_values(|s: String| s@) == self@.history,
    {
        &self.history
    }

    /// Pulses counted since the last quarter-note boundary: fewer than one
    /// quarter note, and no fewer than those counted towards the next note.
    pub fn pulse_count(&self) -> (pulses: u32)
        ensures
            self@.wf(),
            pulses == self@.clock.pulse,
    {
        self.clock.pulse_count()
    }

    /// Pulses counted since the last reported note.
    pub fn delta_pulse_count(&self) -> (pulses: u32)
        ensures
            self@.wf(),
            pulses == self@.clock.delta,
    {
        self.clock.delta_pulse_count()
    }
}

} // verus!
