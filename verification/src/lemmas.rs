//! What holds of handlers over whole sequences of messages.

use vstd::prelude::*;
use crate::classify::{
    classify_spec,
    lemma_single_realtime_classes,
    status_class,
    Category,
    CLASS_CONTROL_CHANGE,
    CLASS_NOTE_OFF,
    CLASS_NOTE_ON,
    CLASS_SYSTEM,
    STATUS_END,
    STATUS_START,
    STATUS_SYSEX,
    STATUS_TIMING_CLOCK,
};
use crate::clock::{ClockModel, PULSES_PER_QUARTER};
use crate::handler::{message_token, HandlerModel};
use crate::token::{
    delta_prefix,
    end_marker,
    note_off_token,
    note_on_token,
    quarter_marker,
    raw_token,
    start_marker,
};

verus! {

/// The message of one timing-clock pulse.
pub open spec fn pulse_message() -> Seq<u8> {
    seq![STATUS_TIMING_CLOCK]
}

/// The message that starts a sequence.
pub open spec fn start_message() -> Seq<u8> {
    seq![STATUS_START]
}

/// The message that ends a sequence.
pub open spec fn end_message() -> Seq<u8> {
    seq![STATUS_END]
}

/// `n` timing-clock pulses in a row.
pub open spec fn pulses(n: nat) -> Seq<Seq<u8>> {
    Seq::new(n, |i: int| pulse_message())
}

/// `n` quarter markers in a row.
pub open spec fn quarter_markers(n: nat) -> Seq<Seq<char>> {
    Seq::new(n, |i: int| quarter_marker())
}

/// The three single-byte messages that are acted on get their own
/// categories.
pub proof fn lemma_single_byte_categories()
    ensures
        classify_spec(pulse_message()) == Category::TimingClock,
        classify_spec(start_message()) == Category::Start,
        classify_spec(end_message()) == Category::End,
{
    lemma_single_realtime_classes();
    assert(0xB0u8 != 0xF0u8);
}

/// A message of a terminal category changes nothing: the timing state and
/// the history stay as they were, and nothing is returned.
pub proof fn lemma_terminal_changes_nothing(s: HandlerModel, m: Seq<u8>)
    requires
        classify_spec(m).is_terminal(),
    ensures
        s.step(m) == s,
        s.emitted(m) is None,
{
}

/// The messages that are dropped: the empty message, every message that
/// starts with the system-exclusive status, every control change, and every
/// other system message but the lone pulse, start and end bytes.
pub proof fn lemma_terminal_messages(m: Seq<u8>)
    ensures
        classify_spec(m).is_terminal() <==> {
            ||| m.len() == 0
            ||| m[0] == STATUS_SYSEX
            ||| status_class(m[0]) == CLASS_CONTROL_CHANGE
            ||| (status_class(m[0]) == CLASS_SYSTEM && m != pulse_message() && m != start_message()
                && m != end_message())
        },
{
    lemma_single_realtime_classes();
    if m.len() == 1 {
        assert(m =~= seq![m[0]]);
    }
    assert(pulse_message()[0] == STATUS_TIMING_CLOCK);
    assert(start_message()[0] == STATUS_START);
    assert(end_message()[0] == STATUS_END);
    assert(0x80u8 != 0xF0u8 && 0x90u8 != 0xF0u8);
}

/// The invariant of the timing state holds in every state that can be
/// reached, and the history only grows: a run of messages keeps what was
/// reported before it and adds at most one token for each message.
pub proof fn lemma_run_keeps_invariant(s: HandlerModel, ms: Seq<Seq<u8>>)
    requires
        s.wf(),
    ensures
        s.run(ms).wf(),
        s.history.len() <= s.run(ms).history.len() <= s.history.len() + ms.len(),
        s.run(ms).history.subrange(0, s.history.len() as int) == s.history,
    decreases ms.len(),
{
    if ms.len() > 0 {
        lemma_run_keeps_invariant(s, ms.drop_last());
        let t = s.run(ms.drop_last());
        assert(t.step(ms.last()).history.subrange(0, s.history.len() as int) =~= t.history.subrange(
            0,
            s.history.len() as int,
        ));
    } else {
        assert(s.history.subrange(0, s.history.len() as int) =~= s.history);
    }
}

/// Pulses are counted modulo the quarter note. After `n` pulses in a row the
/// pulse count is the old count plus `n`, reduced modulo 24; one quarter
/// marker has been reported for every 24 reached on the way; and the pulses
/// counted towards the next note are those since the last marker, or the old
/// ones plus `n` where no marker came.
pub proof fn lemma_pulses_accumulate(s: HandlerModel, n: nat)
    requires
        s.wf(),
    ensures
        s.run(pulses(n)).wf(),
        s.run(pulses(n)).clock.pulse == (s.clock.pulse + n) % (PULSES_PER_QUARTER as nat),
        s.run(pulses(n)).history == s.history + quarter_markers(
            (s.clock.pulse + n) / (PULSES_PER_QUARTER as nat),
        ),
        s.run(pulses(n)).clock.delta == (if s.clock.pulse + n < PULSES_PER_QUARTER {
            s.clock.delta + n
        } else {
            (s.clock.pulse + n) % (PULSES_PER_QUARTER as nat)
        }),
    decreases n,
{
    if n == 0 {
        assert(s.run(pulses(0)) == s);
        assert(s.history =~= s.history + quarter_markers(0));
    } else {
        let before = (n - 1) as nat;
        lemma_pulses_accumulate(s, before);
        lemma_single_byte_categories();
        assert(pulses(n).drop_last() =~= pulses(before));
        assert(pulses(n).last() == pulse_message());
        let t = s.run(pulses(before));
        assert(s.run(pulses(n)) == t.step(pulse_message()));
        let reached = s.clock.pulse + before;
        if t.clock.completes_quarter() {
            assert((reached + 1) / 24 == reached / 24 + 1);
            assert(quarter_markers(((reached + 1) / 24) as nat) =~= quarter_markers(
                (reached / 24) as nat,
            ).push(quarter_marker()));
            assert(t.step(pulse_message()).history =~= s.history + quarter_markers(
                ((reached + 1) / 24) as nat,
            ));
        } else {
            assert((reached + 1) / 24 == reached / 24);
        }
    }
}

/// One quarter note is 24 pulses. From a boundary, 24 pulses in a row
/// report exactly one quarter marker and lead back to a boundary; any fewer
/// report nothing.
pub proof fn lemma_quarter_cycle(s: HandlerModel, n: nat)
    requires
        s.wf(),
        s.clock.pulse == 0,
        n <= PULSES_PER_QUARTER,
    ensures
        n < PULSES_PER_QUARTER ==> s.run(pulses(n)).history == s.history && s.run(
            pulses(n),
        ).clock.pulse == n,
        n == PULSES_PER_QUARTER ==> s.run(pulses(n)).history == s.history.push(quarter_marker())
            && s.run(pulses(n)).clock == ClockModel::fresh(),
{
    lemma_pulses_accumulate(s, n);
    if n < 24 {
        assert(s.history + quarter_markers(0) =~= s.history);
    } else {
        assert(s.history + quarter_markers(1) =~= s.history.push(quarter_marker()));
    }
}

/// A start is a hard resynchronisation. Whatever was counted before, the
/// start message reports the start marker and clears both counters, so that
/// the next quarter marker comes with the 24th pulse after it and not
/// before.
pub proof fn lemma_start_resets_cycle(s: HandlerModel, n: nat)
    requires
        s.wf(),
        n <= PULSES_PER_QUARTER,
    ensures
        s.emitted(start_message()) == Some(start_marker()),
        s.step(start_message()).clock == ClockModel::fresh(),
        s.step(start_message()).history == s.history.push(start_marker()),
        n < PULSES_PER_QUARTER ==> s.step(start_message()).run(pulses(n)).history == s.history.push(
            start_marker(),
        ),
        n == PULSES_PER_QUARTER ==> s.step(start_message()).run(pulses(n)).history
            == s.history.push(start_marker()).push(quarter_marker()),
{
    lemma_single_byte_categories();
    lemma_quarter_cycle(s.step(start_message()), n);
}

/// An end message reports the end marker and leaves both counters alone.
pub proof fn lemma_end_keeps_clock(s: HandlerModel)
    ensures
        s.emitted(end_message()) == Some(end_marker()),
        s.step(end_message()).clock == s.clock,
        s.step(end_message()).history == s.history.push(end_marker()),
{
    lemma_single_byte_categories();
}

/// A note-on status with a velocity above zero is a note-on, on every
/// channel.
pub proof fn lemma_note_on_category(status: u8, note: u8, velocity: u8)
    requires
        status_class(status) == CLASS_NOTE_ON,
        velocity > 0,
    ensures
        classify_spec(seq![status, note, velocity]) == (Category::NoteOn { note, velocity }),
{
    assert(0xF0u8 & 0xF0u8 == 0xF0u8) by (bit_vector);
}

/// Releasing a key has two spellings: a note-off status with any velocity,
/// and a note-on status with velocity zero. Both are the same note-off,
/// and both are reported by the same token.
pub proof fn lemma_note_off_aliasing(
    off_status: u8,
    on_status: u8,
    note: u8,
    velocity: u8,
    clock: ClockModel,
)
    requires
        status_class(off_status) == CLASS_NOTE_OFF,
        status_class(on_status) == CLASS_NOTE_ON,
    ensures
        classify_spec(seq![off_status, note, velocity]) == (Category::NoteOff { note }),
        classify_spec(seq![on_status, note, 0u8]) == (Category::NoteOff { note }),
        message_token(clock, seq![off_status, note, velocity]) == delta_prefix(clock.delta)
            + note_off_token(note),
        message_token(clock, seq![on_status, note, 0u8]) == message_token(
            clock,
            seq![off_status, note, velocity],
        ),
{
    assert(0xF0u8 & 0xF0u8 == 0xF0u8) by (bit_vector);
}

/// A note carries the exact number of pulses since the note before it. The
/// token of a note starts with the delta-time prefix of the pulses counted
/// so far, and the count starts again: a second note right after the first
/// has no prefix.
pub proof fn lemma_note_consumes_delta(s: HandlerModel, m: Seq<u8>)
    requires
        classify_spec(m) is NoteOn || classify_spec(m) is NoteOff,
    ensures
        s.emitted(m) == Some(delta_prefix(s.clock.delta) + message_token(ClockModel::fresh(), m)),
        s.step(m).clock == s.clock.consume_delta(),
        s.step(m).emitted(m) == Some(message_token(ClockModel::fresh(), m)),
        s.step(m).step(m).history == s.history.push(
            delta_prefix(s.clock.delta) + message_token(ClockModel::fresh(), m),
        ).push(message_token(ClockModel::fresh(), m)),
{
    let bare = message_token(ClockModel::fresh(), m);
    assert(delta_prefix(0) + bare =~= bare);
    match classify_spec(m) {
        Category::NoteOn { note, velocity } => {
            assert(bare =~= note_on_token(note, velocity));
            assert(bare.len() > 0);
        },
        Category::NoteOff { note } => {
            assert(bare =~= note_off_token(note));
            assert(bare.len() > 0);
        },
        _ => {},
    }
    assert(message_token(s.clock, m) =~= delta_prefix(s.clock.delta) + bare);
    assert(message_token(s.step(m).clock, m) =~= bare);
}

/// Pulses between two notes show up in the second note's prefix: after `n`
/// pulses that stay inside the quarter note, a note is reported with the
/// prefix of the old count plus `n`.
pub proof fn lemma_delta_counts_pulses(s: HandlerModel, n: nat, m: Seq<u8>)
    requires
        s.wf(),
        s.clock.pulse + n < PULSES_PER_QUARTER,
        classify_spec(m) is NoteOn || classify_spec(m) is NoteOff,
    ensures
        s.run(pulses(n)).emitted(m) == Some(
            delta_prefix(s.clock.delta + n) + message_token(ClockModel::fresh(), m),
        ),
        s.run(pulses(n)).step(m).history == s.history.push(
            delta_prefix(s.clock.delta + n) + message_token(ClockModel::fresh(), m),
        ),
{
    lemma_pulses_accumulate(s, n);
    lemma_note_consumes_delta(s.run(pulses(n)), m);
    assert(s.history + quarter_markers(0) =~= s.history);
}

/// Nothing is swallowed. A message that fits no known shape is kept whole:
/// its category holds every byte, its token is the dump of those bytes, and
/// the timing state is left alone.
pub proof fn lemma_raw_keeps_message(s: HandlerModel, m: Seq<u8>)
    requires
        classify_spec(m) is Raw,
    ensures
        classify_spec(m) == (Category::Raw { bytes: m }),
        s.emitted(m) == Some(raw_token(m)),
        s.step(m).clock == s.clock,
        s.step(m).history == s.history.push(raw_token(m)),
{
    assert(raw_token(m).len() > 0);
}

} // verus!
