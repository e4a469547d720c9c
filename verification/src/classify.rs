//! Classification of one raw MIDI message into its event category.
//!
//! The leading byte of a message is read as a status byte. Several patterns
//! overlap (a lone `0xF8` is both a timing clock and a system byte), so the
//! patterns are tried in a fixed order and the first one that fits decides.

use vstd::prelude::*;
use vstd::slice::*;

verus! {

/// Status byte of a system-exclusive message.
pub const STATUS_SYSEX: u8 = 0xF0;

/// Status byte of a timing-clock pulse.
pub const STATUS_TIMING_CLOCK: u8 = 0xF8;

/// Status byte of a sequence start.
pub const STATUS_START: u8 = 0xFA;

/// Status byte of a sequence end.
pub const STATUS_END: u8 = 0xFC;

/// Mask that keeps the message class of a status byte and drops the channel.
pub const CLASS_MASK: u8 = 0xF0;

/// Class of note-off messages.
pub const CLASS_NOTE_OFF: u8 = 0x80;

/// Class of note-on messages.
pub const CLASS_NOTE_ON: u8 = 0x90;

/// Class of control-change messages.
pub const CLASS_CONTROL_CHANGE: u8 = 0xB0;

/// Class of system messages.
pub const CLASS_SYSTEM: u8 = 0xF0;

/// What a raw message is, as a mathematical value.
pub enum Category {
    Empty,
    SysEx,
    ControlChange,
    TimingClock,
    Start,
    End,
    OtherRealtime,
    NoteOff { note: u8 },
    NoteOn { note: u8, velocity: u8 },
    Raw { bytes: Seq<u8> },
}

/// What a raw message is.
#[derive(Debug, PartialEq, Eq)]
pub enum EventCategory {
    /// No bytes at all.
    Empty,
    /// A system-exclusive message.
    SysEx,
    /// A control change, on any channel.
    ControlChange,
    /// One timing-clock pulse.
    TimingClock,
    /// Start of a sequence.
    Start,
    /// End of a sequence.
    End,
    /// Any other system message, such as active sensing.
    OtherRealtime,
    /// A key was released.
    NoteOff { note: u8 },
    /// A key was pressed.
    NoteOn { note: u8, velocity: u8 },
    /// A message of no known shape, kept byte for byte.
    Raw { bytes: Vec<u8> },
}

impl View for EventCategory {
    type V = Category;

    open spec fn view(&self) -> Category {
        match *self {
            EventCategory::Empty => Category::Empty,
            EventCategory::SysEx => Category::SysEx,
            EventCategory::ControlChange => Category::ControlChange,
            EventCategory::TimingClock => Category::TimingClock,
            EventCategory::Start => Category::Start,
            EventCategory::End => Category::End,
            EventCategory::OtherRealtime => Category::OtherRealtime,
            EventCategory::NoteOff { note } => Category::NoteOff { note },
            EventCategory::NoteOn { note, velocity } => Category::NoteOn { note, velocity },
            EventCategory::Raw { bytes } => Category::Raw { bytes: bytes@ },
        }
    }
}

impl Category {
    /// Position of the category's pattern in the order of trial: a lower
    /// rank is tried earlier.
    pub open spec fn rank(self) -> nat {
        match self {
            Category::Empty => 0,
            Category::SysEx => 1,
            Category::ControlChange => 2,
            Category::TimingClock => 3,
            Category::Start => 4,
            Category::End => 5,
            Category::OtherRealtime => 6,
            Category::NoteOff { .. } => 7,
            Category::NoteOn { .. } => 8,
            Category::Raw { .. } => 9,
        }
    }

    /// A terminal category is dropped: it yields no token and leaves every
    /// state as it was.
    pub open spec fn is_terminal(self) -> bool {
        self is Empty || self is SysEx || self is ControlChange || self is OtherRealtime
    }
}

/// The message class of a status byte: the byte without its channel.
pub open spec fn status_class(status: u8) -> u8 {
    status & CLASS_MASK
}

/// A message of exactly one byte, that byte being `status`.
pub open spec fn is_single(m: Seq<u8>, status: u8) -> bool {
    m.len() == 1 && m[0] == status
}

/// Whether the pattern tried at position `rank` fits `m`, whatever the
/// patterns tried before it say.
pub open spec fn pattern_fits(rank: nat, m: Seq<u8>) -> bool {
    if rank == 0 {
        m.len() == 0
    } else if rank == 1 {
        m.len() > 0 && m[0] == STATUS_SYSEX
    } else if rank == 2 {
        m.len() > 0 && status_class(m[0]) == CLASS_CONTROL_CHANGE
    } else if rank == 3 {
        is_single(m, STATUS_TIMING_CLOCK)
    } else if rank == 4 {
        is_single(m, STATUS_START)
    } else if rank == 5 {
        is_single(m, STATUS_END)
    } else if rank == 6 {
        m.len() > 0 && status_class(m[0]) == CLASS_SYSTEM
    } else if rank == 7 {
        m.len() == 3 && (status_class(m[0]) == CLASS_NOTE_OFF || (status_class(m[0])
            == CLASS_NOTE_ON && m[2] == 0))
    } else if rank == 8 {
        m.len() == 3 && status_class(m[0]) == CLASS_NOTE_ON
    } else {
        rank == 9
    }
}

/// The pattern at position `rank` decides `m`: it fits, and none tried
/// before it does.
pub open spec fn pattern_decides(rank: nat, m: Seq<u8>) -> bool {
    pattern_fits(rank, m) && forall|earlier: nat| earlier < rank ==> !#[trigger] pattern_fits(
        earlier,
        m,
    )
}

/// The category of the raw message `m`.
pub open spec fn classify_spec(m: Seq<u8>) -> Category {
    if m.len() == 0 {
        Category::Empty
    } else if m[0] == STATUS_SYSEX {
        Category::SysEx
    } else if status_class(m[0]) == CLASS_CONTROL_CHANGE {
        Category::ControlChange
    } else if is_single(m, STATUS_TIMING_CLOCK) {
        Category::TimingClock
    } else if is_single(m, STATUS_START) {
        Category::Start
    } else if is_single(m, STATUS_END) {
        Category::End
    } else if status_class(m[0]) == CLASS_SYSTEM {
        Category::OtherRealtime
    } else if m.len() == 3 && (status_class(m[0]) == CLASS_NOTE_OFF || (status_class(m[0])
        == CLASS_NOTE_ON && m[2] == 0)) {
        Category::NoteOff { note: m[1] }
    } else if m.len() == 3 && status_class(m[0]) == CLASS_NOTE_ON {
        Category::NoteOn { note: m[1], velocity: m[2] }
    } else {
        Category::Raw { bytes: m }
    }
}

/// Copies a slice into a vector.
fn copy_bytes(message: &[u8]) -> (bytes: Vec<u8>)
    ensures
        bytes@ == message@,
{
    let mut bytes: Vec<u8> = Vec::new();
    let mut i: usize = 0;
    while i < message.len()
        invariant
            i <= message@.len(),
            bytes@ == message@.take(i as int),
        decreases message@.len() - i,
    {
        bytes.push(message[i]);
        i += 1;
        assert(bytes@ =~= message@.take(i as int));
    }
    assert(bytes@ =~= message@);
    bytes
}

/// Classifies one raw message. Every byte sequence has a category; nothing
/// but the message is read.
pub fn classify(message: &[u8]) -> (category: EventCategory)
    ensures
        category@ == classify_spec(message@),
{
    let len = message.len();
    if len == 0 {
        return EventCategory::Empty;
    }
    let status = message[0];
    let class = status & CLASS_MASK;
    if status == STATUS_SYSEX {
        EventCategory::SysEx
    } else if class == CLASS_CONTROL_CHANGE {
        EventCategory::ControlChange
    } else if len == 1 && status == STATUS_TIMING_CLOCK {
        EventCategory::TimingClock
    } else if len == 1 && status == STATUS_START {
        EventCategory::Start
    } else if len == 1 && status == STATUS_END {
        EventCategory::End
    } else if class == CLASS_SYSTEM {
        EventCategory::OtherRealtime
    } else if len == 3 && (class == CLASS_NOTE_OFF || (class == CLASS_NOTE_ON && message[2] == 0)) {
        EventCategory::NoteOff { note: message[1] }
    } else if len == 3 && class == CLASS_NOTE_ON {
        EventCategory::NoteOn { note: message[1], velocity: message[2] }
    } else {
        EventCategory::Raw { bytes: copy_bytes(message) }
    }
}

/// Whether `message` is a single timing-clock pulse.
pub fn is_timing_clock(message: &[u8]) -> (pulse: bool)
    ensures
        pulse == (classify_spec(message@) is TimingClock),
        pulse == is_single(message@, STATUS_TIMING_CLOCK),
{
    proof {
        lemma_single_realtime_classes();
    }
    message.len() == 1 && message[0] == STATUS_TIMING_CLOCK
}

/// The three single-byte messages that are acted on are system bytes, and
/// none of them is a system-exclusive or control-change status.
pub proof fn lemma_single_realtime_classes()
    ensures
        status_class(STATUS_TIMING_CLOCK) == CLASS_SYSTEM,
        status_class(STATUS_START) == CLASS_SYSTEM,
        status_class(STATUS_END) == CLASS_SYSTEM,
        CLASS_SYSTEM != CLASS_CONTROL_CHANGE,
{
    assert(0xF8u8 & 0xF0u8 == 0xF0u8) by (bit_vector);
    assert(0xFAu8 & 0xF0u8 == 0xF0u8) by (bit_vector);
    assert(0xFCu8 & 0xF0u8 == 0xF0u8) by (bit_vector);
}

/// Classification is total and unambiguous: of the ten patterns exactly one
/// decides any given message, and it is the one whose category the message
/// gets.
pub proof fn lemma_exactly_one_pattern_decides(m: Seq<u8>)
    ensures
        pattern_decides(classify_spec(m).rank(), m),
        forall|rank: nat| #[trigger]
            pattern_decides(rank, m) ==> rank == classify_spec(m).rank(),
{
    let r = classify_spec(m).rank();
    assert(pattern_fits(r, m));
    assert forall|earlier: nat| earlier < r implies !#[trigger] pattern_fits(earlier, m) by {}
    assert forall|rank: nat| #[trigger] pattern_decides(rank, m) implies rank == r by {
        if rank < r {
            assert(!pattern_fits(rank, m));
        } else if rank > r {
            assert(pattern_fits(r, m));
        }
    }
}

} // verus!
