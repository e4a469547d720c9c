//! The textual tokens that describe observed events.
//!
//! Every token is a short run of ASCII characters that ends in one space, so
//! that tokens can be written one after another into a single stream.

use vstd::prelude::*;
use vstd::string::*;
use vstd::utf8::{encode_utf8, is_ascii_chars, is_ascii_chars_encode_utf8};
use crate::classify::{Category, EventCategory};
use crate::hex::{
    hex_byte,
    hex_padded,
    lemma_hex_is_ascii,
    push_hex_byte,
    push_hex_padded,
};

verus! {

/// Marks a quarter-note boundary: `Q `.
pub open spec fn quarter_marker() -> Seq<char> {
    seq!['Q', ' ']
}

/// Marks the start of a sequence: `Start `.
pub open spec fn start_marker() -> Seq<char> {
    seq!['S', 't', 'a', 'r', 't', ' ']
}

/// Marks the end of a sequence: `End `.
pub open spec fn end_marker() -> Seq<char> {
    seq!['E', 'n', 'd', ' ']
}

/// The pulses that went by since the last reported note: `P`, the count in
/// at least two hexadecimal digits, a space. Nothing at all for no pulse.
pub open spec fn delta_prefix(delta: nat) -> Seq<char> {
    if delta == 0 {
        Seq::empty()
    } else {
        seq!['P'] + hex_padded(delta) + seq![' ']
    }
}

/// A released key: `O`, the note number in two digits, a space.
pub open spec fn note_off_token(note: u8) -> Seq<char> {
    seq!['O'] + hex_byte(note) + seq![' ']
}

/// A pressed key: `N` and the note number, a space, `v` and the velocity, a
/// space.
pub open spec fn note_on_token(note: u8, velocity: u8) -> Seq<char> {
    seq!['N'] + hex_byte(note) + seq![' ', 'v'] + hex_byte(velocity) + seq![' ']
}

/// The digits of every byte of `bytes`, in order, two for each.
pub open spec fn hex_dump(bytes: Seq<u8>) -> Seq<char>
    decreases bytes.len(),
{
    if bytes.len() == 0 {
        Seq::empty()
    } else {
        hex_dump(bytes.drop_last()) + hex_byte(bytes.last())
    }
}

/// A message of no known shape: `M`, the digits of every byte, a space.
pub open spec fn raw_token(bytes: Seq<u8>) -> Seq<char> {
    seq!['M'] + hex_dump(bytes) + seq![' ']
}

/// The text that reports an event of category `category`, where `quarter`
/// says whether a pulse completed a quarter note and `delta` how many pulses
/// went by since the last reported note. The empty text stands for an event
/// that is not reported.
pub open spec fn event_token(category: Category, quarter: bool, delta: nat) -> Seq<char> {
    match category {
        Category::TimingClock => if quarter {
            quarter_marker()
        } else {
            Seq::empty()
        },
        Category::Start => start_marker(),
        Category::End => end_marker(),
        Category::NoteOff { note } => delta_prefix(delta) + note_off_token(note),
        Category::NoteOn { note, velocity } => delta_prefix(delta) + note_on_token(note, velocity),
        Category::Raw { bytes } => raw_token(bytes),
        _ => Seq::empty(),
    }
}

/// Appends the delta-time prefix for `delta` pulses to `out`.
pub fn push_delta_prefix(out: &mut String, delta: u32)
    ensures
        final(out)@ == old(out)@ + delta_prefix(delta as nat),
{
    if delta > 0 {
        proof {
            reveal_strlit("P");
            reveal_strlit(" ");
        }
        out.append("P");
        push_hex_padded(out, delta);
        out.append(" ");
    }
    assert(out@ =~= old(out)@ + delta_prefix(delta as nat));
}

/// Appends the note-off token for `note` to `out`.
pub fn push_note_off(out: &mut String, note: u8)
    ensures
        final(out)@ == old(out)@ + note_off_token(note),
{
    proof {
        reveal_strlit("O");
        reveal_strlit(" ");
    }
    out.append("O");
    push_hex_byte(out, note);
    out.append(" ");
    assert(out@ =~= old(out)@ + note_off_token(note));
}

/// Appends the note-on token for `note` and `velocity` to `out`.
pub fn push_note_on(out: &mut String, note: u8, velocity: u8)
    ensures
        final(out)@ == old(out)@ + note_on_token(note, velocity),
{
    proof {
        reveal_strlit("N");
        reveal_strlit(" v");
        reveal_strlit(" ");
    }
    out.append("N");
    push_hex_byte(out, note);
    out.append(" v");
    push_hex_byte(out, velocity);
    out.append(" ");
    assert(out@ =~= old(out)@ + note_on_token(note, velocity));
}

/// Appends the raw token for `bytes` to `out`.
pub fn push_raw(out: &mut String, bytes: &[u8])
    ensures
        final(out)@ == old(out)@ + raw_token(bytes@),
{
    proof {
        reveal_strlit("M");
        reveal_strlit(" ");
    }
    out.append("M");
    let mut i: usize = 0;
    while i < bytes.len()
        invariant
            i <= bytes@.len(),
            out@ == old(out)@ + seq!['M'] + hex_dump(bytes@.take(i as int)),
        decreases bytes@.len() - i,
    {
        push_hex_byte(out, bytes[i]);
        proof {
            let next = bytes@.take(i + 1);
            assert(next.drop_last() =~= bytes@.take(i as int));
            assert(next.last() == bytes@[i as int]);
            assert(out@ =~= old(out)@ + seq!['M'] + hex_dump(next));
        }
        i += 1;
    }
    out.append(" ");
    proof {
        assert(bytes@.take(bytes@.len() as int) =~= bytes@);
        assert(out@ =~= old(out)@ + raw_token(bytes@));
    }
}

/// Renders one event. The result is empty exactly for the events that are
/// not reported.
pub fn format_event(category: &EventCategory, quarter: bool, delta: u32) -> (token: String)
    ensures
        token@ == event_token(category@, quarter, delta as nat),
{
    let mut token = String::new();
    match category {
        EventCategory::TimingClock => {
            if quarter {
                proof {
                    reveal_strlit("Q ");
                }
                token.append("Q ");
                assert(token@ =~= quarter_marker());
            }
        },
        EventCategory::Start => {
            proof {
                reveal_strlit("Start ");
            }
            token.append("Start ");
            assert(token@ =~= start_marker());
        },
        EventCategory::End => {
            proof {
                reveal_strlit("End ");
            }
            token.append("End ");
            assert(token@ =~= end_marker());
        },
        EventCategory::NoteOff { note } => {
            push_delta_prefix(&mut token, delta);
            push_note_off(&mut token, *note);
            assert(token@ =~= delta_prefix(delta as nat) + note_off_token(*note));
        },
        EventCategory::NoteOn { note, velocity } => {
            push_delta_prefix(&mut token, delta);
            push_note_on(&mut token, *note, *velocity);
            assert(token@ =~= delta_prefix(delta as nat) + note_on_token(*note, *velocity));
        },
        EventCategory::Raw { bytes } => {
            push_raw(&mut token, bytes.as_slice());
            assert(token@ =~= raw_token(bytes@));
        },
        _ => {},
    }
    token
}

/// The hexadecimal dump of a message has two characters for every byte, and
/// the dump of a message that is extended by one byte is the old dump
/// extended by that byte's digits.
pub proof fn lemma_hex_dump_len(bytes: Seq<u8>)
    ensures
        hex_dump(bytes).len() == 2 * bytes.len(),
    decreases bytes.len(),
{
    if bytes.len() > 0 {
        lemma_hex_dump_len(bytes.drop_last());
    }
}

/// A raw token keeps every byte of its message: it is two characters, and
/// as many bytes, longer than twice the message, and the two digits of the
/// byte at position `i` stand at positions `2 * i + 1` and `2 * i + 2`.
pub proof fn lemma_raw_token_keeps_bytes(bytes: Seq<u8>)
    ensures
        raw_token(bytes).len() == 2 * bytes.len() + 2,
        encode_utf8(raw_token(bytes)).len() == 2 * bytes.len() + 2,
        raw_token(bytes)[0] == 'M',
        raw_token(bytes).last() == ' ',
        forall|i: int|
            0 <= i < bytes.len() ==> raw_token(bytes).subrange(2 * i + 1, 2 * i + 3) == hex_byte(
                #[trigger] bytes[i],
            ),
{
    lemma_hex_dump_len(bytes);
    lemma_event_token_is_ascii(Category::Raw { bytes }, false, 0);
    is_ascii_chars_encode_utf8(raw_token(bytes));
    assert forall|i: int| 0 <= i < bytes.len() implies raw_token(bytes).subrange(
        2 * i + 1,
        2 * i + 3,
    ) == hex_byte(#[trigger] bytes[i]) by {
        lemma_hex_dump_at(bytes, i);
        assert(raw_token(bytes).subrange(2 * i + 1, 2 * i + 3) =~= hex_dump(bytes).subrange(
            2 * i,
            2 * i + 2,
        ));
    }
}

/// The digits of the byte at position `i` stand at position `2 * i` of the
/// dump.
pub proof fn lemma_hex_dump_at(bytes: Seq<u8>, i: int)
    requires
        0 <= i < bytes.len(),
    ensures
        hex_dump(bytes).len() == 2 * bytes.len(),
        hex_dump(bytes).subrange(2 * i, 2 * i + 2) == hex_byte(bytes[i]),
    decreases bytes.len(),
{
    lemma_hex_dump_len(bytes);
    lemma_hex_dump_len(bytes.drop_last());
    if i == bytes.len() - 1 {
        assert(hex_dump(bytes).subrange(2 * i, 2 * i + 2) =~= hex_byte(bytes.last()));
    } else {
        lemma_hex_dump_at(bytes.drop_last(), i);
        assert(hex_dump(bytes).subrange(2 * i, 2 * i + 2) =~= hex_dump(
            bytes.drop_last(),
        ).subrange(2 * i, 2 * i + 2));
    }
}

/// Every token is plain ASCII, so that it takes as many bytes as it has
/// characters.
pub proof fn lemma_event_token_is_ascii(category: Category, quarter: bool, delta: nat)
    ensures
        is_ascii_chars(event_token(category, quarter, delta)),
{
    let token = event_token(category, quarter, delta);
    lemma_hex_is_ascii(delta, 0);
    match category {
        Category::NoteOff { note } => {
            lemma_hex_is_ascii(0, note);
        },
        Category::NoteOn { note, velocity } => {
            lemma_hex_is_ascii(0, note);
            lemma_hex_is_ascii(0, velocity);
        },
        Category::Raw { bytes } => {
            lemma_hex_dump_is_ascii(bytes);
        },
        _ => {},
    }
}

/// The dump of a message is plain ASCII.
pub proof fn lemma_hex_dump_is_ascii(bytes: Seq<u8>)
    ensures
        is_ascii_chars(hex_dump(bytes)),
    decreases bytes.len(),
{
    if bytes.len() > 0 {
        lemma_hex_dump_is_ascii(bytes.drop_last());
        lemma_hex_is_ascii(0, bytes.last());
    }
}

} // verus!
