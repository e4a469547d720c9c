use midi_monitor::clock::{ClockState, PULSES_PER_QUARTER};
use midi_monitor::handler::MidiHandler;

const PULSE: [u8; 1] = [0xF8];
const START: [u8; 1] = [0xFA];
const END: [u8; 1] = [0xFC];
const NOTE_ON: [u8; 3] = [0x90, 0x3C, 0x64];

fn feed_pulses(handler: &mut MidiHandler, n: usize) -> Vec<String> {
    let mut tokens = Vec::new();
    for _ in 0..n {
        if let Some(token) = handler.handle_message(&PULSE) {
            tokens.push(token);
        }
    }
    tokens
}

#[test]
fn new_handler_has_seen_nothing() {
    let handler = MidiHandler::new();
    assert_eq!(handler.pulse_count(), 0);
    assert_eq!(handler.delta_pulse_count(), 0);
    assert!(handler.history().is_empty());
}

#[test]
fn new_clock_state_is_at_a_boundary() {
    let clock = ClockState::new();
    assert_eq!(clock.pulse_count(), 0);
    assert_eq!(clock.delta_pulse_count(), 0);
    assert_eq!(PULSES_PER_QUARTER, 24);
}

#[test]
fn clock_state_ticks_through_one_quarter() {
    let mut clock = ClockState::new();
    for i in 1u32..24 {
        assert!(!clock.tick());
        assert_eq!(clock.pulse_count(), i);
        assert_eq!(clock.delta_pulse_count(), i);
    }
    assert!(clock.tick());
    assert_eq!(clock.pulse_count(), 0);
    assert_eq!(clock.delta_pulse_count(), 0);
}

#[test]
fn clock_state_take_delta_leaves_the_pulse_count() {
    let mut clock = ClockState::new();
    for _ in 0..7 {
        clock.tick();
    }
    assert_eq!(clock.take_delta(), 7);
    assert_eq!(clock.pulse_count(), 7);
    assert_eq!(clock.delta_pulse_count(), 0);
    assert_eq!(clock.take_delta(), 0);
    clock.tick();
    assert_eq!(clock.take_delta(), 1);
    assert_eq!(clock.pulse_count(), 8);
}

#[test]
fn clock_state_reset_clears_both_counters() {
    let mut clock = ClockState::new();
    for _ in 0..11 {
        clock.tick();
    }
    clock.reset();
    assert_eq!(clock.pulse_count(), 0);
    assert_eq!(clock.delta_pulse_count(), 0);
}

#[test]
fn terminal_messages_change_nothing() {
    let mut handler = MidiHandler::new();
    feed_pulses(&mut handler, 7);
    handler.handle_message(&NOTE_ON);
    feed_pulses(&mut handler, 3);
    let history = handler.history().clone();
    let dropped: [&[u8]; 6] = [
        &[],
        &[0xF0, 0x7E, 0x7F, 0x09, 0x01, 0xF7],
        &[0xF0],
        &[0xB3, 0x40, 0x7F],
        &[0xFE],
        &[0xF8, 0xF8],
    ];
    for message in dropped.iter() {
        assert_eq!(handler.handle_message(message), None);
        assert_eq!(handler.pulse_count(), 10);
        assert_eq!(handler.delta_pulse_count(), 3);
        assert_eq!(handler.history(), &history);
    }
}

#[test]
fn twenty_three_pulses_report_nothing() {
    let mut handler = MidiHandler::new();
    assert!(feed_pulses(&mut handler, 23).is_empty());
    assert_eq!(handler.pulse_count(), 23);
    assert!(handler.history().is_empty());
}

#[test]
fn twenty_four_pulses_report_one_quarter() {
    let mut handler = MidiHandler::new();
    for _ in 0..23 {
        assert_eq!(handler.handle_message(&PULSE), None);
    }
    assert_eq!(handler.handle_message(&PULSE), Some("Q ".to_string()));
    assert_eq!(handler.pulse_count(), 0);
    assert_eq!(handler.delta_pulse_count(), 0);
    assert_eq!(handler.history(), &vec!["Q ".to_string()]);
}

#[test]
fn pulses_are_counted_modulo_the_quarter() {
    let mut handler = MidiHandler::new();
    let tokens = feed_pulses(&mut handler, 24 * 3 + 5);
    assert_eq!(tokens, vec!["Q ", "Q ", "Q "]);
    assert_eq!(handler.pulse_count(), 5);
    assert_eq!(handler.delta_pulse_count(), 5);
    assert_eq!(handler.history().len(), 3);
}

#[test]
fn start_resets_mid_cycle() {
    let mut handler = MidiHandler::new();
    assert!(feed_pulses(&mut handler, 10).is_empty());
    assert_eq!(handler.handle_message(&START), Some("Start ".to_string()));
    assert_eq!(handler.pulse_count(), 0);
    assert_eq!(handler.delta_pulse_count(), 0);
    assert!(feed_pulses(&mut handler, 14).is_empty());
    assert!(feed_pulses(&mut handler, 9).is_empty());
    assert_eq!(handler.handle_message(&PULSE), Some("Q ".to_string()));
    assert_eq!(handler.history(), &vec!["Start ".to_string(), "Q ".to_string()]);
}

#[test]
fn start_discards_the_pulses_counted_towards_a_note() {
    let mut handler = MidiHandler::new();
    feed_pulses(&mut handler, 6);
    handler.handle_message(&START);
    assert_eq!(handler.handle_message(&NOTE_ON), Some("N3c v64 ".to_string()));
}

#[test]
fn end_reports_and_leaves_the_counters() {
    let mut handler = MidiHandler::new();
    feed_pulses(&mut handler, 6);
    assert_eq!(handler.handle_message(&END), Some("End ".to_string()));
    assert_eq!(handler.pulse_count(), 6);
    assert_eq!(handler.delta_pulse_count(), 6);
    assert_eq!(handler.handle_message(&NOTE_ON), Some("P06 N3c v64 ".to_string()));
}

#[test]
fn note_after_five_pulses_has_delta_five() {
    let mut handler = MidiHandler::new();
    feed_pulses(&mut handler, 5);
    assert_eq!(handler.handle_message(&NOTE_ON), Some("P05 N3c v64 ".to_string()));
    assert_eq!(handler.delta_pulse_count(), 0);
    assert_eq!(handler.pulse_count(), 5);
    assert_eq!(handler.handle_message(&NOTE_ON), Some("N3c v64 ".to_string()));
    assert_eq!(
        handler.history(),
        &vec!["P05 N3c v64 ".to_string(), "N3c v64 ".to_string()]
    );
}

#[test]
fn note_off_consumes_the_delta_too() {
    let mut handler = MidiHandler::new();
    feed_pulses(&mut handler, 4);
    assert_eq!(handler.handle_message(&[0x80, 0x3C, 0x00]), Some("P04 O3c ".to_string()));
    assert_eq!(handler.handle_message(&[0x90, 0x3C, 0x00]), Some("O3c ".to_string()));
}

#[test]
fn both_spellings_of_note_off_give_the_same_token() {
    let mut first = MidiHandler::new();
    let mut second = MidiHandler::new();
    assert_eq!(first.handle_message(&[0x80, 0x3C, 0x00]), Some("O3c ".to_string()));
    assert_eq!(second.handle_message(&[0x90, 0x3C, 0x00]), Some("O3c ".to_string()));
    assert_eq!(first.history(), second.history());
}

#[test]
fn quarter_boundary_restarts_the_delta() {
    let mut handler = MidiHandler::new();
    feed_pulses(&mut handler, 20);
    assert_eq!(handler.delta_pulse_count(), 20);
    let tokens = feed_pulses(&mut handler, 7);
    assert_eq!(tokens, vec!["Q "]);
    assert_eq!(handler.handle_message(&NOTE_ON), Some("P03 N3c v64 ".to_string()));
}

#[test]
fn largest_delta_inside_a_quarter() {
    let mut handler = MidiHandler::new();
    feed_pulses(&mut handler, 23);
    assert_eq!(handler.handle_message(&NOTE_ON), Some("P17 N3c v64 ".to_string()));
    assert_eq!(handler.pulse_count(), 23);
    assert_eq!(handler.handle_message(&PULSE), Some("Q ".to_string()));
}

#[test]
fn raw_fallback_keeps_every_byte() {
    let mut handler = MidiHandler::new();
    let message = [0xA1, 0x02, 0x03, 0x04];
    let token = handler.handle_message(&message).unwrap();
    assert_eq!(token, "Ma1020304 ");
    assert_eq!(token.len(), 2 * message.len() + 2);
    assert_eq!(handler.history(), &vec!["Ma1020304 ".to_string()]);
}

#[test]
fn raw_message_leaves_the_counters() {
    let mut handler = MidiHandler::new();
    feed_pulses(&mut handler, 3);
    assert_eq!(handler.handle_message(&[0x90, 0x3C]), Some("M903c ".to_string()));
    assert_eq!(handler.pulse_count(), 3);
    assert_eq!(handler.delta_pulse_count(), 3);
}

#[test]
fn increment_clock_reports_the_quarter_only() {
    let mut handler = MidiHandler::new();
    for _ in 0..23 {
        assert_eq!(handler.increment_clock(), None);
    }
    assert_eq!(handler.increment_clock(), Some("Q ".to_string()));
    assert_eq!(handler.pulse_count(), 0);
    assert!(handler.history().is_empty());
}

#[test]
fn reset_clock_clears_both_counters_and_keeps_the_history() {
    let mut handler = MidiHandler::new();
    handler.handle_message(&END);
    feed_pulses(&mut handler, 9);
    handler.reset_clock();
    assert_eq!(handler.pulse_count(), 0);
    assert_eq!(handler.delta_pulse_count(), 0);
    assert_eq!(handler.history(), &vec!["End ".to_string()]);
}

#[test]
fn get_delta_time_formats_and_consumes() {
    let mut handler = MidiHandler::new();
    assert_eq!(handler.get_delta_time(), "");
    feed_pulses(&mut handler, 12);
    assert_eq!(handler.get_delta_time(), "P0c ");
    assert_eq!(handler.get_delta_time(), "");
    assert_eq!(handler.pulse_count(), 12);
    assert!(handler.history().is_empty());
}

#[test]
fn history_holds_every_token_in_order() {
    let mut handler = MidiHandler::new();
    let mut returned = Vec::new();
    let messages: [&[u8]; 9] = [
        &START,
        &PULSE,
        &PULSE,
        &NOTE_ON,
        &[0xFE],
        &[0x80, 0x3C, 0x40],
        &[0xB0, 0x7B, 0x00],
        &[0xC0, 0x05],
        &END,
    ];
    for message in messages.iter() {
        if let Some(token) = handler.handle_message(message) {
            returned.push(token);
        }
    }
    assert_eq!(returned, vec!["Start ", "P02 N3c v64 ", "O3c ", "Mc005 ", "End "]);
    assert_eq!(handler.history(), &returned);
    assert_eq!(handler.history().concat(), "Start P02 N3c v64 O3c Mc005 End ");
}
