use piano::app::{Action, App, InputEvent, Instrument, PlayCommand};
use piano::notes::{note_of, ratio_of, Note, Ratio};
use piano::tracker::NoteActivity;

const ALL_NOTES: [Note; 12] = [
    Note::C,
    Note::Cs,
    Note::D,
    Note::Ds,
    Note::E,
    Note::F,
    Note::Fs,
    Note::G,
    Note::Gs,
    Note::A,
    Note::As,
    Note::B,
];

fn bank(n: usize) -> Vec<Instrument> {
    let mut v = Vec::new();
    for i in 0..n {
        v.push(Instrument {
            name: format!("sample-{i}.wav"),
        });
    }
    v
}

#[test]
fn pitch_table_matches_just_intonation_series() {
    let expected: [(Note, u32, u32); 12] = [
        (Note::C, 1, 1),
        (Note::Cs, 17, 16),
        (Note::D, 9, 8),
        (Note::Ds, 6, 5),
        (Note::E, 5, 4),
        (Note::F, 4, 3),
        (Note::Fs, 45, 32),
        (Note::G, 3, 2),
        (Note::Gs, 8, 5),
        (Note::A, 5, 3),
        (Note::As, 7, 4),
        (Note::B, 15, 8),
    ];
    for (note, num, den) in expected {
        let r = ratio_of(note);
        assert_eq!(r, Ratio { num, den });
        assert!(r.num > 0);
        assert!(r.den > 0);
    }
}

#[test]
fn pitch_table_is_total_and_positive_over_the_universe() {
    for note in ALL_NOTES {
        let r = ratio_of(note);
        assert!(r.num > 0 && r.den > 0);
        assert!(r.num as f64 / r.den as f64 >= 1.0);
    }
}

#[test]
fn key_map_returns_configured_note_for_every_bound_key() {
    let layout: [(char, Note); 12] = [
        ('q', Note::C),
        ('z', Note::Cs),
        ('s', Note::D),
        ('e', Note::Ds),
        ('d', Note::E),
        ('f', Note::F),
        ('t', Note::Fs),
        ('g', Note::G),
        ('y', Note::Gs),
        ('h', Note::A),
        ('u', Note::As),
        ('j', Note::B),
    ];
    for (key, note) in layout {
        assert_eq!(note_of(key), Some(note));
    }
}

#[test]
fn key_map_returns_nothing_for_unbound_keys() {
    for key in ['x', 'a', 'w', '1', ' ', '#', 'Q'] {
        assert_eq!(note_of(key), None);
    }
}

#[test]
fn note_names_and_indices() {
    let names = ["c", "c#", "d", "d#", "e", "f", "f#", "g", "g#", "a", "a#", "b"];
    for (i, note) in ALL_NOTES.into_iter().enumerate() {
        assert_eq!(note.index(), i);
        assert_eq!(note.name(), names[i]);
    }
}

#[test]
fn advance_twelve_times_returns_cursor_to_start() {
    let mut app = App::new(bank(12));
    assert_eq!(app.current_instrument_index, 0);
    for step in 1..=12 {
        app.next_instrument();
        assert_eq!(app.current_instrument_index, step % 12);
    }
    assert_eq!(app.current_instrument_index, 0);
}

#[test]
fn retreat_is_the_exact_inverse_of_advance() {
    let mut app = App::new(bank(5));
    for start in 0..5 {
        assert_eq!(app.current_instrument_index, start);
        app.next_instrument();
        app.prev_instrument();
        assert_eq!(app.current_instrument_index, start);
        app.prev_instrument();
        app.next_instrument();
        assert_eq!(app.current_instrument_index, start);
        app.next_instrument();
    }
}

#[test]
fn single_instrument_navigation_is_a_no_op() {
    let mut app = App::new(bank(1));
    app.next_instrument();
    assert_eq!(app.current_instrument_index, 0);
    app.prev_instrument();
    assert_eq!(app.current_instrument_index, 0);
}

#[test]
fn cursor_wraps_backwards_from_zero() {
    let mut app = App::new(bank(3));
    app.prev_instrument();
    assert_eq!(app.current_instrument_index, 2);
    app.next_instrument();
    assert_eq!(app.current_instrument_index, 0);
}

#[test]
fn current_follows_the_cursor() {
    let mut app = App::new(bank(3));
    assert_eq!(app.current().name, "sample-0.wav");
    app.next_instrument();
    assert_eq!(app.current().name, "sample-1.wav");
    app.prev_instrument();
    app.prev_instrument();
    assert_eq!(app.current().name, "sample-2.wav");
}

#[test]
fn fresh_tracker_has_every_note_inactive() {
    let t = NoteActivity::new();
    assert_eq!(t.flag_count(), 12);
    for note in ALL_NOTES {
        assert!(!t.is_active(note));
    }
}

#[test]
fn mark_active_is_visible_immediately_and_cleared_by_release() {
    let mut t = NoteActivity::new();
    t.mark_active(Note::E);
    assert!(t.is_active(Note::E));
    for note in ALL_NOTES {
        if note != Note::E {
            assert!(!t.is_active(note));
        }
    }
    t.mark_inactive(Note::E);
    assert!(!t.is_active(Note::E));
}

#[test]
fn repressing_keeps_the_note_active_without_flicker() {
    let mut t = NoteActivity::new();
    t.mark_active(Note::A);
    t.mark_active(Note::A);
    assert!(t.is_active(Note::A));
    t.mark_active(Note::D);
    t.mark_inactive(Note::D);
    assert!(t.is_active(Note::A));
    t.mark_inactive(Note::A);
    assert!(!t.is_active(Note::A));
}

#[test]
fn release_touches_only_its_own_note() {
    let mut t = NoteActivity::new();
    t.mark_active(Note::C);
    t.mark_active(Note::G);
    t.mark_inactive(Note::C);
    assert!(!t.is_active(Note::C));
    assert!(t.is_active(Note::G));
}

#[test]
fn new_app_is_well_formed_with_cursor_on_first_instrument() {
    let app = App::new(bank(2));
    assert!(app.is_wf());
    assert_eq!(app.current_instrument_index, 0);
    for note in ALL_NOTES {
        assert!(!app.notes_pressed.is_active(note));
    }
}

#[test]
fn press_key_q_plays_note_c_at_normal_rate() {
    let mut app = App::new(bank(1));
    let action = app.handle_event(InputEvent::Char('q'));
    assert_eq!(
        action,
        Action::Play(PlayCommand {
            instrument_index: 0,
            note: Note::C,
            ratio: Ratio { num: 1, den: 1 },
        })
    );
    assert!(app.notes_pressed.is_active(Note::C));
    assert_eq!(1.0f32 / 1.0f32, 1.0f32);
}

#[test]
fn press_key_z_plays_note_c_sharp_about_six_percent_faster() {
    let mut app = App::new(bank(1));
    let action = app.handle_event(InputEvent::Char('z'));
    match action {
        Action::Play(cmd) => {
            assert_eq!(cmd.note, Note::Cs);
            assert_eq!(cmd.ratio, Ratio { num: 17, den: 16 });
            let rate = cmd.ratio.num as f32 / cmd.ratio.den as f32;
            assert_eq!(rate, 1.0625f32);
        }
        other => panic!("expected a playback command, got {other:?}"),
    }
    assert!(app.notes_pressed.is_active(Note::Cs));
}

#[test]
fn unbound_key_produces_no_playback_and_no_tracker_mutation() {
    let mut app = App::new(bank(2));
    app.next_instrument();
    let action = app.handle_event(InputEvent::Char('x'));
    assert_eq!(action, Action::Ignore);
    for note in ALL_NOTES {
        assert!(!app.notes_pressed.is_active(note));
    }
    assert_eq!(app.current_instrument_index, 1);
}

#[test]
fn quit_event_exits_without_touching_state() {
    let mut app = App::new(bank(2));
    let action = app.handle_event(InputEvent::Quit);
    assert_eq!(action, Action::Exit);
    assert_eq!(app.current_instrument_index, 0);
    for note in ALL_NOTES {
        assert!(!app.notes_pressed.is_active(note));
    }
}

#[test]
fn navigation_events_move_only_the_cursor() {
    let mut app = App::new(bank(3));
    assert_eq!(app.handle_event(InputEvent::NextInstrument), Action::Ignore);
    assert_eq!(app.current_instrument_index, 1);
    assert_eq!(app.handle_event(InputEvent::PrevInstrument), Action::Ignore);
    assert_eq!(app.current_instrument_index, 0);
    for note in ALL_NOTES {
        assert!(!app.notes_pressed.is_active(note));
    }
}

#[test]
fn overlapping_presses_keep_every_pressed_note_active() {
    let mut app = App::new(bank(1));
    app.handle_event(InputEvent::Char('q'));
    app.handle_event(InputEvent::Char('f'));
    app.handle_event(InputEvent::Char('j'));
    assert!(app.notes_pressed.is_active(Note::C));
    assert!(app.notes_pressed.is_active(Note::F));
    assert!(app.notes_pressed.is_active(Note::B));
    app.release_note(Note::F);
    assert!(app.notes_pressed.is_active(Note::C));
    assert!(!app.notes_pressed.is_active(Note::F));
    assert!(app.notes_pressed.is_active(Note::B));
}
