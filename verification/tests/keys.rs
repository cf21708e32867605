//! The key resolver and the orchestrator's pending-key handling:
//! exact matches fire, chord prefixes wait, ticks clear the pending
//! sequence, and the global mode shortcuts stay active.

use lazydb::action::Action;
use lazydb::app::{App, InputEvent};
use lazydb::keys::{
    KeyBinding, KeyBindingTable, KeyCode, KeyPress, ModeBindings, Resolution,
};
use lazydb::Mode;

fn key(c: char) -> KeyPress {
    KeyPress::plain(KeyCode::Char(c))
}

/// In one mode: [a] -> Help, [b, c] -> Quit.
fn chord_table(mode: Mode) -> KeyBindingTable {
    KeyBindingTable {
        modes: vec![ModeBindings {
            mode,
            bindings: vec![
                KeyBinding { keys: vec![key('a')], action: Action::Help },
                KeyBinding { keys: vec![key('b'), key('c')], action: Action::Quit },
            ],
        }],
    }
}

#[test]
fn single_key_matches() {
    let table = chord_table(Mode::EditQuery);
    let r = table.resolve(Mode::EditQuery, &vec![key('a')]);
    assert_eq!(r, Resolution::Matched(Action::Help));
}

#[test]
fn chord_prefix_waits_for_more_keys() {
    let table = chord_table(Mode::EditQuery);
    let r = table.resolve(Mode::EditQuery, &vec![key('b')]);
    assert_eq!(r, Resolution::PendingLonger);
}

#[test]
fn full_chord_matches() {
    let table = chord_table(Mode::EditQuery);
    let r = table.resolve(Mode::EditQuery, &vec![key('b'), key('c')]);
    assert_eq!(r, Resolution::Matched(Action::Quit));
}

#[test]
fn broken_chord_is_no_match() {
    let table = chord_table(Mode::EditQuery);
    let r = table.resolve(Mode::EditQuery, &vec![key('b'), key('d')]);
    assert_eq!(r, Resolution::NoMatch);
}

#[test]
fn other_mode_has_no_bindings() {
    let table = chord_table(Mode::EditQuery);
    let r = table.resolve(Mode::ExploreResults, &vec![key('a')]);
    assert_eq!(r, Resolution::NoMatch);
}

#[test]
fn pending_keys_accumulate_into_chord() {
    let mut app = App::new(chord_table(Mode::ConnectionMenu), vec![]);
    let first = app.handle_input(InputEvent::Key(key('b')));
    assert!(first.is_empty());
    assert_eq!(app.pending_keys, vec![key('b')]);
    let second = app.handle_input(InputEvent::Key(key('c')));
    assert_eq!(second, vec![Action::Quit]);
    assert!(app.pending_keys.is_empty());
}

#[test]
fn tick_clears_pending_so_chord_restarts() {
    let mut app = App::new(chord_table(Mode::ConnectionMenu), vec![]);
    app.handle_input(InputEvent::Key(key('b')));
    assert_eq!(app.pending_keys.len(), 1);
    let tick = app.handle_input(InputEvent::Tick);
    app.process_batch(&vec![], &tick);
    assert!(app.pending_keys.is_empty());
    // 'c' alone is evaluated fresh now: it completes no chord.
    let after = app.handle_input(InputEvent::Key(key('c')));
    assert!(after.is_empty());
    assert!(app.pending_keys.is_empty());
}

#[test]
fn no_match_falls_back_to_global_shortcut() {
    let mut app = App::new(chord_table(Mode::ConnectionMenu), vec![]);
    let alt_two = KeyPress { code: KeyCode::Char('2'), ctrl: false, alt: true, shift: false };
    let out = app.handle_input(InputEvent::Key(alt_two));
    assert_eq!(out, vec![Action::ChangeMode(Mode::ExploreResults)]);
    let alt_five = KeyPress { code: KeyCode::Char('5'), ctrl: false, alt: true, shift: false };
    let out = app.handle_input(InputEvent::Key(alt_five));
    assert_eq!(out, vec![Action::ChangeMode(Mode::ExploreSchemas)]);
}

#[test]
fn bound_chord_beats_global_shortcut() {
    let table = KeyBindingTable {
        modes: vec![ModeBindings {
            mode: Mode::ConnectionMenu,
            bindings: vec![KeyBinding {
                keys: vec![KeyPress {
                    code: KeyCode::Char('2'),
                    ctrl: false,
                    alt: true,
                    shift: false,
                }],
                action: Action::Help,
            }],
        }],
    };
    let mut app = App::new(table, vec![]);
    let alt_two = KeyPress { code: KeyCode::Char('2'), ctrl: false, alt: true, shift: false };
    let out = app.handle_input(InputEvent::Key(alt_two));
    assert_eq!(out, vec![Action::Help]);
}
