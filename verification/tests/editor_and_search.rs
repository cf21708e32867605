//! The editor buffer and the schema search: typing, running the
//! buffer as a query, and the incremental search filter.

use lazydb::action::Action;
use lazydb::app::{App, InputEvent};
use lazydb::app_event::QueryTag;
use lazydb::components::schema_list::{SchemaFocus, SchemaList};
use lazydb::keys::{KeyBindingTable, KeyCode, KeyPress};
use lazydb::Mode;

fn key(c: char) -> KeyPress {
    KeyPress::plain(KeyCode::Char(c))
}

fn fresh_app() -> App {
    App::new(KeyBindingTable { modes: vec![] }, vec![])
}

#[test]
fn typed_characters_land_in_the_focused_editor() {
    let mut app = fresh_app();
    app.process_batch(&vec![], &vec![Action::ChangeMode(Mode::EditQuery)]);
    for c in ['s', 'e', 'l'] {
        app.handle_input(InputEvent::Key(key(c)));
    }
    app.handle_input(InputEvent::Key(KeyPress::plain(KeyCode::Enter)));
    app.handle_input(InputEvent::Key(key('x')));
    assert_eq!(app.components.text_editor.lines, vec!["sel".to_string(), "x".to_string()]);
}

#[test]
fn unfocused_editor_ignores_typing() {
    let mut app = fresh_app();
    app.handle_input(InputEvent::Key(key('s')));
    assert_eq!(app.components.text_editor.lines, vec!["".to_string()]);
}

#[test]
fn backspace_deletes_and_joins_lines() {
    let mut app = fresh_app();
    app.process_batch(&vec![], &vec![Action::ChangeMode(Mode::EditQuery)]);
    app.handle_input(InputEvent::Key(key('a')));
    app.handle_input(InputEvent::Key(KeyPress::plain(KeyCode::Enter)));
    app.handle_input(InputEvent::Key(KeyPress::plain(KeyCode::Backspace)));
    assert_eq!(app.components.text_editor.lines, vec!["a".to_string()]);
    app.handle_input(InputEvent::Key(KeyPress::plain(KeyCode::Backspace)));
    assert_eq!(app.components.text_editor.lines, vec!["".to_string()]);
    app.handle_input(InputEvent::Key(KeyPress::plain(KeyCode::Backspace)));
    assert_eq!(app.components.text_editor.lines, vec!["".to_string()]);
}

#[test]
fn ctrl_r_runs_the_buffer_as_a_user_query() {
    let mut app = fresh_app();
    app.process_batch(&vec![], &vec![Action::ChangeMode(Mode::EditQuery)]);
    for c in ['s', 'e', 'l', 'e', 'c', 't', ' ', '1'] {
        app.handle_input(InputEvent::Key(key(c)));
    }
    let ctrl_r = KeyPress { code: KeyCode::Char('r'), ctrl: true, alt: false, shift: false };
    let out = app.handle_input(InputEvent::Key(ctrl_r));
    assert_eq!(out.len(), 1);
    let Action::ExecuteQuery(req) = &out[0] else {
        panic!("expected a query action");
    };
    assert_eq!(req.tag, QueryTag::User);
    assert_eq!(req.statement, "select 1");
    assert!(req.parameters.is_none());
}

#[test]
fn multi_line_buffer_joins_with_newlines() {
    let mut app = fresh_app();
    app.process_batch(&vec![], &vec![Action::ChangeMode(Mode::EditQuery)]);
    app.handle_input(InputEvent::Key(key('a')));
    app.handle_input(InputEvent::Key(KeyPress::plain(KeyCode::Enter)));
    app.handle_input(InputEvent::Key(key('b')));
    let ctrl_r = KeyPress { code: KeyCode::Char('r'), ctrl: true, alt: false, shift: false };
    let out = app.handle_input(InputEvent::Key(ctrl_r));
    let Action::ExecuteQuery(req) = &out[0] else {
        panic!("expected a query action");
    };
    assert_eq!(req.statement, "a\nb");
}

#[test]
fn schema_search_filters_by_substring() {
    let list = SchemaList {
        items: vec![
            "public".to_string(),
            "audit".to_string(),
            "publications".to_string(),
        ],
        selected: 0,
        focus: SchemaFocus::List,
        search: "pub".to_string(),
    };
    assert_eq!(
        list.display_items(),
        vec!["public".to_string(), "publications".to_string()]
    );
}

#[test]
fn empty_search_shows_everything() {
    let list = SchemaList {
        items: vec!["public".to_string(), "audit".to_string()],
        selected: 0,
        focus: SchemaFocus::List,
        search: String::new(),
    };
    assert_eq!(list.display_items(), vec!["public".to_string(), "audit".to_string()]);
}

#[test]
fn search_keys_reach_the_search_box() {
    let mut app = fresh_app();
    app.process_batch(&vec![], &vec![Action::ChangeMode(Mode::ExploreSchemas)]);
    assert_eq!(app.components.schema_list.focus, SchemaFocus::List);
    app.process_batch(&vec![], &vec![Action::Search]);
    assert_eq!(app.components.schema_list.focus, SchemaFocus::Search);
    app.handle_input(InputEvent::Key(key('a')));
    app.handle_input(InputEvent::Key(key('u')));
    assert_eq!(app.components.schema_list.search, "au");
    app.handle_input(InputEvent::Key(KeyPress::plain(KeyCode::Backspace)));
    assert_eq!(app.components.schema_list.search, "a");
    app.process_batch(&vec![], &vec![Action::Clear]);
    assert_eq!(app.components.schema_list.search, "");
    assert_eq!(app.components.schema_list.focus, SchemaFocus::List);
}

#[test]
fn selecting_a_schema_emits_a_schema_change() {
    let mut app = fresh_app();
    app.components.schema_list.items = vec!["public".to_string(), "audit".to_string()];
    app.process_batch(
        &vec![],
        &vec![Action::ChangeMode(Mode::ExploreSchemas), Action::NavDown, Action::MakeSelection],
    );
    // The schema change scoped the table list in the same iteration.
    assert_eq!(app.components.table_list.schema_filter, Some("audit".to_string()));
}
