//! The orchestrator loop: event/action phase ordering, dispatcher
//! decisions, the connection race guard, and mode idempotence.

use lazydb::action::Action;
use lazydb::app::{App, Effect, InputEvent};
use lazydb::app_event::{AppEvent, MessageType, QueryTag};
use lazydb::database::connection::{ConnectionConfig, ConnectionHandle, QueryResult};
use lazydb::keys::KeyBindingTable;
use lazydb::Mode;

fn empty_table() -> KeyBindingTable {
    KeyBindingTable { modes: vec![] }
}

fn local_config() -> ConnectionConfig {
    ConnectionConfig {
        host: Some("localhost".to_string()),
        port: Some(5432),
        user: Some("postgres".to_string()),
        password: None,
        database_name: Some("app".to_string()),
    }
}

fn app_with_local() -> App {
    App::new(empty_table(), vec![("local".to_string(), local_config())])
}

fn listing_result() -> QueryResult {
    QueryResult {
        columns: vec!["table_schema".to_string(), "table_name".to_string()],
        rows: vec![
            vec!["public".to_string(), "users".to_string()],
            vec!["public".to_string(), "orders".to_string()],
            vec!["audit".to_string(), "log".to_string()],
        ],
    }
}

fn error_events(events: &[AppEvent]) -> usize {
    events
        .iter()
        .filter(|e| matches!(e, AppEvent::UserMessage(MessageType::Error, _)))
        .count()
}

#[test]
fn change_mode_twice_is_idempotent() {
    let mut once = app_with_local();
    let mut twice = app_with_local();
    once.process_batch(&vec![], &vec![Action::ChangeMode(Mode::ExploreResults)]);
    twice.process_batch(
        &vec![],
        &vec![
            Action::ChangeMode(Mode::ExploreResults),
            Action::ChangeMode(Mode::ExploreResults),
        ],
    );
    assert_eq!(once, twice);
}

#[test]
fn connection_and_listing_visible_in_one_iteration() {
    let mut app = app_with_local();
    let handle = ConnectionHandle { generation: 1 };
    let events = vec![
        AppEvent::ConnectionEstablished(handle),
        AppEvent::QueryResult(listing_result(), QueryTag::ListTables),
    ];
    app.process_batch(&events, &vec![]);
    assert_eq!(app.mode, Mode::ExploreTables);
    assert_eq!(app.connection, Some(handle));
    assert_eq!(
        app.components.table_list.items(),
        vec!["users".to_string(), "orders".to_string(), "log".to_string()]
    );
    assert_eq!(
        app.components.schema_list.items,
        vec!["public".to_string(), "audit".to_string()]
    );
}

#[test]
fn open_known_connection_spawns_exactly_one_task() {
    let mut app = app_with_local();
    let (effects, deferred) =
        app.process_batch(&vec![], &vec![Action::OpenConnection("local".to_string())]);
    let spawns: Vec<&Effect> = effects
        .iter()
        .filter(|e| matches!(e, Effect::SpawnOpenConnection(..)))
        .collect();
    assert_eq!(spawns.len(), 1);
    assert_eq!(error_events(&deferred), 0);

    // The stub executor succeeds: completion arrives as exactly one
    // established-connection event for the minted handle.
    let Effect::SpawnOpenConnection(handle, config) = spawns[0] else {
        unreachable!();
    };
    assert_eq!(config, &local_config());
    let handle = *handle;
    let (_, deferred) =
        app.process_batch(&vec![AppEvent::ConnectionEstablished(handle)], &vec![]);
    assert_eq!(app.connection, Some(handle));
    assert_eq!(app.mode, Mode::ExploreTables);
    assert_eq!(error_events(&deferred), 0);
}

#[test]
fn open_unknown_connection_spawns_nothing_and_reports() {
    let mut app = app_with_local();
    let (effects, deferred) =
        app.process_batch(&vec![], &vec![Action::OpenConnection("absent".to_string())]);
    assert!(effects.iter().all(|e| !matches!(e, Effect::SpawnOpenConnection(..))));
    assert_eq!(error_events(&deferred), 1);
}

#[test]
fn query_without_connection_is_refused_synchronously() {
    let mut app = app_with_local();
    let run = app.handle_input(InputEvent::Key(lazydb::keys::KeyPress {
        code: lazydb::keys::KeyCode::Char('r'),
        ctrl: true,
        alt: false,
        shift: false,
    }));
    assert!(matches!(run[0], Action::ExecuteQuery(_)));
    let (effects, deferred) = app.process_batch(&vec![], &run);
    assert!(effects.iter().all(|e| !matches!(e, Effect::SpawnQuery(..))));
    assert_eq!(error_events(&deferred), 1);
}

#[test]
fn query_with_connection_spawns_task_for_handle() {
    let mut app = app_with_local();
    let handle = ConnectionHandle { generation: 7 };
    app.process_batch(&vec![AppEvent::ConnectionEstablished(handle)], &vec![]);
    let run = vec![Action::ExecuteQuery(
        lazydb::database::system_query::SystemQuery::query_for(QueryTag::ListTables).unwrap(),
    )];
    let (effects, deferred) = app.process_batch(&vec![], &run);
    let spawned: Vec<&Effect> =
        effects.iter().filter(|e| matches!(e, Effect::SpawnQuery(..))).collect();
    assert_eq!(spawned.len(), 1);
    let Effect::SpawnQuery(h, req) = spawned[0] else {
        unreachable!();
    };
    assert_eq!(*h, handle);
    assert_eq!(req.tag, QueryTag::ListTables);
    assert_eq!(error_events(&deferred), 0);
}

#[test]
fn stale_connection_success_does_not_displace_newer() {
    let mut app = app_with_local();
    let newer = ConnectionHandle { generation: 5 };
    let stale = ConnectionHandle { generation: 3 };
    app.process_batch(&vec![AppEvent::ConnectionEstablished(newer)], &vec![]);
    app.process_batch(&vec![AppEvent::ConnectionEstablished(stale)], &vec![]);
    assert_eq!(app.connection, Some(newer));
}

#[test]
fn user_result_is_summarised_and_displayed() {
    let mut app = app_with_local();
    let result = QueryResult {
        columns: vec!["n".to_string()],
        rows: vec![vec!["1".to_string()], vec!["2".to_string()]],
    };
    let (_, deferred) =
        app.process_batch(&vec![AppEvent::QueryResult(result, QueryTag::User)], &vec![]);
    assert_eq!(app.components.results_table.rows.len(), 2);
    // The summary the result produced was itself applied within the
    // same iteration: the message surface already shows it.
    assert!(deferred.is_empty());
    assert_eq!(
        app.components.messages.message,
        Some((MessageType::Info, "2 results".to_string()))
    );
}

#[test]
fn executing_a_query_clears_the_message_surface() {
    let mut app = app_with_local();
    app.process_batch(
        &vec![AppEvent::UserMessage(MessageType::Error, "old news".to_string())],
        &vec![],
    );
    assert!(app.components.messages.message.is_some());
    let req =
        lazydb::database::system_query::SystemQuery::query_for(QueryTag::ListTables).unwrap();
    app.process_batch(&vec![], &vec![Action::ExecuteQuery(req)]);
    assert!(app.components.messages.message.is_none());
}

#[test]
fn menu_selection_opens_the_selected_connection() {
    let mut app = App::new(
        empty_table(),
        vec![
            ("alpha".to_string(), local_config()),
            ("beta".to_string(), local_config()),
        ],
    );
    assert_eq!(
        app.components.connection_menu.items(),
        vec!["alpha".to_string(), "beta".to_string()]
    );
    let (effects, _) =
        app.process_batch(&vec![], &vec![Action::NavDown, Action::MakeSelection]);
    let spawns: Vec<&Effect> = effects
        .iter()
        .filter(|e| matches!(e, Effect::SpawnOpenConnection(..)))
        .collect();
    assert_eq!(spawns.len(), 1);
}

#[test]
fn selecting_a_table_runs_its_preview_query() {
    let mut app = app_with_local();
    let handle = ConnectionHandle { generation: 1 };
    let events = vec![
        AppEvent::ConnectionEstablished(handle),
        AppEvent::QueryResult(listing_result(), QueryTag::ListTables),
    ];
    app.process_batch(&events, &vec![]);
    assert_eq!(app.mode, Mode::ExploreTables);
    let (effects, _) = app.process_batch(&vec![], &vec![Action::MakeSelection]);
    let spawned: Vec<&Effect> =
        effects.iter().filter(|e| matches!(e, Effect::SpawnQuery(..))).collect();
    assert_eq!(spawned.len(), 1);
    let Effect::SpawnQuery(_, req) = spawned[0] else {
        unreachable!();
    };
    assert_eq!(req.statement, "SELECT * FROM \"users\" LIMIT 1000;");
}

#[test]
fn unsafe_table_name_from_listing_spawns_no_query() {
    let mut app = app_with_local();
    let handle = ConnectionHandle { generation: 1 };
    let listing = QueryResult {
        columns: vec!["table_schema".to_string(), "table_name".to_string()],
        rows: vec![vec!["public".to_string(), "users; DROP TABLE x".to_string()]],
    };
    app.process_batch(
        &vec![
            AppEvent::ConnectionEstablished(handle),
            AppEvent::QueryResult(listing, QueryTag::ListTables),
        ],
        &vec![],
    );
    let (effects, _) = app.process_batch(&vec![], &vec![Action::MakeSelection]);
    assert!(effects.iter().all(|e| !matches!(e, Effect::SpawnQuery(..))));
}

#[test]
fn structure_result_switches_to_structure_view() {
    let mut app = app_with_local();
    let structure = QueryResult {
        columns: vec!["column_name".to_string()],
        rows: vec![vec!["id".to_string()]],
    };
    app.process_batch(
        &vec![AppEvent::QueryResult(structure, QueryTag::TableStructure("users".to_string()))],
        &vec![],
    );
    assert_eq!(app.mode, Mode::ExploreStructure);
    assert!(app.components.structure_table.focused);
    assert_eq!(app.components.structure_table.table_name, Some("users".to_string()));
}

#[test]
fn yank_copies_the_selected_structure_cell() {
    let mut app = app_with_local();
    let structure = QueryResult {
        columns: vec!["column_name".to_string(), "data_type".to_string()],
        rows: vec![vec!["id".to_string(), "bigint".to_string()]],
    };
    app.process_batch(
        &vec![AppEvent::QueryResult(structure, QueryTag::TableStructure("users".to_string()))],
        &vec![],
    );
    let (effects, _) = app.process_batch(&vec![], &vec![Action::Yank]);
    assert_eq!(effects, vec![Effect::CopyToClipboard("id".to_string())]);
}

#[test]
fn quit_and_suspend_flags_follow_actions() {
    let mut app = app_with_local();
    app.process_batch(&vec![], &vec![Action::Suspend]);
    assert!(app.should_suspend);
    app.process_batch(&vec![], &vec![Action::Resume]);
    assert!(!app.should_suspend);
    assert!(!app.should_quit);
    app.process_batch(&vec![], &vec![Action::Quit]);
    assert!(app.should_quit);
}

#[test]
fn render_and_resize_become_effects() {
    let mut app = app_with_local();
    let (effects, _) = app.process_batch(
        &vec![],
        &vec![Action::Render, Action::Resize(80, 24), Action::ClearScreen],
    );
    assert_eq!(
        effects,
        vec![Effect::Render, Effect::Resize(80, 24), Effect::ClearScreen]
    );
}

#[test]
fn select_cell_fills_the_popups_and_clear_empties_them() {
    let mut app = app_with_local();
    app.process_batch(&vec![], &vec![Action::SelectCell("value".to_string())]);
    assert_eq!(app.components.cell_popup.content, Some("value".to_string()));
    assert_eq!(app.components.detail_popup.content, Some("value".to_string()));
    app.process_batch(&vec![], &vec![Action::Clear]);
    assert!(app.components.cell_popup.content.is_none());
    assert!(app.components.detail_popup.content.is_none());
}
