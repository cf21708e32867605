//! Core of an interactive terminal client for browsing a relational
//! database: the action/event model, the keybinding resolver, the
//! mode state machine, the component registry, the layout planner,
//! and the dispatcher decisions that drive asynchronous database work.
//!
//! Everything here is pure logic over plain values; terminal I/O,
//! widget drawing and the database wire protocol live outside and
//! communicate with the core through actions, app-events and
//! effects.

pub mod action;
pub mod app;
pub mod app_event;
pub mod components;
pub mod database;
pub mod keys;
pub mod render_plan;
pub mod text;

pub use action::Action;
pub use action::Mode;
pub use app::App;
pub use app_event::AppEvent;
