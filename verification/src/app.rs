//! The orchestrator: the mode state machine, the per-iteration
//! drains of the event and action queues, the keybinding front end,
//! and the dispatcher decisions for asynchronous database work.
//!
//! One iteration applies every queued app-event — together with the
//! actions those events produce — before it applies any queued
//! action; within each queue, order is first in, first out. Work
//! with side effects outside the core (drawing, spawning, the
//! clipboard) is returned as explicit effects for the caller to
//! perform; events produced while actions drain are handed back to
//! be queued for the next iteration.

use vstd::prelude::*;

use crate::action::{Action, ActionV, Mode};
use crate::app_event::{AppEvent, AppEventV, MessageType, QueryTag, QueryTagV};
use crate::components::{
    registry_emit_action,
    registry_emit_event,
    registry_emit_key,
    registry_step_action,
    registry_step_event,
    registry_step_key,
    ComponentRegistry,
    ComponentRegistryV,
};
use crate::components::schema_list::spec_schema_yank_text;
use crate::components::structure_table::spec_yank_text;
use crate::database::connection::{ConnectionConfig, ConnectionConfigV, ConnectionHandle};
use crate::database::system_query::QueryRequestV;
use crate::keys::{KeyBindingTable, KeyCode, KeyPress, ModeBindingsV, Resolution, ResolutionV};
use crate::keys::resolve_spec;
use crate::text::{dec_str, usize_to_string};

verus! {

/// Work the core asks its caller to perform: terminal housekeeping,
/// spawning asynchronous database tasks, and the clipboard. The
/// caller observes task completion only through the app-event queue.
#[derive(Debug, PartialEq, Eq)]
pub enum Effect {
    /// Draw a frame.
    Render,
    /// Clear the terminal.
    ClearScreen,
    /// Resize the terminal viewport.
    Resize(u16, u16),
    /// Open a connection with these parameters; on completion, send
    /// `ConnectionEstablished` with this handle, or a `UserMessage`
    /// error.
    SpawnOpenConnection(ConnectionHandle, ConnectionConfig),
    /// Run a query over the connection this handle stands for; on
    /// completion, send `QueryResult` with the request's tag, or a
    /// `UserMessage` error.
    SpawnQuery(ConnectionHandle, crate::database::system_query::QueryRequest),
    /// Put this text on the clipboard.
    CopyToClipboard(String),
}

/// The mathematical shape of an [`Effect`].
pub enum EffectV {
    Render,
    ClearScreen,
    Resize(u16, u16),
    SpawnOpenConnection(ConnectionHandle, ConnectionConfigV),
    SpawnQuery(ConnectionHandle, QueryRequestV),
    CopyToClipboard(Seq<char>),
}

impl View for Effect {
    type V = EffectV;

    open spec fn view(&self) -> EffectV {
        match self {
            Effect::Render => EffectV::Render,
            Effect::ClearScreen => EffectV::ClearScreen,
            Effect::Resize(w, h) => EffectV::Resize(*w, *h),
            Effect::SpawnOpenConnection(h, c) => EffectV::SpawnOpenConnection(*h, c@),
            Effect::SpawnQuery(h, q) => EffectV::SpawnQuery(*h, q@),
            Effect::CopyToClipboard(t) => EffectV::CopyToClipboard(t@),
        }
    }
}

impl DeepView for Effect {
    type V = EffectV;

    open spec fn deep_view(&self) -> EffectV {
        self.view()
    }
}

/// A terminal-side happening, already freed of its widget shape.
#[derive(Clone, Copy, Debug, PartialEq, Eq, Structural)]
pub enum InputEvent {
    Tick,
    Render,
    Quit,
    Resize(u16, u16),
    Key(KeyPress),
}

/// The orchestrator's state. Only the orchestrator loop touches it:
/// background tasks reach it solely by enqueuing app-events.
#[derive(Debug, PartialEq, Eq)]
pub struct App {
    pub mode: Mode,
    pub should_quit: bool,
    pub should_suspend: bool,
    pub pending_keys: Vec<KeyPress>,
    pub connection: Option<ConnectionHandle>,
    pub next_generation: u64,
    pub bindings: KeyBindingTable,
    pub directory: Vec<(String, ConnectionConfig)>,
    pub components: ComponentRegistry,
}

/// The mathematical shape of the orchestrator's state.
pub struct AppV {
    pub mode: Mode,
    pub should_quit: bool,
    pub should_suspend: bool,
    pub pending_keys: Seq<KeyPress>,
    pub connection: Option<ConnectionHandle>,
    pub next_generation: u64,
    pub bindings: Seq<ModeBindingsV>,
    pub directory: Seq<(Seq<char>, ConnectionConfigV)>,
    pub components: ComponentRegistryV,
}

impl View for App {
    type V = AppV;

    open spec fn view(&self) -> AppV {
        AppV {
            mode: self.mode,
            should_quit: self.should_quit,
            should_suspend: self.should_suspend,
            pending_keys: self.pending_keys@,
            connection: self.connection,
            next_generation: self.next_generation,
            bindings: self.bindings@,
            directory: self.directory.deep_view(),
            components: self.components@,
        }
    }
}

/// The configuration the directory resolves a name to: that of the
/// first entry with the name, if any.
pub open spec fn dir_lookup(d: Seq<(Seq<char>, ConnectionConfigV)>, name: Seq<char>) -> Option<
    ConnectionConfigV,
>
    decreases d.len(),
{
    if d.len() == 0 {
        None
    } else if d[0].0 == name {
        Some(d[0].1)
    } else {
        dir_lookup(d.skip(1), name)
    }
}

/// The next connection generation: one more, wrapping at the top.
pub open spec fn mint_generation(g: u64) -> u64 {
    if g == u64::MAX {
        0
    } else {
        (g + 1) as u64
    }
}

/// Whether an established handle is installed: always, when no
/// connection stands; otherwise only a strictly newer one, so a
/// stale success that loses a race cannot displace the winner.
pub open spec fn installs(s: AppV, h: ConnectionHandle) -> bool {
    match s.connection {
        None => true,
        Some(c) => h.generation > c.generation,
    }
}

/// How one action changes the core state (the components aside).
pub open spec fn core_step_action(s: AppV, a: ActionV) -> AppV {
    match a {
        ActionV::Tick => AppV { pending_keys: Seq::empty(), ..s },
        ActionV::Quit => AppV { should_quit: true, ..s },
        ActionV::Suspend => AppV { should_suspend: true, ..s },
        ActionV::Resume => AppV { should_suspend: false, ..s },
        ActionV::ChangeMode(m) => AppV { mode: m, ..s },
        ActionV::OpenConnection(n) => if dir_lookup(s.directory, n) is Some {
            AppV { next_generation: mint_generation(s.next_generation), ..s }
        } else {
            s
        },
        _ => s,
    }
}

/// How one action changes the whole state.
pub open spec fn step_action(s: AppV, a: ActionV) -> AppV {
    AppV { components: registry_step_action(s.components, a), ..core_step_action(s, a) }
}

/// The actions the components emit for one action.
pub open spec fn emit_action(s: AppV, a: ActionV) -> Seq<ActionV> {
    registry_emit_action(s.components, a)
}

/// The events one action produces: the dispatcher's synchronous
/// refusals — an unknown connection name, a query with no connection
/// standing.
pub open spec fn action_events(s: AppV, a: ActionV) -> Seq<AppEventV> {
    match a {
        ActionV::OpenConnection(n) => if dir_lookup(s.directory, n) is Some {
            Seq::empty()
        } else {
            seq![AppEventV::UserMessage(MessageType::Error, "Unknown connection."@)]
        },
        ActionV::ExecuteQuery(_) => if s.connection is Some {
            Seq::empty()
        } else {
            seq![AppEventV::UserMessage(MessageType::Error, "No connection established."@)]
        },
        _ => Seq::empty(),
    }
}

/// The text the focused component would put on the clipboard.
pub open spec fn yank_for_mode(s: AppV) -> Option<Seq<char>> {
    if s.mode == Mode::ExploreStructure {
        spec_yank_text(s.components.structure_table)
    } else if s.mode == Mode::ExploreSchemas {
        spec_schema_yank_text(s.components.schema_list)
    } else {
        None
    }
}

/// The effects one action asks the caller to perform.
pub open spec fn action_effects(s: AppV, a: ActionV) -> Seq<EffectV> {
    match a {
        ActionV::Render => seq![EffectV::Render],
        ActionV::ClearScreen => seq![EffectV::ClearScreen],
        ActionV::Resize(w, h) => seq![EffectV::Resize(w, h)],
        ActionV::OpenConnection(n) => match dir_lookup(s.directory, n) {
            Some(c) => seq![
                EffectV::SpawnOpenConnection(
                    ConnectionHandle { generation: mint_generation(s.next_generation) },
                    c,
                ),
            ],
            None => Seq::empty(),
        },
        ActionV::ExecuteQuery(q) => match s.connection {
            Some(h) => seq![EffectV::SpawnQuery(h, q)],
            None => Seq::empty(),
        },
        ActionV::Yank => match yank_for_mode(s) {
            Some(t) => seq![EffectV::CopyToClipboard(t)],
            None => Seq::empty(),
        },
        _ => Seq::empty(),
    }
}

/// How one event changes the core state: an established connection
/// installs its handle and moves to the table explorer.
pub open spec fn core_step_event(s: AppV, e: AppEventV) -> AppV {
    match e {
        AppEventV::ConnectionEstablished(h) => if installs(s, h) {
            AppV { connection: Some(h), mode: Mode::ExploreTables, ..s }
        } else {
            s
        },
        _ => s,
    }
}

/// How one event changes the whole state.
pub open spec fn step_event(s: AppV, e: AppEventV) -> AppV {
    AppV { components: registry_step_event(s.components, e), ..core_step_event(s, e) }
}

/// The events one event produces: a user query's result is also
/// summarised on the message surface.
pub open spec fn event_events(s: AppV, e: AppEventV) -> Seq<AppEventV> {
    match e {
        AppEventV::QueryResult(res, QueryTagV::User) => seq![
            AppEventV::UserMessage(MessageType::Info, dec_str(res.rows.len()) + " results"@),
        ],
        _ => Seq::empty(),
    }
}

/// The actions one event produces: the core's mode change on an
/// installed connection, then whatever the components emit.
pub open spec fn event_actions(s: AppV, e: AppEventV) -> Seq<ActionV> {
    (match e {
        AppEventV::ConnectionEstablished(h) => if installs(s, h) {
            seq![ActionV::ChangeMode(Mode::ExploreTables)]
        } else {
            Seq::<ActionV>::empty()
        },
        _ => Seq::<ActionV>::empty(),
    }) + registry_emit_event(s.components, e)
}

/// The result of draining one action queue: the final state, and
/// the actions, events and effects produced, in order.
pub struct ActionPassV {
    pub state: AppV,
    pub emitted: Seq<ActionV>,
    pub events: Seq<AppEventV>,
    pub effects: Seq<EffectV>,
}

/// Drains one queue of actions, first in first out, collecting what
/// each action produces against the state it meets.
pub open spec fn run_action_pass(s: AppV, q: Seq<ActionV>) -> ActionPassV
    decreases q.len(),
{
    if q.len() == 0 {
        ActionPassV { state: s, emitted: Seq::empty(), events: Seq::empty(), effects: Seq::empty() }
    } else {
        let prev = run_action_pass(s, q.drop_last());
        let a = q.last();
        ActionPassV {
            state: step_action(prev.state, a),
            emitted: prev.emitted + emit_action(prev.state, a),
            events: prev.events + action_events(prev.state, a),
            effects: prev.effects + action_effects(prev.state, a),
        }
    }
}

/// The result of draining one event queue.
pub struct EventPassV {
    pub state: AppV,
    pub actions: Seq<ActionV>,
    pub events: Seq<AppEventV>,
}

/// Drains one queue of events, first in first out.
pub open spec fn run_event_pass(s: AppV, q: Seq<AppEventV>) -> EventPassV
    decreases q.len(),
{
    if q.len() == 0 {
        EventPassV { state: s, actions: Seq::empty(), events: Seq::empty() }
    } else {
        let prev = run_event_pass(s, q.drop_last());
        let e = q.last();
        EventPassV {
            state: step_event(prev.state, e),
            actions: prev.actions + event_actions(prev.state, e),
            events: prev.events + event_events(prev.state, e),
        }
    }
}

/// The result of one whole iteration over both queues.
pub struct BatchOutV {
    pub state: AppV,
    pub effects: Seq<EffectV>,
    pub deferred: Seq<AppEventV>,
}

/// One iteration: the queued events are applied first, then the
/// events they produced, then the actions the event phase emitted,
/// then the queued actions, then in turn the actions those emitted.
/// Events produced while actions drain are deferred to the next
/// iteration. The cascade ends there: emitted actions emit nothing
/// further, and a second round of events produces neither events nor
/// actions (`lemma_emissions_settle`).
pub open spec fn process_batch_spec(s: AppV, events: Seq<AppEventV>, actions: Seq<ActionV>) -> BatchOutV {
    let p1 = run_event_pass(s, events);
    let p2 = run_event_pass(p1.state, p1.events);
    let pa = run_action_pass(p2.state, p1.actions + p2.actions);
    let pb = run_action_pass(pa.state, pa.emitted);
    let q1 = run_action_pass(pb.state, actions);
    let q2 = run_action_pass(q1.state, q1.emitted);
    BatchOutV {
        state: q2.state,
        effects: pa.effects + pb.effects + q1.effects + q2.effects,
        deferred: pa.events + pb.events + q1.events + q2.events,
    }
}

/// The actions that ever stand in an emission: what components and
/// the event phase can produce.
pub open spec fn is_emission(a: ActionV) -> bool {
    ||| a is OpenConnection
    ||| a is ExecuteQuery
    ||| a is ChangeSchema
    ||| a is SelectCell
    ||| a is Error
    ||| a is ChangeMode
}

/// Everything a component emits for an action is an emission.
proof fn lemma_emitted_are_emissions(s: AppV, a: ActionV)
    ensures
        forall|i: int|
            0 <= i < emit_action(s, a).len() ==> is_emission(#[trigger] emit_action(s, a)[i]),
{
}

/// Everything the event phase emits is an emission.
proof fn lemma_event_emitted_are_emissions(s: AppV, e: AppEventV)
    ensures
        forall|i: int|
            0 <= i < event_actions(s, e).len() ==> is_emission(#[trigger] event_actions(s, e)[i]),
{
}

/// An emission makes no component emit anything further.
proof fn lemma_emission_emits_nothing(s: AppV, a: ActionV)
    requires
        is_emission(a),
    ensures
        emit_action(s, a) =~= Seq::<ActionV>::empty(),
{
}

/// The actions collected by an event pass are all emissions.
proof fn lemma_event_pass_actions_are_emissions(s: AppV, q: Seq<AppEventV>)
    ensures
        forall|i: int|
            0 <= i < run_event_pass(s, q).actions.len() ==> is_emission(
                #[trigger] run_event_pass(s, q).actions[i],
            ),
    decreases q.len(),
{
    if q.len() > 0 {
        lemma_event_pass_actions_are_emissions(s, q.drop_last());
        lemma_event_emitted_are_emissions(run_event_pass(s, q.drop_last()).state, q.last());
    }
}

/// The actions collected by an action pass are all emissions.
proof fn lemma_action_pass_emitted_are_emissions(s: AppV, q: Seq<ActionV>)
    ensures
        forall|i: int|
            0 <= i < run_action_pass(s, q).emitted.len() ==> is_emission(
                #[trigger] run_action_pass(s, q).emitted[i],
            ),
    decreases q.len(),
{
    if q.len() > 0 {
        lemma_action_pass_emitted_are_emissions(s, q.drop_last());
        lemma_emitted_are_emissions(run_action_pass(s, q.drop_last()).state, q.last());
    }
}

/// A pass over emissions emits nothing: the cascade of follow-up
/// actions settles after one round.
pub proof fn lemma_emissions_settle(s: AppV, q: Seq<ActionV>)
    requires
        forall|i: int| 0 <= i < q.len() ==> is_emission(#[trigger] q[i]),
    ensures
        run_action_pass(s, q).emitted =~= Seq::<ActionV>::empty(),
    decreases q.len(),
{
    if q.len() > 0 {
        lemma_emissions_settle(s, q.drop_last());
        lemma_emission_emits_nothing(run_action_pass(s, q.drop_last()).state, q.last());
    }
}

/// Every event an event produces is a user message.
proof fn lemma_event_events_are_messages(s: AppV, e: AppEventV)
    ensures
        forall|i: int|
            0 <= i < event_events(s, e).len() ==> (#[trigger] event_events(s, e)[i])
                is UserMessage,
{
}

/// The events collected by an event pass are all user messages.
proof fn lemma_event_pass_events_are_messages(s: AppV, q: Seq<AppEventV>)
    ensures
        forall|i: int|
            0 <= i < run_event_pass(s, q).events.len() ==> (
            #[trigger] run_event_pass(s, q).events[i]) is UserMessage,
    decreases q.len(),
{
    if q.len() > 0 {
        lemma_event_pass_events_are_messages(s, q.drop_last());
        lemma_event_events_are_messages(run_event_pass(s, q.drop_last()).state, q.last());
    }
}

/// A pass over user messages produces neither events nor actions:
/// the event cascade settles after one round.
pub proof fn lemma_messages_settle(s: AppV, q: Seq<AppEventV>)
    requires
        forall|i: int| 0 <= i < q.len() ==> (#[trigger] q[i]) is UserMessage,
    ensures
        run_event_pass(s, q).events =~= Seq::<AppEventV>::empty(),
        run_event_pass(s, q).actions =~= Seq::<ActionV>::empty(),
    decreases q.len(),
{
    if q.len() > 0 {
        lemma_messages_settle(s, q.drop_last());
    }
}

/// Re-sending a mode change is idempotent: the second `ChangeMode`
/// leaves the whole state — focus flags included — exactly as the
/// first left it.
pub proof fn lemma_change_mode_idempotent(s: AppV, m: Mode)
    ensures
        step_action(step_action(s, ActionV::ChangeMode(m)), ActionV::ChangeMode(m)) == step_action(
            s,
            ActionV::ChangeMode(m),
        ),
{
}

/// The global mode shortcuts: always active, outside the binding
/// table, one fixed alt-combination for each of the five non-menu
/// modes.
pub open spec fn spec_global_shortcut(k: KeyPress) -> Option<Mode> {
    if k.alt && !k.ctrl {
        match k.code {
            KeyCode::Char(c) => if c == '1' {
                Some(Mode::EditQuery)
            } else if c == '2' {
                Some(Mode::ExploreResults)
            } else if c == '3' {
                Some(Mode::ExploreTables)
            } else if c == '4' {
                Some(Mode::ExploreStructure)
            } else if c == '5' {
                Some(Mode::ExploreSchemas)
            } else {
                None
            },
            _ => None,
        }
    } else {
        None
    }
}

/// The pending sequence after a key press: cleared on a match or a
/// miss, kept while a longer chord may still arrive.
pub open spec fn key_pending(s: AppV, k: KeyPress) -> Seq<KeyPress> {
    match resolve_spec(s.bindings, s.mode, s.pending_keys.push(k)) {
        ResolutionV::PendingLonger => s.pending_keys.push(k),
        _ => Seq::empty(),
    }
}

/// The actions a key press produces: the resolved binding, or the
/// global shortcut once nothing is bound at or beyond the sequence;
/// then whatever the key-reading components emit.
pub open spec fn key_actions(s: AppV, k: KeyPress) -> Seq<ActionV> {
    (match resolve_spec(s.bindings, s.mode, s.pending_keys.push(k)) {
        ResolutionV::Matched(a) => seq![a],
        ResolutionV::PendingLonger => Seq::<ActionV>::empty(),
        ResolutionV::NoMatch => match spec_global_shortcut(k) {
            Some(m) => seq![ActionV::ChangeMode(m)],
            None => Seq::<ActionV>::empty(),
        },
    }) + registry_emit_key(s.components, k)
}

/// How a key press changes the state: the pending sequence moves and
/// the key-reading components see the raw key.
pub open spec fn step_key(s: AppV, k: KeyPress) -> AppV {
    AppV {
        pending_keys: key_pending(s, k),
        components: registry_step_key(s.components, k),
        ..s
    }
}

/// How a terminal happening changes the state, and the actions to
/// queue for it.
pub open spec fn handle_input_spec(s: AppV, ev: InputEvent) -> (AppV, Seq<ActionV>) {
    match ev {
        InputEvent::Tick => (s, seq![ActionV::Tick]),
        InputEvent::Render => (s, seq![ActionV::Render]),
        InputEvent::Quit => (s, seq![ActionV::Quit]),
        InputEvent::Resize(w, h) => (s, seq![ActionV::Resize(w, h)]),
        InputEvent::Key(k) => (step_key(s, k), key_actions(s, k)),
    }
}

/// Appends one vector to another, at the level of their views.
fn append_dv<T: DeepView>(dst: &mut Vec<T>, src: Vec<T>)
    ensures
        final(dst).deep_view() == old(dst).deep_view() + src.deep_view(),
{
    let ghost d_prev = dst.deep_view();
    let mut s = src;
    dst.append(&mut s);
    proof {
        assert(dst.deep_view() =~= d_prev + src.deep_view());
    }
}

impl App {
    /// A fresh orchestrator over a binding table and a connection
    /// directory: connection-menu mode, no flags, no pending keys,
    /// no connection; the menu offers the directory's names.
    pub fn new(bindings: KeyBindingTable, directory: Vec<(String, ConnectionConfig)>) -> (r: App)
        ensures
            r@.mode == Mode::ConnectionMenu,
            !r@.should_quit,
            !r@.should_suspend,
            r@.pending_keys =~= Seq::<KeyPress>::empty(),
            r@.connection is None,
            r@.next_generation == 0,
            r@.bindings == bindings@,
            r@.directory == directory.deep_view(),
            r@.components.connection_menu.items =~= Seq::new(
                directory.deep_view().len(),
                |i: int| directory.deep_view()[i].0,
            ),
            r@.components.connection_menu.focused,
            r@.components.messages.message is None,
    {
        let ghost dir = directory.deep_view();
        let mut names: Vec<String> = Vec::new();
        let mut i: usize = 0;
        while i < directory.len()
            invariant
                i <= directory.len(),
                dir == directory.deep_view(),
                dir.len() == directory.len(),
                names.deep_view() =~= Seq::new(i as nat, |j: int| dir[j].0),
            decreases directory.len() - i,
        {
            let ghost d_prev = names.deep_view();
            names.push(directory[i].0.clone());
            proof {
                assert(names.deep_view() =~= d_prev.push(dir[i as int].0));
                assert(names.deep_view() =~= Seq::new((i + 1) as nat, |j: int| dir[j].0));
            }
            i = i + 1;
        }
        App {
            mode: Mode::ConnectionMenu,
            should_quit: false,
            should_suspend: false,
            pending_keys: Vec::new(),
            connection: None,
            next_generation: 0,
            bindings,
            directory,
            components: ComponentRegistry::new(names),
        }
    }

    /// Resolves a connection name against the directory.
    fn lookup_connection(&self, name: &String) -> (r: Option<ConnectionConfig>)
        ensures
            r.deep_view() == dir_lookup(self@.directory, name@),
    {
        let ghost d = self@.directory;
        proof {
            assert(d.skip(0) =~= d);
        }
        let mut i: usize = 0;
        while i < self.directory.len()
            invariant
                i <= self.directory.len(),
                d == self@.directory,
                d.len() == self.directory.len(),
                forall|j: int| 0 <= j < i ==> (#[trigger] d[j].0) != name@,
                dir_lookup(d.skip(i as int), name@) == dir_lookup(d, name@),
            decreases self.directory.len() - i,
        {
            proof {
                assert(d.skip(i as int)[0] == d[i as int]);
                assert(d.skip(i as int).skip(1) =~= d.skip(i + 1));
            }
            if self.directory[i].0 == *name {
                return Some(self.directory[i].1.duplicate());
            }
            i = i + 1;
        }
        proof {
            assert(d.skip(i as int).len() == 0);
        }
        None
    }

    /// Applies one action: the core transition, then the broadcast
    /// to every component. Returns the actions the components
    /// emitted, the events produced, and the effects to perform.
    fn apply_action(&mut self, a: &Action) -> (r: (Vec<Action>, Vec<AppEvent>, Vec<Effect>))
        ensures
            final(self)@ == step_action(old(self)@, a@),
            r.0.deep_view() == emit_action(old(self)@, a@),
            r.1.deep_view() == action_events(old(self)@, a@),
            r.2.deep_view() == action_effects(old(self)@, a@),
    {
        let mut events: Vec<AppEvent> = Vec::new();
        let mut effects: Vec<Effect> = Vec::new();
        match a {
            Action::Tick => {
                self.pending_keys = Vec::new();
            },
            Action::Quit => {
                self.should_quit = true;
            },
            Action::Suspend => {
                self.should_suspend = true;
            },
            Action::Resume => {
                self.should_suspend = false;
            },
            Action::ChangeMode(m) => {
                self.mode = *m;
            },
            Action::Render => {
                effects.push(Effect::Render);
            },
            Action::ClearScreen => {
                effects.push(Effect::ClearScreen);
            },
            Action::Resize(w, h) => {
                effects.push(Effect::Resize(*w, *h));
            },
            Action::OpenConnection(n) => {
                match self.lookup_connection(n) {
                    Some(cfg) => {
                        self.next_generation = if self.next_generation == u64::MAX {
                            0
                        } else {
                            self.next_generation + 1
                        };
                        effects.push(
                            Effect::SpawnOpenConnection(
                                ConnectionHandle { generation: self.next_generation },
                                cfg,
                            ),
                        );
                    },
                    None => {
                        events.push(
                            AppEvent::UserMessage(
                                MessageType::Error,
                                "Unknown connection.".to_owned(),
                            ),
                        );
                    },
                }
            },
            Action::ExecuteQuery(q) => {
                match &self.connection {
                    Some(h) => {
                        effects.push(Effect::SpawnQuery(*h, q.duplicate()));
                    },
                    None => {
                        events.push(
                            AppEvent::UserMessage(
                                MessageType::Error,
                                "No connection established.".to_owned(),
                            ),
                        );
                    },
                }
            },
            Action::Yank => {
                let t = match self.mode {
                    Mode::ExploreStructure => self.components.structure_table.yank_text(),
                    Mode::ExploreSchemas => self.components.schema_list.yank_text(),
                    _ => None,
                };
                if let Some(text) = t {
                    effects.push(Effect::CopyToClipboard(text));
                }
            },
            _ => {},
        }
        let emitted = self.components.update_all(a);
        proof {
            assert(events.deep_view() =~= action_events(old(self)@, a@));
            assert(effects.deep_view() =~= action_effects(old(self)@, a@));
        }
        (emitted, events, effects)
    }

    /// Applies one event: the core transition, then the broadcast to
    /// every component. Returns the actions produced — the core's
    /// own first — and the events produced.
    fn apply_event(&mut self, e: &AppEvent) -> (r: (Vec<Action>, Vec<AppEvent>))
        ensures
            final(self)@ == step_event(old(self)@, e@),
            r.0.deep_view() == event_actions(old(self)@, e@),
            r.1.deep_view() == event_events(old(self)@, e@),
    {
        let mut actions: Vec<Action> = Vec::new();
        let mut events: Vec<AppEvent> = Vec::new();
        match e {
            AppEvent::ConnectionEstablished(h) => {
                let ok = match &self.connection {
                    None => true,
                    Some(c) => h.generation > c.generation,
                };
                if ok {
                    self.connection = Some(*h);
                    self.mode = Mode::ExploreTables;
                    actions.push(Action::ChangeMode(Mode::ExploreTables));
                }
            },
            AppEvent::QueryResult(res, QueryTag::User) => {
                let mut m = usize_to_string(res.rows.len());
                m.append(" results");
                events.push(AppEvent::UserMessage(MessageType::Info, m));
            },
            _ => {},
        }
        let reg = self.components.handle_app_event_all(e);
        append_dv(&mut actions, reg);
        (actions, events)
    }

    /// Drains one queue of actions, first in first out.
    fn run_actions(&mut self, q: &Vec<Action>) -> (r: (Vec<Action>, Vec<AppEvent>, Vec<Effect>))
        ensures
            final(self)@ == run_action_pass(old(self)@, q.deep_view()).state,
            r.0.deep_view() == run_action_pass(old(self)@, q.deep_view()).emitted,
            r.1.deep_view() == run_action_pass(old(self)@, q.deep_view()).events,
            r.2.deep_view() == run_action_pass(old(self)@, q.deep_view()).effects,
    {
        let ghost s0 = self@;
        let ghost qv = q.deep_view();
        let mut emitted: Vec<Action> = Vec::new();
        let mut events: Vec<AppEvent> = Vec::new();
        let mut effects: Vec<Effect> = Vec::new();
        let mut i: usize = 0;
        proof {
            assert(qv.take(0) =~= Seq::<ActionV>::empty());
        }
        while i < q.len()
            invariant
                i <= q.len(),
                qv == q.deep_view(),
                qv.len() == q.len(),
                self@ == run_action_pass(s0, qv.take(i as int)).state,
                emitted.deep_view() == run_action_pass(s0, qv.take(i as int)).emitted,
                events.deep_view() == run_action_pass(s0, qv.take(i as int)).events,
                effects.deep_view() == run_action_pass(s0, qv.take(i as int)).effects,
            decreases q.len() - i,
        {
            let (em, ev, ef) = self.apply_action(&q[i]);
            append_dv(&mut emitted, em);
            append_dv(&mut events, ev);
            append_dv(&mut effects, ef);
            proof {
                let taken = qv.take(i + 1);
                assert(taken.drop_last() =~= qv.take(i as int));
                assert(taken.last() == qv[i as int]);
                assert(qv[i as int] == q@[i as int].deep_view());
            }
            i = i + 1;
        }
        proof {
            assert(qv.take(qv.len() as int) =~= qv);
        }
        (emitted, events, effects)
    }

    /// Drains one queue of events, first in first out.
    fn run_events(&mut self, q: &Vec<AppEvent>) -> (r: (Vec<Action>, Vec<AppEvent>))
        ensures
            final(self)@ == run_event_pass(old(self)@, q.deep_view()).state,
            r.0.deep_view() == run_event_pass(old(self)@, q.deep_view()).actions,
            r.1.deep_view() == run_event_pass(old(self)@, q.deep_view()).events,
    {
        let ghost s0 = self@;
        let ghost qv = q.deep_view();
        let mut actions: Vec<Action> = Vec::new();
        let mut events: Vec<AppEvent> = Vec::new();
        let mut i: usize = 0;
        proof {
            assert(qv.take(0) =~= Seq::<AppEventV>::empty());
        }
        while i < q.len()
            invariant
                i <= q.len(),
                qv == q.deep_view(),
                qv.len() == q.len(),
                self@ == run_event_pass(s0, qv.take(i as int)).state,
                actions.deep_view() == run_event_pass(s0, qv.take(i as int)).actions,
                events.deep_view() == run_event_pass(s0, qv.take(i as int)).events,
            decreases q.len() - i,
        {
            let (ac, ev) = self.apply_event(&q[i]);
            append_dv(&mut actions, ac);
            append_dv(&mut events, ev);
            proof {
                let taken = qv.take(i + 1);
                assert(taken.drop_last() =~= qv.take(i as int));
                assert(taken.last() == qv[i as int]);
                assert(qv[i as int] == q@[i as int].deep_view());
            }
            i = i + 1;
        }
        proof {
            assert(qv.take(qv.len() as int) =~= qv);
        }
        (actions, events)
    }

    /// One iteration of the orchestrator over everything currently
    /// queued: all events first — with the actions they produce —
    /// then all actions. Returns the effects to perform, in order,
    /// and the events to queue for the next iteration.
    pub fn process_batch(&mut self, events: &Vec<AppEvent>, actions: &Vec<Action>) -> (r: (
        Vec<Effect>,
        Vec<AppEvent>,
    ))
        ensures
            final(self)@ == process_batch_spec(
                old(self)@,
                events.deep_view(),
                actions.deep_view(),
            ).state,
            r.0.deep_view() == process_batch_spec(
                old(self)@,
                events.deep_view(),
                actions.deep_view(),
            ).effects,
            r.1.deep_view() == process_batch_spec(
                old(self)@,
                events.deep_view(),
                actions.deep_view(),
            ).deferred,
    {
        let ghost s0 = self@;
        let ghost p1 = run_event_pass(s0, events.deep_view());
        let ghost p2 = run_event_pass(p1.state, p1.events);
        let (acts1, evs1) = self.run_events(events);
        proof {
            lemma_event_pass_events_are_messages(s0, events.deep_view());
        }
        let (acts2, evs2) = self.run_events(&evs1);
        proof {
            // The second round of events was all user messages: it
            // produced nothing further, so the event phase is done.
            lemma_messages_settle(p1.state, evs1.deep_view());
            assert(evs2.deep_view().len() == 0);
            assert(acts2.deep_view().len() == 0);
        }
        let mut phase_actions = acts1;
        append_dv(&mut phase_actions, acts2);
        let ghost pa = run_action_pass(p2.state, phase_actions.deep_view());
        let (em_a, ev_a, mut eff) = self.run_actions(&phase_actions);
        proof {
            lemma_event_pass_actions_are_emissions(s0, events.deep_view());
            lemma_action_pass_emitted_are_emissions(p2.state, phase_actions.deep_view());
        }
        let ghost pb = run_action_pass(pa.state, em_a.deep_view());
        let (em_b, ev_b, ef_b) = self.run_actions(&em_a);
        proof {
            // Emissions emit nothing: the event phase's cascade ends.
            lemma_emissions_settle(pa.state, em_a.deep_view());
            assert(em_b.deep_view().len() == 0);
        }
        let ghost q1 = run_action_pass(pb.state, actions.deep_view());
        let (em_1, ev_1, ef_1) = self.run_actions(actions);
        proof {
            lemma_action_pass_emitted_are_emissions(pb.state, actions.deep_view());
        }
        let (em_2, ev_2, ef_2) = self.run_actions(&em_1);
        proof {
            // The queued actions' cascade ends the same way.
            lemma_emissions_settle(q1.state, em_1.deep_view());
            assert(em_2.deep_view().len() == 0);
        }
        append_dv(&mut eff, ef_b);
        append_dv(&mut eff, ef_1);
        append_dv(&mut eff, ef_2);
        let mut deferred = ev_a;
        append_dv(&mut deferred, ev_b);
        append_dv(&mut deferred, ev_1);
        append_dv(&mut deferred, ev_2);
        (eff, deferred)
    }

    /// Converts one terminal happening into queued actions: the
    /// resolver and the global shortcuts for a key press, and the
    /// raw key handed to the components that read keys.
    pub fn handle_input(&mut self, ev: InputEvent) -> (out: Vec<Action>)
        ensures
            final(self)@ == handle_input_spec(old(self)@, ev).0,
            out.deep_view() == handle_input_spec(old(self)@, ev).1,
    {
        let mut out: Vec<Action> = Vec::new();
        match ev {
            InputEvent::Tick => {
                out.push(Action::Tick);
            },
            InputEvent::Render => {
                out.push(Action::Render);
            },
            InputEvent::Quit => {
                out.push(Action::Quit);
            },
            InputEvent::Resize(w, h) => {
                out.push(Action::Resize(w, h));
            },
            InputEvent::Key(k) => {
                self.pending_keys.push(k);
                match self.bindings.resolve(self.mode, &self.pending_keys) {
                    Resolution::Matched(a) => {
                        self.pending_keys = Vec::new();
                        out.push(a);
                    },
                    Resolution::PendingLonger => {},
                    Resolution::NoMatch => {
                        self.pending_keys = Vec::new();
                        if let Some(m) = Self::global_shortcut(&k) {
                            out.push(Action::ChangeMode(m));
                        }
                    },
                }
                let reg = self.components.handle_key_all(&k);
                append_dv(&mut out, reg);
            },
        }
        out
    }

    /// The global mode shortcut a key press hits, if any.
    fn global_shortcut(k: &KeyPress) -> (r: Option<Mode>)
        ensures
            r == spec_global_shortcut(*k),
    {
        if k.alt && !k.ctrl {
            match k.code {
                KeyCode::Char('1') => Some(Mode::EditQuery),
                KeyCode::Char('2') => Some(Mode::ExploreResults),
                KeyCode::Char('3') => Some(Mode::ExploreTables),
                KeyCode::Char('4') => Some(Mode::ExploreStructure),
                KeyCode::Char('5') => Some(Mode::ExploreSchemas),
                _ => None,
            }
        } else {
            None
        }
    }
}

} // verus!
