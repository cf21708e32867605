//! The UI components and the registry that dispatches to them. Each
//! component is a closed variant with its own state and transition
//! functions; the registry holds one of each under a stable identity
//! and broadcasts actions, events and key presses in a fixed order,
//! collecting the actions they emit.

pub mod cell_popup;
pub mod connection_menu;
pub mod detail_popup;
pub mod messages;
pub mod results_table;
pub mod schema_list;
pub mod structure_table;
pub mod table_list;
pub mod text_editor;
pub mod title;

use vstd::prelude::*;

use crate::action::{Action, ActionV};
use crate::app_event::{AppEvent, AppEventV};
use crate::keys::KeyPress;
use cell_popup::{CellPopup, CellPopupV};
use connection_menu::{ConnectionMenu, ConnectionMenuV};
use detail_popup::{DetailPopup, DetailPopupV};
use messages::{Messages, MessagesV};
use results_table::{ResultsTable, ResultsTableV};
use schema_list::{SchemaList, SchemaListV};
use structure_table::{StructureTable, StructureTableV};
use table_list::{TableList, TableListV};
use text_editor::{TextEditor, TextEditorV};
use title::Title;

verus! {

/// One of each component, dispatched to in a fixed order. The title
/// banner carries no state and takes part only in drawing.
#[derive(Debug, PartialEq, Eq)]
pub struct ComponentRegistry {
    pub title: Title,
    pub connection_menu: ConnectionMenu,
    pub text_editor: TextEditor,
    pub results_table: ResultsTable,
    pub structure_table: StructureTable,
    pub table_list: TableList,
    pub schema_list: SchemaList,
    pub messages: Messages,
    pub cell_popup: CellPopup,
    pub detail_popup: DetailPopup,
}

/// The mathematical shape of the registry: every stateful component.
pub struct ComponentRegistryV {
    pub connection_menu: ConnectionMenuV,
    pub text_editor: TextEditorV,
    pub results_table: ResultsTableV,
    pub structure_table: StructureTableV,
    pub table_list: TableListV,
    pub schema_list: SchemaListV,
    pub messages: MessagesV,
    pub cell_popup: CellPopupV,
    pub detail_popup: DetailPopupV,
}

impl View for ComponentRegistry {
    type V = ComponentRegistryV;

    open spec fn view(&self) -> ComponentRegistryV {
        ComponentRegistryV {
            connection_menu: self.connection_menu@,
            text_editor: self.text_editor@,
            results_table: self.results_table@,
            structure_table: self.structure_table@,
            table_list: self.table_list@,
            schema_list: self.schema_list@,
            messages: self.messages@,
            cell_popup: self.cell_popup@,
            detail_popup: self.detail_popup@,
        }
    }
}

/// A component's optional emission as a (possibly empty) sequence.
pub open spec fn opt_seq(o: Option<ActionV>) -> Seq<ActionV> {
    match o {
        Some(a) => seq![a],
        None => Seq::empty(),
    }
}

/// Every component stepped by one action.
pub open spec fn registry_step_action(r: ComponentRegistryV, a: ActionV) -> ComponentRegistryV {
    ComponentRegistryV {
        connection_menu: ConnectionMenu::step(r.connection_menu, a),
        text_editor: TextEditor::step(r.text_editor, a),
        results_table: ResultsTable::step(r.results_table, a),
        structure_table: StructureTable::step(r.structure_table, a),
        table_list: TableList::step(r.table_list, a),
        schema_list: SchemaList::step(r.schema_list, a),
        messages: Messages::step(r.messages, a),
        cell_popup: CellPopup::step(r.cell_popup, a),
        detail_popup: DetailPopup::step(r.detail_popup, a),
    }
}

/// What the components say to one action, in registry order.
pub open spec fn registry_emit_action(r: ComponentRegistryV, a: ActionV) -> Seq<ActionV> {
    opt_seq(ConnectionMenu::emit(r.connection_menu, a)) + opt_seq(
        ResultsTable::emit(r.results_table, a),
    ) + opt_seq(TableList::emit(r.table_list, a)) + opt_seq(SchemaList::emit(r.schema_list, a))
}

/// Every component stepped by one event.
pub open spec fn registry_step_event(r: ComponentRegistryV, e: AppEventV) -> ComponentRegistryV {
    ComponentRegistryV {
        results_table: ResultsTable::event_step(r.results_table, e),
        structure_table: StructureTable::event_step(r.structure_table, e),
        table_list: TableList::event_step(r.table_list, e),
        schema_list: SchemaList::event_step(r.schema_list, e),
        messages: Messages::event_step(r.messages, e),
        ..r
    }
}

/// What the components say to one event, in registry order.
pub open spec fn registry_emit_event(r: ComponentRegistryV, e: AppEventV) -> Seq<ActionV> {
    opt_seq(StructureTable::event_emit(r.structure_table, e)) + opt_seq(
        TableList::event_emit(r.table_list, e),
    )
}

/// Every component stepped by one raw key press.
pub open spec fn registry_step_key(r: ComponentRegistryV, k: KeyPress) -> ComponentRegistryV {
    ComponentRegistryV {
        text_editor: TextEditor::key_step(r.text_editor, k),
        schema_list: SchemaList::key_step(r.schema_list, k),
        ..r
    }
}

/// What the components say to one raw key press.
pub open spec fn registry_emit_key(r: ComponentRegistryV, k: KeyPress) -> Seq<ActionV> {
    opt_seq(TextEditor::key_emit(r.text_editor, k))
}

impl ComponentRegistry {
    /// A fresh registry; the connection menu offers the given names.
    pub fn new(connection_names: Vec<String>) -> (r: ComponentRegistry)
        ensures
            r@.connection_menu.items == connection_names.deep_view(),
            r@.connection_menu.selected == 0,
            r@.connection_menu.focused,
            r@.text_editor.lines =~= seq![Seq::<char>::empty()],
            !r@.text_editor.focused,
            r@.results_table.rows =~= Seq::<Seq<Seq<char>>>::empty(),
            !r@.results_table.focused,
            r@.structure_table.rows =~= Seq::<Seq<Seq<char>>>::empty(),
            r@.structure_table.table_name is None,
            !r@.structure_table.focused,
            r@.table_list.entries =~= Seq::<(Seq<char>, Seq<char>)>::empty(),
            r@.table_list.schema_filter is None,
            !r@.table_list.focused,
            r@.schema_list.items =~= Seq::<Seq<char>>::empty(),
            r@.schema_list.focus == schema_list::SchemaFocus::Inactive,
            r@.schema_list.search =~= Seq::<char>::empty(),
            r@.messages.message is None,
            r@.cell_popup.content is None,
            r@.detail_popup.content is None,
    {
        ComponentRegistry {
            title: Title {  },
            connection_menu: ConnectionMenu::new(connection_names),
            text_editor: TextEditor::new(),
            results_table: ResultsTable::new(),
            structure_table: StructureTable::new(),
            table_list: TableList::new(),
            schema_list: SchemaList::new(),
            messages: Messages::new(),
            cell_popup: CellPopup::new(),
            detail_popup: DetailPopup::new(),
        }
    }

    /// Broadcasts one action to every component, in registry order,
    /// and collects the actions they emit.
    pub fn update_all(&mut self, a: &Action) -> (out: Vec<Action>)
        ensures
            final(self)@ == registry_step_action(old(self)@, a@),
            out.deep_view() == registry_emit_action(old(self)@, a@),
    {
        let mut out: Vec<Action> = Vec::new();
        if let Some(x) = self.connection_menu.update(a) {
            out.push(x);
        }
        let _ = self.text_editor.update(a);
        if let Some(x) = self.results_table.update(a) {
            out.push(x);
        }
        let _ = self.structure_table.update(a);
        if let Some(x) = self.table_list.update(a) {
            out.push(x);
        }
        if let Some(x) = self.schema_list.update(a) {
            out.push(x);
        }
        let _ = self.messages.update(a);
        let _ = self.cell_popup.update(a);
        let _ = self.detail_popup.update(a);
        proof {
            assert(out.deep_view() =~= registry_emit_action(old(self)@, a@));
        }
        out
    }

    /// Broadcasts one event to every component, in registry order,
    /// and collects the actions they emit.
    pub fn handle_app_event_all(&mut self, e: &AppEvent) -> (out: Vec<Action>)
        ensures
            final(self)@ == registry_step_event(old(self)@, e@),
            out.deep_view() == registry_emit_event(old(self)@, e@),
    {
        let mut out: Vec<Action> = Vec::new();
        let _ = self.results_table.handle_app_event(e);
        if let Some(x) = self.structure_table.handle_app_event(e) {
            out.push(x);
        }
        if let Some(x) = self.table_list.handle_app_event(e) {
            out.push(x);
        }
        let _ = self.schema_list.handle_app_event(e);
        let _ = self.messages.handle_app_event(e);
        proof {
            assert(out.deep_view() =~= registry_emit_event(old(self)@, e@));
        }
        out
    }

    /// Forwards one raw key press to the components that read keys,
    /// and collects the actions they emit.
    pub fn handle_key_all(&mut self, k: &KeyPress) -> (out: Vec<Action>)
        ensures
            final(self)@ == registry_step_key(old(self)@, *k),
            out.deep_view() == registry_emit_key(old(self)@, *k),
    {
        let mut out: Vec<Action> = Vec::new();
        if let Some(x) = self.text_editor.handle_key_event(k) {
            out.push(x);
        }
        let _ = self.schema_list.handle_key_event(k);
        proof {
            assert(out.deep_view() =~= registry_emit_key(old(self)@, *k));
        }
        out
    }
}

} // verus!
