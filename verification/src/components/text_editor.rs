//! The SQL editor. The core models the buffer as lines of text and
//! reads it when the user runs the query; widget-level editing
//! conveniences belong to the drawing layer.

use vstd::prelude::*;

use crate::action::{Action, ActionV, Mode};
use crate::app_event::{QueryTag, QueryTagV};
use crate::database::system_query::{QueryRequest, QueryRequestV};
use crate::keys::{KeyCode, KeyPress};
use crate::text::{pop_char, push_char};

verus! {

/// The editor's state: the buffer lines and whether it holds focus.
#[derive(Debug, PartialEq, Eq)]
pub struct TextEditor {
    pub lines: Vec<String>,
    pub focused: bool,
}

/// The mathematical shape of [`TextEditor`].
pub struct TextEditorV {
    pub lines: Seq<Seq<char>>,
    pub focused: bool,
}

impl View for TextEditor {
    type V = TextEditorV;

    open spec fn view(&self) -> TextEditorV {
        TextEditorV { lines: self.lines.deep_view(), focused: self.focused }
    }
}

/// The buffer's lines joined with newlines.
pub open spec fn joined_lines(lines: Seq<Seq<char>>) -> Seq<char>
    decreases lines.len(),
{
    if lines.len() == 0 {
        Seq::empty()
    } else if lines.len() == 1 {
        lines[0]
    } else {
        joined_lines(lines.drop_last()) + "\n"@ + lines.last()
    }
}

impl TextEditor {
    /// An empty editor: one empty line, not focused.
    pub fn new() -> (r: TextEditor)
        ensures
            r@.lines =~= seq![Seq::<char>::empty()],
            !r@.focused,
    {
        let mut lines: Vec<String> = Vec::new();
        lines.push(String::new());
        let r = TextEditor { lines, focused: false };
        assert(r@.lines =~= seq![Seq::<char>::empty()]);
        r
    }

    /// How an action moves the editor: only focus follows the mode.
    pub open spec fn step(v: TextEditorV, a: ActionV) -> TextEditorV {
        match a {
            ActionV::ChangeMode(m) => TextEditorV { focused: m == Mode::EditQuery, ..v },
            _ => v,
        }
    }

    /// Applies an action; emits nothing.
    pub fn update(&mut self, a: &Action) -> (r: Option<Action>)
        ensures
            final(self)@ == TextEditor::step(old(self)@, a@),
            r is None,
    {
        if let Action::ChangeMode(m) = a {
            self.focused = matches!(m, Mode::EditQuery);
        }
        None
    }

    /// The buffer after one key press: printable characters append to
    /// the last line, enter opens a new line, backspace removes the
    /// last character or joins the last line away. A buffer with no
    /// line is treated as one empty line.
    pub open spec fn key_step(v: TextEditorV, k: KeyPress) -> TextEditorV {
        if k.ctrl && k.code == KeyCode::Char('r') {
            v
        } else if !v.focused {
            v
        } else {
            let ls = if v.lines.len() == 0 {
                seq![Seq::<char>::empty()]
            } else {
                v.lines
            };
            match k.code {
                KeyCode::Char(c) => if !k.ctrl && !k.alt {
                    TextEditorV { lines: ls.update(ls.len() - 1, ls.last().push(c)), ..v }
                } else {
                    TextEditorV { lines: ls, ..v }
                },
                KeyCode::Enter => TextEditorV { lines: ls.push(Seq::empty()), ..v },
                KeyCode::Backspace => if ls.last().len() > 0 {
                    TextEditorV {
                        lines: ls.update(ls.len() - 1, ls.last().drop_last()),
                        ..v
                    }
                } else if ls.len() > 1 {
                    TextEditorV { lines: ls.drop_last(), ..v }
                } else {
                    TextEditorV { lines: ls, ..v }
                },
                _ => TextEditorV { lines: ls, ..v },
            }
        }
    }

    /// What a key press makes the editor say: ctrl+r runs the buffer
    /// as a user query, focused or not.
    pub open spec fn key_emit(v: TextEditorV, k: KeyPress) -> Option<ActionV> {
        if k.ctrl && k.code == KeyCode::Char('r') {
            Some(
                ActionV::ExecuteQuery(
                    QueryRequestV {
                        tag: QueryTagV::User,
                        statement: joined_lines(v.lines),
                        parameters: None,
                    },
                ),
            )
        } else {
            None
        }
    }

    /// The buffer joined with newlines, as one string.
    pub fn buffer_text(&self) -> (r: String)
        ensures
            r@ == joined_lines(self@.lines),
    {
        let mut r = String::new();
        let mut i: usize = 0;
        while i < self.lines.len()
            invariant
                i <= self.lines.len(),
                r@ == joined_lines(self@.lines.take(i as int)),
            decreases self.lines.len() - i,
        {
            if i > 0 {
                r.append("\n");
            }
            r.append(self.lines[i].as_str());
            proof {
                let taken = self@.lines.take(i + 1);
                assert(taken.drop_last() =~= self@.lines.take(i as int));
                assert(taken.last() == self@.lines[i as int]);
                assert(r@ =~= joined_lines(taken));
            }
            i = i + 1;
        }
        proof {
            assert(self@.lines.take(self.lines@.len() as int) =~= self@.lines);
        }
        r
    }

    /// Applies a key press and returns the follow-up action, if any.
    pub fn handle_key_event(&mut self, k: &KeyPress) -> (r: Option<Action>)
        ensures
            final(self)@ == TextEditor::key_step(old(self)@, *k),
            r.deep_view() == TextEditor::key_emit(old(self)@, *k),
    {
        if k.ctrl && matches!(k.code, KeyCode::Char('r')) {
            let statement = self.buffer_text();
            return Some(
                Action::ExecuteQuery(
                    QueryRequest { tag: QueryTag::User, statement, parameters: None },
                ),
            );
        }
        if !self.focused {
            return None;
        }
        if self.lines.len() == 0 {
            self.lines.push(String::new());
        }
        proof {
            assert(self@.lines =~= (if old(self)@.lines.len() == 0 {
                seq![Seq::<char>::empty()]
            } else {
                old(self)@.lines
            }));
        }
        let ghost ls = self@.lines;
        let last = self.lines.len() - 1;
        match k.code {
            KeyCode::Char(c) => {
                if !k.ctrl && !k.alt {
                    let mut line = self.lines.remove(last);
                    push_char(&mut line, c);
                    self.lines.push(line);
                    proof {
                        assert(self@.lines =~= ls.update(ls.len() - 1, ls.last().push(c)));
                    }
                }
            },
            KeyCode::Enter => {
                self.lines.push(String::new());
                proof {
                    assert(self@.lines =~= ls.push(Seq::empty()));
                }
            },
            KeyCode::Backspace => {
                let mut line = self.lines.remove(last);
                if line.as_str().unicode_len() > 0 {
                    pop_char(&mut line);
                    self.lines.push(line);
                    proof {
                        assert(self@.lines =~= ls.update(ls.len() - 1, ls.last().drop_last()));
                    }
                } else if self.lines.len() > 0 {
                    proof {
                        assert(self@.lines =~= ls.drop_last());
                    }
                } else {
                    self.lines.push(line);
                    proof {
                        assert(self@.lines =~= ls);
                    }
                }
            },
            _ => {},
        }
        None
    }
}

} // verus!
