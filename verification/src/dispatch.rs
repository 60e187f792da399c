//! Action dispatch: the one place that decides whether an action is legal
//! in the current mode and applies it to the editor.
//!
//! Vertical moves act outside `Editing`; horizontal moves and character
//! edits act inside it; every other combination is silently dropped, so any
//! action is safe to dispatch in any mode.

use crate::editor::App;
use crate::editor::EditorView;
use crate::editor::Mode;
use crate::editor::next_line_target;
use crate::editor::prev_col_target;
use crate::editor::prev_line_target;
use crate::editor::removed_working;
use crate::editor::select_column_col;
use crate::editor::select_column_working;
use crate::editor::space_grapheme;
use crate::editor::working_of;
use crate::graphemes::joined;
use crate::input::Action;
use crate::input::Direction;
use vstd::prelude::*;

verus! {

/// Whether the control loop goes on, or ends with or without saving.
#[derive(Debug, Clone, Copy, PartialEq, Eq, Structural)]
pub enum Control {
    /// Keep reading input.
    Continue,
    /// Leave the loop; `save` tells whether to write the buffer back first.
    Quit { save: bool },
}

/// The state change of selecting the next line.
pub open spec fn next_line_step(pre: EditorView, post: EditorView) -> bool {
    &&& post.lines == pre.lines
    &&& post.mode == pre.mode
    &&& post.line == next_line_target(pre.lines.len() as int, pre.line)
    &&& post.col == 0
    &&& post.offset == 0
    &&& post.working == working_of(pre.lines, post.line)
}

/// The state change of selecting the previous line.
pub open spec fn prev_line_step(pre: EditorView, post: EditorView) -> bool {
    &&& post.lines == pre.lines
    &&& post.mode == pre.mode
    &&& post.line == prev_line_target(pre.line)
    &&& post.col == 0
    &&& post.offset == 0
    &&& post.working == working_of(pre.lines, post.line)
}

/// The state change of moving the cursor one column to the right.
pub open spec fn next_col_step(pre: EditorView, post: EditorView) -> bool {
    &&& post.lines == pre.lines
    &&& post.line == pre.line
    &&& post.offset == pre.offset
    &&& post.mode == pre.mode
    &&& post.working == select_column_working(pre.working, pre.col + 1)
    &&& post.col == select_column_col(pre.working, pre.col + 1)
}

/// The state change of moving the cursor one column to the left.
pub open spec fn prev_col_step(pre: EditorView, post: EditorView) -> bool {
    &&& post.lines == pre.lines
    &&& post.line == pre.line
    &&& post.offset == pre.offset
    &&& post.mode == pre.mode
    &&& post.working == select_column_working(pre.working, prev_col_target(pre.col))
    &&& post.col == select_column_col(pre.working, prev_col_target(pre.col))
}

/// The state change of inserting a character at the cursor.
pub open spec fn insert_char_step(pre: EditorView, ch: char, post: EditorView) -> bool {
    &&& post.lines == pre.lines
    &&& post.line == pre.line
    &&& post.offset == pre.offset
    &&& post.mode == pre.mode
    &&& post.working == select_column_working(pre.working.insert(pre.col, seq![ch]), pre.col + 1)
    &&& post.col == select_column_col(pre.working.insert(pre.col, seq![ch]), pre.col + 1)
}

/// The state change of removing the grapheme at the cursor.
pub open spec fn remove_char_step(pre: EditorView, post: EditorView) -> bool {
    &&& post.lines == pre.lines
    &&& post.line == pre.line
    &&& post.offset == pre.offset
    &&& post.mode == pre.mode
    &&& post.working == select_column_working(
        removed_working(pre.working, pre.col),
        prev_col_target(pre.col),
    )
    &&& post.col == select_column_col(removed_working(pre.working, pre.col), prev_col_target(pre.col))
}

/// The state change of opening a fresh line after the current one.
pub open spec fn add_line_step(pre: EditorView, post: EditorView) -> bool {
    &&& post.working == pre.working
    &&& post.line == pre.line
    &&& post.col == pre.col
    &&& post.offset == pre.offset
    &&& post.mode == pre.mode
    &&& pre.lines.len() == 0 ==> post.lines == seq![space_grapheme()]
    &&& pre.lines.len() > 0 ==> post.lines == pre.lines.insert(pre.line + 1, space_grapheme())
}

/// The state change of switching to mode `m`, committing the working line
/// when `Editing` is left for `Reading`.
pub open spec fn mode_change_step(pre: EditorView, m: Mode, post: EditorView) -> bool {
    &&& post.mode == m
    &&& post.working == pre.working
    &&& post.line == pre.line
    &&& post.col == pre.col
    &&& post.offset == pre.offset
    &&& post.lines == if pre.mode is Editing && m is Reading && pre.lines.len() > 0 {
        pre.lines.update(pre.line, joined(pre.working))
    } else {
        pre.lines
    }
}

/// One cursor move after the mode gate: vertical moves act outside
/// `Editing`, horizontal moves inside it; every other combination changes
/// nothing.
pub open spec fn movement_step(
    pre: EditorView,
    direction: Direction,
    is_editing: bool,
    post: EditorView,
) -> bool {
    match direction {
        Direction::Up => if !is_editing {
            prev_line_step(pre, post)
        } else {
            post == pre
        },
        Direction::Down => if !is_editing {
            next_line_step(pre, post)
        } else {
            post == pre
        },
        Direction::Left => if is_editing {
            prev_col_step(pre, post)
        } else {
            post == pre
        },
        Direction::Right => if is_editing {
            next_col_step(pre, post)
        } else {
            post == pre
        },
    }
}

/// What dispatching one action does: `Ignore` changes nothing; `Exit` and
/// `Save` end the loop without touching the state; moves and edits apply
/// when the mode allows them and are dropped otherwise; a mode change
/// always applies.
pub open spec fn dispatch_step(
    pre: EditorView,
    action: Action,
    post: EditorView,
    flow: Control,
) -> bool {
    match action {
        Action::Ignore => post == pre && flow == Control::Continue,
        Action::Exit => post == pre && flow == (Control::Quit { save: false }),
        Action::Save => post == pre && flow == (Control::Quit { save: true }),
        Action::Move(direction) => movement_step(pre, direction, pre.mode is Editing, post)
            && flow == Control::Continue,
        Action::ChangeMode(m) => mode_change_step(pre, m, post) && flow == Control::Continue,
        Action::AddChar(ch) => (if pre.mode is Editing {
            insert_char_step(pre, ch, post)
        } else {
            post == pre
        }) && flow == Control::Continue,
        Action::RemoveChar => (if pre.mode is Editing {
            remove_char_step(pre, post)
        } else {
            post == pre
        }) && flow == Control::Continue,
        Action::AddLine => (if pre.mode is Editing {
            add_line_step(pre, post)
        } else {
            post == pre
        }) && flow == Control::Continue,
    }
}

/// Applies one gated cursor move.
pub fn handle_movement(app: &mut App, is_editing: bool, direction: Direction)
    requires
        old(app).wf(),
    ensures
        final(app).wf(),
        movement_step(old(app)@, direction, is_editing, final(app)@),
{
    match direction {
        Direction::Up => {
            if !is_editing {
                app.move_previous_line();
            }
        },
        Direction::Down => {
            if !is_editing {
                app.move_next_line();
            }
        },
        Direction::Left => {
            if is_editing {
                app.move_previous_column();
            }
        },
        Direction::Right => {
            if is_editing {
                app.move_next_column();
            }
        },
    }
}

/// Dispatches one action against the editor and says whether the loop goes
/// on; illegal mode/action combinations change nothing.
pub fn apply_action(app: &mut App, action: Action) -> (flow: Control)
    requires
        old(app).wf(),
    ensures
        final(app).wf(),
        dispatch_step(old(app)@, action, final(app)@, flow),
{
    let is_editing = matches!(app.mode(), Mode::Editing);
    match action {
        Action::Ignore => Control::Continue,
        Action::Exit => Control::Quit { save: false },
        Action::Save => Control::Quit { save: true },
        Action::Move(direction) => {
            handle_movement(app, is_editing, direction);
            Control::Continue
        },
        Action::ChangeMode(mode) => {
            app.set_mode(mode);
            Control::Continue
        },
        Action::AddChar(ch) => {
            if is_editing {
                app.insert_char(ch);
            }
            Control::Continue
        },
        Action::RemoveChar => {
            if is_editing {
                app.remove_char();
            }
            Control::Continue
        },
        Action::AddLine => {
            if is_editing {
                app.insert_newline();
            }
            Control::Continue
        },
    }
}

} // verus!
