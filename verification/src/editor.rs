//! The cursor/buffer model: the line sequence, the working line, the cursor,
//! the horizontal-scroll offset, and the mode state machine.
//!
//! Columns are grapheme-cluster indices into the working line, which is a
//! detached copy of the selected line and is written back into the line
//! sequence only at the `Editing` to `Reading` transition.

use vstd::prelude::*;

use crate::graphemes::char_to_string;
use crate::graphemes::graphemes_of;
use crate::graphemes::join_graphemes;
use crate::graphemes::joined;
use crate::graphemes::push_char;
use crate::graphemes::split_graphemes;
use crate::render_state::list_state_new;
use crate::render_state::list_state_select;
use crate::render_state::list_state_with_selected;
use vstd::pervasive::VecAdditionalExecFns;
use vstd::string::StringExecFns;

verus! {

/// The input mode of the editor: each mode decides which actions are
/// accepted and what they mean.
#[derive(Debug, Clone, Copy, PartialEq, Eq, Structural)]
pub enum Mode {
    /// Navigation between lines; no character edits.
    Reading,
    /// Character-level edits to the working line.
    Editing,
    /// An exit confirmation is pending; only a yes/no answer is heeded.
    Exiting,
}

impl Mode {
    /// The mode's display name.
    pub open spec fn label(self) -> Seq<char> {
        match self {
            Mode::Reading => "Reading"@,
            Mode::Editing => "Editing"@,
            Mode::Exiting => "Exiting"@,
        }
    }

    /// The mode's display name, for the status line.
    pub fn text(&self) -> (r: String)
        ensures
            r@ == self.label(),
    {
        match self {
            Mode::Reading => String::from_str("Reading"),
            Mode::Editing => String::from_str("Editing"),
            Mode::Exiting => String::from_str("Exiting"),
        }
    }
}

/// Current row and column being viewed or edited, both 0-based.
struct CursorPosition {
    line: usize,
    column: usize,
}

/// The editor's state as mathematics: lines and the working line as
/// sequences of grapheme clusters, positions as integers.
pub ghost struct EditorView {
    pub lines: Seq<Seq<char>>,
    pub working: Seq<Seq<char>>,
    pub line: int,
    pub col: int,
    pub offset: int,
    pub mode: Mode,
}

/// The state of the editor: the file's lines, the working copy of the
/// selected line, the cursor, the horizontal-scroll offset, and the mode.
pub struct App {
    /// The lines of the file being edited.
    lines: Vec<String>,
    /// The renderer's highlight state for the line list; opaque here.
    list_state: ratatui::widgets::ListState,
    /// The working copy of the selected line, split into grapheme clusters.
    current_line: Vec<String>,
    /// The leftmost visible grapheme index of the working line.
    offset: usize,
    /// The cursor.
    position: CursorPosition,
    /// The current mode.
    mode: Mode,
}

impl View for App {
    type V = EditorView;

    closed spec fn view(&self) -> EditorView {
        EditorView {
            lines: self.lines.deep_view(),
            working: self.current_line.deep_view(),
            line: self.position.line as int,
            col: self.position.column as int,
            offset: self.offset as int,
            mode: self.mode,
        }
    }
}

/// The line index `move_next_line` selects: the next line, clamped to the
/// last one; 0 when the sequence is empty.
pub open spec fn next_line_target(len: int, line: int) -> int {
    if len == 0 {
        0
    } else if line + 1 <= len - 1 {
        line + 1
    } else {
        len - 1
    }
}

/// The line index `move_previous_line` selects: the previous line, saturating
/// at 0.
pub open spec fn prev_line_target(line: int) -> int {
    if line == 0 {
        0
    } else {
        line - 1
    }
}

/// The working line derived from selecting line `idx`: that line's grapheme
/// clusters, or nothing when the index has no entry.
pub open spec fn working_of(lines: Seq<Seq<char>>, idx: int) -> Seq<Seq<char>> {
    if 0 <= idx < lines.len() {
        graphemes_of(lines[idx])
    } else {
        Seq::empty()
    }
}

/// The grapheme cluster at index `n` of the working line; the empty sequence
/// when the index is out of range (the editor treats a missing grapheme as
/// an empty string).
pub open spec fn grapheme_at_idx(working: Seq<Seq<char>>, n: int) -> Seq<char> {
    if 0 <= n < working.len() {
        working[n]
    } else {
        Seq::empty()
    }
}

/// A single-space grapheme cluster.
pub open spec fn space_grapheme() -> Seq<char> {
    seq![' ']
}

/// The grapheme just before column `n` (at `n` itself when `n` is 0).
pub open spec fn grapheme_before(working: Seq<Seq<char>>, n: int) -> Seq<char> {
    grapheme_at_idx(
        working,
        if n == 0 {
            0
        } else {
            n - 1
        },
    )
}

/// A column target clamped into the working line: the cursor never leaves
/// the line, so a target past its length lands exactly at the length (the
/// append position), where the growth rule below takes over.
pub open spec fn clamped_column(working: Seq<Seq<char>>, target: int) -> int {
    if target <= working.len() {
        target
    } else {
        working.len() as int
    }
}

/// The working line after the cursor moves to column `target`: when the
/// (clamped) target is the append position and the grapheme before it is not
/// a space, one space is appended so the line can always be extended by
/// moving right; otherwise the line is unchanged.
pub open spec fn select_column_working(working: Seq<Seq<char>>, target: int) -> Seq<Seq<char>> {
    let n = clamped_column(working, target);
    if n == working.len() && grapheme_before(working, n) != space_grapheme() {
        working.push(space_grapheme())
    } else {
        working
    }
}

/// The column after the cursor moves to column `target`: the (clamped)
/// target itself, except that a move onto the append position whose
/// preceding grapheme is already a space is rejected by stepping one column
/// back, so trailing whitespace never piles up.
pub open spec fn select_column_col(working: Seq<Seq<char>>, target: int) -> int {
    let n = clamped_column(working, target);
    if n == working.len() && grapheme_before(working, n) == space_grapheme() {
        n - 1
    } else {
        n
    }
}

/// The column `move_previous_column` aims for: one to the left, saturating
/// at 0.
pub open spec fn prev_col_target(col: int) -> int {
    if col == 0 {
        0
    } else {
        col - 1
    }
}

/// The working line after removing the grapheme at `col`, if there is one.
pub open spec fn removed_working(working: Seq<Seq<char>>, col: int) -> Seq<Seq<char>> {
    if 0 <= col < working.len() {
        working.remove(col)
    } else {
        working
    }
}

/// One step down, saturating at 0.
pub open spec fn sat_dec(x: int) -> int {
    if x >= 1 {
        x - 1
    } else {
        0
    }
}

/// The rightmost visible grapheme index of a window of `cols` text columns
/// whose leftmost visible grapheme is `off`, on a working line of `len`
/// graphemes.
pub open spec fn right_edge(len: int, cols: int, off: int) -> int {
    let reach = if cols >= 1 {
        cols - 1 + off
    } else {
        off
    };
    if len - 1 <= reach {
        len - 1
    } else {
        reach
    }
}

/// The stored offset after one `calculate_offset` step: one to the left when
/// the cursor fell off the left edge, one to the right when it fell off the
/// right edge, otherwise unchanged.
pub open spec fn offset_after(len: int, cols: int, col: int, off: int) -> int {
    if len == 0 {
        off
    } else if col < off {
        sat_dec(off)
    } else if col > right_edge(len, cols, off) {
        off + 1
    } else {
        off
    }
}

/// The inclusive window of visible grapheme indices that one
/// `calculate_offset` step reports.
pub open spec fn window_after(len: int, cols: int, col: int, off: int) -> (int, int) {
    if len == 0 {
        (0, 0)
    } else {
        let right = right_edge(len, cols, off);
        if col < off {
            (sat_dec(off), sat_dec(right))
        } else if col > right {
            (off + 1, right + 1)
        } else {
            (off, right)
        }
    }
}

/// The file text of a line sequence: every line in order, each followed by
/// one newline.
pub open spec fn serialized(lines: Seq<Seq<char>>) -> Seq<char>
    decreases lines.len(),
{
    if lines.len() == 0 {
        Seq::empty()
    } else {
        serialized(lines.drop_last()) + lines.last() + seq!['\n']
    }
}

impl App {
    /// Cursor and buffer are well formed: the line index stays inside the
    /// line sequence, and the column stays strictly inside the working line
    /// (or at 0 when it is empty).
    pub open spec fn wf(self) -> bool {
        &&& self@.lines.len() == 0 ==> self@.line == 0
        &&& self@.lines.len() > 0 ==> self@.line < self@.lines.len()
        &&& self@.working.len() == 0 ==> self@.col == 0
        &&& self@.working.len() > 0 ==> 0 <= self@.col < self@.working.len()
    }

    /// Creates an editor with no lines yet, the cursor at the origin, and
    /// `Reading` mode.
    pub fn new() -> (r: App)
        ensures
            r.wf(),
            r@.lines.len() == 0,
            r@.working.len() == 0,
            r@.line == 0,
            r@.col == 0,
            r@.offset == 0,
            r@.mode == Mode::Reading,
    {
        App {
            lines: Vec::new(),
            list_state: list_state_with_selected(list_state_new(), 0),
            current_line: Vec::new(),
            offset: 0,
            position: CursorPosition { line: 0, column: 0 },
            mode: Mode::Reading,
        }
    }

    /// Installs a freshly read file: its lines, or one placeholder line when
    /// the file was absent (`source` is `None`), or one empty line when it
    /// had no lines at all.  The cursor returns to the origin and the first
    /// line becomes the working line.
    pub fn load_from(&mut self, source: Option<Vec<String>>)
        ensures
            final(self).wf(),
            final(self)@.line == 0,
            final(self)@.col == 0,
            final(self)@.offset == 0,
            final(self)@.mode == old(self)@.mode,
            final(self)@.lines.len() > 0,
            source is None ==> final(self)@.lines =~= seq!["Welcome to Cosmo!"@]
                && final(self)@.working == graphemes_of("Welcome to Cosmo!"@),
            source matches Some(ls) ==> ((ls@.len() > 0 ==> final(self)@.lines == ls.deep_view()
                && final(self)@.working == graphemes_of(ls.deep_view()[0])) && (ls@.len() == 0
                ==> final(self)@.lines =~= seq![Seq::<char>::empty()] && final(self)@.working
                == Seq::<Seq<char>>::empty())),
    {
        match source {
            None => {
                let text = String::from_str("Welcome to Cosmo!");
                self.current_line = split_graphemes(text.as_str());
                let mut ls: Vec<String> = Vec::new();
                ls.push(text);
                self.lines = ls;
            },
            Some(ls) => {
                if ls.len() == 0 {
                    let mut one: Vec<String> = Vec::new();
                    one.push(String::new());
                    self.lines = one;
                    self.current_line = Vec::new();
                } else {
                    self.current_line = split_graphemes(ls[0].as_str());
                    self.lines = ls;
                }
            },
        }
        self.position.line = 0;
        self.position.column = 0;
        self.offset = 0;
    }

    /// Selects line `line_num`: cursor to its start, offset reset, working
    /// line re-derived from the stored entry (discarding unsynced edits).
    fn select_line(&mut self, line_num: usize)
        requires
            old(self)@.lines.len() == 0 ==> line_num == 0,
            old(self)@.lines.len() > 0 ==> line_num < old(self)@.lines.len(),
        ensures
            final(self).wf(),
            final(self)@.lines == old(self)@.lines,
            final(self)@.mode == old(self)@.mode,
            final(self)@.line == line_num,
            final(self)@.col == 0,
            final(self)@.offset == 0,
            final(self)@.working == working_of(old(self)@.lines, line_num as int),
            old(self)@.lines.len() > 0 ==> joined(final(self)@.working) == old(
                self,
            )@.lines[line_num as int],
    {
        self.position.line = line_num;
        self.position.column = 0;
        self.offset = 0;
        list_state_select(&mut self.list_state, line_num);
        if line_num < self.lines.len() {
            self.current_line = split_graphemes(self.lines[line_num].as_str());
        } else {
            self.current_line = Vec::new();
        }
    }

    /// Selects the line after the current one; at the last line (or with no
    /// lines) the selection stays where it is.
    pub fn move_next_line(&mut self)
        requires
            old(self).wf(),
        ensures
            final(self).wf(),
            final(self)@.lines == old(self)@.lines,
            final(self)@.mode == old(self)@.mode,
            final(self)@.line == next_line_target(old(self)@.lines.len() as int, old(self)@.line),
            final(self)@.col == 0,
            final(self)@.offset == 0,
            final(self)@.working == working_of(old(self)@.lines, final(self)@.line),
            old(self)@.lines.len() > 0 ==> joined(final(self)@.working) == old(
                self,
            )@.lines[final(self)@.line],
    {
        let target = if self.lines.len() == 0 {
            0
        } else {
            let next = self.position.line + 1;
            if next <= self.lines.len() - 1 {
                next
            } else {
                self.lines.len() - 1
            }
        };
        self.select_line(target);
    }

    /// Selects the line before the current one; at line 0 the selection
    /// stays where it is.
    pub fn move_previous_line(&mut self)
        requires
            old(self).wf(),
        ensures
            final(self).wf(),
            final(self)@.lines == old(self)@.lines,
            final(self)@.mode == old(self)@.mode,
            final(self)@.line == prev_line_target(old(self)@.line),
            final(self)@.col == 0,
            final(self)@.offset == 0,
            final(self)@.working == working_of(old(self)@.lines, final(self)@.line),
            old(self)@.lines.len() > 0 ==> joined(final(self)@.working) == old(
                self,
            )@.lines[final(self)@.line],
    {
        let target = if self.position.line == 0 {
            0
        } else {
            self.position.line - 1
        };
        self.select_line(target);
    }

    /// The grapheme cluster at index `n` of the working line, or an empty
    /// string when there is none.
    fn grapheme_at(&self, n: usize) -> (r: String)
        ensures
            r@ == grapheme_at_idx(self@.working, n as int),
    {
        if n < self.current_line.len() {
            self.current_line[n].clone()
        } else {
            String::new()
        }
    }

    /// Moves the cursor to column `n` of the working line (clamped into it).
    /// At the append position, either a space is added so the line grows, or
    /// — when the last grapheme already is a space — the move is rejected by
    /// stepping one column back.
    fn select_column(&mut self, n: usize)
        ensures
            final(self)@.lines == old(self)@.lines,
            final(self)@.line == old(self)@.line,
            final(self)@.offset == old(self)@.offset,
            final(self)@.mode == old(self)@.mode,
            final(self)@.working == select_column_working(old(self)@.working, n as int),
            final(self)@.col == select_column_col(old(self)@.working, n as int),
            final(self)@.working.len() > 0,
            0 <= final(self)@.col < final(self)@.working.len(),
    {
        let len = self.current_line.len();
        let n = if n <= len {
            n
        } else {
            len
        };
        self.position.column = n;
        let is_past_end = len == n;
        let previous_column = if n == 0 {
            0
        } else {
            n - 1
        };
        let grapheme = self.grapheme_at(previous_column);
        let space = char_to_string(' ');
        let is_space = grapheme == space;
        if is_past_end {
            if !is_space {
                let ghost before = self.current_line.deep_view();
                self.current_line.push(space);
                proof {
                    assert(self.current_line.deep_view() =~= before.push(space_grapheme()));
                }
            } else {
                // One column back, as move_previous_column would go; that
                // target is strictly inside the line, so the append-position
                // rules cannot fire a second time.
                proof {
                    if n == 0 {
                        assert(grapheme@ == Seq::<char>::empty());
                        assert(space@ == space_grapheme());
                        assert(space_grapheme().len() == 1);
                        assert(false);
                    }
                }
                self.position.column = n - 1;
            }
        }
    }

    /// Moves the cursor one column to the right, growing the line by a
    /// trailing space when it stands at the last grapheme (unless that
    /// grapheme already is a space).
    pub fn move_next_column(&mut self)
        requires
            old(self).wf(),
        ensures
            final(self).wf(),
            final(self)@.lines == old(self)@.lines,
            final(self)@.line == old(self)@.line,
            final(self)@.offset == old(self)@.offset,
            final(self)@.mode == old(self)@.mode,
            final(self)@.working == select_column_working(old(self)@.working, old(self)@.col + 1),
            final(self)@.col == select_column_col(old(self)@.working, old(self)@.col + 1),
    {
        // Reading the length as a machine integer bounds the column below
        // usize::MAX, so the increment cannot overflow.
        let len = self.current_line.len();
        proof {
            assert(self.position.column <= len);
        }
        let target = self.position.column + 1;
        self.select_column(target);
    }

    /// Moves the cursor one column to the left, saturating at column 0.
    pub fn move_previous_column(&mut self)
        ensures
            final(self)@.working.len() > 0,
            0 <= final(self)@.col < final(self)@.working.len(),
            old(self).wf() ==> final(self).wf(),
            final(self)@.lines == old(self)@.lines,
            final(self)@.line == old(self)@.line,
            final(self)@.offset == old(self)@.offset,
            final(self)@.mode == old(self)@.mode,
            final(self)@.working == select_column_working(
                old(self)@.working,
                prev_col_target(old(self)@.col),
            ),
            final(self)@.col == select_column_col(
                old(self)@.working,
                prev_col_target(old(self)@.col),
            ),
    {
        let target = if self.position.column == 0 {
            0
        } else {
            self.position.column - 1
        };
        self.select_column(target);
    }

    /// Inserts a character as a new grapheme at the cursor's column and
    /// advances the cursor one column to the right.
    pub fn insert_char(&mut self, ch: char)
        requires
            old(self).wf(),
        ensures
            final(self).wf(),
            final(self)@.lines == old(self)@.lines,
            final(self)@.line == old(self)@.line,
            final(self)@.offset == old(self)@.offset,
            final(self)@.mode == old(self)@.mode,
            final(self)@.working == select_column_working(
                old(self)@.working.insert(old(self)@.col, seq![ch]),
                old(self)@.col + 1,
            ),
            final(self)@.col == select_column_col(
                old(self)@.working.insert(old(self)@.col, seq![ch]),
                old(self)@.col + 1,
            ),
            old(self)@.working.len() > 0 ==> final(self)@.working == old(self)@.working.insert(
                old(self)@.col,
                seq![ch],
            ) && final(self)@.col == old(self)@.col + 1,
    {
        let col = self.position.column;
        let len = self.current_line.len();
        // A column one past the line's length would make the column itself
        // point past the true end; the insertion target then steps back onto
        // it.  The invariant keeps the cursor inside the line, so this guard
        // never fires here.
        let target = if col >= 1 && len == col - 1 {
            col - 1
        } else {
            col
        };
        let grapheme = char_to_string(ch);
        let ghost before = self.current_line.deep_view();
        self.current_line.insert(target, grapheme);
        proof {
            assert(self.current_line.deep_view() =~= before.insert(col as int, seq![ch]));
        }
        self.move_next_column();
    }

    /// Removes the grapheme at the cursor's column, if there is one, then
    /// moves the cursor one column to the left (saturating at 0).
    pub fn remove_char(&mut self)
        requires
            old(self).wf(),
        ensures
            final(self).wf(),
            final(self)@.lines == old(self)@.lines,
            final(self)@.line == old(self)@.line,
            final(self)@.offset == old(self)@.offset,
            final(self)@.mode == old(self)@.mode,
            final(self)@.working == select_column_working(
                removed_working(old(self)@.working, old(self)@.col),
                prev_col_target(old(self)@.col),
            ),
            final(self)@.col == select_column_col(
                removed_working(old(self)@.working, old(self)@.col),
                prev_col_target(old(self)@.col),
            ),
            old(self)@.col >= 1 ==> final(self)@.working == old(self)@.working.remove(
                old(self)@.col,
            ) && final(self)@.col == old(self)@.col - 1,
    {
        let col = self.position.column;
        if col < self.current_line.len() {
            let ghost before = self.current_line.deep_view();
            self.current_line.remove(col);
            proof {
                assert(self.current_line.deep_view() =~= before.remove(col as int));
            }
        }
        self.move_previous_column();
    }

    /// Inserts a fresh line (seeded as a single space, so it stays
    /// non-empty) right after the current line; with no lines at all it
    /// becomes the first line.
    pub fn insert_newline(&mut self)
        requires
            old(self).wf(),
        ensures
            final(self).wf(),
            final(self)@.working == old(self)@.working,
            final(self)@.line == old(self)@.line,
            final(self)@.col == old(self)@.col,
            final(self)@.offset == old(self)@.offset,
            final(self)@.mode == old(self)@.mode,
            old(self)@.lines.len() == 0 ==> final(self)@.lines =~= seq![space_grapheme()],
            old(self)@.lines.len() > 0 ==> final(self)@.lines =~= old(self)@.lines.insert(
                old(self)@.line + 1,
                space_grapheme(),
            ),
    {
        let seeded = char_to_string(' ');
        let ghost before = self.lines.deep_view();
        if self.lines.is_empty() {
            self.lines.push(seeded);
            proof {
                assert(self.lines.deep_view() =~= before.push(space_grapheme()));
            }
        } else {
            // Reading the length as a machine integer bounds the line index
            // below usize::MAX, so the increment cannot overflow.
            let len = self.lines.len();
            proof {
                assert(self.position.line < len);
            }
            self.lines.insert(self.position.line + 1, seeded);
            proof {
                assert(self.lines.deep_view() =~= before.insert(
                    self.position.line + 1,
                    space_grapheme(),
                ));
            }
        }
    }

    /// Switches the mode.  Leaving `Editing` for `Reading` commits the
    /// working line: it overwrites the stored entry at the current line
    /// index (skipped if the line sequence is empty, a defensive guard).
    pub fn set_mode(&mut self, mode: Mode)
        requires
            old(self).wf(),
        ensures
            final(self).wf(),
            final(self)@.mode == mode,
            final(self)@.working == old(self)@.working,
            final(self)@.line == old(self)@.line,
            final(self)@.col == old(self)@.col,
            final(self)@.offset == old(self)@.offset,
            (old(self)@.mode == Mode::Editing && mode == Mode::Reading && old(self)@.lines.len()
                > 0) ==> final(self)@.lines =~= old(self)@.lines.update(
                old(self)@.line,
                joined(old(self)@.working),
            ),
            !(old(self)@.mode == Mode::Editing && mode == Mode::Reading && old(self)@.lines.len()
                > 0) ==> final(self)@.lines == old(self)@.lines,
    {
        if matches!(self.mode, Mode::Editing) && matches!(mode, Mode::Reading) {
            if !self.lines.is_empty() {
                let text = join_graphemes(&self.current_line);
                let ghost before = self.lines.deep_view();
                self.lines.set(self.position.line, text);
                proof {
                    assert(self.lines.deep_view() =~= before.update(
                        self.position.line as int,
                        joined(self.current_line.deep_view()),
                    ));
                }
            }
        }
        self.mode = mode;
    }

    /// Reports the inclusive window of visible grapheme indices for a
    /// display `width` cells wide (two of them border), sliding the stored
    /// offset by at most one column so the cursor comes back into view.
    /// Meant to run once per render cycle, before drawing.
    pub fn calculate_offset(&mut self, width: u16) -> (window: (usize, usize))
        requires
            old(self).wf(),
            width >= 2,
        ensures
            final(self).wf(),
            final(self)@.lines == old(self)@.lines,
            final(self)@.working == old(self)@.working,
            final(self)@.line == old(self)@.line,
            final(self)@.col == old(self)@.col,
            final(self)@.mode == old(self)@.mode,
            final(self)@.offset == offset_after(
                old(self)@.working.len() as int,
                width - 2,
                old(self)@.col,
                old(self)@.offset,
            ),
            window.0 == window_after(
                old(self)@.working.len() as int,
                width - 2,
                old(self)@.col,
                old(self)@.offset,
            ).0,
            window.1 == window_after(
                old(self)@.working.len() as int,
                width - 2,
                old(self)@.col,
                old(self)@.offset,
            ).1,
    {
        if self.current_line.len() == 0 {
            return (0, 0);
        }
        // The border around the editing line takes one cell on each side.
        let border_width: u16 = 2;
        let num_columns = (width - border_width) as usize;
        let column_pos = self.position.column;
        let line_len = self.current_line.len();
        // The leftmost visible column.
        let leftmost_column = self.offset;
        // The rightmost visible column.
        let reach = num_columns.saturating_sub(1).saturating_add(self.offset);
        let rightmost_column = if line_len - 1 <= reach {
            line_len - 1
        } else {
            reach
        };
        if column_pos < leftmost_column {
            self.offset = self.offset.saturating_sub(1);
            (leftmost_column.saturating_sub(1), rightmost_column.saturating_sub(1))
        } else if column_pos > rightmost_column {
            self.offset = self.offset + 1;
            (leftmost_column + 1, rightmost_column + 1)
        } else {
            (leftmost_column, rightmost_column)
        }
    }

    /// The text that saving writes: every stored line, each followed by one
    /// newline.
    pub fn save_text(&self) -> (r: String)
        ensures
            r@ == serialized(self@.lines),
    {
        let mut r = String::new();
        let mut i: usize = 0;
        while i < self.lines.len()
            invariant
                i <= self.lines.len(),
                r@ == serialized(self.lines.deep_view().subrange(0, i as int)),
            decreases self.lines.len() - i,
        {
            r.append(self.lines[i].as_str());
            push_char(&mut r, '\n');
            proof {
                let dv = self.lines.deep_view();
                assert(dv.subrange(0, i + 1).drop_last() =~= dv.subrange(0, i as int));
                assert(dv.subrange(0, i + 1).last() == dv[i as int]);
                assert(r@ =~= serialized(dv.subrange(0, i + 1)));
            }
            i = i + 1;
        }
        proof {
            assert(self.lines.deep_view().subrange(0, self.lines.len() as int)
                =~= self.lines.deep_view());
        }
        r
    }

    /// The full line sequence, for the renderer and for saving.
    pub fn lines_vec(&self) -> (r: &Vec<String>)
        ensures
            r.deep_view() == self@.lines,
    {
        &self.lines
    }

    /// The working line as one string.
    pub fn current_line(&self) -> (r: String)
        ensures
            r@ == joined(self@.working),
    {
        join_graphemes(&self.current_line)
    }

    /// The working line's grapheme clusters, for the renderer.
    pub fn current_graphemes(&self) -> (r: &Vec<String>)
        ensures
            r.deep_view() == self@.working,
    {
        &self.current_line
    }

    /// The number of grapheme clusters in the working line.
    pub fn current_line_len(&self) -> (r: usize)
        ensures
            r == self@.working.len(),
    {
        self.current_line.len()
    }

    /// The selected line index, 0-based.
    pub fn line_pos(&self) -> (r: usize)
        ensures
            r == self@.line,
    {
        self.position.line
    }

    /// The cursor's column, 0-based.
    pub fn column_pos(&self) -> (r: usize)
        ensures
            r == self@.col,
    {
        self.position.column
    }

    /// The current mode.
    pub fn mode(&self) -> (r: &Mode)
        ensures
            *r == self@.mode,
    {
        &self.mode
    }

    /// The leftmost visible grapheme index of the working line.
    pub fn offset(&self) -> (r: usize)
        ensures
            r == self@.offset,
    {
        self.offset
    }

    /// The renderer's highlight state; mutating it does not touch the
    /// editor's own state.
    pub fn list_state_mut(&mut self) -> (r: &mut ratatui::widgets::ListState)
        ensures
            final(self)@ == old(self)@,
    {
        &mut self.list_state
    }
}

} // verus!
