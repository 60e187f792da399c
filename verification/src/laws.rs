//! The editor's laws: properties that relate several operations, proved once
//! and for all over the same spec functions the operations' contracts use.

use crate::dispatch::insert_char_step;
use crate::dispatch::next_col_step;
use crate::dispatch::remove_char_step;
use crate::editor::EditorView;
use crate::editor::next_line_target;
use crate::editor::offset_after;
use crate::editor::prev_line_target;
use crate::editor::right_edge;
use crate::editor::space_grapheme;
use crate::editor::window_after;
use vstd::prelude::*;

verus! {

/// The line index after applying the next-line move `n` times.
pub open spec fn next_line_iter(len: int, line: int, n: nat) -> int
    decreases n,
{
    if n == 0 {
        line
    } else {
        next_line_target(len, next_line_iter(len, line, (n - 1) as nat))
    }
}

/// The line index after applying the previous-line move `n` times.
pub open spec fn prev_line_iter(line: int, n: nat) -> int
    decreases n,
{
    if n == 0 {
        line
    } else {
        prev_line_target(prev_line_iter(line, (n - 1) as nat))
    }
}

/// Repeated next-line moves advance one line at a time and then sit still
/// at the last line.
proof fn lemma_next_line_iter_value(len: int, line: int, n: nat)
    requires
        1 <= len,
        0 <= line < len,
    ensures
        next_line_iter(len, line, n) == if line + n <= len - 1 {
            line + n
        } else {
            len - 1
        },
    decreases n,
{
    if n > 0 {
        lemma_next_line_iter_value(len, line, (n - 1) as nat);
    }
}

/// Repeated previous-line moves walk back one line at a time and then sit
/// still at line 0.
proof fn lemma_prev_line_iter_value(line: int, n: nat)
    requires
        0 <= line,
    ensures
        prev_line_iter(line, n) == if n <= line {
            line - n
        } else {
            0
        },
    decreases n,
{
    if n > 0 {
        lemma_prev_line_iter_value(line, (n - 1) as nat);
    }
}

/// Law: on a non-empty line sequence, repeating `move_next_line` from any
/// start line — any number of times that covers the distance — lands on the
/// last line, and a further move does not change it.
pub proof fn lemma_move_next_line_saturates(len: int, line: int, n: nat)
    requires
        1 <= len,
        0 <= line < len,
        len - 1 - line <= n,
    ensures
        next_line_iter(len, line, n) == len - 1,
        next_line_target(len, len - 1) == len - 1,
{
    lemma_next_line_iter_value(len, line, n);
}

/// Law: repeating `move_previous_line` from any line — any number of times
/// that covers the distance — lands on line 0, and a further move does not
/// change it.
pub proof fn lemma_move_previous_line_saturates(line: int, n: nat)
    requires
        0 <= line,
        line <= n,
    ensures
        prev_line_iter(line, n) == 0,
        prev_line_target(0) == 0,
{
    lemma_prev_line_iter_value(line, n);
}

/// Law: at an interior cursor position, `insert_char` followed immediately
/// by `remove_char` at the resulting cursor position restores the cursor
/// column, and replaces the grapheme that stood at it with the inserted
/// character; so when that grapheme already equalled the inserted character
/// the working line, too, is exactly restored.
pub proof fn lemma_insert_then_remove_interior(
    pre: EditorView,
    mid: EditorView,
    post: EditorView,
    ch: char,
)
    requires
        0 <= pre.col < pre.working.len(),
        insert_char_step(pre, ch, mid),
        remove_char_step(mid, post),
    ensures
        post.col == pre.col,
        post.working == pre.working.update(pre.col, seq![ch]),
        pre.working[pre.col] == seq![ch] ==> post.working == pre.working,
        post.lines == pre.lines,
        post.line == pre.line,
        post.offset == pre.offset,
        post.mode == pre.mode,
{
    let c = pre.col;
    let inserted = pre.working.insert(c, seq![ch]);
    assert(mid.working == inserted);
    assert(mid.col == c + 1);
    assert(post.working == inserted.remove(c + 1));
    assert(post.col == c);
    assert(inserted.remove(c + 1) =~= pre.working.update(c, seq![ch]));
    if pre.working[c] == seq![ch] {
        assert(pre.working.update(c, seq![ch]) =~= pre.working);
    }
}

/// Law: on an empty working line — the boundary case of the round trip —
/// `insert_char` followed by `remove_char` leaves the line holding exactly
/// the inserted grapheme, with the cursor at column 0.  (For a non-space
/// character the growth rule first appends a space, which the removal takes
/// back; for a space the rejected right-move keeps the cursor on it.)
pub proof fn lemma_insert_then_remove_empty_line(
    pre: EditorView,
    mid: EditorView,
    post: EditorView,
    ch: char,
)
    requires
        pre.working.len() == 0,
        pre.col == 0,
        insert_char_step(pre, ch, mid),
        remove_char_step(mid, post),
    ensures
        post.col == 0,
        post.working == seq![seq![ch]],
        post.lines == pre.lines,
        post.line == pre.line,
        post.offset == pre.offset,
        post.mode == pre.mode,
{
    let inserted = pre.working.insert(0, seq![ch]);
    assert(inserted =~= seq![seq![ch]]);
    if ch == ' ' {
        assert(inserted[0] == space_grapheme());
        assert(mid.working == inserted);
        assert(mid.col == 0);
        assert(post.working =~= seq![seq![ch]]);
    } else {
        if inserted[0] == space_grapheme() {
            assert(seq![ch][0] == ch);
            assert(space_grapheme()[0] == ' ');
            assert(false);
        }
        assert(inserted[0] != space_grapheme());
        assert(mid.working == inserted.push(space_grapheme()));
        assert(mid.col == 1);
        assert(mid.working.remove(1) =~= seq![seq![ch]]);
        assert(post.working =~= seq![seq![ch]]);
    }
}

/// Law: moving right from the last grapheme of a line that does not end in
/// a space appends one trailing space and advances the cursor onto it;
/// moving right once more changes nothing — the move is rejected because
/// the grapheme before the append position now is a space.
pub proof fn lemma_move_right_at_edge(pre: EditorView, mid: EditorView, post: EditorView)
    requires
        pre.working.len() > 0,
        pre.col == pre.working.len() - 1,
        pre.working.last() != space_grapheme(),
        next_col_step(pre, mid),
        next_col_step(mid, post),
    ensures
        mid.working == pre.working.push(space_grapheme()),
        mid.col == pre.col + 1,
        post.working == mid.working,
        post.col == mid.col,
{
    let len = pre.working.len() as int;
    assert(mid.working == pre.working.push(space_grapheme()));
    assert(mid.col == len);
    assert(mid.working[len] == space_grapheme());
}

/// Law: after one `calculate_offset` step the cursor column lies inside the
/// reported inclusive window, whenever the column is within one step of a
/// position the previous window contained — the situation of a render loop
/// that recomputes the offset after each single-column cursor move.  The
/// second conclusion hands the next cycle the same situation back.
pub proof fn lemma_offset_window(len: int, cols: int, col: int, off: int, prev_col: int)
    requires
        1 <= len,
        1 <= cols,
        0 <= col < len,
        0 <= off,
        off <= prev_col <= right_edge(len, cols, off),
        prev_col - 1 <= col <= prev_col + 1,
    ensures
        window_after(len, cols, col, off).0 <= col <= window_after(len, cols, col, off).1,
        offset_after(len, cols, col, off) <= col <= right_edge(
            len,
            cols,
            offset_after(len, cols, col, off),
        ),
{
    let right = right_edge(len, cols, off);
    if col < off {
        assert(col == off - 1);
    } else if col > right {
        assert(col == right + 1);
        assert(right < len - 1);
        assert(right == cols - 1 + off);
    }
}

} // verus!
