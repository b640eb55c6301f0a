use vstd::prelude::*;

use crate::cells::{chars_to_string, copy_chars, RenderError};
use crate::data::{EngineError, ResultSet};
use crate::render::{
    all_supported, count_lines, formatted_rows, grid_chars, line_count, render_failure_chars,
    render_failure_text, render_result, result_header, rows_of, RenderedTable,
};
use crate::scroll::ScrollState;

verus! {

/// The two-state input mode: `Normal` keys navigate and command, `Editing`
/// keys edit the SQL text.
#[derive(Clone, Copy, Debug, PartialEq, Eq, Structural)]
pub enum InputMode {
    Normal,
    Editing,
}

/// A terminal key, reduced to the codes the control loop distinguishes.
#[derive(Clone, Copy, Debug, PartialEq, Eq, Structural)]
pub enum Key {
    Char(char),
    Enter,
    Backspace,
    Left,
    Right,
    Esc,
    Up,
    Down,
    Other,
}

/// Whether a key event is a press, a repeat or a release.
#[derive(Clone, Copy, Debug, PartialEq, Eq, Structural)]
pub enum KeyKind {
    Press,
    Repeat,
    Release,
}

/// What the shell around the control loop must do after one key was handled:
/// keep looping, submit the current input to the query engine, or exit.
#[derive(Clone, Copy, Debug, PartialEq, Eq, Structural)]
pub enum Action {
    Continue,
    Submit,
    Exit,
}

/// The single state aggregate the control loop owns: the SQL text under
/// composition with its cursor, the input mode, the most recent result set,
/// the scroll state, and the diagnostic of the most recent failed query.
///
/// The text is a sequence of Unicode scalar values and the cursor an offset
/// in scalar values, never in raw bytes, so every edit stays valid for
/// multi-byte text.
pub struct App {
    pub input: Vec<char>,
    pub cursor_position: usize,
    pub input_mode: InputMode,
    pub data: ResultSet,
    pub scroll: ScrollState,
    pub last_error: Option<EngineError>,
}

/// Where the cursor lands after one step right: ten scalar values further,
/// clamped to the text length.
pub open spec fn cursor_after_right(cur: nat, len: nat) -> nat {
    if cur + 10 <= len {
        (cur + 10) as nat
    } else {
        len
    }
}

/// Where the cursor lands after one step left: ten scalar values back,
/// floored at zero and clamped to the text length.
pub open spec fn cursor_after_left(cur: nat, len: nat) -> nat {
    let moved = if cur >= 10 {
        (cur - 10) as nat
    } else {
        0nat
    };
    if moved <= len {
        moved
    } else {
        len
    }
}

/// Everything outside the input buffer is as it was.
pub open spec fn only_buffer_differs(pre: App, post: App) -> bool {
    &&& post.input_mode == pre.input_mode
    &&& post.data == pre.data
    &&& post.scroll == pre.scroll
    &&& post.last_error == pre.last_error
}

impl App {
    /// The reachable-state invariant: the cursor stays inside the text, and
    /// the result set keeps its shared schema.
    pub open spec fn wf(self) -> bool {
        &&& self.cursor_position <= self.input@.len()
        &&& self.data.wf()
    }

    /// A fresh session: empty input, cursor at zero, normal mode, no rows,
    /// no scroll, no pending error.
    pub fn new() -> (app: App)
        ensures
            app.wf(),
            app.input@.len() == 0,
            app.cursor_position == 0,
            app.input_mode is Normal,
            app.data.batches@.len() == 0,
            app.scroll.offset == 0,
            app.scroll.content_length == 0,
            app.scroll.viewport_height == 0,
            app.last_error is None,
    {
        App {
            input: Vec::new(),
            cursor_position: 0,
            input_mode: InputMode::Normal,
            data: ResultSet::empty(),
            scroll: ScrollState::new(),
            last_error: None,
        }
    }

    /// Clamps a candidate cursor offset into the text.
    pub fn clamp_cursor(&self, new_cursor_pos: usize) -> (r: usize)
        ensures
            r == if new_cursor_pos <= self.input@.len() {
                new_cursor_pos as int
            } else {
                self.input@.len() as int
            },
    {
        if new_cursor_pos <= self.input.len() {
            new_cursor_pos
        } else {
            self.input.len()
        }
    }

    /// Moves the cursor ten scalar values left, floored at zero.
    pub fn move_cursor_left(&mut self)
        ensures
            old(self).data.wf() ==> final(self).wf(),
            final(self).input@ == old(self).input@,
            final(self).cursor_position == cursor_after_left(
                old(self).cursor_position as nat,
                old(self).input@.len(),
            ),
            only_buffer_differs(*old(self), *final(self)),
    {
        let cursor_moved_left = self.cursor_position.saturating_sub(10);
        self.cursor_position = self.clamp_cursor(cursor_moved_left);
    }

    /// Moves the cursor ten scalar values right, clamped to the text length.
    pub fn move_cursor_right(&mut self)
        ensures
            old(self).data.wf() ==> final(self).wf(),
            final(self).input@ == old(self).input@,
            final(self).cursor_position == cursor_after_right(
                old(self).cursor_position as nat,
                old(self).input@.len(),
            ),
            only_buffer_differs(*old(self), *final(self)),
    {
        proof {
            assert(vstd::std_specs::vec::spec_vec_len(&self.input) == self.input@.len());
        }
        let cursor_moved_right = self.cursor_position.saturating_add(10);
        self.cursor_position = self.clamp_cursor(cursor_moved_right);
    }

    /// Inserts one scalar value at the cursor, then steps the cursor right by
    /// the fixed ten positions, clamped to the new text length.
    pub fn enter_char(&mut self, new_char: char)
        requires
            old(self).wf(),
        ensures
            final(self).wf(),
            final(self).input@ == old(self).input@.insert(
                old(self).cursor_position as int,
                new_char,
            ),
            final(self).cursor_position == cursor_after_right(
                old(self).cursor_position as nat,
                old(self).input@.len() + 1,
            ),
            only_buffer_differs(*old(self), *final(self)),
    {
        self.input.insert(self.cursor_position, new_char);
        self.move_cursor_right();
    }

    /// Removes the scalar value just before the cursor and steps the cursor
    /// left by the fixed ten positions, floored at zero.  With the cursor at
    /// zero (so also on an empty buffer) it is a no-op: text and cursor both
    /// stay as they were.
    pub fn delete_char(&mut self)
        requires
            old(self).wf(),
        ensures
            final(self).wf(),
            old(self).cursor_position == 0 ==> final(self).input@ == old(self).input@
                && final(self).cursor_position == old(self).cursor_position,
            old(self).cursor_position != 0 ==> final(self).input@ == old(self).input@.remove(
                old(self).cursor_position - 1,
            ) && final(self).cursor_position == cursor_after_left(
                old(self).cursor_position as nat,
                (old(self).input@.len() - 1) as nat,
            ),
            only_buffer_differs(*old(self), *final(self)),
    {
        if self.cursor_position != 0 {
            // The buffer holds scalar values, so removing by index can never
            // split a multi-byte character.
            self.input.remove(self.cursor_position - 1);
            self.move_cursor_left();
        }
    }

    /// Puts the cursor back at the start of the text.
    pub fn reset_cursor(&mut self)
        ensures
            final(self).input@ == old(self).input@,
            final(self).cursor_position == 0,
            only_buffer_differs(*old(self), *final(self)),
    {
        self.cursor_position = 0;
    }

    /// The current text under composition, without mutation.
    pub fn snapshot(&self) -> (s: String)
        ensures
            s@ == self.input@,
    {
        chars_to_string(&self.input)
    }

    /// Takes in what the engine answered to a submitted query.  On success
    /// the result set is replaced wholesale, the input is consumed (text
    /// emptied, cursor reset) and any pending diagnostic is dropped.  On
    /// failure nothing is touched but the pending diagnostic: the input and
    /// the previous successful result survive, and the session goes on.
    pub fn submit_sql(&mut self, outcome: Result<ResultSet, EngineError>)
        requires
            old(self).wf(),
            outcome is Ok ==> outcome->Ok_0.wf(),
        ensures
            final(self).wf(),
            outcome matches Ok(rs) ==> {
                &&& final(self).data == rs
                &&& final(self).input@.len() == 0
                &&& final(self).cursor_position == 0
                &&& final(self).last_error is None
                &&& final(self).input_mode == old(self).input_mode
                &&& final(self).scroll == old(self).scroll
            },
            outcome matches Err(e) ==> {
                &&& final(self).last_error == Some(e)
                &&& final(self).data == old(self).data
                &&& final(self).input@ == old(self).input@
                &&& final(self).cursor_position == old(self).cursor_position
                &&& final(self).input_mode == old(self).input_mode
                &&& final(self).scroll == old(self).scroll
            },
    {
        match outcome {
            Ok(rs) => {
                self.data = rs;
                self.input.clear();
                self.reset_cursor();
                self.last_error = None;
            },
            Err(e) => {
                self.last_error = Some(e);
            },
        }
    }

    /// Converts the current result set into its displayable grid; an empty
    /// result set gives an empty table, and a value that cannot be formatted
    /// gives a `RenderError` instead of substitute output.
    pub fn data_to_table(&self) -> (r: Result<RenderedTable, RenderError>)
        ensures
            r is Ok <==> all_supported(rows_of(self.data.batches@)),
            r is Ok ==> r->Ok_0.header.deep_view() == result_header(self.data.batches@),
            r is Ok ==> r->Ok_0.rows.deep_view() == formatted_rows(rows_of(self.data.batches@)),
    {
        render_result(&self.data)
    }

    /// The text the result region shows for this state: the diagnostic of a
    /// failed query if one is pending, otherwise the grid of the current
    /// result set, or the render-failure notice when a value cannot be
    /// formatted.
    pub open spec fn result_region_text(self) -> Seq<char> {
        match self.last_error {
            Some(e) => e.message@,
            None => if all_supported(rows_of(self.data.batches@)) {
                grid_chars(
                    result_header(self.data.batches@),
                    formatted_rows(rows_of(self.data.batches@)),
                )
            } else {
                render_failure_text()
            },
        }
    }

    /// One re-render: lays out the text for the result region and
    /// recalibrates the scroll content length to its line count (saturating
    /// at the machine limit).  Nothing else moves; in particular the scroll
    /// offset stays where it was.
    pub fn refresh(&mut self) -> (text: String)
        requires
            old(self).wf(),
        ensures
            final(self).wf(),
            text@ == old(self).result_region_text(),
            final(self).scroll.content_length as nat == if line_count(
                old(self).result_region_text(),
            ) > usize::MAX as nat {
                usize::MAX as nat
            } else {
                line_count(old(self).result_region_text())
            },
            final(self).input@ == old(self).input@,
            final(self).cursor_position == old(self).cursor_position,
            final(self).input_mode == old(self).input_mode,
            final(self).data == old(self).data,
            final(self).last_error == old(self).last_error,
            final(self).scroll.offset == old(self).scroll.offset,
            final(self).scroll.viewport_height == old(self).scroll.viewport_height,
    {
        let chars: Vec<char> = match &self.last_error {
            Some(e) => copy_chars(&e.message),
            None => match render_result(&self.data) {
                Ok(t) => t.grid(),
                Err(_) => render_failure_chars(),
            },
        };
        let n = count_lines(&chars);
        self.scroll.set_content_length(n);
        chars_to_string(&chars)
    }

    /// Routes one terminal key event to the component the current mode
    /// selects and reports what the shell must do next.  The whole
    /// mode-by-key table is `key_step`.
    pub fn handle_key(&mut self, code: Key, kind: KeyKind) -> (a: Action)
        requires
            old(self).wf(),
        ensures
            final(self).wf(),
            key_step(*old(self), *final(self), code, kind, a),
    {
        match self.input_mode {
            InputMode::Normal => match code {
                Key::Char(c) => {
                    if c == 'e' {
                        self.input_mode = InputMode::Editing;
                        Action::Continue
                    } else if c == 'q' {
                        Action::Exit
                    } else {
                        Action::Continue
                    }
                },
                Key::Down => {
                    self.scroll.scroll_down();
                    Action::Continue
                },
                Key::Up => {
                    self.scroll.scroll_up();
                    Action::Continue
                },
                _ => Action::Continue,
            },
            InputMode::Editing => match kind {
                KeyKind::Press => match code {
                    Key::Enter => Action::Submit,
                    Key::Char(c) => {
                        self.enter_char(c);
                        Action::Continue
                    },
                    Key::Backspace => {
                        self.delete_char();
                        Action::Continue
                    },
                    Key::Left => {
                        self.move_cursor_left();
                        Action::Continue
                    },
                    Key::Right => {
                        self.move_cursor_right();
                        Action::Continue
                    },
                    Key::Esc => {
                        self.input_mode = InputMode::Normal;
                        Action::Continue
                    },
                    _ => Action::Continue,
                },
                _ => Action::Continue,
            },
        }
    }
}

/// What one key does in `Normal` mode: `e` switches to editing, `q` asks the
/// shell to exit, Down and Up move the viewport (Up flooring at zero), and
/// every other key is ignored.  Normal mode handles presses, repeats and
/// releases alike.
pub open spec fn normal_step(pre: App, post: App, code: Key, a: Action) -> bool {
    match code {
        Key::Char(c) => if c == 'e' {
            post == (App { input_mode: InputMode::Editing, ..pre }) && a is Continue
        } else if c == 'q' {
            post == pre && a is Exit
        } else {
            post == pre && a is Continue
        },
        Key::Down => a is Continue && post == (App {
            scroll: ScrollState {
                offset: pre.scroll.offset.saturating_add(1),
                ..pre.scroll
            },
            ..pre
        }),
        Key::Up => a is Continue && post == (App {
            scroll: ScrollState {
                offset: if pre.scroll.offset >= 1 {
                    (pre.scroll.offset - 1) as usize
                } else {
                    pre.scroll.offset
                },
                ..pre.scroll
            },
            ..pre
        }),
        _ => post == pre && a is Continue,
    }
}

/// What one key press does in `Editing` mode: Enter asks the shell to submit
/// the input, printable characters are inserted, Backspace deletes before
/// the cursor, Left and Right move it, Esc returns to normal mode, and every
/// other key is ignored.
pub open spec fn editing_step(pre: App, post: App, code: Key, a: Action) -> bool {
    match code {
        Key::Enter => post == pre && a is Submit,
        Key::Char(c) => {
            &&& a is Continue
            &&& only_buffer_differs(pre, post)
            &&& post.input@ == pre.input@.insert(pre.cursor_position as int, c)
            &&& post.cursor_position == cursor_after_right(
                pre.cursor_position as nat,
                pre.input@.len() + 1,
            )
        },
        Key::Backspace => {
            &&& a is Continue
            &&& only_buffer_differs(pre, post)
            &&& pre.cursor_position == 0 ==> post.input@ == pre.input@ && post.cursor_position
                == 0
            &&& pre.cursor_position != 0 ==> post.input@ == pre.input@.remove(
                pre.cursor_position - 1,
            ) && post.cursor_position == cursor_after_left(
                pre.cursor_position as nat,
                (pre.input@.len() - 1) as nat,
            )
        },
        Key::Left => {
            &&& a is Continue
            &&& only_buffer_differs(pre, post)
            &&& post.input@ == pre.input@
            &&& post.cursor_position == cursor_after_left(
                pre.cursor_position as nat,
                pre.input@.len(),
            )
        },
        Key::Right => {
            &&& a is Continue
            &&& only_buffer_differs(pre, post)
            &&& post.input@ == pre.input@
            &&& post.cursor_position == cursor_after_right(
                pre.cursor_position as nat,
                pre.input@.len(),
            )
        },
        Key::Esc => post == (App { input_mode: InputMode::Normal, ..pre }) && a is Continue,
        _ => post == pre && a is Continue,
    }
}

/// The one-step transition of the control loop: in `Normal` mode every key
/// event is interpreted; in `Editing` mode only press events are, and
/// repeats and releases are ignored.
pub open spec fn key_step(pre: App, post: App, code: Key, kind: KeyKind, a: Action) -> bool {
    match pre.input_mode {
        InputMode::Normal => normal_step(pre, post, code, a),
        InputMode::Editing => if kind is Press {
            editing_step(pre, post, code, a)
        } else {
            post == pre && a is Continue
        },
    }
}

/// Undoing one insertion: removing the scalar value at the position it was
/// inserted at restores the text exactly.  Removing at position `i` is what
/// `delete_char` does with the cursor standing at `i + 1`.
pub proof fn lemma_insert_then_delete(t: Seq<char>, i: int, c: char)
    requires
        0 <= i <= t.len(),
    ensures
        t.insert(i, c).remove(i) == t,
{
    assert(t.insert(i, c).remove(i) =~= t);
}

/// The text after inserting the characters `cs`, one at a time, at the
/// positions `ps`, first pair first.
pub open spec fn insert_all(t: Seq<char>, ps: Seq<int>, cs: Seq<char>) -> Seq<char>
    decreases ps.len(),
{
    if ps.len() == 0 {
        t
    } else {
        insert_all(t.insert(ps[0], cs[0]), ps.drop_first(), cs.drop_first())
    }
}

/// The text after removing the scalar values at the positions `ps`, first
/// position first.
pub open spec fn delete_all(t: Seq<char>, ps: Seq<int>) -> Seq<char>
    decreases ps.len(),
{
    if ps.len() == 0 {
        t
    } else {
        delete_all(t.remove(ps[0]), ps.drop_first())
    }
}

/// Whether each position in `ps` is inside the text it will meet, given
/// that every earlier insertion has grown the text by one.
pub open spec fn positions_valid(len: int, ps: Seq<int>) -> bool
    decreases ps.len(),
{
    ps.len() == 0 || (0 <= ps[0] <= len && positions_valid(len + 1, ps.drop_first()))
}

proof fn lemma_delete_all_push(t: Seq<char>, ps: Seq<int>, p: int)
    ensures
        delete_all(t, ps.push(p)) == delete_all(t, ps).remove(p),
    decreases ps.len(),
{
    if ps.len() == 0 {
        assert(ps.push(p).drop_first() =~= Seq::<int>::empty());
        assert(delete_all(t, ps.push(p)) == delete_all(t.remove(p), Seq::<int>::empty()));
        assert(delete_all(t.remove(p), Seq::<int>::empty()) == t.remove(p));
    } else {
        assert(ps.push(p)[0] == ps[0]);
        assert(ps.push(p).drop_first() =~= ps.drop_first().push(p));
        assert(delete_all(t, ps.push(p)) == delete_all(
            t.remove(ps[0]),
            ps.drop_first().push(p),
        ));
        assert(delete_all(t, ps) == delete_all(t.remove(ps[0]), ps.drop_first()));
        lemma_delete_all_push(t.remove(ps[0]), ps.drop_first(), p);
    }
}

/// Any run of insertions followed by an equal number of deletions aimed
/// back at the same positions — the most recent insertion undone first —
/// restores the original text exactly.  Only the fixed ten-position cursor
/// jumps of the buffer operations are left aside.
pub proof fn lemma_inserts_then_deletes(t: Seq<char>, ps: Seq<int>, cs: Seq<char>)
    requires
        ps.len() == cs.len(),
        positions_valid(t.len() as int, ps),
    ensures
        delete_all(insert_all(t, ps, cs), ps.reverse()) == t,
    decreases ps.len(),
{
    if ps.len() == 0 {
        assert(ps.reverse() =~= ps);
    } else {
        let t1 = t.insert(ps[0], cs[0]);
        lemma_inserts_then_deletes(t1, ps.drop_first(), cs.drop_first());
        assert(ps.reverse() =~= ps.drop_first().reverse().push(ps[0]));
        lemma_delete_all_push(
            insert_all(t1, ps.drop_first(), cs.drop_first()),
            ps.drop_first().reverse(),
            ps[0],
        );
        lemma_insert_then_delete(t, ps[0], cs[0]);
    }
}

} // verus!
