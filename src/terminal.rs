//! The virtual terminal model: the emulation engine plus the geometry that
//! the multiplexer tracks around it.
//!
//! The physical console is `cols` x `rows`; its last row is reserved for the
//! status line, so the engine's screen is `terminal_rows(rows)` high, never
//! less than one row. The scrollback offset is the engine's own, and this
//! type keeps it within the history the engine holds.

use vstd::prelude::*;

use crate::engine;
use crate::engine::{
    cell_text, cursor_of, history_capacity, history_len, processed, screen_size, view_offset,
    with_scrollback, Engine,
};
use crate::text::trim_end_spaces;

verus! {

/// Lines of history the engine keeps behind the live screen.
pub const SCROLLBACK_LEN: usize = 2000;

/// Height of the engine's screen for a console `rows` high: one row is the
/// status line, and at least one row is always left to the terminal.
pub open spec fn terminal_rows(rows: int) -> int {
    if rows - 1 >= 1 {
        rows - 1
    } else {
        1
    }
}

/// A side of the engine's screen for a terminal side of `n`: at least two.
/// The engine places a double-width character with `cols - 2`, and wraps a
/// line on a one-row screen by subtracting a scrolled row from row 0, so its
/// screen is never smaller than two by two. The terminal still renders only
/// its own `term_rows` x `cols`, from the top left of that screen.
pub open spec fn engine_dim(n: u16) -> u16 {
    if n >= 2 {
        n
    } else {
        2
    }
}

fn engine_side(n: u16) -> (d: u16)
    ensures
        d == engine_dim(n),
{
    if n >= 2 {
        n
    } else {
        2
    }
}

/// What one cell contributes to a rendered line: its text, or a single space
/// where the cell is missing or empty (the engine marks empty cells with
/// either no text or a NUL).
pub open spec fn cell_glyph(c: Option<Seq<char>>) -> Seq<char> {
    match c {
        Some(t) => if t.len() == 0 || t == seq!['\0'] {
            seq![' ']
        } else {
            t
        },
        None => seq![' '],
    }
}

/// The first `n` cells of a visible row, side by side.
pub open spec fn row_prefix(p: Engine, row: u16, n: nat) -> Seq<char>
    decreases n,
{
    if n == 0 {
        Seq::empty()
    } else {
        row_prefix(p, row, (n - 1) as nat) + cell_glyph(cell_text(p, row, (n - 1) as u16))
    }
}

/// A visible row as it is rendered: `cols` cells, trailing spaces trimmed.
pub open spec fn rendered_row(p: Engine, row: u16, cols: u16) -> Seq<char> {
    trim_end_spaces(row_prefix(p, row, cols as nat))
}

pub struct VirtualTerminal {
    parser: Engine,
    cols: u16,
    rows: u16,
    term_rows: u16,
    fed: Ghost<Seq<u8>>,
}

impl VirtualTerminal {
    /// Physical console width.
    pub closed spec fn cols(&self) -> u16 {
        self.cols
    }

    /// Physical console height, status row included.
    pub closed spec fn rows(&self) -> u16 {
        self.rows
    }

    /// Height of the terminal proper.
    pub closed spec fn term_rows(&self) -> u16 {
        self.term_rows
    }

    /// Lines the view is scrolled back from the live screen; 0 is live.
    pub closed spec fn offset(&self) -> nat {
        view_offset(self.parser)
    }

    /// Lines of history available to scroll into.
    pub closed spec fn history(&self) -> nat {
        history_len(self.parser)
    }

    /// Every byte fed to this terminal so far, in the order it was fed.
    pub closed spec fn fed(&self) -> Seq<u8> {
        self.fed@
    }

    /// The engine behind the model.
    pub closed spec fn engine(&self) -> Engine {
        self.parser
    }

    /// The model's invariant: one row kept for the status line, an engine
    /// screen `engine_dim(term_rows)` by `engine_dim(cols)`, an offset within
    /// the history, and a history of at most `SCROLLBACK_LEN` lines;
    /// scrolling the engine to where it is changes nothing.
    pub closed spec fn wf(&self) -> bool {
        &&& self.term_rows == terminal_rows(self.rows as int)
        &&& screen_size(self.parser) == (engine_dim(self.term_rows), engine_dim(self.cols))
        &&& view_offset(self.parser) <= history_len(self.parser)
        &&& history_capacity(self.parser) == SCROLLBACK_LEN
        &&& history_len(self.parser) <= SCROLLBACK_LEN
        &&& with_scrollback(self.parser, view_offset(self.parser) as usize) == self.parser
    }

    /// A terminal for a `cols` x `rows` console, at the live view, with no
    /// history yet.
    pub fn new(cols: u16, rows: u16) -> (t: Self)
        ensures
            t.wf(),
            t.cols() == cols,
            t.rows() == rows,
            t.term_rows() == terminal_rows(rows as int),
            t.offset() == 0,
            t.history() == 0,
            t.fed() == Seq::<u8>::empty(),
            screen_size(t.engine()) == (engine_dim(t.term_rows()), engine_dim(cols)),
            forall|i: int|
                0 <= i < t.term_rows() ==> #[trigger] rendered_row(t.engine(), i as u16, cols)
                    == Seq::<char>::empty(),
    {
        let term_rows = if rows >= 2 {
            rows - 1
        } else {
            1
        };
        let parser = engine::new_engine(engine_side(term_rows), engine_side(cols), SCROLLBACK_LEN);
        proof {
            assert forall|i: int| 0 <= i < term_rows implies #[trigger] rendered_row(
                parser,
                i as u16,
                cols,
            ) == Seq::<char>::empty() by {
                lemma_blank_row(parser, i as u16, cols as nat, cols as nat);
                lemma_trim_spaces(cols as nat);
            }
        }
        VirtualTerminal { parser, cols, rows, term_rows, fed: Ghost(Seq::empty()) }
    }

    /// Physical console size, as (cols, rows).
    pub fn size(&self) -> (r: (u16, u16))
        ensures
            r == (self.cols(), self.rows()),
    {
        (self.cols, self.rows)
    }

    /// Adopts a new console size. The scrollback position and the history
    /// are kept.
    pub fn resize(&mut self, cols: u16, rows: u16)
        requires
            old(self).wf(),
        ensures
            final(self).wf(),
            final(self).cols() == cols,
            final(self).rows() == rows,
            final(self).term_rows() == terminal_rows(rows as int),
            final(self).offset() == old(self).offset(),
            final(self).history() == old(self).history(),
            final(self).fed() == old(self).fed(),
            screen_size(final(self).engine()) == (
                engine_dim(final(self).term_rows()),
                engine_dim(cols),
            ),
    {
        let term_rows = if rows >= 2 {
            rows - 1
        } else {
            1
        };
        self.cols = cols;
        self.rows = rows;
        self.term_rows = term_rows;
        engine::set_size(&mut self.parser, engine_side(term_rows), engine_side(cols));
    }

    /// Hands output of the session to the engine, after everything fed
    /// before it. A view at the bottom stays at the bottom; any other offset
    /// stays where the engine put it, clamped to the history it now holds.
    pub fn feed_bytes(&mut self, bytes: &[u8])
        requires
            old(self).wf(),
        ensures
            final(self).wf(),
            final(self).cols() == old(self).cols(),
            final(self).rows() == old(self).rows(),
            final(self).term_rows() == old(self).term_rows(),
            final(self).fed() == old(self).fed() + bytes@,
            old(self).offset() == 0 ==> final(self).offset() == 0,
            bytes@.len() == 0 ==> *final(self) == *old(self),
            bytes@.len() > 0 ==> final(self).engine() == fed_engine(old(self).engine(), bytes@),
    {
        if bytes.len() == 0 {
            assert(self.fed@ + bytes@ =~= self.fed@);
            return;
        }
        let at_bottom = self.is_at_bottom();
        engine::process(&mut self.parser, bytes);
        self.fed = Ghost(self.fed@ + bytes@);
        if at_bottom {
            engine::set_scrollback(&mut self.parser, 0);
        } else {
            let cur = engine::scrollback_of(&self.parser);
            engine::set_scrollback(&mut self.parser, cur);
        }
    }

    /// Current scrollback offset (0 is the live view).
    pub fn current_scrollback(&self) -> (r: usize)
        ensures
            r == self.offset(),
    {
        engine::scrollback_of(&self.parser)
    }

    /// Scrolls `lines` further into history, stopping at its end.
    pub fn scroll_up(&mut self, lines: u16)
        requires
            old(self).wf(),
        ensures
            final(self).wf(),
            final(self).offset() == scrolled_up(old(self).offset(), lines, old(self).history()),
            final(self).engine() == with_scrollback(
                old(self).engine(),
                (old(self).offset() + lines) as usize,
            ),
            final(self).engine() == with_scrollback(
                old(self).engine(),
                final(self).offset() as usize,
            ),
            only_scrolled(old(self).engine(), final(self).engine()),
            final(self).history() == old(self).history(),
            final(self).cols() == old(self).cols(),
            final(self).rows() == old(self).rows(),
            final(self).term_rows() == old(self).term_rows(),
            final(self).fed() == old(self).fed(),
    {
        let cur = self.current_scrollback();
        let new = cur + lines as usize;
        engine::set_scrollback(&mut self.parser, new);
    }

    /// Scrolls `lines` back toward the live view, stopping at it.
    pub fn scroll_down(&mut self, lines: u16)
        requires
            old(self).wf(),
        ensures
            final(self).wf(),
            final(self).offset() == scrolled_down(old(self).offset(), lines),
            final(self).engine() == with_scrollback(
                old(self).engine(),
                scrolled_down(old(self).offset(), lines) as usize,
            ),
            only_scrolled(old(self).engine(), final(self).engine()),
            final(self).history() == old(self).history(),
            final(self).cols() == old(self).cols(),
            final(self).rows() == old(self).rows(),
            final(self).term_rows() == old(self).term_rows(),
            final(self).fed() == old(self).fed(),
    {
        let cur = self.current_scrollback();
        let new = cur.saturating_sub(lines as usize);
        engine::set_scrollback(&mut self.parser, new);
    }

    /// Returns to the live view.
    pub fn reset_scrollback(&mut self)
        requires
            old(self).wf(),
        ensures
            final(self).wf(),
            final(self).offset() == 0,
            final(self).engine() == with_scrollback(old(self).engine(), 0),
            only_scrolled(old(self).engine(), final(self).engine()),
            final(self).history() == old(self).history(),
            final(self).cols() == old(self).cols(),
            final(self).rows() == old(self).rows(),
            final(self).term_rows() == old(self).term_rows(),
            final(self).fed() == old(self).fed(),
    {
        engine::set_scrollback(&mut self.parser, 0);
    }

    /// Is the live view shown?
    pub fn is_at_bottom(&self) -> (r: bool)
        ensures
            r == (self.offset() == 0),
    {
        self.current_scrollback() == 0
    }

    /// The engine's cursor, as (row, col) within the terminal's rows.
    pub fn cursor_pos(&self) -> (r: (u16, u16))
        ensures
            r == cursor_of(self.engine()),
    {
        engine::cursor_position(&self.parser)
    }

    /// The visible screen as `term_rows` lines of text, at the current
    /// scrollback offset: each cell's text, a space for an empty cell,
    /// trailing spaces trimmed.
    pub fn render_lines(&self) -> (out: Vec<String>)
        ensures
            out@.len() == self.term_rows(),
            forall|i: int|
                0 <= i < out@.len() ==> #[trigger] out@[i]@ == rendered_row(
                    self.engine(),
                    i as u16,
                    self.cols(),
                ),
    {
        let mut out: Vec<String> = Vec::new();
        let mut row: u16 = 0;
        while row < self.term_rows
            invariant
                row <= self.term_rows,
                out@.len() == row,
                forall|i: int|
                    0 <= i < row ==> #[trigger] out@[i]@ == rendered_row(
                        self.parser,
                        i as u16,
                        self.cols,
                    ),
            decreases self.term_rows - row,
        {
            let line = self.render_row(row);
            out.push(line);
            row = row + 1;
        }
        out
    }

    fn render_row(&self, row: u16) -> (line: String)
        ensures
            line@ == rendered_row(self.parser, row, self.cols),
    {
        let mut line = String::new();
        let mut col: u16 = 0;
        while col < self.cols
            invariant
                col <= self.cols,
                line@ == row_prefix(self.parser, row, col as nat),
            decreases self.cols - col,
        {
            match engine::cell_contents(&self.parser, row, col) {
                Some(text) => {
                    if is_blank_cell(&text) {
                        line.push(' ');
                    } else {
                        line.append(text.as_str());
                    }
                },
                None => {
                    line.push(' ');
                },
            }
            col = col + 1;
        }
        crate::text::trim_trailing_spaces(&mut line);
        line
    }
}

/// Where `scroll_up(lines)` leaves an offset: `lines` further back, but
/// never past the history.
pub open spec fn scrolled_up(offset: nat, lines: u16, history: nat) -> nat {
    if offset + lines <= history {
        (offset + lines) as nat
    } else {
        history
    }
}

/// `b` differs from `a` at most in its scrollback offset: scrolling either
/// anywhere gives the same engine.
pub open spec fn only_scrolled(a: Engine, b: Engine) -> bool {
    forall|k: usize| #[trigger] with_scrollback(b, k) == with_scrollback(a, k)
}

/// The engine after `bytes` are fed to it: processed, then scrolled back to
/// the live view if it showed it, else left at the offset the engine moved
/// it to.
pub open spec fn fed_engine(e: Engine, bytes: Seq<u8>) -> Engine {
    let after = processed(e, bytes);
    with_scrollback(
        after,
        if view_offset(e) == 0 {
            0
        } else {
            view_offset(after) as usize
        },
    )
}

/// Where `scroll_down(lines)` leaves an offset: `lines` nearer the live
/// view, but never past it.
pub open spec fn scrolled_down(offset: nat, lines: u16) -> nat {
    if offset >= lines {
        (offset - lines) as nat
    } else {
        0
    }
}

/// Scrollback bounds: a terminal's offset lies within its history, which
/// holds at most `SCROLLBACK_LEN` lines, and one more scroll in either
/// direction keeps it there. Every operation of `VirtualTerminal` preserves
/// `wf`, so this holds after any sequence of `scroll_up` and `scroll_down`
/// calls; `is_at_bottom` answers `offset() == 0`.
pub proof fn lemma_scrollback_bounds(t: &VirtualTerminal, lines: u16)
    requires
        t.wf(),
    ensures
        t.offset() <= t.history(),
        t.history() <= SCROLLBACK_LEN,
        scrolled_up(t.offset(), lines, t.history()) <= t.history(),
        scrolled_down(t.offset(), lines) <= t.history(),
{
}

/// A row whose first `n` cells are empty renders as `n` spaces.
proof fn lemma_blank_row(p: Engine, row: u16, n: nat, cols: nat)
    requires
        n <= cols <= u16::MAX,
        forall|c: u16| c < cols ==> #[trigger] cell_text(p, row, c) == Some(Seq::<char>::empty()),
    ensures
        row_prefix(p, row, n) == crate::text::spaces(n),
    decreases n,
{
    if n > 0 {
        lemma_blank_row(p, row, (n - 1) as nat, cols);
        assert(cell_text(p, row, (n - 1) as u16) == Some(Seq::<char>::empty()));
        assert(row_prefix(p, row, n) =~= crate::text::spaces(n));
    }
}

/// Spaces alone trim to nothing.
proof fn lemma_trim_spaces(n: nat)
    ensures
        trim_end_spaces(crate::text::spaces(n)) == Seq::<char>::empty(),
    decreases n,
{
    if n > 0 {
        assert(crate::text::spaces(n).drop_last() =~= crate::text::spaces((n - 1) as nat));
        lemma_trim_spaces((n - 1) as nat);
    }
}

/// A terminal's engine is fixed by its own scrollback offset: scrolling it to
/// where it already is changes nothing.
pub proof fn lemma_scroll_in_place(t: &VirtualTerminal)
    requires
        t.wf(),
    ensures
        with_scrollback(t.engine(), t.offset() as usize) == t.engine(),
{
}

/// Resize floor: the terminal keeps at least one row whatever the console's
/// height, and exactly one on a console of height 0 or 1.
pub proof fn lemma_terminal_rows_floor(rows: u16)
    ensures
        terminal_rows(rows as int) >= 1,
        rows <= 1 ==> terminal_rows(rows as int) == 1,
        rows >= 2 ==> terminal_rows(rows as int) == rows - 1,
{
}

fn is_blank_cell(text: &String) -> (r: bool)
    ensures
        r == (text@.len() == 0 || text@ == seq!['\0']),
{
    let s = text.as_str();
    let n = s.unicode_len();
    if n == 0 {
        true
    } else if n == 1 {
        let c = s.get_char(0);
        proof {
            if c == '\0' {
                assert(text@ =~= seq!['\0']);
            }
        }
        c == '\0'
    } else {
        false
    }
}

} // verus!
