//! The terminal-emulation engine (vt100's parser), as the rest of the
//! library sees it.
//!
//! The parser is opaque. What the library reads of it is named here: how far
//! the view is scrolled back, how many lines of history sit behind the live
//! screen and how many it may keep, the screen's size, what each visible
//! cell holds, and where the cursor is. The parser that processing bytes or
//! scrolling produces is named too, so that callers can say which state they
//! leave the engine in. Every function below makes one call into vt100 0.16,
//! and its contract states what that version's source does.

use vstd::prelude::*;

verus! {

/// A `vt100::Parser`. vt100 0.16's parser is generic over a callbacks trait
/// that Verus cannot be told of, so the parser is held here, out of Verus's
/// sight, and read only through the functions below.
#[verifier::external_body]
pub struct Engine {
    parser: vt100::Parser,
}

/// How many lines the view is scrolled back from the live screen
/// (`Screen::scrollback`).
pub uninterp spec fn view_offset(p: Engine) -> nat;

/// How many lines of history the grid in view currently keeps.
pub uninterp spec fn history_len(p: Engine) -> nat;

/// The most lines of history the parser keeps: the capacity it was made
/// with (the alternate screen keeps none).
pub uninterp spec fn history_capacity(p: Engine) -> nat;

/// The text of the visible cell at (`row`, `col`), taking the scrollback
/// offset into account; `None` where the screen has no such cell.
pub uninterp spec fn cell_text(p: Engine, row: u16, col: u16) -> Option<Seq<char>>;

/// The engine's screen size, as (rows, cols).
pub uninterp spec fn screen_size(p: Engine) -> (u16, u16);

/// Where the engine's cursor is, as (row, col).
pub uninterp spec fn cursor_of(p: Engine) -> (u16, u16);

/// The parser after it has processed `bytes`.
pub uninterp spec fn processed(p: Engine, bytes: Seq<u8>) -> Engine;

/// The parser after its view has been scrolled to `rows` lines back.
pub uninterp spec fn with_scrollback(p: Engine, rows: usize) -> Engine;

/// Relies on `vt100::Parser::new`: a fresh screen of the given size, every
/// cell of it present and empty, that keeps no history yet and shows the
/// live view (so scrolling it to the live view changes nothing). The grid computes
/// `rows - 1` and `cols - 1`, so both must be positive.
#[verifier::external_body]
pub(crate) fn new_engine(rows: u16, cols: u16, capacity: usize) -> (p: Engine)
    requires
        rows >= 1,
        cols >= 1,
    ensures
        view_offset(p) == 0,
        history_len(p) == 0,
        history_capacity(p) == capacity,
        screen_size(p) == (rows, cols),
        with_scrollback(p, 0) == p,
        forall|r: u16, c: u16|
            r < rows && c < cols ==> #[trigger] cell_text(p, r, c) == Some(Seq::<char>::empty()),
{
    Engine { parser: vt100::Parser::new(rows, cols, capacity) }
}

/// Relies on `vt100::Screen::scrollback`, which returns the offset of the
/// grid in view.
#[verifier::external_body]
pub(crate) fn scrollback_of(p: &Engine) -> (r: usize)
    ensures
        r == view_offset(*p),
{
    p.parser.screen().scrollback()
}

/// Relies on `vt100::Screen::set_scrollback`, which sets the offset of the
/// grid in view to `rows.min(scrollback.len())` and changes nothing else:
/// so a later scroll overrides this one, and scrolling to the offset it
/// leaves gives the same parser.
#[verifier::external_body]
pub(crate) fn set_scrollback(p: &mut Engine, rows: usize)
    ensures
        *final(p) == with_scrollback(*old(p), rows),
        with_scrollback(*old(p), view_offset(*final(p)) as usize) == *final(p),
        forall|k: usize| #[trigger]
            with_scrollback(*final(p), k) == with_scrollback(*old(p), k),
        view_offset(*final(p)) == if rows <= history_len(*old(p)) {
            rows as nat
        } else {
            history_len(*old(p))
        },
        history_len(*final(p)) == history_len(*old(p)),
        history_capacity(*final(p)) == history_capacity(*old(p)),
        screen_size(*final(p)) == screen_size(*old(p)),
{
    p.parser.screen_mut().set_scrollback(rows)
}

/// Relies on `vt100::Screen::set_size`, which resizes both grids to
/// (`rows`, `cols`) and touches neither their history nor their offsets.
/// (`set_scrollback` to the offset in view, within the history, would change
/// nothing.) The grid computes `rows - 1` and `cols - 1`, so both must be
/// positive.
#[verifier::external_body]
pub(crate) fn set_size(p: &mut Engine, rows: u16, cols: u16)
    requires
        rows >= 1,
        cols >= 1,
    ensures
        view_offset(*final(p)) == view_offset(*old(p)),
        history_len(*final(p)) == history_len(*old(p)),
        history_capacity(*final(p)) == history_capacity(*old(p)),
        screen_size(*final(p)) == (rows, cols),
        view_offset(*final(p)) <= history_len(*final(p)) ==> with_scrollback(
            *final(p),
            view_offset(*final(p)) as usize,
        ) == *final(p),
{
    p.parser.screen_mut().set_size(rows, cols)
}

/// Relies on `vt100::Parser::process`, which interprets the bytes. What that
/// does to the screen's contents and the offset is the engine's business.
/// Only `set_size` changes the size; the history grows one line at a time
/// and is cut back to its capacity at once, and a full reset keeps the
/// capacity. A double-width character is placed with `cols - 2` and
/// `cols - width`, so the screen must be at least two columns wide; a line
/// that wraps on the bottom row subtracts the scrolled row from the cursor's
/// (`Grid::col_wrap`), which underflows on a one-row screen, so it must be
/// at least two rows high.
#[verifier::external_body]
pub(crate) fn process(p: &mut Engine, bytes: &[u8])
    requires
        screen_size(*old(p)).0 >= 2,
        screen_size(*old(p)).1 >= 2,
    ensures
        *final(p) == processed(*old(p), bytes@),
        screen_size(*final(p)) == screen_size(*old(p)),
        history_capacity(*final(p)) == history_capacity(*old(p)),
        history_len(*final(p)) <= history_capacity(*final(p)),
{
    p.parser.process(bytes)
}

/// Relies on `vt100::Screen::cell` and `vt100::Cell::contents`: the text of
/// the visible cell at (`row`, `col`), if the screen has one there.
#[verifier::external_body]
pub(crate) fn cell_contents(p: &Engine, row: u16, col: u16) -> (r: Option<String>)
    ensures
        match r {
            Some(s) => cell_text(*p, row, col) == Some(s@),
            None => cell_text(*p, row, col) is None,
        },
{
    match p.parser.screen().cell(row, col) {
        Some(c) => Some(c.contents().to_string()),
        None => None,
    }
}

/// Relies on `vt100::Screen::cursor_position`: the cursor's (row, col).
#[verifier::external_body]
pub(crate) fn cursor_position(p: &Engine) -> (r: (u16, u16))
    ensures
        r == cursor_of(*p),
{
    p.parser.screen().cursor_position()
}

} // verus!
