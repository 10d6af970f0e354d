//! The layout of a frame: what each physical row shows.
//!
//! Painting it (cursor moves, colors, flushing) is done outside the library;
//! here the rows are computed.

use vstd::prelude::*;

use crate::terminal::VirtualTerminal;
use crate::text::{fit_width, fit_width_spec};

verus! {

/// Rows left for the terminal on a console `rows` high: all but the status
/// row.
pub open spec fn usable_height(rows: u16) -> nat {
    if rows >= 1 {
        (rows - 1) as nat
    } else {
        0
    }
}

/// The text of body row `r` when `lines` are shown in a body `height` rows
/// high: the last `height` lines, aligned to the bottom, empty rows on top.
pub open spec fn body_text(lines: Seq<Seq<char>>, height: nat, r: int) -> Seq<char> {
    let n = lines.len();
    if n >= height {
        lines[n - height + r]
    } else if r < height - n {
        Seq::empty()
    } else {
        lines[r - (height - n)]
    }
}

/// The frame for `lines` and `status` on a `cols` x `rows` console: the body
/// rows, then the status row, each exactly `cols` characters.
pub open spec fn frame_spec(lines: Seq<Seq<char>>, cols: u16, rows: u16, status: Seq<char>) -> Seq<
    Seq<char>,
> {
    let height = usable_height(rows);
    Seq::new(height, |r: int| fit_width_spec(body_text(lines, height, r), cols as nat)).push(
        fit_width_spec(status, cols as nat),
    )
}

pub open spec fn views(v: Seq<String>) -> Seq<Seq<char>> {
    Seq::new(v.len(), |i: int| v[i]@)
}

pub struct Renderer;

impl Renderer {
    pub fn new() -> (r: Self) {
        Renderer
    }

    /// Lays out `lines` and `status` on a `cols` x `rows` console.
    pub fn layout(&self, lines: &Vec<String>, cols: u16, rows: u16, status: &str) -> (frame: Vec<
        String,
    >)
        ensures
            views(frame@) == frame_spec(views(lines@), cols, rows, status@),
    {
        let height: u16 = if rows >= 1 {
            rows - 1
        } else {
            0
        };
        let n = lines.len();
        let ghost ls = views(lines@);
        let ghost h = height as nat;
        let mut frame: Vec<String> = Vec::new();
        let mut r: u16 = 0;
        while r < height
            invariant
                r <= height,
                h == height as nat,
                h == usable_height(rows),
                n == lines@.len(),
                ls == views(lines@),
                frame@.len() == r,
                forall|i: int|
                    0 <= i < r ==> #[trigger] frame@[i]@ == fit_width_spec(
                        body_text(ls, h, i),
                        cols as nat,
                    ),
            decreases height - r,
        {
            let row = r as usize;
            let hu = height as usize;
            let text: &str = if n >= hu {
                lines[n - hu + row].as_str()
            } else if row < hu - n {
                ""
            } else {
                lines[row - (hu - n)].as_str()
            };
            proof {
                reveal_strlit("");
                assert(text@ == body_text(ls, h, r as int));
            }
            frame.push(fit_width(text, cols as usize));
            r = r + 1;
        }
        frame.push(fit_width(status, cols as usize));
        assert(views(frame@) =~= frame_spec(ls, cols, rows, status@));
        frame
    }

    /// The frame for `term` with `status` on its last row.
    pub fn frame(&self, term: &VirtualTerminal, status: &str) -> (frame: Vec<String>)
        requires
            term.wf(),
        ensures
            exists|lines: Seq<String>|
                {
                    &&& lines.len() == term.term_rows()
                    &&& views(frame@) == frame_spec(
                        views(lines),
                        term.cols(),
                        term.rows(),
                        status@,
                    )
                    &&& forall|i: int|
                        0 <= i < lines.len() ==> #[trigger] lines[i]@
                            == crate::terminal::rendered_row(term.engine(), i as u16, term.cols())
                },
    {
        let (cols, rows) = term.size();
        let lines = term.render_lines();
        self.layout(&lines, cols, rows, status)
    }
}

} // verus!
