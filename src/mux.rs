//! The multiplexer's state and the input-mode state machine.
//!
//! The control loop hands every decoded input event to `App::handle_event`,
//! which updates the state and answers with the one thing the loop must do
//! outside: write bytes to the active session, resize it, terminate its
//! child, redraw, or nothing.

use vstd::prelude::*;

use crate::keys::{key_bytes, key_bytes_spec, Key};
use crate::text::{decimal, push_decimal};
use crate::engine::with_scrollback;
use crate::terminal::{
    fed_engine, lemma_scroll_in_place, only_scrolled, scrolled_down, scrolled_up, terminal_rows,
    VirtualTerminal,
};

verus! {

/// Lines moved by one scroll gesture.
pub const SCROLL_STEP: u16 = 5;

/// Number of the function key that quits.
pub const QUIT_FKEY: u8 = 10;

/// The input mode, shared by all tabs.
#[derive(Clone, Copy, Debug, PartialEq, Eq, Structural)]
pub enum Mode {
    /// Keystrokes go to the active session.
    Normal,
    /// The view is scrolled back; only scroll and cancel gestures count.
    Scrollback,
}

/// Whether a key event is a press, an auto-repeat or a release.
#[derive(Clone, Copy, Debug, PartialEq, Eq, Structural)]
pub enum KeyKind {
    Press,
    Repeat,
    Release,
}

/// The mouse events the multiplexer tells apart.
#[derive(Clone, Copy, Debug, PartialEq, Eq, Structural)]
pub enum MouseKind {
    WheelUp,
    WheelDown,
    Other,
}

/// A decoded input event.
#[derive(Clone, Copy, Debug, PartialEq, Eq, Structural)]
pub enum InputEvent {
    Key(Key, KeyKind),
    Mouse(MouseKind),
    /// The host console is now `cols` x `rows`.
    Resize(u16, u16),
    Other,
}

/// What the control loop must do after an event.
#[derive(Debug, PartialEq, Eq)]
pub enum Action {
    /// Nothing changed.
    Ignore,
    /// The state changed: redraw.
    Redraw,
    /// Write these bytes to the active session's input, then redraw.
    Write(Vec<u8>),
    /// Resize the active session to `cols` x `rows` (the terminal's own
    /// height, status row excluded), then redraw.
    ResizeSession(u16, u16),
    /// Terminate the active session's child process and leave.
    Terminate,
}

/// Is this the global quit gesture?
pub open spec fn is_quit(ev: InputEvent) -> bool {
    ev == InputEvent::Key(Key::F(QUIT_FKEY), KeyKind::Press)
}

/// Gestures that scroll toward the live view: Page Down, or the wheel turned
/// down.
pub open spec fn is_scroll_down(ev: InputEvent) -> bool {
    ev == InputEvent::Key(Key::PageDown, KeyKind::Press) || ev == InputEvent::Mouse(
        MouseKind::WheelDown,
    )
}

/// `b` is `a` with only its scrollback offset changed, to `offset`.
pub open spec fn rescrolled(a: VirtualTerminal, b: VirtualTerminal, offset: nat) -> bool {
    &&& b.wf()
    &&& b.offset() == offset
    &&& b.engine() == with_scrollback(a.engine(), offset as usize)
    &&& only_scrolled(a.engine(), b.engine())
    &&& b.history() == a.history()
    &&& b.cols() == a.cols()
    &&& b.rows() == a.rows()
    &&& b.term_rows() == a.term_rows()
    &&& b.fed() == a.fed()
}

/// The name of a mode on the status line.
pub open spec fn mode_name(m: Mode) -> Seq<char> {
    match m {
        Mode::Normal => "normal"@,
        Mode::Scrollback => "scroll"@,
    }
}

/// The status line: the active tab's number (from 1), the number of tabs,
/// the mode, and the quit key.
pub open spec fn status_text(tab: nat, count: nat, m: Mode) -> Seq<char> {
    "[myux] tab "@ + decimal(tab) + "/"@ + decimal(count) + " | mode: "@ + mode_name(m)
        + " | F10: quit"@
}

/// Mode auto-exit: in scrollback mode, a scroll-down gesture that brings the
/// active tab's offset to the live view (it was at most one step back)
/// leaves scrollback mode.
pub proof fn lemma_scroll_down_to_live_exits(pre: App, post: App, ev: InputEvent, act: Action)
    requires
        pre.wf(),
        !pre.quitting(),
        pre.mode_of() == Mode::Scrollback,
        pre.active_tab_of().offset() <= SCROLL_STEP,
        is_scroll_down(ev),
        App::reaction(pre, post, ev, act),
    ensures
        post.active_tab_of().offset() == 0,
        post.mode_of() == Mode::Normal,
        act == Action::Redraw,
{
}

/// Scroll round trip: from the live view in normal mode, one scroll into
/// history enters scrollback mode, and the cancel gesture then returns to
/// normal mode with the active tab's engine exactly as it was, so the same
/// lines are shown.
pub proof fn lemma_scroll_round_trip(
    pre: App,
    mid: App,
    post: App,
    up: InputEvent,
    cancel: InputEvent,
    first: Action,
    second: Action,
)
    requires
        pre.wf(),
        !pre.quitting(),
        pre.mode_of() == Mode::Normal,
        pre.active_tab_of().offset() == 0,
        up == InputEvent::Mouse(MouseKind::WheelUp) || up == InputEvent::Key(
            Key::PageUp,
            KeyKind::Press,
        ),
        cancel == InputEvent::Key(Key::Esc, KeyKind::Press),
        App::reaction(pre, mid, up, first),
        App::reaction(mid, post, cancel, second),
    ensures
        mid.mode_of() == Mode::Scrollback,
        mid.active_tab_of().offset() == scrolled_up(0, SCROLL_STEP, pre.active_tab_of().history()),
        post.mode_of() == Mode::Normal,
        post.active_tab_of().offset() == 0,
        post.active_tab_of().engine() == pre.active_tab_of().engine(),
        post.active() == pre.active(),
        post.tabs().len() == pre.tabs().len(),
{
    let t0 = pre.active_tab_of();
    assert(t0.wf());
    lemma_scroll_in_place(&t0);
    let e0 = t0.engine();
    let e1 = mid.active_tab_of().engine();
    assert(with_scrollback(e1, 0) == with_scrollback(e0, 0));
}

/// Quit: the quit gesture, in either mode, asks once for the child to be
/// terminated, and every event after it is ignored, so nothing more is
/// written to the session.
pub proof fn lemma_quit_terminates_once(
    pre: App,
    mid: App,
    post: App,
    quit: InputEvent,
    next: InputEvent,
    first: Action,
    second: Action,
)
    requires
        !pre.quitting(),
        is_quit(quit),
        App::reaction(pre, mid, quit, first),
        App::reaction(mid, post, next, second),
    ensures
        first == Action::Terminate,
        mid.quitting(),
        second == Action::Ignore,
        post == mid,
{
}

/// Once quitting, the multiplexer ignores every event and stays as it is.
pub proof fn lemma_quitting_is_final(pre: App, post: App, ev: InputEvent, act: Action)
    requires
        pre.quitting(),
        App::reaction(pre, post, ev, act),
    ensures
        act == Action::Ignore,
        post == pre,
{
}

/// The multiplexer: its tabs (never none), which one is active, the input
/// mode, and whether the quit gesture has been seen.
pub struct App {
    tabs: Vec<VirtualTerminal>,
    active: usize,
    mode: Mode,
    quitting: bool,
}

impl App {
    pub closed spec fn tabs(&self) -> Seq<VirtualTerminal> {
        self.tabs@
    }

    pub closed spec fn active(&self) -> int {
        self.active as int
    }

    pub closed spec fn mode_of(&self) -> Mode {
        self.mode
    }

    /// Has the quit gesture been seen?
    pub closed spec fn quitting(&self) -> bool {
        self.quitting
    }

    pub open spec fn active_tab_of(&self) -> VirtualTerminal {
        self.tabs()[self.active()]
    }

    pub closed spec fn wf(&self) -> bool {
        &&& self.tabs@.len() > 0
        &&& self.active < self.tabs@.len()
        &&& forall|i: int| 0 <= i < self.tabs@.len() ==> (#[trigger] self.tabs@[i]).wf()
    }

    /// `self` and `other` differ at most in the active tab, which has kept
    /// everything but possibly its scrollback offset.
    pub open spec fn only_active_changed(&self, other: &App) -> bool {
        &&& other.tabs().len() == self.tabs().len()
        &&& other.active() == self.active()
        &&& other.quitting() == self.quitting()
        &&& forall|j: int|
            0 <= j < self.tabs().len() && j != self.active() ==> #[trigger] other.tabs()[j]
                == self.tabs()[j]
    }

    /// A multiplexer with one tab, in normal mode.
    pub fn new(first: VirtualTerminal) -> (app: App)
        requires
            first.wf(),
        ensures
            app.wf(),
            app.tabs() == seq![first],
            app.active() == 0,
            app.mode_of() == Mode::Normal,
            !app.quitting(),
    {
        let mut tabs: Vec<VirtualTerminal> = Vec::new();
        tabs.push(first);
        App { tabs, active: 0, mode: Mode::Normal, quitting: false }
    }

    /// Adds a tab after the others; the active tab stays active.
    pub fn add_tab(&mut self, term: VirtualTerminal)
        requires
            old(self).wf(),
            term.wf(),
        ensures
            final(self).wf(),
            final(self).tabs() == old(self).tabs().push(term),
            final(self).active() == old(self).active(),
            final(self).mode_of() == old(self).mode_of(),
            final(self).quitting() == old(self).quitting(),
    {
        self.tabs.push(term);
    }

    pub fn active_tab(&self) -> (t: &VirtualTerminal)
        requires
            self.wf(),
        ensures
            *t == self.active_tab_of(),
            t.wf(),
    {
        &self.tabs[self.active]
    }

    pub fn active_index(&self) -> (r: usize)
        ensures
            r == self.active(),
    {
        self.active
    }

    pub fn tab_count(&self) -> (r: usize)
        ensures
            r == self.tabs().len(),
    {
        self.tabs.len()
    }

    pub fn mode(&self) -> (m: Mode)
        ensures
            m == self.mode_of(),
    {
        self.mode
    }

    pub fn is_quitting(&self) -> (r: bool)
        ensures
            r == self.quitting(),
    {
        self.quitting
    }

    /// `post` is `pre` after the active tab scrolled one step into history,
    /// in scrollback mode.
    pub open spec fn scrolled_back(pre: App, post: App) -> bool {
        &&& pre.only_active_changed(&post)
        &&& rescrolled(
            pre.active_tab_of(),
            post.active_tab_of(),
            scrolled_up(
                pre.active_tab_of().offset(),
                SCROLL_STEP,
                pre.active_tab_of().history(),
            ),
        )
        &&& post.mode_of() == Mode::Scrollback
    }

    /// `post` is `pre` after the active tab scrolled one step toward the live
    /// view; reaching it ends scrollback mode.
    pub open spec fn scrolled_forward(pre: App, post: App) -> bool {
        let offset = scrolled_down(pre.active_tab_of().offset(), SCROLL_STEP);
        &&& pre.only_active_changed(&post)
        &&& rescrolled(pre.active_tab_of(), post.active_tab_of(), offset)
        &&& post.mode_of() == if offset == 0 {
            Mode::Normal
        } else {
            Mode::Scrollback
        }
    }

    /// `post` is `pre` after the active tab returned to the live view, in
    /// normal mode.
    pub open spec fn returned_live(pre: App, post: App) -> bool {
        &&& pre.only_active_changed(&post)
        &&& rescrolled(pre.active_tab_of(), post.active_tab_of(), 0)
        &&& post.mode_of() == Mode::Normal
    }

    /// The mode state machine: how `handle_event` takes `pre` to `post` on
    /// `ev`, answering `act`.
    ///
    /// After the quit gesture every event is ignored. Only key presses count.
    /// The quit key terminates the session in either mode. In normal mode
    /// Page Up enters scrollback and any other key is written to the session
    /// (a redraw alone for a key that sends nothing). In scrollback mode
    /// Page Up and Page Down scroll, Escape returns to the live view, and
    /// other keys are swallowed. The wheel scrolls as the paging keys do,
    /// except that turning it down in normal mode does nothing. A resize
    /// resizes the active terminal and asks for the session to follow.
    pub open spec fn reaction(pre: App, post: App, ev: InputEvent, act: Action) -> bool {
        let unchanged = act == Action::Ignore && post == pre;
        if pre.quitting() {
            unchanged
        } else {
            match ev {
                InputEvent::Key(key, kind) => {
                    if kind != KeyKind::Press {
                        unchanged
                    } else if key == Key::F(QUIT_FKEY) {
                        &&& act == Action::Terminate
                        &&& post.quitting()
                        &&& post.tabs() == pre.tabs()
                        &&& post.active() == pre.active()
                        &&& post.mode_of() == pre.mode_of()
                    } else {
                        match pre.mode_of() {
                            Mode::Normal => {
                                if key == Key::PageUp {
                                    act == Action::Redraw && Self::scrolled_back(pre, post)
                                } else {
                                    &&& post == pre
                                    &&& match key_bytes_spec(key) {
                                        Some(b) => act matches Action::Write(w) && w@ == b,
                                        None => act == Action::Redraw,
                                    }
                                }
                            },
                            Mode::Scrollback => {
                                if key == Key::PageUp {
                                    act == Action::Redraw && Self::scrolled_back(pre, post)
                                } else if key == Key::PageDown {
                                    act == Action::Redraw && Self::scrolled_forward(pre, post)
                                } else if key == Key::Esc {
                                    act == Action::Redraw && Self::returned_live(pre, post)
                                } else {
                                    unchanged
                                }
                            },
                        }
                    }
                },
                InputEvent::Mouse(MouseKind::WheelUp) => {
                    act == Action::Redraw && Self::scrolled_back(pre, post)
                },
                InputEvent::Mouse(MouseKind::WheelDown) => {
                    match pre.mode_of() {
                        Mode::Normal => unchanged,
                        Mode::Scrollback => {
                            act == Action::Redraw && Self::scrolled_forward(pre, post)
                        },
                    }
                },
                InputEvent::Resize(cols, rows) => {
                    let (a, b) = (pre.active_tab_of(), post.active_tab_of());
                    &&& act == Action::ResizeSession(cols, terminal_rows(rows as int) as u16)
                    &&& post.tabs().len() == pre.tabs().len()
                    &&& post.active() == pre.active()
                    &&& post.quitting() == pre.quitting()
                    &&& post.mode_of() == pre.mode_of()
                    &&& forall|j: int|
                        0 <= j < pre.tabs().len() && j != pre.active() ==> #[trigger] post.tabs()[j]
                            == pre.tabs()[j]
                    &&& b.cols() == cols
                    &&& b.rows() == rows
                    &&& b.term_rows() == terminal_rows(rows as int)
                    &&& b.offset() == a.offset()
                    &&& b.history() == a.history()
                    &&& b.fed() == a.fed()
                },
                _ => unchanged,
            }
        }
    }

    proof fn lemma_tabs_wf_after_update(&self, pre: App, i: int)
        requires
            pre.wf(),
            0 <= i < pre.tabs@.len(),
            self.tabs@.len() == pre.tabs@.len(),
            self.active == pre.active,
            self.tabs@[i].wf(),
            forall|j: int| 0 <= j < pre.tabs@.len() && j != i ==> self.tabs@[j] == pre.tabs@[j],
        ensures
            forall|j: int| 0 <= j < self.tabs@.len() ==> (#[trigger] self.tabs@[j]).wf(),
    {
        assert forall|j: int| 0 <= j < self.tabs@.len() implies (#[trigger] self.tabs@[j]).wf() by {
            if j != i {
                assert(self.tabs@[j] == pre.tabs@[j]);
            }
        }
    }

    fn scroll_active_up(&mut self)
        requires
            old(self).wf(),
        ensures
            final(self).wf(),
            Self::scrolled_back(*old(self), *final(self)),
    {
        let i = self.active;
        self.mode = Mode::Scrollback;
        self.tabs[i].scroll_up(SCROLL_STEP);
        proof {
            self.lemma_tabs_wf_after_update(*old(self), i as int);
        }
    }

    fn scroll_active_down(&mut self)
        requires
            old(self).wf(),
        ensures
            final(self).wf(),
            Self::scrolled_forward(*old(self), *final(self)),
    {
        let i = self.active;
        self.tabs[i].scroll_down(SCROLL_STEP);
        proof {
            self.lemma_tabs_wf_after_update(*old(self), i as int);
        }
        if self.tabs[i].is_at_bottom() {
            self.mode = Mode::Normal;
        } else {
            self.mode = Mode::Scrollback;
        }
    }

    fn leave_scrollback(&mut self)
        requires
            old(self).wf(),
        ensures
            final(self).wf(),
            Self::returned_live(*old(self), *final(self)),
    {
        let i = self.active;
        self.tabs[i].reset_scrollback();
        proof {
            self.lemma_tabs_wf_after_update(*old(self), i as int);
        }
        self.mode = Mode::Normal;
    }

    /// The status line for the current state.
    pub fn status_line(&self) -> (s: String)
        requires
            self.wf(),
        ensures
            s@ == status_text((self.active() + 1) as nat, self.tabs().len(), self.mode_of()),
    {
        let count = self.tabs.len();
        let mut s = String::from_str("[myux] tab ");
        push_decimal(&mut s, self.active + 1);
        s.append("/");
        push_decimal(&mut s, count);
        s.append(" | mode: ");
        match self.mode {
            Mode::Normal => s.append("normal"),
            Mode::Scrollback => s.append("scroll"),
        }
        s.append(" | F10: quit");
        s
    }

    /// Feeds a chunk of session output to the active tab's terminal.
    pub fn feed_active(&mut self, bytes: &[u8])
        requires
            old(self).wf(),
        ensures
            final(self).wf(),
            final(self).mode_of() == old(self).mode_of(),
            old(self).only_active_changed(final(self)),
            final(self).active_tab_of().fed() == old(self).active_tab_of().fed() + bytes@,
            bytes@.len() > 0 ==> final(self).active_tab_of().engine() == fed_engine(
                old(self).active_tab_of().engine(),
                bytes@,
            ),
            bytes@.len() == 0 ==> *final(self) == *old(self),
            old(self).active_tab_of().offset() == 0 ==> final(self).active_tab_of().offset() == 0,
            final(self).active_tab_of().cols() == old(self).active_tab_of().cols(),
            final(self).active_tab_of().rows() == old(self).active_tab_of().rows(),
    {
        if bytes.len() == 0 {
            return;
        }
        let i = self.active;
        self.tabs[i].feed_bytes(bytes);
        assert forall|j: int| 0 <= j < self.tabs@.len() implies (#[trigger] self.tabs@[j]).wf() by {
            if j != i as int {
                assert(self.tabs@[j] == old(self).tabs@[j]);
            }
        }
    }

    /// Applies one input event, following the mode state machine, and says
    /// what the control loop must do next.
    pub fn handle_event(&mut self, ev: InputEvent) -> (act: Action)
        requires
            old(self).wf(),
        ensures
            final(self).wf(),
            Self::reaction(*old(self), *final(self), ev, act),
    {
        if self.quitting {
            return Action::Ignore;
        }
        match ev {
            InputEvent::Key(key, kind) => {
                match kind {
                    KeyKind::Press => {},
                    _ => {
                        return Action::Ignore;
                    },
                }
                if let Key::F(n) = key {
                    if n == QUIT_FKEY {
                        self.quitting = true;
                        return Action::Terminate;
                    }
                }
                match self.mode {
                    Mode::Normal => match key {
                        Key::PageUp => {
                            self.scroll_active_up();
                            Action::Redraw
                        },
                        _ => match key_bytes(key) {
                            Some(bytes) => Action::Write(bytes),
                            None => Action::Redraw,
                        },
                    },
                    Mode::Scrollback => match key {
                        Key::PageUp => {
                            self.scroll_active_up();
                            Action::Redraw
                        },
                        Key::PageDown => {
                            self.scroll_active_down();
                            Action::Redraw
                        },
                        Key::Esc => {
                            self.leave_scrollback();
                            Action::Redraw
                        },
                        _ => Action::Ignore,
                    },
                }
            },
            InputEvent::Mouse(MouseKind::WheelUp) => {
                self.scroll_active_up();
                Action::Redraw
            },
            InputEvent::Mouse(MouseKind::WheelDown) => {
                match self.mode {
                    Mode::Normal => Action::Ignore,
                    Mode::Scrollback => {
                        self.scroll_active_down();
                        Action::Redraw
                    },
                }
            },
            InputEvent::Resize(cols, rows) => {
                let i = self.active;
                self.tabs[i].resize(cols, rows);
                proof {
                    self.lemma_tabs_wf_after_update(*old(self), i as int);
                }
                let term_rows = if rows >= 2 {
                    rows - 1
                } else {
                    1
                };
                Action::ResizeSession(cols, term_rows)
            },
            _ => Action::Ignore,
        }
    }
}

} // verus!
