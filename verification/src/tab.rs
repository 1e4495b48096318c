//! A single terminal tab.

use vstd::prelude::*;
use vstd::string::*;

use crate::decimal::{decimal, decimal_string};

verus! {

/// Horizontal direction.
#[derive(Clone, Copy, Debug, PartialEq, Eq, Structural)]
pub enum Direction {
    Left,
    Right,
}

/// What a window reads of a tab's search.
#[derive(Clone, Copy, Debug, PartialEq, Eq, Structural)]
pub struct SearchState {
    /// Direction in which the search goes.
    pub direction: Direction,
    /// Position in the search history, while a search is active.
    pub history_index: Option<usize>,
}

impl Default for SearchState {
    /// No search is active, and the next one goes to the right.
    fn default() -> (r: Self)
        ensures
            r == (SearchState { direction: Direction::Right, history_index: None }),
    {
        SearchState { direction: Direction::Right, history_index: None }
    }
}

impl SearchState {
    /// Whether a search is active.
    pub open spec fn searching(self) -> bool {
        self.history_index is Some
    }
}

/// What a window reads of a tab's terminal.
///
/// The terminal itself is shared with the thread that reads the PTY. This is its state as it was
/// last seen under its lock.
#[derive(Clone, Copy, Debug, PartialEq, Eq, Structural)]
pub struct Terminal {
    /// Whether the terminal has the keyboard focus.
    pub is_focused: bool,
    /// The bits of the terminal's mode.
    pub mode: u32,
    /// Height of the viewport.
    pub screen_lines: usize,
    /// Width of the viewport.
    pub columns: usize,
    /// Line of the cursor.
    pub cursor_line: i32,
    /// Line of the cursor of Vi mode.
    pub vi_cursor_line: i32,
    /// Number of lines that the viewport is scrolled up into the history.
    pub display_offset: usize,
}

/// A PTY that has been opened, with the terminal attached to it.
#[derive(Debug)]
pub struct Pty<H> {
    /// The shared terminal, the channel to the PTY's thread, and whatever else lives and ends with
    /// the tab.
    pub handle: H,
    /// State of the terminal.
    pub terminal: Terminal,
    /// File descriptor of the PTY.
    pub master_fd: i32,
    /// Process identifier of the shell.
    pub shell_pid: u32,
}

/// A single terminal tab within a window.
#[derive(Debug)]
pub struct Tab<H> {
    /// Stable unique identifier for this tab.
    pub id: usize,
    /// State of the terminal.
    pub terminal: Terminal,
    /// What the tab owns outside this library. It is dropped with the tab.
    pub handle: H,
    /// Display title for this tab.
    pub title: String,
    /// State of this tab's search.
    pub search_state: SearchState,
    /// File descriptor of the PTY.
    pub master_fd: i32,
    /// Process identifier of the shell.
    pub shell_pid: u32,
}

/// The mathematical model of a [`Tab`].
#[verifier::ext_equal]
pub struct TabModel<H> {
    pub id: usize,
    pub terminal: Terminal,
    pub handle: H,
    pub title: Seq<char>,
    pub search_state: SearchState,
    pub master_fd: i32,
    pub shell_pid: u32,
}

impl<H> TabModel<H> {
    /// The tab under another title.
    pub open spec fn with_title(self, title: Seq<char>) -> Self {
        TabModel { title, ..self }
    }

    /// The tab with the focus flag of its terminal set to `focused`.
    pub open spec fn with_focus(self, focused: bool) -> Self {
        TabModel { terminal: Terminal { is_focused: focused, ..self.terminal }, ..self }
    }

    /// The tab with its terminal resized to `columns` by `screen_lines`.
    pub open spec fn with_size(self, columns: usize, screen_lines: usize) -> Self {
        TabModel { terminal: Terminal { columns, screen_lines, ..self.terminal }, ..self }
    }
}

impl<H> View for Tab<H> {
    type V = TabModel<H>;

    open spec fn view(&self) -> TabModel<H> {
        TabModel {
            id: self.id,
            terminal: self.terminal,
            handle: self.handle,
            title: self.title@,
            search_state: self.search_state,
            master_fd: self.master_fd,
            shell_pid: self.shell_pid,
        }
    }
}

/// The title "Terminal" with the number `n`.
pub open spec fn numbered_title(n: nat) -> Seq<char> {
    "Terminal "@ + decimal(n)
}

/// The tab that a PTY becomes under the identifier `id`.
pub open spec fn fresh_tab<H>(id: usize, pty: Pty<H>) -> TabModel<H> {
    TabModel {
        id,
        terminal: pty.terminal,
        handle: pty.handle,
        title: numbered_title((id + 1) as nat),
        search_state: SearchState { direction: Direction::Right, history_index: None },
        master_fd: pty.master_fd,
        shell_pid: pty.shell_pid,
    }
}

/// Writes the title "Terminal" with the number `n`.
pub(crate) fn title_with_number(n: usize) -> (r: String)
    ensures
        r@ == numbered_title(n as nat),
{
    let mut r = String::from_str("Terminal ");
    r.append(decimal_string(n).as_str());
    r
}

impl<H> Tab<H> {
    /// Creates a new tab from the PTY that was opened for it, or passes on why there is none.
    pub fn new<R>(id: usize, pty: Result<Pty<H>, R>) -> (r: Result<Self, R>)
        requires
            pty is Ok ==> id < usize::MAX,
        ensures
            match pty {
                Ok(pty) => r is Ok && r->Ok_0@ == fresh_tab(id, pty),
                Err(error) => r is Err && r->Err_0 == error,
            },
    {
        match pty {
            Ok(pty) => Ok(
                Tab {
                    id,
                    terminal: pty.terminal,
                    handle: pty.handle,
                    title: title_with_number(id + 1),
                    search_state: SearchState::default(),
                    master_fd: pty.master_fd,
                    shell_pid: pty.shell_pid,
                },
            ),
            Err(error) => Err(error),
        }
    }
}

} // verus!
