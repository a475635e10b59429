use crate::app_mode::AppMode;
use crate::interactor::{input_applied, next_index, previous_index, TerminalInteractor};
use crate::key::Key;
use vstd::prelude::*;

verus! {

/// The key press ends the session: `q` anywhere outside the editing modes.
/// Editing is never interrupted by an accidental quit; in `Amend` and
/// `Raise` the same key is ordinary character input.
pub open spec fn quits(m: AppMode, key: Key) -> bool {
    key == Key::Char('q') && m != AppMode::Amend && m != AppMode::Raise
}

/// The mode after one key press: the transition table.
///
/// Total and deterministic by construction — it is a function defined on
/// every (mode, key) pair — and every pair outside the listed bindings
/// leaves the mode unchanged (`lemma_transition_total`).
pub open spec fn mode_after(m: AppMode, key: Key) -> AppMode {
    match m {
        AppMode::Normal => if key == Key::Char('l') {
            AppMode::Inquiry
        } else if key == Key::Char('+') {
            AppMode::Raise
        } else {
            AppMode::Normal
        },
        AppMode::Inquiry => if key == Key::Char('l') {
            AppMode::Amend
        } else if key == Key::Char('h') || key == Key::Left {
            AppMode::Normal
        } else {
            AppMode::Inquiry
        },
        AppMode::Amend => if key == Key::Esc {
            AppMode::Inquiry
        } else {
            AppMode::Amend
        },
        AppMode::Raise => if key == Key::Esc {
            AppMode::Normal
        } else {
            AppMode::Raise
        },
    }
}

/// The (mode, key) pairs the transition table lists as mode changes.
pub open spec fn listed_transition(m: AppMode, key: Key) -> bool {
    ||| m == AppMode::Normal && (key == Key::Char('l') || key == Key::Char('+'))
    ||| m == AppMode::Inquiry && (key == Key::Char('l') || key == Key::Char('h') || key
        == Key::Left)
    ||| m == AppMode::Amend && key == Key::Esc
    ||| m == AppMode::Raise && key == Key::Esc
}

/// The transition table is total: every (mode, key) pair it does not list
/// leaves the mode exactly where it was. Together with `mode_after` being
/// a function, dispatch is deterministic.
pub proof fn lemma_transition_total(m: AppMode, key: Key)
    ensures
        !listed_transition(m, key) ==> mode_after(m, key) == m,
{
}

/// The key press moves the selection down: `j` or the down arrow in the
/// browsing modes.
pub open spec fn routes_next(m: AppMode, key: Key) -> bool {
    (m == AppMode::Normal || m == AppMode::Inquiry) && (key == Key::Char('j') || key == Key::Down)
}

/// The key press moves the selection up: `k` or the up arrow in the
/// browsing modes.
pub open spec fn routes_previous(m: AppMode, key: Key) -> bool {
    (m == AppMode::Normal || m == AppMode::Inquiry) && (key == Key::Char('k') || key == Key::Up)
}

/// The key press is handed to the edit session: any key but escape while
/// in an editing mode.
pub open spec fn routes_edit(m: AppMode, key: Key) -> bool {
    (m == AppMode::Amend || m == AppMode::Raise) && key != Key::Esc
}

/// The session driver: owns the current mode and the interactor, and
/// dispatches each key press by mode — a mode switch, a list movement, an
/// edit, a quit, or nothing.
///
/// The surrounding application runs the tick loop: it draws the screen for
/// the current mode, reads the next key event, and hands it to
/// `handle_event` until that signals the end of the session.
#[derive(Debug)]
pub struct TerminalController {
    mode: AppMode,
    input_port: TerminalInteractor,
}

impl TerminalController {
    pub closed spec fn wf(&self) -> bool {
        self.input_port.wf()
    }

    pub closed spec fn spec_mode(&self) -> AppMode {
        self.mode
    }

    pub closed spec fn spec_input(&self) -> TerminalInteractor {
        self.input_port
    }

    /// A controller starting in `Normal` mode over the given interactor.
    pub fn new(input_port: TerminalInteractor) -> (r: TerminalController)
        ensures
            r.spec_mode() == AppMode::Normal,
            r.spec_input() == input_port,
            input_port.wf() ==> r.wf(),
    {
        TerminalController { mode: AppMode::Normal, input_port }
    }

    /// The current mode.
    pub fn mode(&self) -> (r: AppMode)
        ensures
            r == self.spec_mode(),
    {
        self.mode
    }

    /// The interactor behind this controller.
    pub fn input_port(&self) -> (r: &TerminalInteractor)
        ensures
            *r == self.spec_input(),
    {
        &self.input_port
    }

    /// Processes one key press: the mode follows the transition table, a
    /// movement key steps the selection, an editing-mode key goes to the
    /// edit session, and every other key changes nothing. Returns whether
    /// the session ends; a quit leaves all state as it was.
    pub fn handle_event(&mut self, key: Key) -> (quit: bool)
        requires
            old(self).wf(),
        ensures
            final(self).wf(),
            quit == quits(old(self).spec_mode(), key),
            quit ==> *final(self) == *old(self),
            !quit ==> final(self).spec_mode() == mode_after(old(self).spec_mode(), key),
            routes_next(old(self).spec_mode(), key) ==> {
                &&& final(self).spec_input().spec_selected() == next_index(
                    old(self).spec_input().spec_selected(),
                    old(self).spec_input().spec_items().len(),
                )
                &&& final(self).spec_input().spec_items() == old(self).spec_input().spec_items()
                &&& final(self).spec_input().spec_session() == old(
                    self,
                ).spec_input().spec_session()
            },
            routes_previous(old(self).spec_mode(), key) ==> {
                &&& final(self).spec_input().spec_selected() == previous_index(
                    old(self).spec_input().spec_selected(),
                    old(self).spec_input().spec_items().len(),
                )
                &&& final(self).spec_input().spec_items() == old(self).spec_input().spec_items()
                &&& final(self).spec_input().spec_session() == old(
                    self,
                ).spec_input().spec_session()
            },
            routes_edit(old(self).spec_mode(), key) ==> {
                &&& final(self).spec_input().spec_selected() == old(
                    self,
                ).spec_input().spec_selected()
                &&& final(self).spec_input().spec_items() == old(self).spec_input().spec_items()
                &&& input_applied(
                    old(self).spec_input().spec_session(),
                    key,
                    final(self).spec_input().spec_session(),
                )
            },
            !quits(old(self).spec_mode(), key) && !routes_next(old(self).spec_mode(), key)
                && !routes_previous(old(self).spec_mode(), key) && !routes_edit(
                old(self).spec_mode(),
                key,
            ) ==> final(self).spec_input() == old(self).spec_input(),
    {
        match self.mode {
            AppMode::Normal => match key {
                Key::Char(c) => {
                    if c == 'q' {
                        return true;
                    } else if c == 'l' {
                        self.mode = AppMode::Inquiry;
                    } else if c == '+' {
                        self.mode = AppMode::Raise;
                    } else if c == 'j' {
                        self.input_port.next_row();
                    } else if c == 'k' {
                        self.input_port.previous_row();
                    }
                },
                Key::Down => self.input_port.next_row(),
                Key::Up => self.input_port.previous_row(),
                _ => {},
            },
            AppMode::Inquiry => match key {
                Key::Char(c) => {
                    if c == 'q' {
                        return true;
                    } else if c == 'l' {
                        self.mode = AppMode::Amend;
                    } else if c == 'h' {
                        self.mode = AppMode::Normal;
                    } else if c == 'j' {
                        self.input_port.next_row();
                    } else if c == 'k' {
                        self.input_port.previous_row();
                    }
                },
                Key::Left => self.mode = AppMode::Normal,
                Key::Down => self.input_port.next_row(),
                Key::Up => self.input_port.previous_row(),
                _ => {},
            },
            AppMode::Amend => match key {
                Key::Esc => self.mode = AppMode::Inquiry,
                _ => self.input_port.handle_input(key),
            },
            AppMode::Raise => match key {
                Key::Esc => self.mode = AppMode::Normal,
                _ => self.input_port.handle_input(key),
            },
        }
        false
    }
}

} // verus!
