//! The overlay's state machine: which screen shows, what a key does, and
//! what the outside must run next. Drawing and the terminal stay outside.

use vstd::prelude::*;
use crate::text::joined;
use crate::pi::{ReloadSummary, ResetSummary};

verus! {

/// The number of entries of the menu: reload all, reset all.
pub const MENU_ITEMS: usize = 2;

/// What the overlay shows.
pub enum Screen {
    Menu,
    RunningReload,
    RunningReset,
    ReloadResult(ReloadSummary),
    ResetResult(ResetSummary),
    Error(String),
}

/// The state of the overlay.
pub struct AppState {
    /// The menu entry under the cursor: 0 reloads, 1 resets.
    pub selected: usize,
    pub screen: Screen,
    /// How far the spinner of a running operation has turned.
    pub spinner_frame: usize,
}

/// The keys the overlay tells apart.
#[derive(PartialEq, Eq, Structural, Debug, Clone, Copy)]
pub enum KeyCode {
    Char(char),
    Up,
    Down,
    Enter,
    Esc,
    Other,
}

/// A key event: the key, whether Control was held, and whether it was a press.
#[derive(PartialEq, Eq, Structural, Debug, Clone, Copy)]
pub struct KeyInput {
    pub code: KeyCode,
    pub ctrl: bool,
    pub press: bool,
}

/// What the outside must do after a key.
#[derive(PartialEq, Eq, Structural, Debug, Clone, Copy)]
pub enum Action {
    Nothing,
    Quit,
    StartReload,
    StartReset,
}

/// Whether an operation is under way; then no key has any effect.
pub open spec fn is_running(screen: Screen) -> bool {
    screen is RunningReload || screen is RunningReset
}

/// `q`, Escape and Ctrl+C close the overlay.
pub open spec fn is_exit_key(k: KeyInput) -> bool {
    k.code == KeyCode::Char('q') || k.code == KeyCode::Esc || (k.code == KeyCode::Char('c') && k.ctrl)
}

/// Down or `j`.
pub open spec fn is_down_key(k: KeyInput) -> bool {
    k.code == KeyCode::Down || k.code == KeyCode::Char('j')
}

/// Up or `k`.
pub open spec fn is_up_key(k: KeyInput) -> bool {
    k.code == KeyCode::Up || k.code == KeyCode::Char('k')
}

/// The menu entry after `i`, wrapping to the first.
pub open spec fn next_item(i: usize) -> usize {
    if i + 1 < MENU_ITEMS {
        (i + 1) as usize
    } else {
        0
    }
}

/// The menu entry before `i`, wrapping to the last.
pub open spec fn prev_item(i: usize) -> usize {
    if i == 0 {
        (MENU_ITEMS - 1) as usize
    } else {
        (i - 1) as usize
    }
}

impl AppState {
    /// The cursor is on a menu entry.
    pub open spec fn wf(self) -> bool {
        self.selected < MENU_ITEMS
    }
}

/// The state and action that follow a key.
pub open spec fn step_key(s: AppState, k: KeyInput) -> (AppState, Action) {
    if !k.press || is_running(s.screen) {
        (s, Action::Nothing)
    } else if is_exit_key(k) {
        (s, Action::Quit)
    } else {
        match s.screen {
            Screen::Menu => if is_down_key(k) {
                (AppState { selected: next_item(s.selected), ..s }, Action::Nothing)
            } else if is_up_key(k) {
                (AppState { selected: prev_item(s.selected), ..s }, Action::Nothing)
            } else if k.code == KeyCode::Enter {
                if s.selected == 0 {
                    (AppState { screen: Screen::RunningReload, spinner_frame: 0, ..s }, Action::StartReload)
                } else {
                    (AppState { screen: Screen::RunningReset, spinner_frame: 0, ..s }, Action::StartReset)
                }
            } else {
                (s, Action::Nothing)
            },
            _ => if k.code == KeyCode::Enter {
                (s, Action::Quit)
            } else {
                (s, Action::Nothing)
            },
        }
    }
}

fn is_exit_key_exec(k: KeyInput) -> (r: bool)
    ensures
        r == is_exit_key(k),
{
    match k.code {
        KeyCode::Char(c) => c == 'q' || (c == 'c' && k.ctrl),
        KeyCode::Esc => true,
        _ => false,
    }
}

impl AppState {
    /// The overlay as it opens: the menu, with the cursor on reload.
    pub fn new() -> (s: AppState)
        ensures
            s.wf(),
            s.selected == 0,
            s.screen is Menu,
            s.spinner_frame == 0,
    {
        AppState { selected: 0, screen: Screen::Menu, spinner_frame: 0 }
    }

    /// Takes in a key and says what the outside must do.
    pub fn handle_key(&mut self, key: KeyInput) -> (a: Action)
        requires
            old(self).wf(),
        ensures
            (*final(self), a) == step_key(*old(self), key),
            final(self).wf(),
    {
        if !key.press {
            return Action::Nothing;
        }
        match self.screen {
            Screen::RunningReload | Screen::RunningReset => {
                return Action::Nothing;
            },
            _ => {},
        }
        if is_exit_key_exec(key) {
            return Action::Quit;
        }
        match self.screen {
            Screen::Menu => {
                let down = match key.code {
                    KeyCode::Down => true,
                    KeyCode::Char(c) => c == 'j',
                    _ => false,
                };
                let up = match key.code {
                    KeyCode::Up => true,
                    KeyCode::Char(c) => c == 'k',
                    _ => false,
                };
                if down {
                    self.selected = if self.selected + 1 < MENU_ITEMS {
                        self.selected + 1
                    } else {
                        0
                    };
                    Action::Nothing
                } else if up {
                    self.selected = if self.selected == 0 {
                        MENU_ITEMS - 1
                    } else {
                        self.selected - 1
                    };
                    Action::Nothing
                } else if key.code == KeyCode::Enter {
                    if self.selected == 0 {
                        self.screen = Screen::RunningReload;
                        self.spinner_frame = 0;
                        Action::StartReload
                    } else {
                        self.screen = Screen::RunningReset;
                        self.spinner_frame = 0;
                        Action::StartReset
                    }
                } else {
                    Action::Nothing
                }
            },
            _ => {
                if key.code == KeyCode::Enter {
                    Action::Quit
                } else {
                    Action::Nothing
                }
            },
        }
    }

    /// Shows how a reload task ended: its summary, the error that stopped it
    /// before it began, or why the task could not be joined.
    pub fn reload_finished(&mut self, result: Result<Result<ReloadSummary, String>, String>)
        ensures
            final(self).selected == old(self).selected,
            final(self).spinner_frame == old(self).spinner_frame,
            match result {
                Ok(Ok(summary)) => final(self).screen == Screen::ReloadResult(summary),
                Ok(Err(e)) => final(self).screen matches Screen::Error(m) && m@ == "Failed to get agent list: "@
                    + e@,
                Err(j) => final(self).screen matches Screen::Error(m) && m@ == "Join handle error: "@ + j@,
            },
    {
        match result {
            Ok(Ok(summary)) => {
                self.screen = Screen::ReloadResult(summary);
            },
            Ok(Err(e)) => {
                self.screen = Screen::Error(joined("Failed to get agent list: ", e.as_str()));
            },
            Err(j) => {
                self.screen = Screen::Error(joined("Join handle error: ", j.as_str()));
            },
        }
    }

    /// Shows how a reset task ended: its summary, the error that stopped it,
    /// or why the task could not be joined.
    pub fn reset_finished(&mut self, result: Result<Result<ResetSummary, String>, String>)
        ensures
            final(self).selected == old(self).selected,
            final(self).spinner_frame == old(self).spinner_frame,
            match result {
                Ok(Ok(summary)) => final(self).screen == Screen::ResetResult(summary),
                Ok(Err(e)) => final(self).screen matches Screen::Error(m) && m@ == e@,
                Err(j) => final(self).screen matches Screen::Error(m) && m@ == "Join handle error: "@ + j@,
            },
    {
        match result {
            Ok(Ok(summary)) => {
                self.screen = Screen::ResetResult(summary);
            },
            Ok(Err(e)) => {
                self.screen = Screen::Error(e);
            },
            Err(j) => {
                self.screen = Screen::Error(joined("Join handle error: ", j.as_str()));
            },
        }
    }

    /// One turn of the loop: the spinner of a running reload or reset moves on.
    pub fn tick(&mut self)
        ensures
            final(self).selected == old(self).selected,
            final(self).screen == old(self).screen,
            final(self).spinner_frame == if is_running(old(self).screen) {
                if old(self).spinner_frame < usize::MAX {
                    (old(self).spinner_frame + 1) as usize
                } else {
                    0
                }
            } else {
                old(self).spinner_frame
            },
    {
        let running = match self.screen {
            Screen::RunningReload | Screen::RunningReset => true,
            _ => false,
        };
        if running {
            self.spinner_frame = if self.spinner_frame < usize::MAX {
                self.spinner_frame + 1
            } else {
                0
            };
        }
    }
}

/// While an operation runs, no key changes anything: it cannot be cancelled.
pub proof fn running_operation_ignores_keys(s: AppState, k: KeyInput)
    requires
        is_running(s.screen),
    ensures
        step_key(s, k) == (s, Action::Nothing),
{
}

/// Outside a running operation, `q`, Escape and Ctrl+C close the overlay and
/// change nothing.
pub proof fn exit_keys_close(s: AppState, k: KeyInput)
    requires
        !is_running(s.screen),
        k.press,
        is_exit_key(k),
    ensures
        step_key(s, k) == (s, Action::Quit),
{
}

/// Enter on a result or error screen closes the overlay; no operation can
/// run again from there.
pub proof fn enter_closes_results(s: AppState, k: KeyInput)
    requires
        s.screen is ReloadResult || s.screen is ResetResult || s.screen is Error,
        k.press,
    ensures
        step_key(s, k).0 == s,
        step_key(s, k).1 != Action::StartReload && step_key(s, k).1 != Action::StartReset,
        k.code == KeyCode::Enter ==> step_key(s, k).1 == Action::Quit,
{
}

/// The menu selection wraps: Down then Up, and Up then Down, come back to the
/// same entry, and from the last entry Down goes to the first.
pub proof fn menu_selection_wraps(s: AppState, down: KeyInput, up: KeyInput)
    requires
        s.wf(),
        s.screen is Menu,
        down.press && is_down_key(down) && !is_exit_key(down),
        up.press && is_up_key(up) && !is_exit_key(up),
    ensures
        step_key(step_key(s, down).0, up).0 == s,
        step_key(step_key(s, up).0, down).0 == s,
        s.selected == MENU_ITEMS - 1 ==> step_key(s, down).0.selected == 0,
        s.selected == 0 ==> step_key(s, up).0.selected == MENU_ITEMS - 1,
{
}

/// Enter on the menu starts the operation under the cursor, at once, with
/// the spinner at its first frame.
pub proof fn enter_starts_selected(s: AppState, k: KeyInput)
    requires
        s.wf(),
        s.screen is Menu,
        k.press,
        k.code == KeyCode::Enter,
    ensures
        s.selected == 0 ==> step_key(s, k).1 == Action::StartReload && step_key(s, k).0.screen is RunningReload,
        s.selected == 1 ==> step_key(s, k).1 == Action::StartReset && step_key(s, k).0.screen is RunningReset,
        step_key(s, k).0.spinner_frame == 0,
{
}

/// Only Enter on the menu starts an operation; on the menu, a pressed key
/// that is neither an exit key, Up/`k`, Down/`j` nor Enter changes nothing
/// and asks for nothing.
pub proof fn only_enter_starts_an_operation(s: AppState, k: KeyInput)
    ensures
        (step_key(s, k).1 == Action::StartReload || step_key(s, k).1 == Action::StartReset) ==> (k.press
            && k.code == KeyCode::Enter && s.screen is Menu),
        step_key(s, k).1 == Action::StartReload ==> s.selected == 0,
        step_key(s, k).1 == Action::StartReset ==> s.selected != 0,
        (s.screen is Menu && !is_exit_key(k) && k.code != KeyCode::Enter && k.code != KeyCode::Up
            && k.code != KeyCode::Down && k.code != KeyCode::Char('j') && k.code != KeyCode::Char('k'))
            ==> step_key(s, k) == (s, Action::Nothing),
        !k.press ==> step_key(s, k) == (s, Action::Nothing),
{
}

} // verus!
