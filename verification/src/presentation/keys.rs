//! Key bindings: which action each key press asks for.
use vstd::prelude::*;

verus! {

/// What the user asked for with a key press.
#[derive(Debug, Clone, Copy, PartialEq, Eq, Structural)]
pub enum AppAction {
    Quit,
    Back,
    NavigateUp,
    NavigateDown,
    PageUp,
    PageDown,
    Select,
    ViewLogs,
    StartStop,
    Delete,
    ViewDetails,
    Refresh,
    ScrollUp,
    ScrollDown,
    PauseUnpause,
    Restart,
    Prune,
    ActivateFilter,
    Exec,
    StopAll,
    StartAll,
    RemoveAll,
}

/// The key of a key press, as far as the bindings tell keys apart.
#[derive(Debug, Clone, Copy, PartialEq, Eq, Structural)]
pub enum KeyCode {
    Char(char),
    Esc,
    Up,
    Down,
    PageUp,
    PageDown,
    Enter,
    Backspace,
    Other,
}

/// A key press: the key, and whether Control was held.
#[derive(Debug, Clone, Copy, PartialEq, Eq, Structural)]
pub struct KeyInput {
    pub code: KeyCode,
    pub control: bool,
}

impl KeyInput {
    /// A key pressed alone.
    pub fn plain(code: KeyCode) -> (r: KeyInput)
        ensures
            r.code == code,
            !r.control,
    {
        KeyInput { code, control: false }
    }

    /// A key pressed with Control.
    pub fn with_control(code: KeyCode) -> (r: KeyInput)
        ensures
            r.code == code,
            r.control,
    {
        KeyInput { code, control: true }
    }
}

/// The binding table. `s`, `d` and `u` mean something else with Control;
/// every key without a binding asks for nothing.
pub open spec fn key_action(key: KeyInput) -> Option<AppAction> {
    match key.code {
        KeyCode::Esc => Some(AppAction::Back),
        KeyCode::Up => Some(AppAction::NavigateUp),
        KeyCode::Down => Some(AppAction::NavigateDown),
        KeyCode::PageUp => Some(AppAction::PageUp),
        KeyCode::PageDown => Some(AppAction::PageDown),
        KeyCode::Enter => Some(AppAction::Select),
        KeyCode::Backspace => None,
        KeyCode::Other => None,
        KeyCode::Char(c) => if c == 'q' {
            Some(AppAction::Quit)
        } else if c == 'k' {
            Some(AppAction::NavigateUp)
        } else if c == 'j' {
            Some(AppAction::NavigateDown)
        } else if c == 'l' {
            Some(AppAction::ViewLogs)
        } else if c == 's' {
            if key.control {
                Some(AppAction::StartAll)
            } else {
                Some(AppAction::StartStop)
            }
        } else if c == 'd' {
            if key.control {
                Some(AppAction::ScrollDown)
            } else {
                Some(AppAction::Delete)
            }
        } else if c == 'c' {
            Some(AppAction::ViewDetails)
        } else if c == 'r' {
            Some(AppAction::Refresh)
        } else if c == 'u' && key.control {
            Some(AppAction::ScrollUp)
        } else if c == 'p' {
            Some(AppAction::PauseUnpause)
        } else if c == 'R' {
            Some(AppAction::Restart)
        } else if c == 'X' {
            Some(AppAction::Prune)
        } else if c == '/' {
            Some(AppAction::ActivateFilter)
        } else if c == 'e' {
            Some(AppAction::Exec)
        } else if c == 'S' {
            Some(AppAction::StopAll)
        } else if c == 'D' {
            Some(AppAction::RemoveAll)
        } else {
            None
        },
    }
}

/// The action a key press asks for, if any.
pub fn map_key_to_action(key: KeyInput) -> (r: Option<AppAction>)
    ensures
        r == key_action(key),
{
    match key.code {
        KeyCode::Char(c) => {
            if c == 'q' {
                Some(AppAction::Quit)
            } else if c == 'k' {
                Some(AppAction::NavigateUp)
            } else if c == 'j' {
                Some(AppAction::NavigateDown)
            } else if c == 'l' {
                Some(AppAction::ViewLogs)
            } else if c == 's' {
                if key.control {
                    Some(AppAction::StartAll)
                } else {
                    Some(AppAction::StartStop)
                }
            } else if c == 'd' {
                if key.control {
                    Some(AppAction::ScrollDown)
                } else {
                    Some(AppAction::Delete)
                }
            } else if c == 'c' {
                Some(AppAction::ViewDetails)
            } else if c == 'r' {
                Some(AppAction::Refresh)
            } else if c == 'u' && key.control {
                Some(AppAction::ScrollUp)
            } else if c == 'p' {
                Some(AppAction::PauseUnpause)
            } else if c == 'R' {
                Some(AppAction::Restart)
            } else if c == 'X' {
                Some(AppAction::Prune)
            } else if c == '/' {
                Some(AppAction::ActivateFilter)
            } else if c == 'e' {
                Some(AppAction::Exec)
            } else if c == 'S' {
                Some(AppAction::StopAll)
            } else if c == 'D' {
                Some(AppAction::RemoveAll)
            } else {
                None
            }
        },
        KeyCode::Esc => Some(AppAction::Back),
        KeyCode::Up => Some(AppAction::NavigateUp),
        KeyCode::Down => Some(AppAction::NavigateDown),
        KeyCode::PageUp => Some(AppAction::PageUp),
        KeyCode::PageDown => Some(AppAction::PageDown),
        KeyCode::Enter => Some(AppAction::Select),
        KeyCode::Backspace => None,
        KeyCode::Other => None,
    }
}

/// Control changes the meaning of exactly the keys `s`, `d` and `u`.
pub proof fn law_control_only_changes_s_d_u(c: char)
    ensures
        (c != 's' && c != 'd' && c != 'u') ==> key_action(
            KeyInput { code: KeyCode::Char(c), control: true },
        ) == key_action(KeyInput { code: KeyCode::Char(c), control: false }),
        c == 's' || c == 'd' || c == 'u' ==> key_action(
            KeyInput { code: KeyCode::Char(c), control: true },
        ) != key_action(KeyInput { code: KeyCode::Char(c), control: false }),
{
}

} // verus!
