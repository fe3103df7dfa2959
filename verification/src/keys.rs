//! The keyboard map: which message a key press stands for in each state.

use vstd::prelude::*;
use crate::message::Message;
use crate::state::{App, InputMode, Modal, Screen};

verus! {

/// A key, as the terminal reports it.
#[derive(Debug, Clone, Copy, PartialEq, Eq, Structural)]
pub enum KeyCode {
    Char(char),
    Enter,
    Esc,
    Tab,
    BackTab,
    Backspace,
    Left,
    Right,
    Up,
    Down,
    Delete,
    /// Any key the interface does not use.
    Other,
}

/// A key press, with whether Control was held.
#[derive(Debug, Clone, Copy, PartialEq, Eq, Structural)]
pub struct KeyEvent {
    pub code: KeyCode,
    pub ctrl: bool,
}

/// Keys in the help overlay: Esc, `?` or `q` close it.
pub open spec fn help_key(code: KeyCode) -> Option<Message> {
    match code {
        KeyCode::Esc | KeyCode::Char('?') | KeyCode::Char('q') => Some(Message::CloseModal),
        _ => None,
    }
}

/// Keys in the confirmation dialog: `y` confirms, `n` or Esc declines.
pub open spec fn confirm_key(code: KeyCode) -> Option<Message> {
    match code {
        KeyCode::Char('y') | KeyCode::Char('Y') => Some(Message::ConfirmYes),
        KeyCode::Char('n') | KeyCode::Char('N') | KeyCode::Esc => Some(Message::ConfirmNo),
        _ => None,
    }
}

/// Keys in the entry form; on the billable toggle (field 5) only the space
/// bar types, and it flips the toggle.
pub open spec fn form_key(focused_field: usize, code: KeyCode) -> Option<Message> {
    match code {
        KeyCode::Esc => Some(Message::CancelForm),
        KeyCode::Enter => Some(Message::SubmitEntryForm),
        KeyCode::Tab => Some(Message::NextField),
        KeyCode::BackTab => Some(Message::PrevField),
        KeyCode::Char(c) => if focused_field == 5 {
            if c == ' ' {
                Some(Message::ToggleBillable)
            } else {
                None
            }
        } else {
            Some(Message::InputChar(c))
        },
        KeyCode::Backspace => Some(Message::InputBackspace),
        KeyCode::Left => Some(Message::InputLeft),
        KeyCode::Right => Some(Message::InputRight),
        _ => None,
    }
}

/// Keys in the project picker.
pub open spec fn picker_key(code: KeyCode) -> Option<Message> {
    match code {
        KeyCode::Esc => Some(Message::CloseModal),
        KeyCode::Enter => Some(Message::ConfirmPicker),
        KeyCode::Up => Some(Message::SelectPrevPickerItem),
        KeyCode::Down => Some(Message::SelectNextPickerItem),
        KeyCode::Char(c) => Some(Message::InputChar(c)),
        KeyCode::Backspace => Some(Message::InputBackspace),
        _ => None,
    }
}

/// Shortcuts that work on every screen in normal mode.
pub open spec fn global_key(code: KeyCode) -> Option<Message> {
    match code {
        KeyCode::Char('q') => Some(Message::Quit),
        KeyCode::Char('?') => Some(Message::OpenHelp),
        KeyCode::Char('s') => Some(Message::ToggleTimer),
        KeyCode::Char('1') => Some(Message::NavigateScreen(Screen::Dashboard)),
        KeyCode::Char('2') => Some(Message::NavigateScreen(Screen::Timer)),
        KeyCode::Char('3') => Some(Message::NavigateScreen(Screen::Entries)),
        KeyCode::Char('4') => Some(Message::NavigateScreen(Screen::Projects)),
        KeyCode::Char('5') => Some(Message::NavigateScreen(Screen::Clients)),
        KeyCode::Char('6') => Some(Message::NavigateScreen(Screen::Reports)),
        KeyCode::Char('7') => Some(Message::NavigateScreen(Screen::Settings)),
        KeyCode::Tab => Some(Message::NextTab),
        KeyCode::BackTab => Some(Message::PrevTab),
        _ => None,
    }
}

/// Control shortcuts in normal mode.
pub open spec fn control_key(code: KeyCode) -> Option<Message> {
    match code {
        KeyCode::Char('p') => Some(Message::OpenProjectPicker),
        KeyCode::Char('c') => Some(Message::Quit),
        _ => None,
    }
}

/// Keys particular to each screen in normal mode.
pub open spec fn screen_key(screen: Screen, code: KeyCode) -> Option<Message> {
    match screen {
        Screen::Dashboard => None,
        Screen::Timer => match code {
            KeyCode::Enter => Some(Message::ToggleTimer),
            KeyCode::Char('c') => Some(Message::CancelTimer),
            KeyCode::Char('p') => Some(Message::OpenProjectPicker),
            _ => None,
        },
        Screen::Entries => match code {
            KeyCode::Char('j') | KeyCode::Down => Some(Message::SelectNextEntry),
            KeyCode::Char('k') | KeyCode::Up => Some(Message::SelectPrevEntry),
            KeyCode::Char('d') | KeyCode::Delete => Some(Message::DeleteSelectedEntry),
            KeyCode::Char('e') | KeyCode::Enter => Some(Message::EditSelectedEntry),
            KeyCode::Char('n') | KeyCode::Char('a') => Some(Message::NewEntry),
            _ => None,
        },
        Screen::Projects => match code {
            KeyCode::Char('j') | KeyCode::Down => Some(Message::SelectNextProject),
            KeyCode::Char('k') | KeyCode::Up => Some(Message::SelectPrevProject),
            KeyCode::Char('n') | KeyCode::Char('a') => Some(Message::NewProject),
            KeyCode::Char('x') => Some(Message::ArchiveSelectedProject),
            KeyCode::Char('h') => Some(Message::ToggleArchivedProjects),
            _ => None,
        },
        Screen::Clients => match code {
            KeyCode::Char('j') | KeyCode::Down => Some(Message::SelectNextClient),
            KeyCode::Char('k') | KeyCode::Up => Some(Message::SelectPrevClient),
            KeyCode::Char('n') | KeyCode::Char('a') => Some(Message::NewClient),
            KeyCode::Char('d') | KeyCode::Delete => Some(Message::DeleteSelectedClient),
            _ => None,
        },
        Screen::Reports => match code {
            KeyCode::Left | KeyCode::Char('h') => Some(Message::PrevReportPeriod),
            KeyCode::Right | KeyCode::Char('l') => Some(Message::NextReportPeriod),
            KeyCode::Char('c') => Some(Message::ExportCsv),
            KeyCode::Char('p') => Some(Message::ExportPdf),
            _ => None,
        },
        Screen::Settings => None,
    }
}

/// The message a key press stands for: an open overlay takes every key;
/// otherwise, in normal mode, global shortcuts come first, then Control
/// shortcuts, then the current screen's keys; in editing mode without an
/// overlay keys do nothing.
pub open spec fn key_message(
    modal: Modal,
    mode: InputMode,
    screen: Screen,
    focused_field: usize,
    key: KeyEvent,
) -> Option<Message> {
    match modal {
        Modal::Help => help_key(key.code),
        Modal::ConfirmDelete => confirm_key(key.code),
        Modal::EntryForm => form_key(focused_field, key.code),
        Modal::ProjectPicker => picker_key(key.code),
        Modal::Closed => if mode == InputMode::Normal {
            if global_key(key.code) is Some {
                global_key(key.code)
            } else if key.ctrl && control_key(key.code) is Some {
                control_key(key.code)
            } else {
                screen_key(screen, key.code)
            }
        } else {
            None
        },
    }
}

fn global_shortcut(code: KeyCode) -> (m: Option<Message>)
    ensures
        m == global_key(code),
{
    match code {
        KeyCode::Char('q') => Some(Message::Quit),
        KeyCode::Char('?') => Some(Message::OpenHelp),
        KeyCode::Char('s') => Some(Message::ToggleTimer),
        KeyCode::Char('1') => Some(Message::NavigateScreen(Screen::Dashboard)),
        KeyCode::Char('2') => Some(Message::NavigateScreen(Screen::Timer)),
        KeyCode::Char('3') => Some(Message::NavigateScreen(Screen::Entries)),
        KeyCode::Char('4') => Some(Message::NavigateScreen(Screen::Projects)),
        KeyCode::Char('5') => Some(Message::NavigateScreen(Screen::Clients)),
        KeyCode::Char('6') => Some(Message::NavigateScreen(Screen::Reports)),
        KeyCode::Char('7') => Some(Message::NavigateScreen(Screen::Settings)),
        KeyCode::Tab => Some(Message::NextTab),
        KeyCode::BackTab => Some(Message::PrevTab),
        _ => None,
    }
}

fn handle_screen_key(app: &App, key: KeyEvent) -> (m: Option<Message>)
    ensures
        m == screen_key(app.screen, key.code),
{
    match app.screen {
        Screen::Dashboard => None,
        Screen::Timer => match key.code {
            KeyCode::Enter => Some(Message::ToggleTimer),
            KeyCode::Char('c') => Some(Message::CancelTimer),
            KeyCode::Char('p') => Some(Message::OpenProjectPicker),
            _ => None,
        },
        Screen::Entries => match key.code {
            KeyCode::Char('j') | KeyCode::Down => Some(Message::SelectNextEntry),
            KeyCode::Char('k') | KeyCode::Up => Some(Message::SelectPrevEntry),
            KeyCode::Char('d') | KeyCode::Delete => Some(Message::DeleteSelectedEntry),
            KeyCode::Char('e') | KeyCode::Enter => Some(Message::EditSelectedEntry),
            KeyCode::Char('n') | KeyCode::Char('a') => Some(Message::NewEntry),
            _ => None,
        },
        Screen::Projects => match key.code {
            KeyCode::Char('j') | KeyCode::Down => Some(Message::SelectNextProject),
            KeyCode::Char('k') | KeyCode::Up => Some(Message::SelectPrevProject),
            KeyCode::Char('n') | KeyCode::Char('a') => Some(Message::NewProject),
            KeyCode::Char('x') => Some(Message::ArchiveSelectedProject),
            KeyCode::Char('h') => Some(Message::ToggleArchivedProjects),
            _ => None,
        },
        Screen::Clients => match key.code {
            KeyCode::Char('j') | KeyCode::Down => Some(Message::SelectNextClient),
            KeyCode::Char('k') | KeyCode::Up => Some(Message::SelectPrevClient),
            KeyCode::Char('n') | KeyCode::Char('a') => Some(Message::NewClient),
            KeyCode::Char('d') | KeyCode::Delete => Some(Message::DeleteSelectedClient),
            _ => None,
        },
        Screen::Reports => match key.code {
            KeyCode::Left | KeyCode::Char('h') => Some(Message::PrevReportPeriod),
            KeyCode::Right | KeyCode::Char('l') => Some(Message::NextReportPeriod),
            KeyCode::Char('c') => Some(Message::ExportCsv),
            KeyCode::Char('p') => Some(Message::ExportPdf),
            _ => None,
        },
        Screen::Settings => None,
    }
}

fn handle_entry_form_key(app: &App, key: KeyEvent) -> (m: Option<Message>)
    ensures
        m == form_key(app.entry_form.focused_field, key.code),
{
    match key.code {
        KeyCode::Esc => Some(Message::CancelForm),
        KeyCode::Enter => Some(Message::SubmitEntryForm),
        KeyCode::Tab => Some(Message::NextField),
        KeyCode::BackTab => Some(Message::PrevField),
        KeyCode::Char(c) => {
            if app.entry_form.focused_field == 5 {
                if c == ' ' {
                    return Some(Message::ToggleBillable);
                }
                None
            } else {
                Some(Message::InputChar(c))
            }
        },
        KeyCode::Backspace => Some(Message::InputBackspace),
        KeyCode::Left => Some(Message::InputLeft),
        KeyCode::Right => Some(Message::InputRight),
        _ => None,
    }
}

fn handle_picker_key(key: KeyEvent) -> (m: Option<Message>)
    ensures
        m == picker_key(key.code),
{
    match key.code {
        KeyCode::Esc => Some(Message::CloseModal),
        KeyCode::Enter => Some(Message::ConfirmPicker),
        KeyCode::Up => Some(Message::SelectPrevPickerItem),
        KeyCode::Down => Some(Message::SelectNextPickerItem),
        KeyCode::Char(c) => Some(Message::InputChar(c)),
        KeyCode::Backspace => Some(Message::InputBackspace),
        _ => None,
    }
}

/// The message a key press stands for in the interface's current state.
pub fn handle_key(app: &App, key: KeyEvent) -> (m: Option<Message>)
    ensures
        m == key_message(app.modal, app.input_mode, app.screen, app.entry_form.focused_field, key),
{
    match app.modal {
        Modal::Help => {
            return match key.code {
                KeyCode::Esc | KeyCode::Char('?') | KeyCode::Char('q') => Some(Message::CloseModal),
                _ => None,
            };
        },
        Modal::ConfirmDelete => {
            return match key.code {
                KeyCode::Char('y') | KeyCode::Char('Y') => Some(Message::ConfirmYes),
                KeyCode::Char('n') | KeyCode::Char('N') | KeyCode::Esc => Some(Message::ConfirmNo),
                _ => None,
            };
        },
        Modal::EntryForm => {
            return handle_entry_form_key(app, key);
        },
        Modal::ProjectPicker => {
            return handle_picker_key(key);
        },
        Modal::Closed => {},
    }
    if app.input_mode == InputMode::Normal {
        let global = global_shortcut(key.code);
        if global.is_some() {
            return global;
        }
        if key.ctrl {
            match key.code {
                KeyCode::Char('p') => return Some(Message::OpenProjectPicker),
                KeyCode::Char('c') => return Some(Message::Quit),
                _ => {},
            }
        }
        return handle_screen_key(app, key);
    }
    None
}

/// With no overlay open and in normal mode, `q` quits on every screen, and
/// Control-C quits too; in the help overlay, Esc always closes it.
pub proof fn law_quit_keys(screen: Screen, focused_field: usize, ctrl: bool)
    ensures
        key_message(
            Modal::Closed,
            InputMode::Normal,
            screen,
            focused_field,
            KeyEvent { code: KeyCode::Char('q'), ctrl },
        ) == Some(Message::Quit),
        key_message(
            Modal::Closed,
            InputMode::Normal,
            screen,
            focused_field,
            KeyEvent { code: KeyCode::Char('c'), ctrl: true },
        ) == Some(Message::Quit),
        key_message(
            Modal::Help,
            InputMode::Normal,
            screen,
            focused_field,
            KeyEvent { code: KeyCode::Esc, ctrl },
        ) == Some(Message::CloseModal),
{
}

} // verus!
