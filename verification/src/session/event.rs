//! From keys to messages: what a key means in the state the session is in.

use crate::models::EntryView;
use crate::pomodoro::PomodoroState;
use crate::session::protocol::Message;
use crate::session::state::{App, AppView, InputMode, InvoiceMode, PomodoroField, Screen};
use vstd::prelude::*;

verus! {

/// A key as far as the session tells keys apart.
#[derive(Debug, Clone, Copy, PartialEq, Eq, Structural)]
pub enum Key {
    Char(char),
    Enter,
    Esc,
    Tab,
    BackTab,
    Backspace,
    Up,
    Down,
    /// Any other key.
    Other,
}

/// Whether the key is the character `c`.
pub open spec fn is_char(key: Key, c: char) -> bool {
    key == Key::Char(c)
}

/// Whether the key is one of two characters, usually a letter in both cases.
pub open spec fn is_either(key: Key, a: char, b: char) -> bool {
    key == Key::Char(a) || key == Key::Char(b)
}

/// Whether the key moves a selection down.
pub open spec fn is_down(key: Key) -> bool {
    key == Key::Char('j') || key == Key::Down
}

/// Whether the key moves a selection up.
pub open spec fn is_up(key: Key) -> bool {
    key == Key::Char('k') || key == Key::Up
}

/// What a key means in a form: the four messages for confirming, leaving,
/// and moving between fields, the message for deleting, and the message that
/// types the character.
pub open spec fn form_message(
    key: Key,
    enter: Message,
    esc: Message,
    tab: Message,
    back_tab: Option<Message>,
    backspace: Message,
) -> Option<Message> {
    match key {
        Key::Enter => Some(enter),
        Key::Esc => Some(esc),
        Key::Tab => Some(tab),
        Key::BackTab => back_tab,
        Key::Backspace => Some(backspace),
        _ => None,
    }
}

impl AppView {
    /// What a key means while the session is typing, for every input mode
    /// but the normal one.
    pub open spec fn typing_message(self, key: Key) -> Option<Message> {
        match self.input_mode {
            InputMode::Normal => None,
            InputMode::EditingProject => match key {
                Key::Char(c) => Some(Message::UpdateProjectInput(c)),
                _ => form_message(
                    key,
                    Message::StartTimer,
                    Message::ExitInputMode,
                    Message::EnterInputMode(InputMode::EditingDescription),
                    None,
                    Message::DeleteProjectChar,
                ),
            },
            InputMode::EditingDescription => match key {
                Key::Char(c) => Some(Message::UpdateDescriptionInput(c)),
                _ => form_message(
                    key,
                    Message::StartTimer,
                    Message::ExitInputMode,
                    Message::EnterInputMode(InputMode::EditingProject),
                    None,
                    Message::DeleteDescriptionChar,
                ),
            },
            InputMode::EditEntryProject
            | InputMode::EditEntryDescription
            | InputMode::EditEntryStart
            | InputMode::EditEntryEnd => match key {
                Key::Char(c) => Some(Message::EditFieldInput(c)),
                _ => form_message(
                    key,
                    Message::SaveEditEntry,
                    Message::CancelEditEntry,
                    Message::EditNextField,
                    Some(Message::EditPrevField),
                    Message::EditFieldBackspace,
                ),
            },
            InputMode::EditingRate => match key {
                Key::Char(c) => Some(Message::UpdateRateInput(c)),
                _ => form_message(
                    key,
                    Message::SaveProjectRate,
                    Message::CancelEditRate,
                    Message::EnterInputMode(InputMode::EditingCurrency),
                    None,
                    Message::DeleteRateChar,
                ),
            },
            InputMode::EditingCurrency => match key {
                Key::Char(c) => Some(Message::UpdateCurrencyInput(c)),
                _ => form_message(
                    key,
                    Message::SaveProjectRate,
                    Message::CancelEditRate,
                    Message::EnterInputMode(InputMode::EditingRate),
                    None,
                    Message::DeleteCurrencyChar,
                ),
            },
            InputMode::EditingPomodoroWork
            | InputMode::EditingPomodoroShortBreak
            | InputMode::EditingPomodoroLongBreak
            | InputMode::EditingPomodoroCycles => match key {
                Key::Char(c) => Some(Message::PomodoroFieldInput(c)),
                _ => form_message(
                    key,
                    Message::SavePomodoroConfig,
                    Message::CancelPomodoroEdit,
                    Message::PomodoroNextField,
                    Some(Message::PomodoroPrevField),
                    Message::PomodoroFieldBackspace,
                ),
            },
            InputMode::EditingClient => match key {
                Key::Char(c) => Some(Message::ClientFieldInput(c)),
                _ => form_message(
                    key,
                    Message::SaveClient,
                    Message::CancelEditClient,
                    Message::ClientNextField,
                    Some(Message::ClientPrevField),
                    Message::ClientFieldBackspace,
                ),
            },
            InputMode::EditingSettings => match key {
                Key::Char(c) => Some(Message::SettingsFieldInput(c)),
                _ => form_message(
                    key,
                    Message::SaveSettings,
                    Message::CancelEditSettings,
                    Message::SettingsNextField,
                    Some(Message::SettingsPrevField),
                    Message::SettingsFieldBackspace,
                ),
            },
        }
    }

    /// The screen that a digit key switches to.
    pub open spec fn screen_of(key: Key) -> Option<Screen> {
        if is_char(key, '1') {
            Some(Screen::Timer)
        } else if is_char(key, '2') {
            Some(Screen::Entries)
        } else if is_char(key, '3') {
            Some(Screen::Invoice)
        } else if is_char(key, '4') {
            Some(Screen::Projects)
        } else if is_char(key, '5') {
            Some(Screen::Pomodoro)
        } else if is_char(key, '6') {
            Some(Screen::Clients)
        } else if is_char(key, '7') {
            Some(Screen::Settings)
        } else {
            None
        }
    }

    /// What a key means on the timer screen. While a Pomodoro prompt is
    /// shown only its acknowledgement is taken, and during a break nothing.
    pub open spec fn timer_key(self, key: Key) -> Option<Message> {
        match self.pomodoro.state {
            PomodoroState::WorkComplete => if is_char(key, ' ') {
                Some(Message::AcknowledgePomodoro)
            } else {
                None
            },
            PomodoroState::BreakComplete => if is_either(key, 's', 'S') || is_char(key, ' ') {
                Some(Message::AcknowledgePomodoro)
            } else {
                None
            },
            PomodoroState::OnBreak => None,
            _ => if is_either(key, 's', 'S') {
                if self.active_entry.is_some() {
                    Some(Message::StopTimer)
                } else {
                    Some(Message::EnterInputMode(InputMode::EditingProject))
                }
            } else if is_either(key, 'p', 'P') {
                Some(Message::TogglePomodoroMode)
            } else if key == Key::Enter || key == Key::Tab {
                if self.active_entry.is_none() {
                    Some(Message::EnterInputMode(InputMode::EditingProject))
                } else {
                    None
                }
            } else {
                None
            },
        }
    }

    /// What a key means on the entries screen.
    pub open spec fn entries_key(self, key: Key) -> Option<Message> {
        let selected: Option<EntryView> = self.selected_entry();
        if is_down(key) || is_char(key, 'G') {
            Some(Message::SelectNextEntry)
        } else if is_up(key) || is_char(key, 'g') {
            Some(Message::SelectPreviousEntry)
        } else if is_either(key, 'f', 'F') {
            Some(Message::ToggleBilledFilter)
        } else {
            match selected {
                Some(entry) => if is_either(key, 'e', 'E') {
                    Some(Message::EditEntry(entry.id))
                } else if is_either(key, 'd', 'D') {
                    Some(Message::DeleteEntry(entry.id))
                } else if is_either(key, 'b', 'B') && !entry.billed {
                    Some(Message::MarkEntryBilled(entry.id))
                } else if is_char(key, 'u') && entry.billed {
                    Some(Message::UnbillEntry(entry.id))
                } else {
                    None
                },
                None => None,
            }
        }
    }

    /// What a key means on the invoice screen.
    pub open spec fn invoice_key(self, key: Key) -> Option<Message> {
        if self.invoice_mode == InvoiceMode::SelectEntries {
            if is_down(key) {
                Some(Message::NextInvoiceEntry)
            } else if is_up(key) {
                Some(Message::PrevInvoiceEntry)
            } else if is_char(key, ' ') {
                if self.invoice_select_index < self.invoice_entries.len() {
                    Some(
                        Message::ToggleEntrySelection(
                            self.invoice_entries[self.invoice_select_index as int].id,
                        ),
                    )
                } else {
                    None
                }
            } else if key == Key::Enter {
                Some(Message::GenerateInvoice)
            } else if key == Key::Esc {
                Some(Message::ExitInputMode)
            } else {
                None
            }
        } else if is_down(key) {
            Some(Message::NextInvoiceMode)
        } else if is_up(key) {
            Some(Message::PrevInvoiceMode)
        } else if is_either(key, 'c', 'C') {
            Some(Message::CycleInvoiceClient)
        } else if key == Key::Enter {
            if self.invoice_mode_index == 3 {
                Some(Message::SelectInvoiceMode)
            } else {
                Some(Message::GenerateInvoice)
            }
        } else {
            None
        }
    }

    /// What a key means on the projects screen.
    pub open spec fn projects_key(self, key: Key) -> Option<Message> {
        if is_down(key) {
            Some(Message::SelectNextProject)
        } else if is_up(key) {
            Some(Message::SelectPreviousProject)
        } else if self.selected_project_index < self.projects.len() {
            let id = self.projects[self.selected_project_index as int].id;
            if is_either(key, 'e', 'E') || key == Key::Enter {
                Some(Message::EditProjectRate(id))
            } else if is_either(key, 'c', 'C') {
                Some(Message::ClearProjectRate(id))
            } else {
                None
            }
        } else {
            None
        }
    }

    /// What a key means on the Pomodoro configuration screen.
    pub open spec fn pomodoro_key(self, key: Key) -> Option<Message> {
        if is_down(key) {
            Some(Message::PomodoroNextField)
        } else if is_up(key) {
            Some(Message::PomodoroPrevField)
        } else if is_either(key, 'p', 'P') {
            Some(Message::TogglePomodoroMode)
        } else if is_either(key, 'e', 'E') || key == Key::Enter {
            match self.pomodoro_field {
                PomodoroField::Enabled => Some(Message::TogglePomodoroMode),
                field => Some(Message::EnterInputMode(field.mode())),
            }
        } else {
            None
        }
    }

    /// What a key means on the clients screen.
    pub open spec fn clients_key(self, key: Key) -> Option<Message> {
        if is_down(key) {
            Some(Message::SelectNextClient)
        } else if is_up(key) {
            Some(Message::SelectPreviousClient)
        } else if is_either(key, 'a', 'A') {
            Some(Message::AddClient)
        } else if self.selected_client_index < self.clients.len() {
            let id = self.clients[self.selected_client_index as int].id;
            if is_either(key, 'e', 'E') || key == Key::Enter {
                Some(Message::EditClient(id))
            } else if is_either(key, 'd', 'D') {
                Some(Message::DeleteClient(id))
            } else {
                None
            }
        } else {
            None
        }
    }

    /// What a key means on the settings screen.
    pub open spec fn settings_key(self, key: Key) -> Option<Message> {
        if is_either(key, 'e', 'E') || key == Key::Enter {
            Some(Message::EditSettings)
        } else {
            None
        }
    }

    /// What a key means to a question that is answered with yes or no.
    pub open spec fn confirm_key(key: Key, yes: Message, no: Message) -> Option<Message> {
        if is_either(key, 'y', 'Y') {
            Some(yes)
        } else if is_either(key, 'n', 'N') || key == Key::Esc {
            Some(no)
        } else {
            None
        }
    }

    /// The message that a key stands for in the state the session is in.
    ///
    /// `?` toggles the help outside of forms, and any key closes the help.
    /// A pending deletion takes only its answer. A form takes every key.
    /// Otherwise `q` quits, a digit switches the screen, and the rest is up
    /// to the screen.
    pub open spec fn message_for(self, key: Key) -> Option<Message> {
        if is_char(key, '?') && self.input_mode == InputMode::Normal {
            Some(Message::ToggleHelp)
        } else if self.show_help {
            Some(Message::ToggleHelp)
        } else if self.confirm_delete.is_some() {
            AppView::confirm_key(key, Message::ConfirmDelete, Message::CancelDelete)
        } else if self.confirm_delete_client.is_some() {
            AppView::confirm_key(key, Message::ConfirmDeleteClient, Message::CancelDeleteClient)
        } else if self.input_mode != InputMode::Normal {
            self.typing_message(key)
        } else if is_char(key, 'q') {
            Some(Message::Quit)
        } else {
            match AppView::screen_of(key) {
                Some(screen) => Some(Message::SwitchScreen(screen)),
                None => match self.current_screen {
                    Screen::Timer => self.timer_key(key),
                    Screen::Entries => self.entries_key(key),
                    Screen::Invoice => self.invoice_key(key),
                    Screen::Projects => self.projects_key(key),
                    Screen::Pomodoro => self.pomodoro_key(key),
                    Screen::Clients => self.clients_key(key),
                    Screen::Settings => self.settings_key(key),
                },
            }
        }
    }
}

fn key_is(key: Key, c: char) -> (r: bool)
    ensures
        r == is_char(key, c),
{
    match key {
        Key::Char(k) => k == c,
        _ => false,
    }
}

fn key_is_either(key: Key, a: char, b: char) -> (r: bool)
    ensures
        r == is_either(key, a, b),
{
    match key {
        Key::Char(k) => k == a || k == b,
        _ => false,
    }
}

fn key_is_down(key: Key) -> (r: bool)
    ensures
        r == is_down(key),
{
    match key {
        Key::Char(k) => k == 'j',
        Key::Down => true,
        _ => false,
    }
}

fn key_is_up(key: Key) -> (r: bool)
    ensures
        r == is_up(key),
{
    match key {
        Key::Char(k) => k == 'k',
        Key::Up => true,
        _ => false,
    }
}

fn form_key(
    key: Key,
    enter: Message,
    esc: Message,
    tab: Message,
    back_tab: Option<Message>,
    backspace: Message,
) -> (r: Option<Message>)
    ensures
        r == form_message(key, enter, esc, tab, back_tab, backspace),
{
    match key {
        Key::Enter => Some(enter),
        Key::Esc => Some(esc),
        Key::Tab => Some(tab),
        Key::BackTab => back_tab,
        Key::Backspace => Some(backspace),
        _ => None,
    }
}

fn confirm_key(key: Key, yes: Message, no: Message) -> (r: Option<Message>)
    ensures
        r == AppView::confirm_key(key, yes, no),
{
    if key_is_either(key, 'y', 'Y') {
        Some(yes)
    } else if key_is_either(key, 'n', 'N') || key == Key::Esc {
        Some(no)
    } else {
        None
    }
}

fn screen_of(key: Key) -> (r: Option<Screen>)
    ensures
        r == AppView::screen_of(key),
{
    if key_is(key, '1') {
        Some(Screen::Timer)
    } else if key_is(key, '2') {
        Some(Screen::Entries)
    } else if key_is(key, '3') {
        Some(Screen::Invoice)
    } else if key_is(key, '4') {
        Some(Screen::Projects)
    } else if key_is(key, '5') {
        Some(Screen::Pomodoro)
    } else if key_is(key, '6') {
        Some(Screen::Clients)
    } else if key_is(key, '7') {
        Some(Screen::Settings)
    } else {
        None
    }
}

fn typing_message(key: Key, app: &App) -> (r: Option<Message>)
    ensures
        r == app@.typing_message(key),
{
    match app.input_mode {
        InputMode::Normal => None,
        InputMode::EditingProject => match key {
            Key::Char(c) => Some(Message::UpdateProjectInput(c)),
            _ => form_key(
                key,
                Message::StartTimer,
                Message::ExitInputMode,
                Message::EnterInputMode(InputMode::EditingDescription),
                None,
                Message::DeleteProjectChar,
            ),
        },
        InputMode::EditingDescription => match key {
            Key::Char(c) => Some(Message::UpdateDescriptionInput(c)),
            _ => form_key(
                key,
                Message::StartTimer,
                Message::ExitInputMode,
                Message::EnterInputMode(InputMode::EditingProject),
                None,
                Message::DeleteDescriptionChar,
            ),
        },
        InputMode::EditEntryProject
        | InputMode::EditEntryDescription
        | InputMode::EditEntryStart
        | InputMode::EditEntryEnd => match key {
            Key::Char(c) => Some(Message::EditFieldInput(c)),
            _ => form_key(
                key,
                Message::SaveEditEntry,
                Message::CancelEditEntry,
                Message::EditNextField,
                Some(Message::EditPrevField),
                Message::EditFieldBackspace,
            ),
        },
        InputMode::EditingRate => match key {
            Key::Char(c) => Some(Message::UpdateRateInput(c)),
            _ => form_key(
                key,
                Message::SaveProjectRate,
                Message::CancelEditRate,
                Message::EnterInputMode(InputMode::EditingCurrency),
                None,
                Message::DeleteRateChar,
            ),
        },
        InputMode::EditingCurrency => match key {
            Key::Char(c) => Some(Message::UpdateCurrencyInput(c)),
            _ => form_key(
                key,
                Message::SaveProjectRate,
                Message::CancelEditRate,
                Message::EnterInputMode(InputMode::EditingRate),
                None,
                Message::DeleteCurrencyChar,
            ),
        },
        InputMode::EditingPomodoroWork
        | InputMode::EditingPomodoroShortBreak
        | InputMode::EditingPomodoroLongBreak
        | InputMode::EditingPomodoroCycles => match key {
            Key::Char(c) => Some(Message::PomodoroFieldInput(c)),
            _ => form_key(
                key,
                Message::SavePomodoroConfig,
                Message::CancelPomodoroEdit,
                Message::PomodoroNextField,
                Some(Message::PomodoroPrevField),
                Message::PomodoroFieldBackspace,
            ),
        },
        InputMode::EditingClient => match key {
            Key::Char(c) => Some(Message::ClientFieldInput(c)),
            _ => form_key(
                key,
                Message::SaveClient,
                Message::CancelEditClient,
                Message::ClientNextField,
                Some(Message::ClientPrevField),
                Message::ClientFieldBackspace,
            ),
        },
        InputMode::EditingSettings => match key {
            Key::Char(c) => Some(Message::SettingsFieldInput(c)),
            _ => form_key(
                key,
                Message::SaveSettings,
                Message::CancelEditSettings,
                Message::SettingsNextField,
                Some(Message::SettingsPrevField),
                Message::SettingsFieldBackspace,
            ),
        },
    }
}

fn handle_timer_keys(key: Key, app: &App) -> (r: Option<Message>)
    ensures
        r == app@.timer_key(key),
{
    match app.pomodoro.state {
        PomodoroState::WorkComplete => {
            if key_is(key, ' ') {
                Some(Message::AcknowledgePomodoro)
            } else {
                None
            }
        },
        PomodoroState::BreakComplete => {
            if key_is_either(key, 's', 'S') || key_is(key, ' ') {
                Some(Message::AcknowledgePomodoro)
            } else {
                None
            }
        },
        PomodoroState::OnBreak => None,
        _ => {
            if key_is_either(key, 's', 'S') {
                if app.active_entry.is_some() {
                    Some(Message::StopTimer)
                } else {
                    Some(Message::EnterInputMode(InputMode::EditingProject))
                }
            } else if key_is_either(key, 'p', 'P') {
                Some(Message::TogglePomodoroMode)
            } else if key == Key::Enter || key == Key::Tab {
                if app.active_entry.is_none() {
                    Some(Message::EnterInputMode(InputMode::EditingProject))
                } else {
                    None
                }
            } else {
                None
            }
        },
    }
}

fn handle_entries_keys(key: Key, app: &App) -> (r: Option<Message>)
    ensures
        r == app@.entries_key(key),
{
    if key_is_down(key) || key_is(key, 'G') {
        Some(Message::SelectNextEntry)
    } else if key_is_up(key) || key_is(key, 'g') {
        Some(Message::SelectPreviousEntry)
    } else if key_is_either(key, 'f', 'F') {
        Some(Message::ToggleBilledFilter)
    } else {
        match app.get_selected_entry() {
            Some(entry) => {
                if key_is_either(key, 'e', 'E') {
                    Some(Message::EditEntry(entry.id))
                } else if key_is_either(key, 'd', 'D') {
                    Some(Message::DeleteEntry(entry.id))
                } else if key_is_either(key, 'b', 'B') && !entry.billed {
                    Some(Message::MarkEntryBilled(entry.id))
                } else if key_is(key, 'u') && entry.billed {
                    Some(Message::UnbillEntry(entry.id))
                } else {
                    None
                }
            },
            None => None,
        }
    }
}

fn handle_invoice_keys(key: Key, app: &App) -> (r: Option<Message>)
    ensures
        r == app@.invoice_key(key),
{
    if app.invoice_mode == InvoiceMode::SelectEntries {
        if key_is_down(key) {
            Some(Message::NextInvoiceEntry)
        } else if key_is_up(key) {
            Some(Message::PrevInvoiceEntry)
        } else if key_is(key, ' ') {
            if app.invoice_select_index < app.invoice_entries.len() {
                Some(Message::ToggleEntrySelection(app.invoice_entries[app.invoice_select_index].id))
            } else {
                None
            }
        } else if key == Key::Enter {
            Some(Message::GenerateInvoice)
        } else if key == Key::Esc {
            Some(Message::ExitInputMode)
        } else {
            None
        }
    } else if key_is_down(key) {
        Some(Message::NextInvoiceMode)
    } else if key_is_up(key) {
        Some(Message::PrevInvoiceMode)
    } else if key_is_either(key, 'c', 'C') {
        Some(Message::CycleInvoiceClient)
    } else if key == Key::Enter {
        if app.invoice_mode_index == 3 {
            Some(Message::SelectInvoiceMode)
        } else {
            Some(Message::GenerateInvoice)
        }
    } else {
        None
    }
}

fn handle_projects_keys(key: Key, app: &App) -> (r: Option<Message>)
    ensures
        r == app@.projects_key(key),
{
    if key_is_down(key) {
        Some(Message::SelectNextProject)
    } else if key_is_up(key) {
        Some(Message::SelectPreviousProject)
    } else if app.selected_project_index < app.projects.len() {
        let id = app.projects[app.selected_project_index].id;
        if key_is_either(key, 'e', 'E') || key == Key::Enter {
            Some(Message::EditProjectRate(id))
        } else if key_is_either(key, 'c', 'C') {
            Some(Message::ClearProjectRate(id))
        } else {
            None
        }
    } else {
        None
    }
}

fn handle_pomodoro_keys(key: Key, app: &App) -> (r: Option<Message>)
    ensures
        r == app@.pomodoro_key(key),
{
    if key_is_down(key) {
        Some(Message::PomodoroNextField)
    } else if key_is_up(key) {
        Some(Message::PomodoroPrevField)
    } else if key_is_either(key, 'p', 'P') {
        Some(Message::TogglePomodoroMode)
    } else if key_is_either(key, 'e', 'E') || key == Key::Enter {
        match app.pomodoro_field {
            PomodoroField::Enabled => Some(Message::TogglePomodoroMode),
            field => Some(Message::EnterInputMode(field.input_mode())),
        }
    } else {
        None
    }
}

fn handle_clients_keys(key: Key, app: &App) -> (r: Option<Message>)
    ensures
        r == app@.clients_key(key),
{
    if key_is_down(key) {
        Some(Message::SelectNextClient)
    } else if key_is_up(key) {
        Some(Message::SelectPreviousClient)
    } else if key_is_either(key, 'a', 'A') {
        Some(Message::AddClient)
    } else if app.selected_client_index < app.clients.len() {
        let id = app.clients[app.selected_client_index].id;
        if key_is_either(key, 'e', 'E') || key == Key::Enter {
            Some(Message::EditClient(id))
        } else if key_is_either(key, 'd', 'D') {
            Some(Message::DeleteClient(id))
        } else {
            None
        }
    } else {
        None
    }
}

fn handle_settings_keys(key: Key) -> (r: Option<Message>)
    ensures
        forall|app: AppView| r == app.settings_key(key),
{
    if key_is_either(key, 'e', 'E') || key == Key::Enter {
        Some(Message::EditSettings)
    } else {
        None
    }
}

/// Maps a key to the message it stands for in the state the session is in.
pub fn handle_key(key: Key, app: &App) -> (r: Option<Message>)
    ensures
        r == app@.message_for(key),
{
    if key_is(key, '?') && app.input_mode == InputMode::Normal {
        return Some(Message::ToggleHelp);
    }
    if app.show_help {
        return Some(Message::ToggleHelp);
    }
    if app.confirm_delete.is_some() {
        return confirm_key(key, Message::ConfirmDelete, Message::CancelDelete);
    }
    if app.confirm_delete_client.is_some() {
        return confirm_key(key, Message::ConfirmDeleteClient, Message::CancelDeleteClient);
    }
    if app.input_mode != InputMode::Normal {
        return typing_message(key, app);
    }
    if key_is(key, 'q') {
        return Some(Message::Quit);
    }
    match screen_of(key) {
        Some(screen) => Some(Message::SwitchScreen(screen)),
        None => match app.current_screen {
            Screen::Timer => handle_timer_keys(key, app),
            Screen::Entries => handle_entries_keys(key, app),
            Screen::Invoice => handle_invoice_keys(key, app),
            Screen::Projects => handle_projects_keys(key, app),
            Screen::Pomodoro => handle_pomodoro_keys(key, app),
            Screen::Clients => handle_clients_keys(key, app),
            Screen::Settings => handle_settings_keys(key),
        },
    }
}

} // verus!
