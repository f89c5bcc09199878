//! Moving between screens and input modes, and the few messages that belong
//! to no screen.

use crate::pomodoro::PomodoroView;
use crate::session::protocol::{Message, Outcome, Reply, ReplyView};
use crate::session::state::{
    App, AppView, InputMode, InvoiceMode, PomodoroForm, PomodoroFormView, RunningState, Screen,
};
use vstd::prelude::*;

verus! {

impl AppView {
    /// The session with the billed entries and the rate table that an
    /// invoice-data reply reports.
    pub open spec fn with_invoice_data(self, reply: ReplyView) -> AppView {
        AppView {
            invoice_entries: reply.invoice_entries(),
            project_rates: reply.invoice_rates(),
            ..self
        }
    }

    /// `SwitchScreen`, the store having been asked for what the screen shows.
    /// Input mode and a pending deletion are given up. The invoice screen
    /// takes the billed entries and the rates, the projects screen the
    /// projects, and the Pomodoro screen the configuration, which its form
    /// then shows.
    pub open spec fn switch_screen(self, screen: Screen, reply: ReplyView) -> AppView {
        let shown = AppView {
            current_screen: screen,
            input_mode: InputMode::Normal,
            confirm_delete: None,
            ..self
        };
        match screen {
            Screen::Invoice => shown.with_invoice_data(reply),
            Screen::Projects => AppView { projects: reply.projects(), ..shown },
            Screen::Pomodoro => AppView {
                pomodoro: PomodoroView { config: reply.pomodoro_config(), ..self.pomodoro },
                pomodoro_form: PomodoroFormView::of(reply.pomodoro_config()),
                ..shown
            },
            _ => shown,
        }
    }

    /// `ExitInputMode`: typing ends, and the choice of single entries for an
    /// invoice is given up for the current month.
    pub open spec fn exit_input_mode(self) -> AppView {
        if self.invoice_mode == InvoiceMode::SelectEntries {
            AppView {
                input_mode: InputMode::Normal,
                invoice_mode: InvoiceMode::CurrentMonth,
                invoice_mode_index: 0,
                ..self
            }
        } else {
            AppView { input_mode: InputMode::Normal, ..self }
        }
    }

    /// What the navigation messages do to a session; any other message
    /// leaves it as it is.
    pub open spec fn on_navigation(self, msg: Message, reply: ReplyView) -> (AppView, Outcome) {
        match msg {
            Message::SwitchScreen(screen) => (self.switch_screen(screen, reply), Outcome::nothing()),
            Message::Quit => (
                AppView { running_state: RunningState::Done, ..self },
                Outcome::nothing(),
            ),
            Message::EnterInputMode(mode) => (
                AppView { input_mode: mode, ..self },
                Outcome::nothing(),
            ),
            Message::ExitInputMode => (self.exit_input_mode(), Outcome::nothing()),
            Message::ToggleHelp => (
                AppView { show_help: !self.show_help, ..self },
                Outcome::nothing(),
            ),
            Message::ClearStatus => (AppView { status_message: None, ..self }, Outcome::nothing()),
            _ => (self, Outcome::nothing()),
        }
    }
}

impl App {
    /// Takes the billed entries and the rate table of an invoice-data reply.
    pub fn take_invoice_data(&mut self, reply: Reply)
        ensures
            final(self)@ == old(self)@.with_invoice_data(reply@),
    {
        let (entries, rates) = reply.into_invoice_data();
        self.invoice_entries = entries;
        self.project_rates = rates;
    }

    fn show_screen(&mut self, screen: Screen)
        ensures
            final(self)@ == (AppView {
                current_screen: screen,
                input_mode: InputMode::Normal,
                confirm_delete: None,
                ..old(self)@
            }),
    {
        self.current_screen = screen;
        self.input_mode = InputMode::Normal;
        self.confirm_delete = None;
    }

    fn show_pomodoro_config(&mut self, reply: Reply)
        ensures
            final(self)@ == (AppView {
                pomodoro: PomodoroView {
                    config: reply@.pomodoro_config(),
                    ..old(self)@.pomodoro
                },
                pomodoro_form: PomodoroFormView::of(reply@.pomodoro_config()),
                ..old(self)@
            }),
    {
        self.pomodoro.config = reply.pomodoro_config();
        self.pomodoro_form = PomodoroForm::from_config(&self.pomodoro.config);
    }

    fn switch_screen(&mut self, screen: Screen, reply: Reply)
        ensures
            final(self)@ == old(self)@.switch_screen(screen, reply@),
    {
        self.show_screen(screen);
        match screen {
            Screen::Invoice => {
                self.take_invoice_data(reply);
            },
            Screen::Projects => {
                self.projects = reply.into_projects();
            },
            Screen::Pomodoro => {
                self.show_pomodoro_config(reply);
            },
            _ => {},
        }
    }

    fn exit_input_mode(&mut self)
        ensures
            final(self)@ == old(self)@.exit_input_mode(),
    {
        self.input_mode = InputMode::Normal;
        if self.invoice_mode == InvoiceMode::SelectEntries {
            self.invoice_mode = InvoiceMode::CurrentMonth;
            self.invoice_mode_index = 0;
        }
    }

    /// Processes a navigation message, `reply` being what the store answered
    /// to the message's request.
    pub fn update_navigation(&mut self, msg: Message, reply: Reply) -> (out: Outcome)
        ensures
            (final(self)@, out) == old(self)@.on_navigation(msg, reply@),
    {
        match msg {
            Message::SwitchScreen(screen) => {
                self.switch_screen(screen, reply);
            },
            Message::Quit => {
                self.running_state = RunningState::Done;
            },
            Message::EnterInputMode(mode) => {
                self.input_mode = mode;
            },
            Message::ExitInputMode => {
                self.exit_input_mode();
            },
            Message::ToggleHelp => {
                self.show_help = !self.show_help;
            },
            Message::ClearStatus => {
                self.status_message = None;
            },
            _ => {},
        }
        Outcome::none()
    }
}

} // verus!
