//! The Pomodoro configuration screen: the form of the four durations and
//! counts.

use crate::models::PomodoroConfig;
use crate::pomodoro::PomodoroView;
use crate::session::protocol::{Effect, Message, Outcome};
use crate::session::state::{
    App, AppView, InputMode, PomodoroField, PomodoroForm, PomodoroFormView, without_last,
};
use crate::text::{decimal_string, i32_text_value, is_ascii_digit, is_digit, parse_i32, signed_decimal};
use vstd::prelude::*;

verus! {

/// The value that a form field gives to a setting: the number typed, where
/// the text is a whole number above zero that fits; the current value for
/// any other text.
pub open spec fn positive_or(text: Seq<char>, current: i32) -> i32 {
    match i32_text_value(text) {
        Some(v) => if v > 0 {
            v
        } else {
            current
        },
        None => current,
    }
}

/// Reads a form field as [`positive_or`] describes.
pub fn parse_positive_or(text: &str, current: i32) -> (r: i32)
    ensures
        r == positive_or(text@, current),
{
    match parse_i32(text) {
        Some(v) => {
            if v > 0 {
                v
            } else {
                current
            }
        },
        None => current,
    }
}

impl PomodoroFormView {
    /// The form that shows a configuration.
    pub open spec fn of(config: PomodoroConfig) -> PomodoroFormView {
        PomodoroFormView {
            work: signed_decimal(config.work_duration as int),
            short_break: signed_decimal(config.short_break as int),
            long_break: signed_decimal(config.long_break as int),
            cycles: signed_decimal(config.cycles_before_long as int),
        }
    }

    /// The configuration after the form was saved over `current`.
    pub open spec fn applied_to(self, current: PomodoroConfig) -> PomodoroConfig {
        PomodoroConfig {
            enabled: current.enabled,
            work_duration: positive_or(self.work, current.work_duration),
            short_break: positive_or(self.short_break, current.short_break),
            long_break: positive_or(self.long_break, current.long_break),
            cycles_before_long: positive_or(self.cycles, current.cycles_before_long),
        }
    }
}

impl PomodoroForm {
    /// The form that shows a configuration.
    pub fn from_config(config: &PomodoroConfig) -> (r: PomodoroForm)
        ensures
            r@ == PomodoroFormView::of(*config),
    {
        PomodoroForm {
            work: decimal_string(config.work_duration as i64),
            short_break: decimal_string(config.short_break as i64),
            long_break: decimal_string(config.long_break as i64),
            cycles: decimal_string(config.cycles_before_long as i64),
        }
    }

    /// The configuration after the form was saved over `current`.
    pub fn apply_to(&self, current: &PomodoroConfig) -> (r: PomodoroConfig)
        ensures
            r == self@.applied_to(*current),
    {
        PomodoroConfig {
            enabled: current.enabled,
            work_duration: parse_positive_or(self.work.as_str(), current.work_duration),
            short_break: parse_positive_or(self.short_break.as_str(), current.short_break),
            long_break: parse_positive_or(self.long_break.as_str(), current.long_break),
            cycles_before_long: parse_positive_or(
                self.cycles.as_str(),
                current.cycles_before_long,
            ),
        }
    }
}

impl AppView {
    /// `SavePomodoroConfig`: every field that holds a whole number above zero
    /// replaces its setting, the others leave theirs; the configuration is to
    /// be stored.
    pub open spec fn save_pomodoro_config(self) -> (AppView, Outcome) {
        let config = self.pomodoro_form.applied_to(self.pomodoro.config);
        (
            AppView {
                pomodoro: PomodoroView { config, ..self.pomodoro },
                status_message: Some("Pomodoro settings saved"@),
                input_mode: InputMode::Normal,
                pomodoro_field: PomodoroField::Enabled,
                ..self
            },
            Outcome::with(Effect::SavePomodoroConfig(config)),
        )
    }

    /// `CancelPomodoroEdit`: the form shows the configuration again.
    pub open spec fn cancel_pomodoro_edit(self) -> AppView {
        AppView {
            pomodoro_form: PomodoroFormView::of(self.pomodoro.config),
            input_mode: InputMode::Normal,
            pomodoro_field: PomodoroField::Enabled,
            ..self
        }
    }

    /// The Pomodoro form after `c` was typed: only digits are taken.
    pub open spec fn pomodoro_typed(self, c: char) -> PomodoroFormView {
        if is_digit(c) {
            self.pomodoro_form.with_field(
                self.pomodoro_field,
                self.pomodoro_form.field(self.pomodoro_field).push(c),
            )
        } else {
            self.pomodoro_form
        }
    }

    /// What the messages of the Pomodoro configuration screen do to a
    /// session; any other message leaves it as it is.
    pub open spec fn on_pomodoro_screen(self, msg: Message) -> (AppView, Outcome) {
        match msg {
            Message::PomodoroNextField => (
                AppView {
                    pomodoro_field: self.pomodoro_field.following(),
                    input_mode: self.pomodoro_field.following().mode(),
                    ..self
                },
                Outcome::nothing(),
            ),
            Message::PomodoroPrevField => (
                AppView {
                    pomodoro_field: self.pomodoro_field.preceding(),
                    input_mode: self.pomodoro_field.preceding().mode(),
                    ..self
                },
                Outcome::nothing(),
            ),
            Message::PomodoroFieldInput(c) => (
                AppView { pomodoro_form: self.pomodoro_typed(c), ..self },
                Outcome::nothing(),
            ),
            Message::PomodoroFieldBackspace => (
                AppView {
                    pomodoro_form: self.pomodoro_form.with_field(
                        self.pomodoro_field,
                        without_last(self.pomodoro_form.field(self.pomodoro_field)),
                    ),
                    ..self
                },
                Outcome::nothing(),
            ),
            Message::SavePomodoroConfig => self.save_pomodoro_config(),
            Message::CancelPomodoroEdit => (self.cancel_pomodoro_edit(), Outcome::nothing()),
            _ => (self, Outcome::nothing()),
        }
    }
}

impl App {
    fn pomodoro_field_moved(&mut self, field: PomodoroField)
        ensures
            final(self)@ == (AppView {
                pomodoro_field: field,
                input_mode: field.mode(),
                ..old(self)@
            }),
    {
        self.pomodoro_field = field;
        self.input_mode = field.input_mode();
    }

    fn save_pomodoro_config(&mut self) -> (out: Outcome)
        ensures
            (final(self)@, out) == old(self)@.save_pomodoro_config(),
    {
        let config = self.pomodoro_form.apply_to(&self.pomodoro.config);
        self.pomodoro.config = config;
        self.status_message = Some("Pomodoro settings saved".to_string());
        self.input_mode = InputMode::Normal;
        self.pomodoro_field = PomodoroField::Enabled;
        Outcome::effect(Effect::SavePomodoroConfig(config))
    }

    fn cancel_pomodoro_edit(&mut self)
        ensures
            final(self)@ == old(self)@.cancel_pomodoro_edit(),
    {
        self.pomodoro_form = PomodoroForm::from_config(&self.pomodoro.config);
        self.input_mode = InputMode::Normal;
        self.pomodoro_field = PomodoroField::Enabled;
    }

    fn pomodoro_typed(&mut self, c: char)
        ensures
            final(self)@ == (AppView { pomodoro_form: old(self)@.pomodoro_typed(c), ..old(self)@ }),
    {
        if is_ascii_digit(c) {
            self.pomodoro_form.push(self.pomodoro_field, c);
        }
    }

    /// Processes a message of the Pomodoro configuration screen.
    pub fn update_pomodoro_screen(&mut self, msg: Message) -> (out: Outcome)
        ensures
            (final(self)@, out) == old(self)@.on_pomodoro_screen(msg),
    {
        match msg {
            Message::PomodoroNextField => {
                self.pomodoro_field_moved(self.pomodoro_field.next());
                Outcome::none()
            },
            Message::PomodoroPrevField => {
                self.pomodoro_field_moved(self.pomodoro_field.prev());
                Outcome::none()
            },
            Message::PomodoroFieldInput(c) => {
                self.pomodoro_typed(c);
                Outcome::none()
            },
            Message::PomodoroFieldBackspace => {
                self.pomodoro_form.pop(self.pomodoro_field);
                Outcome::none()
            },
            Message::SavePomodoroConfig => self.save_pomodoro_config(),
            Message::CancelPomodoroEdit => {
                self.cancel_pomodoro_edit();
                Outcome::none()
            },
            _ => Outcome::none(),
        }
    }
}

} // verus!
