//! The settings screen: the editor of the issuer's invoice settings.

use crate::session::protocol::{Message, Outcome, Reply, ReplyView};
use crate::session::projects::accepts_decimal_char;
use crate::session::state::{
    App, AppView, InputMode, SettingsField, SettingsForm, SettingsFormView, extends_decimal,
    without_last,
};
use crate::text::{hundredths_u64_value, parse_hundredths};
use vstd::prelude::*;

verus! {

/// The tax rate, in hundredths of a percent, that a typed percentage means:
/// its value where the text is a decimal number that fits, and no tax for
/// any other text.
pub open spec fn tax_rate_of_text(text: Seq<char>) -> u32 {
    match hundredths_u64_value(text) {
        Some(v) => if v <= u32::MAX {
            v as u32
        } else {
            0
        },
        None => 0,
    }
}

/// Reads a typed percentage as a tax rate in hundredths of a percent.
pub fn parse_tax_rate(text: &str) -> (r: u32)
    ensures
        r == tax_rate_of_text(text@),
{
    match parse_hundredths(text) {
        Some(v) => {
            if v <= 0xffff_ffff {
                v as u32
            } else {
                0
            }
        },
        None => 0,
    }
}

impl AppView {
    /// `EditSettings`: the settings editor opens on the current settings.
    pub open spec fn edit_settings(self) -> AppView {
        AppView {
            editing_settings: true,
            settings_field: SettingsField::BusinessName,
            settings_form: SettingsFormView::of(self.invoice_settings),
            input_mode: InputMode::EditingSettings,
            ..self
        }
    }

    /// The settings form after `c` was typed: the tax rate takes digits and
    /// one point only, every other field takes any character.
    pub open spec fn settings_typed(self, c: char) -> SettingsFormView {
        let buffer = self.settings_form.field(self.settings_field);
        if self.settings_field == SettingsField::DefaultTaxRate && !extends_decimal(buffer, c) {
            self.settings_form
        } else {
            self.settings_form.with_field(self.settings_field, buffer.push(c))
        }
    }

    /// The settings that the editor describes.
    pub open spec fn settings_to_save(self) -> crate::models::InvoiceSettingsView {
        self.settings_form.settings(tax_rate_of_text(self.settings_form.default_tax_rate))
    }

    /// `SaveSettings`, the store having been asked to store the settings:
    /// where it did, they become the session's settings. The editor closes
    /// either way.
    pub open spec fn save_settings(self, reply: ReplyView) -> AppView {
        if reply.succeeded() {
            AppView {
                invoice_settings: self.settings_to_save(),
                status_message: Some("Settings saved"@),
                editing_settings: false,
                input_mode: InputMode::Normal,
                ..self
            }
        } else {
            AppView {
                status_message: Some("Failed to save settings"@),
                editing_settings: false,
                input_mode: InputMode::Normal,
                ..self
            }
        }
    }

    /// `CancelEditSettings`: the editor closes and its form shows the current
    /// settings again.
    pub open spec fn cancel_edit_settings(self) -> AppView {
        AppView {
            editing_settings: false,
            input_mode: InputMode::Normal,
            settings_form: SettingsFormView::of(self.invoice_settings),
            ..self
        }
    }

    /// What the messages of the settings screen do to a session; any other
    /// message leaves it as it is.
    pub open spec fn on_settings(self, msg: Message, reply: ReplyView) -> (AppView, Outcome) {
        match msg {
            Message::EditSettings => (self.edit_settings(), Outcome::nothing()),
            Message::SettingsNextField => (
                AppView { settings_field: self.settings_field.following(), ..self },
                Outcome::nothing(),
            ),
            Message::SettingsPrevField => (
                AppView { settings_field: self.settings_field.preceding(), ..self },
                Outcome::nothing(),
            ),
            Message::SettingsFieldInput(c) => (
                AppView { settings_form: self.settings_typed(c), ..self },
                Outcome::nothing(),
            ),
            Message::SettingsFieldBackspace => (
                AppView {
                    settings_form: self.settings_form.with_field(
                        self.settings_field,
                        without_last(self.settings_form.field(self.settings_field)),
                    ),
                    ..self
                },
                Outcome::nothing(),
            ),
            Message::SaveSettings => (self.save_settings(reply), Outcome::nothing()),
            Message::CancelEditSettings => (self.cancel_edit_settings(), Outcome::nothing()),
            _ => (self, Outcome::nothing()),
        }
    }
}

impl App {
    fn edit_settings(&mut self)
        ensures
            final(self)@ == old(self)@.edit_settings(),
    {
        self.editing_settings = true;
        self.settings_field = SettingsField::BusinessName;
        self.settings_form = SettingsForm::from_settings(&self.invoice_settings);
        self.input_mode = InputMode::EditingSettings;
    }

    fn settings_typed(&mut self, c: char)
        ensures
            final(self)@ == (AppView { settings_form: old(self)@.settings_typed(c), ..old(self)@ }),
    {
        match self.settings_field {
            SettingsField::DefaultTaxRate => {
                if accepts_decimal_char(self.settings_form.default_tax_rate.as_str(), c) {
                    self.settings_form.push(SettingsField::DefaultTaxRate, c);
                }
            },
            _ => {
                self.settings_form.push(self.settings_field, c);
            },
        }
    }

    /// The settings that the editor describes.
    pub fn settings_to_save(&self) -> (r: crate::models::InvoiceSettings)
        ensures
            r@ == self@.settings_to_save(),
    {
        let rate = parse_tax_rate(self.settings_form.default_tax_rate.as_str());
        self.settings_form.to_settings(rate)
    }

    fn save_settings(&mut self, reply: Reply)
        ensures
            final(self)@ == old(self)@.save_settings(reply@),
    {
        if reply.succeeded() {
            self.invoice_settings = self.settings_to_save();
            self.status_message = Some("Settings saved".to_string());
        } else {
            self.status_message = Some("Failed to save settings".to_string());
        }
        self.editing_settings = false;
        self.input_mode = InputMode::Normal;
    }

    fn cancel_edit_settings(&mut self)
        ensures
            final(self)@ == old(self)@.cancel_edit_settings(),
    {
        self.editing_settings = false;
        self.input_mode = InputMode::Normal;
        self.settings_form = SettingsForm::from_settings(&self.invoice_settings);
    }

    /// Processes a message of the settings screen, `reply` being what the
    /// store answered to the message's request.
    pub fn update_settings(&mut self, msg: Message, reply: Reply) -> (out: Outcome)
        ensures
            (final(self)@, out) == old(self)@.on_settings(msg, reply@),
    {
        match msg {
            Message::EditSettings => {
                self.edit_settings();
            },
            Message::SettingsNextField => {
                self.settings_field = self.settings_field.next();
            },
            Message::SettingsPrevField => {
                self.settings_field = self.settings_field.prev();
            },
            Message::SettingsFieldInput(c) => {
                self.settings_typed(c);
            },
            Message::SettingsFieldBackspace => {
                self.settings_form.pop(self.settings_field);
            },
            Message::SaveSettings => {
                self.save_settings(reply);
            },
            Message::CancelEditSettings => {
                self.cancel_edit_settings();
            },
            _ => {},
        }
        Outcome::none()
    }
}

} // verus!
