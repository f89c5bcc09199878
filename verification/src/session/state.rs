//! The state of an interactive session: which screen is shown, the mirror of
//! the store that the session works on, and the buffers of its edit forms.

use crate::invoice::{ProjectRate, ProjectRateView};
use crate::models::{
    Client, ClientView, Entry, EntryView, InvoiceSettings, InvoiceSettingsView, Project,
    ProjectView,
};
use crate::pomodoro::{Pomodoro, PomodoroView};
use crate::text::{decimal, digit_char, is_digit, push_decimal, digit_to_char};
use crate::time::Timestamp;
use vstd::prelude::*;

verus! {

/// The screen that is shown.
#[derive(Debug, Clone, Copy, PartialEq, Eq, Structural)]
pub enum Screen {
    Timer,
    Entries,
    Invoice,
    Projects,
    Pomodoro,
    Clients,
    Settings,
}

impl Default for Screen {
    fn default() -> (r: Self)
        ensures
            r == Screen::Timer,
    {
        Screen::Timer
    }
}

/// Whether the session goes on.
#[derive(Debug, Clone, Copy, PartialEq, Eq, Structural)]
pub enum RunningState {
    Running,
    Done,
}

impl Default for RunningState {
    fn default() -> (r: Self)
        ensures
            r == RunningState::Running,
    {
        RunningState::Running
    }
}

/// How the entries of an invoice are chosen.
#[derive(Debug, Clone, Copy, PartialEq, Eq, Structural)]
pub enum InvoiceMode {
    CurrentMonth,
    PriorMonth,
    CustomRange,
    SelectEntries,
}

impl Default for InvoiceMode {
    fn default() -> (r: Self)
        ensures
            r == InvoiceMode::CurrentMonth,
    {
        InvoiceMode::CurrentMonth
    }
}

impl InvoiceMode {
    /// The mode at a position of the mode list; positions past the third
    /// stand for the last mode.
    pub open spec fn at(index: int) -> InvoiceMode {
        if index == 0 {
            InvoiceMode::CurrentMonth
        } else if index == 1 {
            InvoiceMode::PriorMonth
        } else if index == 2 {
            InvoiceMode::CustomRange
        } else {
            InvoiceMode::SelectEntries
        }
    }

    /// The mode at a position of the mode list.
    pub fn from_index(index: usize) -> (r: InvoiceMode)
        ensures
            r == InvoiceMode::at(index as int),
    {
        match index {
            0 => InvoiceMode::CurrentMonth,
            1 => InvoiceMode::PriorMonth,
            2 => InvoiceMode::CustomRange,
            _ => InvoiceMode::SelectEntries,
        }
    }
}

/// What the keyboard is typing into.
#[derive(Debug, Clone, Copy, PartialEq, Eq, Structural)]
pub enum InputMode {
    Normal,
    EditingProject,
    EditingDescription,
    EditEntryProject,
    EditEntryDescription,
    EditEntryStart,
    EditEntryEnd,
    EditingRate,
    EditingCurrency,
    EditingPomodoroWork,
    EditingPomodoroShortBreak,
    EditingPomodoroLongBreak,
    EditingPomodoroCycles,
    EditingClient,
    EditingSettings,
}

impl Default for InputMode {
    fn default() -> (r: Self)
        ensures
            r == InputMode::Normal,
    {
        InputMode::Normal
    }
}

/// The field that is selected in the entry editor.
#[derive(Debug, Clone, Copy, PartialEq, Eq, Structural)]
pub enum EditField {
    Project,
    Description,
    Start,
    End,
}

impl Default for EditField {
    fn default() -> (r: Self)
        ensures
            r == EditField::Project,
    {
        EditField::Project
    }
}

impl EditField {
    /// The field after this one; the last is followed by the first.
    pub open spec fn following(self) -> EditField {
        match self {
            EditField::Project => EditField::Description,
            EditField::Description => EditField::Start,
            EditField::Start => EditField::End,
            EditField::End => EditField::Project,
        }
    }

    /// The field before this one; the first is preceded by the last.
    pub open spec fn preceding(self) -> EditField {
        match self {
            EditField::Project => EditField::End,
            EditField::Description => EditField::Project,
            EditField::Start => EditField::Description,
            EditField::End => EditField::Start,
        }
    }

    /// The input mode in which this field is typed into.
    pub open spec fn mode(self) -> InputMode {
        match self {
            EditField::Project => InputMode::EditEntryProject,
            EditField::Description => InputMode::EditEntryDescription,
            EditField::Start => InputMode::EditEntryStart,
            EditField::End => InputMode::EditEntryEnd,
        }
    }

    /// The field after this one.
    pub fn next(self) -> (r: EditField)
        ensures
            r == self.following(),
    {
        match self {
            EditField::Project => EditField::Description,
            EditField::Description => EditField::Start,
            EditField::Start => EditField::End,
            EditField::End => EditField::Project,
        }
    }

    /// The field before this one.
    pub fn prev(self) -> (r: EditField)
        ensures
            r == self.preceding(),
    {
        match self {
            EditField::Project => EditField::End,
            EditField::Description => EditField::Project,
            EditField::Start => EditField::Description,
            EditField::End => EditField::Start,
        }
    }

    /// The input mode in which this field is typed into.
    pub fn input_mode(self) -> (r: InputMode)
        ensures
            r == self.mode(),
    {
        match self {
            EditField::Project => InputMode::EditEntryProject,
            EditField::Description => InputMode::EditEntryDescription,
            EditField::Start => InputMode::EditEntryStart,
            EditField::End => InputMode::EditEntryEnd,
        }
    }
}

/// The field that is selected on the Pomodoro configuration screen.
#[derive(Debug, Clone, Copy, PartialEq, Eq, Structural)]
pub enum PomodoroField {
    Enabled,
    WorkDuration,
    ShortBreak,
    LongBreak,
    Cycles,
}

impl Default for PomodoroField {
    fn default() -> (r: Self)
        ensures
            r == PomodoroField::Enabled,
    {
        PomodoroField::Enabled
    }
}

impl PomodoroField {
    /// The field after this one; the last is followed by the first.
    pub open spec fn following(self) -> PomodoroField {
        match self {
            PomodoroField::Enabled => PomodoroField::WorkDuration,
            PomodoroField::WorkDuration => PomodoroField::ShortBreak,
            PomodoroField::ShortBreak => PomodoroField::LongBreak,
            PomodoroField::LongBreak => PomodoroField::Cycles,
            PomodoroField::Cycles => PomodoroField::Enabled,
        }
    }

    /// The field before this one; the first is preceded by the last.
    pub open spec fn preceding(self) -> PomodoroField {
        match self {
            PomodoroField::Enabled => PomodoroField::Cycles,
            PomodoroField::WorkDuration => PomodoroField::Enabled,
            PomodoroField::ShortBreak => PomodoroField::WorkDuration,
            PomodoroField::LongBreak => PomodoroField::ShortBreak,
            PomodoroField::Cycles => PomodoroField::LongBreak,
        }
    }

    /// The input mode in which this field is typed into; the switch is not
    /// typed into.
    pub open spec fn mode(self) -> InputMode {
        match self {
            PomodoroField::Enabled => InputMode::Normal,
            PomodoroField::WorkDuration => InputMode::EditingPomodoroWork,
            PomodoroField::ShortBreak => InputMode::EditingPomodoroShortBreak,
            PomodoroField::LongBreak => InputMode::EditingPomodoroLongBreak,
            PomodoroField::Cycles => InputMode::EditingPomodoroCycles,
        }
    }

    /// The field after this one.
    pub fn next(self) -> (r: PomodoroField)
        ensures
            r == self.following(),
    {
        match self {
            PomodoroField::Enabled => PomodoroField::WorkDuration,
            PomodoroField::WorkDuration => PomodoroField::ShortBreak,
            PomodoroField::ShortBreak => PomodoroField::LongBreak,
            PomodoroField::LongBreak => PomodoroField::Cycles,
            PomodoroField::Cycles => PomodoroField::Enabled,
        }
    }

    /// The field before this one.
    pub fn prev(self) -> (r: PomodoroField)
        ensures
            r == self.preceding(),
    {
        match self {
            PomodoroField::Enabled => PomodoroField::Cycles,
            PomodoroField::WorkDuration => PomodoroField::Enabled,
            PomodoroField::ShortBreak => PomodoroField::WorkDuration,
            PomodoroField::LongBreak => PomodoroField::ShortBreak,
            PomodoroField::Cycles => PomodoroField::LongBreak,
        }
    }

    /// The input mode in which this field is typed into.
    pub fn input_mode(self) -> (r: InputMode)
        ensures
            r == self.mode(),
    {
        match self {
            PomodoroField::Enabled => InputMode::Normal,
            PomodoroField::WorkDuration => InputMode::EditingPomodoroWork,
            PomodoroField::ShortBreak => InputMode::EditingPomodoroShortBreak,
            PomodoroField::LongBreak => InputMode::EditingPomodoroLongBreak,
            PomodoroField::Cycles => InputMode::EditingPomodoroCycles,
        }
    }
}

/// The field that is selected in the client editor.
#[derive(Debug, Clone, Copy, PartialEq, Eq, Structural)]
pub enum ClientField {
    Name,
    Contact,
    Street,
    City,
    State,
    Postal,
    Country,
    Email,
}

impl Default for ClientField {
    fn default() -> (r: Self)
        ensures
            r == ClientField::Name,
    {
        ClientField::Name
    }
}

impl ClientField {
    /// The field after this one; the last is followed by the first.
    pub open spec fn following(self) -> ClientField {
        match self {
            ClientField::Name => ClientField::Contact,
            ClientField::Contact => ClientField::Street,
            ClientField::Street => ClientField::City,
            ClientField::City => ClientField::State,
            ClientField::State => ClientField::Postal,
            ClientField::Postal => ClientField::Country,
            ClientField::Country => ClientField::Email,
            ClientField::Email => ClientField::Name,
        }
    }

    /// The field before this one; the first is preceded by the last.
    pub open spec fn preceding(self) -> ClientField {
        match self {
            ClientField::Name => ClientField::Email,
            ClientField::Contact => ClientField::Name,
            ClientField::Street => ClientField::Contact,
            ClientField::City => ClientField::Street,
            ClientField::State => ClientField::City,
            ClientField::Postal => ClientField::State,
            ClientField::Country => ClientField::Postal,
            ClientField::Email => ClientField::Country,
        }
    }

    /// The field after this one.
    pub fn next(self) -> (r: ClientField)
        ensures
            r == self.following(),
    {
        match self {
            ClientField::Name => ClientField::Contact,
            ClientField::Contact => ClientField::Street,
            ClientField::Street => ClientField::City,
            ClientField::City => ClientField::State,
            ClientField::State => ClientField::Postal,
            ClientField::Postal => ClientField::Country,
            ClientField::Country => ClientField::Email,
            ClientField::Email => ClientField::Name,
        }
    }

    /// The field before this one.
    pub fn prev(self) -> (r: ClientField)
        ensures
            r == self.preceding(),
    {
        match self {
            ClientField::Name => ClientField::Email,
            ClientField::Contact => ClientField::Name,
            ClientField::Street => ClientField::Contact,
            ClientField::City => ClientField::Street,
            ClientField::State => ClientField::City,
            ClientField::Postal => ClientField::State,
            ClientField::Country => ClientField::Postal,
            ClientField::Email => ClientField::Country,
        }
    }
}

/// The field that is selected in the settings editor.
#[derive(Debug, Clone, Copy, PartialEq, Eq, Structural)]
pub enum SettingsField {
    BusinessName,
    Street,
    City,
    State,
    Postal,
    Country,
    Email,
    Phone,
    TaxId,
    PaymentTerms,
    DefaultTaxRate,
    PaymentInstructions,
}

impl Default for SettingsField {
    fn default() -> (r: Self)
        ensures
            r == SettingsField::BusinessName,
    {
        SettingsField::BusinessName
    }
}

impl SettingsField {
    /// The field after this one; the last is followed by the first.
    pub open spec fn following(self) -> SettingsField {
        match self {
            SettingsField::BusinessName => SettingsField::Street,
            SettingsField::Street => SettingsField::City,
            SettingsField::City => SettingsField::State,
            SettingsField::State => SettingsField::Postal,
            SettingsField::Postal => SettingsField::Country,
            SettingsField::Country => SettingsField::Email,
            SettingsField::Email => SettingsField::Phone,
            SettingsField::Phone => SettingsField::TaxId,
            SettingsField::TaxId => SettingsField::PaymentTerms,
            SettingsField::PaymentTerms => SettingsField::DefaultTaxRate,
            SettingsField::DefaultTaxRate => SettingsField::PaymentInstructions,
            SettingsField::PaymentInstructions => SettingsField::BusinessName,
        }
    }

    /// The field before this one; the first is preceded by the last.
    pub open spec fn preceding(self) -> SettingsField {
        match self {
            SettingsField::BusinessName => SettingsField::PaymentInstructions,
            SettingsField::Street => SettingsField::BusinessName,
            SettingsField::City => SettingsField::Street,
            SettingsField::State => SettingsField::City,
            SettingsField::Postal => SettingsField::State,
            SettingsField::Country => SettingsField::Postal,
            SettingsField::Email => SettingsField::Country,
            SettingsField::Phone => SettingsField::Email,
            SettingsField::TaxId => SettingsField::Phone,
            SettingsField::PaymentTerms => SettingsField::TaxId,
            SettingsField::DefaultTaxRate => SettingsField::PaymentTerms,
            SettingsField::PaymentInstructions => SettingsField::DefaultTaxRate,
        }
    }

    /// The field after this one.
    pub fn next(self) -> (r: SettingsField)
        ensures
            r == self.following(),
    {
        match self {
            SettingsField::BusinessName => SettingsField::Street,
            SettingsField::Street => SettingsField::City,
            SettingsField::City => SettingsField::State,
            SettingsField::State => SettingsField::Postal,
            SettingsField::Postal => SettingsField::Country,
            SettingsField::Country => SettingsField::Email,
            SettingsField::Email => SettingsField::Phone,
            SettingsField::Phone => SettingsField::TaxId,
            SettingsField::TaxId => SettingsField::PaymentTerms,
            SettingsField::PaymentTerms => SettingsField::DefaultTaxRate,
            SettingsField::DefaultTaxRate => SettingsField::PaymentInstructions,
            SettingsField::PaymentInstructions => SettingsField::BusinessName,
        }
    }

    /// The field before this one.
    pub fn prev(self) -> (r: SettingsField)
        ensures
            r == self.preceding(),
    {
        match self {
            SettingsField::BusinessName => SettingsField::PaymentInstructions,
            SettingsField::Street => SettingsField::BusinessName,
            SettingsField::City => SettingsField::Street,
            SettingsField::State => SettingsField::City,
            SettingsField::Postal => SettingsField::State,
            SettingsField::Country => SettingsField::Postal,
            SettingsField::Email => SettingsField::Country,
            SettingsField::Phone => SettingsField::Email,
            SettingsField::TaxId => SettingsField::Phone,
            SettingsField::PaymentTerms => SettingsField::TaxId,
            SettingsField::DefaultTaxRate => SettingsField::PaymentTerms,
            SettingsField::PaymentInstructions => SettingsField::DefaultTaxRate,
        }
    }
}

/// A text without its last character; the empty text stays empty.
pub open spec fn without_last(text: Seq<char>) -> Seq<char> {
    if text.len() > 0 {
        text.drop_last()
    } else {
        text
    }
}

/// Whether typing `c` extends a buffer that holds a decimal number: digits
/// always do, a point does where the buffer has none yet.
pub open spec fn extends_decimal(buffer: Seq<char>, c: char) -> bool {
    is_digit(c) || (c == '.' && !buffer.contains('.'))
}

/// A percentage counted in hundredths of a percent, written the short way:
/// `825` is `8.25`, `850` is `8.5`, `1000` is `10`.
pub open spec fn percent_text(rate: u32) -> Seq<char> {
    let whole = decimal((rate / 100) as nat);
    let frac = rate % 100;
    if frac == 0 {
        whole
    } else if frac % 10 == 0 {
        whole + seq!['.', digit_char((frac / 10) as int)]
    } else {
        whole + seq!['.', digit_char((frac / 10) as int), digit_char((frac % 10) as int)]
    }
}

/// Writes a percentage as [`percent_text`] describes.
pub fn format_percent(rate: u32) -> (r: String)
    ensures
        r@ == percent_text(rate),
{
    let mut out = String::new();
    push_decimal(&mut out, (rate / 100) as u64);
    let frac: u32 = rate % 100;
    if frac != 0 {
        out.push('.');
        out.push(digit_to_char((frac / 10) as u8));
        if frac % 10 != 0 {
            out.push(digit_to_char((frac % 10) as u8));
        }
    }
    proof {
        assert(out@ =~= percent_text(rate));
    }
    out
}

/// The buffers of the entry editor.
#[derive(Debug)]
pub struct EntryForm {
    pub project: String,
    pub description: String,
    pub start: String,
    pub end: String,
}

/// The mathematical content of an [`EntryForm`].
pub struct EntryFormView {
    pub project: Seq<char>,
    pub description: Seq<char>,
    pub start: Seq<char>,
    pub end: Seq<char>,
}

impl View for EntryForm {
    type V = EntryFormView;

    open spec fn view(&self) -> EntryFormView {
        EntryFormView {
            project: self.project@,
            description: self.description@,
            start: self.start@,
            end: self.end@,
        }
    }
}

impl EntryFormView {
    /// The form with empty buffers.
    pub open spec fn empty() -> EntryFormView {
        EntryFormView {
            project: Seq::empty(),
            description: Seq::empty(),
            start: Seq::empty(),
            end: Seq::empty(),
        }
    }

    /// The buffer of a field.
    pub open spec fn field(self, f: EditField) -> Seq<char> {
        match f {
            EditField::Project => self.project,
            EditField::Description => self.description,
            EditField::Start => self.start,
            EditField::End => self.end,
        }
    }

    /// The form with one buffer replaced.
    pub open spec fn with_field(self, f: EditField, text: Seq<char>) -> EntryFormView {
        match f {
            EditField::Project => EntryFormView { project: text, ..self },
            EditField::Description => EntryFormView { description: text, ..self },
            EditField::Start => EntryFormView { start: text, ..self },
            EditField::End => EntryFormView { end: text, ..self },
        }
    }
}

impl EntryForm {
    /// A form with empty buffers.
    pub fn new() -> (r: EntryForm)
        ensures
            r@ == EntryFormView::empty(),
    {
        EntryForm {
            project: String::new(),
            description: String::new(),
            start: String::new(),
            end: String::new(),
        }
    }

    /// Types `c` into a field.
    pub fn push(&mut self, f: EditField, c: char)
        ensures
            final(self)@ == old(self)@.with_field(f, old(self)@.field(f).push(c)),
    {
        match f {
            EditField::Project => self.project.push(c),
            EditField::Description => self.description.push(c),
            EditField::Start => self.start.push(c),
            EditField::End => self.end.push(c),
        }
    }

    /// Deletes the last character of a field.
    pub fn pop(&mut self, f: EditField)
        ensures
            final(self)@ == old(self)@.with_field(f, without_last(old(self)@.field(f))),
    {
        match f {
            EditField::Project => {
                self.project.pop();
            },
            EditField::Description => {
                self.description.pop();
            },
            EditField::Start => {
                self.start.pop();
            },
            EditField::End => {
                self.end.pop();
            },
        }
    }
}

/// The buffers of the Pomodoro configuration screen.
#[derive(Debug)]
pub struct PomodoroForm {
    pub work: String,
    pub short_break: String,
    pub long_break: String,
    pub cycles: String,
}

/// The mathematical content of a [`PomodoroForm`].
pub struct PomodoroFormView {
    pub work: Seq<char>,
    pub short_break: Seq<char>,
    pub long_break: Seq<char>,
    pub cycles: Seq<char>,
}

impl View for PomodoroForm {
    type V = PomodoroFormView;

    open spec fn view(&self) -> PomodoroFormView {
        PomodoroFormView {
            work: self.work@,
            short_break: self.short_break@,
            long_break: self.long_break@,
            cycles: self.cycles@,
        }
    }
}

impl PomodoroFormView {
    /// The form with empty buffers.
    pub open spec fn empty() -> PomodoroFormView {
        PomodoroFormView {
            work: Seq::empty(),
            short_break: Seq::empty(),
            long_break: Seq::empty(),
            cycles: Seq::empty(),
        }
    }

    /// The buffer of a field; the switch has none.
    pub open spec fn field(self, f: PomodoroField) -> Seq<char> {
        match f {
            PomodoroField::Enabled => Seq::empty(),
            PomodoroField::WorkDuration => self.work,
            PomodoroField::ShortBreak => self.short_break,
            PomodoroField::LongBreak => self.long_break,
            PomodoroField::Cycles => self.cycles,
        }
    }

    /// The form with one buffer replaced; the switch has none.
    pub open spec fn with_field(self, f: PomodoroField, text: Seq<char>) -> PomodoroFormView {
        match f {
            PomodoroField::Enabled => self,
            PomodoroField::WorkDuration => PomodoroFormView { work: text, ..self },
            PomodoroField::ShortBreak => PomodoroFormView { short_break: text, ..self },
            PomodoroField::LongBreak => PomodoroFormView { long_break: text, ..self },
            PomodoroField::Cycles => PomodoroFormView { cycles: text, ..self },
        }
    }
}

impl PomodoroForm {
    /// A form with empty buffers.
    pub fn new() -> (r: PomodoroForm)
        ensures
            r@ == PomodoroFormView::empty(),
    {
        PomodoroForm {
            work: String::new(),
            short_break: String::new(),
            long_break: String::new(),
            cycles: String::new(),
        }
    }

    /// Types `c` into a field.
    pub fn push(&mut self, f: PomodoroField, c: char)
        ensures
            final(self)@ == old(self)@.with_field(f, old(self)@.field(f).push(c)),
    {
        match f {
            PomodoroField::Enabled => {},
            PomodoroField::WorkDuration => self.work.push(c),
            PomodoroField::ShortBreak => self.short_break.push(c),
            PomodoroField::LongBreak => self.long_break.push(c),
            PomodoroField::Cycles => self.cycles.push(c),
        }
    }

    /// Deletes the last character of a field.
    pub fn pop(&mut self, f: PomodoroField)
        ensures
            final(self)@ == old(self)@.with_field(f, without_last(old(self)@.field(f))),
    {
        match f {
            PomodoroField::Enabled => {},
            PomodoroField::WorkDuration => {
                self.work.pop();
            },
            PomodoroField::ShortBreak => {
                self.short_break.pop();
            },
            PomodoroField::LongBreak => {
                self.long_break.pop();
            },
            PomodoroField::Cycles => {
                self.cycles.pop();
            },
        }
    }
}

/// The buffers of the client editor.
#[derive(Debug)]
pub struct ClientForm {
    pub name: String,
    pub contact: String,
    pub street: String,
    pub city: String,
    pub state: String,
    pub postal: String,
    pub country: String,
    pub email: String,
}

/// The mathematical content of a [`ClientForm`].
pub struct ClientFormView {
    pub name: Seq<char>,
    pub contact: Seq<char>,
    pub street: Seq<char>,
    pub city: Seq<char>,
    pub state: Seq<char>,
    pub postal: Seq<char>,
    pub country: Seq<char>,
    pub email: Seq<char>,
}

impl View for ClientForm {
    type V = ClientFormView;

    open spec fn view(&self) -> ClientFormView {
        ClientFormView {
            name: self.name@,
            contact: self.contact@,
            street: self.street@,
            city: self.city@,
            state: self.state@,
            postal: self.postal@,
            country: self.country@,
            email: self.email@,
        }
    }
}

impl ClientFormView {
    /// The form with empty buffers.
    pub open spec fn empty() -> ClientFormView {
        ClientFormView {
            name: Seq::empty(),
            contact: Seq::empty(),
            street: Seq::empty(),
            city: Seq::empty(),
            state: Seq::empty(),
            postal: Seq::empty(),
            country: Seq::empty(),
            email: Seq::empty(),
        }
    }

    /// The form filled from a client.
    pub open spec fn of(client: ClientView) -> ClientFormView {
        ClientFormView {
            name: client.name,
            contact: client.contact_person,
            street: client.address_street,
            city: client.address_city,
            state: client.address_state,
            postal: client.address_postal,
            country: client.address_country,
            email: client.email,
        }
    }

    /// The client that the form describes, under the given identity.
    pub open spec fn client(self, id: i64) -> ClientView {
        ClientView {
            id,
            name: self.name,
            contact_person: self.contact,
            address_street: self.street,
            address_city: self.city,
            address_state: self.state,
            address_postal: self.postal,
            address_country: self.country,
            email: self.email,
        }
    }

    /// The buffer of a field.
    pub open spec fn field(self, f: ClientField) -> Seq<char> {
        match f {
            ClientField::Name => self.name,
            ClientField::Contact => self.contact,
            ClientField::Street => self.street,
            ClientField::City => self.city,
            ClientField::State => self.state,
            ClientField::Postal => self.postal,
            ClientField::Country => self.country,
            ClientField::Email => self.email,
        }
    }

    /// The form with one buffer replaced.
    pub open spec fn with_field(self, f: ClientField, text: Seq<char>) -> ClientFormView {
        match f {
            ClientField::Name => ClientFormView { name: text, ..self },
            ClientField::Contact => ClientFormView { contact: text, ..self },
            ClientField::Street => ClientFormView { street: text, ..self },
            ClientField::City => ClientFormView { city: text, ..self },
            ClientField::State => ClientFormView { state: text, ..self },
            ClientField::Postal => ClientFormView { postal: text, ..self },
            ClientField::Country => ClientFormView { country: text, ..self },
            ClientField::Email => ClientFormView { email: text, ..self },
        }
    }
}

impl ClientForm {
    /// A form with empty buffers.
    pub fn new() -> (r: ClientForm)
        ensures
            r@ == ClientFormView::empty(),
    {
        ClientForm {
            name: String::new(),
            contact: String::new(),
            street: String::new(),
            city: String::new(),
            state: String::new(),
            postal: String::new(),
            country: String::new(),
            email: String::new(),
        }
    }

    /// The form filled from a client.
    pub fn from_client(client: &Client) -> (r: ClientForm)
        ensures
            r@ == ClientFormView::of(client@),
    {
        ClientForm {
            name: client.name.clone(),
            contact: client.contact_person.clone(),
            street: client.address_street.clone(),
            city: client.address_city.clone(),
            state: client.address_state.clone(),
            postal: client.address_postal.clone(),
            country: client.address_country.clone(),
            email: client.email.clone(),
        }
    }

    /// The client that the form describes, under the given identity.
    pub fn to_client(&self, id: i64) -> (r: Client)
        ensures
            r@ == self@.client(id),
    {
        Client {
            id,
            name: self.name.clone(),
            contact_person: self.contact.clone(),
            address_street: self.street.clone(),
            address_city: self.city.clone(),
            address_state: self.state.clone(),
            address_postal: self.postal.clone(),
            address_country: self.country.clone(),
            email: self.email.clone(),
        }
    }

    /// Types `c` into a field.
    pub fn push(&mut self, f: ClientField, c: char)
        ensures
            final(self)@ == old(self)@.with_field(f, old(self)@.field(f).push(c)),
    {
        match f {
            ClientField::Name => self.name.push(c),
            ClientField::Contact => self.contact.push(c),
            ClientField::Street => self.street.push(c),
            ClientField::City => self.city.push(c),
            ClientField::State => self.state.push(c),
            ClientField::Postal => self.postal.push(c),
            ClientField::Country => self.country.push(c),
            ClientField::Email => self.email.push(c),
        }
    }

    /// Deletes the last character of a field.
    pub fn pop(&mut self, f: ClientField)
        ensures
            final(self)@ == old(self)@.with_field(f, without_last(old(self)@.field(f))),
    {
        match f {
            ClientField::Name => {
                self.name.pop();
            },
            ClientField::Contact => {
                self.contact.pop();
            },
            ClientField::Street => {
                self.street.pop();
            },
            ClientField::City => {
                self.city.pop();
            },
            ClientField::State => {
                self.state.pop();
            },
            ClientField::Postal => {
                self.postal.pop();
            },
            ClientField::Country => {
                self.country.pop();
            },
            ClientField::Email => {
                self.email.pop();
            },
        }
    }
}

/// The buffers of the settings editor.
#[derive(Debug)]
pub struct SettingsForm {
    pub business_name: String,
    pub street: String,
    pub city: String,
    pub state: String,
    pub postal: String,
    pub country: String,
    pub email: String,
    pub phone: String,
    pub tax_id: String,
    pub payment_terms: String,
    pub default_tax_rate: String,
    pub payment_instructions: String,
}

/// The mathematical content of a [`SettingsForm`].
pub struct SettingsFormView {
    pub business_name: Seq<char>,
    pub street: Seq<char>,
    pub city: Seq<char>,
    pub state: Seq<char>,
    pub postal: Seq<char>,
    pub country: Seq<char>,
    pub email: Seq<char>,
    pub phone: Seq<char>,
    pub tax_id: Seq<char>,
    pub payment_terms: Seq<char>,
    pub default_tax_rate: Seq<char>,
    pub payment_instructions: Seq<char>,
}

impl View for SettingsForm {
    type V = SettingsFormView;

    open spec fn view(&self) -> SettingsFormView {
        SettingsFormView {
            business_name: self.business_name@,
            street: self.street@,
            city: self.city@,
            state: self.state@,
            postal: self.postal@,
            country: self.country@,
            email: self.email@,
            phone: self.phone@,
            tax_id: self.tax_id@,
            payment_terms: self.payment_terms@,
            default_tax_rate: self.default_tax_rate@,
            payment_instructions: self.payment_instructions@,
        }
    }
}

impl SettingsFormView {
    /// The form with empty buffers.
    pub open spec fn empty() -> SettingsFormView {
        SettingsFormView {
            business_name: Seq::empty(),
            street: Seq::empty(),
            city: Seq::empty(),
            state: Seq::empty(),
            postal: Seq::empty(),
            country: Seq::empty(),
            email: Seq::empty(),
            phone: Seq::empty(),
            tax_id: Seq::empty(),
            payment_terms: Seq::empty(),
            default_tax_rate: Seq::empty(),
            payment_instructions: Seq::empty(),
        }
    }

    /// The form filled from the settings.
    pub open spec fn of(settings: InvoiceSettingsView) -> SettingsFormView {
        SettingsFormView {
            business_name: settings.business_name,
            street: settings.address_street,
            city: settings.address_city,
            state: settings.address_state,
            postal: settings.address_postal,
            country: settings.address_country,
            email: settings.email,
            phone: settings.phone,
            tax_id: settings.tax_id,
            payment_terms: settings.default_payment_terms,
            default_tax_rate: percent_text(settings.default_tax_rate),
            payment_instructions: settings.payment_instructions,
        }
    }

    /// The settings that the form describes, the tax rate being given.
    pub open spec fn settings(self, tax_rate: u32) -> InvoiceSettingsView {
        InvoiceSettingsView {
            business_name: self.business_name,
            address_street: self.street,
            address_city: self.city,
            address_state: self.state,
            address_postal: self.postal,
            address_country: self.country,
            email: self.email,
            phone: self.phone,
            tax_id: self.tax_id,
            payment_instructions: self.payment_instructions,
            default_payment_terms: self.payment_terms,
            default_tax_rate: tax_rate,
        }
    }

    /// The buffer of a field.
    pub open spec fn field(self, f: SettingsField) -> Seq<char> {
        match f {
            SettingsField::BusinessName => self.business_name,
            SettingsField::Street => self.street,
            SettingsField::City => self.city,
            SettingsField::State => self.state,
            SettingsField::Postal => self.postal,
            SettingsField::Country => self.country,
            SettingsField::Email => self.email,
            SettingsField::Phone => self.phone,
            SettingsField::TaxId => self.tax_id,
            SettingsField::PaymentTerms => self.payment_terms,
            SettingsField::DefaultTaxRate => self.default_tax_rate,
            SettingsField::PaymentInstructions => self.payment_instructions,
        }
    }

    /// The form with one buffer replaced.
    pub open spec fn with_field(self, f: SettingsField, text: Seq<char>) -> SettingsFormView {
        match f {
            SettingsField::BusinessName => SettingsFormView { business_name: text, ..self },
            SettingsField::Street => SettingsFormView { street: text, ..self },
            SettingsField::City => SettingsFormView { city: text, ..self },
            SettingsField::State => SettingsFormView { state: text, ..self },
            SettingsField::Postal => SettingsFormView { postal: text, ..self },
            SettingsField::Country => SettingsFormView { country: text, ..self },
            SettingsField::Email => SettingsFormView { email: text, ..self },
            SettingsField::Phone => SettingsFormView { phone: text, ..self },
            SettingsField::TaxId => SettingsFormView { tax_id: text, ..self },
            SettingsField::PaymentTerms => SettingsFormView { payment_terms: text, ..self },
            SettingsField::DefaultTaxRate => SettingsFormView { default_tax_rate: text, ..self },
            SettingsField::PaymentInstructions => SettingsFormView {
                payment_instructions: text,
                ..self
            },
        }
    }
}

impl SettingsForm {
    /// A form with empty buffers.
    pub fn new() -> (r: SettingsForm)
        ensures
            r@ == SettingsFormView::empty(),
    {
        SettingsForm {
            business_name: String::new(),
            street: String::new(),
            city: String::new(),
            state: String::new(),
            postal: String::new(),
            country: String::new(),
            email: String::new(),
            phone: String::new(),
            tax_id: String::new(),
            payment_terms: String::new(),
            default_tax_rate: String::new(),
            payment_instructions: String::new(),
        }
    }

    /// The form filled from the settings.
    pub fn from_settings(settings: &InvoiceSettings) -> (r: SettingsForm)
        ensures
            r@ == SettingsFormView::of(settings@),
    {
        SettingsForm {
            business_name: settings.business_name.clone(),
            street: settings.address_street.clone(),
            city: settings.address_city.clone(),
            state: settings.address_state.clone(),
            postal: settings.address_postal.clone(),
            country: settings.address_country.clone(),
            email: settings.email.clone(),
            phone: settings.phone.clone(),
            tax_id: settings.tax_id.clone(),
            payment_terms: settings.default_payment_terms.clone(),
            default_tax_rate: format_percent(settings.default_tax_rate),
            payment_instructions: settings.payment_instructions.clone(),
        }
    }

    /// The settings that the form describes, the tax rate being given.
    pub fn to_settings(&self, tax_rate: u32) -> (r: InvoiceSettings)
        ensures
            r@ == self@.settings(tax_rate),
    {
        InvoiceSettings {
            business_name: self.business_name.clone(),
            address_street: self.street.clone(),
            address_city: self.city.clone(),
            address_state: self.state.clone(),
            address_postal: self.postal.clone(),
            address_country: self.country.clone(),
            email: self.email.clone(),
            phone: self.phone.clone(),
            tax_id: self.tax_id.clone(),
            payment_instructions: self.payment_instructions.clone(),
            default_payment_terms: self.payment_terms.clone(),
            default_tax_rate: tax_rate,
        }
    }

    /// Types `c` into a field.
    pub fn push(&mut self, f: SettingsField, c: char)
        ensures
            final(self)@ == old(self)@.with_field(f, old(self)@.field(f).push(c)),
    {
        match f {
            SettingsField::BusinessName => self.business_name.push(c),
            SettingsField::Street => self.street.push(c),
            SettingsField::City => self.city.push(c),
            SettingsField::State => self.state.push(c),
            SettingsField::Postal => self.postal.push(c),
            SettingsField::Country => self.country.push(c),
            SettingsField::Email => self.email.push(c),
            SettingsField::Phone => self.phone.push(c),
            SettingsField::TaxId => self.tax_id.push(c),
            SettingsField::PaymentTerms => self.payment_terms.push(c),
            SettingsField::DefaultTaxRate => self.default_tax_rate.push(c),
            SettingsField::PaymentInstructions => self.payment_instructions.push(c),
        }
    }

    /// Deletes the last character of a field.
    pub fn pop(&mut self, f: SettingsField)
        ensures
            final(self)@ == old(self)@.with_field(f, without_last(old(self)@.field(f))),
    {
        match f {
            SettingsField::BusinessName => {
                self.business_name.pop();
            },
            SettingsField::Street => {
                self.street.pop();
            },
            SettingsField::City => {
                self.city.pop();
            },
            SettingsField::State => {
                self.state.pop();
            },
            SettingsField::Postal => {
                self.postal.pop();
            },
            SettingsField::Country => {
                self.country.pop();
            },
            SettingsField::Email => {
                self.email.pop();
            },
            SettingsField::Phone => {
                self.phone.pop();
            },
            SettingsField::TaxId => {
                self.tax_id.pop();
            },
            SettingsField::PaymentTerms => {
                self.payment_terms.pop();
            },
            SettingsField::DefaultTaxRate => {
                self.default_tax_rate.pop();
            },
            SettingsField::PaymentInstructions => {
                self.payment_instructions.pop();
            },
        }
    }
}

/// The state of an interactive session.
#[derive(Debug)]
pub struct App {
    pub running_state: RunningState,
    pub current_screen: Screen,
    pub input_mode: InputMode,
    pub show_help: bool,
    pub status_message: Option<String>,
    /// The running entry as last read from the store.
    pub active_entry: Option<Entry>,
    pub project_input: String,
    pub description_input: String,
    pub entries: Vec<Entry>,
    pub selected_entry_index: usize,
    pub show_only_unbilled: bool,
    pub confirm_delete: Option<i64>,
    pub editing_entry: Option<Entry>,
    pub edit_field: EditField,
    pub entry_form: EntryForm,
    pub invoice_mode: InvoiceMode,
    pub invoice_mode_index: usize,
    /// The first instant of a custom invoice range.
    pub custom_start_date: Option<Timestamp>,
    /// The last instant of a custom invoice range, which is included.
    pub custom_end_date: Option<Timestamp>,
    pub selected_entry_ids: Vec<i64>,
    pub invoice_entries: Vec<Entry>,
    pub invoice_select_index: usize,
    pub project_rates: Vec<ProjectRate>,
    pub projects: Vec<Project>,
    pub selected_project_index: usize,
    pub editing_project_rate: Option<i64>,
    pub rate_input: String,
    pub currency_input: String,
    pub pomodoro: Pomodoro,
    pub pomodoro_field: PomodoroField,
    pub pomodoro_form: PomodoroForm,
    pub clients: Vec<Client>,
    pub selected_client_index: usize,
    pub selected_invoice_client: Option<i64>,
    pub editing_client: Option<Client>,
    pub adding_new_client: bool,
    pub confirm_delete_client: Option<i64>,
    pub client_field: ClientField,
    pub client_form: ClientForm,
    pub invoice_settings: InvoiceSettings,
    pub editing_settings: bool,
    pub settings_field: SettingsField,
    pub settings_form: SettingsForm,
}

/// The mathematical content of an [`App`].
pub struct AppView {
    pub running_state: RunningState,
    pub current_screen: Screen,
    pub input_mode: InputMode,
    pub show_help: bool,
    pub status_message: Option<Seq<char>>,
    pub active_entry: Option<EntryView>,
    pub project_input: Seq<char>,
    pub description_input: Seq<char>,
    pub entries: Seq<EntryView>,
    pub selected_entry_index: usize,
    pub show_only_unbilled: bool,
    pub confirm_delete: Option<i64>,
    pub editing_entry: Option<EntryView>,
    pub edit_field: EditField,
    pub entry_form: EntryFormView,
    pub invoice_mode: InvoiceMode,
    pub invoice_mode_index: usize,
    pub custom_start_date: Option<Timestamp>,
    pub custom_end_date: Option<Timestamp>,
    pub selected_entry_ids: Seq<i64>,
    pub invoice_entries: Seq<EntryView>,
    pub invoice_select_index: usize,
    pub project_rates: Seq<ProjectRateView>,
    pub projects: Seq<ProjectView>,
    pub selected_project_index: usize,
    pub editing_project_rate: Option<i64>,
    pub rate_input: Seq<char>,
    pub currency_input: Seq<char>,
    pub pomodoro: PomodoroView,
    pub pomodoro_field: PomodoroField,
    pub pomodoro_form: PomodoroFormView,
    pub clients: Seq<ClientView>,
    pub selected_client_index: usize,
    pub selected_invoice_client: Option<i64>,
    pub editing_client: Option<ClientView>,
    pub adding_new_client: bool,
    pub confirm_delete_client: Option<i64>,
    pub client_field: ClientField,
    pub client_form: ClientFormView,
    pub invoice_settings: InvoiceSettingsView,
    pub editing_settings: bool,
    pub settings_field: SettingsField,
    pub settings_form: SettingsFormView,
}

impl View for App {
    type V = AppView;

    open spec fn view(&self) -> AppView {
        AppView {
            running_state: self.running_state,
            current_screen: self.current_screen,
            input_mode: self.input_mode,
            show_help: self.show_help,
            status_message: self.status_message.deep_view(),
            active_entry: self.active_entry.deep_view(),
            project_input: self.project_input@,
            description_input: self.description_input@,
            entries: self.entries.deep_view(),
            selected_entry_index: self.selected_entry_index,
            show_only_unbilled: self.show_only_unbilled,
            confirm_delete: self.confirm_delete,
            editing_entry: self.editing_entry.deep_view(),
            edit_field: self.edit_field,
            entry_form: self.entry_form@,
            invoice_mode: self.invoice_mode,
            invoice_mode_index: self.invoice_mode_index,
            custom_start_date: self.custom_start_date,
            custom_end_date: self.custom_end_date,
            selected_entry_ids: self.selected_entry_ids@,
            invoice_entries: self.invoice_entries.deep_view(),
            invoice_select_index: self.invoice_select_index,
            project_rates: self.project_rates.deep_view(),
            projects: self.projects.deep_view(),
            selected_project_index: self.selected_project_index,
            editing_project_rate: self.editing_project_rate,
            rate_input: self.rate_input@,
            currency_input: self.currency_input@,
            pomodoro: self.pomodoro@,
            pomodoro_field: self.pomodoro_field,
            pomodoro_form: self.pomodoro_form@,
            clients: self.clients.deep_view(),
            selected_client_index: self.selected_client_index,
            selected_invoice_client: self.selected_invoice_client,
            editing_client: self.editing_client.deep_view(),
            adding_new_client: self.adding_new_client,
            confirm_delete_client: self.confirm_delete_client,
            client_field: self.client_field,
            client_form: self.client_form@,
            invoice_settings: self.invoice_settings@,
            editing_settings: self.editing_settings,
            settings_field: self.settings_field,
            settings_form: self.settings_form@,
        }
    }
}

} // verus!
