//! The records the tracker keeps: time entries, projects, clients, the
//! Pomodoro configuration, the issuer's invoice settings and issued invoices.
//!
//! Money and rates are held as whole numbers: hourly rates in hundredths of a
//! currency unit, tax rates in hundredths of a percent, invoice amounts in
//! [`crate::invoice::UNITS_PER_CURRENCY`]-ths of a currency unit.

use crate::text::{hundredths_text, push_hundredths, push_signed, push_text, signed_decimal};
use crate::time::Timestamp;
use vstd::prelude::*;
use vstd::string::*;

verus! {

/// A single work interval against a project. An entry without an end is
/// running.
#[derive(Debug)]
pub struct Entry {
    pub id: i64,
    pub project: String,
    pub description: String,
    pub start: Timestamp,
    pub end: Option<Timestamp>,
    pub billed: bool,
}

/// The mathematical content of an [`Entry`].
pub struct EntryView {
    pub id: i64,
    pub project: Seq<char>,
    pub description: Seq<char>,
    pub start: Timestamp,
    pub end: Option<Timestamp>,
    pub billed: bool,
}

impl EntryView {
    /// The entry has no end yet.
    pub open spec fn is_running(self) -> bool {
        self.end.is_none()
    }

    /// Whole seconds worked, for an entry that has ended.
    pub open spec fn seconds(self) -> Option<int> {
        match self.end {
            Some(end) => Some(end.spec_seconds_since(self.start)),
            None => None,
        }
    }

    /// Both instants are valid and the entry does not end before it starts.
    pub open spec fn wf(self) -> bool {
        &&& self.start.wf()
        &&& match self.end {
            Some(end) => end.wf() && self.start.spec_le(end),
            None => true,
        }
    }
}

impl View for Entry {
    type V = EntryView;

    open spec fn view(&self) -> EntryView {
        EntryView {
            id: self.id,
            project: self.project@,
            description: self.description@,
            start: self.start,
            end: self.end,
            billed: self.billed,
        }
    }
}

impl DeepView for Entry {
    type V = EntryView;

    open spec fn deep_view(&self) -> EntryView {
        self@
    }
}

impl Clone for Entry {
    fn clone(&self) -> (res: Self)
        ensures
            res == *self,
    {
        Entry {
            id: self.id,
            project: self.project.clone(),
            description: self.description.clone(),
            start: self.start,
            end: self.end,
            billed: self.billed,
        }
    }
}

/// Seconds in an hour.
pub const SECS_PER_HOUR: i64 = 3600;

impl EntryView {
    /// An entry that was worked on for the last `hours` whole hours before
    /// `now` and is not stored yet (identity 0), where its start is
    /// representable.
    pub open spec fn backdated(
        project: Seq<char>,
        description: Seq<char>,
        hours: int,
        now: Timestamp,
    ) -> Option<EntryView> {
        match now.spec_checked_add_secs(-(hours * SECS_PER_HOUR)) {
            Some(start) => Some(
                EntryView { id: 0, project, description, start, end: Some(now), billed: false },
            ),
            None => None,
        }
    }
}

impl Entry {
    /// An entry for work of the last `hours` whole hours, ending at `now`;
    /// `None` where its start is not representable.
    pub fn backdated(project: String, description: String, hours: i64, now: &Timestamp) -> (r:
        Option<Entry>)
        ensures
            r.deep_view() == EntryView::backdated(project@, description@, hours as int, *now),
    {
        if hours > 5_000_000_000 || hours < -5_000_000_000 {
            proof {
                use_type_invariant(now);
            }
            return None;
        }
        match now.checked_add_secs(-(hours * SECS_PER_HOUR)) {
            Some(start) => Some(
                Entry { id: 0, project, description, start, end: Some(*now), billed: false },
            ),
            None => None,
        }
    }

    /// Whether the entry has no end yet.
    pub fn is_running(&self) -> (r: bool)
        ensures
            r == self@.is_running(),
    {
        self.end.is_none()
    }

    /// Whole seconds from start to end, truncated toward zero; `None` for a
    /// running entry.
    pub fn seconds(&self) -> (r: Option<i64>)
        ensures
            r.is_some() == self@.seconds().is_some(),
            r.is_some() ==> r.unwrap() == self@.seconds().unwrap(),
    {
        match &self.end {
            Some(end) => Some(end.seconds_since(&self.start)),
            None => None,
        }
    }

    /// Whether the entry ends no earlier than it starts (a running entry
    /// always does).
    pub fn ends_after_start(&self) -> (r: bool)
        ensures
            r == self@.wf(),
    {
        proof {
            use_type_invariant(&self.start);
        }
        match &self.end {
            Some(end) => {
                proof {
                    use_type_invariant(end);
                }
                self.start.le(end)
            },
            None => true,
        }
    }
}

/// A project that entries are booked on, with its optional hourly rate in
/// hundredths of a currency unit.
#[derive(Debug)]
pub struct Project {
    pub id: i64,
    pub name: String,
    pub rate: Option<u64>,
    pub currency: Option<String>,
}

/// The mathematical content of a [`Project`].
pub struct ProjectView {
    pub id: i64,
    pub name: Seq<char>,
    pub rate: Option<u64>,
    pub currency: Option<Seq<char>>,
}

impl ProjectView {
    /// The rate as shown to the operator, such as `$150.00/hr`; `None` for a
    /// project without a rate. A project without a currency shows `$`.
    pub open spec fn formatted_rate(self) -> Option<Seq<char>> {
        match self.rate {
            Some(rate) => {
                let symbol = match self.currency {
                    Some(c) => c,
                    None => "$"@,
                };
                Some(symbol + hundredths_text(rate as nat) + "/hr"@)
            },
            None => None,
        }
    }
}

impl View for Project {
    type V = ProjectView;

    open spec fn view(&self) -> ProjectView {
        ProjectView {
            id: self.id,
            name: self.name@,
            rate: self.rate,
            currency: self.currency.deep_view(),
        }
    }
}

impl DeepView for Project {
    type V = ProjectView;

    open spec fn deep_view(&self) -> ProjectView {
        self@
    }
}

/// A copy of an optional text.
pub fn clone_text_option(text: &Option<String>) -> (res: Option<String>)
    ensures
        res == *text,
{
    match text {
        Some(s) => Some(s.clone()),
        None => None,
    }
}

impl Clone for Project {
    fn clone(&self) -> (res: Self)
        ensures
            res == *self,
    {
        Project {
            id: self.id,
            name: self.name.clone(),
            rate: self.rate,
            currency: clone_text_option(&self.currency),
        }
    }
}

impl Project {
    /// The rate with its currency for display, such as `$150.00/hr`.
    pub fn formatted_rate(&self) -> (r: Option<String>)
        ensures
            r.deep_view() == self@.formatted_rate(),
    {
        match self.rate {
            Some(rate) => {
                let mut out = match &self.currency {
                    Some(c) => c.clone(),
                    None => "$".to_string(),
                };
                push_hundredths(&mut out, rate);
                push_text(&mut out, "/hr");
                Some(out)
            },
            None => None,
        }
    }
}

/// Pomodoro timer configuration; durations are in minutes.
#[derive(Debug, Clone, Copy, PartialEq, Eq, Structural)]
pub struct PomodoroConfig {
    pub enabled: bool,
    pub work_duration: i32,
    pub short_break: i32,
    pub long_break: i32,
    pub cycles_before_long: i32,
}

impl PomodoroConfig {
    /// The configuration of a fresh database: disabled, 45 minutes of work,
    /// breaks of 15 and 60 minutes, a long break every fourth cycle.
    pub open spec fn initial() -> PomodoroConfig {
        PomodoroConfig {
            enabled: false,
            work_duration: 45,
            short_break: 15,
            long_break: 60,
            cycles_before_long: 4,
        }
    }

    /// The one-line summary of the configuration.
    pub open spec fn status_text(self) -> Seq<char> {
        if self.enabled {
            "ON ("@ + signed_decimal(self.work_duration as int) + "m work, "@ + signed_decimal(
                self.short_break as int,
            ) + "m short break, "@ + signed_decimal(self.long_break as int)
                + "m long break after "@ + signed_decimal(self.cycles_before_long as int)
                + " cycles)"@
        } else {
            "OFF"@
        }
    }

    /// Formats the configuration for display.
    pub fn format_status(&self) -> (r: String)
        ensures
            r@ == self.status_text(),
    {
        if self.enabled {
            let mut out = "ON (".to_string();
            push_signed(&mut out, self.work_duration as i64);
            push_text(&mut out, "m work, ");
            push_signed(&mut out, self.short_break as i64);
            push_text(&mut out, "m short break, ");
            push_signed(&mut out, self.long_break as i64);
            push_text(&mut out, "m long break after ");
            push_signed(&mut out, self.cycles_before_long as i64);
            push_text(&mut out, " cycles)");
            out
        } else {
            "OFF".to_string()
        }
    }
}

impl Default for PomodoroConfig {
    fn default() -> (r: Self)
        ensures
            r == PomodoroConfig::initial(),
    {
        PomodoroConfig {
            enabled: false,
            work_duration: 45,
            short_break: 15,
            long_break: 60,
            cycles_before_long: 4,
        }
    }
}

/// `a` and `b` with `sep` between them, where both have text; otherwise the
/// one that has, or nothing.
pub open spec fn join_nonempty(a: Seq<char>, b: Seq<char>, sep: Seq<char>) -> Seq<char> {
    if a.len() == 0 {
        b
    } else if b.len() == 0 {
        a
    } else {
        a + sep + b
    }
}

/// A postal address on up to three lines: the street; city, state and postal
/// code separated by commas; the country. Empty parts are left out together
/// with their separators.
pub open spec fn address_text(
    street: Seq<char>,
    city: Seq<char>,
    state: Seq<char>,
    postal: Seq<char>,
    country: Seq<char>,
) -> Seq<char> {
    let locality = join_nonempty(join_nonempty(city, state, ", "@), postal, ", "@);
    join_nonempty(join_nonempty(street, locality, "\n"@), country, "\n"@)
}

/// Joins two texts as [`join_nonempty`] describes.
pub fn join_texts(a: &str, b: &str, sep: &str) -> (r: String)
    ensures
        r@ == join_nonempty(a@, b@, sep@),
{
    if a.unicode_len() == 0 {
        b.to_string()
    } else if b.unicode_len() == 0 {
        a.to_string()
    } else {
        let mut out = a.to_string();
        push_text(&mut out, sep);
        push_text(&mut out, b);
        out
    }
}

/// Lays out a postal address as [`address_text`] describes.
pub fn format_address(street: &str, city: &str, state: &str, postal: &str, country: &str) -> (r:
    String)
    ensures
        r@ == address_text(street@, city@, state@, postal@, country@),
{
    let city_state = join_texts(city, state, ", ");
    let locality = join_texts(city_state.as_str(), postal, ", ");
    let upper = join_texts(street, locality.as_str(), "\n");
    join_texts(upper.as_str(), country, "\n")
}

/// The issuer's details printed on invoices, and the defaults for new
/// invoices. The tax rate is in hundredths of a percent.
#[derive(Debug)]
pub struct InvoiceSettings {
    pub business_name: String,
    pub address_street: String,
    pub address_city: String,
    pub address_state: String,
    pub address_postal: String,
    pub address_country: String,
    pub email: String,
    pub phone: String,
    pub tax_id: String,
    pub payment_instructions: String,
    pub default_payment_terms: String,
    pub default_tax_rate: u32,
}

/// The mathematical content of [`InvoiceSettings`].
pub struct InvoiceSettingsView {
    pub business_name: Seq<char>,
    pub address_street: Seq<char>,
    pub address_city: Seq<char>,
    pub address_state: Seq<char>,
    pub address_postal: Seq<char>,
    pub address_country: Seq<char>,
    pub email: Seq<char>,
    pub phone: Seq<char>,
    pub tax_id: Seq<char>,
    pub payment_instructions: Seq<char>,
    pub default_payment_terms: Seq<char>,
    pub default_tax_rate: u32,
}

impl InvoiceSettingsView {
    /// Settings with every text empty and no tax.
    pub open spec fn empty() -> InvoiceSettingsView {
        InvoiceSettingsView {
            business_name: Seq::empty(),
            address_street: Seq::empty(),
            address_city: Seq::empty(),
            address_state: Seq::empty(),
            address_postal: Seq::empty(),
            address_country: Seq::empty(),
            email: Seq::empty(),
            phone: Seq::empty(),
            tax_id: Seq::empty(),
            payment_instructions: Seq::empty(),
            default_payment_terms: Seq::empty(),
            default_tax_rate: 0,
        }
    }

    /// The issuer's postal address, laid out for printing.
    pub open spec fn formatted_address(self) -> Seq<char> {
        address_text(
            self.address_street,
            self.address_city,
            self.address_state,
            self.address_postal,
            self.address_country,
        )
    }
}

impl View for InvoiceSettings {
    type V = InvoiceSettingsView;

    open spec fn view(&self) -> InvoiceSettingsView {
        InvoiceSettingsView {
            business_name: self.business_name@,
            address_street: self.address_street@,
            address_city: self.address_city@,
            address_state: self.address_state@,
            address_postal: self.address_postal@,
            address_country: self.address_country@,
            email: self.email@,
            phone: self.phone@,
            tax_id: self.tax_id@,
            payment_instructions: self.payment_instructions@,
            default_payment_terms: self.default_payment_terms@,
            default_tax_rate: self.default_tax_rate,
        }
    }
}

impl DeepView for InvoiceSettings {
    type V = InvoiceSettingsView;

    open spec fn deep_view(&self) -> InvoiceSettingsView {
        self@
    }
}

impl Clone for InvoiceSettings {
    fn clone(&self) -> (res: Self)
        ensures
            res == *self,
    {
        InvoiceSettings {
            business_name: self.business_name.clone(),
            address_street: self.address_street.clone(),
            address_city: self.address_city.clone(),
            address_state: self.address_state.clone(),
            address_postal: self.address_postal.clone(),
            address_country: self.address_country.clone(),
            email: self.email.clone(),
            phone: self.phone.clone(),
            tax_id: self.tax_id.clone(),
            payment_instructions: self.payment_instructions.clone(),
            default_payment_terms: self.default_payment_terms.clone(),
            default_tax_rate: self.default_tax_rate,
        }
    }
}

impl Default for InvoiceSettings {
    fn default() -> (r: Self)
        ensures
            r@ == InvoiceSettingsView::empty(),
    {
        InvoiceSettings {
            business_name: String::new(),
            address_street: String::new(),
            address_city: String::new(),
            address_state: String::new(),
            address_postal: String::new(),
            address_country: String::new(),
            email: String::new(),
            phone: String::new(),
            tax_id: String::new(),
            payment_instructions: String::new(),
            default_payment_terms: String::new(),
            default_tax_rate: 0,
        }
    }
}

impl InvoiceSettings {
    /// The issuer's postal address, laid out for printing.
    pub fn formatted_address(&self) -> (r: String)
        ensures
            r@ == self@.formatted_address(),
    {
        format_address(
            self.address_street.as_str(),
            self.address_city.as_str(),
            self.address_state.as_str(),
            self.address_postal.as_str(),
            self.address_country.as_str(),
        )
    }
}

/// A recipient of invoices.
#[derive(Debug)]
pub struct Client {
    pub id: i64,
    pub name: String,
    pub contact_person: String,
    pub address_street: String,
    pub address_city: String,
    pub address_state: String,
    pub address_postal: String,
    pub address_country: String,
    pub email: String,
}

/// The mathematical content of a [`Client`].
pub struct ClientView {
    pub id: i64,
    pub name: Seq<char>,
    pub contact_person: Seq<char>,
    pub address_street: Seq<char>,
    pub address_city: Seq<char>,
    pub address_state: Seq<char>,
    pub address_postal: Seq<char>,
    pub address_country: Seq<char>,
    pub email: Seq<char>,
}

impl ClientView {
    /// A client that has not been stored: identity 0 and every text empty.
    pub open spec fn empty() -> ClientView {
        ClientView {
            id: 0,
            name: Seq::empty(),
            contact_person: Seq::empty(),
            address_street: Seq::empty(),
            address_city: Seq::empty(),
            address_state: Seq::empty(),
            address_postal: Seq::empty(),
            address_country: Seq::empty(),
            email: Seq::empty(),
        }
    }

    /// The client's postal address, laid out for printing.
    pub open spec fn formatted_address(self) -> Seq<char> {
        address_text(
            self.address_street,
            self.address_city,
            self.address_state,
            self.address_postal,
            self.address_country,
        )
    }
}

impl View for Client {
    type V = ClientView;

    open spec fn view(&self) -> ClientView {
        ClientView {
            id: self.id,
            name: self.name@,
            contact_person: self.contact_person@,
            address_street: self.address_street@,
            address_city: self.address_city@,
            address_state: self.address_state@,
            address_postal: self.address_postal@,
            address_country: self.address_country@,
            email: self.email@,
        }
    }
}

impl DeepView for Client {
    type V = ClientView;

    open spec fn deep_view(&self) -> ClientView {
        self@
    }
}

impl Clone for Client {
    fn clone(&self) -> (res: Self)
        ensures
            res == *self,
    {
        Client {
            id: self.id,
            name: self.name.clone(),
            contact_person: self.contact_person.clone(),
            address_street: self.address_street.clone(),
            address_city: self.address_city.clone(),
            address_state: self.address_state.clone(),
            address_postal: self.address_postal.clone(),
            address_country: self.address_country.clone(),
            email: self.email.clone(),
        }
    }
}

impl Default for Client {
    fn default() -> (r: Self)
        ensures
            r@ == ClientView::empty(),
    {
        Client {
            id: 0,
            name: String::new(),
            contact_person: String::new(),
            address_street: String::new(),
            address_city: String::new(),
            address_state: String::new(),
            address_postal: String::new(),
            address_country: String::new(),
            email: String::new(),
        }
    }
}

impl Client {
    /// The client's postal address, laid out for printing.
    pub fn formatted_address(&self) -> (r: String)
        ensures
            r@ == self@.formatted_address(),
    {
        format_address(
            self.address_street.as_str(),
            self.address_city.as_str(),
            self.address_state.as_str(),
            self.address_postal.as_str(),
            self.address_country.as_str(),
        )
    }
}

/// The record of an issued invoice. Amounts are in
/// [`crate::invoice::UNITS_PER_CURRENCY`]-ths of a currency unit, the tax rate
/// in hundredths of a percent.
#[derive(Debug)]
pub struct Invoice {
    pub id: i64,
    pub invoice_number: i64,
    pub client_id: Option<i64>,
    pub date_issued: String,
    pub due_date: String,
    pub subtotal: u128,
    pub tax_rate: u32,
    pub tax_amount: u128,
    pub total: u128,
    pub file_path: String,
}

/// The mathematical content of an [`Invoice`].
pub struct InvoiceView {
    pub id: i64,
    pub invoice_number: i64,
    pub client_id: Option<i64>,
    pub date_issued: Seq<char>,
    pub due_date: Seq<char>,
    pub subtotal: u128,
    pub tax_rate: u32,
    pub tax_amount: u128,
    pub total: u128,
    pub file_path: Seq<char>,
}

impl View for Invoice {
    type V = InvoiceView;

    open spec fn view(&self) -> InvoiceView {
        InvoiceView {
            id: self.id,
            invoice_number: self.invoice_number,
            client_id: self.client_id,
            date_issued: self.date_issued@,
            due_date: self.due_date@,
            subtotal: self.subtotal,
            tax_rate: self.tax_rate,
            tax_amount: self.tax_amount,
            total: self.total,
            file_path: self.file_path@,
        }
    }
}

impl DeepView for Invoice {
    type V = InvoiceView;

    open spec fn deep_view(&self) -> InvoiceView {
        self@
    }
}

impl Clone for Invoice {
    fn clone(&self) -> (res: Self)
        ensures
            res == *self,
    {
        Invoice {
            id: self.id,
            invoice_number: self.invoice_number,
            client_id: self.client_id,
            date_issued: self.date_issued.clone(),
            due_date: self.due_date.clone(),
            subtotal: self.subtotal,
            tax_rate: self.tax_rate,
            tax_amount: self.tax_amount,
            total: self.total,
            file_path: self.file_path.clone(),
        }
    }
}

} // verus!
