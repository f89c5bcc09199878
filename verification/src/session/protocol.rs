//! The protocol between a session and its surroundings.
//!
//! A session neither touches the store nor the screen. For every [`Message`]
//! it first names the [`Request`] that the store has to serve, is then handed
//! the [`Reply`], and finally returns an [`Outcome`]: the message to process
//! next and an [`Effect`] for the surroundings to carry out.

use crate::invoice::{ProjectRate, ProjectRateView, rates_from_projects, rates_of};
use crate::models::{
    Client, ClientView, Entry, EntryView, InvoiceSettings, InvoiceSettingsView, PomodoroConfig,
    Project, ProjectView,
};
use crate::session::state::{InputMode, Screen};
use crate::time::Timestamp;
use vstd::prelude::*;

verus! {

/// Everything that can happen to a session.
#[derive(Debug, Clone, Copy, PartialEq, Eq, Structural)]
pub enum Message {
    SwitchScreen(Screen),
    Quit,
    StartTimer,
    StopTimer,
    UpdateProjectInput(char),
    UpdateDescriptionInput(char),
    DeleteProjectChar,
    DeleteDescriptionChar,
    SelectNextEntry,
    SelectPreviousEntry,
    ToggleBilledFilter,
    DeleteEntry(i64),
    ConfirmDelete,
    CancelDelete,
    MarkEntryBilled(i64),
    UnbillEntry(i64),
    EditEntry(i64),
    EditNextField,
    EditPrevField,
    EditFieldInput(char),
    EditFieldBackspace,
    SaveEditEntry,
    CancelEditEntry,
    NextInvoiceMode,
    PrevInvoiceMode,
    SelectInvoiceMode,
    ToggleEntrySelection(i64),
    NextInvoiceEntry,
    PrevInvoiceEntry,
    GenerateInvoice,
    EnterInputMode(InputMode),
    ExitInputMode,
    ToggleHelp,
    ClearStatus,
    Tick,
    RefreshEntries,
    RefreshActiveTimer,
    RefreshProjects,
    SelectNextProject,
    SelectPreviousProject,
    EditProjectRate(i64),
    UpdateRateInput(char),
    UpdateCurrencyInput(char),
    DeleteRateChar,
    DeleteCurrencyChar,
    SaveProjectRate,
    CancelEditRate,
    ClearProjectRate(i64),
    TogglePomodoroMode,
    AcknowledgePomodoro,
    RefreshPomodoroConfig,
    PomodoroNextField,
    PomodoroPrevField,
    PomodoroFieldInput(char),
    PomodoroFieldBackspace,
    SavePomodoroConfig,
    CancelPomodoroEdit,
    RefreshClients,
    SelectNextClient,
    SelectPreviousClient,
    SelectInvoiceClient(Option<i64>),
    CycleInvoiceClient,
    AddClient,
    EditClient(i64),
    DeleteClient(i64),
    ConfirmDeleteClient,
    CancelDeleteClient,
    ClientNextField,
    ClientPrevField,
    ClientFieldInput(char),
    ClientFieldBackspace,
    SaveClient,
    CancelEditClient,
    EditSettings,
    SettingsNextField,
    SettingsPrevField,
    SettingsFieldInput(char),
    SettingsFieldBackspace,
    SaveSettings,
    CancelEditSettings,
}

/// Where the entries of an invoice come from.
#[derive(Debug)]
pub enum EntrySource {
    /// The billed entries of the store that ended between the two instants,
    /// both included.
    Range(Timestamp, Timestamp),
    /// These entries.
    Listed(Vec<Entry>),
}

/// The mathematical content of an [`EntrySource`].
pub enum EntrySourceView {
    Range(Timestamp, Timestamp),
    Listed(Seq<EntryView>),
}

impl View for EntrySource {
    type V = EntrySourceView;

    open spec fn view(&self) -> EntrySourceView {
        match self {
            EntrySource::Range(start, end) => EntrySourceView::Range(*start, *end),
            EntrySource::Listed(entries) => EntrySourceView::Listed(entries.deep_view()),
        }
    }
}

/// What the session decided about an invoice that is to be generated: the
/// entries, the period printed on it, the rates and the recipient.
#[derive(Debug)]
pub struct InvoicePlan {
    pub source: EntrySource,
    pub year: i32,
    pub month: u32,
    pub rates: Vec<ProjectRate>,
    pub client: Option<Client>,
    pub client_id: Option<i64>,
}

/// The mathematical content of an [`InvoicePlan`].
pub struct InvoicePlanView {
    pub source: EntrySourceView,
    pub year: i32,
    pub month: u32,
    pub rates: Seq<ProjectRateView>,
    pub client: Option<ClientView>,
    pub client_id: Option<i64>,
}

impl View for InvoicePlan {
    type V = InvoicePlanView;

    open spec fn view(&self) -> InvoicePlanView {
        InvoicePlanView {
            source: self.source@,
            year: self.year,
            month: self.month,
            rates: self.rates.deep_view(),
            client: self.client.deep_view(),
            client_id: self.client_id,
        }
    }
}

/// What the surroundings have to do for a message before the session can
/// process it.
#[derive(Debug)]
pub enum Request {
    /// The message needs nothing.
    Nothing,
    /// Insert a running entry for the project, with the description.
    StartTimer(String, String),
    /// End the running entry now.
    StopActiveTimer,
    /// Read the running entry.
    GetActiveEntry,
    /// List the entries, newest first; with a flag, only those whose billed
    /// flag equals it.
    ListEntries(Option<bool>),
    /// Delete the entry with the identity.
    DeleteEntry(i64),
    /// Print the two instants as local dates and times.
    LocalTimes(Timestamp, Option<Timestamp>),
    /// Store the entry after its start and end have been replaced by what the
    /// two texts mean as local dates and times.
    SaveEntry(Entry, String, String),
    /// Set the billed flag of the entry.
    MarkBilled(i64),
    /// Clear the billed flag of the entry.
    UnmarkBilled(i64),
    /// List the projects.
    ListProjects,
    /// List the billed entries and the projects.
    InvoiceData,
    /// Set the rate of the named project, and its currency where one is given.
    SetProjectRate(String, Option<u64>, Option<String>),
    /// Read the Pomodoro configuration.
    GetPomodoroConfig,
    /// List the clients.
    ListClients,
    /// Insert the client.
    AddClient(Client),
    /// Store the client under its identity.
    UpdateClient(Client),
    /// Delete the client with the identity.
    DeleteClient(i64),
    /// Store the invoice settings.
    SetInvoiceSettings(InvoiceSettings),
    /// Render an invoice as planned and record it.
    GenerateInvoice(InvoicePlan),
}

/// The mathematical content of a [`Request`].
pub enum RequestView {
    Nothing,
    StartTimer(Seq<char>, Seq<char>),
    StopActiveTimer,
    GetActiveEntry,
    ListEntries(Option<bool>),
    DeleteEntry(i64),
    LocalTimes(Timestamp, Option<Timestamp>),
    SaveEntry(EntryView, Seq<char>, Seq<char>),
    MarkBilled(i64),
    UnmarkBilled(i64),
    ListProjects,
    InvoiceData,
    SetProjectRate(Seq<char>, Option<u64>, Option<Seq<char>>),
    GetPomodoroConfig,
    ListClients,
    AddClient(ClientView),
    UpdateClient(ClientView),
    DeleteClient(i64),
    SetInvoiceSettings(InvoiceSettingsView),
    GenerateInvoice(InvoicePlanView),
}

impl View for Request {
    type V = RequestView;

    open spec fn view(&self) -> RequestView {
        match self {
            Request::Nothing => RequestView::Nothing,
            Request::StartTimer(project, description) => RequestView::StartTimer(
                project@,
                description@,
            ),
            Request::StopActiveTimer => RequestView::StopActiveTimer,
            Request::GetActiveEntry => RequestView::GetActiveEntry,
            Request::ListEntries(billed) => RequestView::ListEntries(*billed),
            Request::DeleteEntry(id) => RequestView::DeleteEntry(*id),
            Request::LocalTimes(start, end) => RequestView::LocalTimes(*start, *end),
            Request::SaveEntry(entry, start, end) => RequestView::SaveEntry(entry@, start@, end@),
            Request::MarkBilled(id) => RequestView::MarkBilled(*id),
            Request::UnmarkBilled(id) => RequestView::UnmarkBilled(*id),
            Request::ListProjects => RequestView::ListProjects,
            Request::InvoiceData => RequestView::InvoiceData,
            Request::SetProjectRate(name, rate, currency) => RequestView::SetProjectRate(
                name@,
                *rate,
                currency.deep_view(),
            ),
            Request::GetPomodoroConfig => RequestView::GetPomodoroConfig,
            Request::ListClients => RequestView::ListClients,
            Request::AddClient(client) => RequestView::AddClient(client@),
            Request::UpdateClient(client) => RequestView::UpdateClient(client@),
            Request::DeleteClient(id) => RequestView::DeleteClient(*id),
            Request::SetInvoiceSettings(settings) => RequestView::SetInvoiceSettings(settings@),
            Request::GenerateInvoice(plan) => RequestView::GenerateInvoice(plan@),
        }
    }
}

/// What the surroundings hand back for a [`Request`].
#[derive(Debug)]
pub enum Reply {
    /// Nothing was asked.
    Nothing,
    /// The store did what was asked.
    Done,
    /// The store reported a failure.
    Failed,
    /// The running entry, if there is one.
    ActiveEntry(Option<Entry>),
    /// The entries asked for.
    Entries(Vec<Entry>),
    /// The projects.
    Projects(Vec<Project>),
    /// The billed entries, and the projects where they could be read.
    InvoiceData(Vec<Entry>, Option<Vec<Project>>),
    /// The Pomodoro configuration.
    PomodoroConfig(PomodoroConfig),
    /// The clients.
    Clients(Vec<Client>),
    /// The start and the end of an entry as local dates and times.
    LocalTimes(String, String),
    /// The invoice with the number was written to the path and recorded.
    InvoiceWritten(i64, String),
    /// The invoice could not be written, for the reason given.
    InvoiceFailed(String),
}

/// The mathematical content of a [`Reply`].
pub enum ReplyView {
    Nothing,
    Done,
    Failed,
    ActiveEntry(Option<EntryView>),
    Entries(Seq<EntryView>),
    Projects(Seq<ProjectView>),
    InvoiceData(Seq<EntryView>, Option<Seq<ProjectView>>),
    PomodoroConfig(PomodoroConfig),
    Clients(Seq<ClientView>),
    LocalTimes(Seq<char>, Seq<char>),
    InvoiceWritten(i64, Seq<char>),
    InvoiceFailed(Seq<char>),
}

impl View for Reply {
    type V = ReplyView;

    open spec fn view(&self) -> ReplyView {
        match self {
            Reply::Nothing => ReplyView::Nothing,
            Reply::Done => ReplyView::Done,
            Reply::Failed => ReplyView::Failed,
            Reply::ActiveEntry(entry) => ReplyView::ActiveEntry(entry.deep_view()),
            Reply::Entries(entries) => ReplyView::Entries(entries.deep_view()),
            Reply::Projects(projects) => ReplyView::Projects(projects.deep_view()),
            Reply::InvoiceData(entries, projects) => ReplyView::InvoiceData(
                entries.deep_view(),
                projects.deep_view(),
            ),
            Reply::PomodoroConfig(config) => ReplyView::PomodoroConfig(*config),
            Reply::Clients(clients) => ReplyView::Clients(clients.deep_view()),
            Reply::LocalTimes(start, end) => ReplyView::LocalTimes(start@, end@),
            Reply::InvoiceWritten(number, path) => ReplyView::InvoiceWritten(*number, path@),
            Reply::InvoiceFailed(error) => ReplyView::InvoiceFailed(error@),
        }
    }
}

impl ReplyView {
    /// The store did what was asked.
    pub open spec fn succeeded(self) -> bool {
        self is Done
    }

    /// The running entry that the reply reports; none where it reports
    /// something else.
    pub open spec fn active_entry(self) -> Option<EntryView> {
        match self {
            ReplyView::ActiveEntry(entry) => entry,
            _ => None,
        }
    }

    /// The entries that the reply lists; none where it reports something
    /// else.
    pub open spec fn entries(self) -> Seq<EntryView> {
        match self {
            ReplyView::Entries(entries) => entries,
            _ => Seq::empty(),
        }
    }

    /// The projects that the reply lists; none where it reports something
    /// else.
    pub open spec fn projects(self) -> Seq<ProjectView> {
        match self {
            ReplyView::Projects(projects) => projects,
            _ => Seq::empty(),
        }
    }

    /// The clients that the reply lists; none where it reports something
    /// else.
    pub open spec fn clients(self) -> Seq<ClientView> {
        match self {
            ReplyView::Clients(clients) => clients,
            _ => Seq::empty(),
        }
    }

    /// The Pomodoro configuration that the reply reports; the initial one
    /// where it reports something else.
    pub open spec fn pomodoro_config(self) -> PomodoroConfig {
        match self {
            ReplyView::PomodoroConfig(config) => config,
            _ => PomodoroConfig::initial(),
        }
    }

    /// The billed entries of an invoice-data reply; none for any other.
    pub open spec fn invoice_entries(self) -> Seq<EntryView> {
        match self {
            ReplyView::InvoiceData(entries, _) => entries,
            _ => Seq::empty(),
        }
    }

    /// The rate table of the projects in an invoice-data reply; empty where
    /// the projects are missing.
    pub open spec fn invoice_rates(self) -> Seq<ProjectRateView> {
        match self {
            ReplyView::InvoiceData(_, Some(projects)) => rates_of(projects),
            _ => Seq::empty(),
        }
    }

    /// The local text of an entry's start; empty for any other reply.
    pub open spec fn local_start(self) -> Seq<char> {
        match self {
            ReplyView::LocalTimes(start, _) => start,
            _ => Seq::empty(),
        }
    }

    /// The local text of an entry's end; empty for any other reply.
    pub open spec fn local_end(self) -> Seq<char> {
        match self {
            ReplyView::LocalTimes(_, end) => end,
            _ => Seq::empty(),
        }
    }
}

impl Reply {
    /// Whether the store did what was asked.
    pub fn succeeded(&self) -> (r: bool)
        ensures
            r == self@.succeeded(),
    {
        match self {
            Reply::Done => true,
            _ => false,
        }
    }

    /// The running entry that the reply reports.
    pub fn into_active_entry(self) -> (r: Option<Entry>)
        ensures
            r.deep_view() == self@.active_entry(),
    {
        match self {
            Reply::ActiveEntry(entry) => entry,
            _ => None,
        }
    }

    /// The entries that the reply lists.
    pub fn into_entries(self) -> (r: Vec<Entry>)
        ensures
            r.deep_view() == self@.entries(),
    {
        match self {
            Reply::Entries(entries) => entries,
            _ => {
                let none: Vec<Entry> = Vec::new();
                proof {
                    assert(none.deep_view() =~= Seq::<EntryView>::empty());
                }
                none
            },
        }
    }

    /// The projects that the reply lists.
    pub fn into_projects(self) -> (r: Vec<Project>)
        ensures
            r.deep_view() == self@.projects(),
    {
        match self {
            Reply::Projects(projects) => projects,
            _ => {
                let none: Vec<Project> = Vec::new();
                proof {
                    assert(none.deep_view() =~= Seq::<ProjectView>::empty());
                }
                none
            },
        }
    }

    /// The clients that the reply lists.
    pub fn into_clients(self) -> (r: Vec<Client>)
        ensures
            r.deep_view() == self@.clients(),
    {
        match self {
            Reply::Clients(clients) => clients,
            _ => {
                let none: Vec<Client> = Vec::new();
                proof {
                    assert(none.deep_view() =~= Seq::<ClientView>::empty());
                }
                none
            },
        }
    }

    /// The Pomodoro configuration that the reply reports.
    pub fn pomodoro_config(&self) -> (r: PomodoroConfig)
        ensures
            r == self@.pomodoro_config(),
    {
        match self {
            Reply::PomodoroConfig(config) => *config,
            _ => PomodoroConfig::default(),
        }
    }

    /// The billed entries and the rate table of an invoice-data reply.
    pub fn into_invoice_data(self) -> (r: (Vec<Entry>, Vec<ProjectRate>))
        ensures
            r.0.deep_view() == self@.invoice_entries(),
            r.1.deep_view() == self@.invoice_rates(),
    {
        match self {
            Reply::InvoiceData(entries, projects) => {
                let rates = match projects {
                    Some(list) => rates_from_projects(&list),
                    None => {
                        let none: Vec<ProjectRate> = Vec::new();
                        proof {
                            assert(none.deep_view() =~= Seq::<ProjectRateView>::empty());
                        }
                        none
                    },
                };
                (entries, rates)
            },
            _ => {
                let no_entries: Vec<Entry> = Vec::new();
                let no_rates: Vec<ProjectRate> = Vec::new();
                proof {
                    assert(no_entries.deep_view() =~= Seq::<EntryView>::empty());
                    assert(no_rates.deep_view() =~= Seq::<ProjectRateView>::empty());
                }
                (no_entries, no_rates)
            },
        }
    }

    /// The local texts of an entry's start and end.
    pub fn into_local_times(self) -> (r: (String, String))
        ensures
            r.0@ == self@.local_start(),
            r.1@ == self@.local_end(),
    {
        match self {
            Reply::LocalTimes(start, end) => (start, end),
            _ => (String::new(), String::new()),
        }
    }
}

/// What the surroundings have to carry out after a message was processed.
/// Nothing comes back to the session from it.
#[derive(Debug, Clone, Copy, PartialEq, Eq, Structural)]
pub enum Effect {
    /// Nothing.
    Nothing,
    /// A work interval expired: end the running entry in the store, then tell
    /// the operator that work is complete.
    WorkComplete,
    /// A break expired: tell the operator that the break is complete.
    BreakComplete,
    /// Store whether Pomodoro mode is on.
    SavePomodoroEnabled(bool),
    /// Store the Pomodoro configuration.
    SavePomodoroConfig(PomodoroConfig),
}

/// What processing a message led to.
#[derive(Debug, Clone, Copy, PartialEq, Eq, Structural)]
pub struct Outcome {
    /// The message to process next, before anything is drawn.
    pub next: Option<Message>,
    /// What the surroundings have to carry out.
    pub effect: Effect,
}

impl Outcome {
    /// No follow-up and no effect.
    pub open spec fn nothing() -> Outcome {
        Outcome { next: None, effect: Effect::Nothing }
    }

    /// A follow-up message and no effect.
    pub open spec fn followed_by(next: Message) -> Outcome {
        Outcome { next: Some(next), effect: Effect::Nothing }
    }

    /// An effect and no follow-up.
    pub open spec fn with(effect: Effect) -> Outcome {
        Outcome { next: None, effect }
    }

    /// No follow-up and no effect.
    pub fn none() -> (r: Outcome)
        ensures
            r == Outcome::nothing(),
    {
        Outcome { next: None, effect: Effect::Nothing }
    }

    /// A follow-up message and no effect.
    pub fn follow_up(next: Message) -> (r: Outcome)
        ensures
            r == Outcome::followed_by(next),
    {
        Outcome { next: Some(next), effect: Effect::Nothing }
    }

    /// An effect and no follow-up.
    pub fn effect(effect: Effect) -> (r: Outcome)
        ensures
            r == Outcome::with(effect),
    {
        Outcome { next: None, effect }
    }
}

} // verus!
