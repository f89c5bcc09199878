//! The session's transition function: which request a message needs, and what
//! the message does to the session once the request was answered.

use crate::models::{Client, ClientView, Entry, EntryView, InvoiceSettings, InvoiceSettingsView,
    PomodoroConfig};
use crate::pomodoro::{Pomodoro, PomodoroView};
use crate::session::lookup::{entry_with_id, find_entry, find_project, project_with_id};
use crate::session::protocol::{Message, Outcome, Reply, ReplyView, Request, RequestView};
use crate::session::state::{
    App, AppView, ClientField, ClientForm, ClientFormView, EditField, EntryForm, EntryFormView,
    InputMode, InvoiceMode, PomodoroField, PomodoroForm, PomodoroFormView, RunningState, Screen,
    SettingsField, SettingsForm, SettingsFormView,
};
use crate::text::{hundredths_u64_value, parse_hundredths};
use crate::time::{Timestamp, clock_reading, shows_minute_of, write_local_minute};
use vstd::prelude::*;

verus! {

/// What a session reads from the store when it opens.
#[derive(Debug)]
pub struct Snapshot {
    /// All entries, newest first.
    pub entries: Vec<Entry>,
    /// The running entry, if there is one.
    pub active_entry: Option<Entry>,
    pub pomodoro_config: PomodoroConfig,
    pub clients: Vec<Client>,
    pub invoice_settings: InvoiceSettings,
}

/// The mathematical content of a [`Snapshot`].
pub struct SnapshotView {
    pub entries: Seq<EntryView>,
    pub active_entry: Option<EntryView>,
    pub pomodoro_config: PomodoroConfig,
    pub clients: Seq<ClientView>,
    pub invoice_settings: InvoiceSettingsView,
}

impl View for Snapshot {
    type V = SnapshotView;

    open spec fn view(&self) -> SnapshotView {
        SnapshotView {
            entries: self.entries.deep_view(),
            active_entry: self.active_entry.deep_view(),
            pomodoro_config: self.pomodoro_config,
            clients: self.clients.deep_view(),
            invoice_settings: self.invoice_settings@,
        }
    }
}

impl AppView {
    /// A session that has read nothing yet: the timer screen, empty lists
    /// and forms, the initial Pomodoro configuration.
    pub open spec fn blank() -> AppView {
        AppView {
            running_state: RunningState::Running,
            current_screen: Screen::Timer,
            input_mode: InputMode::Normal,
            show_help: false,
            status_message: None,
            active_entry: None,
            project_input: Seq::empty(),
            description_input: Seq::empty(),
            entries: Seq::empty(),
            selected_entry_index: 0,
            show_only_unbilled: false,
            confirm_delete: None,
            editing_entry: None,
            edit_field: EditField::Project,
            entry_form: EntryFormView::empty(),
            invoice_mode: InvoiceMode::CurrentMonth,
            invoice_mode_index: 0,
            custom_start_date: None,
            custom_end_date: None,
            selected_entry_ids: Seq::empty(),
            invoice_entries: Seq::empty(),
            invoice_select_index: 0,
            project_rates: Seq::empty(),
            projects: Seq::empty(),
            selected_project_index: 0,
            editing_project_rate: None,
            rate_input: Seq::empty(),
            currency_input: Seq::empty(),
            pomodoro: PomodoroView::idle(PomodoroConfig::initial()),
            pomodoro_field: PomodoroField::Enabled,
            pomodoro_form: PomodoroFormView::empty(),
            clients: Seq::empty(),
            selected_client_index: 0,
            selected_invoice_client: None,
            editing_client: None,
            adding_new_client: false,
            confirm_delete_client: None,
            client_field: ClientField::Name,
            client_form: ClientFormView::empty(),
            invoice_settings: InvoiceSettingsView::empty(),
            editing_settings: false,
            settings_field: SettingsField::BusinessName,
            settings_form: SettingsFormView::empty(),
        }
    }

    /// The session that opens on a store with the given content. The
    /// Pomodoro scheduler is at rest whatever runs in the store: an interval
    /// that ran when an earlier session ended is not taken up again.
    pub open spec fn opened(snapshot: SnapshotView) -> AppView {
        AppView {
            description_input: "Work session"@,
            entries: snapshot.entries,
            active_entry: snapshot.active_entry,
            pomodoro: PomodoroView::idle(snapshot.pomodoro_config),
            clients: snapshot.clients,
            invoice_settings: snapshot.invoice_settings,
            ..AppView::blank()
        }
    }

    /// What the surroundings have to do for `msg` at `now`, before the
    /// session processes it. Messages that only concern the session itself,
    /// and messages whose preconditions do not hold, need nothing.
    pub open spec fn request(self, msg: Message, now: Timestamp) -> RequestView {
        match msg {
            Message::SwitchScreen(Screen::Invoice) => RequestView::InvoiceData,
            Message::SwitchScreen(Screen::Projects) => RequestView::ListProjects,
            Message::SwitchScreen(Screen::Pomodoro) => RequestView::GetPomodoroConfig,
            Message::StartTimer => if self.can_start_timer() {
                RequestView::StartTimer(self.project_input, self.description_input)
            } else {
                RequestView::Nothing
            },
            Message::StopTimer => if self.active_entry.is_some() {
                RequestView::StopActiveTimer
            } else {
                RequestView::Nothing
            },
            Message::ConfirmDelete => match self.confirm_delete {
                Some(id) => RequestView::DeleteEntry(id),
                None => RequestView::Nothing,
            },
            Message::EditEntry(id) => match entry_with_id(self.entries, id) {
                Some(entry) => RequestView::LocalTimes(entry.start, entry.end),
                None => RequestView::Nothing,
            },
            Message::SaveEditEntry => match self.edited_entry() {
                Some(entry) => RequestView::SaveEntry(
                    entry,
                    self.entry_form.start,
                    self.entry_form.end,
                ),
                None => RequestView::Nothing,
            },
            Message::MarkEntryBilled(id) => RequestView::MarkBilled(id),
            Message::UnbillEntry(id) => RequestView::UnmarkBilled(id),
            Message::SelectInvoiceMode => if self.can_select_entries() {
                RequestView::InvoiceData
            } else {
                RequestView::Nothing
            },
            Message::GenerateInvoice => RequestView::GenerateInvoice(self.invoice_plan(now)),
            Message::Tick => RequestView::GetActiveEntry,
            Message::RefreshActiveTimer => RequestView::GetActiveEntry,
            Message::RefreshEntries => RequestView::ListEntries(
                if self.show_only_unbilled {
                    Some(false)
                } else {
                    None
                },
            ),
            Message::RefreshProjects => RequestView::ListProjects,
            Message::SaveProjectRate => match self.rated_project() {
                Some(project) => RequestView::SetProjectRate(
                    project.name,
                    hundredths_u64_value(self.rate_input),
                    if self.currency_input.len() == 0 {
                        None
                    } else {
                        Some(self.currency_input)
                    },
                ),
                None => RequestView::Nothing,
            },
            Message::ClearProjectRate(id) => match project_with_id(self.projects, id) {
                Some(project) => RequestView::SetProjectRate(project.name, None, None),
                None => RequestView::Nothing,
            },
            Message::RefreshPomodoroConfig => RequestView::GetPomodoroConfig,
            Message::RefreshClients => RequestView::ListClients,
            Message::ConfirmDeleteClient => match self.confirm_delete_client {
                Some(id) => RequestView::DeleteClient(id),
                None => RequestView::Nothing,
            },
            Message::SaveClient => if self.adding_new_client {
                RequestView::AddClient(self.client_to_save())
            } else {
                RequestView::UpdateClient(self.client_to_save())
            },
            Message::SaveSettings => RequestView::SetInvoiceSettings(self.settings_to_save()),
            _ => RequestView::Nothing,
        }
    }

    /// What `msg` does to a session at `now`, `reply` being the answer to
    /// the message's request: the session afterwards, the message to process
    /// next and the effect to carry out.
    pub open spec fn step(self, msg: Message, reply: ReplyView, now: Timestamp) -> (
        AppView,
        Outcome,
    ) {
        match msg {
            Message::SwitchScreen(_)
            | Message::Quit
            | Message::EnterInputMode(_)
            | Message::ExitInputMode
            | Message::ToggleHelp
            | Message::ClearStatus => self.on_navigation(msg, reply),
            Message::StartTimer
            | Message::StopTimer
            | Message::UpdateProjectInput(_)
            | Message::UpdateDescriptionInput(_)
            | Message::DeleteProjectChar
            | Message::DeleteDescriptionChar
            | Message::Tick
            | Message::RefreshActiveTimer
            | Message::TogglePomodoroMode
            | Message::AcknowledgePomodoro
            | Message::RefreshPomodoroConfig => self.on_timer(msg, reply, now),
            Message::SelectNextEntry
            | Message::SelectPreviousEntry
            | Message::ToggleBilledFilter
            | Message::DeleteEntry(_)
            | Message::ConfirmDelete
            | Message::CancelDelete
            | Message::MarkEntryBilled(_)
            | Message::UnbillEntry(_)
            | Message::EditEntry(_)
            | Message::EditNextField
            | Message::EditPrevField
            | Message::EditFieldInput(_)
            | Message::EditFieldBackspace
            | Message::SaveEditEntry
            | Message::CancelEditEntry
            | Message::RefreshEntries => self.on_entries(msg, reply),
            Message::NextInvoiceMode
            | Message::PrevInvoiceMode
            | Message::SelectInvoiceMode
            | Message::ToggleEntrySelection(_)
            | Message::NextInvoiceEntry
            | Message::PrevInvoiceEntry
            | Message::GenerateInvoice => self.on_invoicing(msg, reply),
            Message::RefreshProjects
            | Message::SelectNextProject
            | Message::SelectPreviousProject
            | Message::EditProjectRate(_)
            | Message::UpdateRateInput(_)
            | Message::UpdateCurrencyInput(_)
            | Message::DeleteRateChar
            | Message::DeleteCurrencyChar
            | Message::SaveProjectRate
            | Message::CancelEditRate
            | Message::ClearProjectRate(_) => self.on_projects(msg, reply),
            Message::PomodoroNextField
            | Message::PomodoroPrevField
            | Message::PomodoroFieldInput(_)
            | Message::PomodoroFieldBackspace
            | Message::SavePomodoroConfig
            | Message::CancelPomodoroEdit => self.on_pomodoro_screen(msg),
            Message::RefreshClients
            | Message::SelectNextClient
            | Message::SelectPreviousClient
            | Message::SelectInvoiceClient(_)
            | Message::CycleInvoiceClient
            | Message::AddClient
            | Message::EditClient(_)
            | Message::DeleteClient(_)
            | Message::ConfirmDeleteClient
            | Message::CancelDeleteClient
            | Message::ClientNextField
            | Message::ClientPrevField
            | Message::ClientFieldInput(_)
            | Message::ClientFieldBackspace
            | Message::SaveClient
            | Message::CancelEditClient => self.on_clients(msg, reply),
            Message::EditSettings
            | Message::SettingsNextField
            | Message::SettingsPrevField
            | Message::SettingsFieldInput(_)
            | Message::SettingsFieldBackspace
            | Message::SaveSettings
            | Message::CancelEditSettings => self.on_settings(msg, reply),
        }
    }

    /// The entry under the selection of the entries list.
    pub open spec fn selected_entry(self) -> Option<EntryView> {
        if self.selected_entry_index < self.entries.len() {
            Some(self.entries[self.selected_entry_index as int])
        } else {
            None
        }
    }
}

/// The answer to a request for the local texts of an entry's start and end,
/// printed in the machine's time zone. Each text is what some zone's clock
/// shows at the instant, as [`shows_minute_of`] says, and the end text is
/// empty exactly for an entry without an end; which zone it is depends on
/// the machine.
pub fn local_times_reply(start: &Timestamp, end: Option<&Timestamp>) -> (r: Reply)
    ensures
        r@ is LocalTimes,
        shows_minute_of(r@.local_start(), start.spec_secs()),
        match end {
            Some(t) => shows_minute_of(r@.local_end(), t.spec_secs()),
            None => r@.local_end().len() == 0,
        },
{
    let start_text = write_local_minute(start);
    let end_text = match end {
        Some(t) => write_local_minute(t),
        None => String::new(),
    };
    Reply::LocalTimes(start_text, end_text)
}

impl App {
    /// A session that has read nothing yet.
    pub fn blank() -> (r: App)
        ensures
            r@ == AppView::blank(),
    {
        let entries: Vec<Entry> = Vec::new();
        let invoice_entries: Vec<Entry> = Vec::new();
        let selected_entry_ids: Vec<i64> = Vec::new();
        let project_rates: Vec<crate::invoice::ProjectRate> = Vec::new();
        let projects: Vec<crate::models::Project> = Vec::new();
        let clients: Vec<Client> = Vec::new();
        proof {
            assert(entries.deep_view() =~= Seq::<EntryView>::empty());
            assert(invoice_entries.deep_view() =~= Seq::<EntryView>::empty());
            assert(project_rates.deep_view() =~= Seq::<crate::invoice::ProjectRateView>::empty());
            assert(projects.deep_view() =~= Seq::<crate::models::ProjectView>::empty());
            assert(clients.deep_view() =~= Seq::<ClientView>::empty());
        }
        App {
            running_state: RunningState::Running,
            current_screen: Screen::Timer,
            input_mode: InputMode::Normal,
            show_help: false,
            status_message: None,
            active_entry: None,
            project_input: String::new(),
            description_input: String::new(),
            entries,
            selected_entry_index: 0,
            show_only_unbilled: false,
            confirm_delete: None,
            editing_entry: None,
            edit_field: EditField::Project,
            entry_form: EntryForm::new(),
            invoice_mode: InvoiceMode::CurrentMonth,
            invoice_mode_index: 0,
            custom_start_date: None,
            custom_end_date: None,
            selected_entry_ids,
            invoice_entries,
            invoice_select_index: 0,
            project_rates,
            projects,
            selected_project_index: 0,
            editing_project_rate: None,
            rate_input: String::new(),
            currency_input: String::new(),
            pomodoro: Pomodoro::new(PomodoroConfig::default()),
            pomodoro_field: PomodoroField::Enabled,
            pomodoro_form: PomodoroForm::new(),
            clients,
            selected_client_index: 0,
            selected_invoice_client: None,
            editing_client: None,
            adding_new_client: false,
            confirm_delete_client: None,
            client_field: ClientField::Name,
            client_form: ClientForm::new(),
            invoice_settings: InvoiceSettings::default(),
            editing_settings: false,
            settings_field: SettingsField::BusinessName,
            settings_form: SettingsForm::new(),
        }
    }

    /// Opens a session on what was read from the store.
    pub fn new(snapshot: Snapshot) -> (r: App)
        ensures
            r@ == AppView::opened(snapshot@),
    {
        let mut app = App::blank();
        app.description_input = "Work session".to_string();
        app.pomodoro = Pomodoro::new(snapshot.pomodoro_config);
        app.entries = snapshot.entries;
        app.active_entry = snapshot.active_entry;
        app.clients = snapshot.clients;
        app.invoice_settings = snapshot.invoice_settings;
        app
    }

    fn request_start_timer(&self) -> (r: Request)
        ensures
            forall|at: Timestamp| r@ == self@.request(Message::StartTimer, at),
    {
        if self.can_start_timer() {
            Request::StartTimer(self.project_input.clone(), self.description_input.clone())
        } else {
            Request::Nothing
        }
    }

    fn request_edit_entry(&self, id: i64) -> (r: Request)
        ensures
            forall|at: Timestamp| r@ == self@.request(Message::EditEntry(id), at),
    {
        match find_entry(&self.entries, id) {
            Some(i) => Request::LocalTimes(self.entries[i].start, self.entries[i].end),
            None => Request::Nothing,
        }
    }

    fn request_save_entry(&self) -> (r: Request)
        ensures
            forall|at: Timestamp| r@ == self@.request(Message::SaveEditEntry, at),
    {
        match self.edited_entry() {
            Some(entry) => Request::SaveEntry(
                entry,
                self.entry_form.start.clone(),
                self.entry_form.end.clone(),
            ),
            None => Request::Nothing,
        }
    }

    fn request_save_rate(&self) -> (r: Request)
        ensures
            forall|at: Timestamp| r@ == self@.request(Message::SaveProjectRate, at),
    {
        match self.rated_project_index() {
            Some(i) => {
                let currency = if self.currency_input.as_str().is_empty() {
                    None
                } else {
                    Some(self.currency_input.clone())
                };
                Request::SetProjectRate(
                    self.projects[i].name.clone(),
                    parse_hundredths(self.rate_input.as_str()),
                    currency,
                )
            },
            None => Request::Nothing,
        }
    }

    fn request_clear_rate(&self, id: i64) -> (r: Request)
        ensures
            forall|at: Timestamp| r@ == self@.request(Message::ClearProjectRate(id), at),
    {
        match find_project(&self.projects, id) {
            Some(i) => Request::SetProjectRate(self.projects[i].name.clone(), None, None),
            None => Request::Nothing,
        }
    }

    fn request_save_client(&self) -> (r: Request)
        ensures
            forall|at: Timestamp| r@ == self@.request(Message::SaveClient, at),
    {
        if self.adding_new_client {
            Request::AddClient(self.client_to_save())
        } else {
            Request::UpdateClient(self.client_to_save())
        }
    }

    /// Names what the surroundings have to do for `msg` at `now` before the
    /// message is processed.
    pub fn request_for(&self, msg: Message, now: &Timestamp) -> (r: Request)
        ensures
            r@ == self@.request(msg, *now),
    {
        match msg {
            Message::SwitchScreen(Screen::Invoice) => Request::InvoiceData,
            Message::SwitchScreen(Screen::Projects) => Request::ListProjects,
            Message::SwitchScreen(Screen::Pomodoro) => Request::GetPomodoroConfig,
            Message::StartTimer => self.request_start_timer(),
            Message::StopTimer => {
                if self.active_entry.is_some() {
                    Request::StopActiveTimer
                } else {
                    Request::Nothing
                }
            },
            Message::ConfirmDelete => match self.confirm_delete {
                Some(id) => Request::DeleteEntry(id),
                None => Request::Nothing,
            },
            Message::EditEntry(id) => self.request_edit_entry(id),
            Message::SaveEditEntry => self.request_save_entry(),
            Message::MarkEntryBilled(id) => Request::MarkBilled(id),
            Message::UnbillEntry(id) => Request::UnmarkBilled(id),
            Message::SelectInvoiceMode => {
                if self.can_select_entries() {
                    Request::InvoiceData
                } else {
                    Request::Nothing
                }
            },
            Message::GenerateInvoice => Request::GenerateInvoice(self.invoice_plan(now)),
            Message::Tick => Request::GetActiveEntry,
            Message::RefreshActiveTimer => Request::GetActiveEntry,
            Message::RefreshEntries => Request::ListEntries(
                if self.show_only_unbilled {
                    Some(false)
                } else {
                    None
                },
            ),
            Message::RefreshProjects => Request::ListProjects,
            Message::SaveProjectRate => self.request_save_rate(),
            Message::ClearProjectRate(id) => self.request_clear_rate(id),
            Message::RefreshPomodoroConfig => Request::GetPomodoroConfig,
            Message::RefreshClients => Request::ListClients,
            Message::ConfirmDeleteClient => match self.confirm_delete_client {
                Some(id) => Request::DeleteClient(id),
                None => Request::Nothing,
            },
            Message::SaveClient => self.request_save_client(),
            Message::SaveSettings => Request::SetInvoiceSettings(self.settings_to_save()),
            _ => Request::Nothing,
        }
    }

    /// Processes `msg` at `now`, `reply` being what the surroundings answered
    /// to the message's request. Returns the message to process next, which
    /// the caller feeds back until none is left, and the effect to carry out.
    pub fn update_at(&mut self, msg: Message, reply: Reply, now: &Timestamp) -> (out: Outcome)
        ensures
            (final(self)@, out) == old(self)@.step(msg, reply@, *now),
    {
        match msg {
            Message::SwitchScreen(_)
            | Message::Quit
            | Message::EnterInputMode(_)
            | Message::ExitInputMode
            | Message::ToggleHelp
            | Message::ClearStatus => self.update_navigation(msg, reply),
            Message::StartTimer
            | Message::StopTimer
            | Message::UpdateProjectInput(_)
            | Message::UpdateDescriptionInput(_)
            | Message::DeleteProjectChar
            | Message::DeleteDescriptionChar
            | Message::Tick
            | Message::RefreshActiveTimer
            | Message::TogglePomodoroMode
            | Message::AcknowledgePomodoro
            | Message::RefreshPomodoroConfig => self.update_timer(msg, reply, now),
            Message::SelectNextEntry
            | Message::SelectPreviousEntry
            | Message::ToggleBilledFilter
            | Message::DeleteEntry(_)
            | Message::ConfirmDelete
            | Message::CancelDelete
            | Message::MarkEntryBilled(_)
            | Message::UnbillEntry(_)
            | Message::EditEntry(_)
            | Message::EditNextField
            | Message::EditPrevField
            | Message::EditFieldInput(_)
            | Message::EditFieldBackspace
            | Message::SaveEditEntry
            | Message::CancelEditEntry
            | Message::RefreshEntries => self.update_entries(msg, reply),
            Message::NextInvoiceMode
            | Message::PrevInvoiceMode
            | Message::SelectInvoiceMode
            | Message::ToggleEntrySelection(_)
            | Message::NextInvoiceEntry
            | Message::PrevInvoiceEntry
            | Message::GenerateInvoice => self.update_invoicing(msg, reply),
            Message::RefreshProjects
            | Message::SelectNextProject
            | Message::SelectPreviousProject
            | Message::EditProjectRate(_)
            | Message::UpdateRateInput(_)
            | Message::UpdateCurrencyInput(_)
            | Message::DeleteRateChar
            | Message::DeleteCurrencyChar
            | Message::SaveProjectRate
            | Message::CancelEditRate
            | Message::ClearProjectRate(_) => self.update_projects(msg, reply),
            Message::PomodoroNextField
            | Message::PomodoroPrevField
            | Message::PomodoroFieldInput(_)
            | Message::PomodoroFieldBackspace
            | Message::SavePomodoroConfig
            | Message::CancelPomodoroEdit => self.update_pomodoro_screen(msg),
            Message::RefreshClients
            | Message::SelectNextClient
            | Message::SelectPreviousClient
            | Message::SelectInvoiceClient(_)
            | Message::CycleInvoiceClient
            | Message::AddClient
            | Message::EditClient(_)
            | Message::DeleteClient(_)
            | Message::ConfirmDeleteClient
            | Message::CancelDeleteClient
            | Message::ClientNextField
            | Message::ClientPrevField
            | Message::ClientFieldInput(_)
            | Message::ClientFieldBackspace
            | Message::SaveClient
            | Message::CancelEditClient => self.update_clients(msg, reply),
            Message::EditSettings
            | Message::SettingsNextField
            | Message::SettingsPrevField
            | Message::SettingsFieldInput(_)
            | Message::SettingsFieldBackspace
            | Message::SaveSettings
            | Message::CancelEditSettings => self.update_settings(msg, reply),
        }
    }

    /// Processes `msg` at the instant the system clock shows, `reply` being
    /// what the surroundings answered to the message's request.
    ///
    /// The instant is whatever the clock says; the session changes as
    /// [`AppView::step`] describes for that instant.
    pub fn update(&mut self, msg: Message, reply: Reply) -> (out: Outcome)
        ensures
            exists|at: Timestamp|
                at.wf() && (final(self)@, out) == old(self)@.step(msg, reply@, at),
    {
        let (secs, nanos) = clock_reading();
        let at = Timestamp::new(secs, nanos).unwrap();
        proof {
            use_type_invariant(at);
        }
        self.update_at(msg, reply, &at)
    }

    /// The entry under the selection of the entries list.
    pub fn get_selected_entry(&self) -> (r: Option<&Entry>)
        ensures
            r.deep_view() == self@.selected_entry(),
    {
        if self.selected_entry_index < self.entries.len() {
            Some(&self.entries[self.selected_entry_index])
        } else {
            None
        }
    }

    /// Whether the next break is a long one.
    pub fn is_long_break_next(&self) -> (r: bool)
        ensures
            r == self@.pomodoro.is_long_break_next(),
    {
        self.pomodoro.is_long_break_next()
    }

    /// Minutes of the current or next break.
    pub fn get_current_break_duration(&self) -> (r: i32)
        ensures
            r == self@.pomodoro.current_break_duration(),
    {
        self.pomodoro.current_break_duration()
    }

    /// Seconds left at `now` in the running work or break interval; `None`
    /// where none runs.
    pub fn get_pomodoro_remaining_secs(&self, now: &Timestamp) -> (r: Option<i64>)
        ensures
            r.is_some() == self@.pomodoro.remaining_secs(*now).is_some(),
            r.is_some() ==> r.unwrap() == self@.pomodoro.remaining_secs(*now).unwrap(),
    {
        self.pomodoro.remaining_secs(now)
    }
}

} // verus!
