//! A store that lives in memory.
//!
//! The session expects little of its store: every operation is atomic and
//! what was written is read back. This module states that contract as a
//! mathematical model, [`StoreView`], and implements it over plain vectors so
//! that a session can be driven without a database. Lists come back newest
//! first, in the order in which the records were stored.

use crate::identities::{
    law_affected_store_keeps_identities, law_new_client_gets_fresh_identity,
    law_new_entry_gets_fresh_identity, law_served_store_keeps_identities,
    lemma_rated_store_keeps_identities, lemma_saved_store_keeps_identities,
};
use crate::invoice::{
    InvoiceParams, all_valid, invoice_record, prepare_invoice, record_of, result_of,
    total_units,
};
use crate::models::{
    Client, ClientView, Entry, EntryView, Invoice, InvoiceSettings, InvoiceSettingsView,
    InvoiceView, PomodoroConfig, Project, ProjectView, clone_text_option,
};
use crate::session::entries::{resolve_entry, saved_as, with_times};
use crate::session::lookup::{client_ids, entry_ids, project_ids};
use crate::session::protocol::{
    Effect, EntrySource, EntrySourceView, InvoicePlan, InvoicePlanView, Reply, ReplyView, Request,
    RequestView,
};
use crate::session::update::{Snapshot, SnapshotView, local_times_reply};
use crate::time::{LocalTime, Timestamp, can_mean, shows_minute_of};
use vstd::prelude::*;

verus! {

/// A store in memory.
#[derive(Debug)]
pub struct Store {
    /// The entries in the order in which they were stored.
    pub entries: Vec<Entry>,
    /// The identity that the next entry gets.
    pub next_entry_id: i64,
    pub projects: Vec<Project>,
    pub next_project_id: i64,
    pub clients: Vec<Client>,
    pub next_client_id: i64,
    pub pomodoro_config: PomodoroConfig,
    pub invoice_settings: InvoiceSettings,
    pub invoices: Vec<Invoice>,
}

/// The mathematical content of a [`Store`].
pub struct StoreView {
    pub entries: Seq<EntryView>,
    pub next_entry_id: i64,
    pub projects: Seq<ProjectView>,
    pub next_project_id: i64,
    pub clients: Seq<ClientView>,
    pub next_client_id: i64,
    pub pomodoro_config: PomodoroConfig,
    pub invoice_settings: InvoiceSettingsView,
    pub invoices: Seq<InvoiceView>,
}

impl View for Store {
    type V = StoreView;

    open spec fn view(&self) -> StoreView {
        StoreView {
            entries: self.entries.deep_view(),
            next_entry_id: self.next_entry_id,
            projects: self.projects.deep_view(),
            next_project_id: self.next_project_id,
            clients: self.clients.deep_view(),
            next_client_id: self.next_client_id,
            pomodoro_config: self.pomodoro_config,
            invoice_settings: self.invoice_settings@,
            invoices: self.invoices.deep_view(),
        }
    }
}

/// The number of entries that run.
pub open spec fn running_count(entries: Seq<EntryView>) -> nat
    decreases entries.len(),
{
    if entries.len() == 0 {
        0
    } else {
        running_count(entries.drop_last()) + (if entries.last().end.is_none() {
            1nat
        } else {
            0nat
        })
    }
}

/// The position of the active entry: the running entry that started last,
/// and among several that started together the one stored last.
pub open spec fn active_index(entries: Seq<EntryView>) -> Option<int>
    decreases entries.len(),
{
    if entries.len() == 0 {
        None
    } else {
        let before = active_index(entries.drop_last());
        let last = entries.last();
        if last.end.is_none() && (match before {
            Some(i) => entries[i].start.spec_le(last.start),
            None => true,
        }) {
            Some(entries.len() - 1)
        } else {
            before
        }
    }
}

/// Whether an entry passes a filter on its billed flag.
pub open spec fn passes(e: EntryView, billed: Option<bool>) -> bool {
    match billed {
        Some(flag) => e.billed == flag,
        None => true,
    }
}

/// The entries that pass the filter, newest first.
pub open spec fn listed(entries: Seq<EntryView>, billed: Option<bool>) -> Seq<EntryView>
    decreases entries.len(),
{
    if entries.len() == 0 {
        Seq::empty()
    } else if passes(entries.last(), billed) {
        seq![entries.last()] + listed(entries.drop_last(), billed)
    } else {
        listed(entries.drop_last(), billed)
    }
}

/// Whether an entry has ended between the two instants, both included.
pub open spec fn ended_between(e: EntryView, start: Timestamp, end: Timestamp) -> bool {
    match e.end {
        Some(t) => start.spec_le(t) && t.spec_le(end),
        None => false,
    }
}

/// The entries that ended between the two instants and pass the filter,
/// newest first.
pub open spec fn listed_between(
    entries: Seq<EntryView>,
    start: Timestamp,
    end: Timestamp,
    billed: Option<bool>,
) -> Seq<EntryView>
    decreases entries.len(),
{
    if entries.len() == 0 {
        Seq::empty()
    } else if ended_between(entries.last(), start, end) && passes(entries.last(), billed) {
        seq![entries.last()] + listed_between(entries.drop_last(), start, end, billed)
    } else {
        listed_between(entries.drop_last(), start, end, billed)
    }
}

/// The entries without those that have the identity.
pub open spec fn entries_without(entries: Seq<EntryView>, id: i64) -> Seq<EntryView>
    decreases entries.len(),
{
    if entries.len() == 0 {
        Seq::empty()
    } else if entries.last().id == id {
        entries_without(entries.drop_last(), id)
    } else {
        entries_without(entries.drop_last(), id).push(entries.last())
    }
}

/// The entries with every one that has the identity of `entry` replaced by
/// `entry`.
pub open spec fn entries_replaced(entries: Seq<EntryView>, entry: EntryView) -> Seq<EntryView> {
    Seq::new(
        entries.len(),
        |i: int|
            if entries[i].id == entry.id {
                entry
            } else {
                entries[i]
            },
    )
}

/// The entries with the billed flag of those that have the identity set to
/// `flag`.
pub open spec fn entries_billed(entries: Seq<EntryView>, id: i64, flag: bool) -> Seq<EntryView> {
    Seq::new(
        entries.len(),
        |i: int|
            if entries[i].id == id {
                EntryView { billed: flag, ..entries[i] }
            } else {
                entries[i]
            },
    )
}

/// The position of the project with the name, if one has it.
pub open spec fn project_index(projects: Seq<ProjectView>, name: Seq<char>) -> Option<int>
    decreases projects.len(),
{
    if projects.len() == 0 {
        None
    } else {
        match project_index(projects.drop_last(), name) {
            Some(i) => Some(i),
            None => if projects.last().name == name {
                Some(projects.len() - 1)
            } else {
                None
            },
        }
    }
}

/// The clients without those that have the identity.
pub open spec fn clients_without(clients: Seq<ClientView>, id: i64) -> Seq<ClientView>
    decreases clients.len(),
{
    if clients.len() == 0 {
        Seq::empty()
    } else if clients.last().id == id {
        clients_without(clients.drop_last(), id)
    } else {
        clients_without(clients.drop_last(), id).push(clients.last())
    }
}

/// The clients with every one that has the identity of `client` replaced by
/// `client`.
pub open spec fn clients_replaced(clients: Seq<ClientView>, client: ClientView) -> Seq<ClientView> {
    Seq::new(
        clients.len(),
        |i: int|
            if clients[i].id == client.id {
                client
            } else {
                clients[i]
            },
    )
}

/// The greatest invoice number on record; zero without invoices or where all
/// numbers are negative.
pub open spec fn greatest_invoice_number(invoices: Seq<InvoiceView>) -> int
    decreases invoices.len(),
{
    if invoices.len() == 0 {
        0
    } else {
        let before = greatest_invoice_number(invoices.drop_last());
        if invoices.last().invoice_number > before {
            invoices.last().invoice_number as int
        } else {
            before
        }
    }
}

/// The directory in which a store in memory pretends to write invoices.
pub open spec fn memory_dir() -> Seq<char> {
    "memory"@
}

/// Identities that were handed out in turn: each is at least one and below
/// the next to be handed out, and none occurs twice.
pub open spec fn handed_out(ids: Seq<i64>, next: i64) -> bool {
    &&& next >= 1
    &&& forall|i: int| 0 <= i < ids.len() ==> 1 <= #[trigger] ids[i] < next
    &&& forall|i: int, j: int| 0 <= i < j < ids.len() ==> ids[i] != ids[j]
}

impl StoreView {
    /// The store's identities are in order: entries, projects and clients
    /// each have identities that were handed out in turn.
    pub open spec fn wf(self) -> bool {
        &&& handed_out(entry_ids(self.entries), self.next_entry_id)
        &&& handed_out(project_ids(self.projects), self.next_project_id)
        &&& handed_out(client_ids(self.clients), self.next_client_id)
    }

    /// No entry of the store has the identity, and it is not zero, which
    /// stands for an entry that was not stored yet.
    pub open spec fn entry_id_is_fresh(self, id: i64) -> bool {
        id != 0 && !entry_ids(self.entries).contains(id)
    }

    /// No client of the store has the identity, and it is not zero.
    pub open spec fn client_id_is_fresh(self, id: i64) -> bool {
        id != 0 && !client_ids(self.clients).contains(id)
    }

    /// A store without records, with the initial Pomodoro configuration and
    /// empty settings. Identities start at one.
    pub open spec fn empty() -> StoreView {
        StoreView {
            entries: Seq::empty(),
            next_entry_id: 1,
            projects: Seq::empty(),
            next_project_id: 1,
            clients: Seq::empty(),
            next_client_id: 1,
            pomodoro_config: PomodoroConfig::initial(),
            invoice_settings: InvoiceSettingsView::empty(),
            invoices: Seq::empty(),
        }
    }

    /// The active entry.
    pub open spec fn active_entry(self) -> Option<EntryView> {
        match active_index(self.entries) {
            Some(i) => Some(self.entries[i]),
            None => None,
        }
    }

    /// An entry can be inserted: identities have not run out.
    pub open spec fn can_insert_entry(self) -> bool {
        self.next_entry_id < i64::MAX
    }

    /// The store after an entry was inserted under the next identity;
    /// unchanged where identities have run out.
    pub open spec fn inserted(self, entry: EntryView) -> StoreView {
        if self.can_insert_entry() {
            StoreView {
                entries: self.entries.push(EntryView { id: self.next_entry_id, ..entry }),
                next_entry_id: (self.next_entry_id + 1) as i64,
                ..self
            }
        } else {
            self
        }
    }

    /// The store after a running entry was inserted at `now`.
    pub open spec fn started(self, project: Seq<char>, description: Seq<char>, now: Timestamp)
        -> StoreView {
        self.inserted(
            EntryView { id: 0, project, description, start: now, end: None, billed: false },
        )
    }

    /// The store after the active entry was ended at `now`; unchanged where
    /// no entry runs.
    pub open spec fn stopped(self, now: Timestamp) -> StoreView {
        match active_index(self.entries) {
            Some(i) => StoreView {
                entries: self.entries.update(i, EntryView { end: Some(now), ..self.entries[i] }),
                ..self
            },
            None => self,
        }
    }

    /// The number that the next invoice gets: one more than the greatest on
    /// record.
    pub open spec fn next_invoice_number(self) -> int {
        greatest_invoice_number(self.invoices) + 1
    }

    /// The entries of an invoice plan: those of the range that are billed, or
    /// those listed.
    pub open spec fn plan_entries(self, source: EntrySourceView) -> Seq<EntryView> {
        match source {
            EntrySourceView::Range(start, end) => listed_between(
                self.entries,
                start,
                end,
                Some(true),
            ),
            EntrySourceView::Listed(entries) => entries,
        }
    }

    /// An invoice can be generated as planned: a number is left, no entry
    /// ends before it starts and the total fits.
    pub open spec fn can_generate(self, plan: InvoicePlanView) -> bool {
        &&& self.next_invoice_number() <= i64::MAX
        &&& all_valid(self.plan_entries(plan.source))
        &&& total_units(
            self.plan_entries(plan.source),
            plan.rates,
            self.invoice_settings.default_tax_rate,
        ) <= u128::MAX
    }

    /// The record of the invoice that is generated as planned at `now`.
    pub open spec fn generated_record(self, plan: InvoicePlanView, now: Timestamp) -> InvoiceView {
        record_of(
            result_of(
                self.plan_entries(plan.source),
                plan.rates,
                self.invoice_settings.default_tax_rate,
                self.next_invoice_number() as i64,
                self.invoice_settings.default_payment_terms,
                memory_dir(),
                now,
            ),
            self.next_invoice_number() as i64,
            plan.client_id,
            self.invoice_settings.default_tax_rate,
        )
    }

    /// The store after an invoice was generated as planned at `now`: the
    /// invoice is on record where it could be generated.
    pub open spec fn generated(self, plan: InvoicePlanView, now: Timestamp) -> StoreView {
        if self.can_generate(plan) {
            StoreView { invoices: self.invoices.push(self.generated_record(plan, now)), ..self }
        } else {
            self
        }
    }

    /// The store after the rate of the named project was set, the project
    /// being created where it is missing and identities have not run out. A
    /// currency that is not given leaves the project's currency, which is `$`
    /// for a new project.
    pub open spec fn rate_set(self, name: Seq<char>, rate: Option<u64>, currency: Option<Seq<char>>)
        -> StoreView {
        match project_index(self.projects, name) {
            Some(i) => StoreView {
                projects: self.projects.update(
                    i,
                    ProjectView {
                        rate,
                        currency: match currency {
                            Some(c) => Some(c),
                            None => self.projects[i].currency,
                        },
                        ..self.projects[i]
                    },
                ),
                ..self
            },
            None => if self.next_project_id < i64::MAX {
                StoreView {
                    projects: self.projects.push(
                        ProjectView {
                            id: self.next_project_id,
                            name,
                            rate,
                            currency: match currency {
                                Some(c) => Some(c),
                                None => Some("$"@),
                            },
                        },
                    ),
                    next_project_id: (self.next_project_id + 1) as i64,
                    ..self
                }
            } else {
                self
            },
        }
    }

    /// The rate of the named project can be set: the project exists or can
    /// be created.
    pub open spec fn can_set_rate(self, name: Seq<char>) -> bool {
        project_index(self.projects, name).is_some() || self.next_project_id < i64::MAX
    }

    /// The store after the client was inserted under a fresh identity;
    /// unchanged where identities have run out.
    pub open spec fn client_added(self, client: ClientView) -> StoreView {
        if self.next_client_id < i64::MAX {
            StoreView {
                clients: self.clients.push(ClientView { id: self.next_client_id, ..client }),
                next_client_id: (self.next_client_id + 1) as i64,
                ..self
            }
        } else {
            self
        }
    }

    /// The store after an edited entry was saved: every entry with its
    /// identity is replaced by it.
    pub open spec fn with_entry(self, saved: EntryView) -> StoreView {
        StoreView { entries: entries_replaced(self.entries, saved), ..self }
    }

    /// The store after an edited entry was saved, its two time fields having
    /// turned out to mean `start` and `end`.
    pub open spec fn saved(
        self,
        entry: EntryView,
        start: LocalTime,
        end_text: Seq<char>,
        end: LocalTime,
    ) -> StoreView {
        self.with_entry(with_times(entry, start, end_text, end))
    }

    /// Whether the store may hold `served` after the editor of `entry` was
    /// saved with the two texts in its time fields: it is [`Self::saved`]
    /// for some meaning that the texts can have, as [`can_mean`] says.
    pub open spec fn saves(
        self,
        entry: EntryView,
        start_text: Seq<char>,
        end_text: Seq<char>,
        served: StoreView,
    ) -> bool {
        exists|start: LocalTime, end: LocalTime|
            {
                &&& can_mean(start_text, start)
                &&& can_mean(end_text, end)
                &&& served == #[trigger] self.saved(entry, start, end_text, end)
            }
    }

    /// Whether a request at `now` may be answered with `reply` and leave the
    /// store as `served`.
    ///
    /// Two requests depend on the machine's time zone. A request for local
    /// times leaves the store as it is and is answered with two texts: each
    /// is what some zone's clock shows at the instant, and the second is
    /// empty exactly where the entry has no end. The saving of an edited
    /// entry is done and leaves the store as
    /// [`Self::saves`] allows. Every other request is served as
    /// [`Self::after`] and answered as [`Self::answer`] say.
    pub open spec fn serves(
        self,
        request: RequestView,
        now: Timestamp,
        reply: ReplyView,
        served: StoreView,
    ) -> bool {
        match request {
            RequestView::LocalTimes(start, end) => {
                &&& served == self
                &&& reply is LocalTimes
                &&& shows_minute_of(reply.local_start(), start.spec_secs())
                &&& match end {
                    Some(t) => shows_minute_of(reply.local_end(), t.spec_secs()),
                    None => reply.local_end().len() == 0,
                }
            },
            RequestView::SaveEntry(entry, start_text, end_text) => {
                &&& reply is Done
                &&& self.saves(entry, start_text, end_text, served)
            },
            _ => {
                &&& served == self.after(request, now)
                &&& reply == self.answer(request, now)
            },
        }
    }

    /// What the store in memory holds after serving a request at `now`, for
    /// every request but the saving of an edited entry, which depends on the
    /// machine's time zone.
    pub open spec fn after(self, request: RequestView, now: Timestamp) -> StoreView {
        match request {
            RequestView::StartTimer(project, description) => self.started(
                project,
                description,
                now,
            ),
            RequestView::StopActiveTimer => self.stopped(now),
            RequestView::DeleteEntry(id) => StoreView {
                entries: entries_without(self.entries, id),
                ..self
            },
            RequestView::MarkBilled(id) => StoreView {
                entries: entries_billed(self.entries, id, true),
                ..self
            },
            RequestView::UnmarkBilled(id) => StoreView {
                entries: entries_billed(self.entries, id, false),
                ..self
            },
            RequestView::SetProjectRate(name, rate, currency) => self.rate_set(
                name,
                rate,
                currency,
            ),
            RequestView::AddClient(client) => self.client_added(client),
            RequestView::UpdateClient(client) => StoreView {
                clients: clients_replaced(self.clients, client),
                ..self
            },
            RequestView::DeleteClient(id) => StoreView {
                clients: clients_without(self.clients, id),
                ..self
            },
            RequestView::SetInvoiceSettings(settings) => StoreView {
                invoice_settings: settings,
                ..self
            },
            RequestView::GenerateInvoice(plan) => self.generated(plan, now),
            _ => self,
        }
    }

    /// What the store in memory answers to a request at `now`, for every
    /// request but those whose answer depends on the machine's time zone.
    pub open spec fn answer(self, request: RequestView, now: Timestamp) -> ReplyView {
        match request {
            RequestView::Nothing => ReplyView::Nothing,
            RequestView::StartTimer(_, _) => if self.can_insert_entry() {
                ReplyView::Done
            } else {
                ReplyView::Failed
            },
            RequestView::StopActiveTimer => ReplyView::Done,
            RequestView::GetActiveEntry => ReplyView::ActiveEntry(self.active_entry()),
            RequestView::ListEntries(billed) => ReplyView::Entries(listed(self.entries, billed)),
            RequestView::DeleteEntry(_) => ReplyView::Done,
            RequestView::LocalTimes(_, _) => ReplyView::Nothing,
            RequestView::SaveEntry(_, _, _) => ReplyView::Done,
            RequestView::MarkBilled(_) => ReplyView::Done,
            RequestView::UnmarkBilled(_) => ReplyView::Done,
            RequestView::ListProjects => ReplyView::Projects(self.projects),
            RequestView::InvoiceData => ReplyView::InvoiceData(
                listed(self.entries, Some(true)),
                Some(self.projects),
            ),
            RequestView::SetProjectRate(name, _, _) => if self.can_set_rate(name) {
                ReplyView::Done
            } else {
                ReplyView::Failed
            },
            RequestView::GetPomodoroConfig => ReplyView::PomodoroConfig(self.pomodoro_config),
            RequestView::ListClients => ReplyView::Clients(self.clients),
            RequestView::AddClient(_) => if self.next_client_id < i64::MAX {
                ReplyView::Done
            } else {
                ReplyView::Failed
            },
            RequestView::UpdateClient(_) => ReplyView::Done,
            RequestView::DeleteClient(_) => ReplyView::Done,
            RequestView::SetInvoiceSettings(_) => ReplyView::Done,
            RequestView::GenerateInvoice(plan) => if self.can_generate(plan) {
                ReplyView::InvoiceWritten(
                    self.next_invoice_number() as i64,
                    self.generated_record(plan, now).file_path,
                )
            } else if self.next_invoice_number() > i64::MAX {
                ReplyView::InvoiceFailed("invoice numbers have run out"@)
            } else if !all_valid(self.plan_entries(plan.source)) {
                ReplyView::InvoiceFailed("an entry ends before it starts"@)
            } else {
                ReplyView::InvoiceFailed("the invoice total is too large"@)
            },
        }
    }

    /// The store after an effect was carried out at `now`.
    pub open spec fn affected(self, effect: Effect, now: Timestamp) -> StoreView {
        match effect {
            Effect::Nothing => self,
            Effect::WorkComplete => self.stopped(now),
            Effect::BreakComplete => self,
            Effect::SavePomodoroEnabled(enabled) => StoreView {
                pomodoro_config: PomodoroConfig { enabled, ..self.pomodoro_config },
                ..self
            },
            Effect::SavePomodoroConfig(config) => StoreView { pomodoro_config: config, ..self },
        }
    }

    /// What a session reads when it opens on the store.
    pub open spec fn snapshot(self) -> SnapshotView {
        SnapshotView {
            entries: listed(self.entries, None),
            active_entry: self.active_entry(),
            pomodoro_config: self.pomodoro_config,
            clients: self.clients,
            invoice_settings: self.invoice_settings,
        }
    }
}

/// Whether an entry passes a filter on its billed flag.
pub fn entry_passes(entry: &Entry, billed: Option<bool>) -> (r: bool)
    ensures
        r == passes(entry@, billed),
{
    match billed {
        Some(flag) => entry.billed == flag,
        None => true,
    }
}

/// Whether an entry has ended between the two instants, both included.
pub fn entry_ended_between(entry: &Entry, start: &Timestamp, end: &Timestamp) -> (r: bool)
    ensures
        r == ended_between(entry@, *start, *end),
{
    match &entry.end {
        Some(t) => start.le(t) && t.le(end),
        None => false,
    }
}

/// Copies of the entries that pass the filter, newest first.
pub fn list_entries(entries: &Vec<Entry>, billed: Option<bool>) -> (r: Vec<Entry>)
    ensures
        r.deep_view() == listed(entries.deep_view(), billed),
{
    let mut out: Vec<Entry> = Vec::new();
    let mut i: usize = entries.len();
    proof {
        assert(entries.deep_view().subrange(0, i as int) =~= entries.deep_view());
        assert(out.deep_view() =~= Seq::<EntryView>::empty());
    }
    while i > 0
        invariant
            i <= entries.len(),
            out.deep_view() + listed(entries.deep_view().subrange(0, i as int), billed) == listed(
                entries.deep_view(),
                billed,
            ),
        decreases i,
    {
        let ghost before = out.deep_view();
        proof {
            let upto = entries.deep_view().subrange(0, i as int);
            assert(upto.drop_last() =~= entries.deep_view().subrange(0, i - 1));
            assert(upto.last() == entries[i - 1]@);
        }
        i -= 1;
        if entry_passes(&entries[i], billed) {
            let copy = entries[i].clone();
            out.push(copy);
            proof {
                assert(out.deep_view() =~= before.push(copy@));
                assert(before.push(copy@) + listed(
                    entries.deep_view().subrange(0, i as int),
                    billed,
                ) =~= before + (seq![copy@] + listed(
                    entries.deep_view().subrange(0, i as int),
                    billed,
                )));
            }
        }
    }
    proof {
        assert(entries.deep_view().subrange(0, 0) =~= Seq::<EntryView>::empty());
        assert(out.deep_view() + Seq::<EntryView>::empty() =~= out.deep_view());
    }
    out
}

/// Copies of the entries that ended between the two instants and pass the
/// filter, newest first.
pub fn list_entries_between(
    entries: &Vec<Entry>,
    start: &Timestamp,
    end: &Timestamp,
    billed: Option<bool>,
) -> (r: Vec<Entry>)
    ensures
        r.deep_view() == listed_between(entries.deep_view(), *start, *end, billed),
{
    let mut out: Vec<Entry> = Vec::new();
    let mut i: usize = entries.len();
    proof {
        assert(entries.deep_view().subrange(0, i as int) =~= entries.deep_view());
        assert(out.deep_view() =~= Seq::<EntryView>::empty());
    }
    while i > 0
        invariant
            i <= entries.len(),
            out.deep_view() + listed_between(
                entries.deep_view().subrange(0, i as int),
                *start,
                *end,
                billed,
            ) == listed_between(entries.deep_view(), *start, *end, billed),
        decreases i,
    {
        let ghost before = out.deep_view();
        proof {
            let upto = entries.deep_view().subrange(0, i as int);
            assert(upto.drop_last() =~= entries.deep_view().subrange(0, i - 1));
            assert(upto.last() == entries[i - 1]@);
        }
        i -= 1;
        if entry_ended_between(&entries[i], start, end) && entry_passes(&entries[i], billed) {
            let copy = entries[i].clone();
            out.push(copy);
            proof {
                let rest = listed_between(
                    entries.deep_view().subrange(0, i as int),
                    *start,
                    *end,
                    billed,
                );
                assert(out.deep_view() =~= before.push(copy@));
                assert(before.push(copy@) + rest =~= before + (seq![copy@] + rest));
            }
        }
    }
    proof {
        assert(entries.deep_view().subrange(0, 0) =~= Seq::<EntryView>::empty());
        assert(out.deep_view() + Seq::<EntryView>::empty() =~= out.deep_view());
    }
    out
}

/// The position of the active entry.
pub fn find_active(entries: &Vec<Entry>) -> (r: Option<usize>)
    ensures
        r.is_some() == active_index(entries.deep_view()).is_some(),
        r.is_some() ==> r.unwrap() == active_index(entries.deep_view()).unwrap() && r.unwrap()
            < entries.len(),
{
    let mut found: Option<usize> = None;
    let mut i: usize = 0;
    proof {
        assert(entries.deep_view().subrange(0, 0) =~= Seq::<EntryView>::empty());
    }
    while i < entries.len()
        invariant
            i <= entries.len(),
            found.is_some() == active_index(entries.deep_view().subrange(0, i as int)).is_some(),
            found.is_some() ==> found.unwrap() == active_index(
                entries.deep_view().subrange(0, i as int),
            ).unwrap() && found.unwrap() < i,
        decreases entries.len() - i,
    {
        proof {
            let upto = entries.deep_view().subrange(0, i + 1);
            assert(upto.drop_last() =~= entries.deep_view().subrange(0, i as int));
            assert(upto.last() == entries[i as int]@);
            if found.is_some() {
                assert(upto[found.unwrap() as int] == entries[found.unwrap() as int]@);
            }
        }
        if entries[i].end.is_none() {
            let later = match found {
                Some(j) => entries[j].start.le(&entries[i].start),
                None => true,
            };
            if later {
                found = Some(i);
            }
        }
        i += 1;
    }
    proof {
        assert(entries.deep_view().subrange(0, entries.len() as int) =~= entries.deep_view());
    }
    found
}

/// Copies of the entries without those that have the identity.
pub fn remove_entries(entries: &Vec<Entry>, id: i64) -> (r: Vec<Entry>)
    ensures
        r.deep_view() == entries_without(entries.deep_view(), id),
{
    let mut out: Vec<Entry> = Vec::new();
    let mut i: usize = 0;
    proof {
        assert(entries.deep_view().subrange(0, 0) =~= Seq::<EntryView>::empty());
        assert(out.deep_view() =~= Seq::<EntryView>::empty());
    }
    while i < entries.len()
        invariant
            i <= entries.len(),
            out.deep_view() == entries_without(entries.deep_view().subrange(0, i as int), id),
        decreases entries.len() - i,
    {
        let ghost before = out.deep_view();
        proof {
            let upto = entries.deep_view().subrange(0, i + 1);
            assert(upto.drop_last() =~= entries.deep_view().subrange(0, i as int));
            assert(upto.last() == entries[i as int]@);
        }
        if entries[i].id != id {
            let copy = entries[i].clone();
            out.push(copy);
            proof {
                assert(out.deep_view() =~= before.push(copy@));
            }
        }
        i += 1;
    }
    proof {
        assert(entries.deep_view().subrange(0, entries.len() as int) =~= entries.deep_view());
    }
    out
}

/// Copies of the clients without those that have the identity.
pub fn remove_clients(clients: &Vec<Client>, id: i64) -> (r: Vec<Client>)
    ensures
        r.deep_view() == clients_without(clients.deep_view(), id),
{
    let mut out: Vec<Client> = Vec::new();
    let mut i: usize = 0;
    proof {
        assert(clients.deep_view().subrange(0, 0) =~= Seq::<ClientView>::empty());
        assert(out.deep_view() =~= Seq::<ClientView>::empty());
    }
    while i < clients.len()
        invariant
            i <= clients.len(),
            out.deep_view() == clients_without(clients.deep_view().subrange(0, i as int), id),
        decreases clients.len() - i,
    {
        let ghost before = out.deep_view();
        proof {
            let upto = clients.deep_view().subrange(0, i + 1);
            assert(upto.drop_last() =~= clients.deep_view().subrange(0, i as int));
            assert(upto.last() == clients[i as int]@);
        }
        if clients[i].id != id {
            let copy = clients[i].clone();
            out.push(copy);
            proof {
                assert(out.deep_view() =~= before.push(copy@));
            }
        }
        i += 1;
    }
    proof {
        assert(clients.deep_view().subrange(0, clients.len() as int) =~= clients.deep_view());
    }
    out
}

/// Copies of the entries with every one that has the identity of `entry`
/// replaced by `entry`.
pub fn replace_entries(entries: &Vec<Entry>, entry: &Entry) -> (r: Vec<Entry>)
    ensures
        r.deep_view() == entries_replaced(entries.deep_view(), entry@),
{
    let mut out: Vec<Entry> = Vec::new();
    let mut i: usize = 0;
    while i < entries.len()
        invariant
            i <= entries.len(),
            out.len() == i,
            forall|k: int|
                0 <= k < i ==> out[k]@ == (if entries[k]@.id == entry@.id {
                    entry@
                } else {
                    entries[k]@
                }),
        decreases entries.len() - i,
    {
        if entries[i].id == entry.id {
            out.push(entry.clone());
        } else {
            out.push(entries[i].clone());
        }
        i += 1;
    }
    proof {
        assert(out.deep_view() =~= entries_replaced(entries.deep_view(), entry@));
    }
    out
}

/// Copies of the entries with the billed flag of those that have the
/// identity set to `flag`.
pub fn bill_entries(entries: &Vec<Entry>, id: i64, flag: bool) -> (r: Vec<Entry>)
    ensures
        r.deep_view() == entries_billed(entries.deep_view(), id, flag),
{
    let mut out: Vec<Entry> = Vec::new();
    let mut i: usize = 0;
    while i < entries.len()
        invariant
            i <= entries.len(),
            out.len() == i,
            forall|k: int|
                0 <= k < i ==> out[k]@ == (if entries[k]@.id == id {
                    EntryView { billed: flag, ..entries[k]@ }
                } else {
                    entries[k]@
                }),
        decreases entries.len() - i,
    {
        let mut copy = entries[i].clone();
        if copy.id == id {
            copy.billed = flag;
        }
        out.push(copy);
        i += 1;
    }
    proof {
        assert(out.deep_view() =~= entries_billed(entries.deep_view(), id, flag));
    }
    out
}

/// Copies of the clients with every one that has the identity of `client`
/// replaced by `client`.
pub fn replace_clients(clients: &Vec<Client>, client: &Client) -> (r: Vec<Client>)
    ensures
        r.deep_view() == clients_replaced(clients.deep_view(), client@),
{
    let mut out: Vec<Client> = Vec::new();
    let mut i: usize = 0;
    while i < clients.len()
        invariant
            i <= clients.len(),
            out.len() == i,
            forall|k: int|
                0 <= k < i ==> out[k]@ == (if clients[k]@.id == client@.id {
                    client@
                } else {
                    clients[k]@
                }),
        decreases clients.len() - i,
    {
        if clients[i].id == client.id {
            out.push(client.clone());
        } else {
            out.push(clients[i].clone());
        }
        i += 1;
    }
    proof {
        assert(out.deep_view() =~= clients_replaced(clients.deep_view(), client@));
    }
    out
}

/// Copies of the clients.
pub fn clone_clients(clients: &Vec<Client>) -> (r: Vec<Client>)
    ensures
        r.deep_view() == clients.deep_view(),
{
    let mut out: Vec<Client> = Vec::new();
    let mut i: usize = 0;
    while i < clients.len()
        invariant
            i <= clients.len(),
            out.len() == i,
            forall|k: int| 0 <= k < i ==> out[k]@ == clients[k]@,
        decreases clients.len() - i,
    {
        out.push(clients[i].clone());
        i += 1;
    }
    proof {
        assert(out.deep_view() =~= clients.deep_view());
    }
    out
}

/// Copies of the projects.
pub fn clone_projects(projects: &Vec<Project>) -> (r: Vec<Project>)
    ensures
        r.deep_view() == projects.deep_view(),
{
    let mut out: Vec<Project> = Vec::new();
    let mut i: usize = 0;
    while i < projects.len()
        invariant
            i <= projects.len(),
            out.len() == i,
            forall|k: int| 0 <= k < i ==> out[k]@ == projects[k]@,
        decreases projects.len() - i,
    {
        out.push(projects[i].clone());
        i += 1;
    }
    proof {
        assert(out.deep_view() =~= projects.deep_view());
    }
    out
}

/// The position of the project with the name.
pub fn find_project_named(projects: &Vec<Project>, name: &String) -> (r: Option<usize>)
    ensures
        r.is_some() == project_index(projects.deep_view(), name@).is_some(),
        r.is_some() ==> r.unwrap() == project_index(projects.deep_view(), name@).unwrap()
            && r.unwrap() < projects.len(),
{
    let mut i: usize = 0;
    proof {
        assert(projects.deep_view().subrange(0, 0) =~= Seq::<ProjectView>::empty());
    }
    while i < projects.len()
        invariant
            i <= projects.len(),
            project_index(projects.deep_view().subrange(0, i as int), name@).is_none(),
        decreases projects.len() - i,
    {
        proof {
            let upto = projects.deep_view().subrange(0, i + 1);
            assert(upto.drop_last() =~= projects.deep_view().subrange(0, i as int));
            assert(upto.last() == projects[i as int]@);
        }
        if projects[i].name == *name {
            proof {
                lemma_project_index_stays(projects.deep_view(), name@, i + 1);
            }
            return Some(i);
        }
        i += 1;
    }
    proof {
        assert(projects.deep_view().subrange(0, projects.len() as int) =~= projects.deep_view());
    }
    None
}

/// Once a leading part of the projects holds the name, the position of the
/// name in the whole list is its position in that part.
pub proof fn lemma_project_index_stays(projects: Seq<ProjectView>, name: Seq<char>, k: int)
    requires
        0 <= k <= projects.len(),
        project_index(projects.subrange(0, k), name).is_some(),
    ensures
        project_index(projects, name) == project_index(projects.subrange(0, k), name),
    decreases projects.len(),
{
    if k == projects.len() {
        assert(projects.subrange(0, k) =~= projects);
    } else {
        assert(projects.drop_last().subrange(0, k) =~= projects.subrange(0, k));
        lemma_project_index_stays(projects.drop_last(), name, k);
    }
}

/// The greatest invoice number on record, or zero.
pub fn greatest_number(invoices: &Vec<Invoice>) -> (r: i64)
    ensures
        r == greatest_invoice_number(invoices.deep_view()),
        r >= 0,
{
    let mut best: i64 = 0;
    let mut i: usize = 0;
    proof {
        assert(invoices.deep_view().subrange(0, 0) =~= Seq::<InvoiceView>::empty());
    }
    while i < invoices.len()
        invariant
            i <= invoices.len(),
            best == greatest_invoice_number(invoices.deep_view().subrange(0, i as int)),
            best >= 0,
        decreases invoices.len() - i,
    {
        proof {
            let upto = invoices.deep_view().subrange(0, i + 1);
            assert(upto.drop_last() =~= invoices.deep_view().subrange(0, i as int));
            assert(upto.last() == invoices[i as int]@);
        }
        if invoices[i].invoice_number > best {
            best = invoices[i].invoice_number;
        }
        i += 1;
    }
    proof {
        assert(invoices.deep_view().subrange(0, invoices.len() as int) =~= invoices.deep_view());
    }
    best
}

impl Store {
    /// A store without records.
    pub fn new() -> (r: Store)
        ensures
            r@ == StoreView::empty(),
            r@.wf(),
    {
        let entries: Vec<Entry> = Vec::new();
        let projects: Vec<Project> = Vec::new();
        let clients: Vec<Client> = Vec::new();
        let invoices: Vec<Invoice> = Vec::new();
        proof {
            assert(entries.deep_view() =~= Seq::<EntryView>::empty());
            assert(projects.deep_view() =~= Seq::<ProjectView>::empty());
            assert(clients.deep_view() =~= Seq::<ClientView>::empty());
            assert(invoices.deep_view() =~= Seq::<InvoiceView>::empty());
        }
        Store {
            entries,
            next_entry_id: 1,
            projects,
            next_project_id: 1,
            clients,
            next_client_id: 1,
            pomodoro_config: PomodoroConfig::default(),
            invoice_settings: InvoiceSettings::default(),
            invoices,
        }
    }

    /// The active entry: the running entry that started last.
    pub fn get_active_entry(&self) -> (r: Option<Entry>)
        ensures
            r.deep_view() == self@.active_entry(),
    {
        match find_active(&self.entries) {
            Some(i) => Some(self.entries[i].clone()),
            None => None,
        }
    }

    /// Inserts a running entry that starts at `now`. Returns whether it was
    /// inserted; it is not where identities have run out.
    pub fn start_timer(&mut self, project: String, description: String, now: &Timestamp) -> (done:
        bool)
        ensures
            done == old(self)@.can_insert_entry(),
            final(self)@ == old(self)@.started(project@, description@, *now),
            old(self)@.wf() ==> final(self)@.wf(),
            old(self)@.wf() && done ==> old(self)@.entry_id_is_fresh(
                final(self)@.entries.last().id,
            ),
    {
        proof {
            if old(self)@.wf() {
                law_new_entry_gets_fresh_identity(
                    old(self)@,
                    EntryView {
                        id: 0,
                        project: project@,
                        description: description@,
                        start: *now,
                        end: None,
                        billed: false,
                    },
                );
            }
        }
        if self.next_entry_id < i64::MAX {
            let ghost before = self.entries.deep_view();
            let entry = Entry {
                id: self.next_entry_id,
                project,
                description,
                start: *now,
                end: None,
                billed: false,
            };
            self.entries.push(entry);
            self.next_entry_id = self.next_entry_id + 1;
            proof {
                assert(self.entries.deep_view() =~= before.push(entry@));
            }
            true
        } else {
            false
        }
    }

    /// Ends the active entry at `now`. Returns the entry as it is stored
    /// afterwards, or `None` where no entry ran; nothing changes then.
    pub fn stop_active_timer(&mut self, now: &Timestamp) -> (stopped: Option<Entry>)
        ensures
            final(self)@ == old(self)@.stopped(*now),
            stopped.deep_view() == (match old(self)@.active_entry() {
                Some(e) => Some(EntryView { end: Some(*now), ..e }),
                None => None,
            }),
            old(self)@.wf() ==> final(self)@.wf(),
    {
        proof {
            law_served_store_keeps_identities(old(self)@, RequestView::StopActiveTimer, *now);
        }
        match find_active(&self.entries) {
            Some(i) => {
                let ghost before = self.entries.deep_view();
                let mut entry = self.entries[i].clone();
                entry.end = Some(*now);
                let copy = entry.clone();
                self.entries.set(i, entry);
                proof {
                    assert(self.entries.deep_view() =~= before.update(i as int, copy@));
                }
                Some(copy)
            },
            None => None,
        }
    }

    /// Stores an entry as it is, under a fresh identity. Returns whether it
    /// was stored; it is not where identities have run out.
    pub fn insert(&mut self, entry: Entry) -> (done: bool)
        ensures
            done == old(self)@.can_insert_entry(),
            final(self)@ == old(self)@.inserted(entry@),
            old(self)@.wf() ==> final(self)@.wf(),
            old(self)@.wf() && done ==> old(self)@.entry_id_is_fresh(
                final(self)@.entries.last().id,
            ),
    {
        proof {
            if old(self)@.wf() {
                law_new_entry_gets_fresh_identity(old(self)@, entry@);
            }
        }
        if self.next_entry_id < i64::MAX {
            let ghost before = self.entries.deep_view();
            let mut stored = entry;
            stored.id = self.next_entry_id;
            self.entries.push(stored);
            self.next_entry_id = self.next_entry_id + 1;
            proof {
                assert(self.entries.deep_view() =~= before.push(stored@));
            }
            true
        } else {
            false
        }
    }

    /// The number that the next invoice gets, or `None` where numbers have
    /// run out.
    pub fn get_next_invoice_number(&self) -> (r: Option<i64>)
        ensures
            r.is_some() == (self@.next_invoice_number() <= i64::MAX),
            r.is_some() ==> r.unwrap() == self@.next_invoice_number(),
    {
        let greatest = greatest_number(&self.invoices);
        if greatest < i64::MAX {
            Some(greatest + 1)
        } else {
            None
        }
    }

    /// Puts an invoice on record.
    pub fn record_invoice(&mut self, invoice: Invoice)
        ensures
            final(self)@ == (StoreView {
                invoices: old(self)@.invoices.push(invoice@),
                ..old(self)@
            }),
            old(self)@.wf() ==> final(self)@.wf(),
    {
        let ghost before = self.invoices.deep_view();
        self.invoices.push(invoice);
        proof {
            assert(self.invoices.deep_view() =~= before.push(invoice@));
        }
    }

    /// The entries of an invoice plan.
    pub fn plan_entries(&self, source: EntrySource) -> (r: Vec<Entry>)
        ensures
            r.deep_view() == self@.plan_entries(source@),
    {
        match source {
            EntrySource::Range(start, end) => list_entries_between(
                &self.entries,
                &start,
                &end,
                Some(true),
            ),
            EntrySource::Listed(entries) => entries,
        }
    }

    /// Generates the invoice as planned at `now`: computes it, puts it on
    /// record and reports its number and file, or reports why it could not
    /// be generated. Nothing is rendered.
    pub fn generate_invoice(&mut self, plan: InvoicePlan, now: &Timestamp) -> (reply: Reply)
        ensures
            final(self)@ == old(self)@.generated(plan@, *now),
            reply@ == old(self)@.answer(RequestView::GenerateInvoice(plan@), *now),
            old(self)@.wf() ==> final(self)@.wf(),
    {
        let InvoicePlan { source, year, month, rates, client, client_id } = plan;
        let entries = self.plan_entries(source);
        let number = match self.get_next_invoice_number() {
            Some(n) => n,
            None => {
                return Reply::InvoiceFailed("invoice numbers have run out".to_string());
            },
        };
        let tax_rate = self.invoice_settings.default_tax_rate;
        let prepared = {
            let params = InvoiceParams {
                entries: &entries,
                project_rates: &rates,
                year,
                month,
                invoice_number: number,
                settings: &self.invoice_settings,
                client: client.as_ref(),
                tax_rate,
            };
            prepare_invoice(&params, "memory", now)
        };
        match prepared {
            Ok(doc) => {
                let record = invoice_record(&doc.result, number, client_id, tax_rate);
                proof {
                    assert(old(self)@.can_generate(plan@));
                    assert(record@ == old(self)@.generated_record(plan@, *now));
                }
                self.record_invoice(record);
                Reply::InvoiceWritten(number, doc.result.file_path)
            },
            Err(e) => {
                proof {
                    assert(!old(self)@.can_generate(plan@));
                }
                Reply::InvoiceFailed(e.message())
            },
        }
    }

    /// Sets the rate of the named project, creating the project where it is
    /// missing. Returns whether that was done.
    pub fn set_project_rate(&mut self, name: String, rate: Option<u64>, currency: Option<String>)
        -> (done: bool)
        ensures
            done == old(self)@.can_set_rate(name@),
            final(self)@ == old(self)@.rate_set(name@, rate, currency.deep_view()),
            old(self)@.wf() ==> final(self)@.wf(),
    {
        proof {
            if old(self)@.wf() {
                lemma_rated_store_keeps_identities(old(self)@, name@, rate, currency.deep_view());
            }
        }
        match find_project_named(&self.projects, &name) {
            Some(i) => {
                let ghost before = self.projects.deep_view();
                let old_project = &self.projects[i];
                let project = Project {
                    id: old_project.id,
                    name: old_project.name.clone(),
                    rate,
                    currency: match currency {
                        Some(c) => Some(c),
                        None => clone_text_option(&old_project.currency),
                    },
                };
                let ghost stored = project@;
                self.projects.set(i, project);
                proof {
                    assert(self.projects.deep_view() =~= before.update(i as int, stored));
                }
                true
            },
            None => {
                if self.next_project_id < i64::MAX {
                    let ghost before = self.projects.deep_view();
                    let project = Project {
                        id: self.next_project_id,
                        name,
                        rate,
                        currency: match currency {
                            Some(c) => Some(c),
                            None => Some("$".to_string()),
                        },
                    };
                    let ghost stored = project@;
                    self.projects.push(project);
                    self.next_project_id = self.next_project_id + 1;
                    proof {
                        assert(self.projects.deep_view() =~= before.push(stored));
                    }
                    true
                } else {
                    false
                }
            },
        }
    }

    /// Inserts the client under a fresh identity. Returns whether it was
    /// inserted.
    pub fn add_client(&mut self, client: Client) -> (done: bool)
        ensures
            done == (old(self)@.next_client_id < i64::MAX),
            final(self)@ == old(self)@.client_added(client@),
            old(self)@.wf() ==> final(self)@.wf(),
            old(self)@.wf() && done ==> old(self)@.client_id_is_fresh(
                final(self)@.clients.last().id,
            ),
    {
        proof {
            if old(self)@.wf() {
                law_new_client_gets_fresh_identity(old(self)@, client@);
            }
        }
        if self.next_client_id < i64::MAX {
            let ghost before = self.clients.deep_view();
            let mut stored = client;
            stored.id = self.next_client_id;
            let ghost view = stored@;
            self.clients.push(stored);
            self.next_client_id = self.next_client_id + 1;
            proof {
                assert(self.clients.deep_view() =~= before.push(view));
            }
            true
        } else {
            false
        }
    }

    /// What a session reads when it opens on the store.
    pub fn snapshot(&self) -> (r: Snapshot)
        ensures
            r@ == self@.snapshot(),
    {
        Snapshot {
            entries: list_entries(&self.entries, None),
            active_entry: self.get_active_entry(),
            pomodoro_config: self.pomodoro_config,
            clients: clone_clients(&self.clients),
            invoice_settings: self.invoice_settings.clone(),
        }
    }

    fn save_entry(&mut self, entry: Entry, start_text: String, end_text: String)
        ensures
            old(self)@.saves(entry@, start_text@, end_text@, final(self)@),
    {
        let resolved = resolve_entry(entry, start_text.as_str(), end_text.as_str());
        self.entries = replace_entries(&self.entries, &resolved);
        proof {
            let (start, end) = choose|start: LocalTime, end: LocalTime| #[trigger]
                saved_as(entry@, start_text@, end_text@, start, end, resolved@);
            assert(self@ == old(self)@.saved(entry@, start, end_text@, end));
        }
    }

    fn delete_entry(&mut self, id: i64)
        ensures
            final(self)@ == (StoreView {
                entries: entries_without(old(self)@.entries, id),
                ..old(self)@
            }),
    {
        self.entries = remove_entries(&self.entries, id);
    }

    fn set_billed(&mut self, id: i64, flag: bool)
        ensures
            final(self)@ == (StoreView {
                entries: entries_billed(old(self)@.entries, id, flag),
                ..old(self)@
            }),
    {
        self.entries = bill_entries(&self.entries, id, flag);
    }

    fn update_client(&mut self, client: Client)
        ensures
            final(self)@ == (StoreView {
                clients: clients_replaced(old(self)@.clients, client@),
                ..old(self)@
            }),
    {
        self.clients = replace_clients(&self.clients, &client);
    }

    fn delete_client(&mut self, id: i64)
        ensures
            final(self)@ == (StoreView {
                clients: clients_without(old(self)@.clients, id),
                ..old(self)@
            }),
    {
        self.clients = remove_clients(&self.clients, id);
    }

    fn invoice_data(&self) -> (reply: Reply)
        ensures
            reply@ == ReplyView::InvoiceData(
                listed(self@.entries, Some(true)),
                Some(self@.projects),
            ),
    {
        Reply::InvoiceData(
            list_entries(&self.entries, Some(true)),
            Some(clone_projects(&self.projects)),
        )
    }

    fn serve_entries(&mut self, request: Request, now: &Timestamp) -> (reply: Reply)
        requires
            request@ is StartTimer || request@ is StopActiveTimer || request@ is GetActiveEntry
                || request@ is ListEntries || request@ is DeleteEntry || request@ is MarkBilled
                || request@ is UnmarkBilled || request@ is InvoiceData
                || request@ is GenerateInvoice,
        ensures
            final(self)@ == old(self)@.after(request@, *now),
            reply@ == old(self)@.answer(request@, *now),
    {
        match request {
            Request::StartTimer(project, description) => {
                if self.start_timer(project, description, now) {
                    Reply::Done
                } else {
                    Reply::Failed
                }
            },
            Request::StopActiveTimer => {
                let _ = self.stop_active_timer(now);
                Reply::Done
            },
            Request::GetActiveEntry => Reply::ActiveEntry(self.get_active_entry()),
            Request::ListEntries(billed) => Reply::Entries(list_entries(&self.entries, billed)),
            Request::DeleteEntry(id) => {
                self.delete_entry(id);
                Reply::Done
            },
            Request::MarkBilled(id) => {
                self.set_billed(id, true);
                Reply::Done
            },
            Request::UnmarkBilled(id) => {
                self.set_billed(id, false);
                Reply::Done
            },
            Request::InvoiceData => self.invoice_data(),
            Request::GenerateInvoice(plan) => self.generate_invoice(plan, now),
            _ => Reply::Nothing,
        }
    }

    fn serve_records(&mut self, request: Request, now: &Timestamp) -> (reply: Reply)
        requires
            request@ is Nothing || request@ is ListProjects || request@ is SetProjectRate
                || request@ is GetPomodoroConfig || request@ is ListClients
                || request@ is AddClient || request@ is UpdateClient || request@ is DeleteClient
                || request@ is SetInvoiceSettings,
        ensures
            final(self)@ == old(self)@.after(request@, *now),
            reply@ == old(self)@.answer(request@, *now),
    {
        match request {
            Request::ListProjects => Reply::Projects(clone_projects(&self.projects)),
            Request::SetProjectRate(name, rate, currency) => {
                if self.set_project_rate(name, rate, currency) {
                    Reply::Done
                } else {
                    Reply::Failed
                }
            },
            Request::GetPomodoroConfig => Reply::PomodoroConfig(self.pomodoro_config),
            Request::ListClients => Reply::Clients(clone_clients(&self.clients)),
            Request::AddClient(client) => {
                if self.add_client(client) {
                    Reply::Done
                } else {
                    Reply::Failed
                }
            },
            Request::UpdateClient(client) => {
                self.update_client(client);
                Reply::Done
            },
            Request::DeleteClient(id) => {
                self.delete_client(id);
                Reply::Done
            },
            Request::SetInvoiceSettings(settings) => {
                self.invoice_settings = settings;
                Reply::Done
            },
            _ => Reply::Nothing,
        }
    }

    /// Serves a request at `now` and answers it.
    ///
    /// The texts of an entry's local times and the meaning of an edited
    /// entry's time fields depend on the machine's time zone;
    /// [`StoreView::serves`] says what holds of them on every machine, and
    /// pins every other request down. Identities that were in order stay so.
    pub fn perform(&mut self, request: Request, now: &Timestamp) -> (reply: Reply)
        ensures
            old(self)@.serves(request@, *now, reply@, final(self)@),
            old(self)@.wf() ==> final(self)@.wf(),
    {
        proof {
            law_served_store_keeps_identities(old(self)@, request@, *now);
        }
        match request {
            Request::LocalTimes(start, end) => local_times_reply(&start, end.as_ref()),
            Request::SaveEntry(entry, start_text, end_text) => {
                self.save_entry(entry, start_text, end_text);
                proof {
                    lemma_saved_store_keeps_identities(
                        old(self)@,
                        entry@,
                        start_text@,
                        end_text@,
                        self@,
                    );
                }
                Reply::Done
            },
            Request::StartTimer(_, _)
            | Request::StopActiveTimer
            | Request::GetActiveEntry
            | Request::ListEntries(_)
            | Request::DeleteEntry(_)
            | Request::MarkBilled(_)
            | Request::UnmarkBilled(_)
            | Request::InvoiceData
            | Request::GenerateInvoice(_) => self.serve_entries(request, now),
            _ => self.serve_records(request, now),
        }
    }

    /// Carries out an effect at `now` as far as it concerns the store.
    pub fn apply(&mut self, effect: Effect, now: &Timestamp)
        ensures
            final(self)@ == old(self)@.affected(effect, *now),
            old(self)@.wf() ==> final(self)@.wf(),
    {
        proof {
            law_affected_store_keeps_identities(old(self)@, effect, *now);
        }
        match effect {
            Effect::Nothing => {},
            Effect::WorkComplete => {
                let _ = self.stop_active_timer(now);
            },
            Effect::BreakComplete => {},
            Effect::SavePomodoroEnabled(enabled) => {
                self.pomodoro_config.enabled = enabled;
            },
            Effect::SavePomodoroConfig(config) => {
                self.pomodoro_config = config;
            },
        }
    }
}

} // verus!
