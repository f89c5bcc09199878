//! The invoice screen: the choice of the invoice's period or entries, the plan
//! of an invoice, and what is reported once it was written.

use crate::invoice::ProjectRate;
use crate::models::{Client, Entry, EntryView};
use crate::session::lookup::{select_next, select_previous, step_down, step_up};
use crate::session::protocol::{
    EntrySource, EntrySourceView, InvoicePlan, InvoicePlanView, Message, Outcome, Reply, ReplyView,
};
use crate::session::state::{App, AppView, InvoiceMode};
use crate::text::{push_signed, push_text, signed_decimal};
use crate::time::{Timestamp, civil_date};
use vstd::prelude::*;

verus! {

/// A list of identities without every occurrence of `id`.
pub open spec fn without_id(ids: Seq<i64>, id: i64) -> Seq<i64>
    decreases ids.len(),
{
    if ids.len() == 0 {
        Seq::empty()
    } else if ids.last() == id {
        without_id(ids.drop_last(), id)
    } else {
        without_id(ids.drop_last(), id).push(ids.last())
    }
}

/// A selection after `id` was toggled: removed where it was selected, added
/// at the end where it was not.
pub open spec fn toggled(ids: Seq<i64>, id: i64) -> Seq<i64> {
    if ids.contains(id) {
        without_id(ids, id)
    } else {
        ids.push(id)
    }
}

/// The entries whose identity is among `ids`, in their order.
pub open spec fn entries_among(entries: Seq<EntryView>, ids: Seq<i64>) -> Seq<EntryView>
    decreases entries.len(),
{
    if entries.len() == 0 {
        Seq::empty()
    } else if ids.contains(entries.last().id) {
        entries_among(entries.drop_last(), ids).push(entries.last())
    } else {
        entries_among(entries.drop_last(), ids)
    }
}

/// The last day of the month before the one that holds `now`, at the time of
/// day of `now`: one day before the first of the month.
pub open spec fn last_of_prior_month(now: Timestamp) -> Option<Timestamp> {
    match now.spec_first_of_month() {
        Some(first) => first.spec_checked_sub_days(1),
        None => None,
    }
}

/// Whether `id` is in the list.
pub fn contains_id(ids: &Vec<i64>, id: i64) -> (r: bool)
    ensures
        r == ids@.contains(id),
{
    let mut i: usize = 0;
    while i < ids.len()
        invariant
            i <= ids.len(),
            forall|k: int| 0 <= k < i ==> ids@[k] != id,
        decreases ids.len() - i,
    {
        if ids[i] == id {
            return true;
        }
        i += 1;
    }
    false
}

/// The list without every occurrence of `id`.
pub fn remove_id(ids: &Vec<i64>, id: i64) -> (r: Vec<i64>)
    ensures
        r@ == without_id(ids@, id),
{
    let mut kept: Vec<i64> = Vec::new();
    let mut i: usize = 0;
    proof {
        assert(ids@.subrange(0, 0) =~= Seq::<i64>::empty());
    }
    while i < ids.len()
        invariant
            i <= ids.len(),
            kept@ == without_id(ids@.subrange(0, i as int), id),
        decreases ids.len() - i,
    {
        proof {
            let upto = ids@.subrange(0, i + 1);
            assert(upto.drop_last() =~= ids@.subrange(0, i as int));
            assert(upto.last() == ids@[i as int]);
        }
        if ids[i] != id {
            kept.push(ids[i]);
        }
        i += 1;
    }
    proof {
        assert(ids@.subrange(0, ids.len() as int) =~= ids@);
    }
    kept
}

/// Copies of the entries whose identity is among `ids`, in their order.
pub fn select_entries(entries: &Vec<Entry>, ids: &Vec<i64>) -> (r: Vec<Entry>)
    ensures
        r.deep_view() == entries_among(entries.deep_view(), ids@),
{
    let mut chosen: Vec<Entry> = Vec::new();
    let mut i: usize = 0;
    proof {
        assert(entries.deep_view().subrange(0, 0) =~= Seq::<EntryView>::empty());
        assert(chosen.deep_view() =~= Seq::<EntryView>::empty());
    }
    while i < entries.len()
        invariant
            i <= entries.len(),
            chosen.deep_view() == entries_among(entries.deep_view().subrange(0, i as int), ids@),
        decreases entries.len() - i,
    {
        let ghost before = chosen.deep_view();
        proof {
            let upto = entries.deep_view().subrange(0, i + 1);
            assert(upto.drop_last() =~= entries.deep_view().subrange(0, i as int));
            assert(upto.last() == entries[i as int]@);
        }
        if contains_id(ids, entries[i].id) {
            let copy = entries[i].clone();
            chosen.push(copy);
            proof {
                assert(chosen.deep_view() =~= before.push(copy@));
            }
        }
        i += 1;
    }
    proof {
        assert(entries.deep_view().subrange(0, entries.len() as int) =~= entries.deep_view());
    }
    chosen
}

/// A copy of a rate table.
pub fn clone_rates(rates: &Vec<ProjectRate>) -> (r: Vec<ProjectRate>)
    ensures
        r.deep_view() == rates.deep_view(),
{
    let mut copy: Vec<ProjectRate> = Vec::new();
    let mut i: usize = 0;
    while i < rates.len()
        invariant
            i <= rates.len(),
            copy.len() == i,
            forall|k: int| 0 <= k < i ==> copy[k]@ == rates[k]@,
        decreases rates.len() - i,
    {
        copy.push(rates[i].clone());
        i += 1;
    }
    proof {
        assert(copy.deep_view() =~= rates.deep_view());
    }
    copy
}

impl AppView {
    /// `NextInvoiceMode`: the next mode of the list, the last being followed
    /// by the first; while single entries are chosen, the next entry.
    pub open spec fn next_invoice_mode(self) -> AppView {
        if self.invoice_mode != InvoiceMode::SelectEntries {
            let index = (self.invoice_mode_index + 1) % 4;
            AppView {
                invoice_mode_index: index as usize,
                invoice_mode: InvoiceMode::at(index),
                ..self
            }
        } else {
            AppView {
                invoice_select_index: step_down(
                    self.invoice_select_index,
                    self.invoice_entries.len(),
                ),
                ..self
            }
        }
    }

    /// `PrevInvoiceMode`: the mode before, the first being preceded by the
    /// last; while single entries are chosen, the entry before.
    pub open spec fn prev_invoice_mode(self) -> AppView {
        if self.invoice_mode != InvoiceMode::SelectEntries {
            let index: int = if self.invoice_mode_index == 0 {
                3
            } else {
                self.invoice_mode_index - 1
            };
            AppView {
                invoice_mode_index: index as usize,
                invoice_mode: InvoiceMode::at(index),
                ..self
            }
        } else {
            AppView { invoice_select_index: step_up(self.invoice_select_index), ..self }
        }
    }

    /// The choice of single entries can be entered: it is the mode under the
    /// cursor and not entered yet.
    pub open spec fn can_select_entries(self) -> bool {
        self.invoice_mode != InvoiceMode::SelectEntries && self.invoice_mode_index == 3
    }

    /// `SelectInvoiceMode`, the store having been asked for the billed
    /// entries and the projects where single entries can be chosen.
    pub open spec fn select_invoice_mode(self, reply: ReplyView) -> AppView {
        if self.can_select_entries() {
            AppView { invoice_mode: InvoiceMode::SelectEntries, ..self }.with_invoice_data(reply)
        } else {
            self
        }
    }

    /// Where the entries of the invoice come from at `now`: the month of
    /// `now` up to `now`; the month before, from its first midnight to the
    /// first day of this month at the time of `now`; the custom range where it
    /// has both ends; or the chosen entries. No entries where a month's first
    /// day cannot be computed.
    pub open spec fn invoice_source(self, now: Timestamp) -> EntrySourceView {
        match self.invoice_mode {
            InvoiceMode::CurrentMonth => match now.spec_start_of_month() {
                Some(start) => EntrySourceView::Range(start, now),
                None => EntrySourceView::Listed(Seq::empty()),
            },
            InvoiceMode::PriorMonth => match (now.spec_first_of_month(), last_of_prior_month(now)) {
                (Some(first), Some(last)) => match last.spec_start_of_month() {
                    Some(start) => EntrySourceView::Range(start, first),
                    None => EntrySourceView::Listed(Seq::empty()),
                },
                _ => EntrySourceView::Listed(Seq::empty()),
            },
            InvoiceMode::CustomRange => match (self.custom_start_date, self.custom_end_date) {
                (Some(start), Some(end)) => EntrySourceView::Range(start, end),
                _ => EntrySourceView::Listed(Seq::empty()),
            },
            InvoiceMode::SelectEntries => EntrySourceView::Listed(
                entries_among(self.invoice_entries, self.selected_entry_ids),
            ),
        }
    }

    /// The instant whose month is printed on the invoice as its period.
    pub open spec fn invoice_period_anchor(self, now: Timestamp) -> Timestamp {
        match self.invoice_mode {
            InvoiceMode::PriorMonth => match last_of_prior_month(now) {
                Some(last) => last,
                None => now,
            },
            InvoiceMode::CustomRange => match self.custom_start_date {
                Some(start) => start,
                None => now,
            },
            _ => now,
        }
    }

    /// The plan of the invoice that `GenerateInvoice` asks for at `now`.
    pub open spec fn invoice_plan(self, now: Timestamp) -> InvoicePlanView {
        let period = civil_date(self.invoice_period_anchor(now).spec_secs());
        InvoicePlanView {
            source: self.invoice_source(now),
            year: period.year,
            month: period.month,
            rates: self.project_rates,
            client: self.selected_invoice_client_view(),
            client_id: self.selected_invoice_client,
        }
    }

    /// `GenerateInvoice`, the surroundings having been asked to render and
    /// record the invoice: the status reports the file or the failure.
    pub open spec fn invoice_generated(self, reply: ReplyView) -> AppView {
        match reply {
            ReplyView::InvoiceWritten(number, path) => AppView {
                status_message: Some(
                    "Invoice #"@ + signed_decimal(number as int) + " written to "@ + path,
                ),
                ..self
            },
            ReplyView::InvoiceFailed(error) => AppView {
                status_message: Some("Failed to write invoice: "@ + error),
                ..self
            },
            _ => self,
        }
    }

    /// What the messages of the invoice screen do to a session; any other
    /// message leaves it as it is.
    pub open spec fn on_invoicing(self, msg: Message, reply: ReplyView) -> (AppView, Outcome) {
        match msg {
            Message::NextInvoiceMode => (self.next_invoice_mode(), Outcome::nothing()),
            Message::PrevInvoiceMode => (self.prev_invoice_mode(), Outcome::nothing()),
            Message::SelectInvoiceMode => (self.select_invoice_mode(reply), Outcome::nothing()),
            Message::ToggleEntrySelection(id) => (
                AppView { selected_entry_ids: toggled(self.selected_entry_ids, id), ..self },
                Outcome::nothing(),
            ),
            Message::NextInvoiceEntry => (
                AppView {
                    invoice_select_index: step_down(
                        self.invoice_select_index,
                        self.invoice_entries.len(),
                    ),
                    ..self
                },
                Outcome::nothing(),
            ),
            Message::PrevInvoiceEntry => (
                AppView { invoice_select_index: step_up(self.invoice_select_index), ..self },
                Outcome::nothing(),
            ),
            Message::GenerateInvoice => (self.invoice_generated(reply), Outcome::nothing()),
            _ => (self, Outcome::nothing()),
        }
    }
}

/// The last day of the month before the one that holds `now`.
pub fn prior_month_last_day(now: &Timestamp) -> (r: Option<Timestamp>)
    ensures
        r == last_of_prior_month(*now),
{
    match now.first_of_month() {
        Some(first) => first.checked_sub_days(1),
        None => None,
    }
}

/// An entry source without entries.
pub fn no_entries() -> (r: EntrySource)
    ensures
        r@ == EntrySourceView::Listed(Seq::empty()),
{
    let none: Vec<Entry> = Vec::new();
    proof {
        assert(none.deep_view() =~= Seq::<EntryView>::empty());
    }
    EntrySource::Listed(none)
}

impl App {
    fn next_invoice_mode(&mut self)
        ensures
            final(self)@ == old(self)@.next_invoice_mode(),
    {
        if self.invoice_mode != InvoiceMode::SelectEntries {
            let index: usize = (self.invoice_mode_index % 4 + 1) % 4;
            self.invoice_mode_index = index;
            self.invoice_mode = InvoiceMode::from_index(index);
        } else {
            self.invoice_select_index = select_next(
                self.invoice_select_index,
                self.invoice_entries.len(),
            );
        }
    }

    fn prev_invoice_mode(&mut self)
        ensures
            final(self)@ == old(self)@.prev_invoice_mode(),
    {
        if self.invoice_mode != InvoiceMode::SelectEntries {
            let index: usize = if self.invoice_mode_index == 0 {
                3
            } else {
                self.invoice_mode_index - 1
            };
            self.invoice_mode_index = index;
            self.invoice_mode = InvoiceMode::from_index(index);
        } else {
            self.invoice_select_index = select_previous(self.invoice_select_index);
        }
    }

    /// Whether the choice of single entries can be entered.
    pub fn can_select_entries(&self) -> (r: bool)
        ensures
            r == self@.can_select_entries(),
    {
        self.invoice_mode != InvoiceMode::SelectEntries && self.invoice_mode_index == 3
    }

    fn select_invoice_mode(&mut self, reply: Reply)
        ensures
            final(self)@ == old(self)@.select_invoice_mode(reply@),
    {
        if self.can_select_entries() {
            self.invoice_mode = InvoiceMode::SelectEntries;
            self.take_invoice_data(reply);
        }
    }

    fn toggle_entry_selection(&mut self, id: i64)
        ensures
            final(self)@ == (AppView {
                selected_entry_ids: toggled(old(self)@.selected_entry_ids, id),
                ..old(self)@
            }),
    {
        if contains_id(&self.selected_entry_ids, id) {
            self.selected_entry_ids = remove_id(&self.selected_entry_ids, id);
        } else {
            self.selected_entry_ids.push(id);
        }
    }

    /// Where the entries of the invoice come from at `now`.
    pub fn invoice_source(&self, now: &Timestamp) -> (r: EntrySource)
        ensures
            r@ == self@.invoice_source(*now),
    {
        match self.invoice_mode {
            InvoiceMode::CurrentMonth => match now.start_of_month() {
                Some(start) => EntrySource::Range(start, *now),
                None => no_entries(),
            },
            InvoiceMode::PriorMonth => match now.first_of_month() {
                Some(first) => match prior_month_last_day(now) {
                    Some(last) => match last.start_of_month() {
                        Some(start) => EntrySource::Range(start, first),
                        None => no_entries(),
                    },
                    None => no_entries(),
                },
                None => no_entries(),
            },
            InvoiceMode::CustomRange => match self.custom_start_date {
                Some(start) => match self.custom_end_date {
                    Some(end) => EntrySource::Range(start, end),
                    None => no_entries(),
                },
                None => no_entries(),
            },
            InvoiceMode::SelectEntries => EntrySource::Listed(
                select_entries(&self.invoice_entries, &self.selected_entry_ids),
            ),
        }
    }

    /// The instant whose month is printed on the invoice as its period.
    pub fn invoice_period_anchor(&self, now: &Timestamp) -> (r: Timestamp)
        ensures
            r == self@.invoice_period_anchor(*now),
    {
        match self.invoice_mode {
            InvoiceMode::PriorMonth => match prior_month_last_day(now) {
                Some(last) => last,
                None => *now,
            },
            InvoiceMode::CustomRange => match self.custom_start_date {
                Some(start) => start,
                None => *now,
            },
            _ => *now,
        }
    }

    /// The plan of the invoice to generate at `now`.
    pub fn invoice_plan(&self, now: &Timestamp) -> (r: InvoicePlan)
        ensures
            r@ == self@.invoice_plan(*now),
    {
        let period = self.invoice_period_anchor(now).date();
        let client: Option<Client> = match self.get_selected_invoice_client() {
            Some(c) => Some(c.clone()),
            None => None,
        };
        InvoicePlan {
            source: self.invoice_source(now),
            year: period.year,
            month: period.month,
            rates: clone_rates(&self.project_rates),
            client,
            client_id: self.selected_invoice_client,
        }
    }

    fn invoice_generated(&mut self, reply: Reply)
        ensures
            final(self)@ == old(self)@.invoice_generated(reply@),
    {
        match reply {
            Reply::InvoiceWritten(number, path) => {
                let mut text = "Invoice #".to_string();
                push_signed(&mut text, number);
                push_text(&mut text, " written to ");
                push_text(&mut text, path.as_str());
                self.status_message = Some(text);
            },
            Reply::InvoiceFailed(error) => {
                let mut text = "Failed to write invoice: ".to_string();
                push_text(&mut text, error.as_str());
                self.status_message = Some(text);
            },
            _ => {},
        }
    }

    /// Processes a message of the invoice screen, `reply` being what the
    /// surroundings answered to the message's request.
    pub fn update_invoicing(&mut self, msg: Message, reply: Reply) -> (out: Outcome)
        ensures
            (final(self)@, out) == old(self)@.on_invoicing(msg, reply@),
    {
        match msg {
            Message::NextInvoiceMode => {
                self.next_invoice_mode();
            },
            Message::PrevInvoiceMode => {
                self.prev_invoice_mode();
            },
            Message::SelectInvoiceMode => {
                self.select_invoice_mode(reply);
            },
            Message::ToggleEntrySelection(id) => {
                self.toggle_entry_selection(id);
            },
            Message::NextInvoiceEntry => {
                self.invoice_select_index = select_next(
                    self.invoice_select_index,
                    self.invoice_entries.len(),
                );
            },
            Message::PrevInvoiceEntry => {
                self.invoice_select_index = select_previous(self.invoice_select_index);
            },
            Message::GenerateInvoice => {
                self.invoice_generated(reply);
            },
            _ => {},
        }
        Outcome::none()
    }
}

} // verus!
