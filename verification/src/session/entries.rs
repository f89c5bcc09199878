//! The entries list: selection, deletion with confirmation, billing, and the
//! entry editor with its local-time fields.

use crate::models::{Entry, EntryView};
use crate::session::lookup::{
    clamp_selection, clamped, entry_with_id, find_entry, select_next, select_previous, step_down,
    step_up,
};
use crate::session::protocol::{Message, Outcome, Reply, ReplyView};
use crate::session::state::{App, AppView, EditField, EntryForm, EntryFormView, InputMode};
use crate::text::{numbered_text, signed_decimal};
use crate::time::{LocalTime, can_mean, read_local_minute};
use vstd::prelude::*;

verus! {

/// An entry after its editor was saved. A time field that names an instant
/// replaces the time; a field that cannot be read, because it is malformed
/// or names no single instant, keeps it. An empty end field removes the end.
pub open spec fn with_times(
    entry: EntryView,
    start: LocalTime,
    end_text: Seq<char>,
    end: LocalTime,
) -> EntryView {
    EntryView {
        start: match start {
            LocalTime::At(t) => t,
            _ => entry.start,
        },
        end: if end_text.len() == 0 {
            None
        } else {
            match end {
                LocalTime::At(t) => Some(t),
                _ => entry.end,
            }
        },
        ..entry
    }
}

/// An entry after its editor was saved with the two texts in its time
/// fields, these having the two meanings.
pub open spec fn saved_as(
    entry: EntryView,
    start_text: Seq<char>,
    end_text: Seq<char>,
    start: LocalTime,
    end: LocalTime,
    saved: EntryView,
) -> bool {
    &&& can_mean(start_text, start)
    &&& can_mean(end_text, end)
    &&& saved == with_times(entry, start, end_text, end)
}

/// Whether `saved` is what some machine makes of an entry whose editor was
/// saved with the two texts in its time fields.
pub open spec fn may_be_saved(
    entry: EntryView,
    start_text: Seq<char>,
    end_text: Seq<char>,
    saved: EntryView,
) -> bool {
    exists|start: LocalTime, end: LocalTime| #[trigger]
        saved_as(entry, start_text, end_text, start, end, saved)
}

/// Applies to an entry what its editor's two time fields turned out to mean.
pub fn apply_times(entry: Entry, start: LocalTime, end_text: &str, end: LocalTime) -> (r: Entry)
    ensures
        r@ == with_times(entry@, start, end_text@, end),
{
    let mut edited = entry;
    match start {
        LocalTime::At(t) => {
            edited.start = t;
        },
        _ => {},
    }
    if end_text.is_empty() {
        edited.end = None;
    } else {
        match end {
            LocalTime::At(t) => {
                edited.end = Some(t);
            },
            _ => {},
        }
    }
    edited
}

/// Reads the two time fields of the entry editor in the machine's time zone
/// and applies them to the entry.
///
/// A text that is not well formed is malformed on every machine; what a
/// well-formed text means depends on the machine. Whatever the texts mean,
/// the entry that comes back is the one [`with_times`] describes for that
/// meaning.
pub fn resolve_entry(entry: Entry, start_text: &str, end_text: &str) -> (r: Entry)
    ensures
        may_be_saved(entry@, start_text@, end_text@, r@),
{
    let start = read_local_minute(start_text);
    let end = read_local_minute(end_text);
    let r = apply_times(entry, start, end_text, end);
    proof {
        assert(saved_as(entry@, start_text@, end_text@, start, end, r@));
    }
    r
}

impl AppView {
    /// `ConfirmDelete`, the store having been asked to delete the entry that
    /// awaits confirmation. The confirmation is over either way; where the
    /// store did it, the selection moves up and the entries are listed next.
    pub open spec fn confirm_delete_entry(self, reply: ReplyView) -> (AppView, Outcome) {
        match self.confirm_delete {
            Some(id) => if reply.succeeded() {
                (
                    AppView {
                        confirm_delete: None,
                        status_message: Some(
                            "Entry "@ + signed_decimal(id as int) + " deleted"@,
                        ),
                        selected_entry_index: step_up(self.selected_entry_index),
                        ..self
                    },
                    Outcome::followed_by(Message::RefreshEntries),
                )
            } else {
                (AppView { confirm_delete: None, ..self }, Outcome::nothing())
            },
            None => (self, Outcome::nothing()),
        }
    }

    /// `EditEntry`, the surroundings having been asked for the local texts of
    /// the entry's start and end. The editor opens on the first listed entry
    /// with the identity; without such an entry nothing changes.
    pub open spec fn edit_entry(self, id: i64, reply: ReplyView) -> AppView {
        match entry_with_id(self.entries, id) {
            Some(entry) => AppView {
                editing_entry: Some(entry),
                edit_field: EditField::Project,
                entry_form: EntryFormView {
                    project: entry.project,
                    description: entry.description,
                    start: reply.local_start(),
                    end: if entry.end.is_some() {
                        reply.local_end()
                    } else {
                        Seq::empty()
                    },
                },
                input_mode: InputMode::EditEntryProject,
                ..self
            },
            None => self,
        }
    }

    /// The entry that the editor holds, with the project and description of
    /// its form; the times are resolved by the surroundings.
    pub open spec fn edited_entry(self) -> Option<EntryView> {
        match self.editing_entry {
            Some(entry) => Some(
                EntryView {
                    project: self.entry_form.project,
                    description: self.entry_form.description,
                    ..entry
                },
            ),
            None => None,
        }
    }

    /// `SaveEditEntry`, the store having been asked to store the edited
    /// entry. The editor closes and the entries are listed next; the status
    /// tells whether the store did it.
    pub open spec fn save_edit_entry(self, reply: ReplyView) -> (AppView, Outcome) {
        (
            AppView {
                editing_entry: None,
                status_message: match self.editing_entry {
                    Some(entry) => Some(
                        if reply.succeeded() {
                            "Entry "@ + signed_decimal(entry.id as int) + " updated"@
                        } else {
                            "Failed to update entry"@
                        },
                    ),
                    None => self.status_message,
                },
                input_mode: InputMode::Normal,
                edit_field: EditField::Project,
                ..self
            },
            Outcome::followed_by(Message::RefreshEntries),
        )
    }

    /// `MarkEntryBilled` and `UnbillEntry`, the store having been asked to
    /// change the flag: where it did, the status says so with `word` and the
    /// entries are listed next.
    pub open spec fn billing_changed(self, id: i64, word: Seq<char>, reply: ReplyView) -> (
        AppView,
        Outcome,
    ) {
        if reply.succeeded() {
            (
                AppView {
                    status_message: Some("Entry "@ + signed_decimal(id as int) + word),
                    ..self
                },
                Outcome::followed_by(Message::RefreshEntries),
            )
        } else {
            (self, Outcome::nothing())
        }
    }

    /// `RefreshEntries`: the list takes what the store reports and the
    /// selection is pulled back into it.
    pub open spec fn refresh_entries(self, reply: ReplyView) -> AppView {
        AppView {
            entries: reply.entries(),
            selected_entry_index: clamped(self.selected_entry_index, reply.entries().len()),
            ..self
        }
    }

    /// What the messages of the entries list and the entry editor do to a
    /// session; any other message leaves it as it is.
    pub open spec fn on_entries(self, msg: Message, reply: ReplyView) -> (AppView, Outcome) {
        match msg {
            Message::SelectNextEntry => (
                AppView {
                    selected_entry_index: step_down(self.selected_entry_index, self.entries.len()),
                    ..self
                },
                Outcome::nothing(),
            ),
            Message::SelectPreviousEntry => (
                AppView { selected_entry_index: step_up(self.selected_entry_index), ..self },
                Outcome::nothing(),
            ),
            Message::ToggleBilledFilter => (
                AppView {
                    show_only_unbilled: !self.show_only_unbilled,
                    selected_entry_index: 0,
                    ..self
                },
                Outcome::followed_by(Message::RefreshEntries),
            ),
            Message::DeleteEntry(id) => (
                AppView { confirm_delete: Some(id), ..self },
                Outcome::nothing(),
            ),
            Message::ConfirmDelete => self.confirm_delete_entry(reply),
            Message::CancelDelete => (AppView { confirm_delete: None, ..self }, Outcome::nothing()),
            Message::EditEntry(id) => (self.edit_entry(id, reply), Outcome::nothing()),
            Message::EditNextField => (
                AppView {
                    edit_field: self.edit_field.following(),
                    input_mode: self.edit_field.following().mode(),
                    ..self
                },
                Outcome::nothing(),
            ),
            Message::EditPrevField => (
                AppView {
                    edit_field: self.edit_field.preceding(),
                    input_mode: self.edit_field.preceding().mode(),
                    ..self
                },
                Outcome::nothing(),
            ),
            Message::EditFieldInput(c) => (
                AppView {
                    entry_form: self.entry_form.with_field(
                        self.edit_field,
                        self.entry_form.field(self.edit_field).push(c),
                    ),
                    ..self
                },
                Outcome::nothing(),
            ),
            Message::EditFieldBackspace => (
                AppView {
                    entry_form: self.entry_form.with_field(
                        self.edit_field,
                        crate::session::state::without_last(
                            self.entry_form.field(self.edit_field),
                        ),
                    ),
                    ..self
                },
                Outcome::nothing(),
            ),
            Message::SaveEditEntry => self.save_edit_entry(reply),
            Message::CancelEditEntry => (
                AppView {
                    editing_entry: None,
                    input_mode: InputMode::Normal,
                    edit_field: EditField::Project,
                    ..self
                },
                Outcome::nothing(),
            ),
            Message::MarkEntryBilled(id) => self.billing_changed(id, " marked as billed"@, reply),
            Message::UnbillEntry(id) => self.billing_changed(id, " unbilled"@, reply),
            Message::RefreshEntries => (self.refresh_entries(reply), Outcome::nothing()),
            _ => (self, Outcome::nothing()),
        }
    }
}

impl App {
    fn confirm_delete_entry(&mut self, reply: Reply) -> (out: Outcome)
        ensures
            (final(self)@, out) == old(self)@.confirm_delete_entry(reply@),
    {
        match self.confirm_delete {
            Some(id) => {
                self.confirm_delete = None;
                if reply.succeeded() {
                    self.status_message = Some(numbered_text("Entry ", id, " deleted"));
                    self.selected_entry_index = select_previous(self.selected_entry_index);
                    Outcome::follow_up(Message::RefreshEntries)
                } else {
                    Outcome::none()
                }
            },
            None => Outcome::none(),
        }
    }

    fn edit_entry(&mut self, id: i64, reply: Reply)
        ensures
            final(self)@ == old(self)@.edit_entry(id, reply@),
    {
        match find_entry(&self.entries, id) {
            Some(i) => {
                let entry = self.entries[i].clone();
                let (start_text, end_text) = reply.into_local_times();
                let form = EntryForm {
                    project: entry.project.clone(),
                    description: entry.description.clone(),
                    start: start_text,
                    end: if entry.end.is_some() {
                        end_text
                    } else {
                        String::new()
                    },
                };
                self.open_entry_editor(entry, form);
            },
            None => {},
        }
    }

    fn open_entry_editor(&mut self, entry: Entry, form: EntryForm)
        ensures
            final(self)@ == (AppView {
                editing_entry: Some(entry@),
                edit_field: EditField::Project,
                entry_form: form@,
                input_mode: InputMode::EditEntryProject,
                ..old(self)@
            }),
    {
        self.editing_entry = Some(entry);
        self.edit_field = EditField::Project;
        self.entry_form = form;
        self.input_mode = InputMode::EditEntryProject;
    }

    /// The entry that the editor holds, with the project and description of
    /// its form.
    pub fn edited_entry(&self) -> (r: Option<Entry>)
        ensures
            r.deep_view() == self@.edited_entry(),
    {
        match &self.editing_entry {
            Some(entry) => Some(
                Entry {
                    id: entry.id,
                    project: self.entry_form.project.clone(),
                    description: self.entry_form.description.clone(),
                    start: entry.start,
                    end: entry.end,
                    billed: entry.billed,
                },
            ),
            None => None,
        }
    }

    fn save_edit_entry(&mut self, reply: Reply) -> (out: Outcome)
        ensures
            (final(self)@, out) == old(self)@.save_edit_entry(reply@),
    {
        match &self.editing_entry {
            Some(entry) => {
                let text = if reply.succeeded() {
                    numbered_text("Entry ", entry.id, " updated")
                } else {
                    "Failed to update entry".to_string()
                };
                self.status_message = Some(text);
            },
            None => {},
        }
        self.close_entry_editor();
        Outcome::follow_up(Message::RefreshEntries)
    }

    fn close_entry_editor(&mut self)
        ensures
            final(self)@ == (AppView {
                editing_entry: None,
                input_mode: InputMode::Normal,
                edit_field: EditField::Project,
                ..old(self)@
            }),
    {
        self.editing_entry = None;
        self.input_mode = InputMode::Normal;
        self.edit_field = EditField::Project;
    }

    fn billing_changed(&mut self, id: i64, word: &str, reply: Reply) -> (out: Outcome)
        ensures
            (final(self)@, out) == old(self)@.billing_changed(id, word@, reply@),
    {
        if reply.succeeded() {
            self.status_message = Some(numbered_text("Entry ", id, word));
            Outcome::follow_up(Message::RefreshEntries)
        } else {
            Outcome::none()
        }
    }

    fn refresh_entries(&mut self, reply: Reply)
        ensures
            final(self)@ == old(self)@.refresh_entries(reply@),
    {
        self.entries = reply.into_entries();
        self.selected_entry_index = clamp_selection(self.selected_entry_index, self.entries.len());
    }

    fn edit_field_moved(&mut self, field: EditField)
        ensures
            final(self)@ == (AppView { edit_field: field, input_mode: field.mode(), ..old(self)@ }),
    {
        self.edit_field = field;
        self.input_mode = field.input_mode();
    }

    fn toggle_billed_filter(&mut self)
        ensures
            final(self)@ == (AppView {
                show_only_unbilled: !old(self)@.show_only_unbilled,
                selected_entry_index: 0,
                ..old(self)@
            }),
    {
        self.show_only_unbilled = !self.show_only_unbilled;
        self.selected_entry_index = 0;
    }

    /// Processes a message of the entries list or the entry editor, `reply`
    /// being what the surroundings answered to the message's request.
    pub fn update_entries(&mut self, msg: Message, reply: Reply) -> (out: Outcome)
        ensures
            (final(self)@, out) == old(self)@.on_entries(msg, reply@),
    {
        match msg {
            Message::SelectNextEntry => {
                self.selected_entry_index = select_next(
                    self.selected_entry_index,
                    self.entries.len(),
                );
                Outcome::none()
            },
            Message::SelectPreviousEntry => {
                self.selected_entry_index = select_previous(self.selected_entry_index);
                Outcome::none()
            },
            Message::ToggleBilledFilter => {
                self.toggle_billed_filter();
                Outcome::follow_up(Message::RefreshEntries)
            },
            Message::DeleteEntry(id) => {
                self.confirm_delete = Some(id);
                Outcome::none()
            },
            Message::ConfirmDelete => self.confirm_delete_entry(reply),
            Message::CancelDelete => {
                self.confirm_delete = None;
                Outcome::none()
            },
            Message::EditEntry(id) => {
                self.edit_entry(id, reply);
                Outcome::none()
            },
            Message::EditNextField => {
                self.edit_field_moved(self.edit_field.next());
                Outcome::none()
            },
            Message::EditPrevField => {
                self.edit_field_moved(self.edit_field.prev());
                Outcome::none()
            },
            Message::EditFieldInput(c) => {
                self.entry_form.push(self.edit_field, c);
                Outcome::none()
            },
            Message::EditFieldBackspace => {
                self.entry_form.pop(self.edit_field);
                Outcome::none()
            },
            Message::SaveEditEntry => self.save_edit_entry(reply),
            Message::CancelEditEntry => {
                self.close_entry_editor();
                Outcome::none()
            },
            Message::MarkEntryBilled(id) => self.billing_changed(id, " marked as billed", reply),
            Message::UnbillEntry(id) => self.billing_changed(id, " unbilled", reply),
            Message::RefreshEntries => {
                self.refresh_entries(reply);
                Outcome::none()
            },
            _ => Outcome::none(),
        }
    }
}

} // verus!
