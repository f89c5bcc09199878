//! What holds of a session and its store together.
//!
//! The laws are stated over the mathematical models of the session
//! ([`AppView`]) and of the store ([`StoreView`]) and proved from the
//! definitions that the executable code is verified against.

use crate::driver::{dispatch, plays, round, run};
use crate::invoice::all_valid;
use crate::models::{EntryView, InvoiceView};
use crate::pomodoro::PomodoroState;
use crate::session::entries::with_times;
use crate::session::lookup::entry_with_id;
use crate::session::protocol::{Message, Outcome, ReplyView, RequestView};
use crate::session::state::AppView;
use crate::store::{StoreView, active_index, greatest_invoice_number, running_count};
use crate::time::{LocalTime, Timestamp, minute_text_parses, shows_minute_of};
use vstd::prelude::*;

verus! {

/// The session's mirror of the running entry agrees with the store, and at
/// most one entry runs.
pub open spec fn in_step(app: AppView, store: StoreView) -> bool {
    &&& running_count(store.entries) <= 1
    &&& app.active_entry == store.active_entry()
}

/// A message that starts or stops the timer, or a tick of the clock.
pub open spec fn drives_timer(msg: Message) -> bool {
    msg == Message::StartTimer || msg == Message::StopTimer || msg == Message::Tick
}

/// A message that only reads the store again.
pub open spec fn is_refresh(msg: Message) -> bool {
    msg == Message::RefreshActiveTimer || msg == Message::RefreshEntries || msg
        == Message::RefreshProjects || msg == Message::RefreshClients
}

/// What a follow-up has to be: a refresh.
pub open spec fn asks_for_refresh_only(outcome: Outcome) -> bool {
    match outcome.next {
        Some(follow_up) => is_refresh(follow_up),
        None => true,
    }
}

proof fn lemma_timer_follow_ups(app: AppView, msg: Message, reply: ReplyView, now: Timestamp)
    ensures
        asks_for_refresh_only(app.on_timer(msg, reply, now).1),
{
}

proof fn lemma_entries_follow_ups(app: AppView, msg: Message, reply: ReplyView)
    ensures
        asks_for_refresh_only(app.on_entries(msg, reply).1),
{
}

proof fn lemma_projects_follow_ups(app: AppView, msg: Message, reply: ReplyView)
    ensures
        asks_for_refresh_only(app.on_projects(msg, reply).1),
{
}

proof fn lemma_clients_follow_ups(app: AppView, msg: Message, reply: ReplyView)
    ensures
        asks_for_refresh_only(app.on_clients(msg, reply).1),
{
}

proof fn lemma_other_follow_ups(app: AppView, msg: Message, reply: ReplyView)
    ensures
        asks_for_refresh_only(app.on_navigation(msg, reply).1),
        asks_for_refresh_only(app.on_invoicing(msg, reply).1),
        asks_for_refresh_only(app.on_pomodoro_screen(msg).1),
        asks_for_refresh_only(app.on_settings(msg, reply).1),
{
}

/// A message that a session asks to be processed next is a refresh.
pub proof fn law_follow_ups_are_refreshes(
    app: AppView,
    msg: Message,
    reply: ReplyView,
    now: Timestamp,
)
    ensures
        asks_for_refresh_only(app.step(msg, reply, now).1),
{
    lemma_timer_follow_ups(app, msg, reply, now);
    lemma_entries_follow_ups(app, msg, reply);
    lemma_projects_follow_ups(app, msg, reply);
    lemma_clients_follow_ups(app, msg, reply);
    lemma_other_follow_ups(app, msg, reply);
}

/// A refresh asks for nothing further, so that chains of messages end after
/// one follow-up.
pub proof fn law_refreshes_end(app: AppView, msg: Message, reply: ReplyView, now: Timestamp)
    requires
        is_refresh(msg),
    ensures
        app.step(msg, reply, now).1 == Outcome::nothing(),
{
}

/// Appending an entry adds one to the running entries where it runs.
pub proof fn lemma_running_push(entries: Seq<EntryView>, e: EntryView)
    ensures
        running_count(entries.push(e)) == running_count(entries) + (if e.end.is_none() {
            1nat
        } else {
            0nat
        }),
{
    assert(entries.push(e).drop_last() =~= entries);
}

/// An active entry exists exactly where some entry runs, and it is one of
/// the running entries.
pub proof fn lemma_active_runs(entries: Seq<EntryView>)
    ensures
        active_index(entries).is_some() <==> running_count(entries) > 0,
        match active_index(entries) {
            Some(i) => 0 <= i < entries.len() && entries[i].end.is_none(),
            None => true,
        },
    decreases entries.len(),
{
    if entries.len() > 0 {
        lemma_active_runs(entries.drop_last());
        match active_index(entries.drop_last()) {
            Some(i) => {
                assert(entries.drop_last()[i] == entries[i]);
            },
            None => {},
        }
    }
}

/// Ending a running entry takes one from the running entries.
pub proof fn lemma_running_update(entries: Seq<EntryView>, i: int, e: EntryView)
    requires
        0 <= i < entries.len(),
        entries[i].end.is_none(),
        e.end.is_some(),
    ensures
        running_count(entries.update(i, e)) == running_count(entries) - 1,
    decreases entries.len(),
{
    if i == entries.len() - 1 {
        assert(entries.update(i, e).drop_last() =~= entries.drop_last());
    } else {
        assert(entries.update(i, e).drop_last() =~= entries.drop_last().update(i, e));
        lemma_running_update(entries.drop_last(), i, e);
    }
}

/// Starting the timer, processed with its follow-up against the store,
/// leaves at most one running entry and the session's mirror in agreement
/// with the store.
pub proof fn lemma_start_keeps_one_running(app: AppView, store: StoreView, now: Timestamp)
    requires
        in_step(app, store),
    ensures
        in_step(
            dispatch(app, store, Message::StartTimer, now).0,
            dispatch(app, store, Message::StartTimer, now).1,
        ),
{
    reveal(round);
    lemma_active_runs(store.entries);
    if app.can_start_timer() {
        lemma_started_runs_one(store, app.project_input, app.description_input, now);
    }
}

/// Stopping the timer, processed with its follow-up against the store,
/// leaves at most one running entry and the session's mirror in agreement
/// with the store.
pub proof fn lemma_stop_keeps_one_running(app: AppView, store: StoreView, now: Timestamp)
    requires
        in_step(app, store),
    ensures
        in_step(
            dispatch(app, store, Message::StopTimer, now).0,
            dispatch(app, store, Message::StopTimer, now).1,
        ),
{
    reveal(round);
    lemma_active_runs(store.entries);
    if app.active_entry.is_some() {
        lemma_stopped_runs_none(store, now);
    }
}

/// A tick of the clock, processed against the store, leaves at most one
/// running entry and the session's mirror in agreement with the store.
pub proof fn lemma_tick_keeps_one_running(app: AppView, store: StoreView, now: Timestamp)
    requires
        in_step(app, store),
    ensures
        in_step(
            dispatch(app, store, Message::Tick, now).0,
            dispatch(app, store, Message::Tick, now).1,
        ),
{
    reveal(round);
    lemma_active_runs(store.entries);
    lemma_stopped_runs_none(store, now);
}

/// Starting the timer, stopping it, or a tick of the clock, each processed
/// with its follow-up against the store, leaves at most one running entry
/// and the session's mirror in agreement with the store.
pub proof fn law_timer_message_keeps_one_running(
    app: AppView,
    store: StoreView,
    msg: Message,
    now: Timestamp,
)
    requires
        in_step(app, store),
        drives_timer(msg),
    ensures
        in_step(dispatch(app, store, msg, now).0, dispatch(app, store, msg, now).1),
{
    if msg == Message::StartTimer {
        lemma_start_keeps_one_running(app, store, now);
    } else if msg == Message::StopTimer {
        lemma_stop_keeps_one_running(app, store, now);
    } else {
        lemma_tick_keeps_one_running(app, store, now);
    }
}

/// A store in which nothing runs has exactly one running entry after a timer
/// was started, and that entry is the active one; where the timer could not
/// be started still nothing runs.
pub proof fn lemma_started_runs_one(
    store: StoreView,
    project: Seq<char>,
    description: Seq<char>,
    now: Timestamp,
)
    requires
        running_count(store.entries) == 0,
    ensures
        running_count(store.started(project, description, now).entries) <= 1,
        !store.can_insert_entry() ==> store.started(project, description, now) == store,
        store.can_insert_entry() ==> store.started(project, description, now).active_entry()
            is Some,
{
    if store.can_insert_entry() {
        let e = EntryView {
            id: store.next_entry_id,
            project,
            description,
            start: now,
            end: None,
            billed: false,
        };
        lemma_running_push(store.entries, e);
        lemma_active_runs(store.entries.push(e));
    }
}

/// A store with at most one running entry has none after the timer was
/// stopped.
pub proof fn lemma_stopped_runs_none(store: StoreView, now: Timestamp)
    requires
        running_count(store.entries) <= 1,
    ensures
        running_count(store.stopped(now).entries) == 0,
        store.stopped(now).active_entry().is_none(),
{
    lemma_active_runs(store.entries);
    match active_index(store.entries) {
        Some(i) => {
            lemma_running_update(
                store.entries,
                i,
                EntryView { end: Some(now), ..store.entries[i] },
            );
        },
        None => {},
    }
    lemma_active_runs(store.stopped(now).entries);
}

/// Any sequence of timer starts, timer stops and ticks, processed in order
/// against a store that no one else writes to, leaves at most one running
/// entry at every point.
pub proof fn law_at_most_one_running_entry(
    app: AppView,
    store: StoreView,
    msgs: Seq<(Message, Timestamp)>,
)
    requires
        in_step(app, store),
        forall|i: int| 0 <= i < msgs.len() ==> drives_timer(#[trigger] msgs[i].0),
    ensures
        in_step(run(app, store, msgs).0, run(app, store, msgs).1),
        running_count(run(app, store, msgs).1.entries) <= 1,
    decreases msgs.len(),
{
    if msgs.len() > 0 {
        let earlier = msgs.drop_last();
        assert forall|i: int| 0 <= i < earlier.len() implies drives_timer(
            #[trigger] earlier[i].0,
        ) by {
            assert(earlier[i] == msgs[i]);
        }
        law_at_most_one_running_entry(app, store, earlier);
        let (before_app, before_store) = run(app, store, earlier);
        assert(drives_timer(msgs[msgs.len() - 1].0));
        law_timer_message_keeps_one_running(before_app, before_store, msgs.last().0, msgs.last().1);
    }
}

/// A session opened on a store with at most one running entry starts out in
/// agreement with it.
pub proof fn law_opened_session_agrees(store: StoreView)
    requires
        running_count(store.entries) <= 1,
    ensures
        in_step(AppView::opened(store.snapshot()), store),
{
}

/// A session that opens finds the Pomodoro scheduler at rest, whatever runs
/// in the store: the interval of an earlier session is lost, and no cycle
/// counts as completed.
pub proof fn law_opened_session_is_at_rest(store: StoreView)
    ensures
        AppView::opened(store.snapshot()).pomodoro.state == PomodoroState::Idle,
        AppView::opened(store.snapshot()).pomodoro.interval_start.is_none(),
        AppView::opened(store.snapshot()).pomodoro.cycles_completed == 0,
        AppView::opened(store.snapshot()).pomodoro.config == store.pomodoro_config,
        AppView::opened(store.snapshot()).active_entry == store.active_entry(),
{
}

/// Stopping the timer while no timer is known to run does nothing: the store
/// is asked for nothing, and the session stays as it is whatever it is
/// handed. A store asked to stop without a running entry stays as it is too.
pub proof fn law_stop_without_timer_is_harmless(
    app: AppView,
    store: StoreView,
    reply: ReplyView,
    now: Timestamp,
)
    ensures
        app.active_entry.is_none() ==> app.request(Message::StopTimer, now)
            == RequestView::Nothing,
        app.active_entry.is_none() ==> app.step(Message::StopTimer, reply, now) == (
            app,
            Outcome::nothing(),
        ),
        running_count(store.entries) == 0 ==> store.stopped(now) == store,
{
    lemma_active_runs(store.entries);
}

/// Starting a timer without a project name, or while a timer is known to
/// run, does nothing: the store is asked for nothing, and the session stays
/// as it is whatever it is handed.
pub proof fn law_start_is_guarded(app: AppView, reply: ReplyView, now: Timestamp)
    ensures
        app.project_input.len() == 0 || app.active_entry.is_some() ==> app.request(
            Message::StartTimer,
            now,
        ) == RequestView::Nothing,
        app.project_input.len() == 0 || app.active_entry.is_some() ==> app.step(
            Message::StartTimer,
            reply,
            now,
        ) == (app, Outcome::nothing()),
{
}

/// Entries stay valid when a timer is started, and when it is stopped at an
/// instant that is not before the start of the entry that runs.
pub proof fn law_started_and_stopped_entries_are_valid(
    store: StoreView,
    project: Seq<char>,
    description: Seq<char>,
    now: Timestamp,
)
    requires
        all_valid(store.entries),
        now.wf(),
    ensures
        all_valid(store.started(project, description, now).entries),
        (match store.active_entry() {
            Some(e) => e.start.spec_le(now),
            None => true,
        }) ==> all_valid(store.stopped(now).entries),
{
    lemma_active_runs(store.entries);
    let started = store.started(project, description, now).entries;
    assert forall|i: int| 0 <= i < started.len() implies (#[trigger] started[i]).wf() by {
        if i < store.entries.len() {
            assert(started[i] == store.entries[i]);
        }
    }
    match active_index(store.entries) {
        Some(k) => {
            if store.entries[k].start.spec_le(now) {
                let stopped = store.stopped(now).entries;
                assert forall|i: int| 0 <= i < stopped.len() implies (#[trigger] stopped[i]).wf() by {
                    if i != k {
                        assert(stopped[i] == store.entries[i]);
                    } else {
                        assert(store.entries[k].wf());
                    }
                }
            }
        },
        None => {},
    }
}

/// An entry that is added for the last hours before now, their number not
/// being negative, does not end before it starts.
pub proof fn law_backdated_entry_is_valid(
    project: Seq<char>,
    description: Seq<char>,
    hours: int,
    now: Timestamp,
)
    requires
        now.wf(),
        hours >= 0,
    ensures
        match EntryView::backdated(project, description, hours, now) {
            Some(e) => e.wf() && e.seconds() == Some(hours * 3600),
            None => true,
        },
{
    if now.spec_checked_add_secs(-(hours * 3600)).is_some() {
        Timestamp::lemma_at(now.spec_secs() - hours * 3600, now.spec_nanos());
        let d = hours * 3600 * 1_000_000_000;
        assert(d / 1_000_000_000 == hours * 3600);
    }
}

/// Saving the entry editor keeps an entry's start and end where its time
/// fields are read back as the instants they were written from, and keeps a
/// time whose field cannot be read, be it malformed or without a single
/// instant that it names: the start whatever the end field holds, the end
/// where its field is not empty. An empty end field takes the end away.
pub proof fn law_saved_times(entry: EntryView, end_text: Seq<char>, other: LocalTime)
    ensures
        match entry.end {
            Some(end) => end_text.len() > 0 ==> with_times(
                entry,
                LocalTime::At(entry.start),
                end_text,
                LocalTime::At(end),
            ) == entry,
            None => with_times(entry, LocalTime::At(entry.start), Seq::empty(), other) == entry,
        },
        with_times(entry, LocalTime::Malformed, end_text, other).start == entry.start,
        with_times(entry, LocalTime::Unresolved, end_text, other).start == entry.start,
        end_text.len() > 0 ==> with_times(entry, other, end_text, LocalTime::Malformed).end
            == entry.end,
        end_text.len() > 0 ==> with_times(entry, other, end_text, LocalTime::Unresolved).end
            == entry.end,
        with_times(entry, other, Seq::empty(), other).end.is_none(),
{
}

/// Opening the entry editor, on whatever machine, leaves the store as it is
/// and asks for nothing more. The editor holds the listed entry with the
/// identity, and for its start and its end what some zone's clock shows at
/// that instant; the end text is empty exactly where the entry has no end.
/// Without such an entry the session stays as it is.
pub proof fn law_editor_opens_on_both_times(
    app: AppView,
    store: StoreView,
    id: i64,
    now: Timestamp,
    result: (AppView, StoreView, Option<Message>),
)
    requires
        plays(app, store, Message::EditEntry(id), now, result),
    ensures
        result.1 == store,
        result.2.is_none(),
        match entry_with_id(app.entries, id) {
            Some(entry) => {
                &&& result.0.editing_entry == Some(entry)
                &&& result.0.entry_form.project == entry.project
                &&& result.0.entry_form.description == entry.description
                &&& shows_minute_of(result.0.entry_form.start, entry.start.spec_secs())
                &&& match entry.end {
                    Some(t) => shows_minute_of(result.0.entry_form.end, t.spec_secs()),
                    None => result.0.entry_form.end.len() == 0,
                }
            },
            None => result.0 == app,
        },
{
    reveal(plays);
}

/// Saving the entry editor, on whatever machine, closes it and asks for the
/// entries to be listed. The store replaces the entry by the edited one, its
/// times being what [`with_times`] makes of some meaning of the two texts;
/// where neither text is well formed and the end text is not empty, the
/// entry keeps both times.
pub proof fn law_saved_editor_replaces_the_entry(
    app: AppView,
    store: StoreView,
    now: Timestamp,
    result: (AppView, StoreView, Option<Message>),
)
    requires
        plays(app, store, Message::SaveEditEntry, now, result),
    ensures
        result.0.editing_entry.is_none(),
        result.2 == Some(Message::RefreshEntries),
        match app.edited_entry() {
            Some(edited) => {
                &&& store.saves(edited, app.entry_form.start, app.entry_form.end, result.1)
                &&& !minute_text_parses(app.entry_form.start) && !minute_text_parses(
                    app.entry_form.end,
                ) && app.entry_form.end.len() > 0 ==> result.1 == store.with_entry(edited)
            },
            None => result.1 == store,
        },
{
    reveal(plays);
    match app.edited_entry() {
        Some(edited) => {
            if !minute_text_parses(app.entry_form.start) && !minute_text_parses(
                app.entry_form.end,
            ) && app.entry_form.end.len() > 0 {
                assert(with_times(
                    edited,
                    LocalTime::Malformed,
                    app.entry_form.end,
                    LocalTime::Malformed,
                ) == edited);
            }
        },
        None => {},
    }
}

/// Invoice numbers count up from one: the first invoice of an empty history
/// gets the number one, and once an invoice is on record under the number
/// that was its turn, the next number is one more.
pub proof fn law_invoice_numbers_count_up(store: StoreView, record: InvoiceView)
    requires
        record.invoice_number == store.next_invoice_number(),
    ensures
        StoreView::empty().next_invoice_number() == 1,
        store.next_invoice_number() >= 1,
        (StoreView { invoices: store.invoices.push(record), ..store }).next_invoice_number()
            == store.next_invoice_number() + 1,
{
    lemma_greatest_number_not_negative(store.invoices);
    assert(store.invoices.push(record).drop_last() =~= store.invoices);
}

/// The greatest invoice number on record is not negative.
pub proof fn lemma_greatest_number_not_negative(invoices: Seq<InvoiceView>)
    ensures
        greatest_invoice_number(invoices) >= 0,
    decreases invoices.len(),
{
    if invoices.len() > 0 {
        lemma_greatest_number_not_negative(invoices.drop_last());
    }
}

} // verus!
