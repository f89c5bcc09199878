//! The identities of a store's records stay in order: whatever the store
//! serves, each identity stays at least one and below the next to be handed
//! out, and none occurs twice.

use crate::driver::{plays, round_with};
use crate::models::{ClientView, EntryView, ProjectView};
use crate::session::entries::with_times;
use crate::session::lookup::{client_ids, entry_ids, project_ids};
use crate::session::protocol::{Effect, Message, ReplyView, RequestView};
use crate::session::state::AppView;
use crate::store::{
    StoreView, active_index, clients_replaced, clients_without, entries_billed, entries_replaced,
    entries_without, handed_out, project_index,
};
use crate::time::{LocalTime, Timestamp};
use vstd::prelude::*;

verus! {

/// An entry that is left after entries were removed was there before.
pub proof fn lemma_entries_without_are_from(entries: Seq<EntryView>, id: i64, k: int)
    requires
        0 <= k < entries_without(entries, id).len(),
    ensures
        exists|j: int|
            0 <= j < entries.len() && #[trigger] entries[j] == entries_without(entries, id)[k],
    decreases entries.len(),
{
    if entries.len() > 0 {
        let rest = entries_without(entries.drop_last(), id);
        if k < rest.len() {
            lemma_entries_without_are_from(entries.drop_last(), id, k);
            let j = choose|j: int|
                0 <= j < entries.drop_last().len() && #[trigger] entries.drop_last()[j] == rest[k];
            assert(entries[j] == entries_without(entries, id)[k]);
        } else {
            assert(entries[entries.len() - 1] == entries_without(entries, id)[k]);
        }
    }
}

/// Removing entries keeps the identities of the others in order.
pub proof fn lemma_entries_without_keep_identities(entries: Seq<EntryView>, id: i64, next: i64)
    requires
        handed_out(entry_ids(entries), next),
    ensures
        handed_out(entry_ids(entries_without(entries, id)), next),
    decreases entries.len(),
{
    if entries.len() > 0 {
        let before = entries.drop_last();
        let rest = entries_without(before, id);
        assert forall|i: int| 0 <= i < before.len() implies entry_ids(before)[i] == entry_ids(
            entries,
        )[i] by {}
        assert(handed_out(entry_ids(before), next));
        lemma_entries_without_keep_identities(before, id, next);
        if entries.last().id != id {
            let left = entries_without(entries, id);
            assert forall|i: int| 0 <= i < rest.len() implies rest[i].id != entries.last().id by {
                lemma_entries_without_are_from(before, id, i);
                let j = choose|j: int| 0 <= j < before.len() && #[trigger] before[j] == rest[i];
                assert(entry_ids(entries)[j] == before[j].id);
                assert(entry_ids(entries)[entries.len() - 1] == entries.last().id);
            }
            assert(entry_ids(entries)[entries.len() - 1] == entries.last().id);
            assert forall|i: int| 0 <= i < left.len() implies 1 <= #[trigger] entry_ids(left)[i]
                < next by {
                if i < rest.len() {
                    assert(entry_ids(rest)[i] == rest[i].id);
                }
            }
            assert forall|i: int, j: int| 0 <= i < j < left.len() implies entry_ids(left)[i]
                != entry_ids(left)[j] by {
                if j < rest.len() {
                    assert(entry_ids(rest)[i] != entry_ids(rest)[j]);
                }
            }
        }
    }
}

/// A client that is left after clients were removed was there before.
pub proof fn lemma_clients_without_are_from(clients: Seq<ClientView>, id: i64, k: int)
    requires
        0 <= k < clients_without(clients, id).len(),
    ensures
        exists|j: int|
            0 <= j < clients.len() && #[trigger] clients[j] == clients_without(clients, id)[k],
    decreases clients.len(),
{
    if clients.len() > 0 {
        let rest = clients_without(clients.drop_last(), id);
        if k < rest.len() {
            lemma_clients_without_are_from(clients.drop_last(), id, k);
            let j = choose|j: int|
                0 <= j < clients.drop_last().len() && #[trigger] clients.drop_last()[j] == rest[k];
            assert(clients[j] == clients_without(clients, id)[k]);
        } else {
            assert(clients[clients.len() - 1] == clients_without(clients, id)[k]);
        }
    }
}

/// Removing clients keeps the identities of the others in order.
pub proof fn lemma_clients_without_keep_identities(clients: Seq<ClientView>, id: i64, next: i64)
    requires
        handed_out(client_ids(clients), next),
    ensures
        handed_out(client_ids(clients_without(clients, id)), next),
    decreases clients.len(),
{
    if clients.len() > 0 {
        let before = clients.drop_last();
        let rest = clients_without(before, id);
        assert forall|i: int| 0 <= i < before.len() implies client_ids(before)[i] == client_ids(
            clients,
        )[i] by {}
        assert(handed_out(client_ids(before), next));
        lemma_clients_without_keep_identities(before, id, next);
        if clients.last().id != id {
            let left = clients_without(clients, id);
            assert forall|i: int| 0 <= i < rest.len() implies rest[i].id != clients.last().id by {
                lemma_clients_without_are_from(before, id, i);
                let j = choose|j: int| 0 <= j < before.len() && #[trigger] before[j] == rest[i];
                assert(client_ids(clients)[j] == before[j].id);
                assert(client_ids(clients)[clients.len() - 1] == clients.last().id);
            }
            assert(client_ids(clients)[clients.len() - 1] == clients.last().id);
            assert forall|i: int| 0 <= i < left.len() implies 1 <= #[trigger] client_ids(left)[i]
                < next by {
                if i < rest.len() {
                    assert(client_ids(rest)[i] == rest[i].id);
                }
            }
            assert forall|i: int, j: int| 0 <= i < j < left.len() implies client_ids(left)[i]
                != client_ids(left)[j] by {
                if j < rest.len() {
                    assert(client_ids(rest)[i] != client_ids(rest)[j]);
                }
            }
        }
    }
}

/// One more identity, the next in turn, keeps the identities in order.
pub proof fn lemma_next_identity_is_fresh(ids: Seq<i64>, next: i64)
    requires
        handed_out(ids, next),
        next < i64::MAX,
    ensures
        handed_out(ids.push(next), (next + 1) as i64),
        !ids.contains(next),
{
    let more = ids.push(next);
    assert forall|i: int| 0 <= i < more.len() implies 1 <= #[trigger] more[i] < next + 1 by {
        if i < ids.len() {
            assert(more[i] == ids[i]);
        }
    }
    assert forall|i: int, j: int| 0 <= i < j < more.len() implies more[i] != more[j] by {
        assert(more[i] == ids[i]);
        if j < ids.len() {
            assert(more[j] == ids[j]);
        }
    }
    if ids.contains(next) {
        let i = choose|i: int| 0 <= i < ids.len() && ids[i] == next;
        assert(ids[i] < next);
    }
}

/// An entry that is inserted gets an identity that no entry of the store
/// has, and the store's identities stay in order.
pub proof fn law_new_entry_gets_fresh_identity(store: StoreView, entry: EntryView)
    requires
        store.wf(),
    ensures
        store.inserted(entry).wf(),
        store.can_insert_entry() ==> {
            &&& store.inserted(entry).entries.last().id == store.next_entry_id
            &&& store.entry_id_is_fresh(store.next_entry_id)
        },
{
    if store.can_insert_entry() {
        lemma_next_identity_is_fresh(entry_ids(store.entries), store.next_entry_id);
        assert(entry_ids(store.inserted(entry).entries) =~= entry_ids(store.entries).push(
            store.next_entry_id,
        ));
    }
}

/// The active entry is one of the entries.
pub proof fn lemma_active_index_is_inside(entries: Seq<EntryView>)
    ensures
        match active_index(entries) {
            Some(i) => 0 <= i < entries.len(),
            None => true,
        },
    decreases entries.len(),
{
    if entries.len() > 0 {
        lemma_active_index_is_inside(entries.drop_last());
    }
}

/// A project that was found by its name is one of the projects.
pub proof fn lemma_project_index_is_inside(projects: Seq<ProjectView>, name: Seq<char>)
    ensures
        match project_index(projects, name) {
            Some(i) => 0 <= i < projects.len(),
            None => true,
        },
    decreases projects.len(),
{
    if projects.len() > 0 {
        lemma_project_index_is_inside(projects.drop_last(), name);
    }
}

/// Ending the active entry keeps the identities in order.
pub proof fn lemma_stopped_store_keeps_identities(store: StoreView, now: Timestamp)
    requires
        store.wf(),
    ensures
        store.stopped(now).wf(),
{
    lemma_active_index_is_inside(store.entries);
    assert(entry_ids(store.stopped(now).entries) =~= entry_ids(store.entries));
}

/// Setting a project's rate keeps the identities in order, whether the
/// project was there or is created.
pub proof fn lemma_rated_store_keeps_identities(
    store: StoreView,
    name: Seq<char>,
    rate: Option<u64>,
    currency: Option<Seq<char>>,
)
    requires
        store.wf(),
    ensures
        store.rate_set(name, rate, currency).wf(),
{
    let rated = store.rate_set(name, rate, currency);
    match project_index(store.projects, name) {
        Some(i) => {
            lemma_project_index_is_inside(store.projects, name);
            assert(project_ids(rated.projects) =~= project_ids(store.projects));
        },
        None => {
            if store.next_project_id < i64::MAX {
                lemma_next_identity_is_fresh(project_ids(store.projects), store.next_project_id);
                assert(project_ids(rated.projects) =~= project_ids(store.projects).push(
                    store.next_project_id,
                ));
            }
        },
    }
}

/// A client that is added gets an identity that no client of the store has,
/// and the store's identities stay in order.
pub proof fn law_new_client_gets_fresh_identity(store: StoreView, client: ClientView)
    requires
        store.wf(),
    ensures
        store.client_added(client).wf(),
        store.next_client_id < i64::MAX ==> {
            &&& store.client_added(client).clients.last().id == store.next_client_id
            &&& store.client_id_is_fresh(store.next_client_id)
        },
{
    if store.next_client_id < i64::MAX {
        lemma_next_identity_is_fresh(client_ids(store.clients), store.next_client_id);
        assert(client_ids(store.client_added(client).clients) =~= client_ids(store.clients).push(
            store.next_client_id,
        ));
    }
}

/// Saving an edited entry keeps the identities in order.
pub proof fn lemma_replaced_entry_keeps_identities(store: StoreView, saved: EntryView)
    requires
        store.wf(),
    ensures
        store.with_entry(saved).wf(),
{
    assert(entry_ids(entries_replaced(store.entries, saved)) =~= entry_ids(store.entries));
}

/// However the time fields of an edited entry were read, saving it keeps the
/// identities in order.
pub proof fn lemma_saved_store_keeps_identities(
    store: StoreView,
    entry: EntryView,
    start_text: Seq<char>,
    end_text: Seq<char>,
    served: StoreView,
)
    requires
        store.saves(entry, start_text, end_text, served),
    ensures
        store.wf() ==> served.wf(),
{
    if store.wf() {
        let (start, end) = choose|start: LocalTime, end: LocalTime|
            served == #[trigger] store.saved(entry, start, end_text, end);
        lemma_replaced_entry_keeps_identities(store, with_times(entry, start, end_text, end));
    }
}

/// Whatever request the store serves, its identities stay in order.
pub proof fn law_served_store_keeps_identities(
    store: StoreView,
    request: RequestView,
    now: Timestamp,
)
    ensures
        store.wf() ==> store.after(request, now).wf(),
{
    if store.wf() {
        match request {
            RequestView::StartTimer(project, description) => {
                law_new_entry_gets_fresh_identity(
                    store,
                    EntryView { id: 0, project, description, start: now, end: None, billed: false },
                );
            },
            RequestView::StopActiveTimer => {
                lemma_stopped_store_keeps_identities(store, now);
            },
            RequestView::DeleteEntry(id) => {
                lemma_entries_without_keep_identities(store.entries, id, store.next_entry_id);
            },
            RequestView::MarkBilled(id) => {
                assert(entry_ids(entries_billed(store.entries, id, true)) =~= entry_ids(
                    store.entries,
                ));
            },
            RequestView::UnmarkBilled(id) => {
                assert(entry_ids(entries_billed(store.entries, id, false)) =~= entry_ids(
                    store.entries,
                ));
            },
            RequestView::SetProjectRate(name, rate, currency) => {
                lemma_rated_store_keeps_identities(store, name, rate, currency);
            },
            RequestView::AddClient(client) => {
                law_new_client_gets_fresh_identity(store, client);
            },
            RequestView::UpdateClient(client) => {
                assert(client_ids(clients_replaced(store.clients, client)) =~= client_ids(
                    store.clients,
                ));
            },
            RequestView::DeleteClient(id) => {
                lemma_clients_without_keep_identities(store.clients, id, store.next_client_id);
            },
            _ => {},
        }
    }
}

/// Whatever effect is carried out, the store's identities stay in order.
pub proof fn law_affected_store_keeps_identities(store: StoreView, effect: Effect, now: Timestamp)
    ensures
        store.wf() ==> store.affected(effect, now).wf(),
{
    if store.wf() {
        lemma_stopped_store_keeps_identities(store, now);
    }
}

/// However a request is served, on whatever machine, the store's
/// identities stay in order.
pub proof fn law_serving_keeps_identities(
    store: StoreView,
    request: RequestView,
    now: Timestamp,
    reply: ReplyView,
    served: StoreView,
)
    requires
        store.wf(),
        store.serves(request, now, reply, served),
    ensures
        served.wf(),
{
    match request {
        RequestView::LocalTimes(_, _) => {},
        RequestView::SaveEntry(entry, start_text, end_text) => {
            lemma_saved_store_keeps_identities(store, entry, start_text, end_text, served);
        },
        _ => {
            law_served_store_keeps_identities(store, request, now);
        },
    }
}

/// However a round of the protocol is played, on whatever machine, the
/// store's identities stay in order.
pub proof fn law_round_keeps_identities(
    app: AppView,
    store: StoreView,
    msg: Message,
    now: Timestamp,
    result: (AppView, StoreView, Option<Message>),
)
    requires
        store.wf(),
        plays(app, store, msg, now, result),
    ensures
        result.1.wf(),
{
    reveal(plays);
    let (reply, served) = choose|reply: ReplyView, served: StoreView| #[trigger]
        store.serves(app.request(msg, now), now, reply, served) && result == round_with(
            app,
            msg,
            now,
            reply,
            served,
        );
    law_serving_keeps_identities(store, app.request(msg, now), now, reply, served);
    law_affected_store_keeps_identities(served, app.step(msg, reply, now).1.effect, now);
}

} // verus!
