//! Finding records by identity and moving a selection through a list.

use crate::models::{Client, ClientView, Entry, EntryView, Project, ProjectView};
use vstd::prelude::*;

verus! {

/// `i` is the first position of `ids` that holds `id`.
pub open spec fn is_first(ids: Seq<i64>, id: i64, i: int) -> bool {
    &&& 0 <= i < ids.len()
    &&& ids[i] == id
    &&& forall|k: int| 0 <= k < i ==> ids[k] != id
}

/// The first position of `ids` that holds `id`, if any does.
pub open spec fn first_index(ids: Seq<i64>, id: i64) -> Option<int> {
    if exists|i: int| is_first(ids, id, i) {
        Some(choose|i: int| is_first(ids, id, i))
    } else {
        None
    }
}

/// A position that is the first to hold `id` is the one `first_index` names.
pub proof fn lemma_first_index_found(ids: Seq<i64>, id: i64, i: int)
    requires
        is_first(ids, id, i),
    ensures
        first_index(ids, id) == Some(i),
{
    let j = choose|j: int| is_first(ids, id, j);
    if j < i {
        assert(ids[j] != id);
    } else if i < j {
        assert(ids[i] != id);
    }
}

/// Where no position holds `id`, `first_index` names none.
pub proof fn lemma_first_index_missing(ids: Seq<i64>, id: i64)
    requires
        forall|k: int| 0 <= k < ids.len() ==> ids[k] != id,
    ensures
        first_index(ids, id).is_none(),
{
}

/// The identities of a list of entries, in order.
pub open spec fn entry_ids(entries: Seq<EntryView>) -> Seq<i64> {
    Seq::new(entries.len(), |i: int| entries[i].id)
}

/// The identities of a list of projects, in order.
pub open spec fn project_ids(projects: Seq<ProjectView>) -> Seq<i64> {
    Seq::new(projects.len(), |i: int| projects[i].id)
}

/// The identities of a list of clients, in order.
pub open spec fn client_ids(clients: Seq<ClientView>) -> Seq<i64> {
    Seq::new(clients.len(), |i: int| clients[i].id)
}

/// The first entry with the identity, if there is one.
pub open spec fn entry_with_id(entries: Seq<EntryView>, id: i64) -> Option<EntryView> {
    match first_index(entry_ids(entries), id) {
        Some(i) => Some(entries[i]),
        None => None,
    }
}

/// The first project with the identity, if there is one.
pub open spec fn project_with_id(projects: Seq<ProjectView>, id: i64) -> Option<ProjectView> {
    match first_index(project_ids(projects), id) {
        Some(i) => Some(projects[i]),
        None => None,
    }
}

/// The first client with the identity, if there is one.
pub open spec fn client_with_id(clients: Seq<ClientView>, id: i64) -> Option<ClientView> {
    match first_index(client_ids(clients), id) {
        Some(i) => Some(clients[i]),
        None => None,
    }
}

/// The position of the first entry with the identity.
pub fn find_entry(entries: &Vec<Entry>, id: i64) -> (r: Option<usize>)
    ensures
        r.is_some() == first_index(entry_ids(entries.deep_view()), id).is_some(),
        r.is_some() ==> r.unwrap() == first_index(entry_ids(entries.deep_view()), id).unwrap()
            && r.unwrap() < entries.len(),
        r.is_some() ==> entry_with_id(entries.deep_view(), id) == Some(entries[r.unwrap() as int]@),
        r.is_none() ==> entry_with_id(entries.deep_view(), id).is_none(),
{
    let ghost ids = entry_ids(entries.deep_view());
    let mut i: usize = 0;
    while i < entries.len()
        invariant
            i <= entries.len(),
            ids == entry_ids(entries.deep_view()),
            forall|k: int| 0 <= k < i ==> ids[k] != id,
        decreases entries.len() - i,
    {
        if entries[i].id == id {
            proof {
                assert(ids[i as int] == id);
                lemma_first_index_found(ids, id, i as int);
            }
            return Some(i);
        }
        i += 1;
    }
    proof {
        lemma_first_index_missing(ids, id);
    }
    None
}

/// The position of the first project with the identity.
pub fn find_project(projects: &Vec<Project>, id: i64) -> (r: Option<usize>)
    ensures
        r.is_some() == first_index(project_ids(projects.deep_view()), id).is_some(),
        r.is_some() ==> r.unwrap() == first_index(project_ids(projects.deep_view()), id).unwrap()
            && r.unwrap() < projects.len(),
        r.is_some() ==> project_with_id(projects.deep_view(), id) == Some(
            projects[r.unwrap() as int]@,
        ),
        r.is_none() ==> project_with_id(projects.deep_view(), id).is_none(),
{
    let ghost ids = project_ids(projects.deep_view());
    let mut i: usize = 0;
    while i < projects.len()
        invariant
            i <= projects.len(),
            ids == project_ids(projects.deep_view()),
            forall|k: int| 0 <= k < i ==> ids[k] != id,
        decreases projects.len() - i,
    {
        if projects[i].id == id {
            proof {
                assert(ids[i as int] == id);
                lemma_first_index_found(ids, id, i as int);
            }
            return Some(i);
        }
        i += 1;
    }
    proof {
        lemma_first_index_missing(ids, id);
    }
    None
}

/// The position of the first client with the identity.
pub fn find_client(clients: &Vec<Client>, id: i64) -> (r: Option<usize>)
    ensures
        r.is_some() == first_index(client_ids(clients.deep_view()), id).is_some(),
        r.is_some() ==> r.unwrap() == first_index(client_ids(clients.deep_view()), id).unwrap()
            && r.unwrap() < clients.len(),
        r.is_some() ==> client_with_id(clients.deep_view(), id) == Some(
            clients[r.unwrap() as int]@,
        ),
        r.is_none() ==> client_with_id(clients.deep_view(), id).is_none(),
{
    let ghost ids = client_ids(clients.deep_view());
    let mut i: usize = 0;
    while i < clients.len()
        invariant
            i <= clients.len(),
            ids == client_ids(clients.deep_view()),
            forall|k: int| 0 <= k < i ==> ids[k] != id,
        decreases clients.len() - i,
    {
        if clients[i].id == id {
            proof {
                assert(ids[i as int] == id);
                lemma_first_index_found(ids, id, i as int);
            }
            return Some(i);
        }
        i += 1;
    }
    proof {
        lemma_first_index_missing(ids, id);
    }
    None
}

/// The selection after a step down a list of `len` items: one further, but
/// never past the last item; unchanged in an empty list.
pub open spec fn step_down(index: usize, len: nat) -> usize {
    if len == 0 {
        index
    } else if index + 1 <= len - 1 {
        (index + 1) as usize
    } else {
        (len - 1) as usize
    }
}

/// The selection after a step up a list: one back, but never before the
/// first item.
pub open spec fn step_up(index: usize) -> usize {
    if index > 0 {
        (index - 1) as usize
    } else {
        0
    }
}

/// The selection after the list changed to `len` items: pulled back to the
/// last item where it pointed past it.
pub open spec fn clamped(index: usize, len: nat) -> usize {
    if index >= len && len > 0 {
        (len - 1) as usize
    } else {
        index
    }
}

/// Moves a selection one item down.
pub fn select_next(index: usize, len: usize) -> (r: usize)
    ensures
        r == step_down(index, len as nat),
{
    if len == 0 {
        index
    } else if index < len - 1 {
        index + 1
    } else {
        len - 1
    }
}

/// Moves a selection one item up.
pub fn select_previous(index: usize) -> (r: usize)
    ensures
        r == step_up(index),
{
    if index > 0 {
        index - 1
    } else {
        0
    }
}

/// Pulls a selection back into a list of `len` items.
pub fn clamp_selection(index: usize, len: usize) -> (r: usize)
    ensures
        r == clamped(index, len as nat),
{
    if index >= len && len > 0 {
        len - 1
    } else {
        index
    }
}

} // verus!
