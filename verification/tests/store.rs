use meter::models::{Client, Entry};
use meter::driver::{deliver, play_round};
use meter::session::protocol::{Effect, Message, Reply, Request};
use meter::session::state::App;
use meter::store::{list_entries, list_entries_between, Store};
use meter::time::Timestamp;

const T0: i64 = 1_700_000_000;

fn at(secs: i64) -> Timestamp {
    Timestamp::new(secs, 0).unwrap()
}

fn entry(start: i64, end: Option<i64>, billed: bool) -> Entry {
    Entry {
        id: 0,
        project: "P".to_string(),
        description: "d".to_string(),
        start: at(start),
        end: end.map(at),
        billed,
    }
}

#[test]
fn new_store_is_empty() {
    let store = Store::new();
    assert!(store.entries.is_empty());
    assert!(store.get_active_entry().is_none());
    assert_eq!(store.get_next_invoice_number(), Some(1));
    let snapshot = store.snapshot();
    assert!(snapshot.entries.is_empty());
    assert!(snapshot.active_entry.is_none());
    assert!(!snapshot.pomodoro_config.enabled);
}

#[test]
fn identities_count_up_from_one() {
    let mut store = Store::new();
    assert!(store.start_timer("A".to_string(), "x".to_string(), &at(T0)));
    store.stop_active_timer(&at(T0 + 1));
    assert!(store.insert(entry(T0, Some(T0 + 5), false)));
    assert_eq!(store.entries.iter().map(|e| e.id).collect::<Vec<_>>(), vec![1, 2]);
    store.next_entry_id = i64::MAX;
    assert!(!store.start_timer("A".to_string(), "x".to_string(), &at(T0)));
    assert!(matches!(
        store.perform(Request::StartTimer("A".to_string(), "x".to_string()), &at(T0)),
        Reply::Failed
    ));
    assert_eq!(store.entries.len(), 2);
}

#[test]
fn active_entry_is_the_running_one_that_started_last() {
    let mut store = Store::new();
    store.insert(entry(T0 + 50, None, false));
    store.insert(entry(T0 + 100, None, false));
    store.insert(entry(T0 + 70, None, false));
    store.insert(entry(T0 + 200, Some(T0 + 300), false));
    assert_eq!(store.get_active_entry().unwrap().id, 2);
    let stopped = store.stop_active_timer(&at(T0 + 400)).unwrap();
    assert_eq!(stopped.id, 2);
    assert_eq!(stopped.end, Some(at(T0 + 400)));
    assert_eq!(store.get_active_entry().unwrap().id, 3);
}

#[test]
fn lists_come_newest_first_and_filtered() {
    let mut store = Store::new();
    store.insert(entry(T0, Some(T0 + 10), true));
    store.insert(entry(T0 + 100, Some(T0 + 110), false));
    store.insert(entry(T0 + 200, Some(T0 + 210), true));
    store.insert(entry(T0 + 300, None, true));
    let ids = |v: Vec<Entry>| v.iter().map(|e| e.id).collect::<Vec<_>>();
    assert_eq!(ids(list_entries(&store.entries, None)), vec![4, 3, 2, 1]);
    assert_eq!(ids(list_entries(&store.entries, Some(true))), vec![4, 3, 1]);
    assert_eq!(ids(list_entries(&store.entries, Some(false))), vec![2]);
    assert_eq!(
        ids(list_entries_between(&store.entries, &at(T0 + 10), &at(T0 + 210), Some(true))),
        vec![3, 1]
    );
    assert_eq!(ids(list_entries_between(&store.entries, &at(T0 + 11), &at(T0 + 209), None)), vec![2]);
    match store.perform(Request::ListEntries(Some(false)), &at(T0)) {
        Reply::Entries(v) => assert_eq!(ids(v), vec![2]),
        _ => panic!("a list was asked for"),
    }
    match store.perform(Request::InvoiceData, &at(T0)) {
        Reply::InvoiceData(v, projects) => {
            assert_eq!(ids(v), vec![4, 3, 1]);
            assert_eq!(projects.unwrap().len(), 0);
        }
        _ => panic!("invoice data was asked for"),
    }
}

#[test]
fn requests_change_what_they_name() {
    let mut store = Store::new();
    let now = at(T0);
    store.insert(entry(T0, Some(T0 + 10), false));
    store.insert(entry(T0, Some(T0 + 20), false));
    assert!(matches!(store.perform(Request::MarkBilled(2), &now), Reply::Done));
    assert_eq!(store.entries.iter().map(|e| e.billed).collect::<Vec<_>>(), vec![false, true]);
    store.perform(Request::UnmarkBilled(2), &now);
    assert!(!store.entries[1].billed);
    store.perform(Request::DeleteEntry(1), &now);
    assert_eq!(store.entries.len(), 1);
    assert_eq!(store.entries[0].id, 2);
    assert!(matches!(store.perform(Request::Nothing, &now), Reply::Nothing));
    assert!(matches!(store.perform(Request::GetActiveEntry, &now), Reply::ActiveEntry(None)));
    assert!(matches!(store.perform(Request::GetPomodoroConfig, &now), Reply::PomodoroConfig(_)));

    let mut client = Client::default();
    client.name = "Globex".to_string();
    client.id = 99;
    store.perform(Request::AddClient(client.clone()), &now);
    assert_eq!(store.clients[0].id, 1);
    client.id = 1;
    client.email = "x@y".to_string();
    store.perform(Request::UpdateClient(client), &now);
    assert_eq!(store.clients[0].email, "x@y");
    match store.perform(Request::ListClients, &now) {
        Reply::Clients(v) => assert_eq!(v.len(), 1),
        _ => panic!("clients were asked for"),
    }
    store.perform(Request::DeleteClient(1), &now);
    assert!(store.clients.is_empty());
}

#[test]
fn local_times_are_answered_with_texts() {
    let mut store = Store::new();
    match store.perform(Request::LocalTimes(at(T0), None), &at(T0)) {
        Reply::LocalTimes(start, end) => {
            assert_eq!(start.len(), 16);
            assert_eq!(end, "");
        }
        _ => panic!("local times were asked for"),
    }
    match store.perform(Request::LocalTimes(at(T0), Some(at(T0 + 3600))), &at(T0)) {
        Reply::LocalTimes(start, end) => {
            assert_eq!(end.len(), 16);
            assert!(start != end);
        }
        _ => panic!("local times were asked for"),
    }
}

#[test]
fn effects_reach_the_store() {
    let mut store = Store::new();
    store.start_timer("A".to_string(), "x".to_string(), &at(T0));
    store.apply(Effect::BreakComplete, &at(T0 + 1));
    store.apply(Effect::Nothing, &at(T0 + 1));
    assert!(store.get_active_entry().is_some());
    store.apply(Effect::WorkComplete, &at(T0 + 2700));
    assert!(store.get_active_entry().is_none());
    assert_eq!(store.entries[0].end, Some(at(T0 + 2700)));
    store.apply(Effect::SavePomodoroEnabled(true), &at(T0));
    assert!(store.pomodoro_config.enabled);
    let mut config = store.pomodoro_config;
    config.work_duration = 25;
    store.apply(Effect::SavePomodoroConfig(config), &at(T0));
    assert_eq!(store.pomodoro_config.work_duration, 25);
}

#[test]
fn project_rates_are_set_and_kept() {
    let mut store = Store::new();
    assert!(store.set_project_rate("A".to_string(), Some(100), None));
    assert_eq!(store.projects[0].currency.as_deref(), Some("$"));
    assert!(store.set_project_rate("A".to_string(), Some(200), Some("€".to_string())));
    assert!(store.set_project_rate("A".to_string(), None, None));
    assert_eq!(store.projects.len(), 1);
    assert_eq!(store.projects[0].rate, None);
    assert_eq!(store.projects[0].currency.as_deref(), Some("€"));
    assert_eq!(store.projects[0].id, 1);
}

#[test]
fn rounds_are_played_against_the_store() {
    let mut store = Store::new();
    let mut app = App::new(store.snapshot());
    app.project_input = "Acme".to_string();
    let next = play_round(&mut app, &mut store, Message::StartTimer, &at(T0));
    assert_eq!(next, Some(Message::RefreshActiveTimer));
    assert!(app.active_entry.is_none());
    assert_eq!(store.entries.len(), 1);
    assert_eq!(play_round(&mut app, &mut store, Message::RefreshActiveTimer, &at(T0)), None);
    assert_eq!(app.active_entry.as_ref().unwrap().id, 1);

    deliver(&mut app, &mut store, Message::StopTimer, &at(T0 + 600));
    assert!(app.active_entry.is_none());
    assert_eq!(app.entries.len(), 1);
    assert_eq!(app.entries[0].seconds(), Some(600));
    app.project_input = "Acme".to_string();
    deliver(&mut app, &mut store, Message::StartTimer, &at(T0 + 700));
    assert_eq!(app.active_entry.as_ref().unwrap().id, 2);
    deliver(&mut app, &mut store, Message::EditEntry(1), &at(T0 + 800));
    assert_eq!(app.entry_form.project, "Acme");
}

#[test]
fn backdated_entries_end_now() {
    let now = at(T0);
    let e = Entry::backdated("P".to_string(), "d".to_string(), 2, &now).unwrap();
    assert_eq!(e.id, 0);
    assert_eq!(e.start, at(T0 - 7200));
    assert_eq!(e.end, Some(now));
    assert_eq!(e.seconds(), Some(7200));
    assert!(!e.billed);
    assert!(e.ends_after_start());
    let zero = Entry::backdated("P".to_string(), "d".to_string(), 0, &now).unwrap();
    assert_eq!(zero.seconds(), Some(0));
    let ahead = Entry::backdated("P".to_string(), "d".to_string(), -1, &now).unwrap();
    assert!(!ahead.ends_after_start());
    assert!(Entry::backdated("P".to_string(), "d".to_string(), i64::MAX, &now).is_none());
    assert!(Entry::backdated("P".to_string(), "d".to_string(), 5_000_000_000, &now).is_none());
}

fn ids_in_order(store: &Store) -> bool {
    let entries: Vec<i64> = store.entries.iter().map(|e| e.id).collect();
    let projects: Vec<i64> = store.projects.iter().map(|p| p.id).collect();
    let clients: Vec<i64> = store.clients.iter().map(|c| c.id).collect();
    [
        (entries, store.next_entry_id),
        (projects, store.next_project_id),
        (clients, store.next_client_id),
    ]
    .iter()
    .all(|(ids, next)| {
        ids.iter().all(|id| 1 <= *id && id < next)
            && ids.iter().enumerate().all(|(i, id)| !ids[..i].contains(id))
    })
}

#[test]
fn new_identities_are_never_reused() {
    let mut store = Store::new();
    assert!(ids_in_order(&store));
    for k in 0..3 {
        assert!(store.start_timer("A".to_string(), "x".to_string(), &at(T0 + k)));
        store.stop_active_timer(&at(T0 + k + 1));
    }
    assert!(matches!(store.perform(Request::DeleteEntry(3), &at(T0)), Reply::Done));
    assert!(matches!(store.perform(Request::DeleteEntry(1), &at(T0)), Reply::Done));
    assert!(ids_in_order(&store));
    assert!(store.start_timer("B".to_string(), "y".to_string(), &at(T0 + 10)));
    assert_eq!(store.entries.iter().map(|e| e.id).collect::<Vec<_>>(), vec![2, 4]);
    assert!(store.insert(entry(T0, Some(T0 + 5), true)));
    assert_eq!(store.entries.last().unwrap().id, 5);
    assert!(ids_in_order(&store));

    assert!(store.set_project_rate("A".to_string(), Some(100), None));
    assert!(store.set_project_rate("B".to_string(), None, Some("EUR".to_string())));
    assert!(store.set_project_rate("A".to_string(), Some(200), None));
    assert_eq!(store.projects.iter().map(|p| p.id).collect::<Vec<_>>(), vec![1, 2]);
    let client = Client { id: 0, name: "Acme".to_string(), ..Client::default() };
    assert!(store.add_client(client.clone()));
    assert!(store.add_client(client.clone()));
    assert!(matches!(store.perform(Request::DeleteClient(1), &at(T0)), Reply::Done));
    assert!(store.add_client(client));
    assert_eq!(store.clients.iter().map(|c| c.id).collect::<Vec<_>>(), vec![2, 3]);
    assert!(ids_in_order(&store));
}

#[test]
fn saving_an_entry_keeps_an_end_that_cannot_be_read() {
    let mut store = Store::new();
    assert!(store.insert(entry(T0, Some(T0 + 3600), false)));
    let mut edited = store.entries[0].clone();
    edited.project = "Q".to_string();
    let reply = store.perform(
        Request::SaveEntry(edited, "not a time".to_string(), "nor this".to_string()),
        &at(T0),
    );
    assert!(matches!(reply, Reply::Done));
    assert_eq!(store.entries[0].project, "Q");
    assert_eq!(store.entries[0].start, at(T0));
    assert_eq!(store.entries[0].end, Some(at(T0 + 3600)));
    assert!(ids_in_order(&store));
}

#[test]
fn entry_editor_is_played_against_the_store() {
    let mut store = Store::new();
    assert!(store.insert(entry(T0 - T0 % 60, Some(T0 - T0 % 60 + 3600), false)));
    let mut app = App::new(store.snapshot());
    deliver(&mut app, &mut store, Message::EditEntry(1), &at(T0));
    assert_eq!(app.entry_form.start.len(), 16);
    assert_eq!(app.entry_form.end.len(), 16);
    deliver(&mut app, &mut store, Message::EditFieldInput('x'), &at(T0));
    deliver(&mut app, &mut store, Message::SaveEditEntry, &at(T0));
    assert_eq!(store.entries[0].project, "Px");
    assert_eq!(store.entries[0].start, at(T0 - T0 % 60));
    assert_eq!(store.entries[0].end, Some(at(T0 - T0 % 60 + 3600)));
    assert_eq!(app.entries[0].project, "Px");
    assert!(ids_in_order(&store));
}
