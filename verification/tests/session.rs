use meter::invoice::UNITS_PER_CURRENCY;
use meter::models::{Entry, PomodoroConfig};
use meter::pomodoro::PomodoroState;
use meter::session::protocol::{Effect, EntrySource, Message, Outcome, Reply, Request};
use meter::session::state::{
    App, ClientField, EditField, InputMode, InvoiceMode, PomodoroField, RunningState, Screen,
    SettingsField,
};
use meter::store::Store;
use meter::session::entries::apply_times;
use meter::session::update::local_times_reply;
use meter::time::{read_local_minute, write_local_minute, LocalTime, Timestamp};

const T0: i64 = 1_700_000_000;

fn at(secs: i64) -> Timestamp {
    Timestamp::new(secs, 0).unwrap()
}

/// Processes a message and its follow-ups against the store, as the event
/// loop of a front end does.
fn send(app: &mut App, store: &mut Store, msg: Message, now: i64) -> Vec<Effect> {
    let now = at(now);
    let mut effects = Vec::new();
    let mut next = Some(msg);
    while let Some(m) = next {
        let request = app.request_for(m, &now);
        let reply = store.perform(request, &now);
        let outcome = app.update_at(m, reply, &now);
        store.apply(outcome.effect, &now);
        effects.push(outcome.effect);
        next = outcome.next;
    }
    effects
}

fn type_text(app: &mut App, store: &mut Store, text: &str, make: fn(char) -> Message) {
    for c in text.chars() {
        send(app, store, make(c), T0);
    }
}

fn open() -> (App, Store) {
    let store = Store::new();
    let app = App::new(store.snapshot());
    (app, store)
}

fn start(app: &mut App, store: &mut Store, project: &str, description: &str, now: i64) {
    app.project_input = project.to_string();
    app.description_input = description.to_string();
    send(app, store, Message::StartTimer, now);
}

fn running(store: &Store) -> usize {
    store.entries.iter().filter(|e| e.end.is_none()).count()
}

fn status(app: &App) -> &str {
    app.status_message.as_deref().unwrap_or("")
}

#[test]
fn fresh_session_shows_the_timer_screen() {
    let (app, _) = open();
    assert_eq!(app.current_screen, Screen::Timer);
    assert_eq!(app.running_state, RunningState::Running);
    assert_eq!(app.input_mode, InputMode::Normal);
    assert_eq!(app.description_input, "Work session");
    assert_eq!(app.project_input, "");
    assert!(app.active_entry.is_none());
    assert!(app.status_message.is_none());
    assert_eq!(app.pomodoro.state, PomodoroState::Idle);
}

#[test]
fn session_opened_on_running_timer_has_an_idle_scheduler() {
    let mut store = Store::new();
    store.pomodoro_config.enabled = true;
    store.start_timer("Acme".to_string(), "Design".to_string(), &at(T0));
    let app = App::new(store.snapshot());
    assert_eq!(app.active_entry.as_ref().unwrap().project, "Acme");
    assert!(app.pomodoro.config.enabled);
    assert_eq!(app.pomodoro.state, PomodoroState::Idle);
    assert_eq!(app.pomodoro.interval_start, None);
    assert_eq!(app.pomodoro.cycles_completed, 0);
    assert_eq!(app.get_pomodoro_remaining_secs(&at(T0 + 60)), None);
    assert_eq!(app.entries.len(), 1);
}

#[test]
fn tick_after_opening_on_a_running_timer_stops_nothing() {
    let mut store = Store::new();
    store.pomodoro_config.enabled = true;
    store.start_timer("Acme".to_string(), "Design".to_string(), &at(T0));
    let mut app = App::new(store.snapshot());
    let effects = send(&mut app, &mut store, Message::Tick, T0 + 100 * 3600);
    assert!(effects.iter().all(|e| *e == Effect::Nothing));
    assert_eq!(app.pomodoro.state, PomodoroState::Idle);
    assert_eq!(running(&store), 1);
    assert!(app.active_entry.is_some());
}

#[test]
fn end_that_names_no_instant_is_kept() {
    let e = Entry {
        id: 7,
        project: "Acme".to_string(),
        description: "Design".to_string(),
        start: at(T0),
        end: Some(at(T0 + 3600)),
        billed: true,
    };
    let kept =
        apply_times(e.clone(), LocalTime::Unresolved, "2024-03-10 02:30", LocalTime::Unresolved);
    assert_eq!((kept.id, kept.start, kept.end, kept.billed), (7, e.start, e.end, true));
    assert_eq!((kept.project.as_str(), kept.description.as_str()), ("Acme", "Design"));
    let malformed = apply_times(e.clone(), LocalTime::Malformed, "soon", LocalTime::Malformed);
    assert_eq!((malformed.start, malformed.end), (e.start, e.end));
    let moved = apply_times(
        e.clone(),
        LocalTime::At(at(T0 + 60)),
        "2024-03-10 02:30",
        LocalTime::At(at(T0 + 120)),
    );
    assert_eq!(moved.start, at(T0 + 60));
    assert_eq!(moved.end, Some(at(T0 + 120)));
    let emptied = apply_times(e.clone(), LocalTime::Unresolved, "", LocalTime::At(at(T0 + 120)));
    assert_eq!(emptied.start, at(T0));
    assert_eq!(emptied.end, None);
}

#[test]
fn local_time_texts_are_never_empty() {
    match local_times_reply(&at(T0), Some(&at(T0 + 3600))) {
        Reply::LocalTimes(start, end) => {
            assert_eq!(start.len(), 16);
            assert_eq!(end.len(), 16);
            assert_eq!(read_local_minute(&start), LocalTime::At(at(T0 - T0 % 60)));
        }
        _ => panic!("local times were asked for"),
    }
    match local_times_reply(&at(-62_000_000_000), None) {
        Reply::LocalTimes(start, end) => {
            assert!(!start.is_empty());
            assert_eq!(end, "");
        }
        _ => panic!("local times were asked for"),
    }
}

#[test]
fn start_creates_one_running_entry() {
    let (mut app, mut store) = open();
    start(&mut app, &mut store, "Acme", "Design", T0);
    assert_eq!(store.entries.len(), 1);
    assert_eq!(running(&store), 1);
    let e = app.active_entry.as_ref().unwrap();
    assert_eq!((e.project.as_str(), e.description.as_str()), ("Acme", "Design"));
    assert_eq!(e.start, at(T0));
    assert!(e.end.is_none());
    assert!(!e.billed);
    assert_eq!(status(&app), "Timer started");
    assert_eq!(app.project_input, "");
    assert_eq!(app.description_input, "Work session");
    assert_eq!(app.pomodoro.last_project.as_deref(), Some("Acme"));
    assert_eq!(app.pomodoro.last_description.as_deref(), Some("Design"));
    assert_eq!(app.pomodoro.state, PomodoroState::Idle);
}

#[test]
fn start_with_empty_project_is_rejected() {
    let (mut app, mut store) = open();
    let now = at(T0);
    assert!(matches!(app.request_for(Message::StartTimer, &now), Request::Nothing));
    let effects = send(&mut app, &mut store, Message::StartTimer, T0);
    assert_eq!(effects, vec![Effect::Nothing]);
    assert!(store.entries.is_empty());
    assert!(app.active_entry.is_none());
    assert!(app.status_message.is_none());
    let out = app.update_at(Message::StartTimer, Reply::Done, &now);
    assert_eq!(out, Outcome { next: None, effect: Effect::Nothing });
    assert!(app.active_entry.is_none());
}

#[test]
fn start_while_a_timer_runs_is_rejected() {
    let (mut app, mut store) = open();
    start(&mut app, &mut store, "Acme", "Design", T0);
    start(&mut app, &mut store, "Other", "More", T0 + 10);
    assert_eq!(store.entries.len(), 1);
    assert_eq!(running(&store), 1);
    assert_eq!(app.project_input, "Other");
}

#[test]
fn failed_insert_changes_nothing() {
    let (mut app, _) = open();
    app.project_input = "Acme".to_string();
    let out = app.update_at(Message::StartTimer, Reply::Failed, &at(T0));
    assert_eq!(out.next, None);
    assert_eq!(app.project_input, "Acme");
    assert!(app.status_message.is_none());
    assert!(app.pomodoro.last_project.is_none());
}

#[test]
fn stop_ends_the_running_entry() {
    let (mut app, mut store) = open();
    start(&mut app, &mut store, "Acme", "Design", T0);
    send(&mut app, &mut store, Message::StopTimer, T0 + 90 * 60);
    assert_eq!(running(&store), 0);
    assert_eq!(store.entries[0].end, Some(at(T0 + 90 * 60)));
    assert_eq!(store.entries[0].seconds(), Some(5400));
    assert!(app.active_entry.is_none());
    assert_eq!(status(&app), "Timer stopped");
    assert_eq!(app.entries.len(), 1);
    assert_eq!(app.entries[0].end, Some(at(T0 + 90 * 60)));
}

#[test]
fn stop_without_timer_does_nothing() {
    let (mut app, mut store) = open();
    let now = at(T0);
    assert!(matches!(app.request_for(Message::StopTimer, &now), Request::Nothing));
    let effects = send(&mut app, &mut store, Message::StopTimer, T0);
    assert_eq!(effects, vec![Effect::Nothing]);
    assert!(app.status_message.is_none());
    assert!(store.entries.is_empty());
    assert_eq!(store.stop_active_timer(&now).map(|e| e.id), None);
    let out = app.update_at(Message::StopTimer, Reply::Done, &now);
    assert_eq!(out, Outcome { next: None, effect: Effect::Nothing });
    assert!(app.status_message.is_none());
}

#[test]
fn at_most_one_entry_runs_through_starts_and_stops() {
    let (mut app, mut store) = open();
    let script = [
        Message::StartTimer,
        Message::StartTimer,
        Message::Tick,
        Message::StopTimer,
        Message::StopTimer,
        Message::StartTimer,
        Message::Tick,
        Message::StartTimer,
        Message::StopTimer,
        Message::StartTimer,
    ];
    for (i, msg) in script.iter().enumerate() {
        app.project_input = "Acme".to_string();
        send(&mut app, &mut store, *msg, T0 + 60 * i as i64);
        assert!(running(&store) <= 1);
        assert_eq!(app.active_entry.is_some(), running(&store) == 1);
    }
    assert_eq!(store.entries.len(), 3);
    assert!(store.entries.iter().all(|e| e.ends_after_start()));
}

#[test]
fn work_interval_expires_on_tick() {
    let (mut app, mut store) = open();
    send(&mut app, &mut store, Message::TogglePomodoroMode, T0 - 5);
    assert!(store.pomodoro_config.enabled);
    assert_eq!(status(&app), "Pomodoro mode enabled");
    start(&mut app, &mut store, "Acme", "Design", T0);
    assert_eq!(app.pomodoro.state, PomodoroState::Working);
    assert_eq!(app.pomodoro.interval_start, Some(at(T0)));

    let effects = send(&mut app, &mut store, Message::Tick, T0 + 45 * 60 - 1);
    assert_eq!(effects, vec![Effect::Nothing]);
    assert_eq!(app.pomodoro.state, PomodoroState::Working);
    assert_eq!(app.get_pomodoro_remaining_secs(&at(T0 + 44 * 60)), Some(60));

    let effects = send(&mut app, &mut store, Message::Tick, T0 + 45 * 60);
    assert_eq!(effects, vec![Effect::WorkComplete]);
    assert_eq!(app.pomodoro.state, PomodoroState::WorkComplete);
    assert!(app.pomodoro.interval_start.is_none());
    assert!(app.active_entry.is_none());
    assert_eq!(running(&store), 0);
    assert_eq!(store.entries[0].end, Some(at(T0 + 45 * 60)));
    assert_eq!(status(&app), "Work period complete! Press [Space] to start break");
}

#[test]
fn break_follows_work_and_resume_prefills_the_form() {
    let (mut app, mut store) = open();
    send(&mut app, &mut store, Message::TogglePomodoroMode, T0);
    start(&mut app, &mut store, "Acme", "Design", T0);
    send(&mut app, &mut store, Message::Tick, T0 + 2700);
    send(&mut app, &mut store, Message::AcknowledgePomodoro, T0 + 2710);
    assert_eq!(app.pomodoro.state, PomodoroState::OnBreak);
    assert_eq!(status(&app), "Starting short break (15 min)");
    assert!(!app.is_long_break_next());
    assert_eq!(app.get_current_break_duration(), 15);

    let effects = send(&mut app, &mut store, Message::Tick, T0 + 2710 + 900);
    assert_eq!(effects, vec![Effect::BreakComplete]);
    assert_eq!(app.pomodoro.state, PomodoroState::BreakComplete);
    assert_eq!(status(&app), "Break complete! Press [s] to resume work");

    app.project_input = "typed meanwhile".to_string();
    send(&mut app, &mut store, Message::AcknowledgePomodoro, T0 + 4000);
    assert_eq!(app.pomodoro.state, PomodoroState::Idle);
    assert_eq!(app.pomodoro.cycles_completed, 1);
    assert_eq!(app.project_input, "Acme");
    assert_eq!(app.description_input, "Design");
    assert_eq!(status(&app), "Ready to start next work period");
    assert_eq!(running(&store), 0);
}

#[test]
fn long_break_is_announced_on_the_last_cycle() {
    let (mut app, _) = open();
    app.pomodoro.config.enabled = true;
    app.pomodoro.config.cycles_before_long = 2;
    app.pomodoro.cycles_completed = 1;
    app.pomodoro.state = PomodoroState::WorkComplete;
    app.update_at(Message::AcknowledgePomodoro, Reply::Nothing, &at(T0));
    assert_eq!(status(&app), "Starting long break (60 min)");
    app.pomodoro.state = PomodoroState::BreakComplete;
    app.update_at(Message::AcknowledgePomodoro, Reply::Nothing, &at(T0));
    assert_eq!(app.pomodoro.cycles_completed, 0);
}

#[test]
fn manual_stop_leaves_pomodoro_mode_for_the_cycle() {
    let (mut app, mut store) = open();
    send(&mut app, &mut store, Message::TogglePomodoroMode, T0);
    start(&mut app, &mut store, "Acme", "Design", T0);
    app.pomodoro.cycles_completed = 2;
    send(&mut app, &mut store, Message::StopTimer, T0 + 60);
    assert_eq!(app.pomodoro.state, PomodoroState::Idle);
    assert_eq!(app.pomodoro.cycles_completed, 0);
    assert!(app.pomodoro.interval_start.is_none());
    assert!(app.pomodoro.config.enabled);
}

#[test]
fn toggling_pomodoro_while_timer_runs_anchors_at_now() {
    let (mut app, mut store) = open();
    start(&mut app, &mut store, "Acme", "Design", T0);
    let effects = send(&mut app, &mut store, Message::TogglePomodoroMode, T0 + 600);
    assert_eq!(effects, vec![Effect::SavePomodoroEnabled(true)]);
    assert_eq!(app.pomodoro.state, PomodoroState::Working);
    assert_eq!(app.pomodoro.interval_start, Some(at(T0 + 600)));

    let effects = send(&mut app, &mut store, Message::TogglePomodoroMode, T0 + 700);
    assert_eq!(effects, vec![Effect::SavePomodoroEnabled(false)]);
    assert_eq!(status(&app), "Pomodoro mode disabled");
    assert_eq!(app.pomodoro.state, PomodoroState::Idle);
    assert!(!store.pomodoro_config.enabled);
    assert_eq!(running(&store), 1);
    assert!(app.active_entry.is_some());
}

#[test]
fn tick_takes_over_what_another_writer_did() {
    let (mut app, mut store) = open();
    store.start_timer("Elsewhere".to_string(), "x".to_string(), &at(T0));
    send(&mut app, &mut store, Message::Tick, T0 + 1);
    assert_eq!(app.active_entry.as_ref().unwrap().project, "Elsewhere");
    store.stop_active_timer(&at(T0 + 2));
    send(&mut app, &mut store, Message::Tick, T0 + 3);
    assert!(app.active_entry.is_none());
}

#[test]
fn update_reads_the_clock() {
    let (mut app, _) = open();
    app.pomodoro.config.enabled = true;
    app.project_input = "Acme".to_string();
    let out = app.update(Message::StartTimer, Reply::Done);
    assert_eq!(out.next, Some(Message::RefreshActiveTimer));
    let started = app.pomodoro.interval_start.unwrap();
    assert!(started.secs() > T0);
    assert_eq!(app.pomodoro.state, PomodoroState::Working);
}

#[test]
fn text_is_typed_and_deleted() {
    let (mut app, mut store) = open();
    type_text(&mut app, &mut store, "Acme", Message::UpdateProjectInput);
    assert_eq!(app.project_input, "Acme");
    send(&mut app, &mut store, Message::DeleteProjectChar, T0);
    assert_eq!(app.project_input, "Acm");
    type_text(&mut app, &mut store, "!", Message::UpdateDescriptionInput);
    assert_eq!(app.description_input, "Work session!");
    for _ in 0..20 {
        send(&mut app, &mut store, Message::DeleteDescriptionChar, T0);
    }
    assert_eq!(app.description_input, "");
}

#[test]
fn navigation_messages_change_screen_and_mode() {
    let (mut app, mut store) = open();
    app.confirm_delete = Some(3);
    app.input_mode = InputMode::EditingProject;
    send(&mut app, &mut store, Message::SwitchScreen(Screen::Entries), T0);
    assert_eq!(app.current_screen, Screen::Entries);
    assert_eq!(app.input_mode, InputMode::Normal);
    assert!(app.confirm_delete.is_none());
    send(&mut app, &mut store, Message::EnterInputMode(InputMode::EditingRate), T0);
    assert_eq!(app.input_mode, InputMode::EditingRate);
    app.invoice_mode = InvoiceMode::SelectEntries;
    app.invoice_mode_index = 3;
    send(&mut app, &mut store, Message::ExitInputMode, T0);
    assert_eq!(app.input_mode, InputMode::Normal);
    assert_eq!((app.invoice_mode, app.invoice_mode_index), (InvoiceMode::CurrentMonth, 0));
    send(&mut app, &mut store, Message::ToggleHelp, T0);
    assert!(app.show_help);
    app.status_message = Some("x".to_string());
    send(&mut app, &mut store, Message::ClearStatus, T0);
    assert!(app.status_message.is_none());
    send(&mut app, &mut store, Message::Quit, T0);
    assert_eq!(app.running_state, RunningState::Done);
}

#[test]
fn pomodoro_screen_loads_and_saves_the_configuration() {
    let (mut app, mut store) = open();
    store.pomodoro_config.work_duration = 50;
    send(&mut app, &mut store, Message::SwitchScreen(Screen::Pomodoro), T0);
    assert_eq!(app.pomodoro.config.work_duration, 50);
    assert_eq!(app.pomodoro_form.work, "50");
    assert_eq!(app.pomodoro_form.cycles, "4");

    send(&mut app, &mut store, Message::PomodoroNextField, T0);
    assert_eq!(app.pomodoro_field, PomodoroField::WorkDuration);
    assert_eq!(app.input_mode, InputMode::EditingPomodoroWork);
    send(&mut app, &mut store, Message::PomodoroFieldBackspace, T0);
    send(&mut app, &mut store, Message::PomodoroFieldInput('x'), T0);
    send(&mut app, &mut store, Message::PomodoroFieldInput('5'), T0);
    assert_eq!(app.pomodoro_form.work, "55");
    app.pomodoro_form.short_break = "0".to_string();
    app.pomodoro_form.long_break = "".to_string();
    app.pomodoro_form.cycles = "99999999999".to_string();

    let effects = send(&mut app, &mut store, Message::SavePomodoroConfig, T0);
    let expected = PomodoroConfig { work_duration: 55, ..PomodoroConfig::default() };
    assert_eq!(effects, vec![Effect::SavePomodoroConfig(expected)]);
    assert_eq!(store.pomodoro_config, expected);
    assert_eq!(status(&app), "Pomodoro settings saved");
    assert_eq!(app.pomodoro_field, PomodoroField::Enabled);

    app.pomodoro_form.work = "1".to_string();
    send(&mut app, &mut store, Message::PomodoroPrevField, T0);
    assert_eq!(app.pomodoro_field, PomodoroField::Cycles);
    send(&mut app, &mut store, Message::CancelPomodoroEdit, T0);
    assert_eq!(app.pomodoro_form.work, "55");
    assert_eq!(app.input_mode, InputMode::Normal);
}

#[test]
fn entries_are_selected_deleted_and_billed() {
    let (mut app, mut store) = open();
    for i in 0..3 {
        start(&mut app, &mut store, "P", "d", T0 + 100 * i);
        send(&mut app, &mut store, Message::StopTimer, T0 + 100 * i + 50);
    }
    let ids: Vec<i64> = app.entries.iter().map(|e| e.id).collect();
    assert_eq!(ids, vec![3, 2, 1]);
    assert_eq!(app.get_selected_entry().unwrap().id, 3);
    send(&mut app, &mut store, Message::SelectNextEntry, T0);
    send(&mut app, &mut store, Message::SelectNextEntry, T0);
    send(&mut app, &mut store, Message::SelectNextEntry, T0);
    assert_eq!(app.selected_entry_index, 2);
    send(&mut app, &mut store, Message::SelectPreviousEntry, T0);
    assert_eq!(app.selected_entry_index, 1);

    send(&mut app, &mut store, Message::MarkEntryBilled(2), T0);
    assert_eq!(status(&app), "Entry 2 marked as billed");
    assert!(store.entries.iter().find(|e| e.id == 2).unwrap().billed);
    send(&mut app, &mut store, Message::ToggleBilledFilter, T0);
    assert_eq!(app.selected_entry_index, 0);
    assert_eq!(app.entries.iter().map(|e| e.id).collect::<Vec<_>>(), vec![3, 1]);
    send(&mut app, &mut store, Message::UnbillEntry(2), T0);
    assert_eq!(status(&app), "Entry 2 unbilled");
    assert_eq!(app.entries.len(), 3);
    send(&mut app, &mut store, Message::ToggleBilledFilter, T0);

    app.selected_entry_index = 2;
    send(&mut app, &mut store, Message::DeleteEntry(1), T0);
    assert_eq!(app.confirm_delete, Some(1));
    send(&mut app, &mut store, Message::CancelDelete, T0);
    assert!(app.confirm_delete.is_none());
    assert_eq!(store.entries.len(), 3);
    send(&mut app, &mut store, Message::DeleteEntry(1), T0);
    send(&mut app, &mut store, Message::ConfirmDelete, T0);
    assert_eq!(status(&app), "Entry 1 deleted");
    assert_eq!(store.entries.len(), 2);
    assert_eq!(app.entries.len(), 2);
    assert_eq!(app.selected_entry_index, 1);
    assert!(app.confirm_delete.is_none());
}

#[test]
fn entry_editor_round_trips_local_times() {
    let (mut app, mut store) = open();
    let begin = 1_718_454_840;
    start(&mut app, &mut store, "Acme", "Design", begin);
    send(&mut app, &mut store, Message::StopTimer, begin + 3600);

    send(&mut app, &mut store, Message::EditEntry(1), T0);
    assert_eq!(app.input_mode, InputMode::EditEntryProject);
    assert_eq!(app.entry_form.project, "Acme");
    assert_eq!(app.entry_form.start, write_local_minute(&at(begin)));
    assert_eq!(app.entry_form.end, write_local_minute(&at(begin + 3600)));

    send(&mut app, &mut store, Message::SaveEditEntry, T0);
    assert_eq!(status(&app), "Entry 1 updated");
    assert!(app.editing_entry.is_none());
    assert_eq!(store.entries[0].start, at(begin));
    assert_eq!(store.entries[0].end, Some(at(begin + 3600)));
}

#[test]
fn entry_editor_changes_fields_and_keeps_times_it_cannot_read() {
    let (mut app, mut store) = open();
    let begin = 1_718_454_840;
    start(&mut app, &mut store, "Acme", "Design", begin);
    send(&mut app, &mut store, Message::StopTimer, begin + 3600);
    send(&mut app, &mut store, Message::EditEntry(1), T0);

    send(&mut app, &mut store, Message::EditFieldInput('!'), T0);
    send(&mut app, &mut store, Message::EditNextField, T0);
    assert_eq!(app.edit_field, EditField::Description);
    assert_eq!(app.input_mode, InputMode::EditEntryDescription);
    send(&mut app, &mut store, Message::EditFieldBackspace, T0);
    send(&mut app, &mut store, Message::EditNextField, T0);
    type_text(&mut app, &mut store, "garbage", Message::EditFieldInput);
    send(&mut app, &mut store, Message::EditNextField, T0);
    assert_eq!(app.edit_field, EditField::End);
    app.entry_form.end = write_local_minute(&at(begin + 7200));
    send(&mut app, &mut store, Message::EditPrevField, T0);
    assert_eq!(app.edit_field, EditField::Start);

    send(&mut app, &mut store, Message::SaveEditEntry, T0);
    let e = &store.entries[0];
    assert_eq!(e.project, "Acme!");
    assert_eq!(e.description, "Desig");
    assert_eq!(e.start, at(begin));
    assert_eq!(e.end, Some(at(begin + 7200)));
    assert_eq!(app.input_mode, InputMode::Normal);
    assert_eq!(app.edit_field, EditField::Project);
    assert_eq!(app.entries[0].project, "Acme!");
}

#[test]
fn empty_end_field_makes_the_entry_run_again() {
    let (mut app, mut store) = open();
    start(&mut app, &mut store, "Acme", "Design", T0);
    send(&mut app, &mut store, Message::StopTimer, T0 + 60);
    send(&mut app, &mut store, Message::EditEntry(1), T0);
    app.entry_form.end.clear();
    send(&mut app, &mut store, Message::SaveEditEntry, T0);
    assert!(store.entries[0].end.is_none());

    send(&mut app, &mut store, Message::EditEntry(1), T0);
    assert_eq!(app.entry_form.end, "");
    send(&mut app, &mut store, Message::CancelEditEntry, T0);
    assert!(app.editing_entry.is_none());
    assert_eq!(app.input_mode, InputMode::Normal);
}

#[test]
fn editing_an_unknown_entry_does_nothing() {
    let (mut app, mut store) = open();
    assert!(matches!(app.request_for(Message::EditEntry(9), &at(T0)), Request::Nothing));
    send(&mut app, &mut store, Message::EditEntry(9), T0);
    assert!(app.editing_entry.is_none());
    assert_eq!(app.input_mode, InputMode::Normal);
    send(&mut app, &mut store, Message::SaveEditEntry, T0);
    assert!(app.status_message.is_none());
}

#[test]
fn failed_update_is_reported() {
    let (mut app, _) = open();
    app.editing_entry = Some(Entry {
        id: 5,
        project: "P".to_string(),
        description: "d".to_string(),
        start: at(T0),
        end: None,
        billed: false,
    });
    let out = app.update_at(Message::SaveEditEntry, Reply::Failed, &at(T0));
    assert_eq!(out.next, Some(Message::RefreshEntries));
    assert_eq!(status(&app), "Failed to update entry");
}

#[test]
fn project_rates_are_edited() {
    let (mut app, mut store) = open();
    store.set_project_rate("Acme".to_string(), None, None);
    store.set_project_rate("Beta".to_string(), Some(150_00), Some("€".to_string()));
    send(&mut app, &mut store, Message::SwitchScreen(Screen::Projects), T0);
    assert_eq!(app.projects.len(), 2);
    assert_eq!(app.projects[0].currency.as_deref(), Some("$"));
    send(&mut app, &mut store, Message::SelectNextProject, T0);
    send(&mut app, &mut store, Message::SelectNextProject, T0);
    assert_eq!(app.selected_project_index, 1);
    send(&mut app, &mut store, Message::SelectPreviousProject, T0);
    assert_eq!(app.selected_project_index, 0);

    send(&mut app, &mut store, Message::EditProjectRate(2), T0);
    assert_eq!(app.editing_project_rate, Some(2));
    assert_eq!(app.rate_input, "150.00");
    assert_eq!(app.currency_input, "€");
    assert_eq!(app.input_mode, InputMode::EditingRate);
    send(&mut app, &mut store, Message::CancelEditRate, T0);
    assert_eq!((app.rate_input.as_str(), app.currency_input.as_str()), ("", ""));

    send(&mut app, &mut store, Message::EditProjectRate(1), T0);
    assert_eq!(app.rate_input, "");
    assert_eq!(app.currency_input, "$");
    type_text(&mut app, &mut store, "9a9.5.0", Message::UpdateRateInput);
    assert_eq!(app.rate_input, "99.50");
    send(&mut app, &mut store, Message::DeleteRateChar, T0);
    send(&mut app, &mut store, Message::DeleteCurrencyChar, T0);
    type_text(&mut app, &mut store, "CHF", Message::UpdateCurrencyInput);
    send(&mut app, &mut store, Message::SaveProjectRate, T0);
    assert_eq!(status(&app), "Rate updated for 'Acme'");
    assert_eq!(app.input_mode, InputMode::Normal);
    assert_eq!(app.projects[0].rate, Some(99_50));
    assert_eq!(app.projects[0].currency.as_deref(), Some("CHF"));
    assert_eq!(app.projects[0].formatted_rate().unwrap(), "CHF99.50/hr");

    send(&mut app, &mut store, Message::ClearProjectRate(1), T0);
    assert_eq!(status(&app), "Rate cleared for 'Acme'");
    assert_eq!(app.projects[0].rate, None);
    assert_eq!(app.projects[0].currency.as_deref(), Some("CHF"));
    send(&mut app, &mut store, Message::ClearProjectRate(77), T0);
    assert_eq!(status(&app), "Rate cleared for 'Acme'");
}

#[test]
fn clients_are_added_edited_and_deleted() {
    let (mut app, mut store) = open();
    send(&mut app, &mut store, Message::AddClient, T0);
    assert!(app.adding_new_client);
    assert_eq!(app.input_mode, InputMode::EditingClient);
    type_text(&mut app, &mut store, "Globex", Message::ClientFieldInput);
    send(&mut app, &mut store, Message::ClientNextField, T0);
    assert_eq!(app.client_field, ClientField::Contact);
    type_text(&mut app, &mut store, "Hank", Message::ClientFieldInput);
    send(&mut app, &mut store, Message::ClientPrevField, T0);
    send(&mut app, &mut store, Message::ClientPrevField, T0);
    assert_eq!(app.client_field, ClientField::Email);
    type_text(&mut app, &mut store, "h@g.x", Message::ClientFieldInput);
    send(&mut app, &mut store, Message::ClientFieldBackspace, T0);
    send(&mut app, &mut store, Message::SaveClient, T0);
    assert_eq!(status(&app), "Client 'Globex' added");
    assert_eq!(app.clients.len(), 1);
    assert_eq!(app.clients[0].id, 1);
    assert_eq!(app.clients[0].contact_person, "Hank");
    assert_eq!(app.clients[0].email, "h@g.");
    assert_eq!(app.client_form.name, "");
    assert!(!app.adding_new_client);
    assert_eq!(app.get_selected_client().unwrap().name, "Globex");

    send(&mut app, &mut store, Message::AddClient, T0);
    type_text(&mut app, &mut store, "Initech", Message::ClientFieldInput);
    send(&mut app, &mut store, Message::SaveClient, T0);
    assert_eq!(app.clients.len(), 2);

    send(&mut app, &mut store, Message::EditClient(1), T0);
    assert_eq!(app.client_form.name, "Globex");
    type_text(&mut app, &mut store, " Inc", Message::ClientFieldInput);
    send(&mut app, &mut store, Message::SaveClient, T0);
    assert_eq!(status(&app), "Client 'Globex Inc' updated");
    assert_eq!(store.clients[0].name, "Globex Inc");
    assert_eq!(store.clients[0].contact_person, "Hank");

    send(&mut app, &mut store, Message::SelectNextClient, T0);
    assert_eq!(app.selected_client_index, 1);
    send(&mut app, &mut store, Message::SelectNextClient, T0);
    assert_eq!(app.selected_client_index, 0);
    send(&mut app, &mut store, Message::SelectPreviousClient, T0);
    assert_eq!(app.selected_client_index, 1);

    send(&mut app, &mut store, Message::CycleInvoiceClient, T0);
    assert_eq!(app.selected_invoice_client, Some(1));
    assert_eq!(app.get_selected_invoice_client().unwrap().name, "Globex Inc");
    send(&mut app, &mut store, Message::CycleInvoiceClient, T0);
    assert_eq!(app.selected_invoice_client, Some(2));
    send(&mut app, &mut store, Message::CycleInvoiceClient, T0);
    assert_eq!(app.selected_invoice_client, None);
    send(&mut app, &mut store, Message::SelectInvoiceClient(Some(2)), T0);
    assert_eq!(app.selected_invoice_client, Some(2));

    send(&mut app, &mut store, Message::DeleteClient(2), T0);
    send(&mut app, &mut store, Message::CancelDeleteClient, T0);
    assert_eq!(store.clients.len(), 2);
    send(&mut app, &mut store, Message::DeleteClient(2), T0);
    send(&mut app, &mut store, Message::ConfirmDeleteClient, T0);
    assert_eq!(status(&app), "Client 2 deleted");
    assert_eq!(app.clients.len(), 1);
    assert_eq!(app.selected_client_index, 0);
    assert!(app.get_selected_invoice_client().is_none());
    send(&mut app, &mut store, Message::EditClient(1), T0);
    send(&mut app, &mut store, Message::CancelEditClient, T0);
    assert!(app.editing_client.is_none());
}

#[test]
fn failed_client_writes_are_reported() {
    let (mut app, _) = open();
    app.adding_new_client = true;
    app.update_at(Message::SaveClient, Reply::Failed, &at(T0));
    assert_eq!(status(&app), "Failed to add client");
    app.update_at(Message::SaveClient, Reply::Failed, &at(T0));
    assert_eq!(status(&app), "Failed to update client");
}

#[test]
fn settings_are_edited_and_saved() {
    let (mut app, mut store) = open();
    send(&mut app, &mut store, Message::EditSettings, T0);
    assert!(app.editing_settings);
    assert_eq!(app.input_mode, InputMode::EditingSettings);
    assert_eq!(app.settings_form.default_tax_rate, "0");
    type_text(&mut app, &mut store, "Me Ltd", Message::SettingsFieldInput);
    send(&mut app, &mut store, Message::SettingsPrevField, T0);
    assert_eq!(app.settings_field, SettingsField::PaymentInstructions);
    send(&mut app, &mut store, Message::SettingsPrevField, T0);
    assert_eq!(app.settings_field, SettingsField::DefaultTaxRate);
    send(&mut app, &mut store, Message::SettingsFieldBackspace, T0);
    type_text(&mut app, &mut store, "8.x2.5", Message::SettingsFieldInput);
    assert_eq!(app.settings_form.default_tax_rate, "8.25");
    send(&mut app, &mut store, Message::SettingsPrevField, T0);
    type_text(&mut app, &mut store, "Net 30", Message::SettingsFieldInput);
    send(&mut app, &mut store, Message::SettingsNextField, T0);
    assert_eq!(app.settings_field, SettingsField::DefaultTaxRate);
    send(&mut app, &mut store, Message::SaveSettings, T0);
    assert_eq!(status(&app), "Settings saved");
    assert!(!app.editing_settings);
    assert_eq!(store.invoice_settings.business_name, "Me Ltd");
    assert_eq!(store.invoice_settings.default_tax_rate, 825);
    assert_eq!(store.invoice_settings.default_payment_terms, "Net 30");
    assert_eq!(app.invoice_settings.default_tax_rate, 825);

    send(&mut app, &mut store, Message::EditSettings, T0);
    assert_eq!(app.settings_form.default_tax_rate, "8.25");
    type_text(&mut app, &mut store, "!!", Message::SettingsFieldInput);
    send(&mut app, &mut store, Message::CancelEditSettings, T0);
    assert_eq!(app.settings_form.business_name, "Me Ltd");
    assert_eq!(store.invoice_settings.business_name, "Me Ltd");

    app.settings_form.business_name = "Other".to_string();
    app.update_at(Message::SaveSettings, Reply::Failed, &at(T0));
    assert_eq!(status(&app), "Failed to save settings");
    assert_eq!(app.invoice_settings.business_name, "Me Ltd");
}

#[test]
fn invoice_modes_cycle() {
    let (mut app, mut store) = open();
    let expected = [InvoiceMode::PriorMonth, InvoiceMode::CustomRange, InvoiceMode::SelectEntries];
    for (i, mode) in expected.iter().enumerate() {
        send(&mut app, &mut store, Message::NextInvoiceMode, T0);
        assert_eq!(app.invoice_mode_index, i + 1);
        assert_eq!(app.invoice_mode, *mode);
    }
    send(&mut app, &mut store, Message::NextInvoiceMode, T0);
    assert_eq!(app.invoice_mode_index, 3);
    send(&mut app, &mut store, Message::ExitInputMode, T0);
    send(&mut app, &mut store, Message::PrevInvoiceMode, T0);
    assert_eq!((app.invoice_mode_index, app.invoice_mode), (3, InvoiceMode::SelectEntries));
    send(&mut app, &mut store, Message::ExitInputMode, T0);
    send(&mut app, &mut store, Message::NextInvoiceMode, T0);
    send(&mut app, &mut store, Message::PrevInvoiceMode, T0);
    assert_eq!((app.invoice_mode_index, app.invoice_mode), (0, InvoiceMode::CurrentMonth));
}

fn bill(store: &mut Store, project: &str, start: i64, seconds: i64) -> i64 {
    store.start_timer(project.to_string(), "d".to_string(), &at(start));
    let id = store.stop_active_timer(&at(start + seconds)).unwrap().id;
    store.perform(Request::MarkBilled(id), &at(start));
    id
}

#[test]
fn invoices_are_numbered_from_one() {
    let (mut app, mut store) = open();
    bill(&mut store, "ProjA", T0, 2 * 3600);
    bill(&mut store, "ProjA", T0 + 10_000, 3600);
    bill(&mut store, "ProjB", T0 + 20_000, 3 * 3600);
    store.set_project_rate("ProjA".to_string(), Some(100_00), None);
    store.invoice_settings.default_tax_rate = 10_00;
    store.invoice_settings.default_payment_terms = "Net 30".to_string();
    send(&mut app, &mut store, Message::SwitchScreen(Screen::Invoice), T0 + 40_000);
    assert_eq!(app.invoice_entries.len(), 3);
    assert_eq!(app.project_rates.len(), 1);

    assert_eq!(store.get_next_invoice_number(), Some(1));
    send(&mut app, &mut store, Message::GenerateInvoice, T0 + 40_000);
    assert_eq!(status(&app), "Invoice #1 written to memory/invoice_0001.pdf");
    assert_eq!(store.invoices.len(), 1);
    let first = &store.invoices[0];
    assert_eq!(first.invoice_number, 1);
    assert_eq!(first.subtotal, 300 * UNITS_PER_CURRENCY);
    assert_eq!(first.tax_amount, 30 * UNITS_PER_CURRENCY);
    assert_eq!(first.total, 330 * UNITS_PER_CURRENCY);
    assert_eq!(first.tax_rate, 10_00);
    assert_eq!(first.date_issued, "2023-11-15");
    assert_eq!(first.due_date, "2023-12-15");
    assert_eq!(first.client_id, None);

    send(&mut app, &mut store, Message::GenerateInvoice, T0 + 50_000);
    assert_eq!(status(&app), "Invoice #2 written to memory/invoice_0002.pdf");
    assert_eq!(store.invoices[1].invoice_number, 2);
    assert_eq!(store.get_next_invoice_number(), Some(3));
}

#[test]
fn invoice_plan_follows_the_mode() {
    let (mut app, mut store) = open();
    let now = at(T0);
    let plan = app.invoice_plan(&now);
    assert_eq!((plan.year, plan.month), (2023, 11));
    match plan.source {
        EntrySource::Range(start, end) => {
            assert_eq!(start.date_text(), "2023-11-01");
            assert_eq!(start.secs() % 86_400, 0);
            assert_eq!(end, now);
        }
        EntrySource::Listed(_) => panic!("the current month is a range"),
    }

    app.invoice_mode = InvoiceMode::PriorMonth;
    let plan = app.invoice_plan(&now);
    assert_eq!((plan.year, plan.month), (2023, 10));
    match plan.source {
        EntrySource::Range(start, end) => {
            assert_eq!(start.date_text(), "2023-10-01");
            assert_eq!(start.secs() % 86_400, 0);
            assert_eq!(end.secs(), T0 - 13 * 86_400);
        }
        EntrySource::Listed(_) => panic!("the prior month is a range"),
    }

    app.invoice_mode = InvoiceMode::CustomRange;
    match app.invoice_plan(&now).source {
        EntrySource::Listed(entries) => assert!(entries.is_empty()),
        EntrySource::Range(_, _) => panic!("a custom range without dates has no entries"),
    }
    app.custom_start_date = Some(at(0));
    app.custom_end_date = Some(at(86_399));
    let plan = app.invoice_plan(&now);
    assert_eq!((plan.year, plan.month), (1970, 1));
    assert!(matches!(plan.source, EntrySource::Range(_, _)));

    let a = bill(&mut store, "A", T0, 60);
    let _b = bill(&mut store, "B", T0 + 100, 60);
    let c = bill(&mut store, "C", T0 + 200, 60);
    app.invoice_mode = InvoiceMode::CustomRange;
    app.invoice_mode_index = 2;
    send(&mut app, &mut store, Message::NextInvoiceMode, T0);
    assert_eq!(app.invoice_mode, InvoiceMode::SelectEntries);
    app.invoice_mode = InvoiceMode::CustomRange;
    send(&mut app, &mut store, Message::SelectInvoiceMode, T0);
    assert_eq!(app.invoice_mode, InvoiceMode::SelectEntries);
    assert_eq!(app.invoice_entries.len(), 3);
    send(&mut app, &mut store, Message::ToggleEntrySelection(a), T0);
    send(&mut app, &mut store, Message::ToggleEntrySelection(c), T0);
    send(&mut app, &mut store, Message::ToggleEntrySelection(99), T0);
    send(&mut app, &mut store, Message::ToggleEntrySelection(99), T0);
    assert_eq!(app.selected_entry_ids, vec![a, c]);
    send(&mut app, &mut store, Message::NextInvoiceEntry, T0);
    send(&mut app, &mut store, Message::NextInvoiceMode, T0);
    send(&mut app, &mut store, Message::NextInvoiceEntry, T0);
    assert_eq!(app.invoice_select_index, 2);
    send(&mut app, &mut store, Message::PrevInvoiceEntry, T0);
    send(&mut app, &mut store, Message::PrevInvoiceMode, T0);
    assert_eq!(app.invoice_select_index, 0);
    match app.invoice_plan(&now).source {
        EntrySource::Listed(entries) => {
            assert_eq!(entries.iter().map(|e| e.id).collect::<Vec<_>>(), vec![c, a]);
        }
        EntrySource::Range(_, _) => panic!("chosen entries are listed"),
    }
    send(&mut app, &mut store, Message::GenerateInvoice, T0 + 1000);
    assert_eq!(store.invoices.len(), 1);
    assert_eq!(store.invoices[0].total, 0);
}

#[test]
fn invoice_failure_is_reported() {
    let (mut app, _) = open();
    app.update_at(Message::GenerateInvoice, Reply::InvoiceFailed("No suitable font found".to_string()), &at(T0));
    assert_eq!(status(&app), "Failed to write invoice: No suitable font found");
    app.update_at(Message::GenerateInvoice, Reply::InvoiceWritten(12, "/tmp/i.pdf".to_string()), &at(T0));
    assert_eq!(status(&app), "Invoice #12 written to /tmp/i.pdf");
    app.update_at(Message::GenerateInvoice, Reply::Nothing, &at(T0));
    assert_eq!(status(&app), "Invoice #12 written to /tmp/i.pdf");
}

#[test]
fn invoice_with_invalid_entry_is_not_recorded() {
    let (mut app, mut store) = open();
    store.insert(Entry {
        id: 0,
        project: "A".to_string(),
        description: "d".to_string(),
        start: at(T0),
        end: Some(at(T0 - 60)),
        billed: true,
    });
    send(&mut app, &mut store, Message::GenerateInvoice, T0 + 10);
    assert_eq!(status(&app), "Failed to write invoice: an entry ends before it starts");
    assert!(store.invoices.is_empty());
}

#[test]
fn refreshes_replace_the_lists_and_clamp_the_selection() {
    let (mut app, _) = open();
    app.selected_entry_index = 5;
    let entries = vec![
        Entry { id: 1, project: "a".to_string(), description: "".to_string(), start: at(T0), end: None, billed: false },
        Entry { id: 2, project: "b".to_string(), description: "".to_string(), start: at(T0), end: None, billed: false },
    ];
    app.update_at(Message::RefreshEntries, Reply::Entries(entries), &at(T0));
    assert_eq!(app.selected_entry_index, 1);
    app.update_at(Message::RefreshEntries, Reply::Failed, &at(T0));
    assert!(app.entries.is_empty());
    assert_eq!(app.selected_entry_index, 1);
    app.pomodoro.config.work_duration = 99;
    app.update_at(Message::RefreshPomodoroConfig, Reply::Failed, &at(T0));
    assert_eq!(app.pomodoro.config, PomodoroConfig::default());
    app.selected_client_index = 3;
    app.update_at(Message::RefreshClients, Reply::Clients(vec![meter::models::Client::default()]), &at(T0));
    assert_eq!(app.selected_client_index, 0);
    app.update_at(Message::RefreshProjects, Reply::Nothing, &at(T0));
    assert!(app.projects.is_empty());
}
