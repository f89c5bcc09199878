use meter::models::Entry;
use meter::pomodoro::PomodoroState;
use meter::session::event::{handle_key, Key};
use meter::session::protocol::Message;
use meter::session::state::{App, InputMode, InvoiceMode, PomodoroField, Screen};
use meter::time::Timestamp;

fn entry(id: i64, billed: bool, running: bool) -> Entry {
    let start = Timestamp::new(1_700_000_000, 0).unwrap();
    Entry {
        id,
        project: "P".to_string(),
        description: "d".to_string(),
        start,
        end: if running { None } else { Some(start) },
        billed,
    }
}

#[test]
fn help_is_toggled_and_closed_by_any_key() {
    let mut app = App::blank();
    assert_eq!(handle_key(Key::Char('?'), &app), Some(Message::ToggleHelp));
    app.show_help = true;
    assert_eq!(handle_key(Key::Char('x'), &app), Some(Message::ToggleHelp));
    assert_eq!(handle_key(Key::Other, &app), Some(Message::ToggleHelp));
    app.show_help = false;
    app.input_mode = InputMode::EditingProject;
    assert_eq!(handle_key(Key::Char('?'), &app), Some(Message::UpdateProjectInput('?')));
}

#[test]
fn pending_deletion_takes_only_its_answer() {
    let mut app = App::blank();
    app.confirm_delete = Some(4);
    assert_eq!(handle_key(Key::Char('y'), &app), Some(Message::ConfirmDelete));
    assert_eq!(handle_key(Key::Char('Y'), &app), Some(Message::ConfirmDelete));
    assert_eq!(handle_key(Key::Char('n'), &app), Some(Message::CancelDelete));
    assert_eq!(handle_key(Key::Esc, &app), Some(Message::CancelDelete));
    assert_eq!(handle_key(Key::Char('q'), &app), None);
    app.confirm_delete = None;
    app.confirm_delete_client = Some(1);
    assert_eq!(handle_key(Key::Char('y'), &app), Some(Message::ConfirmDeleteClient));
    assert_eq!(handle_key(Key::Char('N'), &app), Some(Message::CancelDeleteClient));
}

#[test]
fn forms_take_every_key() {
    let mut app = App::blank();
    app.input_mode = InputMode::EditingProject;
    assert_eq!(handle_key(Key::Enter, &app), Some(Message::StartTimer));
    assert_eq!(handle_key(Key::Esc, &app), Some(Message::ExitInputMode));
    assert_eq!(handle_key(Key::Tab, &app), Some(Message::EnterInputMode(InputMode::EditingDescription)));
    assert_eq!(handle_key(Key::Backspace, &app), Some(Message::DeleteProjectChar));
    assert_eq!(handle_key(Key::Char('q'), &app), Some(Message::UpdateProjectInput('q')));
    assert_eq!(handle_key(Key::BackTab, &app), None);
    assert_eq!(handle_key(Key::Up, &app), None);

    app.input_mode = InputMode::EditingDescription;
    assert_eq!(handle_key(Key::Tab, &app), Some(Message::EnterInputMode(InputMode::EditingProject)));
    assert_eq!(handle_key(Key::Char('1'), &app), Some(Message::UpdateDescriptionInput('1')));
    assert_eq!(handle_key(Key::Backspace, &app), Some(Message::DeleteDescriptionChar));

    app.input_mode = InputMode::EditEntryStart;
    assert_eq!(handle_key(Key::Enter, &app), Some(Message::SaveEditEntry));
    assert_eq!(handle_key(Key::Esc, &app), Some(Message::CancelEditEntry));
    assert_eq!(handle_key(Key::Tab, &app), Some(Message::EditNextField));
    assert_eq!(handle_key(Key::BackTab, &app), Some(Message::EditPrevField));
    assert_eq!(handle_key(Key::Backspace, &app), Some(Message::EditFieldBackspace));
    assert_eq!(handle_key(Key::Char('2'), &app), Some(Message::EditFieldInput('2')));

    app.input_mode = InputMode::EditingRate;
    assert_eq!(handle_key(Key::Enter, &app), Some(Message::SaveProjectRate));
    assert_eq!(handle_key(Key::Tab, &app), Some(Message::EnterInputMode(InputMode::EditingCurrency)));
    assert_eq!(handle_key(Key::Char('5'), &app), Some(Message::UpdateRateInput('5')));
    app.input_mode = InputMode::EditingCurrency;
    assert_eq!(handle_key(Key::Esc, &app), Some(Message::CancelEditRate));
    assert_eq!(handle_key(Key::Backspace, &app), Some(Message::DeleteCurrencyChar));
    assert_eq!(handle_key(Key::Char('$'), &app), Some(Message::UpdateCurrencyInput('$')));

    app.input_mode = InputMode::EditingPomodoroCycles;
    assert_eq!(handle_key(Key::Enter, &app), Some(Message::SavePomodoroConfig));
    assert_eq!(handle_key(Key::Esc, &app), Some(Message::CancelPomodoroEdit));
    assert_eq!(handle_key(Key::BackTab, &app), Some(Message::PomodoroPrevField));
    assert_eq!(handle_key(Key::Char('4'), &app), Some(Message::PomodoroFieldInput('4')));

    app.input_mode = InputMode::EditingClient;
    assert_eq!(handle_key(Key::Enter, &app), Some(Message::SaveClient));
    assert_eq!(handle_key(Key::Tab, &app), Some(Message::ClientNextField));
    assert_eq!(handle_key(Key::Char('a'), &app), Some(Message::ClientFieldInput('a')));
    app.input_mode = InputMode::EditingSettings;
    assert_eq!(handle_key(Key::Esc, &app), Some(Message::CancelEditSettings));
    assert_eq!(handle_key(Key::Backspace, &app), Some(Message::SettingsFieldBackspace));
    assert_eq!(handle_key(Key::Char('a'), &app), Some(Message::SettingsFieldInput('a')));
}

#[test]
fn global_keys_quit_and_switch_screens() {
    let mut app = App::blank();
    app.current_screen = Screen::Entries;
    assert_eq!(handle_key(Key::Char('q'), &app), Some(Message::Quit));
    let screens = [
        ('1', Screen::Timer),
        ('2', Screen::Entries),
        ('3', Screen::Invoice),
        ('4', Screen::Projects),
        ('5', Screen::Pomodoro),
        ('6', Screen::Clients),
        ('7', Screen::Settings),
    ];
    for (c, screen) in screens {
        assert_eq!(handle_key(Key::Char(c), &app), Some(Message::SwitchScreen(screen)));
    }
    assert_eq!(handle_key(Key::Other, &app), None);
}

#[test]
fn timer_keys_depend_on_timer_and_pomodoro() {
    let mut app = App::blank();
    let edit = Some(Message::EnterInputMode(InputMode::EditingProject));
    assert_eq!(handle_key(Key::Char('s'), &app), edit);
    assert_eq!(handle_key(Key::Enter, &app), edit);
    assert_eq!(handle_key(Key::Tab, &app), edit);
    assert_eq!(handle_key(Key::Char('P'), &app), Some(Message::TogglePomodoroMode));
    app.active_entry = Some(entry(1, false, true));
    assert_eq!(handle_key(Key::Char('S'), &app), Some(Message::StopTimer));
    assert_eq!(handle_key(Key::Enter, &app), None);
    assert_eq!(handle_key(Key::Tab, &app), None);

    app.pomodoro.state = PomodoroState::WorkComplete;
    assert_eq!(handle_key(Key::Char(' '), &app), Some(Message::AcknowledgePomodoro));
    assert_eq!(handle_key(Key::Char('s'), &app), None);
    app.pomodoro.state = PomodoroState::BreakComplete;
    assert_eq!(handle_key(Key::Char(' '), &app), Some(Message::AcknowledgePomodoro));
    assert_eq!(handle_key(Key::Char('s'), &app), Some(Message::AcknowledgePomodoro));
    assert_eq!(handle_key(Key::Char('p'), &app), None);
    app.pomodoro.state = PomodoroState::OnBreak;
    assert_eq!(handle_key(Key::Char(' '), &app), None);
    assert_eq!(handle_key(Key::Char('s'), &app), None);
    assert_eq!(handle_key(Key::Char('2'), &app), Some(Message::SwitchScreen(Screen::Entries)));
}

#[test]
fn entries_keys_act_on_the_selected_entry() {
    let mut app = App::blank();
    app.current_screen = Screen::Entries;
    assert_eq!(handle_key(Key::Char('e'), &app), None);
    assert_eq!(handle_key(Key::Char('j'), &app), Some(Message::SelectNextEntry));
    assert_eq!(handle_key(Key::Down, &app), Some(Message::SelectNextEntry));
    assert_eq!(handle_key(Key::Char('G'), &app), Some(Message::SelectNextEntry));
    assert_eq!(handle_key(Key::Char('k'), &app), Some(Message::SelectPreviousEntry));
    assert_eq!(handle_key(Key::Up, &app), Some(Message::SelectPreviousEntry));
    assert_eq!(handle_key(Key::Char('g'), &app), Some(Message::SelectPreviousEntry));
    assert_eq!(handle_key(Key::Char('F'), &app), Some(Message::ToggleBilledFilter));

    app.entries = vec![entry(7, false, false), entry(8, true, false)];
    assert_eq!(handle_key(Key::Char('e'), &app), Some(Message::EditEntry(7)));
    assert_eq!(handle_key(Key::Char('D'), &app), Some(Message::DeleteEntry(7)));
    assert_eq!(handle_key(Key::Char('b'), &app), Some(Message::MarkEntryBilled(7)));
    assert_eq!(handle_key(Key::Char('u'), &app), None);
    app.selected_entry_index = 1;
    assert_eq!(handle_key(Key::Char('b'), &app), None);
    assert_eq!(handle_key(Key::Char('u'), &app), Some(Message::UnbillEntry(8)));
    assert_eq!(handle_key(Key::Char('U'), &app), None);
    app.selected_entry_index = 2;
    assert_eq!(handle_key(Key::Char('d'), &app), None);
}

#[test]
fn invoice_keys_depend_on_the_mode() {
    let mut app = App::blank();
    app.current_screen = Screen::Invoice;
    assert_eq!(handle_key(Key::Down, &app), Some(Message::NextInvoiceMode));
    assert_eq!(handle_key(Key::Char('k'), &app), Some(Message::PrevInvoiceMode));
    assert_eq!(handle_key(Key::Enter, &app), Some(Message::GenerateInvoice));
    assert_eq!(handle_key(Key::Char('c'), &app), Some(Message::CycleInvoiceClient));
    assert_eq!(handle_key(Key::Esc, &app), None);
    app.invoice_mode_index = 3;
    assert_eq!(handle_key(Key::Enter, &app), Some(Message::SelectInvoiceMode));

    app.invoice_mode = InvoiceMode::SelectEntries;
    assert_eq!(handle_key(Key::Char('j'), &app), Some(Message::NextInvoiceEntry));
    assert_eq!(handle_key(Key::Up, &app), Some(Message::PrevInvoiceEntry));
    assert_eq!(handle_key(Key::Enter, &app), Some(Message::GenerateInvoice));
    assert_eq!(handle_key(Key::Esc, &app), Some(Message::ExitInputMode));
    assert_eq!(handle_key(Key::Char(' '), &app), None);
    app.invoice_entries = vec![entry(3, true, false), entry(5, true, false)];
    app.invoice_select_index = 1;
    assert_eq!(handle_key(Key::Char(' '), &app), Some(Message::ToggleEntrySelection(5)));
}

#[test]
fn other_screens_have_their_keys() {
    let mut app = App::blank();
    app.current_screen = Screen::Projects;
    assert_eq!(handle_key(Key::Char('j'), &app), Some(Message::SelectNextProject));
    assert_eq!(handle_key(Key::Char('k'), &app), Some(Message::SelectPreviousProject));
    assert_eq!(handle_key(Key::Enter, &app), None);
    app.projects = vec![meter::models::Project { id: 9, name: "A".to_string(), rate: None, currency: None }];
    assert_eq!(handle_key(Key::Enter, &app), Some(Message::EditProjectRate(9)));
    assert_eq!(handle_key(Key::Char('E'), &app), Some(Message::EditProjectRate(9)));
    assert_eq!(handle_key(Key::Char('c'), &app), Some(Message::ClearProjectRate(9)));

    app.current_screen = Screen::Pomodoro;
    assert_eq!(handle_key(Key::Down, &app), Some(Message::PomodoroNextField));
    assert_eq!(handle_key(Key::Up, &app), Some(Message::PomodoroPrevField));
    assert_eq!(handle_key(Key::Char('p'), &app), Some(Message::TogglePomodoroMode));
    assert_eq!(handle_key(Key::Enter, &app), Some(Message::TogglePomodoroMode));
    app.pomodoro_field = PomodoroField::LongBreak;
    assert_eq!(
        handle_key(Key::Char('e'), &app),
        Some(Message::EnterInputMode(InputMode::EditingPomodoroLongBreak))
    );

    app.current_screen = Screen::Clients;
    assert_eq!(handle_key(Key::Char('a'), &app), Some(Message::AddClient));
    assert_eq!(handle_key(Key::Char('j'), &app), Some(Message::SelectNextClient));
    assert_eq!(handle_key(Key::Char('e'), &app), None);
    let mut client = meter::models::Client::default();
    client.id = 4;
    app.clients = vec![client];
    assert_eq!(handle_key(Key::Char('e'), &app), Some(Message::EditClient(4)));
    assert_eq!(handle_key(Key::Char('d'), &app), Some(Message::DeleteClient(4)));

    app.current_screen = Screen::Settings;
    assert_eq!(handle_key(Key::Char('e'), &app), Some(Message::EditSettings));
    assert_eq!(handle_key(Key::Char('x'), &app), None);
}
