use meter::models::{Client, Entry, InvoiceSettings, PomodoroConfig, Project};
use meter::pomodoro::{hotkey_action, HotkeyAction, IntervalEvent, Pomodoro, PomodoroState};
use meter::time::Timestamp;

const T0: i64 = 1_700_000_000;

fn at(secs: i64) -> Timestamp {
    Timestamp::new(secs, 0).unwrap()
}

fn config(enabled: bool) -> PomodoroConfig {
    PomodoroConfig { enabled, ..PomodoroConfig::default() }
}

fn running_entry() -> Entry {
    Entry {
        id: 1,
        project: "Acme".to_string(),
        description: "Design".to_string(),
        start: at(T0),
        end: None,
        billed: false,
    }
}

#[test]
fn default_configuration_is_45_15_60_4() {
    let c = PomodoroConfig::default();
    assert!(!c.enabled);
    assert_eq!((c.work_duration, c.short_break, c.long_break, c.cycles_before_long), (45, 15, 60, 4));
}

#[test]
fn configuration_status_is_worded() {
    assert_eq!(config(false).format_status(), "OFF");
    assert_eq!(
        config(true).format_status(),
        "ON (45m work, 15m short break, 60m long break after 4 cycles)"
    );
}

#[test]
fn project_rate_is_shown_with_currency() {
    let mut p = Project { id: 1, name: "A".to_string(), rate: Some(150_00), currency: Some("€".to_string()) };
    assert_eq!(p.formatted_rate().unwrap(), "€150.00/hr");
    p.currency = None;
    p.rate = Some(7);
    assert_eq!(p.formatted_rate().unwrap(), "$0.07/hr");
    p.rate = None;
    assert!(p.formatted_rate().is_none());
}

#[test]
fn addresses_leave_out_empty_parts() {
    let mut c = Client::default();
    assert_eq!(c.formatted_address(), "");
    c.address_street = "1 Main St".to_string();
    c.address_city = "Springfield".to_string();
    c.address_postal = "12345".to_string();
    c.address_country = "USA".to_string();
    assert_eq!(c.formatted_address(), "1 Main St\nSpringfield, 12345\nUSA");
    c.address_state = "IL".to_string();
    c.address_street = String::new();
    assert_eq!(c.formatted_address(), "Springfield, IL, 12345\nUSA");

    let mut s = InvoiceSettings::default();
    s.address_country = "France".to_string();
    assert_eq!(s.formatted_address(), "France");
    s.address_state = "IDF".to_string();
    assert_eq!(s.formatted_address(), "IDF\nFrance");
}

#[test]
fn entry_seconds_and_validity() {
    let mut e = running_entry();
    assert!(e.is_running());
    assert_eq!(e.seconds(), None);
    assert!(e.ends_after_start());
    e.end = Some(at(T0 + 5400));
    assert_eq!(e.seconds(), Some(5400));
    assert!(e.ends_after_start());
    e.end = Some(at(T0 - 1));
    assert!(!e.ends_after_start());
    let copy = e.clone();
    assert_eq!(copy.project, "Acme");
    assert_eq!(copy.end, e.end);
}

#[test]
fn new_scheduler_is_idle() {
    let p = Pomodoro::new(PomodoroConfig::default());
    assert_eq!(p.state, PomodoroState::Idle);
    assert_eq!(p.cycles_completed, 0);
    assert!(p.interval_start.is_none());
    assert_eq!(PomodoroState::default(), PomodoroState::Idle);
}

#[test]
fn new_scheduler_stays_idle_until_a_timer_starts() {
    let e = running_entry();
    let mut p = Pomodoro::new(config(true));
    assert_eq!(p.tick(&at(T0 + 100 * 3600), Some(&e)), IntervalEvent::Nothing);
    assert_eq!(p.state, PomodoroState::Idle);
    assert!(p.interval_start.is_none());
    p.timer_started(&"Acme".to_string(), &"Design".to_string(), &at(T0));
    assert_eq!(p.state, PomodoroState::Working);
    assert_eq!(p.interval_start, Some(at(T0)));
}

#[test]
fn shortcut_follows_the_scheduler() {
    for active in [false, true] {
        assert_eq!(hotkey_action(PomodoroState::WorkComplete, active), HotkeyAction::StartBreak);
        assert_eq!(hotkey_action(PomodoroState::BreakComplete, active), HotkeyAction::ResumeWork);
        assert_eq!(hotkey_action(PomodoroState::OnBreak, active), HotkeyAction::Nothing);
    }
    assert_eq!(hotkey_action(PomodoroState::Idle, true), HotkeyAction::StopTimer);
    assert_eq!(hotkey_action(PomodoroState::Idle, false), HotkeyAction::StartTimer);
    assert_eq!(hotkey_action(PomodoroState::Working, true), HotkeyAction::StopTimer);
    assert_eq!(hotkey_action(PomodoroState::Working, false), HotkeyAction::StartTimer);
}

#[test]
fn work_expires_after_the_work_duration() {
    let e = running_entry();
    let mut p = Pomodoro::new(config(true));
    p.timer_started(&"Old".to_string(), &"Older".to_string(), &at(T0));
    assert_eq!(p.state, PomodoroState::Working);
    assert_eq!(p.remaining_secs(&at(T0 + 60)), Some(44 * 60));
    assert_eq!(p.tick(&at(T0 + 45 * 60 - 1), Some(&e)), IntervalEvent::Nothing);
    assert_eq!(p.state, PomodoroState::Working);
    assert_eq!(p.tick(&at(T0 + 45 * 60), Some(&e)), IntervalEvent::WorkComplete);
    assert_eq!(p.state, PomodoroState::WorkComplete);
    assert!(p.interval_start.is_none());
    assert_eq!(p.last_project.as_deref(), Some("Acme"));
    assert_eq!(p.last_description.as_deref(), Some("Design"));
    assert_eq!(p.remaining_secs(&at(T0 + 46 * 60)), None);
}

#[test]
fn break_runs_and_expires() {
    let mut p = Pomodoro::new(config(true));
    p.state = PomodoroState::WorkComplete;
    p.acknowledge(&at(T0));
    assert_eq!(p.state, PomodoroState::OnBreak);
    assert_eq!(p.interval_start, Some(at(T0)));
    assert_eq!(p.current_break_duration(), 15);
    assert_eq!(p.remaining_secs(&at(T0 + 10)), Some(15 * 60 - 10));
    assert_eq!(p.remaining_secs(&at(T0 + 16 * 60)), Some(0));
    assert_eq!(p.tick(&at(T0 + 15 * 60), None), IntervalEvent::BreakComplete);
    assert_eq!(p.state, PomodoroState::BreakComplete);
    p.acknowledge(&at(T0 + 16 * 60));
    assert_eq!(p.state, PomodoroState::Idle);
    assert_eq!(p.cycles_completed, 1);
    assert!(p.interval_start.is_none());
}

#[test]
fn nothing_expires_while_pomodoro_is_off() {
    let mut p = Pomodoro::new(config(false));
    p.state = PomodoroState::Working;
    p.interval_start = Some(at(T0));
    assert_eq!(p.tick(&at(T0 + 100 * 60), None), IntervalEvent::Nothing);
    assert_eq!(p.state, PomodoroState::Working);
}

#[test]
fn every_nth_break_is_long() {
    for n in 1..=5 {
        let mut p = Pomodoro::new(PomodoroConfig { enabled: true, cycles_before_long: n, ..PomodoroConfig::default() });
        for cycle in 1..=12u32 {
            p.state = PomodoroState::WorkComplete;
            let long = cycle % (n as u32) == 0;
            assert_eq!(p.is_long_break_next(), long, "n = {}, cycle = {}", n, cycle);
            assert_eq!(p.current_break_duration(), if long { 60 } else { 15 });
            p.acknowledge(&at(T0));
            assert_eq!(p.state, PomodoroState::OnBreak);
            p.state = PomodoroState::BreakComplete;
            p.acknowledge(&at(T0));
            assert_eq!(p.cycles_completed, cycle % (n as u32));
        }
    }
}

#[test]
fn changed_cycle_count_is_seen_at_once() {
    let mut p = Pomodoro::new(config(true));
    p.state = PomodoroState::OnBreak;
    p.interval_start = Some(at(T0));
    p.cycles_completed = 1;
    assert_eq!(p.remaining_secs(&at(T0)), Some(15 * 60));
    p.config.cycles_before_long = 2;
    assert_eq!(p.remaining_secs(&at(T0)), Some(60 * 60));
}

#[test]
fn count_of_zero_or_less_makes_every_break_long() {
    let mut p = Pomodoro::new(PomodoroConfig {
        enabled: true,
        cycles_before_long: -1,
        ..PomodoroConfig::default()
    });
    assert_eq!(p.long_break_threshold(), -1);
    assert!(p.is_long_break_next());
    assert_eq!(p.current_break_duration(), 60);
    p.state = PomodoroState::BreakComplete;
    p.cycles_completed = 7;
    p.acknowledge(&at(T0));
    assert_eq!(p.cycles_completed, 0);
    p.config.cycles_before_long = 0;
    assert!(p.is_long_break_next());
    p.config.cycles_before_long = i32::MIN;
    assert!(p.is_long_break_next());
    p.config.cycles_before_long = 2;
    assert_eq!(p.long_break_threshold(), 2);
    assert!(!p.is_long_break_next());
}

#[test]
fn toggling_off_resets_from_every_state() {
    for state in [
        PomodoroState::Idle,
        PomodoroState::Working,
        PomodoroState::WorkComplete,
        PomodoroState::OnBreak,
        PomodoroState::BreakComplete,
    ] {
        for active in [false, true] {
            let mut p = Pomodoro::new(config(true));
            p.state = state;
            p.cycles_completed = 3;
            p.interval_start = Some(at(T0));
            p.toggle(active, &at(T0 + 5));
            assert!(!p.config.enabled);
            assert_eq!(p.state, PomodoroState::Idle);
            assert_eq!(p.cycles_completed, 0);
            assert!(p.interval_start.is_none());
        }
    }
}

#[test]
fn toggling_on_anchors_work_at_now() {
    let mut p = Pomodoro::new(config(false));
    p.toggle(true, &at(T0 + 500));
    assert!(p.config.enabled);
    assert_eq!(p.state, PomodoroState::Working);
    assert_eq!(p.interval_start, Some(at(T0 + 500)));

    let mut q = Pomodoro::new(config(false));
    q.toggle(false, &at(T0));
    assert!(q.config.enabled);
    assert_eq!(q.state, PomodoroState::Idle);
    assert!(q.interval_start.is_none());
}

#[test]
fn reset_abandons_the_cycle() {
    let mut p = Pomodoro::new(config(true));
    p.state = PomodoroState::OnBreak;
    p.cycles_completed = 2;
    p.interval_start = Some(at(T0));
    p.reset();
    assert_eq!((p.state, p.cycles_completed, p.interval_start), (PomodoroState::Idle, 0, None));
    assert!(p.config.enabled);
}

#[test]
fn timers_changed_elsewhere_are_noticed() {
    let e = running_entry();
    let mut other = running_entry();
    other.id = 2;

    let mut p = Pomodoro::new(config(true));
    p.reconcile(None, Some(&e), &at(T0 + 9));
    assert_eq!(p.state, PomodoroState::Working);
    assert_eq!(p.interval_start, Some(at(T0 + 9)));

    p.reconcile(Some(&e), Some(&e), &at(T0 + 20));
    assert_eq!(p.interval_start, Some(at(T0 + 9)));

    p.reconcile(Some(&e), Some(&other), &at(T0 + 30));
    assert_eq!(p.interval_start, Some(at(T0 + 30)));

    p.reconcile(Some(&other), None, &at(T0 + 40));
    assert_eq!(p.state, PomodoroState::Idle);
    assert!(p.interval_start.is_none());

    let mut off = Pomodoro::new(config(false));
    off.reconcile(None, Some(&e), &at(T0));
    assert_eq!(off.state, PomodoroState::Idle);

    let copy = p.duplicate();
    assert_eq!(copy.state, p.state);
    assert_eq!(copy.config, p.config);
}
