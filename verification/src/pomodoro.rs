//! The Pomodoro scheduler: a cycle of work and break intervals that is moved
//! forward by the clock and by the operator's acknowledgements.
//!
//! The scheduler never reads the clock or touches the store itself. Each
//! transition takes the current instant as an argument and reports what the
//! caller has to do (stop the timer, notify the operator).

use crate::models::{Entry, EntryView, PomodoroConfig, clone_text_option};
use crate::time::Timestamp;
use vstd::prelude::*;

verus! {

/// Where the scheduler stands in its cycle.
#[derive(Debug, Clone, Copy, PartialEq, Eq, Structural)]
pub enum PomodoroState {
    /// No interval is running: no timer, or Pomodoro mode is off.
    Idle,
    /// A work interval is running.
    Working,
    /// Work is over; the operator has not started the break yet.
    WorkComplete,
    /// A break is running.
    OnBreak,
    /// The break is over; the operator has not resumed yet.
    BreakComplete,
}

impl Default for PomodoroState {
    fn default() -> (r: Self)
        ensures
            r == PomodoroState::Idle,
    {
        PomodoroState::Idle
    }
}

/// What the global shortcut asks for.
#[derive(Debug, Clone, Copy, PartialEq, Eq, Structural)]
pub enum HotkeyAction {
    /// Work is over: the break starts.
    StartBreak,
    /// The break is over: the cycle is counted and work is resumed on a new
    /// timer.
    ResumeWork,
    /// A break is running: the shortcut does nothing.
    Nothing,
    /// A timer runs: it is stopped and the scheduler reset.
    StopTimer,
    /// No timer runs: one is started.
    StartTimer,
}

/// What the global shortcut asks for, given where the scheduler stands and
/// whether a timer runs. The scheduler decides while it waits for the
/// operator or a break runs; otherwise the shortcut toggles the timer.
pub open spec fn spec_hotkey_action(state: PomodoroState, timer_active: bool) -> HotkeyAction {
    match state {
        PomodoroState::WorkComplete => HotkeyAction::StartBreak,
        PomodoroState::BreakComplete => HotkeyAction::ResumeWork,
        PomodoroState::OnBreak => HotkeyAction::Nothing,
        _ => if timer_active {
            HotkeyAction::StopTimer
        } else {
            HotkeyAction::StartTimer
        },
    }
}

/// Decides what the global shortcut does.
#[verifier::when_used_as_spec(spec_hotkey_action)]
pub fn hotkey_action(state: PomodoroState, timer_active: bool) -> (a: HotkeyAction)
    ensures
        a == spec_hotkey_action(state, timer_active),
{
    match state {
        PomodoroState::WorkComplete => HotkeyAction::StartBreak,
        PomodoroState::BreakComplete => HotkeyAction::ResumeWork,
        PomodoroState::OnBreak => HotkeyAction::Nothing,
        PomodoroState::Idle | PomodoroState::Working => if timer_active {
            HotkeyAction::StopTimer
        } else {
            HotkeyAction::StartTimer
        },
    }
}

/// What a tick of the clock made of the running interval.
#[derive(Debug, Clone, Copy, PartialEq, Eq, Structural)]
pub enum IntervalEvent {
    /// Nothing expired.
    Nothing,
    /// The work interval expired: the active timer has to be stopped and the
    /// operator told.
    WorkComplete,
    /// The break expired: the operator has to be told.
    BreakComplete,
}

/// The scheduler: its configuration, its place in the cycle, and what it
/// remembers of the last timer so that work can be resumed after a break.
#[derive(Debug)]
pub struct Pomodoro {
    pub config: PomodoroConfig,
    pub state: PomodoroState,
    pub cycles_completed: u32,
    pub interval_start: Option<Timestamp>,
    pub last_project: Option<String>,
    pub last_description: Option<String>,
}

/// The mathematical content of a [`Pomodoro`].
pub struct PomodoroView {
    pub config: PomodoroConfig,
    pub state: PomodoroState,
    pub cycles_completed: u32,
    pub interval_start: Option<Timestamp>,
    pub last_project: Option<Seq<char>>,
    pub last_description: Option<Seq<char>>,
}

impl View for Pomodoro {
    type V = PomodoroView;

    open spec fn view(&self) -> PomodoroView {
        PomodoroView {
            config: self.config,
            state: self.state,
            cycles_completed: self.cycles_completed,
            interval_start: self.interval_start,
            last_project: self.last_project.deep_view(),
            last_description: self.last_description.deep_view(),
        }
    }
}

/// The number of work cycles after which the break is a long one: the
/// configured count. With a count of one or less every break is long.
pub open spec fn long_break_threshold(config: PomodoroConfig) -> int {
    config.cycles_before_long as int
}

/// Length in seconds of the configured work interval.
pub open spec fn work_seconds(config: PomodoroConfig) -> int {
    config.work_duration * 60
}

/// The completed-cycle counter after one more cycle: it returns to zero when
/// it reaches the threshold.
pub open spec fn next_cycle_count(config: PomodoroConfig, completed: u32) -> u32 {
    if completed + 1 >= long_break_threshold(config) {
        0
    } else {
        (completed + 1) as u32
    }
}

/// The completed-cycle counter after `cycles` cycles, counted from zero.
pub open spec fn cycle_count_after(config: PomodoroConfig, cycles: nat) -> u32
    decreases cycles,
{
    if cycles == 0 {
        0
    } else {
        next_cycle_count(config, cycle_count_after(config, (cycles - 1) as nat))
    }
}

/// Whether the running entry changed between two readings of the store: one
/// appeared, one vanished, or another one runs.
pub open spec fn timer_changed(previous: Option<EntryView>, current: Option<EntryView>) -> bool {
    match (previous, current) {
        (Some(a), Some(b)) => a.id != b.id,
        (None, None) => false,
        _ => true,
    }
}

impl PomodoroView {
    /// A scheduler at rest with the given configuration.
    pub open spec fn idle(config: PomodoroConfig) -> PomodoroView {
        PomodoroView {
            config,
            state: PomodoroState::Idle,
            cycles_completed: 0,
            interval_start: None,
            last_project: None,
            last_description: None,
        }
    }

    /// The break that starts next, or runs now, is a long one.
    pub open spec fn is_long_break_next(self) -> bool {
        self.cycles_completed + 1 >= long_break_threshold(self.config)
    }

    /// Length in minutes of the break that starts next or runs now.
    pub open spec fn current_break_duration(self) -> i32 {
        if self.is_long_break_next() {
            self.config.long_break
        } else {
            self.config.short_break
        }
    }

    /// Length in seconds of the interval that runs now, where one does.
    pub open spec fn interval_seconds(self) -> Option<int> {
        match self.state {
            PomodoroState::Working => Some(work_seconds(self.config)),
            PomodoroState::OnBreak => Some(self.current_break_duration() * 60),
            _ => None,
        }
    }

    /// Whole seconds elapsed in the running interval at `now`.
    pub open spec fn elapsed(self, now: Timestamp) -> Option<int> {
        match self.interval_start {
            Some(start) => Some(now.spec_seconds_since(start)),
            None => None,
        }
    }

    /// Seconds left in the running interval at `now`, never below zero;
    /// `None` where no interval runs.
    pub open spec fn remaining_secs(self, now: Timestamp) -> Option<int> {
        match (self.interval_start, self.interval_seconds()) {
            (Some(start), Some(total)) => {
                let left = total - now.spec_seconds_since(start);
                Some(if left < 0 { 0 } else { left })
            },
            _ => None,
        }
    }

    /// The running interval has lasted its configured length at `now`.
    pub open spec fn interval_expired(self, now: Timestamp) -> bool {
        match (self.interval_start, self.interval_seconds()) {
            (Some(start), Some(total)) => self.config.enabled && now.spec_seconds_since(start)
                >= total,
            _ => false,
        }
    }

    /// What a tick at `now` reports.
    pub open spec fn tick_event(self, now: Timestamp) -> IntervalEvent {
        if !self.interval_expired(now) {
            IntervalEvent::Nothing
        } else if self.state == PomodoroState::Working {
            IntervalEvent::WorkComplete
        } else {
            IntervalEvent::BreakComplete
        }
    }

    /// The scheduler after a tick at `now`, `active` being the entry that runs
    /// in the store. An expired work interval becomes `WorkComplete` and the
    /// running entry's project and description are remembered; an expired
    /// break becomes `BreakComplete`. Nothing else changes.
    pub open spec fn tick(self, now: Timestamp, active: Option<EntryView>) -> PomodoroView {
        match self.tick_event(now) {
            IntervalEvent::Nothing => self,
            IntervalEvent::WorkComplete => PomodoroView {
                state: PomodoroState::WorkComplete,
                interval_start: None,
                last_project: match active {
                    Some(entry) => Some(entry.project),
                    None => self.last_project,
                },
                last_description: match active {
                    Some(entry) => Some(entry.description),
                    None => self.last_description,
                },
                ..self
            },
            IntervalEvent::BreakComplete => PomodoroView {
                state: PomodoroState::BreakComplete,
                interval_start: None,
                ..self
            },
        }
    }

    /// The scheduler after a timer was started at `now` for the given project
    /// and description: both are remembered, and with Pomodoro mode on a work
    /// interval begins.
    pub open spec fn timer_started(
        self,
        project: Seq<char>,
        description: Seq<char>,
        now: Timestamp,
    ) -> PomodoroView {
        let remembered = PomodoroView {
            last_project: Some(project),
            last_description: Some(description),
            ..self
        };
        if self.config.enabled {
            PomodoroView {
                state: PomodoroState::Working,
                interval_start: Some(now),
                ..remembered
            }
        } else {
            remembered
        }
    }

    /// The scheduler after the cycle was abandoned: at rest, no interval, no
    /// completed cycles.
    pub open spec fn reset(self) -> PomodoroView {
        PomodoroView {
            state: PomodoroState::Idle,
            interval_start: None,
            cycles_completed: 0,
            ..self
        }
    }

    /// The scheduler after the operator acknowledged a prompt at `now`:
    /// `WorkComplete` starts the break; `BreakComplete` counts the cycle and
    /// comes to rest. In any other state nothing changes.
    pub open spec fn acknowledge(self, now: Timestamp) -> PomodoroView {
        match self.state {
            PomodoroState::WorkComplete => PomodoroView {
                state: PomodoroState::OnBreak,
                interval_start: Some(now),
                ..self
            },
            PomodoroState::BreakComplete => PomodoroView {
                state: PomodoroState::Idle,
                interval_start: None,
                cycles_completed: next_cycle_count(self.config, self.cycles_completed),
                ..self
            },
            _ => self,
        }
    }

    /// The scheduler after Pomodoro mode was switched at `now`. Switching on
    /// while a timer runs begins a work interval at `now`; switching off
    /// abandons the cycle and leaves the timer alone.
    pub open spec fn toggle(self, timer_active: bool, now: Timestamp) -> PomodoroView {
        let config = PomodoroConfig { enabled: !self.config.enabled, ..self.config };
        if config.enabled {
            if timer_active {
                PomodoroView {
                    config,
                    state: PomodoroState::Working,
                    interval_start: Some(now),
                    ..self
                }
            } else {
                PomodoroView { config, ..self }
            }
        } else {
            PomodoroView { config, ..self }.reset()
        }
    }

    /// The scheduler after the running entry was found to have changed behind
    /// its back, `previous` being the entry last seen and `current` the one
    /// that runs now. A timer that appeared begins a work interval at `now`
    /// where Pomodoro mode is on; a timer that vanished during work brings
    /// the scheduler to rest. Nothing changes while the same entry runs, or
    /// none.
    pub open spec fn reconciled(
        self,
        previous: Option<EntryView>,
        current: Option<EntryView>,
        now: Timestamp,
    ) -> PomodoroView {
        if !timer_changed(previous, current) {
            self
        } else if current.is_some() && self.config.enabled {
            PomodoroView { state: PomodoroState::Working, interval_start: Some(now), ..self }
        } else if current.is_none() && self.state == PomodoroState::Working {
            PomodoroView { state: PomodoroState::Idle, interval_start: None, ..self }
        } else {
            self
        }
    }
}

/// With a threshold of `n >= 1`, the counter after any number of cycles is
/// that number modulo `n`.
pub proof fn law_cycle_count_is_modular(config: PomodoroConfig, cycles: nat)
    requires
        config.cycles_before_long >= 1,
    ensures
        cycle_count_after(config, cycles) == cycles % (config.cycles_before_long as nat),
    decreases cycles,
{
    let n = config.cycles_before_long as nat;
    if cycles > 0 {
        let before = (cycles - 1) as nat;
        law_cycle_count_is_modular(config, before);
        assert(cycle_count_after(config, before) == before % n);
        lemma_successor_modulo(before, n);
    } else {
        assert(0nat % n == 0) by (nonlinear_arith)
            requires
                n >= 1,
        ;
    }
}

/// The remainder of `k + 1` by `n` is one more than that of `k`, or zero
/// where that would reach `n`.
pub proof fn lemma_successor_modulo(k: nat, n: nat)
    requires
        n >= 1,
    ensures
        k % n < n,
        (k + 1) % n == (if k % n + 1 >= n { 0 } else { k % n + 1 }),
{
    assert(k % n < n && (k + 1) % n == (if k % n + 1 >= n { 0 } else { k % n + 1 }))
        by (nonlinear_arith)
        requires
            n >= 1,
    ;
}

/// With a count of one or less, zero and negative counts included, every
/// break is long and the counter stays at zero.
pub proof fn law_small_count_makes_every_break_long(p: PomodoroView)
    requires
        p.config.cycles_before_long <= 1,
    ensures
        p.is_long_break_next(),
        p.current_break_duration() == p.config.long_break,
        next_cycle_count(p.config, p.cycles_completed) == 0,
{
}

/// With a threshold of `n >= 1`, the break that follows the `cycle`-th work
/// interval (counted from one, the counter having started at zero) is long
/// exactly when `cycle` is a multiple of `n`.
pub proof fn law_long_break_every_nth_cycle(p: PomodoroView, cycle: nat)
    requires
        p.config.cycles_before_long >= 1,
        cycle >= 1,
        p.cycles_completed == cycle_count_after(p.config, (cycle - 1) as nat),
    ensures
        p.is_long_break_next() <==> cycle % (p.config.cycles_before_long as nat) == 0,
        p.current_break_duration() == (if cycle % (p.config.cycles_before_long as nat) == 0 {
            p.config.long_break
        } else {
            p.config.short_break
        }),
{
    let n = p.config.cycles_before_long as nat;
    let before = (cycle - 1) as nat;
    law_cycle_count_is_modular(p.config, before);
    lemma_successor_modulo(before, n);
}

/// Switching Pomodoro mode off brings the scheduler to rest and zeroes the
/// cycle counter whatever state it was in; so does abandoning the cycle.
pub proof fn law_disabling_resets(p: PomodoroView, timer_active: bool, now: Timestamp)
    requires
        p.config.enabled,
    ensures
        p.toggle(timer_active, now).state == PomodoroState::Idle,
        p.toggle(timer_active, now).cycles_completed == 0,
        p.toggle(timer_active, now).interval_start.is_none(),
        !p.toggle(timer_active, now).config.enabled,
        p.reset().state == PomodoroState::Idle,
        p.reset().cycles_completed == 0,
{
}

impl Pomodoro {
    /// A scheduler at rest with the given configuration.
    pub fn new(config: PomodoroConfig) -> (r: Pomodoro)
        ensures
            r@ == PomodoroView::idle(config),
    {
        Pomodoro {
            config,
            state: PomodoroState::Idle,
            cycles_completed: 0,
            interval_start: None,
            last_project: None,
            last_description: None,
        }
    }

    /// The threshold of [`long_break_threshold`].
    pub fn long_break_threshold(&self) -> (r: i64)
        ensures
            r == long_break_threshold(self.config),
    {
        self.config.cycles_before_long as i64
    }

    /// Whether the next break is a long one.
    pub fn is_long_break_next(&self) -> (r: bool)
        ensures
            r == self@.is_long_break_next(),
    {
        self.cycles_completed as i64 + 1 >= self.long_break_threshold()
    }

    /// Minutes of the current or next break.
    pub fn current_break_duration(&self) -> (r: i32)
        ensures
            r == self@.current_break_duration(),
    {
        if self.is_long_break_next() {
            self.config.long_break
        } else {
            self.config.short_break
        }
    }

    /// Seconds of the interval that runs now.
    pub fn interval_seconds(&self) -> (r: Option<i64>)
        ensures
            r.is_some() == self@.interval_seconds().is_some(),
            r.is_some() ==> r.unwrap() == self@.interval_seconds().unwrap(),
    {
        match self.state {
            PomodoroState::Working => Some(self.config.work_duration as i64 * 60),
            PomodoroState::OnBreak => Some(self.current_break_duration() as i64 * 60),
            _ => None,
        }
    }

    /// Seconds left in the running work or break interval at `now`.
    pub fn remaining_secs(&self, now: &Timestamp) -> (r: Option<i64>)
        ensures
            r.is_some() == self@.remaining_secs(*now).is_some(),
            r.is_some() ==> r.unwrap() == self@.remaining_secs(*now).unwrap(),
    {
        match &self.interval_start {
            Some(start) => match self.interval_seconds() {
                Some(total) => {
                    let left: i64 = total - now.seconds_since(start);
                    Some(if left < 0 { 0 } else { left })
                },
                None => None,
            },
            None => None,
        }
    }

    /// What a tick at `now` would report, without changing anything.
    pub fn tick_event(&self, now: &Timestamp) -> (r: IntervalEvent)
        ensures
            r == self@.tick_event(*now),
    {
        if !self.config.enabled {
            return IntervalEvent::Nothing;
        }
        match &self.interval_start {
            Some(start) => match self.interval_seconds() {
                Some(total) => {
                    if now.seconds_since(start) >= total {
                        match self.state {
                            PomodoroState::Working => IntervalEvent::WorkComplete,
                            _ => IntervalEvent::BreakComplete,
                        }
                    } else {
                        IntervalEvent::Nothing
                    }
                },
                None => IntervalEvent::Nothing,
            },
            None => IntervalEvent::Nothing,
        }
    }

    /// Moves the scheduler forward to `now`; `active` is the entry that runs in
    /// the store. Reports what expired.
    pub fn tick(&mut self, now: &Timestamp, active: Option<&Entry>) -> (event: IntervalEvent)
        ensures
            event == old(self)@.tick_event(*now),
            final(self)@ == old(self)@.tick(*now, active.deep_view()),
    {
        let event = self.tick_event(now);
        match event {
            IntervalEvent::Nothing => {},
            IntervalEvent::WorkComplete => {
                match active {
                    Some(entry) => {
                        self.last_project = Some(entry.project.clone());
                        self.last_description = Some(entry.description.clone());
                    },
                    None => {},
                }
                self.state = PomodoroState::WorkComplete;
                self.interval_start = None;
            },
            IntervalEvent::BreakComplete => {
                self.state = PomodoroState::BreakComplete;
                self.interval_start = None;
            },
        }
        event
    }

    /// Records that a timer was started at `now`.
    pub fn timer_started(&mut self, project: &String, description: &String, now: &Timestamp)
        ensures
            final(self)@ == old(self)@.timer_started(project@, description@, *now),
    {
        self.last_project = Some(project.clone());
        self.last_description = Some(description.clone());
        if self.config.enabled {
            self.state = PomodoroState::Working;
            self.interval_start = Some(*now);
        }
    }

    /// Abandons the cycle.
    pub fn reset(&mut self)
        ensures
            final(self)@ == old(self)@.reset(),
    {
        self.state = PomodoroState::Idle;
        self.interval_start = None;
        self.cycles_completed = 0;
    }

    /// Applies the operator's acknowledgement of a prompt at `now`.
    pub fn acknowledge(&mut self, now: &Timestamp)
        ensures
            final(self)@ == old(self)@.acknowledge(*now),
    {
        match self.state {
            PomodoroState::WorkComplete => {
                self.state = PomodoroState::OnBreak;
                self.interval_start = Some(*now);
            },
            PomodoroState::BreakComplete => {
                let counted: i64 = self.cycles_completed as i64 + 1;
                if counted >= self.long_break_threshold() {
                    self.cycles_completed = 0;
                } else {
                    self.cycles_completed = counted as u32;
                }
                self.state = PomodoroState::Idle;
                self.interval_start = None;
            },
            _ => {},
        }
    }

    /// Switches Pomodoro mode at `now`; `timer_active` tells whether an entry
    /// runs.
    pub fn toggle(&mut self, timer_active: bool, now: &Timestamp)
        ensures
            final(self)@ == old(self)@.toggle(timer_active, *now),
    {
        self.config.enabled = !self.config.enabled;
        if self.config.enabled {
            if timer_active {
                self.state = PomodoroState::Working;
                self.interval_start = Some(*now);
            }
        } else {
            self.reset();
        }
    }

    /// Takes note that the running entry changed behind the scheduler's
    /// back; see [`PomodoroView::reconciled`].
    pub fn reconcile(&mut self, previous: Option<&Entry>, current: Option<&Entry>, now: &Timestamp)
        ensures
            final(self)@ == old(self)@.reconciled(
                previous.deep_view(),
                current.deep_view(),
                *now,
            ),
    {
        let changed = match previous {
            Some(a) => match current {
                Some(b) => a.id != b.id,
                None => true,
            },
            None => current.is_some(),
        };
        if changed {
            if current.is_some() && self.config.enabled {
                self.state = PomodoroState::Working;
                self.interval_start = Some(*now);
            } else if current.is_none() && self.state == PomodoroState::Working {
                self.state = PomodoroState::Idle;
                self.interval_start = None;
            }
        }
    }

    /// A copy of the scheduler.
    pub fn duplicate(&self) -> (r: Pomodoro)
        ensures
            r@ == self@,
    {
        Pomodoro {
            config: self.config,
            state: self.state,
            cycles_completed: self.cycles_completed,
            interval_start: self.interval_start,
            last_project: clone_text_option(&self.last_project),
            last_description: clone_text_option(&self.last_description),
        }
    }
}

} // verus!
