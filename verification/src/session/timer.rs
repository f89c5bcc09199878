//! Timer control: starting and stopping the timer, reconciling the mirror of
//! the running entry with the store on every tick, and the Pomodoro
//! transitions that ticks and acknowledgements cause.

use crate::models::clone_text_option;
use crate::pomodoro::{IntervalEvent, Pomodoro, PomodoroState, PomodoroView};
use crate::session::protocol::{Effect, Message, Outcome, Reply, ReplyView};
use crate::session::state::{App, AppView, InputMode, without_last};
use crate::text::{push_signed, push_text, signed_decimal};
use crate::time::Timestamp;
use vstd::prelude::*;

verus! {

impl AppView {
    /// A timer may be started: a project is named and no entry is known to
    /// run.
    pub open spec fn can_start_timer(self) -> bool {
        self.project_input.len() > 0 && self.active_entry.is_none()
    }

    /// `StartTimer`, the store having been asked to insert the entry. Where
    /// that was done, the project and description are remembered for
    /// resuming, the form is reset, a work interval begins if Pomodoro mode
    /// is on, and the running entry is read next. Otherwise nothing changes.
    pub open spec fn start_timer(self, reply: ReplyView, now: Timestamp) -> (AppView, Outcome) {
        if self.can_start_timer() && reply.succeeded() {
            (
                AppView {
                    pomodoro: self.pomodoro.timer_started(
                        self.project_input,
                        self.description_input,
                        now,
                    ),
                    project_input: Seq::empty(),
                    description_input: "Work session"@,
                    status_message: Some("Timer started"@),
                    input_mode: InputMode::Normal,
                    ..self
                },
                Outcome::followed_by(Message::RefreshActiveTimer),
            )
        } else {
            (self, Outcome::nothing())
        }
    }

    /// `StopTimer`, the store having been asked to end the running entry.
    /// Where that was done, the mirror is cleared, the Pomodoro cycle is
    /// abandoned and the entries are listed next. Where no entry is known to
    /// run, or the store failed, nothing changes.
    pub open spec fn stop_timer(self, reply: ReplyView) -> (AppView, Outcome) {
        if self.active_entry.is_some() && reply.succeeded() {
            (
                AppView {
                    active_entry: None,
                    status_message: Some("Timer stopped"@),
                    pomodoro: self.pomodoro.reset(),
                    ..self
                },
                Outcome::followed_by(Message::RefreshEntries),
            )
        } else {
            (self, Outcome::nothing())
        }
    }

    /// `Tick` at `now`, the store having been asked for the running entry.
    /// The mirror takes what the store reports. An expired work interval
    /// then clears it again and asks for the timer to be stopped; an expired
    /// break asks for the operator to be told.
    pub open spec fn tick(self, reply: ReplyView, now: Timestamp) -> (AppView, Outcome) {
        let active = reply.active_entry();
        match self.pomodoro.tick_event(now) {
            IntervalEvent::Nothing => (
                AppView { active_entry: active, ..self },
                Outcome::nothing(),
            ),
            IntervalEvent::WorkComplete => (
                AppView {
                    active_entry: None,
                    pomodoro: self.pomodoro.tick(now, active),
                    status_message: Some("Work period complete! Press [Space] to start break"@),
                    ..self
                },
                Outcome::with(Effect::WorkComplete),
            ),
            IntervalEvent::BreakComplete => (
                AppView {
                    active_entry: active,
                    pomodoro: self.pomodoro.tick(now, active),
                    status_message: Some("Break complete! Press [s] to resume work"@),
                    ..self
                },
                Outcome::with(Effect::BreakComplete),
            ),
        }
    }

    /// `TogglePomodoroMode` at `now`: the scheduler is switched and the new
    /// setting is to be stored.
    pub open spec fn toggle_pomodoro(self, now: Timestamp) -> (AppView, Outcome) {
        let pomodoro = self.pomodoro.toggle(self.active_entry.is_some(), now);
        (
            AppView {
                pomodoro,
                status_message: Some(
                    if pomodoro.config.enabled {
                        "Pomodoro mode enabled"@
                    } else {
                        "Pomodoro mode disabled"@
                    },
                ),
                ..self
            },
            Outcome::with(Effect::SavePomodoroEnabled(pomodoro.config.enabled)),
        )
    }

    /// The announcement of the break that starts.
    pub open spec fn break_announcement(pomodoro: PomodoroView) -> Seq<char> {
        "Starting "@ + (if pomodoro.is_long_break_next() {
            "long"@
        } else {
            "short"@
        }) + " break ("@ + signed_decimal(pomodoro.current_break_duration() as int) + " min)"@
    }

    /// `AcknowledgePomodoro` at `now`. After work the break begins. After a
    /// break the cycle is counted and the start form is filled with the
    /// remembered project and description; the operator starts the timer.
    pub open spec fn acknowledge_pomodoro(self, now: Timestamp) -> AppView {
        match self.pomodoro.state {
            PomodoroState::WorkComplete => AppView {
                pomodoro: self.pomodoro.acknowledge(now),
                status_message: Some(AppView::break_announcement(self.pomodoro)),
                ..self
            },
            PomodoroState::BreakComplete => AppView {
                pomodoro: self.pomodoro.acknowledge(now),
                project_input: match self.pomodoro.last_project {
                    Some(project) => project,
                    None => self.project_input,
                },
                description_input: match self.pomodoro.last_description {
                    Some(description) => description,
                    None => self.description_input,
                },
                status_message: Some("Ready to start next work period"@),
                ..self
            },
            _ => self,
        }
    }

    /// What the timer messages do to a session; any other message leaves it
    /// as it is.
    pub open spec fn on_timer(self, msg: Message, reply: ReplyView, now: Timestamp) -> (
        AppView,
        Outcome,
    ) {
        match msg {
            Message::StartTimer => self.start_timer(reply, now),
            Message::StopTimer => self.stop_timer(reply),
            Message::UpdateProjectInput(c) => (
                AppView { project_input: self.project_input.push(c), ..self },
                Outcome::nothing(),
            ),
            Message::UpdateDescriptionInput(c) => (
                AppView { description_input: self.description_input.push(c), ..self },
                Outcome::nothing(),
            ),
            Message::DeleteProjectChar => (
                AppView { project_input: without_last(self.project_input), ..self },
                Outcome::nothing(),
            ),
            Message::DeleteDescriptionChar => (
                AppView { description_input: without_last(self.description_input), ..self },
                Outcome::nothing(),
            ),
            Message::Tick => self.tick(reply, now),
            Message::RefreshActiveTimer => (
                AppView { active_entry: reply.active_entry(), ..self },
                Outcome::nothing(),
            ),
            Message::TogglePomodoroMode => self.toggle_pomodoro(now),
            Message::AcknowledgePomodoro => (self.acknowledge_pomodoro(now), Outcome::nothing()),
            Message::RefreshPomodoroConfig => (
                AppView {
                    pomodoro: PomodoroView { config: reply.pomodoro_config(), ..self.pomodoro },
                    ..self
                },
                Outcome::nothing(),
            ),
            _ => (self, Outcome::nothing()),
        }
    }
}

/// Words the announcement of the break that starts.
pub fn announce_break(pomodoro: &Pomodoro) -> (text: String)
    ensures
        text@ == AppView::break_announcement(pomodoro@),
{
    let mut text = "Starting ".to_string();
    if pomodoro.is_long_break_next() {
        push_text(&mut text, "long");
    } else {
        push_text(&mut text, "short");
    }
    push_text(&mut text, " break (");
    push_signed(&mut text, pomodoro.current_break_duration() as i64);
    push_text(&mut text, " min)");
    text
}

impl App {
    /// Shows `text` as the status.
    pub fn set_status(&mut self, text: &str)
        ensures
            final(self)@ == (AppView { status_message: Some(text@), ..old(self)@ }),
    {
        self.status_message = Some(text.to_string());
    }

    /// Whether a timer may be started.
    pub fn can_start_timer(&self) -> (r: bool)
        ensures
            r == self@.can_start_timer(),
    {
        !self.project_input.as_str().is_empty() && self.active_entry.is_none()
    }

    fn start_timer(&mut self, reply: Reply, now: &Timestamp) -> (out: Outcome)
        ensures
            (final(self)@, out) == old(self)@.start_timer(reply@, *now),
    {
        if self.can_start_timer() && reply.succeeded() {
            self.pomodoro.timer_started(&self.project_input, &self.description_input, now);
            self.project_input.clear();
            self.description_input = "Work session".to_string();
            self.status_message = Some("Timer started".to_string());
            self.input_mode = InputMode::Normal;
            Outcome::follow_up(Message::RefreshActiveTimer)
        } else {
            Outcome::none()
        }
    }

    fn stop_timer(&mut self, reply: Reply) -> (out: Outcome)
        ensures
            (final(self)@, out) == old(self)@.stop_timer(reply@),
    {
        if self.active_entry.is_some() && reply.succeeded() {
            self.active_entry = None;
            self.status_message = Some("Timer stopped".to_string());
            self.pomodoro.reset();
            Outcome::follow_up(Message::RefreshEntries)
        } else {
            Outcome::none()
        }
    }

    fn tick(&mut self, reply: Reply, now: &Timestamp) -> (out: Outcome)
        ensures
            (final(self)@, out) == old(self)@.tick(reply@, *now),
    {
        self.active_entry = reply.into_active_entry();
        let event = self.pomodoro.tick(now, self.active_entry.as_ref());
        match event {
            IntervalEvent::Nothing => Outcome::none(),
            IntervalEvent::WorkComplete => {
                self.active_entry = None;
                self.status_message = Some(
                    "Work period complete! Press [Space] to start break".to_string(),
                );
                Outcome::effect(Effect::WorkComplete)
            },
            IntervalEvent::BreakComplete => {
                self.status_message = Some("Break complete! Press [s] to resume work".to_string());
                Outcome::effect(Effect::BreakComplete)
            },
        }
    }

    fn toggle_pomodoro(&mut self, now: &Timestamp) -> (out: Outcome)
        ensures
            (final(self)@, out) == old(self)@.toggle_pomodoro(*now),
    {
        self.pomodoro.toggle(self.active_entry.is_some(), now);
        if self.pomodoro.config.enabled {
            self.status_message = Some("Pomodoro mode enabled".to_string());
        } else {
            self.status_message = Some("Pomodoro mode disabled".to_string());
        }
        Outcome::effect(Effect::SavePomodoroEnabled(self.pomodoro.config.enabled))
    }

    fn acknowledge_pomodoro(&mut self, now: &Timestamp)
        ensures
            final(self)@ == old(self)@.acknowledge_pomodoro(*now),
    {
        match self.pomodoro.state {
            PomodoroState::WorkComplete => {
                self.acknowledge_work(now);
            },
            PomodoroState::BreakComplete => {
                self.acknowledge_break(now);
            },
            _ => {},
        }
    }

    fn acknowledge_work(&mut self, now: &Timestamp)
        requires
            old(self).pomodoro.state == PomodoroState::WorkComplete,
        ensures
            final(self)@ == old(self)@.acknowledge_pomodoro(*now),
    {
        let text = announce_break(&self.pomodoro);
        self.pomodoro.acknowledge(now);
        self.status_message = Some(text);
    }

    fn acknowledge_break(&mut self, now: &Timestamp)
        requires
            old(self).pomodoro.state == PomodoroState::BreakComplete,
        ensures
            final(self)@ == old(self)@.acknowledge_pomodoro(*now),
    {
        let project = clone_text_option(&self.pomodoro.last_project);
        let description = clone_text_option(&self.pomodoro.last_description);
        self.pomodoro.acknowledge(now);
        match project {
            Some(text) => {
                self.project_input = text;
            },
            None => {},
        }
        match description {
            Some(text) => {
                self.description_input = text;
            },
            None => {},
        }
        self.status_message = Some("Ready to start next work period".to_string());
    }

    /// Processes a timer message at `now`, `reply` being what the store
    /// answered to the message's request.
    pub fn update_timer(&mut self, msg: Message, reply: Reply, now: &Timestamp) -> (out: Outcome)
        ensures
            (final(self)@, out) == old(self)@.on_timer(msg, reply@, *now),
    {
        match msg {
            Message::StartTimer => self.start_timer(reply, now),
            Message::StopTimer => self.stop_timer(reply),
            Message::UpdateProjectInput(c) => {
                self.project_input.push(c);
                Outcome::none()
            },
            Message::UpdateDescriptionInput(c) => {
                self.description_input.push(c);
                Outcome::none()
            },
            Message::DeleteProjectChar => {
                self.project_input.pop();
                Outcome::none()
            },
            Message::DeleteDescriptionChar => {
                self.description_input.pop();
                Outcome::none()
            },
            Message::Tick => self.tick(reply, now),
            Message::RefreshActiveTimer => {
                self.active_entry = reply.into_active_entry();
                Outcome::none()
            },
            Message::TogglePomodoroMode => self.toggle_pomodoro(now),
            Message::AcknowledgePomodoro => {
                self.acknowledge_pomodoro(now);
                Outcome::none()
            },
            Message::RefreshPomodoroConfig => {
                self.pomodoro.config = reply.pomodoro_config();
                Outcome::none()
            },
            _ => Outcome::none(),
        }
    }
}

} // verus!
