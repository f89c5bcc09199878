//! The projects screen: the list of projects and the editor of hourly rates.

use crate::models::ProjectView;
use crate::session::lookup::{find_project, project_with_id, select_next, select_previous, step_down, step_up};
use crate::session::protocol::{Message, Outcome, Reply, ReplyView};
use crate::session::state::{App, AppView, InputMode, extends_decimal, without_last};
use crate::text::{has_char, hundredths_text, is_ascii_digit, push_hundredths, three_part_text};
use vstd::prelude::*;

verus! {

/// Whether typing `c` extends a buffer that holds a decimal number.
pub fn accepts_decimal_char(buffer: &str, c: char) -> (r: bool)
    ensures
        r == extends_decimal(buffer@, c),
{
    is_ascii_digit(c) || (c == '.' && !has_char(buffer, '.'))
}

impl AppView {
    /// The rate of a project as the rate editor shows it: two decimals, or
    /// nothing for a project without a rate.
    pub open spec fn rate_text(project: ProjectView) -> Seq<char> {
        match project.rate {
            Some(rate) => hundredths_text(rate as nat),
            None => Seq::empty(),
        }
    }

    /// The currency of a project as the rate editor shows it: `$` for a
    /// project without one.
    pub open spec fn currency_text(project: ProjectView) -> Seq<char> {
        match project.currency {
            Some(currency) => currency,
            None => "$"@,
        }
    }

    /// `EditProjectRate`: the rate editor opens on the first listed project
    /// with the identity; without such a project nothing changes.
    pub open spec fn edit_project_rate(self, id: i64) -> AppView {
        match project_with_id(self.projects, id) {
            Some(project) => AppView {
                editing_project_rate: Some(id),
                rate_input: AppView::rate_text(project),
                currency_input: AppView::currency_text(project),
                input_mode: InputMode::EditingRate,
                ..self
            },
            None => self,
        }
    }

    /// The project whose rate is being edited, where it is still listed.
    pub open spec fn rated_project(self) -> Option<ProjectView> {
        match self.editing_project_rate {
            Some(id) => project_with_id(self.projects, id),
            None => None,
        }
    }

    /// `SaveProjectRate`, the store having been asked to set the rate. The
    /// editor closes and the projects are listed next; the status names the
    /// project where the store did it.
    pub open spec fn save_project_rate(self, reply: ReplyView) -> (AppView, Outcome) {
        (
            AppView {
                editing_project_rate: None,
                status_message: match self.rated_project() {
                    Some(project) => if reply.succeeded() {
                        Some("Rate updated for '"@ + project.name + "'"@)
                    } else {
                        self.status_message
                    },
                    None => self.status_message,
                },
                input_mode: InputMode::Normal,
                rate_input: Seq::empty(),
                currency_input: Seq::empty(),
                ..self
            },
            Outcome::followed_by(Message::RefreshProjects),
        )
    }

    /// `ClearProjectRate`, the store having been asked to remove the rate of
    /// the project: where the project is listed and the store did it, the
    /// status says so and the projects are listed next.
    pub open spec fn clear_project_rate(self, id: i64, reply: ReplyView) -> (AppView, Outcome) {
        match project_with_id(self.projects, id) {
            Some(project) => if reply.succeeded() {
                (
                    AppView {
                        status_message: Some("Rate cleared for '"@ + project.name + "'"@),
                        ..self
                    },
                    Outcome::followed_by(Message::RefreshProjects),
                )
            } else {
                (self, Outcome::nothing())
            },
            None => (self, Outcome::nothing()),
        }
    }

    /// The session with the rate editor closed and its buffers emptied.
    pub open spec fn rate_editor_closed(self) -> AppView {
        AppView {
            editing_project_rate: None,
            input_mode: InputMode::Normal,
            rate_input: Seq::empty(),
            currency_input: Seq::empty(),
            ..self
        }
    }

    /// What the messages of the projects screen do to a session; any other
    /// message leaves it as it is.
    pub open spec fn on_projects(self, msg: Message, reply: ReplyView) -> (AppView, Outcome) {
        match msg {
            Message::RefreshProjects => (
                AppView { projects: reply.projects(), ..self },
                Outcome::nothing(),
            ),
            Message::SelectNextProject => (
                AppView {
                    selected_project_index: step_down(
                        self.selected_project_index,
                        self.projects.len(),
                    ),
                    ..self
                },
                Outcome::nothing(),
            ),
            Message::SelectPreviousProject => (
                AppView { selected_project_index: step_up(self.selected_project_index), ..self },
                Outcome::nothing(),
            ),
            Message::EditProjectRate(id) => (self.edit_project_rate(id), Outcome::nothing()),
            Message::UpdateRateInput(c) => (
                if extends_decimal(self.rate_input, c) {
                    AppView { rate_input: self.rate_input.push(c), ..self }
                } else {
                    self
                },
                Outcome::nothing(),
            ),
            Message::UpdateCurrencyInput(c) => (
                AppView { currency_input: self.currency_input.push(c), ..self },
                Outcome::nothing(),
            ),
            Message::DeleteRateChar => (
                AppView { rate_input: without_last(self.rate_input), ..self },
                Outcome::nothing(),
            ),
            Message::DeleteCurrencyChar => (
                AppView { currency_input: without_last(self.currency_input), ..self },
                Outcome::nothing(),
            ),
            Message::SaveProjectRate => self.save_project_rate(reply),
            Message::CancelEditRate => (self.rate_editor_closed(), Outcome::nothing()),
            Message::ClearProjectRate(id) => self.clear_project_rate(id, reply),
            _ => (self, Outcome::nothing()),
        }
    }
}

impl App {
    fn edit_project_rate(&mut self, id: i64)
        ensures
            final(self)@ == old(self)@.edit_project_rate(id),
    {
        match find_project(&self.projects, id) {
            Some(i) => {
                let project = &self.projects[i];
                let mut rate_text = String::new();
                match project.rate {
                    Some(rate) => {
                        push_hundredths(&mut rate_text, rate);
                        proof {
                            assert(rate_text@ =~= hundredths_text(rate as nat));
                        }
                    },
                    None => {},
                }
                let currency_text = match &project.currency {
                    Some(currency) => currency.clone(),
                    None => "$".to_string(),
                };
                self.open_rate_editor(id, rate_text, currency_text);
            },
            None => {},
        }
    }

    fn open_rate_editor(&mut self, id: i64, rate_text: String, currency_text: String)
        ensures
            final(self)@ == (AppView {
                editing_project_rate: Some(id),
                rate_input: rate_text@,
                currency_input: currency_text@,
                input_mode: InputMode::EditingRate,
                ..old(self)@
            }),
    {
        self.editing_project_rate = Some(id);
        self.rate_input = rate_text;
        self.currency_input = currency_text;
        self.input_mode = InputMode::EditingRate;
    }

    /// The position of the project whose rate is being edited, where it is
    /// still listed.
    pub fn rated_project_index(&self) -> (r: Option<usize>)
        ensures
            r.is_some() == self@.rated_project().is_some(),
            r.is_some() ==> r.unwrap() < self.projects.len() && self@.rated_project() == Some(
                self.projects[r.unwrap() as int]@,
            ),
    {
        match self.editing_project_rate {
            Some(id) => find_project(&self.projects, id),
            None => None,
        }
    }

    fn close_rate_editor(&mut self)
        ensures
            final(self)@ == old(self)@.rate_editor_closed(),
    {
        self.editing_project_rate = None;
        self.input_mode = InputMode::Normal;
        self.rate_input.clear();
        self.currency_input.clear();
    }

    fn save_project_rate(&mut self, reply: Reply) -> (out: Outcome)
        ensures
            (final(self)@, out) == old(self)@.save_project_rate(reply@),
    {
        match self.rated_project_index() {
            Some(i) => {
                if reply.succeeded() {
                    let text = three_part_text(
                        "Rate updated for '",
                        self.projects[i].name.as_str(),
                        "'",
                    );
                    self.status_message = Some(text);
                }
            },
            None => {},
        }
        self.close_rate_editor();
        Outcome::follow_up(Message::RefreshProjects)
    }

    fn clear_project_rate(&mut self, id: i64, reply: Reply) -> (out: Outcome)
        ensures
            (final(self)@, out) == old(self)@.clear_project_rate(id, reply@),
    {
        match find_project(&self.projects, id) {
            Some(i) => {
                if reply.succeeded() {
                    let text = three_part_text(
                        "Rate cleared for '",
                        self.projects[i].name.as_str(),
                        "'",
                    );
                    self.status_message = Some(text);
                    Outcome::follow_up(Message::RefreshProjects)
                } else {
                    Outcome::none()
                }
            },
            None => Outcome::none(),
        }
    }

    fn update_rate_input(&mut self, c: char)
        ensures
            final(self)@ == (if extends_decimal(old(self)@.rate_input, c) {
                AppView { rate_input: old(self)@.rate_input.push(c), ..old(self)@ }
            } else {
                old(self)@
            }),
    {
        if accepts_decimal_char(self.rate_input.as_str(), c) {
            self.rate_input.push(c);
        }
    }

    /// Processes a message of the projects screen, `reply` being what the
    /// store answered to the message's request.
    pub fn update_projects(&mut self, msg: Message, reply: Reply) -> (out: Outcome)
        ensures
            (final(self)@, out) == old(self)@.on_projects(msg, reply@),
    {
        match msg {
            Message::RefreshProjects => {
                self.projects = reply.into_projects();
                Outcome::none()
            },
            Message::SelectNextProject => {
                self.selected_project_index = select_next(
                    self.selected_project_index,
                    self.projects.len(),
                );
                Outcome::none()
            },
            Message::SelectPreviousProject => {
                self.selected_project_index = select_previous(self.selected_project_index);
                Outcome::none()
            },
            Message::EditProjectRate(id) => {
                self.edit_project_rate(id);
                Outcome::none()
            },
            Message::UpdateRateInput(c) => {
                self.update_rate_input(c);
                Outcome::none()
            },
            Message::UpdateCurrencyInput(c) => {
                self.currency_input.push(c);
                Outcome::none()
            },
            Message::DeleteRateChar => {
                self.rate_input.pop();
                Outcome::none()
            },
            Message::DeleteCurrencyChar => {
                self.currency_input.pop();
                Outcome::none()
            },
            Message::SaveProjectRate => self.save_project_rate(reply),
            Message::CancelEditRate => {
                self.close_rate_editor();
                Outcome::none()
            },
            Message::ClearProjectRate(id) => self.clear_project_rate(id, reply),
            _ => Outcome::none(),
        }
    }
}

} // verus!
