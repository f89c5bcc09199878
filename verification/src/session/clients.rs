//! The clients screen: the list of clients, the client editor, deletion with
//! confirmation, and the choice of the client that invoices are sent to.

use crate::models::{Client, ClientView};
use crate::session::lookup::{
    clamp_selection, clamped, client_ids, client_with_id, find_client, first_index,
    select_previous, step_up,
};
use crate::session::protocol::{Message, Outcome, Reply, ReplyView};
use crate::session::state::{
    App, AppView, ClientField, ClientForm, ClientFormView, InputMode, without_last,
};
use crate::text::{numbered_text, signed_decimal, three_part_text};
use vstd::prelude::*;

verus! {

/// The selection after a step down a list that wraps around: one further,
/// and from the last item to the first; unchanged in an empty list.
pub open spec fn wrap_down(index: usize, len: nat) -> usize {
    if len == 0 {
        index
    } else {
        ((index + 1) % (len as int)) as usize
    }
}

/// The selection after a step up a list that wraps around: one back, and from
/// the first item to the last; unchanged in an empty list.
pub open spec fn wrap_up(index: usize, len: nat) -> usize {
    if len == 0 {
        index
    } else if index == 0 {
        (len - 1) as usize
    } else {
        (index - 1) as usize
    }
}

/// Moves a selection one item down, wrapping around.
pub fn wrap_next(index: usize, len: usize) -> (r: usize)
    ensures
        r == wrap_down(index, len as nat),
{
    if len == 0 {
        index
    } else {
        let r: usize = (index % len + 1) % len;
        assert(r == (index + 1) % (len as int)) by (nonlinear_arith)
            requires
                len > 0,
                r == ((index as int) % (len as int) + 1) % (len as int),
        ;
        r
    }
}

/// Moves a selection one item up, wrapping around.
pub fn wrap_previous(index: usize, len: usize) -> (r: usize)
    ensures
        r == wrap_up(index, len as nat),
{
    if len == 0 {
        index
    } else if index == 0 {
        len - 1
    } else {
        index - 1
    }
}

impl AppView {
    /// The client that invoices go to after `CycleInvoiceClient`: from no
    /// client to the first listed, from a listed client to the one after it,
    /// and from the last or an unlisted one back to no client.
    pub open spec fn next_invoice_client(self) -> Option<i64> {
        if self.clients.len() == 0 {
            None
        } else {
            match self.selected_invoice_client {
                None => Some(self.clients[0].id),
                Some(current) => match first_index(client_ids(self.clients), current) {
                    Some(i) => if i + 1 < self.clients.len() {
                        Some(self.clients[i + 1].id)
                    } else {
                        None
                    },
                    None => None,
                },
            }
        }
    }

    /// The selected client for invoicing, where it is listed.
    pub open spec fn selected_invoice_client_view(self) -> Option<ClientView> {
        match self.selected_invoice_client {
            Some(id) => client_with_id(self.clients, id),
            None => None,
        }
    }

    /// `AddClient`: the client editor opens on an empty form.
    pub open spec fn add_client(self) -> AppView {
        AppView {
            editing_client: Some(ClientView::empty()),
            adding_new_client: true,
            client_field: ClientField::Name,
            client_form: ClientFormView::empty(),
            input_mode: InputMode::EditingClient,
            ..self
        }
    }

    /// `EditClient`: the client editor opens on the first listed client with
    /// the identity; without such a client nothing changes.
    pub open spec fn edit_client(self, id: i64) -> AppView {
        match client_with_id(self.clients, id) {
            Some(client) => AppView {
                editing_client: Some(client),
                adding_new_client: false,
                client_field: ClientField::Name,
                client_form: ClientFormView::of(client),
                input_mode: InputMode::EditingClient,
                ..self
            },
            None => self,
        }
    }

    /// `ConfirmDeleteClient`, the store having been asked to delete the
    /// client that awaits confirmation. The confirmation is over either way;
    /// where the store did it, the selection moves up and the clients are
    /// listed next.
    pub open spec fn confirm_delete_client_now(self, reply: ReplyView) -> (AppView, Outcome) {
        match self.confirm_delete_client {
            Some(id) => if reply.succeeded() {
                (
                    AppView {
                        confirm_delete_client: None,
                        status_message: Some(
                            "Client "@ + signed_decimal(id as int) + " deleted"@,
                        ),
                        selected_client_index: step_up(self.selected_client_index),
                        ..self
                    },
                    Outcome::followed_by(Message::RefreshClients),
                )
            } else {
                (AppView { confirm_delete_client: None, ..self }, Outcome::nothing())
            },
            None => (self, Outcome::nothing()),
        }
    }

    /// The client that the editor describes: the form's texts under the
    /// identity of the client being edited, or 0 for a new one.
    pub open spec fn client_to_save(self) -> ClientView {
        self.client_form.client(
            match self.editing_client {
                Some(client) => client.id,
                None => 0,
            },
        )
    }

    /// The status after the client editor was saved.
    pub open spec fn save_client_status(self, reply: ReplyView) -> Seq<char> {
        if self.adding_new_client {
            if reply.succeeded() {
                "Client '"@ + self.client_form.name + "' added"@
            } else {
                "Failed to add client"@
            }
        } else if reply.succeeded() {
            "Client '"@ + self.client_form.name + "' updated"@
        } else {
            "Failed to update client"@
        }
    }

    /// The session with the client editor closed and its form emptied.
    pub open spec fn client_editor_closed(self) -> AppView {
        AppView {
            editing_client: None,
            adding_new_client: false,
            input_mode: InputMode::Normal,
            client_form: ClientFormView::empty(),
            ..self
        }
    }

    /// `SaveClient`, the store having been asked to insert or update the
    /// client. The editor closes and the clients are listed next; the status
    /// tells whether the store did it.
    pub open spec fn save_client(self, reply: ReplyView) -> (AppView, Outcome) {
        (
            AppView {
                status_message: Some(self.save_client_status(reply)),
                ..self.client_editor_closed()
            },
            Outcome::followed_by(Message::RefreshClients),
        )
    }

    /// `RefreshClients`: the list takes what the store reports and the
    /// selection is pulled back into it.
    pub open spec fn refresh_clients(self, reply: ReplyView) -> AppView {
        AppView {
            clients: reply.clients(),
            selected_client_index: clamped(self.selected_client_index, reply.clients().len()),
            ..self
        }
    }

    /// What the messages of the clients screen do to a session; any other
    /// message leaves it as it is.
    pub open spec fn on_clients(self, msg: Message, reply: ReplyView) -> (AppView, Outcome) {
        match msg {
            Message::RefreshClients => (self.refresh_clients(reply), Outcome::nothing()),
            Message::SelectNextClient => (
                AppView {
                    selected_client_index: wrap_down(
                        self.selected_client_index,
                        self.clients.len(),
                    ),
                    ..self
                },
                Outcome::nothing(),
            ),
            Message::SelectPreviousClient => (
                AppView {
                    selected_client_index: wrap_up(self.selected_client_index, self.clients.len()),
                    ..self
                },
                Outcome::nothing(),
            ),
            Message::SelectInvoiceClient(id) => (
                AppView { selected_invoice_client: id, ..self },
                Outcome::nothing(),
            ),
            Message::CycleInvoiceClient => (
                AppView { selected_invoice_client: self.next_invoice_client(), ..self },
                Outcome::nothing(),
            ),
            Message::AddClient => (self.add_client(), Outcome::nothing()),
            Message::EditClient(id) => (self.edit_client(id), Outcome::nothing()),
            Message::DeleteClient(id) => (
                AppView { confirm_delete_client: Some(id), ..self },
                Outcome::nothing(),
            ),
            Message::ConfirmDeleteClient => self.confirm_delete_client_now(reply),
            Message::CancelDeleteClient => (
                AppView { confirm_delete_client: None, ..self },
                Outcome::nothing(),
            ),
            Message::ClientNextField => (
                AppView { client_field: self.client_field.following(), ..self },
                Outcome::nothing(),
            ),
            Message::ClientPrevField => (
                AppView { client_field: self.client_field.preceding(), ..self },
                Outcome::nothing(),
            ),
            Message::ClientFieldInput(c) => (
                AppView {
                    client_form: self.client_form.with_field(
                        self.client_field,
                        self.client_form.field(self.client_field).push(c),
                    ),
                    ..self
                },
                Outcome::nothing(),
            ),
            Message::ClientFieldBackspace => (
                AppView {
                    client_form: self.client_form.with_field(
                        self.client_field,
                        without_last(self.client_form.field(self.client_field)),
                    ),
                    ..self
                },
                Outcome::nothing(),
            ),
            Message::SaveClient => self.save_client(reply),
            Message::CancelEditClient => (self.client_editor_closed(), Outcome::nothing()),
            _ => (self, Outcome::nothing()),
        }
    }
}

impl App {
    /// The client that invoices go to after the choice was moved on.
    pub fn next_invoice_client(&self) -> (r: Option<i64>)
        ensures
            r == self@.next_invoice_client(),
    {
        if self.clients.len() == 0 {
            None
        } else {
            match self.selected_invoice_client {
                None => Some(self.clients[0].id),
                Some(current) => match find_client(&self.clients, current) {
                    Some(i) => {
                        if i + 1 < self.clients.len() {
                            Some(self.clients[i + 1].id)
                        } else {
                            None
                        }
                    },
                    None => None,
                },
            }
        }
    }

    /// The client selected for invoicing, where it is listed.
    pub fn get_selected_invoice_client(&self) -> (r: Option<&Client>)
        ensures
            r.deep_view() == self@.selected_invoice_client_view(),
    {
        match self.selected_invoice_client {
            Some(id) => match find_client(&self.clients, id) {
                Some(i) => Some(&self.clients[i]),
                None => None,
            },
            None => None,
        }
    }

    /// The client under the selection of the clients list.
    pub fn get_selected_client(&self) -> (r: Option<&Client>)
        ensures
            r.deep_view() == (if self@.selected_client_index < self@.clients.len() {
                Some(self@.clients[self@.selected_client_index as int])
            } else {
                None
            }),
    {
        if self.selected_client_index < self.clients.len() {
            Some(&self.clients[self.selected_client_index])
        } else {
            None
        }
    }

    fn open_client_editor(&mut self, client: Client, adding: bool, form: ClientForm)
        ensures
            final(self)@ == (AppView {
                editing_client: Some(client@),
                adding_new_client: adding,
                client_field: ClientField::Name,
                client_form: form@,
                input_mode: InputMode::EditingClient,
                ..old(self)@
            }),
    {
        self.editing_client = Some(client);
        self.adding_new_client = adding;
        self.client_field = ClientField::Name;
        self.client_form = form;
        self.input_mode = InputMode::EditingClient;
    }

    fn edit_client(&mut self, id: i64)
        ensures
            final(self)@ == old(self)@.edit_client(id),
    {
        match find_client(&self.clients, id) {
            Some(i) => {
                let client = self.clients[i].clone();
                let form = ClientForm::from_client(&client);
                self.open_client_editor(client, false, form);
            },
            None => {},
        }
    }

    fn confirm_delete_client_now(&mut self, reply: Reply) -> (out: Outcome)
        ensures
            (final(self)@, out) == old(self)@.confirm_delete_client_now(reply@),
    {
        match self.confirm_delete_client {
            Some(id) => {
                self.confirm_delete_client = None;
                if reply.succeeded() {
                    self.status_message = Some(numbered_text("Client ", id, " deleted"));
                    self.selected_client_index = select_previous(self.selected_client_index);
                    Outcome::follow_up(Message::RefreshClients)
                } else {
                    Outcome::none()
                }
            },
            None => Outcome::none(),
        }
    }

    /// The client that the editor describes.
    pub fn client_to_save(&self) -> (r: Client)
        ensures
            r@ == self@.client_to_save(),
    {
        let id: i64 = match &self.editing_client {
            Some(client) => client.id,
            None => 0,
        };
        self.client_form.to_client(id)
    }

    fn save_client_status(&self, reply: &Reply) -> (text: String)
        ensures
            text@ == self@.save_client_status(reply@),
    {
        if self.adding_new_client {
            if reply.succeeded() {
                three_part_text("Client '", self.client_form.name.as_str(), "' added")
            } else {
                "Failed to add client".to_string()
            }
        } else if reply.succeeded() {
            three_part_text("Client '", self.client_form.name.as_str(), "' updated")
        } else {
            "Failed to update client".to_string()
        }
    }

    fn close_client_editor(&mut self)
        ensures
            final(self)@ == old(self)@.client_editor_closed(),
    {
        self.editing_client = None;
        self.adding_new_client = false;
        self.input_mode = InputMode::Normal;
        self.client_form = ClientForm::new();
    }

    fn save_client(&mut self, reply: Reply) -> (out: Outcome)
        ensures
            (final(self)@, out) == old(self)@.save_client(reply@),
    {
        let text = self.save_client_status(&reply);
        self.close_client_editor();
        self.status_message = Some(text);
        Outcome::follow_up(Message::RefreshClients)
    }

    fn refresh_clients(&mut self, reply: Reply)
        ensures
            final(self)@ == old(self)@.refresh_clients(reply@),
    {
        self.clients = reply.into_clients();
        self.selected_client_index = clamp_selection(self.selected_client_index, self.clients.len());
    }

    /// Processes a message of the clients screen, `reply` being what the
    /// store answered to the message's request.
    pub fn update_clients(&mut self, msg: Message, reply: Reply) -> (out: Outcome)
        ensures
            (final(self)@, out) == old(self)@.on_clients(msg, reply@),
    {
        match msg {
            Message::RefreshClients => {
                self.refresh_clients(reply);
                Outcome::none()
            },
            Message::SelectNextClient => {
                self.selected_client_index = wrap_next(
                    self.selected_client_index,
                    self.clients.len(),
                );
                Outcome::none()
            },
            Message::SelectPreviousClient => {
                self.selected_client_index = wrap_previous(
                    self.selected_client_index,
                    self.clients.len(),
                );
                Outcome::none()
            },
            Message::SelectInvoiceClient(id) => {
                self.selected_invoice_client = id;
                Outcome::none()
            },
            Message::CycleInvoiceClient => {
                self.selected_invoice_client = self.next_invoice_client();
                Outcome::none()
            },
            Message::AddClient => {
                self.open_client_editor(Client::default(), true, ClientForm::new());
                Outcome::none()
            },
            Message::EditClient(id) => {
                self.edit_client(id);
                Outcome::none()
            },
            Message::DeleteClient(id) => {
                self.confirm_delete_client = Some(id);
                Outcome::none()
            },
            Message::ConfirmDeleteClient => self.confirm_delete_client_now(reply),
            Message::CancelDeleteClient => {
                self.confirm_delete_client = None;
                Outcome::none()
            },
            Message::ClientNextField => {
                self.client_field = self.client_field.next();
                Outcome::none()
            },
            Message::ClientPrevField => {
                self.client_field = self.client_field.prev();
                Outcome::none()
            },
            Message::ClientFieldInput(c) => {
                self.client_form.push(self.client_field, c);
                Outcome::none()
            },
            Message::ClientFieldBackspace => {
                self.client_form.pop(self.client_field);
                Outcome::none()
            },
            Message::SaveClient => self.save_client(reply),
            Message::CancelEditClient => {
                self.close_client_editor();
                Outcome::none()
            },
            _ => Outcome::none(),
        }
    }
}

} // verus!
