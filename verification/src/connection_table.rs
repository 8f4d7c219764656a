//! The table of connected clients: the channels of each, the session each is attached to, and
//! which client decides the size of each session.

use crate::channel::{
    cancel, control_lent, copy_control_handle, copy_terminal_handle, fresh_control_copy,
    fresh_terminal_copy, terminal_lent, CancelledToken,
};
use crate::string_map::{other_keys_with_value, without_value, StringMap};
use axum::extract::ws::Message;
use tokio::sync::mpsc::UnboundedSender;
use tokio_util::sync::CancellationToken;
use vstd::prelude::*;

verus! {

/// What the server holds for one client: its connection to the session server, and, once its
/// sockets are open, the channels to them and the token that stops its rendering task.
pub struct ClientChannels<A> {
    pub os_api: A,
    pub control_channel_tx: Option<UnboundedSender<Message>>,
    pub terminal_channel_tx: Option<UnboundedSender<String>>,
    pub terminal_channel_cancellation_token: Option<CancellationToken>,
}

impl<A> ClientChannels<A> {
    /// The channels of a client whose sockets are not open yet.
    pub open spec fn unopened(os_api: A) -> Self {
        ClientChannels {
            os_api,
            control_channel_tx: None,
            terminal_channel_tx: None,
            terminal_channel_cancellation_token: None,
        }
    }

    /// Starts with no socket open.
    pub fn new(os_api: A) -> (channels: Self)
        ensures
            channels == Self::unopened(os_api),
    {
        ClientChannels {
            os_api,
            control_channel_tx: None,
            terminal_channel_tx: None,
            terminal_channel_cancellation_token: None,
        }
    }

    /// Sets the channel to the control socket.
    pub fn add_control_tx(&mut self, control_channel_tx: UnboundedSender<Message>)
        ensures
            *final(self) == (ClientChannels {
                control_channel_tx: Some(control_channel_tx),
                ..*old(self)
            }),
    {
        self.control_channel_tx = Some(control_channel_tx);
    }

    /// Sets the channel to the terminal socket.
    pub fn add_terminal_tx(&mut self, terminal_channel_tx: UnboundedSender<String>)
        ensures
            *final(self) == (ClientChannels {
                terminal_channel_tx: Some(terminal_channel_tx),
                ..*old(self)
            }),
    {
        self.terminal_channel_tx = Some(terminal_channel_tx);
    }

    /// Sets the token that stops the rendering task.
    pub fn add_terminal_channel_cancellation_token(&mut self, token: CancellationToken)
        ensures
            *final(self) == (ClientChannels {
                terminal_channel_cancellation_token: Some(token),
                ..*old(self)
            }),
    {
        self.terminal_channel_cancellation_token = Some(token);
    }

    /// Stops the rendering task: takes out the token, if there is one, and cancels it.
    pub fn cleanup(&mut self) -> (cancelled: Option<CancelledToken>)
        ensures
            *final(self) == (ClientChannels {
                terminal_channel_cancellation_token: None,
                ..*old(self)
            }),
            is_cancelled_form_of(cancelled, old(self).terminal_channel_cancellation_token),
    {
        match self.terminal_channel_cancellation_token.take() {
            Some(token) => Some(cancel(token)),
            None => None,
        }
    }
}

/// `cancelled` is what became of `token`: the token cancelled, or nothing where there was none.
pub open spec fn is_cancelled_form_of(
    cancelled: Option<CancelledToken>,
    token: Option<CancellationToken>,
) -> bool {
    match cancelled {
        Some(c) => token == Some(c.token()),
        None => token is None,
    }
}

/// What is left of a client that was removed: its channels, and the token of its rendering task,
/// cancelled.
pub struct RemovedClient<A> {
    pub channels: ClientChannels<A>,
    pub cancelled: Option<CancelledToken>,
}

impl<A> RemovedClient<A> {
    /// The handle to the control socket that a removed client had.
    pub open spec fn control_tx_of(removed: Option<Self>) -> Option<UnboundedSender<Message>> {
        match removed {
            Some(client) => client.channels.control_channel_tx,
            None => None,
        }
    }
}

/// `removed` is what is left of the client that had these channels: all of them, and the token
/// cancelled; nothing where there was no such client.
pub open spec fn is_removal_of<A>(
    removed: Option<RemovedClient<A>>,
    channels: Option<ClientChannels<A>>,
) -> bool {
    match removed {
        Some(client) => {
            &&& channels matches Some(had)
            &&& client.channels == (ClientChannels {
                terminal_channel_cancellation_token: None,
                ..had
            })
            &&& is_cancelled_form_of(client.cancelled, had.terminal_channel_cancellation_token)
        },
        None => channels is None,
    }
}

/// How the handle that a table lists for a client stands before and after `copy` was made of it:
/// it was used for that alone, and the copy has not been used. Where none is listed, none is made.
pub open spec fn terminal_looked_up(
    before: Option<UnboundedSender<String>>,
    after: Option<UnboundedSender<String>>,
    copy: Option<UnboundedSender<String>>,
) -> bool {
    match before {
        Some(listed) => {
            &&& after matches Some(lender) && terminal_lent(listed, lender)
            &&& copy matches Some(made) && fresh_terminal_copy(made, listed)
        },
        None => after is None && copy is None,
    }
}

/// How the handle that a table lists for a client stands before and after `copy` was made of it:
/// it was used for that alone, and the copy has not been used. Where none is listed, none is made.
pub open spec fn control_looked_up(
    before: Option<UnboundedSender<Message>>,
    after: Option<UnboundedSender<Message>>,
    copy: Option<UnboundedSender<Message>>,
) -> bool {
    match before {
        Some(listed) => {
            &&& after matches Some(lender) && control_lent(listed, lender)
            &&& copy matches Some(made) && fresh_control_copy(made, listed)
        },
        None => after is None && copy is None,
    }
}

/// What a [`ConnectionTable`] records.
#[verifier::ext_equal]
pub struct TableView<A> {
    /// The channels of each client.
    pub channels: Map<Seq<char>, ClientChannels<A>>,
    /// The session that each client is attached to.
    pub sessions: Map<Seq<char>, Seq<char>>,
    /// The client that decides the size of each session that has such a client.
    pub owners: Map<Seq<char>, Seq<char>>,
}

impl<A> TableView<A> {
    /// A table without clients.
    pub open spec fn empty() -> Self {
        TableView { channels: Map::empty(), sessions: Map::empty(), owners: Map::empty() }
    }

    /// The table with these channels for a client, in place of those it had.
    pub open spec fn with_channels(self, client_id: Seq<char>, channels: ClientChannels<A>) -> Self {
        TableView { channels: self.channels.insert(client_id, channels), ..self }
    }

    /// The table after a client's control socket opened.
    pub open spec fn with_control_tx(
        self,
        client_id: Seq<char>,
        channel: UnboundedSender<Message>,
    ) -> Self {
        if self.channels.contains_key(client_id) {
            self.with_channels(
                client_id,
                ClientChannels { control_channel_tx: Some(channel), ..self.channels[client_id] },
            )
        } else {
            self
        }
    }

    /// The table after a client's terminal socket opened.
    pub open spec fn with_terminal_tx(
        self,
        client_id: Seq<char>,
        channel: UnboundedSender<String>,
    ) -> Self {
        if self.channels.contains_key(client_id) {
            self.with_channels(
                client_id,
                ClientChannels { terminal_channel_tx: Some(channel), ..self.channels[client_id] },
            )
        } else {
            self
        }
    }

    /// The table after a client's rendering task started.
    pub open spec fn with_cancellation_token(
        self,
        client_id: Seq<char>,
        token: CancellationToken,
    ) -> Self {
        if self.channels.contains_key(client_id) {
            self.with_channels(
                client_id,
                ClientChannels {
                    terminal_channel_cancellation_token: Some(token),
                    ..self.channels[client_id]
                },
            )
        } else {
            self
        }
    }

    /// The table with this handle to a client's terminal socket in place of the one it listed.
    pub open spec fn with_terminal_handle(
        self,
        client_id: Seq<char>,
        handle: Option<UnboundedSender<String>>,
    ) -> Self {
        match handle {
            Some(channel) => self.with_terminal_tx(client_id, channel),
            None => self,
        }
    }

    /// The table with this handle to a client's control socket in place of the one it listed.
    pub open spec fn with_control_handle(
        self,
        client_id: Seq<char>,
        handle: Option<UnboundedSender<Message>>,
    ) -> Self {
        match handle {
            Some(channel) => self.with_control_tx(client_id, channel),
            None => self,
        }
    }

    /// What the table holds for a client.
    pub open spec fn client(self, client_id: Seq<char>) -> Option<ClientChannels<A>> {
        if self.channels.contains_key(client_id) {
            Some(self.channels[client_id])
        } else {
            None
        }
    }

    /// The channel to a client's terminal socket, once it is open.
    pub open spec fn terminal_tx(self, client_id: Seq<char>) -> Option<UnboundedSender<String>> {
        if self.channels.contains_key(client_id) {
            self.channels[client_id].terminal_channel_tx
        } else {
            None
        }
    }

    /// The channel to a client's control socket, once it is open.
    pub open spec fn control_tx(self, client_id: Seq<char>) -> Option<UnboundedSender<Message>> {
        if self.channels.contains_key(client_id) {
            self.channels[client_id].control_channel_tx
        } else {
            None
        }
    }

    /// The token that stops a client's rendering task, once it runs.
    pub open spec fn cancellation_token(self, client_id: Seq<char>) -> Option<CancellationToken> {
        if self.channels.contains_key(client_id) {
            self.channels[client_id].terminal_channel_cancellation_token
        } else {
            None
        }
    }

    /// The table with nothing left of a client: its channels, its session, and the sessions whose
    /// size it decided.
    pub open spec fn without_client(self, client_id: Seq<char>) -> Self {
        TableView {
            channels: self.channels.remove(client_id),
            sessions: self.sessions.remove(client_id),
            owners: without_value(self.owners, client_id),
        }
    }

    /// The table with a client attached to a session.
    pub open spec fn with_session(self, client_id: Seq<char>, session: Seq<char>) -> Self {
        TableView { sessions: self.sessions.insert(client_id, session), ..self }
    }

    /// The table after a client made itself the one that decides the size of its session.
    pub open spec fn with_owner(self, client_id: Seq<char>) -> Self {
        if self.sessions.contains_key(client_id) {
            TableView {
                owners: self.owners.insert(self.sessions[client_id], client_id),
                ..self
            }
        } else {
            self
        }
    }

    /// The other clients of a client's session.
    pub open spec fn peers(self, client_id: Seq<char>) -> Set<Seq<char>> {
        if self.sessions.contains_key(client_id) {
            other_keys_with_value(self.sessions, client_id, self.sessions[client_id])
        } else {
            Set::empty()
        }
    }

    /// A client may resize unless another client decides the size of its session.
    pub open spec fn may_resize(self, client_id: Seq<char>) -> bool {
        self.sessions.contains_key(client_id) && self.owners.contains_key(self.sessions[client_id])
            ==> self.owners[self.sessions[client_id]] == client_id
    }
}

/// The clients of a web server, by client id. `A` is a client's connection to its session server.
pub struct ConnectionTable<A> {
    client_id_to_channels: StringMap<ClientChannels<A>>,
    client_id_to_session: StringMap<String>,
    session_size_owner: StringMap<String>,
}

impl<A> View for ConnectionTable<A> {
    type V = TableView<A>;

    closed spec fn view(&self) -> TableView<A> {
        TableView {
            channels: self.client_id_to_channels@,
            sessions: self.client_id_to_session.texts(),
            owners: self.session_size_owner.texts(),
        }
    }
}

impl<A> ConnectionTable<A> {
    /// A table without clients.
    pub fn new() -> (table: Self)
        ensures
            table@ == TableView::<A>::empty(),
    {
        let table = ConnectionTable {
            client_id_to_channels: StringMap::new(),
            client_id_to_session: StringMap::new(),
            session_size_owner: StringMap::new(),
        };
        assert(table@ =~= TableView::empty());
        table
    }

    /// Adds a client whose sockets are not open yet.
    pub fn add_new_client(&mut self, client_id: String, client_os_api: A)
        ensures
            final(self)@ == old(self)@.with_channels(
                client_id@,
                ClientChannels::unopened(client_os_api),
            ),
    {
        self.client_id_to_channels.insert(client_id, ClientChannels::new(client_os_api));
    }

    /// Records the channel to a client's control socket; a client that is not in the table is
    /// passed over.
    pub fn add_client_control_tx(
        &mut self,
        client_id: &str,
        control_channel_tx: UnboundedSender<Message>,
    )
        ensures
            final(self)@ == old(self)@.with_control_tx(client_id@, control_channel_tx),
    {
        if let Some(mut channels) = self.client_id_to_channels.remove(client_id) {
            channels.add_control_tx(control_channel_tx);
            self.client_id_to_channels.insert(client_id.to_owned(), channels);
        }
        assert(self@ =~= old(self)@.with_control_tx(client_id@, control_channel_tx));
    }

    /// Records the channel to a client's terminal socket; a client that is not in the table is
    /// passed over.
    pub fn add_client_terminal_tx(
        &mut self,
        client_id: &str,
        terminal_channel_tx: UnboundedSender<String>,
    )
        ensures
            final(self)@ == old(self)@.with_terminal_tx(client_id@, terminal_channel_tx),
    {
        if let Some(mut channels) = self.client_id_to_channels.remove(client_id) {
            channels.add_terminal_tx(terminal_channel_tx);
            self.client_id_to_channels.insert(client_id.to_owned(), channels);
        }
        assert(self@ =~= old(self)@.with_terminal_tx(client_id@, terminal_channel_tx));
    }

    /// Records the token that stops a client's rendering task; a client that is not in the table
    /// is passed over.
    pub fn add_client_terminal_channel_cancellation_token(
        &mut self,
        client_id: &str,
        terminal_channel_cancellation_token: CancellationToken,
    )
        ensures
            final(self)@ == old(self)@.with_cancellation_token(
                client_id@,
                terminal_channel_cancellation_token,
            ),
    {
        if let Some(mut channels) = self.client_id_to_channels.remove(client_id) {
            channels.add_terminal_channel_cancellation_token(terminal_channel_cancellation_token);
            self.client_id_to_channels.insert(client_id.to_owned(), channels);
        }
        assert(self@ =~= old(self)@.with_cancellation_token(
            client_id@,
            terminal_channel_cancellation_token,
        ));
    }

    /// A client's connection to its session server.
    pub fn get_client_os_api(&self, client_id: &str) -> (os_api: Option<&A>)
        ensures
            match os_api {
                Some(api) => self@.channels.contains_key(client_id@) && *api
                    == self@.channels[client_id@].os_api,
                None => !self@.channels.contains_key(client_id@),
            },
    {
        match self.client_id_to_channels.get(client_id) {
            Some(channels) => Some(&channels.os_api),
            None => None,
        }
    }

    /// Another handle to the channel to a client's terminal socket.
    pub fn get_client_terminal_tx(&mut self, client_id: &str) -> (channel: Option<
        UnboundedSender<String>,
    >)
        ensures
            terminal_looked_up(
                old(self)@.terminal_tx(client_id@),
                final(self)@.terminal_tx(client_id@),
                channel,
            ),
            final(self)@ == old(self)@.with_terminal_handle(
                client_id@,
                final(self)@.terminal_tx(client_id@),
            ),
    {
        let mut copy: Option<UnboundedSender<String>> = None;
        if let Some(mut channels) = self.client_id_to_channels.remove(client_id) {
            if let Some(channel) = &mut channels.terminal_channel_tx {
                copy = Some(copy_terminal_handle(channel));
            }
            self.client_id_to_channels.insert(client_id.to_owned(), channels);
        }
        assert(self@ =~= old(self)@.with_terminal_handle(
            client_id@,
            self@.terminal_tx(client_id@),
        ));
        copy
    }

    /// Another handle to the channel to a client's control socket.
    pub fn get_client_control_tx(&mut self, client_id: &str) -> (channel: Option<
        UnboundedSender<Message>,
    >)
        ensures
            control_looked_up(
                old(self)@.control_tx(client_id@),
                final(self)@.control_tx(client_id@),
                channel,
            ),
            final(self)@ == old(self)@.with_control_handle(
                client_id@,
                final(self)@.control_tx(client_id@),
            ),
    {
        let mut copy: Option<UnboundedSender<Message>> = None;
        if let Some(mut channels) = self.client_id_to_channels.remove(client_id) {
            if let Some(channel) = &mut channels.control_channel_tx {
                copy = Some(copy_control_handle(channel));
            }
            self.client_id_to_channels.insert(client_id.to_owned(), channels);
        }
        assert(self@ =~= old(self)@.with_control_handle(client_id@, self@.control_tx(client_id@)));
        copy
    }

    /// Removes a client, cancels its rendering task, and lets go of the sessions whose size it
    /// decided, so that the remaining clients can resize again. The result is what is left of the
    /// client.
    pub fn remove_client(&mut self, client_id: &str) -> (removed: Option<RemovedClient<A>>)
        ensures
            final(self)@ == old(self)@.without_client(client_id@),
            is_removal_of(removed, old(self)@.client(client_id@)),
    {
        let removed = match self.client_id_to_channels.remove(client_id) {
            Some(mut channels) => {
                let cancelled = channels.cleanup();
                Some(RemovedClient { channels, cancelled })
            },
            None => None,
        };
        self.client_id_to_session.remove(client_id);
        self.session_size_owner.remove_value(client_id);
        assert(self@ =~= old(self)@.without_client(client_id@));
        removed
    }

    /// Attaches a client to a session.
    pub fn set_client_session(&mut self, client_id: &str, session_name: String)
        ensures
            final(self)@ == old(self)@.with_session(client_id@, session_name@),
    {
        self.client_id_to_session.insert(client_id.to_owned(), session_name);
        assert(self@ =~= old(self)@.with_session(client_id@, session_name@));
    }

    /// Makes `requester_id` the size owner of its session: every other client of that session now
    /// mirrors the owner's size and can no longer change it, see [`Self::resize_allowed`]. Clients
    /// are not detached; they stay attached and follow the owner's size. Returns the number of
    /// other clients of the session. A client without a session changes nothing.
    pub fn claim_session_size_owner(&mut self, requester_id: &str) -> (others: usize)
        ensures
            final(self)@ == old(self)@.with_owner(requester_id@),
            others == old(self)@.peers(requester_id@).len(),
    {
        let session = match self.client_id_to_session.get(requester_id) {
            Some(session) => session.clone(),
            None => return 0,
        };
        let others = self.client_id_to_session.count_others(requester_id, session.as_str());
        self.session_size_owner.insert(session, requester_id.to_owned());
        assert(self@ =~= old(self)@.with_owner(requester_id@));
        others
    }

    /// Whether a client may resize its session: it may when the session has no size owner, or when
    /// it is the owner itself. A client whose session is not known may resize.
    pub fn resize_allowed(&self, client_id: &str) -> (allowed: bool)
        ensures
            allowed == self@.may_resize(client_id@),
    {
        match self.client_id_to_session.get(client_id) {
            None => true,
            Some(session) => match self.session_size_owner.get(session.as_str()) {
                Some(owner) => *owner == client_id.to_owned(),
                None => true,
            },
        }
    }
}

} // verus!
