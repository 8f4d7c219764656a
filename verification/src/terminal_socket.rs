//! What the server does with the messages that arrive on a client's terminal socket.

use crate::channel::{
    copy_token, new_token, terminal_channel, terminal_receiver_channel, terminal_sender_channel,
    terminal_uses, HandleUse,
};
use crate::connection_table::{is_removal_of, ConnectionTable, RemovedClient, TableView};
use crate::control_socket::ClientToServerMsg;
use tokio::sync::mpsc::{UnboundedReceiver, UnboundedSender};
use tokio_util::sync::CancellationToken;
use vstd::prelude::*;

verus! {

/// What a terminal socket yields.
pub enum TerminalEvent {
    /// A text: what the user typed.
    Text(String),
    /// The message that closes the socket.
    Close,
    /// A message that is neither a text nor the closing one.
    Unsupported,
    /// Nothing more: the socket ended or failed.
    Ended,
}

/// What the server does about a [`TerminalEvent`]. `A` is a client's connection to its session
/// server.
pub enum TerminalAction<'a, A, S, P> {
    /// Reads the text as input of the client.
    ParseStdin(String),
    /// Reports that the client is no longer in the table, and goes on.
    UnknownClient,
    /// Reports a message of a kind that terminal sockets do not carry, and goes on.
    ReportUnsupported,
    /// Stops reading the socket, and sends a message to the session server over this connection.
    /// Holds what is left of the client where it was removed.
    Exit(&'a A, ClientToServerMsg<S, P>, Option<RemovedClient<A>>),
}

/// One open terminal socket.
pub struct TerminalSocket<A> {
    /// The client at the other end.
    pub web_client_id: String,
    /// The connection to the session server that the client had when the socket opened.
    pub os_api: A,
}

/// The table after a client's terminal socket opened, on a session if it named one.
pub open spec fn attached<A>(
    table: TableView<A>,
    client_id: Seq<char>,
    channel: UnboundedSender<String>,
    session_name: Option<String>,
) -> TableView<A> {
    match session_name {
        Some(session) => table.with_terminal_tx(client_id, channel).with_session(
            client_id,
            session@,
        ),
        None => table.with_terminal_tx(client_id, channel),
    }
}

/// How an event is handled: what the table is afterwards, and what is done. Only the closing
/// message removes the client from the table.
pub open spec fn handled<A, S, P>(
    socket: TerminalSocket<A>,
    table: TableView<A>,
    event: TerminalEvent,
    table_after: TableView<A>,
    action: TerminalAction<A, S, P>,
) -> bool {
    let id = socket.web_client_id@;
    match event {
        TerminalEvent::Text(text) => {
            &&& table_after == table
            &&& if table.channels.contains_key(id) {
                action == TerminalAction::<A, S, P>::ParseStdin(text)
            } else {
                action is UnknownClient
            }
        },
        TerminalEvent::Close => {
            &&& table_after == table.without_client(id)
            &&& action matches TerminalAction::Exit(os_api, message, removed)
            &&& *os_api == socket.os_api
            &&& message is ClientExited
            &&& is_removal_of(removed, table.client(id))
        },
        TerminalEvent::Unsupported => {
            &&& table_after == table
            &&& action is ReportUnsupported
        },
        TerminalEvent::Ended => {
            &&& table_after == table
            &&& action matches TerminalAction::Exit(os_api, message, removed)
            &&& *os_api == socket.os_api
            &&& message is ClientExited
            &&& removed is None
        },
    }
}

impl<A> TerminalSocket<A> {
    /// Opens the terminal socket of a client with a new channel: records the channel and the
    /// session that the client attaches to, and remembers the client's connection to its session
    /// server. The second part of the result is where the channel's output comes out. A socket of
    /// a client that is not in the table is not opened.
    pub fn open(
        table: &mut ConnectionTable<A>,
        web_client_id: String,
        session_name: Option<String>,
    ) -> (socket: Option<(TerminalSocket<A>, UnboundedReceiver<String>)>) where A: Clone
        ensures
            match socket {
                Some(opened) => {
                    &&& old(table)@.channels.contains_key(web_client_id@)
                    &&& opened.0.web_client_id == web_client_id
                    &&& cloned(old(table)@.channels[web_client_id@].os_api, opened.0.os_api)
                    &&& final(table)@.terminal_tx(web_client_id@) matches Some(channel)
                    &&& terminal_uses(channel) == Seq::<HandleUse<Seq<char>>>::empty()
                    &&& terminal_receiver_channel(opened.1) == terminal_sender_channel(channel)
                    &&& final(table)@ == attached(
                        old(table)@,
                        web_client_id@,
                        channel,
                        session_name,
                    )
                },
                None => {
                    &&& !old(table)@.channels.contains_key(web_client_id@)
                    &&& final(table)@ == old(table)@
                },
            },
    {
        let os_api = match table.get_client_os_api(web_client_id.as_str()) {
            Some(os_api) => os_api.clone(),
            None => return None,
        };
        let (terminal_channel_tx, terminal_channel_rx) = terminal_channel();
        table.add_client_terminal_tx(web_client_id.as_str(), terminal_channel_tx);
        if let Some(session) = session_name {
            table.set_client_session(web_client_id.as_str(), session);
        }
        Some((TerminalSocket { web_client_id, os_api }, terminal_channel_rx))
    }

    /// Makes the token that stops the client's rendering task, and records it. A client that is no
    /// longer in the table is passed over.
    pub fn start_rendering(&self, table: &mut ConnectionTable<A>) -> (token: CancellationToken)
        ensures
            final(table)@ == old(table)@.with_cancellation_token(self.web_client_id@, token),
    {
        let token = new_token();
        table.add_client_terminal_channel_cancellation_token(
            self.web_client_id.as_str(),
            copy_token(&token),
        );
        token
    }

    /// Handles what the socket yields.
    pub fn handle<'a, S, P>(
        &'a self,
        table: &mut ConnectionTable<A>,
        event: TerminalEvent,
    ) -> (action: TerminalAction<'a, A, S, P>)
        ensures
            handled(*self, old(table)@, event, final(table)@, action),
    {
        match event {
            TerminalEvent::Text(text) => {
                if table.get_client_os_api(self.web_client_id.as_str()).is_some() {
                    TerminalAction::ParseStdin(text)
                } else {
                    TerminalAction::UnknownClient
                }
            },
            TerminalEvent::Close => {
                let removed = table.remove_client(self.web_client_id.as_str());
                TerminalAction::Exit(&self.os_api, ClientToServerMsg::ClientExited, removed)
            },
            TerminalEvent::Unsupported => TerminalAction::ReportUnsupported,
            TerminalEvent::Ended => {
                TerminalAction::Exit(&self.os_api, ClientToServerMsg::ClientExited, None)
            },
        }
    }
}

/// Whether input is to be read without the kitty keyboard protocol: only where the configuration
/// says that it is not supported.
pub fn explicitly_disable_kitty_keyboard_protocol(
    support_kitty_keyboard_protocol: Option<bool>,
) -> (disabled: bool)
    ensures
        disabled == (support_kitty_keyboard_protocol == Some(false)),
{
    match support_kitty_keyboard_protocol {
        Some(supported) => !supported,
        None => false,
    }
}

} // verus!
