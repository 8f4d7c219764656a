//! What the server does with the messages that arrive on a client's control socket.

use crate::channel::{
    control_channel, control_lent, control_receiver_channel, control_sender_channel, control_uses,
    copy_control_handle, fresh_control_copy, send_control_text, ControlFrame, HandleUse,
};
use crate::connection_bus::{control_handed, Delivery};
use crate::connection_table::{ConnectionTable, TableView};
use axum::extract::ws::Message;
use tokio::sync::mpsc::{UnboundedReceiver, UnboundedSender};
use vstd::prelude::*;

verus! {

/// What a client asks for. `S` is a terminal size, `P` are pixel dimensions; both are passed on
/// as they came.
pub enum WebClientToWebServerControlMessagePayload<S, P> {
    /// The client's terminal has a new size.
    TerminalResize(S),
    /// The client's terminal has new pixel dimensions.
    TerminalPixelDimensions(P),
    /// The client wants to decide the size of its session alone.
    DetachOtherClients,
}

/// A control message, and the client that it comes from.
pub struct WebClientToWebServerControlMessage<S, P> {
    pub web_client_id: String,
    pub payload: WebClientToWebServerControlMessagePayload<S, P>,
}

/// What the web server tells the session server on behalf of a client.
pub enum ClientToServerMsg<S, P> {
    /// The client's terminal has a new size.
    TerminalResize(S),
    /// The client's terminal has new pixel dimensions.
    TerminalPixelDimensions(P),
    /// The client is gone.
    ClientExited,
}

/// What a control socket yields.
pub enum ControlEvent<S, P> {
    /// A text that holds a control message.
    Message(WebClientToWebServerControlMessage<S, P>),
    /// A text that holds none.
    Undecodable,
    /// The message that closes the socket.
    Close,
    /// A message that is neither a text nor the closing one.
    Unsupported,
    /// Nothing more: the socket ended or failed.
    Ended,
}

/// What the server does about a [`ControlEvent`].
pub enum ControlAction<S, P> {
    /// Sends a message to the session server over the connection of the client with this id.
    Forward(String, ClientToServerMsg<S, P>),
    /// Nothing: the client may not resize its session.
    Mirror,
    /// Nothing more: the client now decides the size of its session, and this many other clients
    /// mirror it.
    Claimed(usize),
    /// Reports that no client has the id of the message.
    UnknownClient,
    /// Reports a text that holds no control message.
    ReportUndecodable,
    /// Reports a message of a kind that control sockets do not carry.
    ReportUnsupported,
    /// Stops reading the socket.
    Stop,
}

/// How a message is routed: what the table is afterwards, and what is done.
pub open spec fn routed<A, S, P>(
    before: TableView<A>,
    message: WebClientToWebServerControlMessage<S, P>,
    after: TableView<A>,
    action: ControlAction<S, P>,
) -> bool {
    let id = message.web_client_id;
    if !before.channels.contains_key(id@) {
        &&& after == before
        &&& action == ControlAction::<S, P>::UnknownClient
    } else {
        match message.payload {
            WebClientToWebServerControlMessagePayload::TerminalResize(size) => {
                &&& after == before
                &&& action == if before.may_resize(id@) {
                    ControlAction::Forward(id, ClientToServerMsg::<S, P>::TerminalResize(size))
                } else {
                    ControlAction::Mirror
                }
            },
            WebClientToWebServerControlMessagePayload::TerminalPixelDimensions(dimensions) => {
                &&& after == before
                &&& action == ControlAction::Forward(
                    id,
                    ClientToServerMsg::<S, P>::TerminalPixelDimensions(dimensions),
                )
            },
            WebClientToWebServerControlMessagePayload::DetachOtherClients => {
                &&& after == before.with_owner(id@)
                &&& action matches ControlAction::Claimed(others)
                &&& others == before.peers(id@).len()
            },
        }
    }
}

/// Decides what becomes of a control message. A resize by a client that is not the size owner of
/// its session is dropped, so that it mirrors the owner and cannot change the owner's size.
pub fn route_control_message<A, S, P>(
    table: &mut ConnectionTable<A>,
    message: WebClientToWebServerControlMessage<S, P>,
) -> (action: ControlAction<S, P>)
    ensures
        routed(old(table)@, message, final(table)@, action),
{
    let WebClientToWebServerControlMessage { web_client_id, payload } = message;
    if table.get_client_os_api(web_client_id.as_str()).is_none() {
        return ControlAction::UnknownClient;
    }
    match payload {
        WebClientToWebServerControlMessagePayload::TerminalResize(size) => {
            if table.resize_allowed(web_client_id.as_str()) {
                ControlAction::Forward(web_client_id, ClientToServerMsg::TerminalResize(size))
            } else {
                ControlAction::Mirror
            }
        },
        WebClientToWebServerControlMessagePayload::TerminalPixelDimensions(dimensions) => {
            ControlAction::Forward(
                web_client_id,
                ClientToServerMsg::TerminalPixelDimensions(dimensions),
            )
        },
        WebClientToWebServerControlMessagePayload::DetachOtherClients => {
            ControlAction::Claimed(table.claim_session_size_owner(web_client_id.as_str()))
        },
    }
}

/// One open control socket.
pub struct ControlSocket {
    /// The channel to the socket.
    pub control_channel_tx: UnboundedSender<Message>,
    /// Whether the channel has been handed to the connection table.
    pub set_client_control_channel: bool,
}

/// How an event is handled: what the socket and the table are afterwards, and what is done. The
/// first message makes one copy of the handle to the socket's channel and records it for the client
/// that the message came from; no other event uses the handle, and none puts anything into the
/// channel.
pub open spec fn handled<A, S, P>(
    socket: ControlSocket,
    table: TableView<A>,
    copy: UnboundedSender<Message>,
    event: ControlEvent<S, P>,
    socket_after: ControlSocket,
    table_after: TableView<A>,
    action: ControlAction<S, P>,
) -> bool {
    match event {
        ControlEvent::Message(message) => {
            if socket.set_client_control_channel {
                &&& socket_after == socket
                &&& routed(table, message, table_after, action)
            } else {
                &&& socket_after.set_client_control_channel
                &&& control_lent(socket.control_channel_tx, socket_after.control_channel_tx)
                &&& fresh_control_copy(copy, socket.control_channel_tx)
                &&& routed(
                    table.with_control_tx(message.web_client_id@, copy),
                    message,
                    table_after,
                    action,
                )
            }
        },
        ControlEvent::Undecodable => {
            &&& socket_after == socket
            &&& table_after == table
            &&& action is ReportUndecodable
        },
        ControlEvent::Unsupported => {
            &&& socket_after == socket
            &&& table_after == table
            &&& action is ReportUnsupported
        },
        ControlEvent::Close | ControlEvent::Ended => {
            &&& socket_after == socket
            &&& table_after == table
            &&& action is Stop
        },
    }
}

impl ControlSocket {
    /// Opens a socket with a new channel, not recorded for any client yet; the second part of the
    /// result is where the channel's messages come out.
    pub fn open() -> (opened: (ControlSocket, UnboundedReceiver<Message>))
        ensures
            control_uses(opened.0.control_channel_tx) == Seq::<HandleUse<ControlFrame>>::empty(),
            control_receiver_channel(opened.1) == control_sender_channel(
                opened.0.control_channel_tx,
            ),
            !opened.0.set_client_control_channel,
    {
        let (control_channel_tx, control_channel_rx) = control_channel();
        (ControlSocket { control_channel_tx, set_client_control_channel: false }, control_channel_rx)
    }

    /// Sends the client its configuration, already written out as text.
    pub fn send_config(&mut self, set_config_msg: String) -> (delivery: Delivery)
        ensures
            control_handed(
                old(self).control_channel_tx,
                final(self).control_channel_tx,
                ControlFrame::Text(set_config_msg@),
                delivery,
            ),
            final(self).set_client_control_channel == old(self).set_client_control_channel,
    {
        Delivery::of_send(send_control_text(&mut self.control_channel_tx, set_config_msg))
    }

    /// Handles what the socket yields.
    pub fn handle<A, S, P>(
        &mut self,
        table: &mut ConnectionTable<A>,
        event: ControlEvent<S, P>,
    ) -> (action: ControlAction<S, P>)
        ensures
            exists|copy: UnboundedSender<Message>|
                handled(
                    *old(self),
                    old(table)@,
                    copy,
                    event,
                    *final(self),
                    final(table)@,
                    action,
                ),
    {
        let ghost mut copied = self.control_channel_tx;
        let action = match event {
            ControlEvent::Message(message) => {
                if !self.set_client_control_channel {
                    self.set_client_control_channel = true;
                    let copy = copy_control_handle(&mut self.control_channel_tx);
                    proof {
                        copied = copy;
                    }
                    table.add_client_control_tx(message.web_client_id.as_str(), copy);
                }
                route_control_message(table, message)
            },
            ControlEvent::Undecodable => ControlAction::ReportUndecodable,
            ControlEvent::Unsupported => ControlAction::ReportUnsupported,
            ControlEvent::Close => ControlAction::Stop,
            ControlEvent::Ended => ControlAction::Stop,
        };
        assert(handled(*old(self), old(table)@, copied, event, *self, table@, action));
        action
    }
}

} // verus!
