//! The sending side of one client's connection.

use crate::channel::{
    control_lent, control_sender_channel, control_uses, send_control_close, send_control_text,
    send_terminal_text, terminal_lent, terminal_sender_channel, terminal_uses, ControlFrame,
    HandleUse,
};
use crate::connection_table::{
    control_looked_up, is_removal_of, terminal_looked_up, ConnectionTable, RemovedClient,
};
use axum::extract::ws::Message;
use tokio::sync::mpsc::UnboundedSender;
use vstd::prelude::*;

verus! {

/// The close code of a connection that has served its purpose.
pub const NORMAL_CLOSE_CODE: u16 = 1000;

/// What became of a message to a client.
#[derive(Debug, Clone, Copy, PartialEq, Eq, Structural)]
pub enum Delivery {
    /// It was put into the client's channel.
    Sent,
    /// The client's channel has no receiver any more.
    Refused,
    /// The client has no channel for it.
    NoChannel,
}

impl Delivery {
    /// What became of a message that was handed to a channel.
    pub fn of_send(accepted: bool) -> (delivery: Delivery)
        ensures
            delivery == if accepted {
                Delivery::Sent
            } else {
                Delivery::Refused
            },
    {
        if accepted {
            Delivery::Sent
        } else {
            Delivery::Refused
        }
    }
}

/// The text was handed to the channel of this handle once, the handle was used for nothing else,
/// and the delivery says whether the channel took the text.
pub open spec fn terminal_handed(
    before: UnboundedSender<String>,
    after: UnboundedSender<String>,
    text: Seq<char>,
    delivery: Delivery,
) -> bool {
    &&& delivery != Delivery::NoChannel
    &&& terminal_uses(after) == terminal_uses(before).push(
        HandleUse::Offered(text, delivery == Delivery::Sent),
    )
    &&& terminal_sender_channel(after) == terminal_sender_channel(before)
}

/// The frame was handed to the channel of this handle once, the handle was used for nothing else,
/// and the delivery says whether the channel took the frame.
pub open spec fn control_handed(
    before: UnboundedSender<Message>,
    after: UnboundedSender<Message>,
    frame: ControlFrame,
    delivery: Delivery,
) -> bool {
    &&& delivery != Delivery::NoChannel
    &&& control_uses(after) == control_uses(before).push(
        HandleUse::Offered(frame, delivery == Delivery::Sent),
    )
    &&& control_sender_channel(after) == control_sender_channel(before)
}

/// How the handle that a bus keeps and the one that the table lists for its client stand before
/// and after the delivery of `text`. A kept handle gets the text, and the listed one is left alone.
/// Where none is kept, a copy of the listed one gets the text and is kept; the listed one is used
/// for the copying alone. Where there is neither, nothing happens.
pub open spec fn terminal_delivery(
    kept_before: Option<UnboundedSender<String>>,
    kept_after: Option<UnboundedSender<String>>,
    listed_before: Option<UnboundedSender<String>>,
    listed_after: Option<UnboundedSender<String>>,
    text: Seq<char>,
    delivery: Delivery,
) -> bool {
    match kept_before {
        Some(kept) => {
            &&& listed_after == listed_before
            &&& kept_after matches Some(used) && terminal_handed(kept, used, text, delivery)
        },
        None => match listed_before {
            Some(listed) => {
                &&& listed_after matches Some(lender) && terminal_lent(listed, lender)
                &&& delivery != Delivery::NoChannel
                &&& kept_after matches Some(used)
                &&& terminal_uses(used) == seq![
                    HandleUse::Offered(text, delivery == Delivery::Sent),
                ]
                &&& terminal_sender_channel(used) == terminal_sender_channel(listed)
            },
            None => {
                &&& listed_after is None
                &&& kept_after is None
                &&& delivery == Delivery::NoChannel
            },
        },
    }
}

/// How the handle that a bus keeps and the one that the table lists for its client stand before
/// and after the delivery of `frame`. A kept handle gets the frame, and the listed one is left
/// alone. Where none is kept, a copy of the listed one gets the frame and is kept; the listed one
/// is used for the copying alone. Where there is neither, nothing happens.
pub open spec fn control_delivery(
    kept_before: Option<UnboundedSender<Message>>,
    kept_after: Option<UnboundedSender<Message>>,
    listed_before: Option<UnboundedSender<Message>>,
    listed_after: Option<UnboundedSender<Message>>,
    frame: ControlFrame,
    delivery: Delivery,
) -> bool {
    match kept_before {
        Some(kept) => {
            &&& listed_after == listed_before
            &&& kept_after matches Some(used) && control_handed(kept, used, frame, delivery)
        },
        None => match listed_before {
            Some(listed) => {
                &&& listed_after matches Some(lender) && control_lent(listed, lender)
                &&& delivery != Delivery::NoChannel
                &&& kept_after matches Some(used)
                &&& control_uses(used) == seq![
                    HandleUse::Offered(frame, delivery == Delivery::Sent),
                ]
                &&& control_sender_channel(used) == control_sender_channel(listed)
            },
            None => {
                &&& listed_after is None
                &&& kept_after is None
                &&& delivery == Delivery::NoChannel
            },
        },
    }
}

/// Sends messages to one client. A channel is looked up in the connection table when it is first
/// needed, and kept from then on.
pub struct ClientConnectionBus {
    pub web_client_id: String,
    pub stdout_channel_tx: Option<UnboundedSender<String>>,
    pub control_channel_tx: Option<UnboundedSender<Message>>,
}

impl ClientConnectionBus {
    /// A bus that has looked up no channel yet.
    pub fn new(web_client_id: String) -> (bus: Self)
        ensures
            bus.web_client_id == web_client_id,
            bus.stdout_channel_tx is None,
            bus.control_channel_tx is None,
    {
        ClientConnectionBus { web_client_id, stdout_channel_tx: None, control_channel_tx: None }
    }

    /// Sends terminal output to the client.
    pub fn send_stdout<A>(&mut self, table: &mut ConnectionTable<A>, stdout: String) -> (delivery:
        Delivery)
        ensures
            terminal_delivery(
                old(self).stdout_channel_tx,
                final(self).stdout_channel_tx,
                old(table)@.terminal_tx(old(self).web_client_id@),
                final(table)@.terminal_tx(old(self).web_client_id@),
                stdout@,
                delivery,
            ),
            final(table)@ == old(table)@.with_terminal_handle(
                old(self).web_client_id@,
                final(table)@.terminal_tx(old(self).web_client_id@),
            ),
            old(self).stdout_channel_tx is Some ==> final(table)@ == old(table)@,
            final(self).web_client_id == old(self).web_client_id,
            final(self).control_channel_tx == old(self).control_channel_tx,
    {
        if self.stdout_channel_tx.is_none() {
            self.get_stdout_channel_tx(table);
        }
        assert(table@ =~= old(table)@.with_terminal_handle(
            self.web_client_id@,
            table@.terminal_tx(self.web_client_id@),
        ));
        match &mut self.stdout_channel_tx {
            Some(channel) => Delivery::of_send(send_terminal_text(channel, stdout)),
            None => Delivery::NoChannel,
        }
    }

    /// Sends a control message, already written out as text, to the client.
    pub fn send_control<A>(&mut self, table: &mut ConnectionTable<A>, message: String) -> (delivery:
        Delivery)
        ensures
            control_delivery(
                old(self).control_channel_tx,
                final(self).control_channel_tx,
                old(table)@.control_tx(old(self).web_client_id@),
                final(table)@.control_tx(old(self).web_client_id@),
                ControlFrame::Text(message@),
                delivery,
            ),
            final(table)@ == old(table)@.with_control_handle(
                old(self).web_client_id@,
                final(table)@.control_tx(old(self).web_client_id@),
            ),
            old(self).control_channel_tx is Some ==> final(table)@ == old(table)@,
            final(self).web_client_id == old(self).web_client_id,
            final(self).stdout_channel_tx == old(self).stdout_channel_tx,
    {
        if self.control_channel_tx.is_none() {
            self.get_control_channel_tx(table);
        }
        assert(table@ =~= old(table)@.with_control_handle(
            self.web_client_id@,
            table@.control_tx(self.web_client_id@),
        ));
        match &mut self.control_channel_tx {
            Some(channel) => Delivery::of_send(send_control_text(channel, message)),
            None => Delivery::NoChannel,
        }
    }

    /// Tells the client that the connection is closed, and removes it from the table. The result
    /// is what became of the message, and what is left of the client.
    pub fn close_connection<A>(&mut self, table: &mut ConnectionTable<A>) -> (closed: (
        Delivery,
        Option<RemovedClient<A>>,
    ))
        ensures
            control_delivery(
                old(self).control_channel_tx,
                final(self).control_channel_tx,
                old(table)@.control_tx(old(self).web_client_id@),
                RemovedClient::control_tx_of(closed.1),
                ControlFrame::Close(NORMAL_CLOSE_CODE, "Connection closed"@),
                closed.0,
            ),
            is_removal_of(
                closed.1,
                old(table)@.with_control_handle(
                    old(self).web_client_id@,
                    RemovedClient::control_tx_of(closed.1),
                ).client(old(self).web_client_id@),
            ),
            final(table)@ == old(table)@.without_client(old(self).web_client_id@),
            final(self).web_client_id == old(self).web_client_id,
            final(self).stdout_channel_tx == old(self).stdout_channel_tx,
    {
        if self.control_channel_tx.is_none() {
            self.get_control_channel_tx(table);
        }
        let ghost lent = table@;
        assert(lent =~= old(table)@.with_control_handle(
            self.web_client_id@,
            lent.control_tx(self.web_client_id@),
        ));
        let reason = "Connection closed".to_owned();
        let delivery = match &mut self.control_channel_tx {
            Some(channel) => Delivery::of_send(
                send_control_close(channel, NORMAL_CLOSE_CODE, reason),
            ),
            None => Delivery::NoChannel,
        };
        let removed = table.remove_client(self.web_client_id.as_str());
        assert(lent.without_client(self.web_client_id@) =~= old(table)@.without_client(
            self.web_client_id@,
        ));
        (delivery, removed)
    }

    /// Keeps a copy of the control handle that the table lists for the client, if it lists one.
    fn get_control_channel_tx<A>(&mut self, table: &mut ConnectionTable<A>)
        ensures
            match old(table)@.control_tx(old(self).web_client_id@) {
                Some(_) => control_looked_up(
                    old(table)@.control_tx(old(self).web_client_id@),
                    final(table)@.control_tx(old(self).web_client_id@),
                    final(self).control_channel_tx,
                ),
                None => {
                    &&& final(self).control_channel_tx == old(self).control_channel_tx
                    &&& final(table)@.control_tx(old(self).web_client_id@) is None
                },
            },
            final(table)@ == old(table)@.with_control_handle(
                old(self).web_client_id@,
                final(table)@.control_tx(old(self).web_client_id@),
            ),
            final(self).web_client_id == old(self).web_client_id,
            final(self).stdout_channel_tx == old(self).stdout_channel_tx,
    {
        if let Some(channel) = table.get_client_control_tx(self.web_client_id.as_str()) {
            self.control_channel_tx = Some(channel);
        }
    }

    /// Keeps a copy of the terminal handle that the table lists for the client, if it lists one.
    fn get_stdout_channel_tx<A>(&mut self, table: &mut ConnectionTable<A>)
        ensures
            match old(table)@.terminal_tx(old(self).web_client_id@) {
                Some(_) => terminal_looked_up(
                    old(table)@.terminal_tx(old(self).web_client_id@),
                    final(table)@.terminal_tx(old(self).web_client_id@),
                    final(self).stdout_channel_tx,
                ),
                None => {
                    &&& final(self).stdout_channel_tx == old(self).stdout_channel_tx
                    &&& final(table)@.terminal_tx(old(self).web_client_id@) is None
                },
            },
            final(table)@ == old(table)@.with_terminal_handle(
                old(self).web_client_id@,
                final(table)@.terminal_tx(old(self).web_client_id@),
            ),
            final(self).web_client_id == old(self).web_client_id,
            final(self).control_channel_tx == old(self).control_channel_tx,
    {
        if let Some(channel) = table.get_client_terminal_tx(self.web_client_id.as_str()) {
            self.stdout_channel_tx = Some(channel);
        }
    }
}

} // verus!
