//! What each operation changes and what it leaves, field by field.

use crate::channel::{
    control_sender_channel, control_sent, control_uses, lemma_taken_push, taken,
    terminal_sender_channel, terminal_sent, terminal_uses, ControlFrame, HandleUse,
};
use crate::connection_bus::{
    control_delivery, control_handed, terminal_delivery, terminal_handed, Delivery,
};
use crate::connection_table::{
    control_looked_up, is_removal_of, terminal_looked_up, ClientChannels, RemovedClient, TableView,
};
use crate::control_socket::{
    routed, ClientToServerMsg, ControlAction, ControlEvent, ControlSocket,
    WebClientToWebServerControlMessage, WebClientToWebServerControlMessagePayload,
};
use crate::terminal_socket::{attached, TerminalAction, TerminalEvent, TerminalSocket};
use crate::web_server::{
    instructed, shutdown_failure, shutdown_target, socket_paths, sockets_or_failure, DirEntry,
    QueryStage, ServerEntry,
};
use axum::extract::ws::Message;
use tokio::sync::mpsc::UnboundedSender;
use tokio_util::sync::CancellationToken;
use vstd::prelude::*;

verus! {

/// A new table has no clients, attaches no one, and keeps no one from resizing.
pub proof fn law_new_table_is_empty<A>(client: Seq<char>, session: Seq<char>)
    ensures
        !TableView::<A>::empty().channels.contains_key(client),
        !TableView::<A>::empty().sessions.contains_key(client),
        !TableView::<A>::empty().owners.contains_key(session),
        TableView::<A>::empty().may_resize(client),
{
}

/// Adding a client makes it known with its connection and nothing else. No one else notices, and
/// sessions and size owners stay as they are, also those of the client.
pub proof fn law_adding_a_client<A>(
    table: TableView<A>,
    client: Seq<char>,
    other: Seq<char>,
    os_api: A,
)
    ensures
        ({
            let after = table.with_channels(client, ClientChannels::unopened(os_api));
            &&& after.channels.contains_key(client)
            &&& after.channels[client].os_api == os_api
            &&& after.channels[client].control_channel_tx is None
            &&& after.channels[client].terminal_channel_tx is None
            &&& after.channels[client].terminal_channel_cancellation_token is None
            &&& other != client ==> after.channels.contains_key(other)
                == table.channels.contains_key(other)
            &&& other != client && table.channels.contains_key(other) ==> after.channels[other]
                == table.channels[other]
            &&& after.sessions == table.sessions
            &&& after.owners == table.owners
        }),
{
}

/// Recording the channel to a client's control socket changes that and nothing else: not its
/// connection, its terminal channel or its token, no other client, no session and no size owner.
/// For a client that is not in the table nothing changes.
pub proof fn law_recording_a_control_channel<A>(
    table: TableView<A>,
    client: Seq<char>,
    other: Seq<char>,
    control: UnboundedSender<Message>,
)
    ensures
        ({
            let after = table.with_control_tx(client, control);
            &&& table.channels.contains_key(client) ==> {
                &&& after.channels[client].control_channel_tx == Some(control)
                &&& after.channels[client].os_api == table.channels[client].os_api
                &&& after.channels[client].terminal_channel_tx
                    == table.channels[client].terminal_channel_tx
                &&& after.channels[client].terminal_channel_cancellation_token
                    == table.channels[client].terminal_channel_cancellation_token
            }
            &&& !table.channels.contains_key(client) ==> after == table
            &&& after.channels.contains_key(other) == table.channels.contains_key(other)
            &&& other != client && table.channels.contains_key(other) ==> after.channels[other]
                == table.channels[other]
            &&& after.sessions == table.sessions
            &&& after.owners == table.owners
            &&& after.terminal_tx(other) == table.terminal_tx(other)
            &&& after.cancellation_token(other) == table.cancellation_token(other)
        }),
{
}

/// Recording the channel to a client's terminal socket changes that and nothing else: not its
/// connection, its control channel or its token, no other client, no session and no size owner.
/// For a client that is not in the table nothing changes.
pub proof fn law_recording_a_terminal_channel<A>(
    table: TableView<A>,
    client: Seq<char>,
    other: Seq<char>,
    terminal: UnboundedSender<String>,
)
    ensures
        ({
            let after = table.with_terminal_tx(client, terminal);
            &&& table.channels.contains_key(client) ==> {
                &&& after.channels[client].terminal_channel_tx == Some(terminal)
                &&& after.channels[client].os_api == table.channels[client].os_api
                &&& after.channels[client].control_channel_tx
                    == table.channels[client].control_channel_tx
                &&& after.channels[client].terminal_channel_cancellation_token
                    == table.channels[client].terminal_channel_cancellation_token
            }
            &&& !table.channels.contains_key(client) ==> after == table
            &&& after.channels.contains_key(other) == table.channels.contains_key(other)
            &&& other != client && table.channels.contains_key(other) ==> after.channels[other]
                == table.channels[other]
            &&& after.sessions == table.sessions
            &&& after.owners == table.owners
            &&& after.control_tx(other) == table.control_tx(other)
            &&& after.cancellation_token(other) == table.cancellation_token(other)
        }),
{
}

/// Recording the token that stops a client's rendering task changes that and nothing else: not its
/// connection or its channels, no other client, no session and no size owner. For a client that is
/// not in the table nothing changes.
pub proof fn law_recording_a_token<A>(
    table: TableView<A>,
    client: Seq<char>,
    other: Seq<char>,
    token: CancellationToken,
)
    ensures
        ({
            let after = table.with_cancellation_token(client, token);
            &&& table.channels.contains_key(client) ==> {
                &&& after.channels[client].terminal_channel_cancellation_token == Some(token)
                &&& after.channels[client].os_api == table.channels[client].os_api
                &&& after.channels[client].control_channel_tx
                    == table.channels[client].control_channel_tx
                &&& after.channels[client].terminal_channel_tx
                    == table.channels[client].terminal_channel_tx
            }
            &&& !table.channels.contains_key(client) ==> after == table
            &&& after.channels.contains_key(other) == table.channels.contains_key(other)
            &&& other != client && table.channels.contains_key(other) ==> after.channels[other]
                == table.channels[other]
            &&& after.sessions == table.sessions
            &&& after.owners == table.owners
            &&& after.terminal_tx(other) == table.terminal_tx(other)
            &&& after.control_tx(other) == table.control_tx(other)
        }),
{
}

/// Putting a handle in the place of the one that a table lists for a client is recording it;
/// without a handle nothing changes.
pub proof fn law_replacing_a_handle<A>(
    table: TableView<A>,
    client: Seq<char>,
    terminal: UnboundedSender<String>,
    control: UnboundedSender<Message>,
)
    ensures
        table.with_terminal_handle(client, None) == table,
        table.with_control_handle(client, None) == table,
        table.with_terminal_handle(client, Some(terminal)) == table.with_terminal_tx(
            client,
            terminal,
        ),
        table.with_control_handle(client, Some(control)) == table.with_control_tx(client, control),
{
}

/// What is read of a client is what its entry holds, and nothing where it has no entry.
pub proof fn law_reading_a_client<A>(table: TableView<A>, client: Seq<char>)
    ensures
        table.channels.contains_key(client) ==> {
            &&& table.client(client) == Some(table.channels[client])
            &&& table.terminal_tx(client) == table.channels[client].terminal_channel_tx
            &&& table.control_tx(client) == table.channels[client].control_channel_tx
            &&& table.cancellation_token(client)
                == table.channels[client].terminal_channel_cancellation_token
        },
        !table.channels.contains_key(client) ==> {
            &&& table.client(client) is None
            &&& table.terminal_tx(client) is None
            &&& table.control_tx(client) is None
            &&& table.cancellation_token(client) is None
        },
{
}

/// Attaching a client to a session changes the session of that client and nothing else: no size
/// owner, no channel, and no other client's session.
pub proof fn law_attaching_to_a_session<A>(
    table: TableView<A>,
    client: Seq<char>,
    other: Seq<char>,
    session: Seq<char>,
)
    ensures
        ({
            let after = table.with_session(client, session);
            &&& after.sessions.contains_key(client)
            &&& after.sessions[client] == session
            &&& other != client ==> after.sessions.contains_key(other)
                == table.sessions.contains_key(other)
            &&& other != client && table.sessions.contains_key(other) ==> after.sessions[other]
                == table.sessions[other]
            &&& other != client ==> after.may_resize(other) == table.may_resize(other)
            &&& after.owners == table.owners
            &&& after.channels == table.channels
        }),
{
}

/// A claim makes the claimant the size owner of its session, and changes nothing else: no other
/// session's owner, no session and no channel. Without a session it changes nothing.
pub proof fn law_claiming_a_size<A>(table: TableView<A>, client: Seq<char>, session: Seq<char>)
    ensures
        ({
            let after = table.with_owner(client);
            &&& table.sessions.contains_key(client) ==> {
                &&& after.owners.contains_key(table.sessions[client])
                &&& after.owners[table.sessions[client]] == client
            }
            &&& !(table.sessions.contains_key(client) && session == table.sessions[client]) ==> {
                &&& after.owners.contains_key(session) == table.owners.contains_key(session)
                &&& table.owners.contains_key(session) ==> after.owners[session]
                    == table.owners[session]
            }
            &&& !table.sessions.contains_key(client) ==> after == table
            &&& after.sessions == table.sessions
            &&& after.channels == table.channels
        }),
{
}

/// The peers of a client are the other clients attached to its session, and no one else.
pub proof fn law_peers_share_the_session<A>(
    table: TableView<A>,
    client: Seq<char>,
    other: Seq<char>,
)
    ensures
        table.peers(client).contains(other) <==> {
            &&& other != client
            &&& table.sessions.contains_key(client)
            &&& table.sessions.contains_key(other)
            &&& table.sessions[other] == table.sessions[client]
        },
        table.peers(client).contains(other) == table.peers(other).contains(client),
{
}

/// A client is kept from resizing exactly where it is attached to a session that another client
/// owns. Channels do not matter.
pub proof fn law_who_may_resize<A>(
    table: TableView<A>,
    client: Seq<char>,
    session: Seq<char>,
    owner: Seq<char>,
)
    ensures
        !table.sessions.contains_key(client) ==> table.may_resize(client),
        table.sessions.contains_key(client) && table.sessions[client] == session
            && !table.owners.contains_key(session) ==> table.may_resize(client),
        table.sessions.contains_key(client) && table.sessions[client] == session
            && table.owners.contains_key(session) && table.owners[session] == owner
            ==> table.may_resize(client) == (owner == client),
{
}

/// Removing a client takes away its entry, its session, and the sessions that it owned; every
/// other entry, session and owner stays as it is.
pub proof fn law_removing_a_client<A>(
    table: TableView<A>,
    client: Seq<char>,
    other: Seq<char>,
    session: Seq<char>,
)
    ensures
        ({
            let after = table.without_client(client);
            &&& !after.channels.contains_key(client)
            &&& !after.sessions.contains_key(client)
            &&& other != client ==> {
                &&& after.channels.contains_key(other) == table.channels.contains_key(other)
                &&& table.channels.contains_key(other) ==> after.channels[other]
                    == table.channels[other]
                &&& after.sessions.contains_key(other) == table.sessions.contains_key(other)
                &&& table.sessions.contains_key(other) ==> after.sessions[other]
                    == table.sessions[other]
                &&& table.may_resize(other) ==> after.may_resize(other)
            }
            &&& after.owners.contains_key(session) <==> table.owners.contains_key(session)
                && table.owners[session] != client
            &&& after.owners.contains_key(session) ==> after.owners[session]
                == table.owners[session]
        }),
{
}

/// What is left of a removed client is all that it had, with its token cancelled; nothing is left
/// of one that was not there.
pub proof fn law_removal_hands_back_the_client<A>(
    removed: Option<RemovedClient<A>>,
    had: Option<ClientChannels<A>>,
)
    requires
        is_removal_of(removed, had),
    ensures
        removed is Some == had is Some,
        removed matches Some(client) ==> {
            &&& client.channels.os_api == had->0.os_api
            &&& client.channels.control_channel_tx == had->0.control_channel_tx
            &&& client.channels.terminal_channel_tx == had->0.terminal_channel_tx
            &&& client.channels.terminal_channel_cancellation_token is None
            &&& client.cancelled is Some == had->0.terminal_channel_cancellation_token is Some
            &&& client.cancelled matches Some(cancelled) ==> cancelled.token()
                == had->0.terminal_channel_cancellation_token->0
            &&& RemovedClient::control_tx_of(removed) == had->0.control_channel_tx
        },
        removed is None ==> RemovedClient::control_tx_of(removed) is None,
{
}

/// Looking up a terminal channel gives a handle to the channel that is listed, unused, and leaves
/// the listed handle in its place, copied once; where none is listed there is none to give.
pub proof fn law_looking_up_a_terminal_channel(
    before: Option<UnboundedSender<String>>,
    after: Option<UnboundedSender<String>>,
    copy: Option<UnboundedSender<String>>,
)
    requires
        terminal_looked_up(before, after, copy),
    ensures
        copy is Some == before is Some,
        after is Some == before is Some,
        before matches Some(listed) ==> {
            &&& terminal_sender_channel(copy->0) == terminal_sender_channel(listed)
            &&& terminal_uses(copy->0).len() == 0
            &&& terminal_sender_channel(after->0) == terminal_sender_channel(listed)
            &&& terminal_uses(after->0) == terminal_uses(listed).push(HandleUse::Copied)
            &&& terminal_sent(after->0) == terminal_sent(listed)
        },
{
    if before is Some {
        lemma_taken_push(terminal_uses(before->0), HandleUse::Copied);
    }
}

/// Looking up a control channel gives a handle to the channel that is listed, unused, and leaves
/// the listed handle in its place, copied once; where none is listed there is none to give.
pub proof fn law_looking_up_a_control_channel(
    before: Option<UnboundedSender<Message>>,
    after: Option<UnboundedSender<Message>>,
    copy: Option<UnboundedSender<Message>>,
)
    requires
        control_looked_up(before, after, copy),
    ensures
        copy is Some == before is Some,
        after is Some == before is Some,
        before matches Some(listed) ==> {
            &&& control_sender_channel(copy->0) == control_sender_channel(listed)
            &&& control_uses(copy->0).len() == 0
            &&& control_sender_channel(after->0) == control_sender_channel(listed)
            &&& control_uses(after->0) == control_uses(listed).push(HandleUse::Copied)
            &&& control_sent(after->0) == control_sent(listed)
        },
{
    if before is Some {
        lemma_taken_push(control_uses(before->0), HandleUse::Copied);
    }
}

/// A channel takes what it took of two stretches of uses one after the other; of one use it takes
/// the message that was offered and accepted, and of anything else nothing.
pub proof fn law_taken_adds_up<M>(
    sooner: Seq<HandleUse<M>>,
    later: Seq<HandleUse<M>>,
    message: M,
)
    ensures
        taken(sooner + later) == taken(sooner) + taken(later),
        taken(seq![HandleUse::Offered(message, true)]) == seq![message],
        taken(seq![HandleUse::Offered(message, false)]) == Seq::<M>::empty(),
        taken(seq![HandleUse::<M>::Copied]) == Seq::<M>::empty(),
        taken(Seq::<HandleUse<M>>::empty()) == Seq::<M>::empty(),
    decreases later.len(),
{
    let nothing = Seq::<HandleUse<M>>::empty();
    lemma_taken_push(nothing, HandleUse::Offered(message, true));
    lemma_taken_push(nothing, HandleUse::Offered(message, false));
    lemma_taken_push(nothing, HandleUse::Copied);
    assert(nothing.push(HandleUse::Offered(message, true)) =~= seq![
        HandleUse::Offered(message, true),
    ]);
    assert(nothing.push(HandleUse::Offered(message, false)) =~= seq![
        HandleUse::Offered(message, false),
    ]);
    assert(nothing.push(HandleUse::Copied) =~= seq![HandleUse::Copied]);
    if later.len() == 0 {
        assert(sooner + later =~= sooner);
        assert(taken(sooner) + taken(later) =~= taken(sooner));
    } else {
        let rest = later.drop_last();
        law_taken_adds_up(sooner, rest, message);
        lemma_taken_push(sooner + rest, later.last());
        lemma_taken_push(rest, later.last());
        assert(sooner + later =~= (sooner + rest).push(later.last()));
        assert(later =~= rest.push(later.last()));
        match later.last() {
            HandleUse::Offered(last, true) => {
                assert(taken(sooner) + taken(rest).push(last) =~= (taken(sooner) + taken(
                    rest,
                )).push(last));
            },
            _ => {},
        }
    }
}

/// Whatever the text, output is handed to a channel where there is one: to the kept one, else to
/// the listed one. There is no channel only where none is kept and none is listed.
pub proof fn law_output_is_always_handed_over(
    kept_before: Option<UnboundedSender<String>>,
    kept_after: Option<UnboundedSender<String>>,
    listed_before: Option<UnboundedSender<String>>,
    listed_after: Option<UnboundedSender<String>>,
    text: Seq<char>,
    delivery: Delivery,
)
    requires
        terminal_delivery(
            kept_before,
            kept_after,
            listed_before,
            listed_after,
            text,
            delivery,
        ),
    ensures
        delivery == Delivery::NoChannel <==> kept_before is None && listed_before is None,
        delivery == Delivery::NoChannel ==> kept_after is None && listed_after is None,
        delivery != Delivery::NoChannel ==> {
            &&& kept_after is Some
            &&& terminal_uses(kept_after->0).len() > 0
            &&& terminal_uses(kept_after->0).last() == HandleUse::Offered(
                text,
                delivery == Delivery::Sent,
            )
        },
        kept_before matches Some(kept) ==> {
            &&& terminal_uses(kept_after->0) == terminal_uses(kept).push(
                HandleUse::Offered(text, delivery == Delivery::Sent),
            )
            &&& terminal_sender_channel(kept_after->0) == terminal_sender_channel(kept)
            &&& listed_after == listed_before
        },
        kept_before is None ==> (listed_before matches Some(listed) ==> {
            &&& terminal_uses(kept_after->0).len() == 1
            &&& terminal_sender_channel(kept_after->0) == terminal_sender_channel(listed)
            &&& listed_after is Some
            &&& terminal_uses(listed_after->0) == terminal_uses(listed).push(HandleUse::Copied)
            &&& terminal_sender_channel(listed_after->0) == terminal_sender_channel(listed)
        }),
{
}

/// Whatever the frame, the closing one too, a control message is handed to a channel where there is
/// one: to the kept one, else to the listed one. There is no channel only where none is kept and
/// none is listed.
pub proof fn law_control_message_is_always_handed_over(
    kept_before: Option<UnboundedSender<Message>>,
    kept_after: Option<UnboundedSender<Message>>,
    listed_before: Option<UnboundedSender<Message>>,
    listed_after: Option<UnboundedSender<Message>>,
    frame: ControlFrame,
    delivery: Delivery,
)
    requires
        control_delivery(
            kept_before,
            kept_after,
            listed_before,
            listed_after,
            frame,
            delivery,
        ),
    ensures
        delivery == Delivery::NoChannel <==> kept_before is None && listed_before is None,
        delivery == Delivery::NoChannel ==> kept_after is None && listed_after is None,
        delivery != Delivery::NoChannel ==> {
            &&& kept_after is Some
            &&& control_uses(kept_after->0).len() > 0
            &&& control_uses(kept_after->0).last() == HandleUse::Offered(
                frame,
                delivery == Delivery::Sent,
            )
        },
        kept_before matches Some(kept) ==> {
            &&& control_uses(kept_after->0) == control_uses(kept).push(
                HandleUse::Offered(frame, delivery == Delivery::Sent),
            )
            &&& control_sender_channel(kept_after->0) == control_sender_channel(kept)
            &&& listed_after == listed_before
        },
        kept_before is None ==> (listed_before matches Some(listed) ==> {
            &&& control_uses(kept_after->0).len() == 1
            &&& control_sender_channel(kept_after->0) == control_sender_channel(listed)
            &&& listed_after is Some
            &&& control_uses(listed_after->0) == control_uses(listed).push(HandleUse::Copied)
            &&& control_sender_channel(listed_after->0) == control_sender_channel(listed)
        }),
{
}

/// Handing a message to a channel is one more use of the handle, of the same channel, with the
/// channel's answer; what was put there grows by the message if it was taken, and by nothing else.
pub proof fn law_handing_over(
    terminal: UnboundedSender<String>,
    terminal_after: UnboundedSender<String>,
    text: Seq<char>,
    control: UnboundedSender<Message>,
    control_after: UnboundedSender<Message>,
    frame: ControlFrame,
    delivery: Delivery,
)
    ensures
        terminal_handed(terminal, terminal_after, text, delivery) ==> {
            &&& delivery != Delivery::NoChannel
            &&& terminal_sender_channel(terminal_after) == terminal_sender_channel(terminal)
            &&& terminal_uses(terminal_after) == terminal_uses(terminal).push(
                HandleUse::Offered(text, delivery == Delivery::Sent),
            )
            &&& terminal_sent(terminal_after) == if delivery == Delivery::Sent {
                terminal_sent(terminal).push(text)
            } else {
                terminal_sent(terminal)
            }
        },
        control_handed(control, control_after, frame, delivery) ==> {
            &&& delivery != Delivery::NoChannel
            &&& control_sender_channel(control_after) == control_sender_channel(control)
            &&& control_uses(control_after) == control_uses(control).push(
                HandleUse::Offered(frame, delivery == Delivery::Sent),
            )
            &&& control_sent(control_after) == if delivery == Delivery::Sent {
                control_sent(control).push(frame)
            } else {
                control_sent(control)
            }
        },
{
    lemma_taken_push(
        terminal_uses(terminal),
        HandleUse::Offered(text, delivery == Delivery::Sent),
    );
    lemma_taken_push(
        control_uses(control),
        HandleUse::Offered(frame, delivery == Delivery::Sent),
    );
}

/// Size owners change only when a client detaches the others: every other message leaves the whole
/// table, so that whoever could resize before can resize after it. No message of any kind changes
/// an entry or a session.
pub proof fn law_only_detaching_changes_the_table<A, S, P>(
    before: TableView<A>,
    message: WebClientToWebServerControlMessage<S, P>,
    after: TableView<A>,
    action: ControlAction<S, P>,
    client: Seq<char>,
)
    requires
        routed(before, message, after, action),
    ensures
        after.channels == before.channels,
        after.sessions == before.sessions,
        !(message.payload is DetachOtherClients) || !before.channels.contains_key(
            message.web_client_id@,
        ) ==> {
            &&& after.owners == before.owners
            &&& after.may_resize(client) == before.may_resize(client)
        },
{
}

/// A message of a client that is not in the table is reported and not forwarded. Of a client that
/// is, pixel dimensions are always forwarded, and a resize is forwarded exactly where the session
/// of the client has no owner, or the client is the owner, or the client has no session; otherwise
/// it is dropped.
pub proof fn law_what_is_forwarded<A, S, P>(
    before: TableView<A>,
    message: WebClientToWebServerControlMessage<S, P>,
    after: TableView<A>,
    action: ControlAction<S, P>,
    size: S,
    pixels: P,
)
    requires
        routed(before, message, after, action),
    ensures
        ({
            let id = message.web_client_id;
            let mirrors = {
                &&& before.sessions.contains_key(id@)
                &&& before.owners.contains_key(before.sessions[id@])
                &&& before.owners[before.sessions[id@]] != id@
            };
            &&& action is UnknownClient <==> !before.channels.contains_key(id@)
            &&& before.channels.contains_key(id@) && message.payload
                == WebClientToWebServerControlMessagePayload::<S, P>::TerminalPixelDimensions(pixels)
                ==> action == ControlAction::Forward(
                id,
                ClientToServerMsg::<S, P>::TerminalPixelDimensions(pixels),
            )
            &&& before.channels.contains_key(id@) && message.payload
                == WebClientToWebServerControlMessagePayload::<S, P>::TerminalResize(size) ==> {
                &&& !mirrors ==> action == ControlAction::Forward(
                    id,
                    ClientToServerMsg::<S, P>::TerminalResize(size),
                )
                &&& mirrors ==> action is Mirror
            }
            &&& before.channels.contains_key(id@) && message.payload is DetachOtherClients
                ==> action is Claimed
        }),
{
}

/// A client in the table that detaches the others becomes the owner of its session, and of no
/// other; the answer is the number of the other clients attached to that session.
pub proof fn law_detaching_claims_the_size<A, S, P>(
    before: TableView<A>,
    message: WebClientToWebServerControlMessage<S, P>,
    after: TableView<A>,
    action: ControlAction<S, P>,
    session: Seq<char>,
    peers: Set<Seq<char>>,
)
    requires
        routed(before, message, after, action),
        before.channels.contains_key(message.web_client_id@),
        message.payload is DetachOtherClients,
        forall|other: Seq<char>| #[trigger]
            peers.contains(other) <==> {
                &&& other != message.web_client_id@
                &&& before.sessions.contains_key(message.web_client_id@)
                &&& before.sessions.contains_key(other)
                &&& before.sessions[other] == before.sessions[message.web_client_id@]
            },
    ensures
        action matches ControlAction::Claimed(others) && others == peers.len(),
        before.sessions.contains_key(message.web_client_id@) ==> {
            let own = before.sessions[message.web_client_id@];
            &&& after.owners.contains_key(own)
            &&& after.owners[own] == message.web_client_id@
            &&& session != own ==> after.owners.contains_key(session)
                == before.owners.contains_key(session)
            &&& session != own && before.owners.contains_key(session) ==> after.owners[session]
                == before.owners[session]
        },
        !before.sessions.contains_key(message.web_client_id@) ==> after.owners == before.owners,
{
    assert(peers =~= before.peers(message.web_client_id@));
}

/// Two messages that do not detach are routed alike in either order: the first one does not change
/// what becomes of the second.
pub proof fn law_messages_do_not_disturb_each_other<A, S, P>(
    start: TableView<A>,
    first: WebClientToWebServerControlMessage<S, P>,
    between: TableView<A>,
    first_action: ControlAction<S, P>,
    second: WebClientToWebServerControlMessage<S, P>,
    end: TableView<A>,
    second_action: ControlAction<S, P>,
    alone: TableView<A>,
    alone_action: ControlAction<S, P>,
)
    requires
        !(first.payload is DetachOtherClients),
        !(second.payload is DetachOtherClients),
        routed(start, first, between, first_action),
        routed(between, second, end, second_action),
        routed(start, second, alone, alone_action),
    ensures
        second_action == alone_action,
        end == start,
{
}

/// An event of a control socket that is no message changes neither the socket nor the table; it is
/// reported as what it is, or stops the handling where the socket is closed or ended. A socket
/// stays with its channel, and is recorded from its first message on.
pub proof fn law_other_control_events<A, S, P>(
    socket: ControlSocket,
    table: TableView<A>,
    copy: UnboundedSender<Message>,
    event: ControlEvent<S, P>,
    socket_after: ControlSocket,
    table_after: TableView<A>,
    action: ControlAction<S, P>,
)
    requires
        crate::control_socket::handled(
            socket,
            table,
            copy,
            event,
            socket_after,
            table_after,
            action,
        ),
    ensures
        !(event is Message) ==> socket_after == socket && table_after == table,
        action is ReportUndecodable <==> event is Undecodable,
        action is ReportUnsupported <==> event is Unsupported,
        action is Stop <==> event is Close || event is Ended,
        socket_after.set_client_control_channel == (socket.set_client_control_channel
            || event is Message),
        control_sender_channel(socket_after.control_channel_tx) == control_sender_channel(
            socket.control_channel_tx,
        ),
{
}

/// The first message of a control socket lists for its client, if that is in the table, an unused
/// handle to the socket's channel, made by the one copy taken; apart from that every message is
/// routed in the table as it stands. It changes no session, no other client, and of its client
/// neither the connection nor what is recorded of the terminal.
pub proof fn law_first_control_message<A, S, P>(
    socket: ControlSocket,
    table: TableView<A>,
    copy: UnboundedSender<Message>,
    message: WebClientToWebServerControlMessage<S, P>,
    socket_after: ControlSocket,
    table_after: TableView<A>,
    action: ControlAction<S, P>,
    other: Seq<char>,
    listed: TableView<A>,
)
    requires
        crate::control_socket::handled(
            socket,
            table,
            copy,
            ControlEvent::Message(message),
            socket_after,
            table_after,
            action,
        ),
        listed.sessions == table.sessions,
        listed.owners == table.owners,
        listed.channels == if !socket.set_client_control_channel && table.channels.contains_key(
            message.web_client_id@,
        ) {
            table.channels.insert(
                message.web_client_id@,
                ClientChannels {
                    os_api: table.channels[message.web_client_id@].os_api,
                    control_channel_tx: Some(copy),
                    terminal_channel_tx: table.channels[message.web_client_id@].terminal_channel_tx,
                    terminal_channel_cancellation_token: table.channels[message.web_client_id@].terminal_channel_cancellation_token,
                },
            )
        } else {
            table.channels
        },
    ensures
        routed(listed, message, table_after, action),
        table_after.sessions == table.sessions,
        table_after.channels == listed.channels,
        !(message.payload is DetachOtherClients) ==> table_after.owners == table.owners,
        other != message.web_client_id@ && table.channels.contains_key(other)
            ==> table_after.channels.contains_key(other) && table_after.channels[other]
            == table.channels[other],
        socket.set_client_control_channel ==> socket_after == socket,
        !socket.set_client_control_channel ==> {
            &&& control_uses(copy).len() == 0
            &&& control_sender_channel(copy) == control_sender_channel(socket.control_channel_tx)
            &&& control_uses(socket_after.control_channel_tx) == control_uses(
                socket.control_channel_tx,
            ).push(HandleUse::Copied)
        },
{
    let id = message.web_client_id@;
    if !socket.set_client_control_channel {
        assert(listed =~= table.with_control_tx(id, copy));
    } else {
        assert(listed =~= table);
    }
    law_only_detaching_changes_the_table(listed, message, table_after, action, other);
}

/// A client's terminal socket that opens records its channel, and its session if it names one. It
/// claims no size, takes no one's right to resize away, and leaves every other client, and of the
/// client itself the connection, the control channel and the token.
pub proof fn law_opening_a_terminal_socket<A>(
    table: TableView<A>,
    client: Seq<char>,
    other: Seq<char>,
    channel: UnboundedSender<String>,
    session_name: Option<String>,
)
    ensures
        ({
            let after = attached(table, client, channel, session_name);
            &&& after.owners == table.owners
            &&& other != client ==> after.may_resize(other) == table.may_resize(other)
            &&& session_name is None ==> after.sessions == table.sessions && after.may_resize(
                client,
            ) == table.may_resize(client)
            &&& session_name matches Some(session) ==> after.sessions.contains_key(client)
                && after.sessions[client] == session@
            &&& other != client ==> after.sessions.contains_key(other)
                == table.sessions.contains_key(other)
            &&& other != client && table.sessions.contains_key(other) ==> after.sessions[other]
                == table.sessions[other]
            &&& after.channels.contains_key(other) == table.channels.contains_key(other)
            &&& other != client && table.channels.contains_key(other) ==> after.channels[other]
                == table.channels[other]
            &&& table.channels.contains_key(client) ==> {
                &&& after.channels[client].terminal_channel_tx == Some(channel)
                &&& after.channels[client].os_api == table.channels[client].os_api
                &&& after.channels[client].control_channel_tx
                    == table.channels[client].control_channel_tx
                &&& after.channels[client].terminal_channel_cancellation_token
                    == table.channels[client].terminal_channel_cancellation_token
            }
        }),
{
}

/// What a client types reaches its session exactly while the client is in the table, unchanged,
/// whatever sessions it is attached to and whoever decides their size; and it changes nothing.
pub proof fn law_typing_reaches_the_session<A, S, P>(
    socket: TerminalSocket<A>,
    table: TableView<A>,
    text: String,
    after: TableView<A>,
    action: TerminalAction<A, S, P>,
    elsewhere: TableView<A>,
    after_elsewhere: TableView<A>,
    action_elsewhere: TerminalAction<A, S, P>,
)
    requires
        crate::terminal_socket::handled(socket, table, TerminalEvent::Text(text), after, action),
        crate::terminal_socket::handled(
            socket,
            elsewhere,
            TerminalEvent::Text(text),
            after_elsewhere,
            action_elsewhere,
        ),
        elsewhere.channels == table.channels,
    ensures
        action == TerminalAction::<A, S, P>::ParseStdin(text) <==> table.channels.contains_key(
            socket.web_client_id@,
        ),
        action is UnknownClient <==> !table.channels.contains_key(socket.web_client_id@),
        after == table,
        action_elsewhere == action,
{
}

/// A terminal socket that is closed takes its client out of the table and hands back what it had;
/// one that ends leaves the table. Both say that the client exited, over the connection of the
/// socket, and nothing else does.
pub proof fn law_other_terminal_events<A, S, P>(
    socket: TerminalSocket<A>,
    table: TableView<A>,
    event: TerminalEvent,
    after: TableView<A>,
    action: TerminalAction<A, S, P>,
)
    requires
        crate::terminal_socket::handled(socket, table, event, after, action),
    ensures
        action is Exit <==> event is Close || event is Ended,
        action is ReportUnsupported <==> event is Unsupported,
        action matches TerminalAction::Exit(os_api, message, removed) ==> {
            &&& *os_api == socket.os_api
            &&& message is ClientExited
            &&& event is Ended ==> removed is None
            &&& event is Close ==> removed is Some == table.channels.contains_key(
                socket.web_client_id@,
            )
            &&& event is Close && removed is Some ==> {
                let had = table.channels[socket.web_client_id@];
                &&& removed->0.channels.os_api == had.os_api
                &&& removed->0.channels.control_channel_tx == had.control_channel_tx
                &&& removed->0.channels.terminal_channel_tx == had.terminal_channel_tx
                &&& removed->0.cancelled is Some == had.terminal_channel_cancellation_token is Some
                &&& removed->0.cancelled is Some ==> removed->0.cancelled->0.token()
                    == had.terminal_channel_cancellation_token->0
            }
        },
        !(event is Close) ==> after == table,
        event is Close ==> !after.channels.contains_key(socket.web_client_id@)
            && !after.sessions.contains_key(socket.web_client_id@),
{
}

/// The sockets of two listings one after the other are those of the first and then those of the
/// second; an entry alone counts where it was read and is a socket, and not otherwise.
pub proof fn law_discovery_adds_up<P, E>(
    sooner: Seq<Result<DirEntry<P, E>, E>>,
    later: Seq<Result<DirEntry<P, E>, E>>,
    path: P,
    error: E,
)
    ensures
        socket_paths(sooner + later) == socket_paths(sooner) + socket_paths(later),
        socket_paths(Seq::<Result<DirEntry<P, E>, E>>::empty()) == Seq::<P>::empty(),
        socket_paths(seq![Ok::<DirEntry<P, E>, E>(DirEntry { path, is_socket: Ok(true) })])
            == seq![path],
        socket_paths(seq![Ok::<DirEntry<P, E>, E>(DirEntry { path, is_socket: Ok(false) })])
            == Seq::<P>::empty(),
        socket_paths(seq![Ok::<DirEntry<P, E>, E>(DirEntry { path, is_socket: Err(error) })])
            == Seq::<P>::empty(),
        socket_paths(seq![Err::<DirEntry<P, E>, E>(error)]) == Seq::<P>::empty(),
{
    let keep = |entry: Result<DirEntry<P, E>, E>| crate::web_server::entry_is_socket(entry);
    Seq::filter_distributes_over_add(sooner, later, keep);
    assert(socket_paths(sooner + later) =~= socket_paths(sooner) + socket_paths(later));
    assert forall|entry: Result<DirEntry<P, E>, E>| #[trigger]
        seq![entry].filter(keep) == if keep(entry) {
            seq![entry]
        } else {
            Seq::empty()
        } by {
        reveal_with_fuel(Seq::filter, 2);
        assert(seq![entry].drop_last() =~= Seq::empty());
        assert(Seq::empty().push(entry) =~= seq![entry]);
    }
    let socket = Ok::<DirEntry<P, E>, E>(DirEntry { path, is_socket: Ok(true) });
    let file = Ok::<DirEntry<P, E>, E>(DirEntry { path, is_socket: Ok(false) });
    let odd = Ok::<DirEntry<P, E>, E>(DirEntry { path, is_socket: Err(error) });
    let unread = Err::<DirEntry<P, E>, E>(error);
    assert(socket_paths(seq![socket]) =~= seq![path]);
    assert(socket_paths(seq![file]) =~= Seq::empty());
    assert(socket_paths(seq![odd]) =~= Seq::empty());
    assert(socket_paths(seq![unread]) =~= Seq::empty());
}

/// Discovery fails exactly where an entry could not be read or its kind is not known, and with
/// what went wrong first.
pub proof fn law_discovery_fails_with_the_first_error<P, E>(
    entries: Seq<Result<DirEntry<P, E>, E>>,
    sockets: Result<Vec<P>, E>,
)
    requires
        sockets_or_failure(entries, sockets),
    ensures
        sockets is Ok <==> forall|i: int|
            0 <= i < entries.len() ==> (#[trigger] entries[i]) is Ok
                && entries[i]->Ok_0.is_socket is Ok,
        sockets matches Ok(paths) ==> paths@ == socket_paths(entries),
        sockets matches Err(error) ==> exists|at: int|
            {
                &&& 0 <= at < entries.len()
                &&& match #[trigger] entries[at] {
                    Ok(found) => found.is_socket == Err::<bool, E>(error),
                    Err(unread) => unread == error,
                }
                &&& forall|i: int|
                    0 <= i < at ==> (#[trigger] entries[i]) is Ok && entries[i]->Ok_0.is_socket is Ok
            },
{
    match sockets {
        Ok(_) => {
            assert forall|i: int| 0 <= i < entries.len() implies (#[trigger] entries[i]) is Ok
                && entries[i]->Ok_0.is_socket is Ok by {
                assert(crate::web_server::entry_failure(entries[i]) is None);
            }
        },
        Err(error) => {
            let at = choose|at: int| crate::web_server::first_failure(entries, at, error);
            assert(crate::web_server::entry_failure(entries[at]) == Some(error));
            assert forall|i: int| 0 <= i < at implies (#[trigger] entries[i]) is Ok
                && entries[i]->Ok_0.is_socket is Ok by {
                assert(crate::web_server::entry_failure(entries[i]) is None);
            }
        },
    }
}

/// On the way to shut all servers down, an entry that could not be read, or that has a text name
/// and is of unknown kind, ends the way; a socket with a text name is connected to at its path;
/// any other entry is passed over.
pub proof fn law_what_is_shut_down<E>(entry: Result<ServerEntry<E>, E>)
    ensures
        entry matches Err(error) ==> shutdown_failure(entry) == Some(error) && shutdown_target(
            entry,
        ) is None,
        entry matches Ok(found) ==> {
            &&& !found.has_text_name ==> shutdown_failure(entry) is None && shutdown_target(
                entry,
            ) is None
            &&& found.has_text_name ==> match found.is_socket {
                Err(error) => shutdown_failure(entry) == Some(error) && shutdown_target(
                    entry,
                ) is None,
                Ok(is_socket) => {
                    &&& shutdown_failure(entry) is None
                    &&& shutdown_target(entry) is Some == is_socket
                    &&& is_socket && found.path is Some ==> shutdown_target(entry)->0
                        == found.path->0@
                    &&& is_socket && found.path is None ==> shutdown_target(entry)->0.len() == 0
                },
            }
        },
{
}

/// The servers of two stretches of entries are connected to one after the other, but none of the
/// second stretch once something went wrong in the first. Of one entry alone, the path is connected
/// to where the entry is a socket with a text name.
pub proof fn law_shutdown_adds_up<E>(
    sooner: Seq<Result<ServerEntry<E>, E>>,
    later: Seq<Result<ServerEntry<E>, E>>,
    entry: Result<ServerEntry<E>, E>,
)
    ensures
        (forall|i: int|
            0 <= i < sooner.len() ==> shutdown_failure(#[trigger] sooner[i]) is None) ==> instructed(
            sooner + later,
        ) == instructed(sooner) + instructed(later),
        (exists|i: int| 0 <= i < sooner.len() && shutdown_failure(#[trigger] sooner[i]) is Some)
            ==> instructed(sooner + later) == instructed(sooner),
        instructed(Seq::<Result<ServerEntry<E>, E>>::empty()) == Seq::<Seq<char>>::empty(),
        instructed(seq![entry]) == match shutdown_target(entry) {
            Some(path) => seq![path],
            None => Seq::empty(),
        },
    decreases later.len(),
{
    reveal_with_fuel(instructed, 2);
    assert(seq![entry].drop_last() =~= Seq::empty());
    assert(instructed(seq![entry]) =~= match shutdown_target(entry) {
        Some(path) => seq![path],
        None => Seq::empty(),
    });
    if later.len() == 0 {
        assert(sooner + later =~= sooner);
        assert(instructed(sooner) + instructed(later) =~= instructed(sooner));
    } else {
        let rest = later.drop_last();
        law_shutdown_adds_up(sooner, rest, entry);
        assert((sooner + later).drop_last() =~= sooner + rest);
        assert((sooner + later).last() == later.last());
        if forall|i: int|
            0 <= i < sooner.len() ==> shutdown_failure(#[trigger] sooner[i]) is None {
            assert(crate::web_server::unhindered(sooner + rest)
                == crate::web_server::unhindered(rest)) by {
                if crate::web_server::unhindered(sooner + rest) {
                    assert forall|i: int| 0 <= i < rest.len() implies shutdown_failure(
                        #[trigger] rest[i],
                    ) is None by {
                        assert((sooner + rest)[sooner.len() + i] == rest[i]);
                    }
                }
            }
            assert(instructed(sooner + later) =~= instructed(sooner) + instructed(later));
        } else {
            let i = choose|i: int|
                0 <= i < sooner.len() && shutdown_failure(#[trigger] sooner[i]) is Some;
            assert((sooner + rest)[i] == sooner[i]);
            assert(!crate::web_server::unhindered(sooner + rest));
        }
    }
}

/// Every stage of a query has its place: connecting comes first, reading the response last. Reads
/// are bounded right after connecting, and writes before anything is written. The write side is
/// closed right after the instruction is sent. Every stage but the last has a next one.
pub proof fn law_query_order(stage: QueryStage)
    ensures
        stage.successor() is None <==> stage is ReadResponse,
        stage.successor() != Some(QueryStage::Connect),
        stage.successor() == Some(QueryStage::CloseWriteSide) <==> stage is SendInstruction,
        stage.successor() == Some(QueryStage::ReadResponse) <==> stage is CloseWriteSide,
        stage.successor() == Some(QueryStage::SendInstruction) <==> stage is LimitWrites,
        stage.successor() == Some(QueryStage::LimitReads) <==> stage is Connect,
{
}

} // verus!
