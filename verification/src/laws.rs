//! What holds of the library as a whole.

use crate::channel::{
    control_receiver_channel, control_sender_channel, control_sent, control_uses, lemma_taken_push,
    terminal_receiver_channel, terminal_sender_channel, terminal_sent, terminal_uses, ControlFrame,
    HandleUse,
};
use crate::connection_bus::{
    control_delivery, control_handed, terminal_delivery, terminal_handed, Delivery,
};
use crate::connection_table::{ClientChannels, TableView};
use crate::control_socket::{
    handled, routed, ClientToServerMsg, ControlAction, ControlEvent, ControlSocket,
    WebClientToWebServerControlMessage, WebClientToWebServerControlMessagePayload,
};
use crate::terminal_socket::{attached, TerminalAction, TerminalEvent, TerminalSocket};
use crate::web_server::{
    entry_is_socket, instructed, shutdown_target, socket_paths, unhindered, DirEntry, QueryStage,
    ServerEntry,
};
use axum::extract::ws::Message;
use tokio::sync::mpsc::{UnboundedReceiver, UnboundedSender};
use tokio_util::sync::CancellationToken;
use vstd::prelude::*;

verus! {

/// A client that claims the size of its session may resize it.
pub proof fn law_claimant_may_resize<A>(table: TableView<A>, client: Seq<char>)
    ensures
        table.with_owner(client).may_resize(client),
{
}

/// The clients that a claim keeps from resizing the claimant's session are the other clients of
/// that session, all of them.
pub proof fn law_claim_makes_peers_mirror<A>(
    table: TableView<A>,
    client: Seq<char>,
    other: Seq<char>,
)
    requires
        table.sessions.contains_key(client),
    ensures
        table.peers(client).contains(other) <==> {
            &&& table.sessions.contains_key(other)
            &&& table.sessions[other] == table.sessions[client]
            &&& !table.with_owner(client).may_resize(other)
        },
{
}

/// A claim changes nothing for clients of other sessions, nor for those without one.
pub proof fn law_claim_stays_in_its_session<A>(
    table: TableView<A>,
    client: Seq<char>,
    other: Seq<char>,
)
    requires
        !(table.sessions.contains_key(client) && table.sessions.contains_key(other)
            && table.sessions[client] == table.sessions[other]),
    ensures
        table.with_owner(client).may_resize(other) == table.may_resize(other),
{
}

/// A claim detaches no one: all clients keep their channels and their sessions.
pub proof fn law_claim_detaches_no_one<A>(table: TableView<A>, client: Seq<char>)
    ensures
        table.with_owner(client).channels == table.channels,
        table.with_owner(client).sessions == table.sessions,
{
}

/// Of two claims on one session the later one counts.
pub proof fn law_last_claim_counts<A>(
    table: TableView<A>,
    first: Seq<char>,
    second: Seq<char>,
)
    requires
        table.sessions.contains_key(first),
        table.sessions.contains_key(second),
        table.sessions[first] == table.sessions[second],
    ensures
        table.with_owner(first).with_owner(second) == table.with_owner(second),
{
    assert(table.with_owner(first).with_owner(second) =~= table.with_owner(second));
}

/// Where a session has a size owner, no two of its clients may resize it.
pub proof fn law_one_client_resizes<A>(table: TableView<A>, one: Seq<char>, other: Seq<char>)
    requires
        table.sessions.contains_key(one),
        table.sessions.contains_key(other),
        table.sessions[one] == table.sessions[other],
        table.owners.contains_key(table.sessions[one]),
        one != other,
    ensures
        !(table.may_resize(one) && table.may_resize(other)),
{
}

/// A client that mirrors the size owner of its session goes on doing so whatever the table records
/// of clients and their channels, whoever else attaches to a session, is removed or claims a
/// size, and also when it attaches to the same session again. Only its own move to another session,
/// its own removal, its own claim and the owner's removal can end it.
pub proof fn law_mirroring_lasts<A>(
    table: TableView<A>,
    client: Seq<char>,
    other: Seq<char>,
    session: Seq<char>,
    channels: ClientChannels<A>,
    control: UnboundedSender<Message>,
    terminal: UnboundedSender<String>,
    token: CancellationToken,
)
    requires
        !table.may_resize(client),
        other != client,
    ensures
        !table.with_channels(client, channels).may_resize(client),
        !table.with_channels(other, channels).may_resize(client),
        !table.with_control_tx(client, control).may_resize(client),
        !table.with_control_tx(other, control).may_resize(client),
        !table.with_terminal_tx(client, terminal).may_resize(client),
        !table.with_terminal_tx(other, terminal).may_resize(client),
        !table.with_cancellation_token(client, token).may_resize(client),
        !table.with_cancellation_token(other, token).may_resize(client),
        !table.with_session(other, session).may_resize(client),
        session == table.sessions[client] ==> !table.with_session(client, session).may_resize(
            client,
        ),
        other != table.owners[table.sessions[client]] ==> !table.without_client(other).may_resize(
            client,
        ),
        !table.with_owner(other).may_resize(client),
{
}

/// When the size owner of a session is removed, its remaining clients can resize again.
pub proof fn law_removal_releases_the_size<A>(
    table: TableView<A>,
    owner: Seq<char>,
    other: Seq<char>,
)
    requires
        table.sessions.contains_key(other),
        table.owners.contains_key(table.sessions[other]),
        table.owners[table.sessions[other]] == owner,
    ensures
        table.without_client(owner).may_resize(other),
{
}

/// When a client is removed, nothing changes for the other clients whose session it did not own.
pub proof fn law_removal_spares_other_sizes<A>(
    table: TableView<A>,
    client: Seq<char>,
    other: Seq<char>,
)
    requires
        other != client,
        table.sessions.contains_key(other) && table.owners.contains_key(table.sessions[other])
            ==> table.owners[table.sessions[other]] != client,
    ensures
        table.without_client(client).may_resize(other) == table.may_resize(other),
{
}

/// Nothing is left of a removed client, and removing it once more changes nothing.
pub proof fn law_removal_is_complete<A>(table: TableView<A>, client: Seq<char>)
    ensures
        !table.without_client(client).channels.contains_key(client),
        !table.without_client(client).sessions.contains_key(client),
        forall|session: Seq<char>| #[trigger]
            table.without_client(client).owners.contains_key(session)
                ==> table.without_client(client).owners[session] != client,
        table.without_client(client).terminal_tx(client) is None,
        table.without_client(client).control_tx(client) is None,
        table.without_client(client).cancellation_token(client) is None,
        table.without_client(client).without_client(client) == table.without_client(client),
{
    assert(table.without_client(client).without_client(client) =~= table.without_client(client));
}

/// The removal of a client takes no other client's channels or session away.
pub proof fn law_removal_spares_other_clients<A>(
    table: TableView<A>,
    client: Seq<char>,
    other: Seq<char>,
)
    requires
        other != client,
    ensures
        table.without_client(client).channels.contains_key(other) == table.channels.contains_key(
            other,
        ),
        table.channels.contains_key(other) ==> table.without_client(client).channels[other]
            == table.channels[other],
        table.without_client(client).sessions.contains_key(other) == table.sessions.contains_key(
            other,
        ),
        table.sessions.contains_key(other) ==> table.without_client(client).sessions[other]
            == table.sessions[other],
{
}

/// Every size owner is attached to some session.
pub open spec fn owners_are_attached<A>(table: TableView<A>) -> bool {
    forall|session: Seq<char>| #[trigger]
        table.owners.contains_key(session) ==> table.sessions.contains_key(table.owners[session])
}

/// Every size owner is attached to some session: at the start, and after every change that a
/// table allows.
pub proof fn law_owners_stay_attached<A>(
    table: TableView<A>,
    client: Seq<char>,
    session: Seq<char>,
    channels: ClientChannels<A>,
    control: UnboundedSender<Message>,
    terminal: UnboundedSender<String>,
    token: CancellationToken,
)
    requires
        owners_are_attached(table),
    ensures
        owners_are_attached(TableView::<A>::empty()),
        owners_are_attached(table.with_channels(client, channels)),
        owners_are_attached(table.with_control_tx(client, control)),
        owners_are_attached(table.with_terminal_tx(client, terminal)),
        owners_are_attached(table.with_cancellation_token(client, token)),
        owners_are_attached(table.with_session(client, session)),
        owners_are_attached(table.with_owner(client)),
        owners_are_attached(table.without_client(client)),
{
    let removed = table.without_client(client);
    assert forall|s: Seq<char>| #[trigger] removed.owners.contains_key(s) implies
        removed.sessions.contains_key(removed.owners[s]) by {
        assert(table.owners.contains_key(s));
    }
    let owned = table.with_owner(client);
    assert forall|s: Seq<char>| #[trigger] owned.owners.contains_key(s) implies
        owned.sessions.contains_key(owned.owners[s]) by {
        if !(table.sessions.contains_key(client) && s == table.sessions[client]) {
            assert(table.owners.contains_key(s));
        }
    }
    let moved = table.with_session(client, session);
    assert forall|s: Seq<char>| #[trigger] moved.owners.contains_key(s) implies
        moved.sessions.contains_key(moved.owners[s]) by {
        assert(table.owners.contains_key(s));
    }
}

/// A channel or token that is recorded for a client in the table is read back for it, and for no
/// other client.
pub proof fn law_channels_are_read_back<A>(
    table: TableView<A>,
    client: Seq<char>,
    other: Seq<char>,
    control: UnboundedSender<Message>,
    terminal: UnboundedSender<String>,
    token: CancellationToken,
)
    requires
        table.channels.contains_key(client),
        other != client,
    ensures
        table.with_control_tx(client, control).control_tx(client) == Some(control),
        table.with_terminal_tx(client, terminal).terminal_tx(client) == Some(terminal),
        table.with_cancellation_token(client, token).cancellation_token(client) == Some(token),
        table.with_control_tx(client, control).control_tx(other) == table.control_tx(other),
        table.with_terminal_tx(client, terminal).terminal_tx(other) == table.terminal_tx(other),
        table.with_cancellation_token(client, token).cancellation_token(other)
            == table.cancellation_token(other),
{
}

/// What is recorded of one socket of a client leaves what is recorded of the other.
pub proof fn law_sockets_are_independent<A>(
    table: TableView<A>,
    client: Seq<char>,
    control: UnboundedSender<Message>,
    terminal: UnboundedSender<String>,
)
    ensures
        table.with_control_tx(client, control).terminal_tx(client) == table.terminal_tx(client),
        table.with_terminal_tx(client, terminal).control_tx(client) == table.control_tx(client),
        table.with_control_tx(client, control).with_terminal_tx(client, terminal)
            == table.with_terminal_tx(client, terminal).with_control_tx(client, control),
{
    assert(table.with_control_tx(client, control).with_terminal_tx(client, terminal)
        =~= table.with_terminal_tx(client, terminal).with_control_tx(client, control));
}

/// A client that is added anew has no channels, but is still attached where it was.
pub proof fn law_new_client_has_no_channels<A>(table: TableView<A>, client: Seq<char>, os_api: A)
    ensures
        table.with_channels(client, ClientChannels::unopened(os_api)).channels[client].os_api
            == os_api,
        table.with_channels(client, ClientChannels::unopened(os_api)).control_tx(client) is None,
        table.with_channels(client, ClientChannels::unopened(os_api)).terminal_tx(client) is None,
        table.with_channels(client, ClientChannels::unopened(os_api)).cancellation_token(
            client,
        ) is None,
        table.with_channels(client, ClientChannels::unopened(os_api)).sessions == table.sessions,
{
}

/// After one client detached the others, no resize by another client of its session reaches the
/// session server.
pub proof fn law_mirroring_client_cannot_resize<A, S, P>(
    start: TableView<A>,
    detach: WebClientToWebServerControlMessage<S, P>,
    claimed: TableView<A>,
    claim: ControlAction<S, P>,
    resize: WebClientToWebServerControlMessage<S, P>,
    end: TableView<A>,
    action: ControlAction<S, P>,
)
    requires
        start.channels.contains_key(detach.web_client_id@),
        detach.payload is DetachOtherClients,
        routed(start, detach, claimed, claim),
        start.peers(detach.web_client_id@).contains(resize.web_client_id@),
        resize.payload is TerminalResize,
        routed(claimed, resize, end, action),
    ensures
        action !is Forward,
        end == claimed,
{
}

/// After a client detached the others, its own resizes reach the session server.
pub proof fn law_owner_can_resize<A, S, P>(
    start: TableView<A>,
    detach: WebClientToWebServerControlMessage<S, P>,
    claimed: TableView<A>,
    claim: ControlAction<S, P>,
    resize: WebClientToWebServerControlMessage<S, P>,
    end: TableView<A>,
    action: ControlAction<S, P>,
)
    requires
        start.channels.contains_key(detach.web_client_id@),
        detach.payload is DetachOtherClients,
        routed(start, detach, claimed, claim),
        resize.web_client_id@ == detach.web_client_id@,
        resize.payload is TerminalResize,
        routed(claimed, resize, end, action),
    ensures
        action == ControlAction::Forward(
            resize.web_client_id,
            ClientToServerMsg::<S, P>::TerminalResize(resize.payload->TerminalResize_0),
        ),
{
}

/// Once the client that detached the others is gone, the resizes of the others reach the session
/// server again.
pub proof fn law_resizes_resume_after_the_owner_left<A, S, P>(
    start: TableView<A>,
    detach: WebClientToWebServerControlMessage<S, P>,
    claimed: TableView<A>,
    claim: ControlAction<S, P>,
    resize: WebClientToWebServerControlMessage<S, P>,
    end: TableView<A>,
    action: ControlAction<S, P>,
)
    requires
        start.channels.contains_key(detach.web_client_id@),
        detach.payload is DetachOtherClients,
        routed(start, detach, claimed, claim),
        start.peers(detach.web_client_id@).contains(resize.web_client_id@),
        start.channels.contains_key(resize.web_client_id@),
        resize.payload is TerminalResize,
        routed(claimed.without_client(detach.web_client_id@), resize, end, action),
    ensures
        action == ControlAction::Forward(
            resize.web_client_id,
            ClientToServerMsg::<S, P>::TerminalResize(resize.payload->TerminalResize_0),
        ),
{
}

/// What is forwarded is forwarded for the client that the message came from, which is in the
/// table, and is what the message said. A message that detaches other clients is never forwarded,
/// nor is anything of an unknown client.
pub proof fn law_forwarded_as_it_came<A, S, P>(
    before: TableView<A>,
    message: WebClientToWebServerControlMessage<S, P>,
    after: TableView<A>,
    action: ControlAction<S, P>,
)
    requires
        routed(before, message, after, action),
    ensures
        action matches ControlAction::Forward(client, forwarded) ==> {
            &&& client == message.web_client_id
            &&& after.channels.contains_key(client@)
            &&& match message.payload {
                WebClientToWebServerControlMessagePayload::TerminalResize(size) => forwarded
                    == ClientToServerMsg::<S, P>::TerminalResize(size),
                WebClientToWebServerControlMessagePayload::TerminalPixelDimensions(dimensions) =>
                    forwarded == ClientToServerMsg::<S, P>::TerminalPixelDimensions(dimensions),
                WebClientToWebServerControlMessagePayload::DetachOtherClients => false,
            }
        },
{
}

/// A control socket is recorded for the client that its first message came from, if that client
/// is in the table: the table then lists a handle to the socket's channel for it. Later messages
/// record nothing.
pub proof fn law_control_socket_is_registered_once<A, S, P>(
    socket: ControlSocket,
    table: TableView<A>,
    copy: UnboundedSender<Message>,
    message: WebClientToWebServerControlMessage<S, P>,
    socket_after: ControlSocket,
    table_after: TableView<A>,
    action: ControlAction<S, P>,
    client: Seq<char>,
)
    requires
        handled(
            socket,
            table,
            copy,
            ControlEvent::Message(message),
            socket_after,
            table_after,
            action,
        ),
    ensures
        socket_after.set_client_control_channel,
        !socket.set_client_control_channel && table.channels.contains_key(message.web_client_id@)
            ==> {
            &&& table_after.control_tx(message.web_client_id@) matches Some(listed)
            &&& control_sender_channel(listed) == control_sender_channel(socket.control_channel_tx)
        },
        socket.set_client_control_channel || client != message.web_client_id@
            ==> table_after.control_tx(client) == table.control_tx(client),
{
}

/// What a client claims, once its terminal socket opened on a session, is the size of that session,
/// and of no other.
pub proof fn law_claim_is_scoped_to_the_attached_session<A>(
    table: TableView<A>,
    client: Seq<char>,
    channel: UnboundedSender<String>,
    session_name: String,
    session: Seq<char>,
)
    ensures
        ({
            let before = attached(table, client, channel, Some(session_name));
            let after = before.with_owner(client);
            &&& after.owners.contains_key(session_name@)
            &&& after.owners[session_name@] == client
            &&& session != session_name@ ==> after.owners.contains_key(session)
                == before.owners.contains_key(session)
            &&& session != session_name@ && before.owners.contains_key(session)
                ==> after.owners[session] == before.owners[session]
        }),
{
}

/// The configuration that is sent over a control socket just opened is the only use of its handle
/// until the first message of the client, and, where the channel takes it, the first message put
/// into the channel.
pub proof fn law_configuration_comes_first(
    opened: ControlSocket,
    configured: ControlSocket,
    configuration: Seq<char>,
    delivery: Delivery,
)
    requires
        control_uses(opened.control_channel_tx) == Seq::<HandleUse<ControlFrame>>::empty(),
        control_handed(
            opened.control_channel_tx,
            configured.control_channel_tx,
            ControlFrame::Text(configuration),
            delivery,
        ),
    ensures
        control_uses(configured.control_channel_tx) == seq![
            HandleUse::Offered(ControlFrame::Text(configuration), delivery == Delivery::Sent),
        ],
        delivery == Delivery::Sent ==> control_sent(configured.control_channel_tx) == seq![
            ControlFrame::Text(configuration),
        ],
{
    lemma_taken_push(
        control_uses(opened.control_channel_tx),
        HandleUse::Offered(ControlFrame::Text(configuration), delivery == Delivery::Sent),
    );
    assert(control_uses(configured.control_channel_tx) =~= seq![
        HandleUse::Offered(ControlFrame::Text(configuration), delivery == Delivery::Sent),
    ]);
}

/// What is sent over a kept handle is put into its channel in the order in which it was sent.
pub proof fn law_output_keeps_its_order(
    start: UnboundedSender<String>,
    between: UnboundedSender<String>,
    end: UnboundedSender<String>,
    first: Seq<char>,
    second: Seq<char>,
)
    requires
        terminal_handed(start, between, first, Delivery::Sent),
        terminal_handed(between, end, second, Delivery::Sent),
    ensures
        terminal_sent(end) == terminal_sent(start).push(first).push(second),
{
    lemma_taken_push(terminal_uses(start), HandleUse::Offered(first, true));
    lemma_taken_push(terminal_uses(between), HandleUse::Offered(second, true));
}

/// Output goes through the handle that the bus keeps, and through no other: none of it goes through
/// the one that the table lists, and a kept handle is never looked up again.
pub proof fn law_output_goes_through_one_handle(
    kept_before: Option<UnboundedSender<String>>,
    kept_after: Option<UnboundedSender<String>>,
    listed_before: Option<UnboundedSender<String>>,
    listed_after: Option<UnboundedSender<String>>,
    text: Seq<char>,
    delivery: Delivery,
)
    requires
        terminal_delivery(
            kept_before,
            kept_after,
            listed_before,
            listed_after,
            text,
            delivery,
        ),
    ensures
        listed_before is Some == listed_after is Some,
        listed_before is Some ==> terminal_sent(listed_after->0) == terminal_sent(listed_before->0),
        kept_before is Some ==> listed_after == listed_before && kept_after is Some
            && terminal_sender_channel(kept_after->0) == terminal_sender_channel(kept_before->0),
        delivery == Delivery::Sent ==> kept_after is Some && terminal_sent(kept_after->0)
            == (match kept_before {
            Some(kept) => terminal_sent(kept),
            None => Seq::empty(),
        }).push(text),
{
    if listed_before is Some {
        lemma_taken_push(terminal_uses(listed_before->0), HandleUse::Copied);
    }
    let offer = HandleUse::Offered(text, delivery == Delivery::Sent);
    if kept_before is Some {
        lemma_taken_push(terminal_uses(kept_before->0), offer);
    } else if listed_before is Some {
        lemma_taken_push(Seq::<HandleUse<Seq<char>>>::empty(), offer);
        assert(Seq::<HandleUse<Seq<char>>>::empty().push(offer) =~= seq![offer]);
    }
}

/// A control message goes through the handle that the bus keeps, and through no other: not through
/// the one that the table lists, and a kept handle is never looked up again.
pub proof fn law_control_message_goes_through_one_handle(
    kept_before: Option<UnboundedSender<Message>>,
    kept_after: Option<UnboundedSender<Message>>,
    listed_before: Option<UnboundedSender<Message>>,
    listed_after: Option<UnboundedSender<Message>>,
    frame: ControlFrame,
    delivery: Delivery,
)
    requires
        control_delivery(
            kept_before,
            kept_after,
            listed_before,
            listed_after,
            frame,
            delivery,
        ),
    ensures
        listed_before is Some == listed_after is Some,
        listed_before is Some ==> control_sent(listed_after->0) == control_sent(listed_before->0),
        kept_before is Some ==> listed_after == listed_before && kept_after is Some
            && control_sender_channel(kept_after->0) == control_sender_channel(kept_before->0),
        delivery == Delivery::Sent ==> kept_after is Some && control_sent(kept_after->0)
            == (match kept_before {
            Some(kept) => control_sent(kept),
            None => Seq::empty(),
        }).push(frame),
{
    if listed_before is Some {
        lemma_taken_push(control_uses(listed_before->0), HandleUse::Copied);
    }
    let offer = HandleUse::Offered(frame, delivery == Delivery::Sent);
    if kept_before is Some {
        lemma_taken_push(control_uses(kept_before->0), offer);
    } else if listed_before is Some {
        lemma_taken_push(Seq::<HandleUse<ControlFrame>>::empty(), offer);
        assert(Seq::<HandleUse<ControlFrame>>::empty().push(offer) =~= seq![offer]);
    }
}

/// Output that is refused, or for which there is no channel, is delivered nowhere.
pub proof fn law_undelivered_output_leaves_no_trace(
    kept_before: Option<UnboundedSender<String>>,
    kept_after: Option<UnboundedSender<String>>,
    listed_before: Option<UnboundedSender<String>>,
    listed_after: Option<UnboundedSender<String>>,
    text: Seq<char>,
    delivery: Delivery,
)
    requires
        delivery != Delivery::Sent,
        terminal_delivery(
            kept_before,
            kept_after,
            listed_before,
            listed_after,
            text,
            delivery,
        ),
    ensures
        listed_before is Some ==> listed_after is Some && terminal_sent(listed_after->0)
            == terminal_sent(listed_before->0),
        kept_before is Some ==> kept_after is Some && terminal_sent(kept_after->0)
            == terminal_sent(kept_before->0),
        kept_before is None && kept_after is Some ==> terminal_sent(kept_after->0) == Seq::<
            Seq<char>,
        >::empty(),
{
    if listed_before is Some {
        lemma_taken_push(terminal_uses(listed_before->0), HandleUse::Copied);
    }
    let offer = HandleUse::Offered(text, false);
    if kept_before is Some {
        lemma_taken_push(terminal_uses(kept_before->0), offer);
    } else if listed_before is Some {
        lemma_taken_push(Seq::<HandleUse<Seq<char>>>::empty(), offer);
        assert(Seq::<HandleUse<Seq<char>>>::empty().push(offer) =~= seq![offer]);
    }
}

/// A control message that is refused, or for which there is no channel, is delivered nowhere.
pub proof fn law_undelivered_control_message_leaves_no_trace(
    kept_before: Option<UnboundedSender<Message>>,
    kept_after: Option<UnboundedSender<Message>>,
    listed_before: Option<UnboundedSender<Message>>,
    listed_after: Option<UnboundedSender<Message>>,
    frame: ControlFrame,
    delivery: Delivery,
)
    requires
        delivery != Delivery::Sent,
        control_delivery(
            kept_before,
            kept_after,
            listed_before,
            listed_after,
            frame,
            delivery,
        ),
    ensures
        listed_before is Some ==> listed_after is Some && control_sent(listed_after->0)
            == control_sent(listed_before->0),
        kept_before is Some ==> kept_after is Some && control_sent(kept_after->0) == control_sent(
            kept_before->0,
        ),
        kept_before is None && kept_after is Some ==> control_sent(kept_after->0) == Seq::<
            ControlFrame,
        >::empty(),
{
    if listed_before is Some {
        lemma_taken_push(control_uses(listed_before->0), HandleUse::Copied);
    }
    let offer = HandleUse::Offered(frame, false);
    if kept_before is Some {
        lemma_taken_push(control_uses(kept_before->0), offer);
    } else if listed_before is Some {
        lemma_taken_push(Seq::<HandleUse<ControlFrame>>::empty(), offer);
        assert(Seq::<HandleUse<ControlFrame>>::empty().push(offer) =~= seq![offer]);
    }
}

/// Output for a client goes into the channel whose receiver was handed out when its terminal
/// socket opened.
pub proof fn law_output_goes_to_the_opened_socket<A>(
    before: TableView<A>,
    client: Seq<char>,
    channel: UnboundedSender<String>,
    receiver: UnboundedReceiver<String>,
    session_name: Option<String>,
    kept: Option<UnboundedSender<String>>,
    listed: Option<UnboundedSender<String>>,
    text: Seq<char>,
    delivery: Delivery,
)
    requires
        before.channels.contains_key(client),
        terminal_receiver_channel(receiver) == terminal_sender_channel(channel),
        terminal_delivery(
            None,
            kept,
            attached(before, client, channel, session_name).terminal_tx(client),
            listed,
            text,
            delivery,
        ),
    ensures
        kept matches Some(used) && terminal_sender_channel(used) == terminal_receiver_channel(
            receiver,
        ),
        listed matches Some(lender) && terminal_sender_channel(lender)
            == terminal_receiver_channel(receiver),
{
}

/// Control messages for a client go into the channel whose receiver was handed out when its
/// control socket opened, once the socket's first message came from the client.
pub proof fn law_control_messages_go_to_the_opened_socket<A, S, P>(
    socket: ControlSocket,
    receiver: UnboundedReceiver<Message>,
    table: TableView<A>,
    copy: UnboundedSender<Message>,
    message: WebClientToWebServerControlMessage<S, P>,
    socket_after: ControlSocket,
    table_after: TableView<A>,
    action: ControlAction<S, P>,
    kept: Option<UnboundedSender<Message>>,
    listed: Option<UnboundedSender<Message>>,
    frame: ControlFrame,
    delivery: Delivery,
)
    requires
        control_receiver_channel(receiver) == control_sender_channel(socket.control_channel_tx),
        !socket.set_client_control_channel,
        table.channels.contains_key(message.web_client_id@),
        handled(
            socket,
            table,
            copy,
            ControlEvent::Message(message),
            socket_after,
            table_after,
            action,
        ),
        control_delivery(
            None,
            kept,
            table_after.control_tx(message.web_client_id@),
            listed,
            frame,
            delivery,
        ),
    ensures
        kept matches Some(used) && control_sender_channel(used) == control_receiver_channel(
            receiver,
        ),
{
}

/// What a control socket's handling has come to: the table, and whether the socket is recorded.
#[verifier::ext_equal]
pub struct ControlState<A> {
    pub table: TableView<A>,
    pub registered: bool,
}

/// The event is reported and otherwise ignored.
pub open spec fn is_ignored<S, P>(event: ControlEvent<S, P>) -> bool {
    event is Undecodable || event is Unsupported
}

/// The event ends the handling.
pub open spec fn ends<S, P>(event: ControlEvent<S, P>) -> bool {
    event is Close || event is Ended
}

/// The table that a message is routed in: with the copy of the socket's handle recorded for the
/// client that the message came from, unless the socket is recorded already.
pub open spec fn routing_table<A>(
    state: ControlState<A>,
    copy: UnboundedSender<Message>,
    client: Seq<char>,
) -> TableView<A> {
    if state.registered {
        state.table
    } else {
        state.table.with_control_tx(client, copy)
    }
}

/// What an event brings the handling to.
pub open spec fn control_next<A, S, P>(
    state: ControlState<A>,
    copy: UnboundedSender<Message>,
    event: ControlEvent<S, P>,
) -> ControlState<A> {
    match event {
        ControlEvent::Message(message) => {
            let id = message.web_client_id@;
            let table = routing_table(state, copy, id);
            ControlState {
                table: if table.channels.contains_key(id) && message.payload is DetachOtherClients {
                    table.with_owner(id)
                } else {
                    table
                },
                registered: true,
            }
        },
        _ => state,
    }
}

/// What is sent to session servers about an event, and for which client.
pub open spec fn control_forwards<A, S, P>(
    state: ControlState<A>,
    copy: UnboundedSender<Message>,
    event: ControlEvent<S, P>,
) -> Seq<(String, ClientToServerMsg<S, P>)> {
    match event {
        ControlEvent::Message(message) => {
            let id = message.web_client_id;
            let table = routing_table(state, copy, id@);
            if !table.channels.contains_key(id@) {
                Seq::empty()
            } else {
                match message.payload {
                    WebClientToWebServerControlMessagePayload::TerminalResize(size) => {
                        if table.may_resize(id@) {
                            seq![(id, ClientToServerMsg::TerminalResize(size))]
                        } else {
                            Seq::empty()
                        }
                    },
                    WebClientToWebServerControlMessagePayload::TerminalPixelDimensions(pixels) => {
                        seq![(id, ClientToServerMsg::TerminalPixelDimensions(pixels))]
                    },
                    WebClientToWebServerControlMessagePayload::DetachOtherClients => Seq::empty(),
                }
            }
        },
        _ => Seq::empty(),
    }
}

/// What an action sends to session servers.
pub open spec fn forwarded<S, P>(action: ControlAction<S, P>) -> Seq<
    (String, ClientToServerMsg<S, P>),
> {
    match action {
        ControlAction::Forward(client, message) => seq![(client, message)],
        _ => Seq::empty(),
    }
}

/// What the handling of a sequence of events comes to, and what it sends to session servers. The
/// handling stops at the first event that ends it.
pub open spec fn control_run<A, S, P>(
    state: ControlState<A>,
    copy: UnboundedSender<Message>,
    events: Seq<ControlEvent<S, P>>,
) -> (ControlState<A>, Seq<(String, ClientToServerMsg<S, P>)>)
    decreases events.len(),
{
    if events.len() == 0 || ends(events[0]) {
        (state, Seq::empty())
    } else {
        let rest = control_run(
            control_next(state, copy, events[0]),
            copy,
            events.drop_first(),
        );
        (rest.0, control_forwards(state, copy, events[0]) + rest.1)
    }
}

/// Every event of a control socket is handled as one step of [`control_run`], it stops the handling
/// where it ends it, and it puts nothing into the socket's channel.
pub proof fn law_handling_is_a_step_of_the_run<A, S, P>(
    socket: ControlSocket,
    table: TableView<A>,
    copy: UnboundedSender<Message>,
    event: ControlEvent<S, P>,
    socket_after: ControlSocket,
    table_after: TableView<A>,
    action: ControlAction<S, P>,
)
    requires
        handled(socket, table, copy, event, socket_after, table_after, action),
    ensures
        ({
            let state = ControlState { table, registered: socket.set_client_control_channel };
            &&& control_next(state, copy, event) == ControlState {
                table: table_after,
                registered: socket_after.set_client_control_channel,
            }
            &&& control_forwards(state, copy, event) == forwarded(action)
        }),
        action is Stop <==> ends(event),
        control_sent(socket_after.control_channel_tx) == control_sent(socket.control_channel_tx),
{
    lemma_taken_push(control_uses(socket.control_channel_tx), HandleUse::Copied);
}

/// A run does not see ignored events.
proof fn lemma_run_skips_ignored<A, S, P>(
    state: ControlState<A>,
    copy: UnboundedSender<Message>,
    events: Seq<ControlEvent<S, P>>,
)
    ensures
        control_run(state, copy, events) == control_run(
            state,
            copy,
            events.filter(|event: ControlEvent<S, P>| !is_ignored(event)),
        ),
    decreases events.len(),
{
    let keep = |event: ControlEvent<S, P>| !is_ignored(event);
    reveal_with_fuel(Seq::filter, 2);
    if events.len() > 0 {
        let first = seq![events[0]];
        let rest = events.drop_first();
        assert(events =~= first + rest);
        Seq::filter_distributes_over_add(first, rest, keep);
        assert(first.drop_last() =~= Seq::empty());
        assert(first.filter(keep) =~= if keep(events[0]) {
            first
        } else {
            Seq::empty()
        });
        let kept = events.filter(keep);
        let state_after = control_next(state, copy, events[0]);
        lemma_run_skips_ignored(state_after, copy, rest);
        if keep(events[0]) {
            assert(kept[0] == events[0]);
            assert(kept.drop_first() =~= rest.filter(keep));
        } else {
            assert(kept =~= rest.filter(keep));
            assert(state_after == state);
            assert(control_run(state, copy, events).1 =~= control_run(state, copy, rest).1);
        }
    }
}

/// Texts that hold no control message, and messages of kinds that control sockets do not carry,
/// change nothing wherever they stand: two sequences of events that differ in them alone come to
/// the same table and send the same to session servers.
pub proof fn law_ignored_events_change_nothing<A, S, P>(
    state: ControlState<A>,
    copy: UnboundedSender<Message>,
    events: Seq<ControlEvent<S, P>>,
    others: Seq<ControlEvent<S, P>>,
)
    requires
        events.filter(|event: ControlEvent<S, P>| !is_ignored(event)) == others.filter(
            |event: ControlEvent<S, P>| !is_ignored(event),
        ),
    ensures
        control_run(state, copy, events) == control_run(state, copy, others),
{
    lemma_run_skips_ignored(state, copy, events);
    lemma_run_skips_ignored(state, copy, others);
}

/// What follows the event that ends the handling changes nothing.
pub proof fn law_nothing_follows_the_end<A, S, P>(
    state: ControlState<A>,
    copy: UnboundedSender<Message>,
    events: Seq<ControlEvent<S, P>>,
    more: Seq<ControlEvent<S, P>>,
)
    requires
        exists|i: int| 0 <= i < events.len() && ends(#[trigger] events[i]),
    ensures
        control_run(state, copy, events + more) == control_run(state, copy, events),
    decreases events.len(),
{
    assert((events + more)[0] == events[0]);
    if !ends(events[0]) {
        let rest = events.drop_first();
        let i = choose|i: int| 0 <= i < events.len() && ends(#[trigger] events[i]);
        assert(rest[i - 1] == events[i]);
        assert((events + more).drop_first() =~= rest + more);
        law_nothing_follows_the_end(control_next(state, copy, events[0]), copy, rest, more);
    }
}

/// No event of a control socket removes a client from the table, or adds one, or changes the
/// session that a client is attached to.
pub proof fn law_control_socket_removes_no_one<A, S, P>(
    state: ControlState<A>,
    copy: UnboundedSender<Message>,
    events: Seq<ControlEvent<S, P>>,
    client: Seq<char>,
)
    ensures
        control_run(state, copy, events).0.table.channels.contains_key(client)
            == state.table.channels.contains_key(client),
        control_run(state, copy, events).0.table.sessions == state.table.sessions,
    decreases events.len(),
{
    if events.len() > 0 && !ends(events[0]) {
        law_control_socket_removes_no_one(
            control_next(state, copy, events[0]),
            copy,
            events.drop_first(),
            client,
        );
    }
}

/// A terminal socket says once that its client exited, when it stops, over the connection that the
/// client had when the socket opened; it stops at the first event that closes or ends it. It
/// removes the client if and only if it was closed, and changes the table in no other way, whatever
/// others do to the table between its events.
pub proof fn law_exit_is_said_once<A, S, P>(
    socket: TerminalSocket<A>,
    events: Seq<TerminalEvent>,
    before: Seq<TableView<A>>,
    after: Seq<TableView<A>>,
    actions: Seq<TerminalAction<A, S, P>>,
    i: int,
)
    requires
        actions.len() > 0,
        events.len() == actions.len(),
        before.len() == actions.len(),
        after.len() == actions.len(),
        forall|j: int|
            0 <= j < actions.len() ==> crate::terminal_socket::handled(
                socket,
                before[j],
                events[j],
                after[j],
                #[trigger] actions[j],
            ),
        forall|j: int| 0 <= j < actions.len() - 1 ==> (#[trigger] actions[j]) !is Exit,
        actions.last() is Exit,
        0 <= i < actions.len(),
    ensures
        actions[i] is Exit <==> i == actions.len() - 1,
        events[i] is Close || events[i] is Ended <==> i == actions.len() - 1,
        actions[i] matches TerminalAction::Exit(os_api, message, removed) ==> *os_api
            == socket.os_api && message is ClientExited,
        after[i] == if events[i] is Close {
            before[i].without_client(socket.web_client_id@)
        } else {
            before[i]
        },
{
    assert(actions[actions.len() - 1] is Exit);
}

/// A path is among those discovered where it is the path of an entry that is a socket, and
/// nowhere else.
pub proof fn law_discovery_finds_the_sockets<P, E>(
    entries: Seq<Result<DirEntry<P, E>, E>>,
    path: P,
)
    ensures
        socket_paths(entries).contains(path) <==> exists|i: int|
            0 <= i < entries.len() && entry_is_socket(#[trigger] entries[i])
                && entries[i]->Ok_0.path == path,
{
    let keep = |entry: Result<DirEntry<P, E>, E>| entry_is_socket(entry);
    let kept = entries.filter(keep);
    if socket_paths(entries).contains(path) {
        let j = choose|j: int| 0 <= j < kept.len() && socket_paths(entries)[j] == path;
        entries.lemma_filter_pred(keep, j);
        entries.lemma_filter_contains_rev(keep, kept[j]);
        let i = choose|i: int| 0 <= i < entries.len() && entries[i] == kept[j];
        assert(entry_is_socket(entries[i]) && entries[i]->Ok_0.path == path);
    }
    if exists|i: int|
        0 <= i < entries.len() && entry_is_socket(#[trigger] entries[i]) && entries[i]->Ok_0.path
            == path {
        let i = choose|i: int|
            0 <= i < entries.len() && entry_is_socket(#[trigger] entries[i])
                && entries[i]->Ok_0.path == path;
        entries.lemma_filter_contains(keep, i);
        let j = choose|j: int| 0 <= j < kept.len() && kept[j] == entries[i];
        assert(socket_paths(entries)[j] == path);
    }
}

/// A path is connected to where it is that of a socket with a text name before which nothing went
/// wrong, and nowhere else.
pub proof fn law_shutdown_reaches_the_sockets<E>(
    entries: Seq<Result<ServerEntry<E>, E>>,
    path: Seq<char>,
)
    ensures
        instructed(entries).contains(path) <==> exists|i: int|
            0 <= i < entries.len() && shutdown_target(#[trigger] entries[i]) == Some(path)
                && unhindered(entries.take(i)),
    decreases entries.len(),
{
    if entries.len() > 0 {
        let before = entries.drop_last();
        let last = entries.len() - 1;
        law_shutdown_reaches_the_sockets(before, path);
        assert(entries.take(last) =~= before);
        assert(forall|i: int| 0 <= i < last ==> #[trigger] before.take(i) =~= entries.take(i));
        if instructed(entries).contains(path) {
            let k = choose|k: int|
                0 <= k < instructed(entries).len() && instructed(entries)[k] == path;
            if k < instructed(before).len() {
                assert(instructed(before)[k] == path);
                let i = choose|i: int|
                    0 <= i < before.len() && shutdown_target(#[trigger] before[i]) == Some(path)
                        && unhindered(before.take(i));
                assert(shutdown_target(entries[i]) == Some(path));
                assert(before.take(i) =~= entries.take(i));
            } else {
                assert(shutdown_target(entries[last]) == Some(path));
            }
        }
        if exists|i: int|
            0 <= i < entries.len() && shutdown_target(#[trigger] entries[i]) == Some(path)
                && unhindered(entries.take(i)) {
            let i = choose|i: int|
                0 <= i < entries.len() && shutdown_target(#[trigger] entries[i]) == Some(path)
                    && unhindered(entries.take(i));
            if i == last {
                assert(instructed(entries).last() == path);
            } else {
                assert(shutdown_target(before[i]) == Some(path));
                assert(before.take(i) =~= entries.take(i));
                let k = choose|k: int|
                    0 <= k < instructed(before).len() && instructed(before)[k] == path;
                assert(instructed(entries)[k] == path);
            }
        }
    }
}

/// A query goes from one stage to another in this many steps.
pub open spec fn leads_to(from: QueryStage, to: QueryStage, steps: nat) -> bool
    decreases steps,
{
    if steps == 0 {
        from == to
    } else {
        from.successor() matches Some(next) && leads_to(next, to, (steps - 1) as nat)
    }
}

/// How many stages come before this one.
spec fn rank(stage: QueryStage) -> nat {
    match stage {
        QueryStage::Connect => 0,
        QueryStage::LimitReads => 1,
        QueryStage::LimitWrites => 2,
        QueryStage::SendInstruction => 3,
        QueryStage::CloseWriteSide => 4,
        QueryStage::ReadResponse => 5,
    }
}

/// Every step goes to the next rank.
proof fn lemma_steps_add_up(from: QueryStage, to: QueryStage, steps: nat)
    requires
        leads_to(from, to, steps),
    ensures
        rank(to) == rank(from) + steps,
    decreases steps,
{
    if steps > 0 {
        lemma_steps_add_up(from.successor()->0, to, (steps - 1) as nat);
    }
}

/// A query goes through no stage twice; so it sends one instruction per connection.
pub proof fn law_query_repeats_no_stage(stage: QueryStage, steps: nat)
    requires
        steps > 0,
    ensures
        !leads_to(stage, stage, steps),
{
    if leads_to(stage, stage, steps) {
        lemma_steps_add_up(stage, stage, steps);
    }
}

/// A query that begins by connecting comes to reading the response, and passes every stage on the
/// way.
pub proof fn law_query_passes_every_stage(stage: QueryStage)
    ensures
        leads_to(QueryStage::Connect, QueryStage::ReadResponse, 5),
        exists|sooner: nat, later: nat|
            #![trigger leads_to(QueryStage::Connect, stage, sooner), leads_to(stage, QueryStage::ReadResponse, later)]
            sooner + later == 5 && leads_to(QueryStage::Connect, stage, sooner) && leads_to(
                stage,
                QueryStage::ReadResponse,
                later,
            ),
{
    reveal_with_fuel(leads_to, 6);
    assert(leads_to(QueryStage::Connect, stage, rank(stage)));
    assert(leads_to(stage, QueryStage::ReadResponse, (5 - rank(stage)) as nat));
}

/// The response is read only after the write side was closed, and that is done only after the
/// instruction was sent.
pub proof fn law_query_sends_before_it_reads(earlier: QueryStage, before: QueryStage)
    requires
        earlier.successor() == Some(before),
        before.successor() == Some(QueryStage::ReadResponse),
    ensures
        before == QueryStage::CloseWriteSide,
        earlier == QueryStage::SendInstruction,
{
}

} // verus!
