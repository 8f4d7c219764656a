//! The channels to a client's two web sockets, and the token that stops its rendering task.
//!
//! A channel takes any number of messages. tokio ends the process if the number of those that wait
//! in one no longer fits into a machine word; memory runs out long before.

use axum::extract::ws::{CloseFrame, Message};
use tokio::sync::mpsc::{unbounded_channel, UnboundedReceiver, UnboundedSender};
use tokio_util::sync::CancellationToken;
use vstd::prelude::*;

verus! {

/// The sending half of one of tokio's unbounded channels.
#[verifier::external_type_specification]
#[verifier::external_body]
#[verifier::reject_recursive_types(T)]
pub struct ExUnboundedSender<T>(UnboundedSender<T>);

/// The receiving half of one of tokio's unbounded channels.
#[verifier::external_type_specification]
#[verifier::external_body]
#[verifier::reject_recursive_types(T)]
pub struct ExUnboundedReceiver<T>(UnboundedReceiver<T>);

/// One of axum's web socket messages.
#[verifier::external_type_specification]
#[verifier::external_body]
pub struct ExMessage(Message);

/// One of tokio-util's cancellation tokens.
#[verifier::external_type_specification]
#[verifier::external_body]
pub struct ExCancellationToken(CancellationToken);

/// A message on a control socket.
pub enum ControlFrame {
    /// A text message.
    Text(Seq<char>),
    /// The message that closes the socket, with its code and reason.
    Close(u16, Seq<char>),
}

/// Which channel a handle puts output into: a number by which terminal channels are told apart.
pub uninterp spec fn terminal_sender_channel(sender: UnboundedSender<String>) -> int;

/// Which channel a receiver takes output out of.
pub uninterp spec fn terminal_receiver_channel(receiver: UnboundedReceiver<String>) -> int;

/// Which channel a handle puts messages into: a number by which control channels are told apart.
pub uninterp spec fn control_sender_channel(sender: UnboundedSender<Message>) -> int;

/// Which channel a receiver takes messages out of.
pub uninterp spec fn control_receiver_channel(receiver: UnboundedReceiver<Message>) -> int;

/// One use of a handle to a channel.
pub enum HandleUse<M> {
    /// A message was handed to the channel; the flag tells whether the channel took it.
    Offered(M, bool),
    /// Another handle to the channel was made from this one.
    Copied,
}

/// What a handle to a terminal channel has been used for, oldest first. A copy of a handle starts
/// with no uses of its own.
pub uninterp spec fn terminal_uses(sender: UnboundedSender<String>) -> Seq<HandleUse<Seq<char>>>;

/// What a handle to a control channel has been used for, oldest first. A copy of a handle starts
/// with no uses of its own.
pub uninterp spec fn control_uses(sender: UnboundedSender<Message>) -> Seq<HandleUse<ControlFrame>>;

/// The messages that a channel took in these uses of a handle, in the same order.
pub open spec fn taken<M>(uses: Seq<HandleUse<M>>) -> Seq<M>
    decreases uses.len(),
{
    if uses.len() == 0 {
        Seq::empty()
    } else {
        match uses.last() {
            HandleUse::Offered(message, true) => taken(uses.drop_last()).push(message),
            _ => taken(uses.drop_last()),
        }
    }
}

/// What has been put into a terminal channel through this handle, oldest first.
pub open spec fn terminal_sent(sender: UnboundedSender<String>) -> Seq<Seq<char>> {
    taken(terminal_uses(sender))
}

/// What has been put into a control channel through this handle, oldest first.
pub open spec fn control_sent(sender: UnboundedSender<Message>) -> Seq<ControlFrame> {
    taken(control_uses(sender))
}

/// One more use adds a message that was taken, and nothing else.
pub proof fn lemma_taken_push<M>(uses: Seq<HandleUse<M>>, next: HandleUse<M>)
    ensures
        taken(uses.push(next)) == match next {
            HandleUse::Offered(message, true) => taken(uses).push(message),
            _ => taken(uses),
        },
{
    assert(uses.push(next).drop_last() =~= uses);
}

/// The handle was copied once, and used for nothing else.
pub open spec fn terminal_lent(
    before: UnboundedSender<String>,
    after: UnboundedSender<String>,
) -> bool {
    &&& terminal_uses(after) == terminal_uses(before).push(HandleUse::Copied)
    &&& terminal_sender_channel(after) == terminal_sender_channel(before)
}

/// The handle was copied once, and used for nothing else.
pub open spec fn control_lent(
    before: UnboundedSender<Message>,
    after: UnboundedSender<Message>,
) -> bool {
    &&& control_uses(after) == control_uses(before).push(HandleUse::Copied)
    &&& control_sender_channel(after) == control_sender_channel(before)
}

/// The handle is a copy of the other one that has not been used.
pub open spec fn fresh_terminal_copy(
    copy: UnboundedSender<String>,
    original: UnboundedSender<String>,
) -> bool {
    &&& terminal_uses(copy) == Seq::<HandleUse<Seq<char>>>::empty()
    &&& terminal_sender_channel(copy) == terminal_sender_channel(original)
}

/// The handle is a copy of the other one that has not been used.
pub open spec fn fresh_control_copy(
    copy: UnboundedSender<Message>,
    original: UnboundedSender<Message>,
) -> bool {
    &&& control_uses(copy) == Seq::<HandleUse<ControlFrame>>::empty()
    &&& control_sender_channel(copy) == control_sender_channel(original)
}

/// `unbounded_channel` makes a new channel and both halves of it, of which no use has been made:
/// one for the output of a terminal.
#[verifier::external_body]
pub(crate) fn terminal_channel() -> (halves: (UnboundedSender<String>, UnboundedReceiver<String>))
    ensures
        terminal_uses(halves.0) == Seq::<HandleUse<Seq<char>>>::empty(),
        terminal_sender_channel(halves.0) == terminal_receiver_channel(halves.1),
{
    unbounded_channel()
}

/// `unbounded_channel` makes a new channel and both halves of it, of which no use has been made:
/// one for control messages.
#[verifier::external_body]
pub(crate) fn control_channel() -> (halves: (UnboundedSender<Message>, UnboundedReceiver<Message>))
    ensures
        control_uses(halves.0) == Seq::<HandleUse<ControlFrame>>::empty(),
        control_sender_channel(halves.0) == control_receiver_channel(halves.1),
{
    unbounded_channel()
}

/// `UnboundedSender::clone` on a terminal channel: makes another handle to the same channel, and
/// puts nothing into it.
#[verifier::external_body]
pub(crate) fn copy_terminal_handle(channel: &mut UnboundedSender<String>) -> (copy: UnboundedSender<
    String,
>)
    ensures
        terminal_uses(*final(channel)) == terminal_uses(*old(channel)).push(HandleUse::Copied),
        terminal_sender_channel(*final(channel)) == terminal_sender_channel(*old(channel)),
        terminal_uses(copy) == Seq::<HandleUse<Seq<char>>>::empty(),
        terminal_sender_channel(copy) == terminal_sender_channel(*old(channel)),
{
    channel.clone()
}

/// `UnboundedSender::clone` on a control channel: makes another handle to the same channel, and
/// puts nothing into it.
#[verifier::external_body]
pub(crate) fn copy_control_handle(channel: &mut UnboundedSender<Message>) -> (copy: UnboundedSender<
    Message,
>)
    ensures
        control_uses(*final(channel)) == control_uses(*old(channel)).push(HandleUse::Copied),
        control_sender_channel(*final(channel)) == control_sender_channel(*old(channel)),
        control_uses(copy) == Seq::<HandleUse<ControlFrame>>::empty(),
        control_sender_channel(copy) == control_sender_channel(*old(channel)),
{
    channel.clone()
}

/// `UnboundedSender::send` on a terminal channel: hands the text to the channel, which takes it
/// unless the receiving half is closed. Whether it is closed rests with the receiver.
#[verifier::external_body]
pub(crate) fn send_terminal_text(channel: &mut UnboundedSender<String>, text: String) -> (accepted:
    bool)
    ensures
        terminal_uses(*final(channel)) == terminal_uses(*old(channel)).push(
            HandleUse::Offered(text@, accepted),
        ),
        terminal_sender_channel(*final(channel)) == terminal_sender_channel(*old(channel)),
{
    channel.send(text).is_ok()
}

/// `UnboundedSender::send` on a control channel, with axum's text message: hands the message to
/// the channel, which takes it unless the receiving half is closed. Whether it is closed rests
/// with the receiver.
#[verifier::external_body]
pub(crate) fn send_control_text(channel: &mut UnboundedSender<Message>, text: String) -> (accepted:
    bool)
    ensures
        control_uses(*final(channel)) == control_uses(*old(channel)).push(
            HandleUse::Offered(ControlFrame::Text(text@), accepted),
        ),
        control_sender_channel(*final(channel)) == control_sender_channel(*old(channel)),
{
    channel.send(Message::Text(text.into())).is_ok()
}

/// `UnboundedSender::send` on a control channel, with axum's close message: hands the message to
/// the channel, which takes it unless the receiving half is closed. Whether it is closed rests
/// with the receiver.
#[verifier::external_body]
pub(crate) fn send_control_close(
    channel: &mut UnboundedSender<Message>,
    code: u16,
    reason: String,
) -> (accepted: bool)
    ensures
        control_uses(*final(channel)) == control_uses(*old(channel)).push(
            HandleUse::Offered(ControlFrame::Close(code, reason@), accepted),
        ),
        control_sender_channel(*final(channel)) == control_sender_channel(*old(channel)),
{
    channel.send(Message::Close(Some(CloseFrame { code, reason: reason.into() }))).is_ok()
}

/// `CancellationToken::new` makes a token. Nothing is said of it: it matters only where it goes.
#[verifier::external_body]
pub(crate) fn new_token() -> (token: CancellationToken) {
    CancellationToken::new()
}

/// `CancellationToken::clone` makes another handle to the same token: what cancels one of them
/// cancels the other.
#[verifier::external_body]
pub(crate) fn copy_token(token: &CancellationToken) -> (copy: CancellationToken)
    ensures
        copy == *token,
{
    token.clone()
}

/// A token that has been cancelled. Only [`cancel`] makes one.
pub struct CancelledToken {
    token: CancellationToken,
}

impl CancelledToken {
    /// The token that was cancelled.
    pub closed spec fn token(&self) -> CancellationToken {
        self.token
    }
}

/// `CancellationToken::cancel` cancels the token, and with it every clone and child of it; the
/// result holds the token that was cancelled.
#[verifier::external_body]
pub(crate) fn cancel(token: CancellationToken) -> (cancelled: CancelledToken)
    ensures
        cancelled.token() == token,
{
    token.cancel();
    CancelledToken { token }
}

} // verus!
