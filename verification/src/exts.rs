//! Declarations and wrappers for the outside types the relay works with: the
//! protocol message and the per-connection unbounded channel. Everything here
//! is taken on trust; each item's doc comment names the outside function it
//! relies on.

use vstd::prelude::*;
use hyper_tungstenite::tungstenite::Message;
use tokio::sync::mpsc::UnboundedReceiver;
use tokio::sync::mpsc::UnboundedSender;

verus! {

/// The protocol message carried between clients. Opaque to the relay: it is
/// only classified (close or not) and passed along unchanged.
#[verifier::external_type_specification]
#[verifier::external_body]
pub struct ExMessage(Message);

/// The producer half of a connection's outbound queue.
#[verifier::external_type_specification]
#[verifier::external_body]
#[verifier::reject_recursive_types(T)]
pub struct ExUnboundedSender<T>(UnboundedSender<T>);

/// The consumer half of a connection's outbound queue.
#[verifier::external_type_specification]
#[verifier::external_body]
#[verifier::reject_recursive_types(T)]
pub struct ExUnboundedReceiver<T>(UnboundedReceiver<T>);

/// Relies on tokio's `UnboundedSender::clone`: the clone is a handle to the
/// same channel as the original, indistinguishable to a sender.
pub assume_specification<T>[ <UnboundedSender<T> as Clone>::clone ](
    s: &UnboundedSender<T>,
) -> (r: UnboundedSender<T>)
    ensures
        r == *s,
;

/// Relies on tungstenite's `Message::clone`: the clone is an equal message.
pub assume_specification[ <Message as Clone>::clone ](m: &Message) -> (r: Message)
    ensures
        r == *m,
;

/// Relies on tokio's `mpsc::unbounded_channel`: returns the two halves of a
/// fresh unbounded queue. Nothing is assumed of the value returned.
#[verifier::external_body]
pub(crate) fn new_message_channel() -> (UnboundedSender<Message>, UnboundedReceiver<Message>) {
    tokio::sync::mpsc::unbounded_channel()
}

/// Relies on tokio's `UnboundedSender::send`: queues the message for the
/// consumer half; fails exactly when the consumer half has been dropped, which
/// depends on outside state, so nothing is assumed of the outcome. The call
/// never blocks and never panics.
#[verifier::external_body]
pub(crate) fn send_message(tx: &UnboundedSender<Message>, m: Message) -> bool {
    tx.send(m).is_ok()
}

/// Whether a message is a close frame. The name for what `Message::is_close`
/// returns: a function of the message alone.
pub uninterp spec fn is_close_of(m: Message) -> bool;

/// Relies on tungstenite's `Message::is_close`: reports whether the message is
/// a close frame, a variant test that depends on the message alone.
#[verifier::external_body]
pub(crate) fn message_is_close(m: &Message) -> (r: bool)
    ensures
        r == is_close_of(*m),
{
    m.is_close()
}

} // verus!
