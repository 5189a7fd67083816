//! The single-shot channels that carry the startup report and the shutdown signal
//! between a server handle and its dispatcher.

use vstd::prelude::*;

verus! {

/// `oneshot::Sender`: the sending end of a channel, carried through as an opaque value.
#[verifier::external_type_specification]
#[verifier::external_body]
#[verifier::reject_recursive_types(T)]
pub struct ExSender<T>(oneshot::Sender<T>);

/// `oneshot::Receiver`: the receiving end of a channel, carried through as an opaque
/// value.
#[verifier::external_type_specification]
#[verifier::external_body]
#[verifier::reject_recursive_types(T)]
pub struct ExReceiver<T>(oneshot::Receiver<T>);

/// `oneshot::SendError`: what a send that found no receiver gives back, carried
/// through as an opaque value.
#[verifier::external_type_specification]
#[verifier::external_body]
#[verifier::reject_recursive_types(T)]
pub struct ExSendError<T>(oneshot::SendError<T>);

/// `oneshot::RecvError`: the error of awaiting a receiver whose sender is gone. The
/// library never looks at it; it is declared because the receiver's type names it.
#[verifier::external_type_specification]
#[verifier::external_body]
pub struct ExRecvError(oneshot::RecvError);

/// `oneshot::channel`: creates a channel and returns its two ends. Nothing is claimed
/// of the ends beyond their types.
pub assume_specification<T>[ oneshot::channel::<T> ]() -> (ends: (
    oneshot::Sender<T>,
    oneshot::Receiver<T>,
));

/// `oneshot::Sender::send`: puts the message into the channel and consumes the sender.
/// Whether the message was accepted depends on whether the receiver is still alive, so
/// nothing is claimed of the result.
pub assume_specification<T>[ oneshot::Sender::<T>::send ](
    sender: oneshot::Sender<T>,
    message: T,
) -> (sent: Result<(), oneshot::SendError<T>>);

} // verus!
