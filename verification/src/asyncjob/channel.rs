//! The output channel of a scheduler: `crossbeam_channel`'s sending half.

use crate::error::Error;
use crossbeam_channel::{SendError, Sender};
use vstd::prelude::*;

verus! {

/// `crossbeam_channel::Sender`, of which nothing is looked into.
#[verifier::external_type_specification]
#[verifier::external_body]
#[verifier::reject_recursive_types(T)]
pub struct ExSender<T>(Sender<T>);

/// `crossbeam_channel::SendError`, of which nothing is looked into.
#[verifier::external_type_specification]
#[verifier::external_body]
#[verifier::reject_recursive_types(T)]
pub struct ExSendError<T>(SendError<T>);

/// `Sender::send` puts a message on the channel, or hands it back inside the
/// error once every receiver is gone. Which of the two happens depends on
/// the other end of the channel, so nothing is claimed of the result. On a
/// bounded channel that is full the call waits for room.
pub assume_specification<T>[ Sender::<T>::send ](sender: &Sender<T>, msg: T) -> (sent: Result<
    (),
    SendError<T>,
>)
;

/// `SendError`'s `Display` text, which is the same for every message.
#[verifier::external_body]
pub(crate) fn send_error_text<T>(error: &SendError<T>) -> (text: String)
    ensures
        text@ == "sending on a disconnected channel"@,
{
    error.to_string()
}

/// `Clone` for `Sender`: another sending half of the same channel. The
/// clone holds the same reference to the channel as `sender`, so the two
/// are equal; only the channel's count of senders goes up.
pub assume_specification<T>[ <Sender<T> as Clone>::clone ](sender: &Sender<T>) -> (other: Sender<T>)
    ensures
        other == *sender,
;

/// Whether `error` is what a failed send on the output channel gives.
pub open spec fn is_send_error(error: Error) -> bool {
    error matches Error::Generic(message) && message@
        == "send error: sending on a disconnected channel"@
}

/// What a send on the output channel came to, given what the channel
/// answered: done if the channel took the message, the error of a failed
/// send if it handed the message back.
pub fn send_outcome<T>(answer: Result<(), SendError<T>>) -> (sent: Result<(), Error>)
    ensures
        sent is Ok == answer is Ok,
        sent matches Err(e) ==> is_send_error(e),
{
    match answer {
        Ok(()) => Ok(()),
        Err(error) => Err(send_failure(&error)),
    }
}

/// The error for a send that failed with `error`.
pub fn send_failure<T>(error: &SendError<T>) -> (failure: Error)
    ensures
        is_send_error(failure),
{
    let mut message = String::from_str("send error: ");
    message.append(send_error_text(error).as_str());
    proof {
        reveal_strlit("send error: ");
        reveal_strlit("sending on a disconnected channel");
        reveal_strlit("send error: sending on a disconnected channel");
        assert(message@ =~= "send error: sending on a disconnected channel"@);
    }
    Error::Generic(message)
}

} // verus!
