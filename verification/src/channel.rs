//! The bounded message queue that every sink of the library is built on.
//!
//! The queue itself is `tokio::sync::mpsc`; this module declares its two
//! handle types and gives each call the library makes a small trusted
//! wrapper. What a queue holds is shared by all the handles of one
//! channel and changes under other tasks, so none of these wrappers names it.
use vstd::prelude::*;
use tokio::sync::mpsc::{Receiver, Sender, error::TrySendError};

verus! {

/// The sending half of a `tokio::sync::mpsc` bounded channel.
#[verifier::external_type_specification]
#[verifier::external_body]
#[verifier::reject_recursive_types(T)]
pub struct ExSender<T>(Sender<T>);

/// The receiving half of a `tokio::sync::mpsc` bounded channel.
#[verifier::external_type_specification]
#[verifier::external_body]
#[verifier::reject_recursive_types(T)]
pub struct ExReceiver<T>(Receiver<T>);

/// The largest buffer that `tokio::sync::mpsc::channel` accepts: its
/// semaphore holds at most `usize::MAX >> 3` permits, which is `usize::MAX / 8`.
pub const MAX_BUFFER: usize = usize::MAX / 8;

/// Why a message could not be queued; the message is handed back.
pub enum PushError<M> {
    /// Every slot of the queue is taken.
    Full(M),
    /// The receiving half is gone.
    Closed(M),
}

impl<M> PushError<M> {
    /// The message that was not queued.
    pub open spec fn message(self) -> M {
        match self {
            PushError::Full(m) => m,
            PushError::Closed(m) => m,
        }
    }

    /// Gives back the message that was not queued.
    pub fn into_message(self) -> (m: M)
        ensures
            m == self.message(),
    {
        match self {
            PushError::Full(m) => m,
            PushError::Closed(m) => m,
        }
    }
}

/// Calls `tokio::sync::mpsc::channel(size)`, which opens a queue of `size`
/// slots and returns its two halves. Tokio asserts `0 < size` and that the
/// size fits its semaphore (`size <= usize::MAX >> 3`); both are required here.
/// Nothing is claimed of the two handles beyond their types.
#[verifier::external_body]
pub(crate) fn open_channel<M>(size: usize) -> (Sender<M>, Receiver<M>)
    requires
        0 < size <= MAX_BUFFER,
{
    tokio::sync::mpsc::channel(size)
}

/// `Sender::clone` gives one more handle on the same queue: a `Sender` is
/// nothing but a `Tx` holding one `Arc` of the shared channel, and the clone
/// holds a clone of that `Arc` (the count of senders it bumps lives in the
/// shared channel). Like a cloned `Arc`, the clone is claimed equal to the
/// original.
pub assume_specification<T>[ <Sender<T> as Clone>::clone ](tx: &Sender<T>) -> (r: Sender<T>)
    ensures
        r == *tx,
;

/// Calls `Sender::try_send`. Tokio queues the message when a slot is free
/// and the receiver still exists; otherwise it returns `Full` or `Closed`
/// with the message inside, which this wrapper hands back unchanged. Which
/// outcome comes depends on the queue's state, so only that is claimed.
#[verifier::external_body]
pub(crate) fn try_send<M>(tx: &Sender<M>, m: M) -> (r: Result<(), PushError<M>>)
    ensures
        r matches Err(e) ==> e.message() == m,
{
    match tx.try_send(m) {
        Ok(()) => Ok(()),
        Err(TrySendError::Full(m)) => Err(PushError::Full(m)),
        Err(TrySendError::Closed(m)) => Err(PushError::Closed(m)),
    }
}

} // verus!
