//! Sending ends of multi-producer, multi-consumer channels, as the spawner
//! of tasks sees them.
use vstd::prelude::*;
use crate::channel::channel_send;

verus! {

/// The error of a send on a channel that nobody receives from any more: it
/// holds the message that could not be delivered.
pub struct SendError<T>(pub T);

/// The sending end of a channel.
pub trait ChannelSender: Clone {
    type T;

    /// Sends `msg`.  When the send fails, the message comes back unchanged
    /// inside the error.
    fn send(&self, msg: Self::T) -> (r: Result<(), SendError<Self::T>>)
        ensures
            r matches Err(e) ==> e.0 == msg,
    ;
}

impl<T> ChannelSender for flume::Sender<T> {
    type T = T;

    fn send(&self, msg: T) -> (r: Result<(), SendError<T>>) {
        match channel_send(self, msg) {
            Ok(()) => Ok(()),
            Err(m) => Err(SendError(m)),
        }
    }
}

} // verus!
