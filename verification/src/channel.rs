//! The `flume` channels that carry tasks between the pool and its runners.
//!
//! Everything in this file is trusted.  A channel is shared between threads,
//! so what a receive gives back depends on every other user of the channel;
//! the receive functions report plain outcomes and promise nothing more.
use vstd::prelude::*;

verus! {

#[verifier::external_type_specification]
#[verifier::external_body]
#[verifier::reject_recursive_types(T)]
pub struct ExSender<T>(flume::Sender<T>);

#[verifier::external_type_specification]
#[verifier::external_body]
#[verifier::reject_recursive_types(T)]
pub struct ExReceiver<T>(flume::Receiver<T>);

#[verifier::external_type_specification]
#[verifier::external_body]
#[verifier::reject_recursive_types(T)]
pub struct ExSelector<'a, T>(flume::Selector<'a, T>);

#[verifier::external_type_specification]
#[verifier::external_body]
pub struct ExRecvError(flume::RecvError);

/// The outcome of a non-blocking receive.
pub enum Received<T> {
    /// A message was taken out of the channel.
    Message(T),
    /// The channel held no message.
    Empty,
    /// The channel held no message and every sender is gone.
    Disconnected,
}

/// `flume::unbounded`: a new channel, as its sending and receiving ends.
/// Nothing is stated of the two handles.
pub assume_specification<T>[ flume::unbounded::<T> ]() -> (flume::Sender<T>, flume::Receiver<T>);

/// `Clone::clone` on a sender: flume's clone shares the same `Arc` of the
/// channel, so Verus sees the clone as the same value.
pub assume_specification<T>[ <flume::Sender<T> as Clone>::clone ](s: &flume::Sender<T>) -> (c: flume::Sender<T>)
    ensures
        c == *s,
;

/// `Clone::clone` on a receiver: flume's clone shares the same `Arc` of the
/// channel, so Verus sees the clone as the same value.
pub assume_specification<T>[ <flume::Receiver<T> as Clone>::clone ](r: &flume::Receiver<T>) -> (c: flume::Receiver<T>)
    ensures
        c == *r,
;

/// `flume::Sender::send`.  On an unbounded channel it never blocks; it fails
/// only when every receiver is gone, and then gives the message back
/// unchanged, which is what the contract states.
#[verifier::external_body]
pub(crate) fn channel_send<T>(s: &flume::Sender<T>, msg: T) -> (r: Result<(), T>)
    ensures
        r matches Err(m) ==> m == msg,
{
    match flume::Sender::send(s, msg) {
        Ok(()) => Ok(()),
        Err(e) => Err(e.0),
    }
}

/// `flume::Receiver::try_recv`, with its error told apart by variant.
#[verifier::external_body]
pub(crate) fn channel_try_recv<T>(r: &flume::Receiver<T>) -> Received<T> {
    match r.try_recv() {
        Ok(t) => Received::Message(t),
        Err(flume::TryRecvError::Empty) => Received::Empty,
        Err(flume::TryRecvError::Disconnected) => Received::Disconnected,
    }
}

/// `flume::Selector::new`, with the first receiver of the selection added
/// at once: a selection over no receiver would wait for good, and this is
/// the only way the library makes a selector, so every selector that
/// reaches `selector_wait` has a receiver.
#[verifier::external_body]
pub(crate) fn selector_new<'a, T>(first: &'a flume::Receiver<T>) -> flume::Selector<'a, Result<T, flume::RecvError>> {
    flume::Selector::new().recv(first, |res| res)
}

/// `flume::Selector::recv`: adds a receiver to the selection; its outcome
/// is handed through unchanged.
#[verifier::external_body]
pub(crate) fn selector_recv<'a, T>(
    sel: flume::Selector<'a, Result<T, flume::RecvError>>,
    r: &'a flume::Receiver<T>,
) -> flume::Selector<'a, Result<T, flume::RecvError>> {
    sel.recv(r, |res| res)
}

/// `flume::Selector::wait`: blocks until one of the receivers yields a
/// message (`Some`) or reports that its channel is closed (`None`).  The
/// selector always holds a receiver (see `selector_new`).
#[verifier::external_body]
pub(crate) fn selector_wait<'a, T>(sel: flume::Selector<'a, Result<T, flume::RecvError>>) -> Option<T> {
    match sel.wait() {
        Ok(t) => Some(t),
        Err(flume::RecvError::Disconnected) => None,
    }
}

} // verus!
