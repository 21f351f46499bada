//! The two queues between the worker and its consumer.
//!
//! They are the standard library's channels.  Nothing is known here about
//! what the other end does, so none of these operations promises anything
//! about its result.

use std::sync::mpsc::{Receiver, Sender, TryRecvError};
use vstd::prelude::*;

verus! {

/// `std::sync::mpsc::Sender`, the sending end of a channel.
#[verifier::external_type_specification]
#[verifier::external_body]
#[verifier::reject_recursive_types(T)]
pub struct ExSender<T>(std::sync::mpsc::Sender<T>);

/// `std::sync::mpsc::Receiver`, the receiving end of a channel.
#[verifier::external_type_specification]
#[verifier::external_body]
#[verifier::reject_recursive_types(T)]
pub struct ExReceiver<T>(std::sync::mpsc::Receiver<T>);

/// `std::sync::mpsc::channel` makes a new channel and returns its two ends.
/// Nothing is claimed of them.
pub assume_specification<T>[ std::sync::mpsc::channel::<T> ]() -> (ends: (Sender<T>, Receiver<T>))
;

/// What one look into a queue found.
#[derive(Debug)]
pub enum Polled<T> {
    /// The oldest item that was waiting.
    Item(T),
    /// Nothing is waiting now.
    Empty,
    /// The queue can never deliver again; the text says why.
    Closed(String),
}

/// Calls `Receiver::try_recv`, which never blocks: it hands out the oldest
/// waiting item, or says that nothing waits, or that all senders are gone.
/// Which of these comes back depends on the other end, so nothing is
/// claimed of the result.
#[verifier::external_body]
pub(crate) fn poll<T>(receiver: &Receiver<T>) -> (polled: Polled<T>) {
    match receiver.try_recv() {
        Ok(item) => Polled::Item(item),
        Err(TryRecvError::Empty) => Polled::Empty,
        Err(error) => Polled::Closed(format!("{}", error)),
    }
}

/// Calls `Sender::send`, which never blocks and fails only when the
/// receiver is gone.  The result says whether the item was taken; whether
/// it is depends on the other end, so nothing is claimed of it.
#[verifier::external_body]
pub(crate) fn offer<T>(sender: &Sender<T>, item: T) -> (taken: bool) {
    match sender.send(item) {
        Ok(()) => true,
        Err(_) => false,
    }
}

} // verus!
