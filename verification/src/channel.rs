//! The ends of a `flume` channel, and the channel operations that the
//! library makes.
//!
//! What a channel holds changes under the feet of whoever holds a handle on
//! it (the other end lives on another thread), so no contract here speaks of
//! its contents: each says what holds of every outcome.

use vstd::prelude::*;
use flume::{Receiver, Sender};
use crate::console::Notification;
use crate::packets::Request;

verus! {

#[verifier::external_type_specification]
#[verifier::external_body]
#[verifier::reject_recursive_types(T)]
pub struct ExSender<T>(Sender<T>);

#[verifier::external_type_specification]
#[verifier::external_body]
#[verifier::reject_recursive_types(T)]
pub struct ExReceiver<T>(Receiver<T>);

/// The capacity of the request channel that `tx` sends on, as
/// `flume::Sender::capacity` reports it: `Some(cap)` for a channel made by
/// `flume::bounded(cap)`, fixed when the channel is made.
pub uninterp spec fn request_capacity(tx: Sender<Request>) -> Option<usize>;

/// The capacity of the notification channel that `rx` receives from, as
/// `flume::Receiver::capacity` reports it: `Some(cap)` for a channel made by
/// `flume::bounded(cap)`, fixed when the channel is made.
pub uninterp spec fn notification_capacity(rx: Receiver<Notification>) -> Option<usize>;

/// Calls `flume::bounded` for a channel of requests: the channel holds at
/// most `cap` requests (a rendezvous channel for `cap == 0`), and the
/// sending end reports that capacity.
#[verifier::external_body]
pub(crate) fn bounded_requests(cap: usize) -> (r: (Sender<Request>, Receiver<Request>))
    ensures
        request_capacity(r.0) == Some(cap),
{
    flume::bounded(cap)
}

/// Calls `flume::bounded` for a channel of notifications: the channel
/// holds at most `cap` notifications, and the receiving end reports that
/// capacity.
#[verifier::external_body]
pub(crate) fn bounded_notifications(cap: usize) -> (r: (Sender<Notification>, Receiver<Notification>))
    ensures
        notification_capacity(r.1) == Some(cap),
{
    flume::bounded(cap)
}

/// Calls `<flume::Sender<T> as Clone>::clone`, a second handle on the same
/// channel (the same shared state, behind a counted reference): the copy
/// stands for the same sender.
#[verifier::external_body]
pub(crate) fn clone_sender<T>(tx: &Sender<T>) -> (r: Sender<T>)
    ensures
        r == *tx,
{
    tx.clone()
}

/// Calls `flume::Sender::try_send`, which never waits: it fails when the
/// channel is full or has no receiver left, and then hands the message back
/// (inside `TrySendError::Full` or `TrySendError::Disconnected`).
/// Which of the outcomes comes depends on the other end, so the contract
/// only says that a refused message comes back unchanged.
#[verifier::external_body]
pub(crate) fn try_send<T>(tx: &Sender<T>, msg: T) -> (r: Result<(), T>)
    ensures
        r matches Err(back) ==> back == msg,
{
    match tx.try_send(msg) {
        Ok(()) => Ok(()),
        Err(flume::TrySendError::Full(back)) => Err(back),
        Err(flume::TrySendError::Disconnected(back)) => Err(back),
    }
}

/// Drives the future of `flume::Sender::send_async` to completion with
/// `pollster::block_on`: it waits for room in the channel and fails only
/// when no receiver is left, handing the message back inside `SendError`.
/// The contract only says that a refused message comes back unchanged.
#[verifier::external_body]
pub(crate) fn send_blocking<T>(tx: &Sender<T>, msg: T) -> (r: Result<(), T>)
    ensures
        r matches Err(back) ==> back == msg,
{
    match pollster::block_on(tx.send_async(msg)) {
        Ok(()) => Ok(()),
        Err(flume::SendError(back)) => Err(back),
    }
}

/// Calls `flume::Sender::send`, which waits for room in the channel and fails
/// only when no receiver is left, handing the message back inside
/// `SendError`. The contract only says that a refused message comes back
/// unchanged.
#[verifier::external_body]
pub(crate) fn send<T>(tx: &Sender<T>, msg: T) -> (r: Result<(), T>)
    ensures
        r matches Err(back) ==> back == msg,
{
    match tx.send(msg) {
        Ok(()) => Ok(()),
        Err(flume::SendError(back)) => Err(back),
    }
}

/// Calls `flume::Receiver::recv`, which waits for a message and fails
/// (`RecvError::Disconnected`, here `None`) only when the channel is empty
/// and no sender is left. What arrives is sent by another thread, so
/// nothing is stated of it.
#[verifier::external_body]
pub(crate) fn recv<T>(rx: &Receiver<T>) -> Option<T> {
    match rx.recv() {
        Ok(msg) => Some(msg),
        Err(flume::RecvError::Disconnected) => None,
    }
}

} // verus!
