//! The broadcast channel that couples the connections.
//!
//! It is tokio's bounded broadcast channel. Its state is shared by every
//! handle, in every task, so no contract here says what the channel holds.

use vstd::prelude::*;
use tokio::sync::broadcast::error::SendError;
use tokio::sync::broadcast::{Receiver, Sender};

verus! {

/// Number of messages the channel is asked to retain for slow subscribers.
pub const CAPACITY: usize = 6;

/// The sending handle of tokio's broadcast channel, an opaque value.
#[verifier::external_type_specification]
#[verifier::external_body]
#[verifier::reject_recursive_types(T)]
pub struct ExSender<T>(Sender<T>);

/// The receiving handle of tokio's broadcast channel, an opaque value.
#[verifier::external_type_specification]
#[verifier::external_body]
#[verifier::reject_recursive_types(T)]
pub struct ExReceiver<T>(Receiver<T>);

/// The error of tokio's `Sender::send`, an opaque value.
#[verifier::external_type_specification]
#[verifier::external_body]
#[verifier::reject_recursive_types(T)]
pub struct ExSendError<T>(SendError<T>);

/// The channel has no subscriber left, so a message could reach nobody.
#[derive(Debug, Clone, Copy, PartialEq, Eq, Structural)]
pub struct Closed;

/// The number of messages that a channel was asked to retain when it was
/// made; it is fixed for the life of the channel. (tokio retains at least
/// that many: it rounds the number up to a power of two.)
pub uninterp spec fn limit(channel: Sender<String>) -> nat;

/// Whether a subscription hangs on the channel of a sending handle: whether
/// the two share one state, so that what is sent through the handle is what
/// the subscription is offered. It is fixed for the life of the subscription.
pub uninterp spec fn hangs_on(feed: Receiver<String>, channel: Sender<String>) -> bool;

/// Calls `tokio::sync::broadcast::channel` and keeps the sending handle. It
/// panics on a capacity of zero or above `usize::MAX / 2`, which `requires`
/// leaves out. Claimed: the channel was made with the capacity given.
#[verifier::external_body]
fn open(capacity: usize) -> (channel: Sender<String>)
    requires
        0 < capacity <= usize::MAX / 2,
    ensures
        limit(channel) == capacity,
{
    tokio::sync::broadcast::channel(capacity).0
}

/// Calls `Sender::send`. Claimed: a success reports the number of receivers
/// subscribed at that moment, which is at least one. Whether the call succeeds
/// depends on the receivers alive in other tasks, so nothing says when.
#[verifier::external_body]
fn send(channel: &Sender<String>, message: String) -> (sent: Result<usize, SendError<String>>)
    ensures
        sent matches Ok(receivers) ==> receivers >= 1,
{
    channel.send(message)
}

/// Calls `Sender::subscribe`. Claimed: the receiver is built on the shared
/// state of the very handle it was asked of. Nothing is claimed of what it
/// will deliver. The outside function panics once `usize::MAX / 4` receivers
/// are alive, more than memory can hold.
#[verifier::external_body]
fn attach(channel: &Sender<String>) -> (feed: Receiver<String>)
    ensures
        hangs_on(feed, *channel),
{
    channel.subscribe()
}

/// Creates the channel of a relay, asked to retain at least [`CAPACITY`]
/// messages for a slow subscriber.
pub fn new_channel() -> (channel: Sender<String>)
    ensures
        limit(channel) == CAPACITY,
{
    open(CAPACITY)
}

/// Publishes `message` to every subscriber, without waiting. It fails only
/// when no subscriber is left; [`publish_result`] says what is returned then.
pub fn publish(channel: &Sender<String>, message: String) -> (published: Result<usize, Closed>)
    ensures
        published matches Ok(subscribers) ==> subscribers >= 1,
{
    publish_result(send(channel, message))
}

/// Subscribes to the channel: the subscription is a fresh one on `channel`,
/// taken before this call returns, so it sees what is published there after
/// the call.
///
/// What it will deliver is for the tasks that publish to decide: of that
/// nothing is stated.
pub fn subscribe(channel: &Sender<String>) -> (feed: Receiver<String>)
    ensures
        hangs_on(feed, *channel),
{
    attach(channel)
}

/// What a publish comes to, for each answer of the channel: the number of
/// subscribers as the channel counted them, or [`Closed`] for every failure.
pub fn publish_result(sent: Result<usize, SendError<String>>) -> (published: Result<usize, Closed>)
    ensures
        match sent {
            Ok(subscribers) => published == Ok::<usize, Closed>(subscribers),
            Err(_) => published == Err::<usize, Closed>(Closed),
        },
{
    match sent {
        Ok(subscribers) => Ok(subscribers),
        Err(_) => Err(Closed),
    }
}

} // verus!
