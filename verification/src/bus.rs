//! The event bus: every bounded context publishes its domain events on a
//! `tokio` broadcast channel, and whoever cares subscribes.

use vstd::prelude::*;
use tokio::sync::broadcast::{Receiver, Sender};
use crate::events::DomainEvent;

verus! {

/// Capacity of the channel; slow subscribers lose the oldest events.
pub const DEFAULT_CAPACITY: usize = 1024;

#[verifier::external_type_specification]
#[verifier::external_body]
#[verifier::reject_recursive_types(T)]
pub struct ExBroadcastSender<T>(Sender<T>);

#[verifier::external_type_specification]
#[verifier::external_body]
#[verifier::reject_recursive_types(T)]
pub struct ExBroadcastReceiver<T>(Receiver<T>);

/// The broadcast channel `tx` sends on: two senders have the same one
/// exactly when `Sender::same_channel` says so.
pub uninterp spec fn sender_channel(tx: Sender<DomainEvent>) -> int;

/// The broadcast channel `rx` receives from, as `Receiver::same_channel`
/// compares it.
pub uninterp spec fn receiver_channel(rx: Receiver<DomainEvent>) -> int;

/// The capacity a broadcast channel was made with (the argument of
/// `tokio::sync::broadcast::channel`).
pub uninterp spec fn channel_capacity(channel: int) -> nat;

/// Calls `tokio::sync::broadcast::channel`, which panics on a capacity of
/// 0 or over `usize::MAX / 2`; the receiver made with it is dropped. The
/// sender is a handle on a channel made with `capacity`.
#[verifier::external_body]
fn broadcast_sender(capacity: usize) -> (tx: Sender<DomainEvent>)
    requires
        0 < capacity <= usize::MAX / 2,
    ensures
        channel_capacity(sender_channel(tx)) == capacity,
{
    tokio::sync::broadcast::channel(capacity).0
}

/// Calls `Sender::send`; with no subscriber the event is dropped. Whether
/// it reached anyone depends on the other handles, so nothing is stated.
#[verifier::external_body]
fn broadcast_send(tx: &Sender<DomainEvent>, event: DomainEvent) {
    let _ = tx.send(event);
}

/// Calls `Sender::subscribe`: the receiver is on the sender's channel (the
/// crate's example checks `same_channel` of such a receiver).
#[verifier::external_body]
fn broadcast_subscribe(tx: &Sender<DomainEvent>) -> (rx: Receiver<DomainEvent>)
    ensures
        receiver_channel(rx) == sender_channel(*tx),
{
    tx.subscribe()
}

/// Calls `Sender::receiver_count`; it depends on the other handles, so
/// nothing is stated.
#[verifier::external_body]
fn broadcast_receiver_count(tx: &Sender<DomainEvent>) -> usize {
    tx.receiver_count()
}

/// Calls `Sender::clone`: the clone sends on the same channel (the crate
/// documents `same_channel` as true of a sender and its clone).
#[verifier::external_body]
fn broadcast_clone(tx: &Sender<DomainEvent>) -> (c: Sender<DomainEvent>)
    ensures
        sender_channel(c) == sender_channel(*tx),
{
    tx.clone()
}

/// A handle on the event channel; clones share it.
pub struct EventBus {
    tx: Sender<DomainEvent>,
}

impl EventBus {
    /// The channel the bus publishes on.
    pub closed spec fn channel(&self) -> int {
        sender_channel(self.tx)
    }

    /// The capacity the bus's channel was made with.
    pub open spec fn capacity(&self) -> nat {
        channel_capacity(self.channel())
    }

    /// A bus of `DEFAULT_CAPACITY` events.
    pub fn new() -> (bus: Self)
        ensures
            bus.capacity() == DEFAULT_CAPACITY,
    {
        Self::with_capacity(DEFAULT_CAPACITY)
    }

    /// A bus that keeps up to `capacity` events for slow subscribers.
    pub fn with_capacity(capacity: usize) -> (bus: Self)
        requires
            0 < capacity <= usize::MAX / 2,
        ensures
            bus.capacity() == capacity,
    {
        EventBus { tx: broadcast_sender(capacity) }
    }

    /// Publishes an event; without subscribers it is dropped.
    pub fn publish(&self, event: DomainEvent) {
        broadcast_send(&self.tx, event)
    }

    /// Publishes events in order.
    pub fn publish_all(&self, events: Vec<DomainEvent>) {
        let mut events = events;
        while events.len() > 0
            decreases events@.len(),
        {
            let e = events.remove(0);
            self.publish(e);
        }
    }

    /// A receiver, on the bus's channel, of the events published from now on.
    pub fn subscribe(&self) -> (rx: Receiver<DomainEvent>)
        ensures
            receiver_channel(rx) == self.channel(),
    {
        broadcast_subscribe(&self.tx)
    }

    /// The number of live subscribers.
    pub fn subscriber_count(&self) -> usize {
        broadcast_receiver_count(&self.tx)
    }

    /// Another handle on the same channel.
    pub fn clone_handle(&self) -> (other: Self)
        ensures
            other.channel() == self.channel(),
    {
        EventBus { tx: broadcast_clone(&self.tx) }
    }
}

} // verus!
