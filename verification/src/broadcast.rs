//! The update broadcaster: one logical producer, any number of
//! subscribers, a bounded history buffer.  A subscriber that falls behind
//! past the buffer's capacity is told exactly how many messages it missed
//! and is expected to resynchronize from the snapshot cache.
//!
//! The channel itself comes from tokio's broadcast primitive; publishing
//! never blocks, and no subscriber's failure affects another.

use vstd::prelude::*;
use crate::profile::TrafficProfile;
use crate::state::ProfileUpdate;

verus! {

#[verifier::external_type_specification]
#[verifier::external_body]
#[verifier::reject_recursive_types(T)]
pub struct ExBroadcastSender<T>(tokio::sync::broadcast::Sender<T>);

#[verifier::external_type_specification]
#[verifier::external_body]
#[verifier::reject_recursive_types(T)]
pub struct ExBroadcastReceiver<T>(tokio::sync::broadcast::Receiver<T>);

/// What one non-blocking poll of a subscription yields.
pub enum TryRecvOutcome {
    /// The next update, in publish order
    Item(ProfileUpdate),
    /// Nothing published since the last poll
    Empty,
    /// The subscriber lagged past the buffer: this many messages were
    /// dropped for it, and the next poll resumes at the oldest retained one
    Lagged(u64),
    /// The producer is gone and everything retained has been delivered
    Closed,
}

/// Relies on tokio::sync::broadcast::channel: a channel whose history
/// buffer holds at least the given capacity (tokio rounds it up to the
/// next power of two); the capacity must be positive and at most
/// `usize::MAX / 2`, or the call panics.
#[verifier::external_body]
fn broadcast_channel_new(capacity: usize) -> tokio::sync::broadcast::Sender<ProfileUpdate>
    requires
        1 <= capacity <= usize::MAX / 2,
{
    let (tx, _rx) = tokio::sync::broadcast::channel(capacity);
    tx
}

/// Relies on tokio::sync::broadcast::Sender::send: the value is queued for
/// every current subscriber and the call never blocks; it fails only when
/// no subscriber exists.
#[verifier::external_body]
fn broadcast_send(tx: &tokio::sync::broadcast::Sender<ProfileUpdate>, update: ProfileUpdate) -> (r: Result<
    usize,
    (),
>) {
    match tx.send(update) {
        Ok(n) => Ok(n),
        Err(_) => Err(()),
    }
}

/// Relies on tokio::sync::broadcast::Sender::subscribe: the new receiver
/// sees every value sent after this call, in publish order.
#[verifier::external_body]
fn broadcast_subscribe(tx: &tokio::sync::broadcast::Sender<ProfileUpdate>) -> tokio::sync::broadcast::Receiver<
    ProfileUpdate,
> {
    tx.subscribe()
}

/// Relies on tokio::sync::broadcast::Receiver::try_recv: the next retained
/// value in publish order, or emptiness, closure, or the exact number of
/// messages dropped for this lagging subscriber.
#[verifier::external_body]
fn broadcast_try_recv(rx: &mut tokio::sync::broadcast::Receiver<ProfileUpdate>) -> TryRecvOutcome {
    match rx.try_recv() {
        Ok(update) => TryRecvOutcome::Item(update),
        Err(tokio::sync::broadcast::error::TryRecvError::Empty) => TryRecvOutcome::Empty,
        Err(tokio::sync::broadcast::error::TryRecvError::Lagged(n)) => TryRecvOutcome::Lagged(n),
        Err(tokio::sync::broadcast::error::TryRecvError::Closed) => TryRecvOutcome::Closed,
    }
}

/// The one logical producer of profile-change notifications.  Clones share
/// the channel.
pub struct UpdateBroadcaster {
    tx: tokio::sync::broadcast::Sender<ProfileUpdate>,
}

/// One subscriber's end of the broadcast channel.
pub struct UpdateReceiver {
    rx: tokio::sync::broadcast::Receiver<ProfileUpdate>,
}

impl UpdateBroadcaster {
    /// A broadcaster whose history buffer holds at least the given
    /// capacity (the channel may round it up).
    pub fn new(capacity: usize) -> Self
        requires
            1 <= capacity <= usize::MAX / 2,
    {
        UpdateBroadcaster { tx: broadcast_channel_new(capacity) }
    }

    /// Publish one notification to every subscriber; never blocks, and a
    /// missing subscriber is not an error.
    pub fn publish(&self, update: ProfileUpdate) {
        let _ = broadcast_send(&self.tx, update);
    }

    /// Open a subscription that sees every notification published from now
    /// on, in publish order.
    pub fn subscribe(&self) -> UpdateReceiver {
        UpdateReceiver { rx: broadcast_subscribe(&self.tx) }
    }
}

impl Clone for UpdateBroadcaster {
    /// A clone publishes into the same channel.
    fn clone(&self) -> Self {
        UpdateBroadcaster { tx: clone_sender(&self.tx) }
    }
}

/// Relies on tokio::sync::broadcast::Sender::clone: the clone publishes
/// into the same channel.
#[verifier::external_body]
fn clone_sender(tx: &tokio::sync::broadcast::Sender<ProfileUpdate>) -> tokio::sync::broadcast::Sender<
    ProfileUpdate,
> {
    tx.clone()
}

impl UpdateReceiver {
    /// Poll for the next notification without blocking.
    pub fn try_next(&mut self) -> TryRecvOutcome {
        broadcast_try_recv(&mut self.rx)
    }
}

} // verus!
