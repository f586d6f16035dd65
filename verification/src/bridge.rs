//! The channel bridge: moves fingerprint events from the capture engine's
//! blocking channel into the asynchronous runtime's bounded queue, without
//! ever dropping a dequeued event mid-stream.
//!
//! One [`ChannelBridge::step`] dequeues one event and forwards it (or
//! reports which side closed); the caller loops it on a dedicated thread,
//! never on the async runtime, and turns the final outcome into a result
//! with [`stop_result`]: a vanished producer is a clean end of stream, a
//! vanished consumer is a fatal channel error.

use vstd::prelude::*;
use crate::error::CollectorError;
use crate::fingerprint::FingerprintEvent;

verus! {

#[verifier::external_type_specification]
#[verifier::external_body]
#[verifier::reject_recursive_types(T)]
pub struct ExSyncSender<T>(std::sync::mpsc::Sender<T>);

#[verifier::external_type_specification]
#[verifier::external_body]
#[verifier::reject_recursive_types(T)]
pub struct ExSyncReceiver<T>(std::sync::mpsc::Receiver<T>);

#[verifier::external_type_specification]
#[verifier::external_body]
#[verifier::reject_recursive_types(T)]
pub struct ExAsyncSender<T>(tokio::sync::mpsc::Sender<T>);

#[verifier::external_type_specification]
#[verifier::external_body]
#[verifier::reject_recursive_types(T)]
pub struct ExAsyncReceiver<T>(tokio::sync::mpsc::Receiver<T>);

/// Relies on std::sync::mpsc::channel: an unbounded channel for the
/// capture engine to send into.
#[verifier::external_body]
fn sync_channel_new() -> (std::sync::mpsc::Sender<FingerprintEvent>, std::sync::mpsc::Receiver<
    FingerprintEvent,
>) {
    std::sync::mpsc::channel()
}

/// Relies on std::sync::mpsc::Receiver::recv: blocks until an event
/// arrives, and yields nothing only once the sender is gone and the
/// channel drained.
#[verifier::external_body]
fn sync_recv(rx: &std::sync::mpsc::Receiver<FingerprintEvent>) -> Option<FingerprintEvent> {
    match rx.recv() {
        Ok(event) => Some(event),
        Err(_) => None,
    }
}

/// Relies on tokio::sync::mpsc::channel: a bounded queue of the given
/// capacity.  The call panics when the capacity is zero or exceeds the
/// semaphore's permit limit of one eighth of the address space, so both
/// bounds are required here.
#[verifier::external_body]
fn async_channel_new(buffer: usize) -> (tokio::sync::mpsc::Sender<FingerprintEvent>, tokio::sync::mpsc::Receiver<
    FingerprintEvent,
>)
    requires
        1 <= buffer <= usize::MAX / 8,
{
    tokio::sync::mpsc::channel(buffer)
}

/// Relies on tokio::sync::mpsc::Sender::blocking_send: waits for queue
/// room without an async runtime (it must run outside one), and fails only
/// once the receiver is gone.
#[verifier::external_body]
fn async_blocking_send(tx: &tokio::sync::mpsc::Sender<FingerprintEvent>, event: FingerprintEvent) -> Result<
    (),
    (),
> {
    match tx.blocking_send(event) {
        Ok(()) => Ok(()),
        Err(_) => Err(()),
    }
}

/// What one bridge step observed.
pub enum BridgeStep {
    /// One event was dequeued and forwarded; keep looping
    Forwarded,
    /// The producer is gone and its queue drained: a clean end of stream
    InputClosed,
    /// The consumer is gone: the dequeued event could not be delivered
    OutputClosed,
}

/// Bridge between the engine's synchronous channel and the runtime's
/// asynchronous queue.
pub struct ChannelBridge {
    sync_receiver: std::sync::mpsc::Receiver<FingerprintEvent>,
    async_sender: tokio::sync::mpsc::Sender<FingerprintEvent>,
}

impl ChannelBridge {
    /// Create a new channel bridge over the two ends it moves between.
    pub fn new(
        sync_receiver: std::sync::mpsc::Receiver<FingerprintEvent>,
        async_sender: tokio::sync::mpsc::Sender<FingerprintEvent>,
    ) -> Self {
        ChannelBridge { sync_receiver, async_sender }
    }

    /// Dequeue one event and forward it.  Every successfully dequeued
    /// event is either forwarded or the step reports the closed output;
    /// none is dropped silently.  Blocks the calling thread; run it on a
    /// dedicated worker, never on the async runtime.
    pub fn step(&self) -> BridgeStep {
        match sync_recv(&self.sync_receiver) {
            Some(event) => match async_blocking_send(&self.async_sender, event) {
                Ok(()) => BridgeStep::Forwarded,
                Err(()) => BridgeStep::OutputClosed,
            },
            None => BridgeStep::InputClosed,
        }
    }
}

/// Turn the outcome that ended a bridge loop into its report: a vanished
/// producer stops the bridge cleanly, a vanished consumer is a channel
/// error.
pub fn stop_result(outcome: BridgeStep) -> (r: Result<(), CollectorError>)
    requires
        !(outcome is Forwarded),
    ensures
        r is Ok <==> outcome is InputClosed,
        r matches Err(e) ==> outcome is OutputClosed && (e matches CollectorError::Channel(m) && m@
            == "Failed to send to async channel"@),
{
    match outcome {
        BridgeStep::InputClosed => Ok(()),
        _ => Err(CollectorError::Channel("Failed to send to async channel".to_owned())),
    }
}

/// Create a channel bridge with the given queue capacity, handing back the
/// engine's send end and the runtime's receive end.  The capacity bounds
/// are the queue constructor's own.
pub fn create_bridge(buffer_size: usize) -> (std::sync::mpsc::Sender<FingerprintEvent>, tokio::sync::mpsc::Receiver<
    FingerprintEvent,
>, ChannelBridge)
    requires
        1 <= buffer_size <= usize::MAX / 8,
{
    let (sync_sender, sync_receiver) = sync_channel_new();
    let (async_sender, async_receiver) = async_channel_new(buffer_size);
    let bridge = ChannelBridge::new(sync_receiver, async_sender);
    (sync_sender, async_receiver, bridge)
}

} // verus!
