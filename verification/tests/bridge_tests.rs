use huginn::bridge::{BridgeStep, create_bridge, stop_result};
use huginn::fingerprint::{FingerprintEvent, MtuEvent};
use huginn::profile::NetworkEndpoint;

fn mtu_event(ip: &str, mtu: u16) -> FingerprintEvent {
    let mut event = FingerprintEvent::empty();
    event.mtu = Some(MtuEvent { source: NetworkEndpoint { ip: ip.to_string(), port: 1 }, mtu });
    event
}

#[test]
fn test_bridge_forwards_messages() {
    let (sync_sender, mut async_receiver, bridge) = create_bridge(10);

    sync_sender.send(FingerprintEvent::empty()).unwrap();
    assert!(matches!(bridge.step(), BridgeStep::Forwarded));

    let received = async_receiver.try_recv().expect("the forwarded event must be queued");
    assert!(received.syn.is_none());
}

#[test]
fn test_bridge_handles_sender_drop() {
    let (sync_sender, mut async_receiver, bridge) = create_bridge(10);

    drop(sync_sender);
    let outcome = bridge.step();
    assert!(matches!(outcome, BridgeStep::InputClosed));
    assert!(stop_result(outcome).is_ok());

    drop(bridge);
    assert!(async_receiver.try_recv().is_err());
}

#[test]
fn test_bridge_delivers_queued_events_after_producer_drop() {
    // Events already dequeued and forwarded all reach the consumer even
    // though the producer vanished mid-stream.
    let (sync_sender, mut async_receiver, bridge) = create_bridge(10);

    for mtu in [1500u16, 1400, 1300] {
        sync_sender.send(mtu_event("10.0.0.1", mtu)).unwrap();
    }
    drop(sync_sender);

    assert!(matches!(bridge.step(), BridgeStep::Forwarded));
    assert!(matches!(bridge.step(), BridgeStep::Forwarded));
    assert!(matches!(bridge.step(), BridgeStep::Forwarded));
    let outcome = bridge.step();
    assert!(matches!(outcome, BridgeStep::InputClosed));
    assert!(stop_result(outcome).is_ok());

    let mut mtus = Vec::new();
    while let Ok(event) = async_receiver.try_recv() {
        mtus.push(event.mtu.unwrap().mtu);
    }
    assert_eq!(mtus, vec![1500, 1400, 1300]);
}

#[test]
fn test_bridge_reports_broken_consumer() {
    let (sync_sender, async_receiver, bridge) = create_bridge(1);

    drop(async_receiver);
    sync_sender.send(FingerprintEvent::empty()).unwrap();

    let outcome = bridge.step();
    assert!(matches!(outcome, BridgeStep::OutputClosed));
    match stop_result(outcome) {
        Err(e) => assert_eq!(e.message(), "Channel error: Failed to send to async channel"),
        Ok(()) => panic!("a vanished consumer is a channel error"),
    }
}
