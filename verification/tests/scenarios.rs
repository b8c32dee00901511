//! End-to-end scenarios wiring one controller to the router, the way the
//! surrounding application drives them.

use marketfeed::controller::SubscriptionController;
use marketfeed::events::{ConnectionHandle, LifecycleEvent, StreamKind};
use marketfeed::router::EventRouter;

#[test]
fn retarget_mid_stream_drops_late_messages_of_old_pair() {
    let kind = StreamKind::Price;
    let mut router = EventRouter::new("BTCUSDT", vec![kind]);
    let mut ctrl = SubscriptionController::new(kind);

    // bring the btcusdt stream up
    let e = ctrl.on_retarget(router.recorded_key().as_str());
    let req = e.connect.unwrap();
    let h = ConnectionHandle { kind, epoch: req.epoch };
    let (e, _) = ctrl.on_conn_event::<u64>(req.epoch, LifecycleEvent::Connected(h));
    router.on_event::<u64>(kind, LifecycleEvent::Connected(e.emit_connected.unwrap()));
    assert!(ctrl.is_streaming());
    assert!(router.is_connected(kind));

    // the user switches to ETHUSDT
    let cmds = router.set_pair("ETHUSDT");
    assert_eq!(cmds.len(), 1);
    let e = ctrl.on_retarget(cmds[0].key.as_str());
    assert!(e.emit_disconnected);
    router.on_event::<u64>(kind, LifecycleEvent::Disconnected);
    let req2 = e.connect.unwrap();
    assert_eq!(req2.key.as_str(), "ethusdt");

    // a late btcusdt payload of the abandoned connection is dropped twice
    // over: the controller ignores its stale epoch, and even if it reached
    // the router, the recorded key no longer matches
    let (_, fwd) = ctrl.on_conn_event(req.epoch, LifecycleEvent::Message("btcusdt".to_string(), 7u64));
    assert!(fwd.is_none());
    let leaked = router.on_event(kind, LifecycleEvent::Message("btcusdt".to_string(), 7u64));
    assert!(leaked.is_none());

    // the new connection comes up and ethusdt payloads flow
    let h2 = ConnectionHandle { kind, epoch: req2.epoch };
    let (e, _) = ctrl.on_conn_event::<u64>(req2.epoch, LifecycleEvent::Connected(h2));
    router.on_event::<u64>(kind, LifecycleEvent::Connected(e.emit_connected.unwrap()));
    let (fwd, delivered) = {
        let (_, fwd) = ctrl.on_conn_event(req2.epoch, LifecycleEvent::Message("ethusdt".to_string(), 9u64));
        let (key, payload) = fwd.unwrap();
        let delivered = router.on_event(kind, LifecycleEvent::Message(key.clone(), payload));
        ((key, payload), delivered)
    };
    assert_eq!(fwd.0.as_str(), "ethusdt");
    assert_eq!(delivered, Some(9));
}

#[test]
fn immediate_connect_failures_cycle_until_success() {
    let kind = StreamKind::OrderBook;
    let mut router = EventRouter::new("BTCUSDT", vec![kind]);
    let mut ctrl = SubscriptionController::new(kind);

    let e = ctrl.on_retarget(router.recorded_key().as_str());
    let mut req = e.connect.unwrap();
    // the transport fails on every attempt for a while
    for _ in 0..5 {
        let (e, _) = ctrl.on_conn_event::<u64>(req.epoch, LifecycleEvent::Disconnected);
        // the controller goes right back to connecting the same key
        assert!(ctrl.is_connecting());
        assert!(!e.emit_disconnected);
        req = e.connect.unwrap();
        assert_eq!(req.key.as_str(), "btcusdt");
        // the router reports "disconnected" throughout
        assert!(!router.is_connected(kind));
    }
    // one attempt finally succeeds
    let h = ConnectionHandle { kind, epoch: req.epoch };
    let (e, _) = ctrl.on_conn_event::<u64>(req.epoch, LifecycleEvent::Connected(h));
    router.on_event::<u64>(kind, LifecycleEvent::Connected(e.emit_connected.unwrap()));
    assert!(ctrl.is_streaming());
    assert!(router.is_connected(kind));
}

#[test]
fn bare_asset_pair_change_reaches_controller_normalized() {
    let kind = StreamKind::TradePrints;
    let mut router = EventRouter::new("ETHUSDT", vec![kind]);
    let mut ctrl = SubscriptionController::new(kind);
    ctrl.on_retarget(router.recorded_key().as_str());

    // the asset-suffix heuristic: "btc" becomes "btcusdt"
    let cmds = router.set_pair("btc");
    assert_eq!(cmds.len(), 1);
    assert_eq!(cmds[0].key.as_str(), "btcusdt");
    let e = ctrl.on_retarget(cmds[0].key.as_str());
    assert_eq!(e.connect.unwrap().key.as_str(), "btcusdt");
    assert_eq!(ctrl.target_key().unwrap().as_str(), "btcusdt");
    assert_eq!(router.recorded_key().as_str(), "btcusdt");
}
