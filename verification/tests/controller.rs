use marketfeed::controller::SubscriptionController;
use marketfeed::events::{ConnectionHandle, LifecycleEvent, StreamKind};

#[test]
fn new_controller_is_idle_at_epoch_zero() {
    let c = SubscriptionController::new(StreamKind::OrderBook);
    assert_eq!(c.kind(), StreamKind::OrderBook);
    assert_eq!(c.epoch(), 0);
    assert!(!c.is_connecting());
    assert!(!c.is_streaming());
    assert!(c.target_key().is_none());
}

#[test]
fn retarget_from_idle_starts_connect() {
    let mut c = SubscriptionController::new(StreamKind::Price);
    let e = c.on_retarget("btcusdt");
    assert!(c.is_connecting());
    assert_eq!(c.epoch(), 1);
    assert_eq!(c.target_key().unwrap().as_str(), "btcusdt");
    let req = e.connect.unwrap();
    assert_eq!(req.key.as_str(), "btcusdt");
    assert_eq!(req.epoch, 1);
    assert!(!e.emit_disconnected);
    assert!(e.emit_connected.is_none());
    assert!(!e.close);
}

#[test]
fn retarget_with_same_key_is_ignored() {
    let mut c = SubscriptionController::new(StreamKind::Price);
    c.on_retarget("btcusdt");
    let e = c.on_retarget("btcusdt");
    assert!(e.connect.is_none());
    assert!(!e.emit_disconnected);
    assert_eq!(c.epoch(), 1);
    assert!(c.is_connecting());
}

#[test]
fn connected_event_enters_streaming() {
    let mut c = SubscriptionController::new(StreamKind::OrderBook);
    c.on_retarget("btcusdt");
    let h = ConnectionHandle { kind: StreamKind::OrderBook, epoch: 1 };
    let (e, fwd) = c.on_conn_event::<u64>(1, LifecycleEvent::Connected(h));
    assert!(c.is_streaming());
    assert_eq!(c.epoch(), 1);
    assert_eq!(e.emit_connected, Some(h));
    assert!(e.connect.is_none());
    assert!(fwd.is_none());
}

#[test]
fn retarget_new_key_abandons_live_stream() {
    let mut c = SubscriptionController::new(StreamKind::OrderBook);
    c.on_retarget("btcusdt");
    let h = ConnectionHandle { kind: StreamKind::OrderBook, epoch: 1 };
    c.on_conn_event::<u64>(1, LifecycleEvent::Connected(h));
    let e = c.on_retarget("ethusdt");
    assert!(e.emit_disconnected);
    let req = e.connect.unwrap();
    assert_eq!(req.key.as_str(), "ethusdt");
    assert_eq!(req.epoch, 2);
    assert!(c.is_connecting());
    assert_eq!(c.target_key().unwrap().as_str(), "ethusdt");
}

#[test]
fn stale_epoch_events_are_dropped() {
    let mut c = SubscriptionController::new(StreamKind::TradePrints);
    c.on_retarget("btcusdt");
    let h = ConnectionHandle { kind: StreamKind::TradePrints, epoch: 1 };
    c.on_conn_event::<u64>(1, LifecycleEvent::Connected(h));
    c.on_retarget("ethusdt");
    // a payload of the abandoned epoch-1 connection arrives late
    let (e, fwd) = c.on_conn_event(1, LifecycleEvent::Message("btcusdt".to_string(), 7u64));
    assert!(fwd.is_none());
    assert!(e.connect.is_none());
    assert!(!e.emit_disconnected);
    assert!(c.is_connecting());
    assert_eq!(c.target_key().unwrap().as_str(), "ethusdt");
    // even a stale Disconnected of the old connection changes nothing
    let (e2, _) = c.on_conn_event::<u64>(1, LifecycleEvent::Disconnected);
    assert!(e2.connect.is_none());
    assert_eq!(c.epoch(), 2);
}

#[test]
fn failed_attempt_retries_same_key() {
    let mut c = SubscriptionController::new(StreamKind::Price);
    c.on_retarget("btcusdt");
    let (e, _) = c.on_conn_event::<u64>(1, LifecycleEvent::Disconnected);
    // the failed attempt never reached the consumer, so nothing is re-emitted,
    // and a fresh attempt for the same key starts at once
    assert!(!e.emit_disconnected);
    let req = e.connect.unwrap();
    assert_eq!(req.key.as_str(), "btcusdt");
    assert_eq!(req.epoch, 2);
    assert!(c.is_connecting());
}

#[test]
fn stream_drop_reconnects_and_reemits_disconnected() {
    let mut c = SubscriptionController::new(StreamKind::Price);
    c.on_retarget("btcusdt");
    let h = ConnectionHandle { kind: StreamKind::Price, epoch: 1 };
    c.on_conn_event::<u64>(1, LifecycleEvent::Connected(h));
    let (e, _) = c.on_conn_event::<u64>(1, LifecycleEvent::Disconnected);
    assert!(e.emit_disconnected);
    let req = e.connect.unwrap();
    assert_eq!(req.key.as_str(), "btcusdt");
    assert_eq!(req.epoch, 2);
    assert!(c.is_connecting());
}

#[test]
fn message_while_streaming_is_forwarded() {
    let mut c = SubscriptionController::new(StreamKind::TradePrints);
    c.on_retarget("btcusdt");
    let h = ConnectionHandle { kind: StreamKind::TradePrints, epoch: 1 };
    c.on_conn_event::<u64>(1, LifecycleEvent::Connected(h));
    let (_, fwd) = c.on_conn_event(1, LifecycleEvent::Message("btcusdt".to_string(), 99u64));
    let (key, payload) = fwd.unwrap();
    assert_eq!(key.as_str(), "btcusdt");
    assert_eq!(payload, 99);
}

#[test]
fn message_before_connected_is_dropped() {
    let mut c = SubscriptionController::new(StreamKind::TradePrints);
    c.on_retarget("btcusdt");
    let (_, fwd) = c.on_conn_event(1, LifecycleEvent::Message("btcusdt".to_string(), 5u64));
    assert!(fwd.is_none());
}

#[test]
fn shutdown_drains_and_closes() {
    let mut c = SubscriptionController::new(StreamKind::OrderBook);
    c.on_retarget("btcusdt");
    let e = c.on_shutdown();
    assert!(e.close);
    assert!(!e.emit_disconnected);
    assert!(c.is_draining());
    // a draining controller ignores further commands and events
    let e2 = c.on_retarget("ethusdt");
    assert!(e2.connect.is_none());
    assert!(c.is_draining());
}

#[test]
fn shutdown_when_idle_closes_nothing() {
    let mut c = SubscriptionController::new(StreamKind::UserData);
    let e = c.on_shutdown();
    assert!(!e.close);
    assert!(c.is_draining());
}

#[test]
fn last_retarget_wins() {
    let mut c = SubscriptionController::new(StreamKind::Price);
    c.on_retarget("btcusdt");
    c.on_retarget("ethusdt");
    c.on_retarget("solusdt");
    assert_eq!(c.target_key().unwrap().as_str(), "solusdt");
    // the settled attempt's connect streams the settled key
    let epoch = c.epoch();
    let h = ConnectionHandle { kind: StreamKind::Price, epoch };
    c.on_conn_event::<u64>(epoch, LifecycleEvent::Connected(h));
    assert!(c.is_streaming());
    assert_eq!(c.target_key().unwrap().as_str(), "solusdt");
}
