use rust_steam::callbacks::{
    Callback, CallbackEvent, CallbackKind, CallbackManager, ConnectedCallback,
    DisconnectedCallback, LoggedOffCallback, LoggedOnCallback,
};
use rust_steam::EResult;

fn on_connected(callback: &CallbackEvent) {
    println!("Connected callback received: {:?}", callback);
}

#[test]
fn test_callback_manager_creation() {
    let mut manager: CallbackManager<fn(&CallbackEvent)> = CallbackManager::new();

    let _subscription = manager.subscribe(CallbackKind::Connected, on_connected);

    let connected_callback = CallbackEvent::Connected(ConnectedCallback);
    let result = manager.fire_callback(connected_callback);
    assert!(result.is_ok());
}

#[test]
fn callbacks_are_dispatched_in_firing_order() {
    let mut manager: CallbackManager<u32> = CallbackManager::new();
    manager.subscribe(CallbackKind::Connected, 1);
    manager.subscribe(CallbackKind::Connected, 2);
    manager.subscribe(CallbackKind::LoggedOff, 3);
    manager.fire_callback(CallbackEvent::LoggedOff(LoggedOffCallback::new(EResult::Fail))).unwrap();
    manager.fire_callback(CallbackEvent::Connected(ConnectedCallback)).unwrap();
    assert_eq!(manager.pending_count(), 2);
    match manager.dispatch_next() {
        Some((CallbackEvent::LoggedOff(c), hs)) => {
            assert_eq!(c.get_result(), EResult::Fail);
            assert_eq!(hs, &vec![3]);
        },
        other => panic!("unexpected {:?}", other),
    }
    match manager.dispatch_next() {
        Some((e, hs)) => {
            assert_eq!(e.kind(), CallbackKind::Connected);
            assert_eq!(e.callback_type(), "ConnectedCallback");
            assert_eq!(hs, &vec![1, 2]);
        },
        None => panic!("queue empty"),
    }
    assert!(manager.dispatch_next().is_none());
}

#[test]
fn unsubscribe_removes_exactly_its_subscriber() {
    let mut manager: CallbackManager<u32> = CallbackManager::new();
    let first = manager.subscribe(CallbackKind::LoggedOn, 1);
    let second = manager.subscribe(CallbackKind::LoggedOn, 2);
    let third = manager.subscribe(CallbackKind::LoggedOn, 3);
    assert_eq!(first.kind, CallbackKind::LoggedOn);
    assert_ne!(first.id, second.id);
    assert_eq!(manager.subscription_count(), 3);
    manager.unsubscribe(first);
    assert_eq!(manager.handlers_for(CallbackKind::LoggedOn), &vec![2, 3]);
    manager.unsubscribe(first);
    assert_eq!(manager.handlers_for(CallbackKind::LoggedOn), &vec![2, 3]);
    manager.unsubscribe(third);
    assert_eq!(manager.handlers_for(CallbackKind::LoggedOn), &vec![2]);
    manager.unsubscribe(second);
    assert!(manager.handlers_for(CallbackKind::LoggedOn).is_empty());
    assert!(manager.handlers_for(CallbackKind::Connected).is_empty());
}

#[test]
fn dispatch_keeps_the_shutdown_flag() {
    let mut manager: CallbackManager<u32> = CallbackManager::new();
    manager.fire_callback(CallbackEvent::Connected(ConnectedCallback)).unwrap();
    assert!(manager.dispatch_next().is_some());
    assert!(!manager.should_shutdown());
}

#[test]
fn shutdown_flag() {
    let mut manager: CallbackManager<u32> = CallbackManager::new();
    assert!(!manager.should_shutdown());
    manager.shutdown();
    assert!(manager.should_shutdown());
}

#[test]
fn callback_records() {
    let d = DisconnectedCallback::new(true, Some("bye".to_string()));
    assert!(d.is_user_initiated());
    assert_eq!(d.callback_type(), "DisconnectedCallback");
    let on = LoggedOnCallback::new(EResult::OK);
    assert_eq!(on.get_result(), EResult::OK);
    assert_eq!(on.get_extended_result(), EResult::OK);
    assert_eq!(on.steam_id.id, 0);
    assert!(on.account_name.is_empty());
    assert!(on.server_time > 1_600_000_000);
    assert_eq!(on.callback_type(), "LoggedOnCallback");
    assert_eq!(LoggedOffCallback::new(EResult::OK).callback_type(), "LoggedOffCallback");
}
