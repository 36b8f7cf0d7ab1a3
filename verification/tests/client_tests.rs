use rust_steam::authentication::LogOnDetails;
use rust_steam::callbacks::{
    CallbackEvent, CallbackKind, CallbackManager, ConnectedCallback, DisconnectedCallback,
    LoggedOffCallback, LoggedOnCallback,
};
use rust_steam::client::{ClientSettings, SteamClient, SIMULATED_STEAM_ID};
use rust_steam::{ConnectionState, EResult, ProtocolType};

type Handler = fn(&CallbackEvent);

fn noop(_: &CallbackEvent) {}

#[test]
fn test_client_creation() {
    let client: SteamClient<Handler> = SteamClient::new(ClientSettings::default());
    assert_eq!(client.get_connection_state(), ConnectionState::Disconnected);
}

#[test]
fn test_connection_flow() {
    let mut client: SteamClient<Handler> = SteamClient::new(ClientSettings::default());

    client.begin_connect();
    assert_eq!(client.get_connection_state(), ConnectionState::Connecting);
    let result = client.complete_connect();
    assert!(result.is_ok());
    assert_eq!(client.get_connection_state(), ConnectionState::Connected);
    assert!(client.is_running());

    client.begin_disconnect();
    assert_eq!(client.get_connection_state(), ConnectionState::Disconnecting);
    let result = client.complete_disconnect();
    assert!(result.is_ok());
    assert_eq!(client.get_connection_state(), ConnectionState::Disconnected);
    assert!(!client.is_running());
}

#[test]
fn default_client_settings() {
    let s = ClientSettings::default();
    assert_eq!(s.protocol_types, vec![ProtocolType::TCP, ProtocolType::WebSocket]);
    assert_eq!(s.server_list, vec!["steamcommunity.com:443", "steampowered.com:443"]);
    assert_eq!(s.connect_timeout_ms, 10_000);
    assert!(s.auto_retry);
    assert_eq!(s.max_retries, 3);
    let c: SteamClient<Handler> = SteamClient::new_default().unwrap();
    assert_eq!(c.settings().max_retries, 3);
}

#[test]
fn client_fires_callbacks_in_order() {
    let mut client: SteamClient<Handler> = SteamClient::new(ClientSettings::default());
    client.get_callback_manager_mut().subscribe(CallbackKind::LoggedOn, noop);
    client.begin_connect();
    client.complete_connect().unwrap();
    let details = LogOnDetails::with_credentials("carol".to_string(), "pw".to_string());
    client.log_on(&details).unwrap();
    client.log_off().unwrap();
    client.begin_disconnect();
    client.complete_disconnect().unwrap();

    let m = client.get_callback_manager_mut();
    assert_eq!(m.pending_count(), 4);
    assert!(matches!(m.next_event(), Some(CallbackEvent::Connected(ConnectedCallback))));
    match m.dispatch_next() {
        Some((CallbackEvent::LoggedOn(c), handlers)) => {
            assert_eq!(c.result, EResult::OK);
            assert_eq!(c.steam_id.id, SIMULATED_STEAM_ID);
            assert_eq!(c.account_name, "carol");
            assert_eq!(c.cell_id, 123);
            assert_eq!(c.email_domain, Some("example.com".to_string()));
            assert_eq!(handlers.len(), 1);
        },
        other => panic!("unexpected {:?}", other.map(|p| p.0)),
    }
    assert!(matches!(
        m.next_event(),
        Some(CallbackEvent::LoggedOff(LoggedOffCallback { result: EResult::OK }))
    ));
    match m.next_event() {
        Some(CallbackEvent::Disconnected(d)) => {
            assert!(d.is_user_initiated());
            assert_eq!(d.reason, Some("User requested disconnect".to_string()));
        },
        other => panic!("unexpected {:?}", other),
    }
    assert!(m.next_event().is_none());
}

#[test]
fn stopping_the_client() {
    let mut client: SteamClient<Handler> = SteamClient::new(ClientSettings::default());
    client.start_running();
    assert!(client.should_continue());
    client.stop();
    assert!(!client.is_running());
    assert!(!client.should_continue());
    let _ = DisconnectedCallback::new(false, None);
    let _ = LoggedOnCallback::new(EResult::Fail);
    let _: &CallbackManager<Handler> = client.get_callback_manager();
}
