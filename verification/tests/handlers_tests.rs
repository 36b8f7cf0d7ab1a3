use rust_steam::callbacks::{CallbackEvent, CallbackManager};
use rust_steam::handlers::steam_user::{LogOnDetails, MachineAuthDetails, UserStatus, MOCK_STEAM_ID};
use rust_steam::handlers::SteamUser;
use rust_steam::{EResult, SteamError};

#[test]
fn test_steam_user_creation() {
    let callback_manager: CallbackManager<u8> = CallbackManager::new();
    let steam_user = SteamUser::new(callback_manager);

    assert!(!steam_user.is_logged_in());
    assert!(steam_user.get_steam_id().is_none());
}

#[test]
fn test_login_details() {
    let mut details = LogOnDetails::new();
    details.set_username("test_user".to_string());
    details.set_password("test_pass".to_string());
    details.set_login_id(123);

    assert_eq!(details.username, Some("test_user".to_string()));
    assert_eq!(details.password, Some("test_pass".to_string()));
    assert_eq!(details.login_id, Some(123));
}

#[test]
fn logon_details_defaults_and_setters() {
    let d = LogOnDetails::new();
    assert_eq!(d.account_instance, 1);
    assert_eq!(d.client_language, "english");
    assert_eq!(d.client_os_type, 16);
    assert_eq!(d.protocol_version, 65580);
    assert_eq!(d.cell_id, 0);
    let blank = LogOnDetails::default();
    assert_eq!(blank.account_instance, 0);
    assert!(blank.client_language.is_empty());
    let mut e = LogOnDetails::new();
    e.set_access_token("a".to_string());
    e.set_refresh_token("r".to_string());
    e.set_two_factor_code("2".to_string());
    e.set_auth_code("c".to_string());
    assert_eq!(e.access_token, Some("a".to_string()));
    assert_eq!(e.refresh_token, Some("r".to_string()));
    assert_eq!(e.two_factor_code, Some("2".to_string()));
    assert_eq!(e.auth_code, Some("c".to_string()));
    assert!(e.username.is_none());
}

#[test]
fn logon_needs_token_or_user_name() {
    let mut user = SteamUser::new(CallbackManager::<u8>::new());
    match user.log_on(LogOnDetails::new()) {
        Err(SteamError::Authentication { message }) => {
            assert_eq!(message, "Either access token or username must be provided")
        },
        other => panic!("unexpected {:?}", other),
    }
    assert_eq!(user.callback_manager().pending_count(), 0);

    let mut by_token = LogOnDetails::new();
    by_token.set_access_token("tok".to_string());
    by_token.cell_id = 7;
    assert!(user.log_on(by_token).is_ok());
    assert!(user.is_logged_in());
    assert_eq!(user.get_steam_id().map(|i| i.id), Some(MOCK_STEAM_ID));
    let mut named = LogOnDetails::new();
    named.set_username("dave".to_string());
    assert!(user.log_on(named).is_ok());
    assert!(user.log_off().is_ok());

    let m = user.callback_manager_mut();
    match m.next_event() {
        Some(CallbackEvent::LoggedOn(c)) => {
            assert_eq!(c.account_name, "mock_user");
            assert_eq!(c.steam_id.id, MOCK_STEAM_ID);
            assert_eq!(c.cell_id, 7);
            assert_eq!(c.result, EResult::OK);
        },
        other => panic!("unexpected {:?}", other),
    }
    match m.next_event() {
        Some(CallbackEvent::LoggedOn(c)) => assert_eq!(c.account_name, "dave"),
        other => panic!("unexpected {:?}", other),
    }
    assert!(matches!(m.next_event(), Some(CallbackEvent::LoggedOff(_))));
    assert!(!user.is_logged_in());
    assert!(user.get_steam_id().is_none());
    assert!(user.get_session_token().is_none());
}

#[test]
fn login_key_and_machine_auth_requests_succeed() {
    let user = SteamUser::new(CallbackManager::<u8>::new());
    assert!(user.request_new_login_key().is_ok());
    assert!(user.accept_new_login_key(1, "key").is_ok());
    let details = MachineAuthDetails::new(42, "ssfn".to_string());
    assert_eq!(details.job_id, 42);
    assert_eq!(details.result, EResult::OK);
    assert!(details.sentinel_file_hash.is_empty());
    assert!(user.send_machine_auth_response(details).is_ok());
}

#[test]
fn user_status_default() {
    let s = UserStatus::default();
    assert_eq!(s.steam_id.id, 0);
    assert!(s.persona_name.is_empty());
    assert_eq!(s.game_server_port, 0);
    assert_eq!(s.game_lobby_id.id, 0);
}
