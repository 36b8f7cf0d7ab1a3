use rust_steam::{EResult, SteamError, SteamID, LIB_NAME, VERSION};

#[test]
fn test_basic_types() {
    let steam_id = SteamID::new(76561198000000000);
    assert!(steam_id.is_valid());
    assert_eq!(steam_id.id, 76561198000000000);
}

#[test]
fn test_result_types() {
    let result = EResult::OK;
    assert_eq!(format!("{:?}", result), "OK");
}

#[test]
fn steam_id_display_is_decimal() {
    assert_eq!(SteamID::new(76561198000000000).display_text(), "76561198000000000");
    assert_eq!(SteamID::new(0).display_text(), "0");
}

#[test]
fn steam_id_from_account_id_round_trips() {
    let id = SteamID::from_account_id(123456);
    assert_eq!(id.id, 0x0110_0001_0000_0000 + 123456);
    assert_eq!(id.account_id(), 123456);
    assert!(id.is_valid());
    assert!(!SteamID::new(0).is_valid());
}

#[test]
fn eresult_codes_round_trip() {
    assert_eq!(EResult::OK.code(), 1);
    assert_eq!(EResult::Fail.code(), 2);
    assert_eq!(EResult::InvalidPassword.code(), 5);
    assert_eq!(EResult::from_code(1), Some(EResult::OK));
    assert_eq!(EResult::from_code(62), Some(EResult::AccountLogonDenied));
    assert_eq!(EResult::from_code(0), None);
    for code in 0..200u32 {
        if let Some(r) = EResult::from_code(code) {
            assert_eq!(r.code(), code);
        }
    }
    assert_eq!(EResult::default(), EResult::OK);
}

#[test]
fn steam_error_display_texts() {
    let e = SteamError::Authentication { message: "bad".to_string() };
    assert_eq!(e.display_text(), "Authentication failed: bad");
    assert_eq!(SteamError::Network("down".to_string()).display_text(), "Network error: down");
    assert_eq!(
        SteamError::InvalidState { message: "x".to_string() }.display_text(),
        "Invalid state: x"
    );
    assert_eq!(SteamError::Crypto("c".to_string()).display_text(), "Crypto error: c");
    assert_eq!(
        SteamError::Unknown { message: "u".to_string() }.display_text(),
        "Unknown error: u"
    );
}

#[test]
fn library_identity() {
    assert_eq!(VERSION, "0.1.0");
    assert_eq!(LIB_NAME, "rust-steam");
}

#[test]
fn eresult_names_match_debug_text() {
    for code in 0..100u32 {
        if let Some(r) = EResult::from_code(code) {
            assert_eq!(r.name(), format!("{:?}", r));
        }
    }
    assert_eq!(EResult::AccountLogonDenied.name(), "AccountLogonDenied");
}
