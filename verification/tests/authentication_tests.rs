use rust_steam::authentication::{
    classify_poll_status, AuthPollResult, AuthSessionDetails, ConsoleAuthenticator, LogOnDetails,
    LoginResponse, OAuthResponse, PollAuthResponse, PollStatus, PollStep, RSAKey, RSAKeyResponse,
    SteamAuthSession, MAX_POLL_ATTEMPTS, POLL_INTERVAL_MS,
};
use rust_steam::SteamError;

#[test]
fn test_auth_session_details() {
    let details = AuthSessionDetails::default();
    assert_eq!(details.device_friendly_name, "Rust Steam Client");
    assert_eq!(details.language, "chinese");
    assert!(details.persist_login);
}

#[test]
fn test_logon_details() {
    let details = LogOnDetails::with_credentials("testuser".to_string(), "testpass".to_string());
    assert_eq!(details.username, Some("testuser".to_string()));
    assert_eq!(details.password, Some("testpass".to_string()));
    assert!(details.should_remember_password);
}

#[test]
fn test_console_authenticator() {
    let auth = ConsoleAuthenticator;
    assert_eq!(format!("{:?}", auth), "ConsoleAuthenticator");
}

#[test]
fn test_auth_session_creation() {
    let details = AuthSessionDetails::default();
    let session = SteamAuthSession::new(details);
    assert!(session.is_ok());
}

fn session() -> SteamAuthSession {
    let mut details = AuthSessionDetails::default();
    details.username = "alice".to_string();
    details.password = "pw".to_string();
    SteamAuthSession::new(details).unwrap()
}

fn poll_response(status: &str) -> PollAuthResponse {
    PollAuthResponse {
        status: status.to_string(),
        error_message: None,
        access_token: None,
        refresh_token: None,
        steam_id: None,
        email_domain: None,
        captcha_gid: None,
    }
}

#[test]
fn new_session_identifiers_and_limits() {
    let s = session();
    assert_eq!(s.request_id.len(), 36);
    assert_eq!(s.session_id.len(), 36);
    assert_ne!(s.request_id, s.session_id);
    assert_eq!(s.client_id, "DE45CD61");
    assert_eq!(s.poll_interval, POLL_INTERVAL_MS);
    assert_eq!(s.max_poll_attempts, MAX_POLL_ATTEMPTS);
}

#[test]
fn logon_details_defaults() {
    let d = LogOnDetails::new();
    assert_eq!(d.machine_id.len(), 20);
    assert_eq!(d.client_language, "chinese");
    assert_eq!(d.client_os_type, 16);
    assert_eq!(d.machine_name, Some("Rust Steam Client".to_string()));
    assert!(d.supports_rate_limit_response);
    let t = LogOnDetails::with_access_token("tok".to_string());
    assert_eq!(t.access_token, Some("tok".to_string()));
    assert!(t.username.is_none());
}

#[test]
fn rsa_key_request_and_answer() {
    let s = session();
    let form = s.rsa_key_form(1234);
    assert_eq!(
        form,
        vec![
            ("username".to_string(), "alice".to_string()),
            ("donotcache".to_string(), "1234".to_string())
        ]
    );
    let refused = RSAKeyResponse {
        success: false,
        publickey_mod: String::new(),
        publickey_exp: String::new(),
        timestamp: String::new(),
    };
    match s.rsa_key_from_response(refused) {
        Err(SteamError::Unknown { message }) => assert_eq!(message, "无法获取RSA密钥"),
        other => panic!("unexpected {:?}", other),
    }
    let ok = RSAKeyResponse {
        success: true,
        publickey_mod: "mod".to_string(),
        publickey_exp: "exp".to_string(),
        timestamp: "42".to_string(),
    };
    let key = s.rsa_key_from_response(ok).unwrap();
    assert_eq!(key.modulus, "mod");
    assert_eq!(key.exponent, "exp");
    assert_eq!(key.timestamp, "42");
}

#[test]
fn password_is_base64_of_joined_fields() {
    let s = session();
    let key = RSAKey { modulus: "mod".to_string(), exponent: "exp".to_string(), timestamp: "1".to_string() };
    assert_eq!(s.encrypt_password("pw", &key).unwrap(), "cHc6bW9kOmV4cA==");
}

#[test]
fn login_form_fields_in_order() {
    let s = session();
    let key = RSAKey { modulus: "m".to_string(), exponent: "e".to_string(), timestamp: "77".to_string() };
    let form = s.login_form("ENC", &key, 9);
    let names: Vec<&str> = form.iter().map(|(k, _)| k.as_str()).collect();
    assert_eq!(
        names,
        vec![
            "username", "password", "twofactorcode", "captchagid", "captcha_text", "emailauth",
            "loginfriendlyname", "oauth_client_id", "oauth_scope", "rsatimestamp",
            "remember_login", "donotcache"
        ]
    );
    assert_eq!(form[1].1, "ENC");
    assert_eq!(form[3].1, "-1");
    assert_eq!(form[8].1, "read_limited write_limited");
    assert_eq!(form[9].1, "77");
    assert_eq!(form[10].1, "true");
    assert_eq!(form[11].1, "9");
}

#[test]
fn login_answers() {
    let mut s = session();
    let r = s.apply_login_response(LoginResponse { success: false, message: None, oauth: None });
    match r {
        Err(SteamError::Unknown { message }) => assert_eq!(message, "登录失败"),
        other => panic!("unexpected {:?}", other),
    }
    let r = s.apply_login_response(LoginResponse {
        success: false,
        message: Some("nope".to_string()),
        oauth: None,
    });
    match r {
        Err(SteamError::Unknown { message }) => assert_eq!(message, "nope"),
        other => panic!("unexpected {:?}", other),
    }
    let r = s.apply_login_response(LoginResponse {
        success: true,
        message: None,
        oauth: Some(OAuthResponse { oauth_token: Some("TOKEN".to_string()) }),
    });
    assert!(r.is_ok());
    assert_eq!(s.request_id, "TOKEN");
    assert_eq!(s.poll_form(), vec![("oauth_token".to_string(), "TOKEN".to_string())]);
    assert_eq!(
        s.two_factor_form("123"),
        vec![
            ("twofactorcode".to_string(), "123".to_string()),
            ("oauth_token".to_string(), "TOKEN".to_string())
        ]
    );
    assert_eq!(s.email_code_form("E")[0], ("emailauth".to_string(), "E".to_string()));
    assert_eq!(s.captcha_form("C", "G")[1], ("captchagid".to_string(), "G".to_string()));
}

#[test]
fn poll_status_classification() {
    assert_eq!(classify_poll_status("success"), PollStatus::Success);
    assert_eq!(classify_poll_status("need_2fa"), PollStatus::NeedTwoFactor);
    assert_eq!(classify_poll_status("need_email"), PollStatus::NeedEmail);
    assert_eq!(classify_poll_status("need_captcha"), PollStatus::NeedCaptcha);
    assert_eq!(classify_poll_status("failed"), PollStatus::Failed);
    assert_eq!(classify_poll_status("pending"), PollStatus::Pending);
    assert_eq!(classify_poll_status("SUCCESS"), PollStatus::Pending);
}

#[test]
fn poll_decisions() {
    let s = session();
    let mut poll = s.start_polling();
    let user = "alice".to_string();

    let mut ok = poll_response("success");
    ok.access_token = Some("AT".to_string());
    ok.steam_id = Some(76561198000000000);
    match poll.decide(&ok, true, &user) {
        PollStep::Finished(r) => {
            assert!(r.success);
            assert_eq!(r.access_token, Some("AT".to_string()));
            assert_eq!(r.steam_id.map(|i| i.id), Some(76561198000000000));
            assert_eq!(r.account_name, Some("alice".to_string()));
        },
        other => panic!("unexpected {:?}", other),
    }

    match poll.decide(&poll_response("need_2fa"), false, &user) {
        PollStep::Finished(r) => {
            assert!(!r.success);
            assert!(r.requires_2fa);
            assert_eq!(r.error_message, Some("需要2FA验证但未提供认证器".to_string()));
        },
        other => panic!("unexpected {:?}", other),
    }
    poll.record_device_code("111".to_string());
    match poll.decide(&poll_response("need_2fa"), true, &user) {
        PollStep::RequestDeviceCode { previous } => assert_eq!(previous, Some("111".to_string())),
        other => panic!("unexpected {:?}", other),
    }
    match poll.decide(&poll_response("need_email"), true, &user) {
        PollStep::RequestEmailCode { email_domain, previous } => {
            assert_eq!(email_domain, "unknown");
            assert_eq!(previous, None);
        },
        other => panic!("unexpected {:?}", other),
    }
    let mut captcha = poll_response("need_captcha");
    assert!(matches!(poll.decide(&captcha, true, &user), PollStep::Continue));
    captcha.captcha_gid = Some("G1".to_string());
    match poll.decide(&captcha, true, &user) {
        PollStep::RequestCaptchaCode { captcha_gid } => assert_eq!(captcha_gid, "G1"),
        other => panic!("unexpected {:?}", other),
    }
    match poll.decide(&captcha, false, &user) {
        PollStep::Finished(r) => {
            assert!(r.requires_captcha);
            assert_eq!(r.captcha_gid, Some("G1".to_string()));
        },
        other => panic!("unexpected {:?}", other),
    }
    let mut failed = poll_response("failed");
    failed.error_message = Some("denied".to_string());
    match poll.decide(&failed, true, &user) {
        PollStep::Finished(r) => {
            assert!(!r.success);
            assert_eq!(r.error_message, Some("denied".to_string()));
        },
        other => panic!("unexpected {:?}", other),
    }
    assert!(matches!(poll.decide(&poll_response("waiting"), true, &user), PollStep::Continue));
}

#[test]
fn polling_stops_after_the_limit() {
    let s = session();
    let mut poll = s.start_polling();
    let mut started = 0;
    while poll.next_attempt() {
        started += 1;
    }
    assert_eq!(started, 60);
    assert!(!poll.next_attempt());
    assert_eq!(poll.attempts, 60);
    match poll.timed_out_error() {
        SteamError::Unknown { message } => assert_eq!(message, "认证超时"),
        other => panic!("unexpected {:?}", other),
    }
}

#[test]
fn empty_poll_result() {
    let r = AuthPollResult::default();
    assert!(!r.success && !r.requires_2fa && r.access_token.is_none());
}

#[test]
fn session_identifiers_are_v4_uuids() {
    let s = session();
    for id in [&s.request_id, &s.session_id] {
        let c: Vec<char> = id.chars().collect();
        assert_eq!(c.len(), 36);
        for (i, ch) in c.iter().enumerate() {
            if i == 8 || i == 13 || i == 18 || i == 23 {
                assert_eq!(*ch, '-');
            } else {
                assert!(ch.is_ascii_digit() || ('a'..='f').contains(ch));
            }
        }
        assert_eq!(c[14], '4');
        assert!("89ab".contains(c[19]));
    }
}
