use rust_steam::demo::{simulate_encryption, get_timestamp, AuthState, DemoError, SteamClientDemo, SteamID};

#[test]
fn demo_steam_id_rendering() {
    let id = SteamID::from_account_id(12345);
    assert_eq!(id.as_u64(), 76561197960278073);
    assert_eq!(id.get_account_id(), 12345);
    assert_eq!(id.render(), "STEAM_1:1:6172");
    assert_eq!(SteamID::new(0).render(), "STEAM_1:0:0");
    assert_eq!(SteamID::from_account_id(123456789).render(), "STEAM_1:1:61728394");
}

#[test]
fn demo_error_messages() {
    assert_eq!(DemoError::InvalidCredentials.message(), "无效的凭据");
    assert_eq!(DemoError::NotConnected.message(), "未连接到服务器");
    assert_eq!(DemoError::NetworkError("x".to_string()).message(), "网络错误: x");
    assert_eq!(DemoError::AuthenticationFailed("密码错误".to_string()).message(), "认证失败: 密码错误");
}

#[test]
fn demo_authentication_flow() {
    let mut client = SteamClientDemo::new();
    assert!(matches!(client.authenticate("demo_user", "demo_pass"), Err(DemoError::NotConnected)));
    assert!(matches!(client.get_friends(), Err(DemoError::NotConnected)));
    client.connect().unwrap();
    assert!(matches!(client.get_auth_state(), AuthState::Connected));
    assert!(matches!(client.authenticate("", "x"), Err(DemoError::InvalidCredentials)));
    assert!(matches!(client.authenticate("demo_user", ""), Err(DemoError::InvalidCredentials)));
    match client.authenticate("demo_user", "wrong") {
        Err(DemoError::AuthenticationFailed(m)) => assert_eq!(m, "密码错误"),
        other => panic!("unexpected {:?}", other),
    }
    assert!(matches!(client.get_auth_state(), AuthState::Failed(m) if m == "密码错误"));
    let id = client.authenticate("demo_user", "demo_pass").unwrap();
    assert_eq!(id.get_account_id(), 1963);
    assert_eq!(id.as_u64(), 76561197960267691);
    match client.get_auth_state() {
        AuthState::Authenticated { steam_id, username } => {
            assert_eq!(*steam_id, id);
            assert_eq!(username, "demo_user");
        },
        other => panic!("unexpected {:?}", other),
    }
    let friends = client.get_friends().unwrap();
    assert_eq!(friends.len(), 3);
    assert_eq!(friends[0].name, "Friend Alice");
    assert_eq!(friends[1].status, "游戏中");
    assert_eq!(friends[2].steam_id, SteamID::from_account_id(11111));
}

#[test]
fn demo_authentication_at_a_given_time() {
    let mut client = SteamClientDemo::new();
    client.connect().unwrap();
    let id = client.authenticate_at("a", "b", 1700000000).unwrap();
    assert_eq!(id, SteamID::from_account_id(97 + 1000));
}

#[test]
fn demo_messages() {
    let mut client = SteamClientDemo::new();
    assert!(matches!(client.send_message(SteamID::new(1), "hi"), Err(DemoError::NotConnected)));
    client.connect().unwrap();
    let me = client.authenticate("demo_user", "demo_pass").unwrap();
    let to = SteamID::from_account_id(12345);
    client.send_message_at(to, "Hello", 5).unwrap();
    let before = get_timestamp();
    client.send_message(to, "again").unwrap();
    let msgs = client.get_messages();
    assert_eq!(msgs.len(), 2);
    assert_eq!(msgs[0].from, me);
    assert_eq!(msgs[0].to, to);
    assert_eq!(msgs[0].content, "Hello");
    assert_eq!(msgs[0].timestamp, 5);
    assert!(msgs[1].timestamp >= before);
    client.disconnect();
    assert!(client.get_messages().is_empty());
    assert!(matches!(client.get_auth_state(), AuthState::Disconnected));
}

#[test]
fn demo_encryption() {
    assert_eq!(
        simulate_encryption("my_secret_password", "steam_key_2024"),
        "enc:1e0d3a12083c19000d0042514147041b1705"
    );
    assert_eq!(simulate_encryption("", "k"), "enc:");
    assert_eq!(simulate_encryption("", ""), "enc:");
    assert_eq!(simulate_encryption("A", "A"), "enc:00");
}
