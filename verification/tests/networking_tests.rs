use rust_steam::client::{ClientSettings, SteamConfiguration};
use rust_steam::networking::{
    connect_timeout_error, incoming_message_type, ConnectStep, ConnectionAttempt, ConnectionConfig,
    ConnectionManager, TcpConnection, UdpConnection, WebSocketConnection,
};
use rust_steam::{ConnectionState, ProtocolType, SteamError};

#[test]
fn test_connection_config() {
    let steam_config = SteamConfiguration::default();
    let config = ConnectionConfig::from_steam_config(&steam_config);

    assert!(!config.server_list.is_empty());
    assert!(config.protocol_types.len() > 0);
}

#[test]
fn test_connection_manager_creation() {
    let config = ConnectionConfig {
        protocol_types: vec![ProtocolType::TCP],
        connection_timeout_ms: 5000,
        server_list: vec!["127.0.0.1:27017".to_string()],
        allow_direct_connection: true,
        cell_id: None,
    };

    let result = ConnectionManager::new(config);

    assert!(result.is_ok());
}

#[test]
fn test_tcp_connection_creation() {
    let conn = TcpConnection::unconnected("127.0.0.1:27017");

    assert_eq!(conn.get_protocol_type(), ProtocolType::TCP);
    assert!(!conn.is_connected());
}

#[test]
fn default_servers_when_none_configured() {
    let mut settings = ClientSettings::default();
    settings.server_list.clear();
    let config = ConnectionConfig::from_steam_config(&settings);
    assert_eq!(config.server_list.len(), 8);
    assert_eq!(config.server_list[0], "155.133.254.133:27017");
    assert_eq!(config.server_list[7], "162.254.195.46:27018");
    let configured = ConnectionConfig::from_steam_config(&ClientSettings::default());
    assert_eq!(configured.server_list, vec!["steamcommunity.com:443", "steampowered.com:443"]);
    assert_eq!(configured.connection_timeout_ms, 10_000);
}

#[test]
fn plan_tries_every_protocol_per_server() {
    let config = ConnectionConfig {
        protocol_types: vec![ProtocolType::TCP, ProtocolType::WebSocket],
        connection_timeout_ms: 1000,
        server_list: vec!["a:1".to_string(), "b:2".to_string()],
        allow_direct_connection: true,
        cell_id: None,
    };
    let manager = ConnectionManager::new(config).unwrap();
    let plan: Vec<(String, ProtocolType)> =
        manager.connection_plan().into_iter().map(|a| (a.server, a.protocol)).collect();
    assert_eq!(
        plan,
        vec![
            ("a:1".to_string(), ProtocolType::TCP),
            ("a:1".to_string(), ProtocolType::WebSocket),
            ("b:2".to_string(), ProtocolType::TCP),
            ("b:2".to_string(), ProtocolType::WebSocket),
        ]
    );
}

#[test]
fn manager_state_machine_and_queue() {
    let config = ConnectionConfig {
        protocol_types: vec![ProtocolType::TCP],
        connection_timeout_ms: 1000,
        server_list: vec!["a:1".to_string()],
        allow_direct_connection: true,
        cell_id: None,
    };
    let mut m = ConnectionManager::new(config).unwrap();
    assert_eq!(m.get_state(), ConnectionState::Disconnected);
    m.begin_connect();
    assert_eq!(m.get_state(), ConnectionState::Connecting);
    match m.all_attempts_failed() {
        SteamError::Network(msg) => assert_eq!(msg, "无法使用任何协议连接到Steam服务器"),
        other => panic!("unexpected {:?}", other),
    }
    assert_eq!(m.get_state(), ConnectionState::Disconnected);
    m.begin_connect();
    m.connection_established(ConnectionAttempt { server: "a:1".to_string(), protocol: ProtocolType::TCP });
    assert_eq!(m.get_state(), ConnectionState::Connected);
    assert!(m.send_message(&[1, 2]).is_ok());
    assert!(m.send_message(&[3]).is_ok());
    assert!(m.start_message_processing().is_ok());
    match m.start_message_processing() {
        Err(SteamError::InvalidState { message }) => assert_eq!(message, "消息接收器已被使用"),
        other => panic!("unexpected {:?}", other),
    }
    assert_eq!(m.next_outgoing(), Some(vec![1, 2]));
    assert_eq!(m.next_outgoing(), Some(vec![3]));
    assert_eq!(m.next_outgoing(), None);
    m.begin_disconnect();
    assert_eq!(m.get_state(), ConnectionState::Disconnecting);
    let closed = m.complete_disconnect();
    assert_eq!(closed.map(|a| a.server), Some("a:1".to_string()));
    assert_eq!(m.get_state(), ConnectionState::Disconnected);
}

#[test]
fn tcp_framing() {
    let frame = TcpConnection::frame_message(&[9, 8, 7]);
    assert_eq!(frame, vec![3, 0, 0, 0, 9, 8, 7]);
    assert_eq!(TcpConnection::frame_length(&frame[0..4]).unwrap(), 3);
    assert_eq!(TcpConnection::frame_length(&[0, 0, 16, 0]).unwrap(), 1024 * 1024);
    match TcpConnection::frame_length(&[1, 0, 16, 0]) {
        Err(SteamError::Unknown { message }) => assert_eq!(message, "消息长度过大: 1048577"),
        other => panic!("unexpected {:?}", other),
    }
}

#[test]
fn connection_helpers() {
    match connect_timeout_error("a:1", 10) {
        SteamError::Network(msg) => assert_eq!(msg, "连接超时: a:1 (10)"),
        other => panic!("unexpected {:?}", other),
    }
    assert_eq!(incoming_message_type(&[1, 2, 0, 0, 5]), Some(0x0201));
    assert_eq!(incoming_message_type(&[1, 2, 0]), None);
    assert_eq!(WebSocketConnection::unconnected("cm.example:443").url(), "wss://cm.example:443/cmsocket/");
    assert_eq!(WebSocketConnection::unconnected("ws://x/y").url(), "ws://x/y");
    assert_eq!(WebSocketConnection::unconnected("wss://x/y").url(), "wss://x/y");
    assert_eq!(UdpConnection::received_datagram(&[1, 2, 3, 4], 2), vec![1, 2]);
    let mut u = UdpConnection::unconnected("h:1");
    assert_eq!(u.get_protocol_type(), ProtocolType::UDP);
    u.mark_connected();
    assert!(u.is_connected());
    let mut t = TcpConnection::unconnected("h:2");
    t.mark_connected();
    assert!(t.is_connected());
    t.mark_disconnected();
    assert!(!t.is_connected());
}

#[test]
fn transfers_need_an_established_connection() {
    let mut t = TcpConnection::unconnected("h:1");
    match t.ensure_connected() {
        Err(SteamError::InvalidState { message }) => assert_eq!(message, "TCP连接未建立"),
        other => panic!("unexpected {:?}", other),
    }
    t.mark_connected();
    assert!(t.ensure_connected().is_ok());
    match WebSocketConnection::unconnected("h:2").ensure_connected() {
        Err(SteamError::InvalidState { message }) => assert_eq!(message, "WebSocket连接未建立"),
        other => panic!("unexpected {:?}", other),
    }
    match UdpConnection::unconnected("h:3").ensure_connected() {
        Err(SteamError::InvalidState { message }) => assert_eq!(message, "UDP连接未建立"),
        other => panic!("unexpected {:?}", other),
    }
}

#[test]
fn attempt_decisions() {
    let config = ConnectionConfig {
        protocol_types: vec![ProtocolType::TCP],
        connection_timeout_ms: 1000,
        server_list: vec!["a:1".to_string(), "b:2".to_string()],
        allow_direct_connection: true,
        cell_id: None,
    };
    let mut m = ConnectionManager::new(config).unwrap();
    m.begin_connect();
    let plan = m.connection_plan();
    assert!(matches!(m.attempt_finished(plan[0].clone(), false, true), ConnectStep::TryNext));
    assert_eq!(m.get_state(), ConnectionState::Connecting);
    assert!(matches!(m.attempt_finished(plan[1].clone(), true, false), ConnectStep::Connected));
    assert_eq!(m.get_state(), ConnectionState::Connected);
    match m.attempt_finished(plan[1].clone(), true, false) {
        ConnectStep::Failed(SteamError::InvalidState { message }) => {
            assert_eq!(message, "消息接收器已被使用")
        },
        other => panic!("unexpected {:?}", other),
    }
    let mut fresh = ConnectionManager::new(ConnectionConfig {
        protocol_types: vec![ProtocolType::UDP],
        connection_timeout_ms: 1,
        server_list: vec!["c:3".to_string()],
        allow_direct_connection: false,
        cell_id: None,
    })
    .unwrap();
    fresh.begin_connect();
    let only = fresh.connection_plan();
    match fresh.attempt_finished(only[0].clone(), false, false) {
        ConnectStep::Failed(SteamError::Network(message)) => {
            assert_eq!(message, "无法使用任何协议连接到Steam服务器")
        },
        other => panic!("unexpected {:?}", other),
    }
    assert_eq!(fresh.get_state(), ConnectionState::Disconnected);
}
