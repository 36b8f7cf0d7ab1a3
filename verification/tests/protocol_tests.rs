use rust_steam::protocol::{
    ChannelEncryptRequest, ChannelEncryptResponse, ClientLogon, ClientLogonResponse, PacketHeader,
    SteamPacket, PROTOCOL_VERSION, STEAM_MAGIC,
};
use rust_steam::{EMsg, EResult, SteamError, SteamID};

#[test]
fn test_packet_serialization() {
    let packet = SteamPacket::new(EMsg::ClientLogon, vec![1, 2, 3, 4]);
    let serialized = packet.serialize().unwrap();
    assert!(!serialized.is_empty());
}

#[test]
fn test_channel_encrypt_request() {
    let request = ChannelEncryptRequest::new();
    let serialized = request.serialize().unwrap();
    assert_eq!(serialized.len(), 8);

    let deserialized = ChannelEncryptRequest::deserialize(&serialized).unwrap();
    assert_eq!(deserialized.protocol_version, request.protocol_version);
    assert_eq!(deserialized.universe, request.universe);
}

#[test]
fn standard_packet_bytes_and_round_trip() {
    let packet = SteamPacket::new(EMsg::ClientLogon, vec![1, 2, 3, 4]);
    let bytes = packet.serialize().unwrap();
    let mut expected = vec![0xBD, 0x02, 0, 0];
    expected.extend_from_slice(&[0; 16]);
    expected.extend_from_slice(&[1, 2, 3, 4]);
    assert_eq!(bytes, expected);
    let back = SteamPacket::deserialize(&bytes).unwrap();
    assert_eq!(back.header, packet.header);
    assert_eq!(back.body, vec![1, 2, 3, 4]);
    assert_eq!(back.get_message_type(), EMsg::ClientLogon);
}

#[test]
fn extended_packet_round_trip() {
    let id = SteamID::new(76561198000000000);
    let packet = SteamPacket::new_extended(EMsg::ClientLogOff, id, -2, vec![9]);
    let bytes = packet.serialize().unwrap();
    assert_eq!(bytes.len(), 37);
    assert_eq!(&bytes[0..4], &(716u32 | 0x8000_0000).to_le_bytes());
    assert_eq!(bytes[4], 36);
    assert_eq!(&bytes[5..7], &[2, 0]);
    assert_eq!(bytes[23], 239);
    assert_eq!(&bytes[32..36], &(-2i32).to_le_bytes());
    let back = SteamPacket::deserialize(&bytes).unwrap();
    assert_eq!(back.header, packet.header);
    assert_eq!(back.body, vec![9]);
    match back.header {
        PacketHeader::Extended(h) => {
            assert_eq!(h.steam_id, id);
            assert_eq!(h.session_id, -2);
        },
        other => panic!("unexpected {:?}", other),
    }
}

#[test]
fn packet_decoding_errors() {
    match SteamPacket::deserialize(&[1, 2]) {
        Err(SteamError::Unknown { message }) => assert_eq!(message, "failed to fill whole buffer"),
        other => panic!("unexpected {:?}", other),
    }
    match SteamPacket::deserialize(&[5, 0, 0, 0, 0, 0]) {
        Err(SteamError::Unknown { message }) => assert_eq!(message, "Unknown message type: 5"),
        other => panic!("unexpected {:?}", other),
    }
    let mut short_standard = vec![0xBD, 0x02, 0, 0];
    short_standard.extend_from_slice(&[0; 10]);
    assert!(SteamPacket::deserialize(&short_standard).is_err());
}

#[test]
fn encrypt_request_from_bytes() {
    let r = ChannelEncryptRequest::deserialize(&[2, 0, 0, 0, 3, 0, 0, 0, 99]).unwrap();
    assert_eq!(r.protocol_version, 2);
    assert_eq!(r.universe, 3);
    assert!(ChannelEncryptRequest::deserialize(&[1, 0, 0]).is_err());
}

#[test]
fn encrypt_response_lengths() {
    match ChannelEncryptResponse::deserialize(&[0u8; 131]) {
        Err(SteamError::Unknown { message }) => {
            assert_eq!(message, "Invalid encryption response length")
        },
        other => panic!("unexpected {:?}", other),
    }
    let mut data = vec![7u8; 128];
    data.extend_from_slice(&[1, 2, 0, 0]);
    let r = ChannelEncryptResponse::deserialize(&data).unwrap();
    assert_eq!(r.key, vec![7u8; 128]);
    assert_eq!(r.crc, 0x0201);
}

#[test]
fn logon_message_encoding() {
    let m = ClientLogon::new_with_tokens("bob".to_string(), "tok".to_string(), "/tmp".to_string());
    assert_eq!(m.protocol_version, PROTOCOL_VERSION);
    assert_eq!(m.account_name, "bob");
    assert_eq!(m.login_key, "tok");
    assert_eq!(m.current_directory, "/tmp");
    assert!(m.supports_rate_limit_response);
    let bytes = m.serialize().unwrap();
    let mut expected = 65580u32.to_le_bytes().to_vec();
    expected.extend_from_slice(&[3, 0, 0, 0]);
    expected.extend_from_slice(b"bob");
    expected.extend_from_slice(&[0, 0, 0, 0]);
    expected.extend_from_slice(&[3, 0, 0, 0]);
    expected.extend_from_slice(b"tok");
    assert_eq!(bytes, expected);
}

#[test]
fn logon_response_results() {
    assert_eq!(ClientLogonResponse::deserialize(&[1, 0, 0, 0]).unwrap().result, EResult::OK);
    assert_eq!(ClientLogonResponse::deserialize(&[5, 0, 0, 0]).unwrap().result, EResult::InvalidPassword);
    assert_eq!(
        ClientLogonResponse::deserialize(&[62, 0, 0, 0]).unwrap().result,
        EResult::AccountLogonDenied
    );
    let other = ClientLogonResponse::deserialize(&[9, 0, 0, 0, 1]).unwrap();
    assert_eq!(other.result, EResult::Fail);
    assert_eq!(other.out_of_game_heartbeat_seconds, 500);
    assert!(ClientLogonResponse::deserialize(&[1, 0]).is_err());
}

#[test]
fn magic_constant() {
    assert_eq!(&STEAM_MAGIC.to_le_bytes(), b"VT01");
}
