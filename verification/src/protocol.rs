//! Steam protocol messages: the packet envelope and a few message bodies,
//! with their byte encodings.

use vstd::prelude::*;
use vstd::slice::{slice_subrange, slice_to_vec};
use vstd::utf8::encode_utf8;
use crate::bytes::{
    append_bytes, i32_bits, i32_from_bits, i32_le_bytes, le_bytes, le_value, read_i32_le,
    lemma_i32_bits_roundtrip, lemma_i32_from_bits_roundtrip, lemma_le_bytes_len,
    lemma_le_bytes_of_value, lemma_le_value_bound, lemma_le_value_of_bytes, lemma_pow256_values,
    read_u16_le, read_u32_le, read_u64_le, u16_le_bytes, u32_le_bytes, u64_le_bytes,
};
use crate::text::{decimal, push_decimal};
use crate::types::{
    emsg_code, emsg_from_code, eresult_code, is_unknown_error, lemma_emsg_code_roundtrip,
    lemma_emsg_from_code_inverse, EMsg, EResult,
    ExtendedMsgHdr, MsgHdr, SteamError, SteamID,
};

verus! {

/// Magic constant of the Steam protocol ("VT01").
pub const STEAM_MAGIC: u32 = 0x3130_5456;

/// Length in bytes of an encoded standard header.
pub const STANDARD_HEADER_LEN: usize = 20;

/// Length in bytes of an encoded extended header.
pub const EXTENDED_HEADER_LEN: usize = 36;

/// Bit of the leading message word that marks an extended header.
pub const EXTENDED_FLAG: u32 = 0x8000_0000;

/// Packet header kinds.
#[derive(Debug, Clone, Copy, PartialEq, Eq, Structural)]
pub enum PacketHeader {
    /// Standard message header.
    Standard(MsgHdr),
    /// Extended message header (with Steam ID).
    Extended(ExtendedMsgHdr),
}

/// A Steam message packet: a header and an opaque body.
#[derive(Debug, Clone)]
pub struct SteamPacket {
    pub header: PacketHeader,
    pub body: Vec<u8>,
}

/// Why a byte string is not a packet.
#[derive(Debug, Clone, Copy, PartialEq, Eq, Structural)]
pub enum DecodeFault {
    /// The input ends before a field that must be read.
    Truncated,
    /// The message number names no known message type.
    UnknownMessage(u32),
}

/// The text of the error reported for a decoding fault.
pub open spec fn fault_message(f: DecodeFault) -> Seq<char> {
    match f {
        DecodeFault::Truncated => "failed to fill whole buffer"@,
        DecodeFault::UnknownMessage(id) => "Unknown message type: "@ + decimal(id as nat),
    }
}

/// The encoding of a packet header.
pub open spec fn header_bytes(h: PacketHeader) -> Seq<u8> {
    match h {
        PacketHeader::Standard(s) => le_bytes(emsg_code(s.msg) as nat, 4) + le_bytes(
            s.target_job_id as nat,
            8,
        ) + le_bytes(s.source_job_id as nat, 8),
        PacketHeader::Extended(e) => le_bytes((emsg_code(e.msg) + 0x8000_0000) as nat, 4) + seq![
            e.header_size,
        ] + le_bytes(e.header_version as nat, 2) + le_bytes(e.target_job_id as nat, 8)
            + le_bytes(e.source_job_id as nat, 8) + seq![e.header_canary] + le_bytes(
            e.steam_id.id as nat,
            8,
        ) + le_bytes(i32_bits(e.session_id), 4),
    }
}

/// The encoding of a packet: its header followed by its body.
pub open spec fn packet_bytes(h: PacketHeader, body: Seq<u8>) -> Seq<u8> {
    header_bytes(h) + body
}

/// The little-endian value of `n` bytes of `d` starting at `pos`.
pub open spec fn field(d: Seq<u8>, pos: int, n: int) -> nat {
    le_value(d.subrange(pos, pos + n))
}

/// The standard header encoded at the front of `d` (at least 20 bytes long).
pub open spec fn standard_header_at(d: Seq<u8>, msg: EMsg) -> MsgHdr {
    MsgHdr { msg, target_job_id: field(d, 4, 8) as u64, source_job_id: field(d, 12, 8) as u64 }
}

/// The extended header encoded at the front of `d` (at least 36 bytes long).
pub open spec fn extended_header_at(d: Seq<u8>, msg: EMsg) -> ExtendedMsgHdr {
    ExtendedMsgHdr {
        msg,
        header_size: d[4],
        header_version: field(d, 5, 2) as u16,
        target_job_id: field(d, 7, 8) as u64,
        source_job_id: field(d, 15, 8) as u64,
        header_canary: d[23],
        steam_id: SteamID { id: field(d, 24, 8) as u64 },
        session_id: i32_from_bits(field(d, 32, 4)),
    }
}

/// How a byte string decodes as a packet: the leading little-endian word
/// holds the message number in its low 31 bits and the extended-header flag
/// in its top bit; the header follows; everything after it is the body.
pub open spec fn parse_packet(d: Seq<u8>) -> Result<(PacketHeader, Seq<u8>), DecodeFault> {
    if d.len() < 4 {
        Err(DecodeFault::Truncated)
    } else {
        let raw = field(d, 0, 4);
        let id = (raw % 0x8000_0000) as u32;
        match emsg_from_code(id) {
            None => Err(DecodeFault::UnknownMessage(id)),
            Some(msg) => if raw >= 0x8000_0000 {
                if d.len() < 36 {
                    Err(DecodeFault::Truncated)
                } else {
                    Ok((PacketHeader::Extended(extended_header_at(d, msg)), d.subrange(36, d.len() as int)))
                }
            } else {
                if d.len() < 20 {
                    Err(DecodeFault::Truncated)
                } else {
                    Ok((PacketHeader::Standard(standard_header_at(d, msg)), d.subrange(20, d.len() as int)))
                }
            },
        }
    }
}

/// The message type named in a header.
pub open spec fn header_msg(h: PacketHeader) -> EMsg {
    match h {
        PacketHeader::Standard(s) => s.msg,
        PacketHeader::Extended(e) => e.msg,
    }
}

/// The error value reported for a decoding fault.
pub fn fault_error(f: DecodeFault) -> (e: SteamError)
    ensures
        is_unknown_error(e, fault_message(f)),
{
    match f {
        DecodeFault::Truncated => SteamError::Unknown {
            message: String::from_str("failed to fill whole buffer"),
        },
        DecodeFault::UnknownMessage(id) => {
            let mut m = String::from_str("Unknown message type: ");
            push_decimal(&mut m, id as u64);
            SteamError::Unknown { message: m }
        },
    }
}

impl SteamPacket {
    /// A packet with a standard header and zero job identifiers.
    pub fn new(msg: EMsg, body: Vec<u8>) -> (p: SteamPacket)
        ensures
            p.header == PacketHeader::Standard(
                MsgHdr { msg, target_job_id: 0, source_job_id: 0 },
            ),
            p.body@ == body@,
    {
        SteamPacket {
            header: PacketHeader::Standard(MsgHdr { msg, target_job_id: 0, source_job_id: 0 }),
            body,
        }
    }

    /// A packet with an extended header carrying the sender's identifier and
    /// session: header size 36, header version 2, canary 239, zero job
    /// identifiers.
    pub fn new_extended(msg: EMsg, steam_id: SteamID, session_id: i32, body: Vec<u8>) -> (p:
        SteamPacket)
        ensures
            p.header == PacketHeader::Extended(
                ExtendedMsgHdr {
                    msg,
                    header_size: 36,
                    header_version: 2,
                    target_job_id: 0,
                    source_job_id: 0,
                    header_canary: 239,
                    steam_id,
                    session_id,
                },
            ),
            p.body@ == body@,
    {
        SteamPacket {
            header: PacketHeader::Extended(
                ExtendedMsgHdr {
                    msg,
                    header_size: 36,
                    header_version: 2,
                    target_job_id: 0,
                    source_job_id: 0,
                    header_canary: 239,
                    steam_id,
                    session_id,
                },
            ),
            body,
        }
    }

    /// The encoding of this packet.
    pub fn serialize(&self) -> (r: Result<Vec<u8>, SteamError>)
        ensures
            r matches Ok(v) && v@ == packet_bytes(self.header, self.body@),
    {
        let mut buffer: Vec<u8> = Vec::new();
        match &self.header {
            PacketHeader::Standard(hdr) => {
                let mut b = u32_le_bytes(hdr.msg.code());
                buffer.append(&mut b);
                let mut b = u64_le_bytes(hdr.target_job_id);
                buffer.append(&mut b);
                let mut b = u64_le_bytes(hdr.source_job_id);
                buffer.append(&mut b);
            },
            PacketHeader::Extended(hdr) => {
                let code = hdr.msg.code();
                proof {
                    lemma_emsg_code_roundtrip(hdr.msg);
                }
                let word = code | EXTENDED_FLAG;
                assert(code < 0x8000_0000 ==> code | 0x8000_0000u32 == code + 0x8000_0000)
                    by (bit_vector);
                let mut b = u32_le_bytes(word);
                buffer.append(&mut b);
                buffer.push(hdr.header_size);
                let mut b = u16_le_bytes(hdr.header_version);
                buffer.append(&mut b);
                let mut b = u64_le_bytes(hdr.target_job_id);
                buffer.append(&mut b);
                let mut b = u64_le_bytes(hdr.source_job_id);
                buffer.append(&mut b);
                buffer.push(hdr.header_canary);
                let mut b = u64_le_bytes(hdr.steam_id.id);
                buffer.append(&mut b);
                let mut b = i32_le_bytes(hdr.session_id);
                buffer.append(&mut b);
            },
        }
        assert(buffer@ =~= header_bytes(self.header));
        append_bytes(&mut buffer, self.body.as_slice());
        Ok(buffer)
    }

    /// Decodes a packet; the bytes after the header form the body.
    pub fn deserialize(data: &[u8]) -> (r: Result<SteamPacket, SteamError>)
        ensures
            match parse_packet(data@) {
                Ok((h, body)) => r matches Ok(p) && p.header == h && p.body@ == body,
                Err(f) => r matches Err(e) && is_unknown_error(e, fault_message(f)),
            },
    {
        match Self::decode(data) {
            Ok(p) => Ok(p),
            Err(f) => Err(fault_error(f)),
        }
    }

    fn decode(data: &[u8]) -> (r: Result<SteamPacket, DecodeFault>)
        ensures
            match parse_packet(data@) {
                Ok((h, body)) => r matches Ok(p) && p.header == h && p.body@ == body,
                Err(f) => r == Err::<SteamPacket, DecodeFault>(f),
            },
    {
        let len = data.len();
        if len < 4 {
            return Err(DecodeFault::Truncated);
        }
        let raw = read_u32_le(data, 0);
        let is_extended = (raw & EXTENDED_FLAG) != 0;
        let msg_id = raw & 0x7FFF_FFFFu32;
        assert(((raw & 0x8000_0000u32) != 0) == (raw >= 0x8000_0000u32)) by (bit_vector);
        assert(raw & 0x7FFF_FFFFu32 == raw % 0x8000_0000u32) by (bit_vector);
        let msg = match EMsg::from_code(msg_id) {
            Some(m) => m,
            None => {
                return Err(DecodeFault::UnknownMessage(msg_id));
            },
        };
        if is_extended {
            if len < EXTENDED_HEADER_LEN {
                return Err(DecodeFault::Truncated);
            }
            let header_size = data[4];
            let header_version = read_u16_le(data, 5);
            let target_job_id = read_u64_le(data, 7);
            let source_job_id = read_u64_le(data, 15);
            let header_canary = data[23];
            let steam_id = SteamID::new(read_u64_le(data, 24));
            let session_id = read_i32_le(data, 32);
            let body = slice_to_vec(slice_subrange(data, EXTENDED_HEADER_LEN, len));
            Ok(
                SteamPacket {
                    header: PacketHeader::Extended(
                        ExtendedMsgHdr {
                            msg,
                            header_size,
                            header_version,
                            target_job_id,
                            source_job_id,
                            header_canary,
                            steam_id,
                            session_id,
                        },
                    ),
                    body,
                },
            )
        } else {
            if len < STANDARD_HEADER_LEN {
                return Err(DecodeFault::Truncated);
            }
            let target_job_id = read_u64_le(data, 4);
            let source_job_id = read_u64_le(data, 12);
            let body = slice_to_vec(slice_subrange(data, STANDARD_HEADER_LEN, len));
            Ok(
                SteamPacket {
                    header: PacketHeader::Standard(MsgHdr { msg, target_job_id, source_job_id }),
                    body,
                },
            )
        }
    }

    /// The message type named in the header.
    pub fn get_message_type(&self) -> (m: EMsg)
        ensures
            m == header_msg(self.header),
    {
        match &self.header {
            PacketHeader::Standard(hdr) => hdr.msg,
            PacketHeader::Extended(hdr) => hdr.msg,
        }
    }
}

/// Decoding the encoding of a packet gives the packet back: header and body.
pub proof fn lemma_packet_roundtrip(h: PacketHeader, body: Seq<u8>)
    ensures
        parse_packet(packet_bytes(h, body)) == Ok::<(PacketHeader, Seq<u8>), DecodeFault>((h, body)),
{
    lemma_pow256_values();
    let d = packet_bytes(h, body);
    match h {
        PacketHeader::Standard(s) => {
            let code = emsg_code(s.msg);
            lemma_emsg_code_roundtrip(s.msg);
            lemma_le_bytes_len(code as nat, 4);
            lemma_le_bytes_len(s.target_job_id as nat, 8);
            lemma_le_bytes_len(s.source_job_id as nat, 8);
            assert(d.subrange(0, 4) =~= le_bytes(code as nat, 4));
            assert(d.subrange(4, 12) =~= le_bytes(s.target_job_id as nat, 8));
            assert(d.subrange(12, 20) =~= le_bytes(s.source_job_id as nat, 8));
            assert(d.subrange(20, d.len() as int) =~= body);
            lemma_le_value_of_bytes(code as nat, 4);
            lemma_le_value_of_bytes(s.target_job_id as nat, 8);
            lemma_le_value_of_bytes(s.source_job_id as nat, 8);
            assert(standard_header_at(d, s.msg) == s);
        },
        PacketHeader::Extended(e) => {
            let code = emsg_code(e.msg);
            lemma_emsg_code_roundtrip(e.msg);
            let word = (code + 0x8000_0000) as nat;
            lemma_le_bytes_len(word, 4);
            lemma_le_bytes_len(e.header_version as nat, 2);
            lemma_le_bytes_len(e.target_job_id as nat, 8);
            lemma_le_bytes_len(e.source_job_id as nat, 8);
            lemma_le_bytes_len(e.steam_id.id as nat, 8);
            lemma_le_bytes_len(i32_bits(e.session_id), 4);
            lemma_i32_bits_roundtrip(e.session_id);
            assert(d.subrange(0, 4) =~= le_bytes(word, 4));
            assert(d[4] == e.header_size);
            assert(d.subrange(5, 7) =~= le_bytes(e.header_version as nat, 2));
            assert(d.subrange(7, 15) =~= le_bytes(e.target_job_id as nat, 8));
            assert(d.subrange(15, 23) =~= le_bytes(e.source_job_id as nat, 8));
            assert(d[23] == e.header_canary);
            assert(d.subrange(24, 32) =~= le_bytes(e.steam_id.id as nat, 8));
            assert(d.subrange(32, 36) =~= le_bytes(i32_bits(e.session_id), 4));
            assert(d.subrange(36, d.len() as int) =~= body);
            lemma_le_value_of_bytes(word, 4);
            lemma_le_value_of_bytes(e.header_version as nat, 2);
            lemma_le_value_of_bytes(e.target_job_id as nat, 8);
            lemma_le_value_of_bytes(e.source_job_id as nat, 8);
            lemma_le_value_of_bytes(e.steam_id.id as nat, 8);
            lemma_le_value_of_bytes(i32_bits(e.session_id), 4);
            assert(word % 0x8000_0000 == code);
            assert(extended_header_at(d, e.msg) == e);
        },
    }
}

/// A byte string that decodes as a packet is exactly the encoding of the
/// decoded header followed by the decoded body: no two byte strings decode
/// to the same packet.
pub proof fn lemma_packet_parse_exact(d: Seq<u8>)
    ensures
        parse_packet(d) matches Ok((h, body)) ==> packet_bytes(h, body) == d,
{
    lemma_pow256_values();
    if let Ok((h, body)) = parse_packet(d) {
        let raw = field(d, 0, 4);
        lemma_le_bytes_of_value(d.subrange(0, 4));
        lemma_le_value_bound(d.subrange(0, 4));
        let id = (raw % 0x8000_0000) as u32;
        let msg = emsg_from_code(id)->0;
        lemma_emsg_from_code_inverse(id);
        match h {
            PacketHeader::Standard(s) => {
                assert(raw < 0x8000_0000);
                assert(emsg_code(msg) as nat == raw);
                lemma_le_bytes_of_value(d.subrange(4, 12));
                lemma_le_bytes_of_value(d.subrange(12, 20));
                lemma_le_value_bound(d.subrange(4, 12));
                lemma_le_value_bound(d.subrange(12, 20));
                assert(packet_bytes(h, body) =~= d.subrange(0, 4) + d.subrange(4, 12) + d.subrange(12, 20) + d.subrange(20, d.len() as int));
                assert(packet_bytes(h, body) =~= d);
            },
            PacketHeader::Extended(e) => {
                assert(raw >= 0x8000_0000);
                assert((emsg_code(msg) + 0x8000_0000) as nat == raw);
                lemma_le_bytes_of_value(d.subrange(5, 7));
                lemma_le_bytes_of_value(d.subrange(7, 15));
                lemma_le_bytes_of_value(d.subrange(15, 23));
                lemma_le_bytes_of_value(d.subrange(24, 32));
                lemma_le_bytes_of_value(d.subrange(32, 36));
                lemma_le_value_bound(d.subrange(5, 7));
                lemma_le_value_bound(d.subrange(7, 15));
                lemma_le_value_bound(d.subrange(15, 23));
                lemma_le_value_bound(d.subrange(24, 32));
                lemma_le_value_bound(d.subrange(32, 36));
                lemma_i32_from_bits_roundtrip(field(d, 32, 4));
                assert(packet_bytes(h, body) =~= d.subrange(0, 4) + seq![d[4]] + d.subrange(5, 7)
                    + d.subrange(7, 15) + d.subrange(15, 23) + seq![d[23]] + d.subrange(24, 32)
                    + d.subrange(32, 36) + d.subrange(36, d.len() as int));
                assert(packet_bytes(h, body) =~= d);
            },
        }
    }
}

/// Channel encryption request.
#[derive(Debug, Clone, Copy, PartialEq, Eq, Structural)]
pub struct ChannelEncryptRequest {
    pub protocol_version: u32,
    pub universe: u32,
}

/// The encoding of a channel encryption request.
pub open spec fn encrypt_request_bytes(r: ChannelEncryptRequest) -> Seq<u8> {
    le_bytes(r.protocol_version as nat, 4) + le_bytes(r.universe as nat, 4)
}

/// How a byte string decodes as a channel encryption request: two
/// little-endian words; bytes after the eighth are ignored.
pub open spec fn parse_encrypt_request(d: Seq<u8>) -> Option<ChannelEncryptRequest> {
    if d.len() < 8 {
        None
    } else {
        Some(
            ChannelEncryptRequest {
                protocol_version: field(d, 0, 4) as u32,
                universe: field(d, 4, 4) as u32,
            },
        )
    }
}

impl ChannelEncryptRequest {
    /// Protocol version 1 in the public universe.
    pub fn new() -> (r: ChannelEncryptRequest)
        ensures
            r.protocol_version == 1,
            r.universe == 1,
    {
        ChannelEncryptRequest { protocol_version: 1, universe: 1 }
    }

    pub fn serialize(&self) -> (r: Result<Vec<u8>, SteamError>)
        ensures
            r matches Ok(v) && v@ == encrypt_request_bytes(*self),
    {
        let mut buffer: Vec<u8> = Vec::new();
        let mut b = u32_le_bytes(self.protocol_version);
        buffer.append(&mut b);
        let mut b = u32_le_bytes(self.universe);
        buffer.append(&mut b);
        Ok(buffer)
    }

    pub fn deserialize(data: &[u8]) -> (r: Result<ChannelEncryptRequest, SteamError>)
        ensures
            match parse_encrypt_request(data@) {
                Some(q) => r == Ok::<ChannelEncryptRequest, SteamError>(q),
                None => r matches Err(e) && is_unknown_error(e, fault_message(DecodeFault::Truncated)),
            },
    {
        if data.len() < 8 {
            return Err(fault_error(DecodeFault::Truncated));
        }
        let protocol_version = read_u32_le(data, 0);
        let universe = read_u32_le(data, 4);
        Ok(ChannelEncryptRequest { protocol_version, universe })
    }
}

/// Decoding the encoding of a channel encryption request gives it back.
pub proof fn lemma_encrypt_request_roundtrip(r: ChannelEncryptRequest)
    ensures
        parse_encrypt_request(encrypt_request_bytes(r)) == Some(r),
{
    lemma_pow256_values();
    let d = encrypt_request_bytes(r);
    lemma_le_bytes_len(r.protocol_version as nat, 4);
    lemma_le_bytes_len(r.universe as nat, 4);
    assert(d.subrange(0, 4) =~= le_bytes(r.protocol_version as nat, 4));
    assert(d.subrange(4, 8) =~= le_bytes(r.universe as nat, 4));
    lemma_le_value_of_bytes(r.protocol_version as nat, 4);
    lemma_le_value_of_bytes(r.universe as nat, 4);
}

/// Length of the key in a channel encryption response.
pub const ENCRYPT_KEY_LEN: usize = 128;

/// Channel encryption response: a 128-byte key and a checksum.
#[derive(Debug, Clone)]
pub struct ChannelEncryptResponse {
    pub key: Vec<u8>,
    pub crc: u32,
}

impl ChannelEncryptResponse {
    /// Reads the 128-byte key and the little-endian checksum after it; inputs
    /// shorter than 132 bytes are refused, bytes after the 132nd ignored.
    pub fn deserialize(data: &[u8]) -> (r: Result<ChannelEncryptResponse, SteamError>)
        ensures
            data@.len() < 132 ==> (r matches Err(e) && is_unknown_error(
                e,
                "Invalid encryption response length"@,
            )),
            data@.len() >= 132 ==> (r matches Ok(v) && v.key@ == data@.subrange(0, 128)
                && v.crc as nat == field(data@, 128, 4)),
    {
        if data.len() < 132 {
            return Err(
                SteamError::Unknown {
                    message: String::from_str("Invalid encryption response length"),
                },
            );
        }
        let key = slice_to_vec(slice_subrange(data, 0, ENCRYPT_KEY_LEN));
        let crc = read_u32_le(data, ENCRYPT_KEY_LEN);
        Ok(ChannelEncryptResponse { key, crc })
    }
}

/// Client logon message.
#[derive(Debug, Clone)]
pub struct ClientLogon {
    pub protocol_version: u32,
    pub deprecated_obfuscation_mask: u32,
    pub current_directory: String,
    pub username: String,
    pub password: String,
    pub anonymous_user_target_account_name: String,
    pub real_name: String,
    pub phone_number: String,
    pub email_address: String,
    pub rtime32_account_creation: u32,
    pub account_name: String,
    pub friends_group_id: i32,
    pub friends_group_name: String,
    pub steam2_auth_ticket: Vec<u8>,
    pub email_verification: String,
    pub game_server_token: String,
    pub login_key: String,
    pub was_converted_deprecated_msg: bool,
    pub anon_user_target_account_name: String,
    pub resolved_user_steam_id: u64,
    pub eresult_sentry_file: i32,
    pub sha_sentry_file: Vec<u8>,
    pub auth_code: String,
    pub otp_type: i32,
    pub otp_value: u32,
    pub otp_identifier: String,
    pub steam2_unknown_value: bool,
    pub supports_rate_limit_response: bool,
    pub web_logon_nonce: String,
    pub priority_reason: i32,
    pub embedded_client_secret: Vec<u8>,
    pub disable_partner_autogrants: bool,
}

/// The current Steam protocol version.
pub const PROTOCOL_VERSION: u32 = 65580;

/// A length-prefixed string field: the UTF-8 byte count, truncated to 32
/// bits, as a little-endian word, then the UTF-8 bytes.
pub open spec fn string_field(s: Seq<char>) -> Seq<u8> {
    le_bytes(encode_utf8(s).len() % 0x1_0000_0000, 4) + encode_utf8(s)
}

/// The encoding of a logon message: protocol version, user name, password,
/// login key.
pub open spec fn logon_bytes(m: ClientLogon) -> Seq<u8> {
    le_bytes(m.protocol_version as nat, 4) + string_field(m.username@) + string_field(m.password@)
        + string_field(m.login_key@)
}

impl ClientLogon {
    /// A logon message for token-based login: the access token travels as the
    /// login key, the user name doubles as the account name, the password is
    /// empty and rate-limit responses are supported. `current_directory` is
    /// the client's working directory.
    pub fn new_with_tokens(username: String, access_token: String, current_directory: String) -> (m:
        ClientLogon)
        ensures
            m.protocol_version == PROTOCOL_VERSION,
            m.deprecated_obfuscation_mask == 0,
            m.current_directory@ == current_directory@,
            m.username@ == username@,
            m.account_name@ == username@,
            m.login_key@ == access_token@,
            m.password@ == Seq::<char>::empty(),
            m.anonymous_user_target_account_name@ == Seq::<char>::empty(),
            m.real_name@ == Seq::<char>::empty(),
            m.phone_number@ == Seq::<char>::empty(),
            m.email_address@ == Seq::<char>::empty(),
            m.rtime32_account_creation == 0,
            m.friends_group_id == 0,
            m.friends_group_name@ == Seq::<char>::empty(),
            m.steam2_auth_ticket@ == Seq::<u8>::empty(),
            m.email_verification@ == Seq::<char>::empty(),
            m.game_server_token@ == Seq::<char>::empty(),
            !m.was_converted_deprecated_msg,
            m.anon_user_target_account_name@ == Seq::<char>::empty(),
            m.resolved_user_steam_id == 0,
            m.eresult_sentry_file == 0,
            m.sha_sentry_file@ == Seq::<u8>::empty(),
            m.auth_code@ == Seq::<char>::empty(),
            m.otp_type == 0,
            m.otp_value == 0,
            m.otp_identifier@ == Seq::<char>::empty(),
            !m.steam2_unknown_value,
            m.supports_rate_limit_response,
            m.web_logon_nonce@ == Seq::<char>::empty(),
            m.priority_reason == 0,
            m.embedded_client_secret@ == Seq::<u8>::empty(),
            !m.disable_partner_autogrants,
    {
        let account_name = username.clone();
        ClientLogon {
            protocol_version: PROTOCOL_VERSION,
            deprecated_obfuscation_mask: 0,
            current_directory,
            username,
            password: String::new(),
            anonymous_user_target_account_name: String::new(),
            real_name: String::new(),
            phone_number: String::new(),
            email_address: String::new(),
            rtime32_account_creation: 0,
            account_name,
            friends_group_id: 0,
            friends_group_name: String::new(),
            steam2_auth_ticket: Vec::new(),
            email_verification: String::new(),
            game_server_token: String::new(),
            login_key: access_token,
            was_converted_deprecated_msg: false,
            anon_user_target_account_name: String::new(),
            resolved_user_steam_id: 0,
            eresult_sentry_file: 0,
            sha_sentry_file: Vec::new(),
            auth_code: String::new(),
            otp_type: 0,
            otp_value: 0,
            otp_identifier: String::new(),
            steam2_unknown_value: false,
            supports_rate_limit_response: true,
            web_logon_nonce: String::new(),
            priority_reason: 0,
            embedded_client_secret: Vec::new(),
            disable_partner_autogrants: false,
        }
    }

    /// The encoding of this message: protocol version, then user name,
    /// password and login key as length-prefixed strings.
    pub fn serialize(&self) -> (r: Result<Vec<u8>, SteamError>)
        ensures
            r matches Ok(v) && v@ == logon_bytes(*self),
    {
        let mut buffer: Vec<u8> = Vec::new();
        let mut b = u32_le_bytes(self.protocol_version);
        buffer.append(&mut b);
        self.write_string(&mut buffer, self.username.as_str())?;
        self.write_string(&mut buffer, self.password.as_str())?;
        self.write_string(&mut buffer, self.login_key.as_str())?;
        assert(buffer@ =~= logon_bytes(*self));
        Ok(buffer)
    }

    fn write_string(&self, buffer: &mut Vec<u8>, s: &str) -> (r: Result<(), SteamError>)
        ensures
            r is Ok,
            final(buffer)@ == old(buffer)@ + string_field(s@),
    {
        let bytes = s.as_bytes();
        let len = bytes.len() as u64;
        #[verifier::truncate]
        let n = len as u32;
        assert(n == len % 0x1_0000_0000) by (bit_vector)
            requires
                n == len as u32,
        ;
        let mut b = u32_le_bytes(n);
        buffer.append(&mut b);
        append_bytes(buffer, bytes);
        Ok(())
    }
}

/// Client logon response.
#[derive(Debug, Clone)]
pub struct ClientLogonResponse {
    pub result: EResult,
    pub out_of_game_heartbeat_seconds: i32,
    pub in_game_heartbeat_seconds: i32,
    pub deprecated_public_ip: u32,
    pub rtime32_server_time: u32,
    pub account_flags: u32,
    pub cell_id: u32,
    pub email_domain: String,
    pub steam2_ticket: Vec<u8>,
    pub eresult_extended: EResult,
    pub webapi_authenticate_user_nonce: String,
    pub cell_id_ping_threshold: u32,
    pub deprecated_use_pics: bool,
    pub vanity_url: String,
    pub public_ip: Vec<u8>,
    pub server_time: u32,
    pub account_name: String,
    pub count_loginfailures_to_migrate: u32,
    pub count_disconnects_to_migrate: u32,
    pub ogs_data_report_time_window: u32,
    pub client_supplied_steam_id: u64,
    pub ip_country_code: String,
    pub parental_settings: Vec<u8>,
    pub parental_setting_signature: Vec<u8>,
    pub count_loginfailures_password_to_migrate: u32,
    pub count_disconnects_password_to_migrate: u32,
    pub country_code: String,
    pub steam_id: u64,
    pub facebook_id: u64,
    pub facebook_name: String,
    pub steam_guard_notify_newmachines: bool,
    pub steam_guard_machine_name_user_chosen: String,
    pub is_steam_guard_machine_name_user_chosen: bool,
    pub request_id_verify_password: u32,
    pub is_phone_verified: bool,
    pub two_factor_state: u32,
    pub is_phone_identifying: bool,
    pub is_phone_needing_reverify: bool,
}

/// The result a logon response reports for a leading result word: OK,
/// Fail, InvalidPassword and AccountLogonDenied are recognised, every other
/// value reads as Fail.
pub open spec fn logon_result_of(word: nat) -> EResult {
    if word == 1 {
        EResult::OK
    } else if word == 5 {
        EResult::InvalidPassword
    } else if word == 62 {
        EResult::AccountLogonDenied
    } else {
        EResult::Fail
    }
}

/// Every field of a logon response but the result holds its default:
/// heartbeats of 500 seconds, an extended result of OK, and zero, false or
/// empty elsewhere.
pub open spec fn logon_response_defaults(r: ClientLogonResponse) -> bool {
    &&& r.out_of_game_heartbeat_seconds == 500
    &&& r.in_game_heartbeat_seconds == 500
    &&& r.deprecated_public_ip == 0
    &&& r.rtime32_server_time == 0
    &&& r.account_flags == 0
    &&& r.cell_id == 0
    &&& r.email_domain@ == Seq::<char>::empty()
    &&& r.steam2_ticket@ == Seq::<u8>::empty()
    &&& r.eresult_extended == EResult::OK
    &&& r.webapi_authenticate_user_nonce@ == Seq::<char>::empty()
    &&& r.cell_id_ping_threshold == 0
    &&& !r.deprecated_use_pics
    &&& r.vanity_url@ == Seq::<char>::empty()
    &&& r.public_ip@ == Seq::<u8>::empty()
    &&& r.server_time == 0
    &&& r.account_name@ == Seq::<char>::empty()
    &&& r.count_loginfailures_to_migrate == 0
    &&& r.count_disconnects_to_migrate == 0
    &&& r.ogs_data_report_time_window == 0
    &&& r.client_supplied_steam_id == 0
    &&& r.ip_country_code@ == Seq::<char>::empty()
    &&& r.parental_settings@ == Seq::<u8>::empty()
    &&& r.parental_setting_signature@ == Seq::<u8>::empty()
    &&& r.count_loginfailures_password_to_migrate == 0
    &&& r.count_disconnects_password_to_migrate == 0
    &&& r.country_code@ == Seq::<char>::empty()
    &&& r.steam_id == 0
    &&& r.facebook_id == 0
    &&& r.facebook_name@ == Seq::<char>::empty()
    &&& !r.steam_guard_notify_newmachines
    &&& r.steam_guard_machine_name_user_chosen@ == Seq::<char>::empty()
    &&& !r.is_steam_guard_machine_name_user_chosen
    &&& r.request_id_verify_password == 0
    &&& !r.is_phone_verified
    &&& r.two_factor_state == 0
    &&& !r.is_phone_identifying
    &&& !r.is_phone_needing_reverify
}

impl ClientLogonResponse {
    /// Reads the leading little-endian result word; all other fields take
    /// their defaults. Inputs shorter than four bytes are refused.
    pub fn deserialize(data: &[u8]) -> (r: Result<ClientLogonResponse, SteamError>)
        ensures
            data@.len() < 4 ==> (r matches Err(e) && is_unknown_error(
                e,
                fault_message(DecodeFault::Truncated),
            )),
            data@.len() >= 4 ==> (r matches Ok(v) && v.result == logon_result_of(field(data@, 0, 4))
                && logon_response_defaults(v)),
    {
        if data.len() < 4 {
            return Err(fault_error(DecodeFault::Truncated));
        }
        let result_raw = read_u32_le(data, 0);
        let result = if result_raw == 1 {
            EResult::OK
        } else if result_raw == 2 {
            EResult::Fail
        } else if result_raw == 5 {
            EResult::InvalidPassword
        } else if result_raw == 62 {
            EResult::AccountLogonDenied
        } else {
            EResult::Fail
        };
        Ok(
            ClientLogonResponse {
                result,
                out_of_game_heartbeat_seconds: 500,
                in_game_heartbeat_seconds: 500,
                deprecated_public_ip: 0,
                rtime32_server_time: 0,
                account_flags: 0,
                cell_id: 0,
                email_domain: String::new(),
                steam2_ticket: Vec::new(),
                eresult_extended: EResult::OK,
                webapi_authenticate_user_nonce: String::new(),
                cell_id_ping_threshold: 0,
                deprecated_use_pics: false,
                vanity_url: String::new(),
                public_ip: Vec::new(),
                server_time: 0,
                account_name: String::new(),
                count_loginfailures_to_migrate: 0,
                count_disconnects_to_migrate: 0,
                ogs_data_report_time_window: 0,
                client_supplied_steam_id: 0,
                ip_country_code: String::new(),
                parental_settings: Vec::new(),
                parental_setting_signature: Vec::new(),
                count_loginfailures_password_to_migrate: 0,
                count_disconnects_password_to_migrate: 0,
                country_code: String::new(),
                steam_id: 0,
                facebook_id: 0,
                facebook_name: String::new(),
                steam_guard_notify_newmachines: false,
                steam_guard_machine_name_user_chosen: String::new(),
                is_steam_guard_machine_name_user_chosen: false,
                request_id_verify_password: 0,
                is_phone_verified: false,
                two_factor_state: 0,
                is_phone_identifying: false,
                is_phone_needing_reverify: false,
            },
        )
    }
}

/// The four little-endian bytes of the Steam protocol's number for each
/// message type: ChannelEncryptRequest 1303, ChannelEncryptResponse 1304,
/// ChannelEncryptResult 1305, ClientLogon 701, ClientLogOff 716,
/// ClientLogOnResponse 751.
pub open spec fn steam_message_number_bytes(m: EMsg) -> Seq<u8> {
    match m {
        EMsg::ChannelEncryptRequest => seq![0x17u8, 0x05u8, 0u8, 0u8],
        EMsg::ChannelEncryptResponse => seq![0x18u8, 0x05u8, 0u8, 0u8],
        EMsg::ChannelEncryptResult => seq![0x19u8, 0x05u8, 0u8, 0u8],
        EMsg::ClientLogon => seq![0xBDu8, 0x02u8, 0u8, 0u8],
        EMsg::ClientLogOff => seq![0xCCu8, 0x02u8, 0u8, 0u8],
        EMsg::ClientLogOnResponse => seq![0xEFu8, 0x02u8, 0u8, 0u8],
    }
}

/// Every message type travels under the Steam protocol's number for it: a
/// standard header, whatever its job identifiers, begins with that number's
/// four little-endian bytes, and any packet that begins with those bytes and
/// holds a whole standard header decodes as that message type.
pub proof fn lemma_message_numbers(h: MsgHdr, rest: Seq<u8>)
    ensures
        header_bytes(PacketHeader::Standard(h)).subrange(0, 4) == steam_message_number_bytes(h.msg),
        rest.len() >= 16 ==> (parse_packet(steam_message_number_bytes(h.msg) + rest) matches Ok(
            (hd, _),
        ) && header_msg(hd) == h.msg && hd is Standard),
{
    lemma_pow256_values();
    let code = emsg_code(h.msg);
    lemma_le_bytes_len(code as nat, 4);
    lemma_le_bytes_len(h.target_job_id as nat, 8);
    let hb = header_bytes(PacketHeader::Standard(h));
    assert(hb.subrange(0, 4) =~= le_bytes(code as nat, 4));
    reveal_with_fuel(le_bytes, 5);
    let b = steam_message_number_bytes(h.msg);
    assert(le_bytes(code as nat, 4) =~= b);
    let d = b + rest;
    if rest.len() >= 16 {
        assert(d.subrange(0, 4) =~= le_bytes(code as nat, 4));
        lemma_le_value_of_bytes(code as nat, 4);
        lemma_emsg_code_roundtrip(h.msg);
        assert(field(d, 0, 4) == code);
    }
}

/// A logon response reports success exactly when its leading word is 1,
/// the wire value of `EResult::OK`; the words 2, 5 and 62 report the results
/// with those wire values (Fail, InvalidPassword, AccountLogonDenied), and
/// every other word reports Fail.
pub proof fn lemma_logon_result_words(word: nat)
    ensures
        (logon_result_of(word) == EResult::OK) == (word == 1),
        word == 1 || word == 2 || word == 5 || word == 62 ==> eresult_code(logon_result_of(word))
            == word,
        !(word == 1 || word == 5 || word == 62) ==> logon_result_of(word) == EResult::Fail,
        eresult_code(EResult::Fail) == 2,
{
}

} // verus!