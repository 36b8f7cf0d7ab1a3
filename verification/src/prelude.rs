//! The commonly used types and helpers, for glob import.

pub use crate::types::{EAccountType, EMsg, EResult, EUniverse, ConnectionState, ExtendedMsgHdr,
    MsgHdr, ProtocolType, SteamError, SteamID};
pub use crate::utils::{community_id_to_steam_id, account_id_to_steam_id, base64_encode,
    base64_decode, bytes_to_hex, hex_to_bytes, sha1_hash, sha256_hash, get_unix_timestamp,
    generate_machine_id, is_valid_steam_username, format_file_size, sanitize_filename,
    parse_steam_store_url};
