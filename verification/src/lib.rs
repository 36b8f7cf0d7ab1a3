//! A client library for the Steam network protocol: identifiers and result
//! codes, packet framing and message codecs, the authentication and logon
//! state machines, connection planning and assorted helpers.

use vstd::prelude::*;

pub mod types;
pub mod text;
pub mod bytes;
pub mod protocol;
pub mod encoding;
pub mod utils;
pub mod file_size;
pub mod callbacks;
pub mod authentication;
pub mod client;
pub mod networking;
pub mod handlers;
pub mod demo;
pub mod prelude;

pub use types::{EAccountType, EMsg, EResult, EUniverse, ConnectionState, ExtendedMsgHdr, MsgHdr,
    ProtocolType, SteamError, SteamID};
pub use utils::{community_id_to_steam_id, account_id_to_steam_id, base64_encode, base64_decode,
    bytes_to_hex, hex_to_bytes, sha1_hash, sha256_hash, get_unix_timestamp, generate_machine_id,
    is_valid_steam_username, format_file_size, sanitize_filename, parse_steam_store_url};

verus! {

/// The library's version.
pub const VERSION: &'static str = "0.1.0";

/// The library's package name.
pub const LIB_NAME: &'static str = "rust-steam";

} // verus!
