//! The user handler: logon details, logging on and off through the callback
//! queue, and the user's session state.

use vstd::prelude::*;
use crate::callbacks::{CallbackEvent, CallbackKind, CallbackManager, LoggedOffCallback,
    LoggedOnCallback, logged_on_defaults, same_subscribers};
use crate::text::copy_string;
use crate::types::{EResult, SteamError, SteamID, is_authentication_error};

verus! {

/// Details for logging on to Steam.
#[derive(Debug, Clone)]
pub struct LogOnDetails {
    pub username: Option<String>,
    pub password: Option<String>,
    pub access_token: Option<String>,
    pub refresh_token: Option<String>,
    pub login_id: Option<u32>,
    pub login_key: Option<String>,
    pub two_factor_code: Option<String>,
    pub auth_code: Option<String>,
    pub sentinel_file_hash: Option<Vec<u8>>,
    pub machine_id: Option<Vec<u8>>,
    pub account_instance: u32,
    pub account_id: u32,
    pub client_language: String,
    pub client_os_type: u32,
    pub anon_server_list: Vec<String>,
    pub should_remember_password: bool,
    pub obfuscated_private_ip: u32,
    pub protocol_version: u32,
    pub cell_id: u32,
}

/// No credential, code, key or machine data is set, the account id, the
/// private address and the cell are zero, no anonymous server is listed and
/// the password is not remembered.
pub open spec fn blank_logon_fields(d: LogOnDetails) -> bool {
    &&& d.username is None
    &&& d.password is None
    &&& d.access_token is None
    &&& d.refresh_token is None
    &&& d.login_id is None
    &&& d.login_key is None
    &&& d.two_factor_code is None
    &&& d.auth_code is None
    &&& d.sentinel_file_hash is None
    &&& d.machine_id is None
    &&& d.account_id == 0
    &&& d.anon_server_list@.len() == 0
    &&& !d.should_remember_password
    &&& d.obfuscated_private_ip == 0
    &&& d.cell_id == 0
}

impl Default for LogOnDetails {
    /// Everything blank: no language, instance, OS type or protocol version.
    fn default() -> (d: LogOnDetails)
        ensures
            blank_logon_fields(d),
            d.account_instance == 0,
            d.client_language@ == Seq::<char>::empty(),
            d.client_os_type == 0,
            d.protocol_version == 0,
    {
        LogOnDetails {
            username: None,
            password: None,
            access_token: None,
            refresh_token: None,
            login_id: None,
            login_key: None,
            two_factor_code: None,
            auth_code: None,
            sentinel_file_hash: None,
            machine_id: None,
            account_instance: 0,
            account_id: 0,
            client_language: String::new(),
            client_os_type: 0,
            anon_server_list: Vec::new(),
            should_remember_password: false,
            obfuscated_private_ip: 0,
            protocol_version: 0,
            cell_id: 0,
        }
    }
}

impl LogOnDetails {
    /// Blank details for the desktop client: instance 1, English, Windows
    /// (OS type 16) and protocol version 65580.
    pub fn new() -> (d: LogOnDetails)
        ensures
            blank_logon_fields(d),
            d.account_instance == 1,
            d.client_language@ == "english"@,
            d.client_os_type == 16,
            d.protocol_version == 65580,
    {
        let mut d = LogOnDetails::default();
        d.account_instance = 1;
        d.client_language = String::from_str("english");
        d.client_os_type = 16;
        d.protocol_version = 65580;
        d
    }

    pub fn set_username(&mut self, username: String)
        ensures
            *final(self) == (LogOnDetails { username: Some(username), ..*old(self) }),
    {
        self.username = Some(username);
    }

    pub fn set_password(&mut self, password: String)
        ensures
            *final(self) == (LogOnDetails { password: Some(password), ..*old(self) }),
    {
        self.password = Some(password);
    }

    pub fn set_access_token(&mut self, token: String)
        ensures
            *final(self) == (LogOnDetails { access_token: Some(token), ..*old(self) }),
    {
        self.access_token = Some(token);
    }

    pub fn set_refresh_token(&mut self, token: String)
        ensures
            *final(self) == (LogOnDetails { refresh_token: Some(token), ..*old(self) }),
    {
        self.refresh_token = Some(token);
    }

    pub fn set_login_id(&mut self, login_id: u32)
        ensures
            *final(self) == (LogOnDetails { login_id: Some(login_id), ..*old(self) }),
    {
        self.login_id = Some(login_id);
    }

    pub fn set_two_factor_code(&mut self, code: String)
        ensures
            *final(self) == (LogOnDetails { two_factor_code: Some(code), ..*old(self) }),
    {
        self.two_factor_code = Some(code);
    }

    pub fn set_auth_code(&mut self, code: String)
        ensures
            *final(self) == (LogOnDetails { auth_code: Some(code), ..*old(self) }),
    {
        self.auth_code = Some(code);
    }
}

/// The identifier reported for a simulated logon.
pub const MOCK_STEAM_ID: u64 = 76561198000000000;

/// The user's session: the callback queue its events go to, the identifier,
/// whether logged in, and the session token.
#[derive(Debug)]
pub struct SteamUser<H> {
    callback_manager: CallbackManager<H>,
    steam_id: Option<SteamID>,
    is_logged_in: bool,
    session_token: Option<String>,
    login_details: Option<LogOnDetails>,
}

impl<H> SteamUser<H> {
    pub closed spec fn manager(&self) -> CallbackManager<H> {
        self.callback_manager
    }

    pub closed spec fn spec_steam_id(&self) -> Option<SteamID> {
        self.steam_id
    }

    pub closed spec fn logged_in(&self) -> bool {
        self.is_logged_in
    }

    pub closed spec fn token(&self) -> Option<Seq<char>> {
        match self.session_token {
            Some(t) => Some(t@),
            None => None,
        }
    }

    /// A user that is not logged in, with no identifier and no session.
    pub fn new(callback_manager: CallbackManager<H>) -> (u: SteamUser<H>)
        ensures
            u.manager() == callback_manager,
            u.spec_steam_id() is None,
            !u.logged_in(),
            u.token() is None,
    {
        SteamUser {
            callback_manager,
            steam_id: None,
            is_logged_in: false,
            session_token: None,
            login_details: None,
        }
    }

    /// Logs on: details with neither an access token nor a user name are
    /// refused and nothing changes; otherwise the user is logged in under the
    /// simulated identifier and a logged-on callback with result OK is fired
    /// for it, with the user name (or `mock_user`) as account name and the
    /// details' cell.
    pub fn log_on(&mut self, details: LogOnDetails) -> (r: Result<(), SteamError>)
        ensures
            (details.access_token is None && details.username is None) ==> (r matches Err(e)
                && is_authentication_error(
                e,
                "Either access token or username must be provided"@,
            ) && final(self).manager() == old(self).manager() && final(self).spec_steam_id()
                == old(self).spec_steam_id() && final(self).logged_in() == old(self).logged_in()),
            (details.access_token is Some || details.username is Some) ==> (r is Ok
                && final(self).logged_in() && final(self).spec_steam_id() == Some(
                SteamID { id: MOCK_STEAM_ID },
            )
                && final(self).manager().pending().len() == old(self).manager().pending().len() + 1
                && final(self).manager().pending().drop_last() == old(self).manager().pending()
                && (final(self).manager().pending().last() matches CallbackEvent::LoggedOn(c)
                && c.result == EResult::OK && c.steam_id == (SteamID { id: MOCK_STEAM_ID })
                && c.cell_id == details.cell_id && c.email_domain is None
                && c.account_name@ == (match details.username {
                Some(u) => u@,
                None => "mock_user"@,
            }) && logged_on_defaults(c))),
            same_subscribers(old(self).manager(), final(self).manager()),
            final(self).manager().shutdown_requested() == old(self).manager().shutdown_requested(),
            final(self).token() == old(self).token(),
    {
        if details.access_token.is_none() && details.username.is_none() {
            return Err(
                SteamError::Authentication {
                    message: String::from_str("Either access token or username must be provided"),
                },
            );
        }
        let mut callback = LoggedOnCallback::new(EResult::OK);
        callback.steam_id = SteamID::new(MOCK_STEAM_ID);
        callback.account_name = match &details.username {
            Some(u) => copy_string(u),
            None => String::from_str("mock_user"),
        };
        callback.cell_id = details.cell_id;
        let r = self.callback_manager.fire_callback(CallbackEvent::LoggedOn(callback));
        assert(self.callback_manager.pending().drop_last() =~= old(self).manager().pending());
        self.steam_id = Some(SteamID::new(MOCK_STEAM_ID));
        self.is_logged_in = true;
        r
    }

    /// Logs off: the user is no longer logged in and has no identifier, and
    /// a logged-off callback with result OK is fired.
    pub fn log_off(&mut self) -> (r: Result<(), SteamError>)
        ensures
            r is Ok,
            final(self).manager().pending() == old(self).manager().pending().push(
                CallbackEvent::LoggedOff(LoggedOffCallback { result: EResult::OK }),
            ),
            same_subscribers(old(self).manager(), final(self).manager()),
            final(self).manager().shutdown_requested() == old(self).manager().shutdown_requested(),
            final(self).spec_steam_id() is None,
            !final(self).logged_in(),
            final(self).token() == old(self).token(),
    {
        let r = self.callback_manager.fire_callback(
            CallbackEvent::LoggedOff(LoggedOffCallback::new(EResult::OK)),
        );
        self.steam_id = None;
        self.is_logged_in = false;
        r
    }

    pub fn get_steam_id(&self) -> (s: Option<SteamID>)
        ensures
            s == self.spec_steam_id(),
    {
        self.steam_id
    }

    pub fn is_logged_in(&self) -> (b: bool)
        ensures
            b == self.logged_in(),
    {
        self.is_logged_in
    }

    pub fn get_session_token(&self) -> (t: Option<&String>)
        ensures
            match self.token() {
                Some(v) => t matches Some(s) && s@ == v,
                None => t is None,
            },
    {
        match &self.session_token {
            Some(s) => Some(s),
            None => None,
        }
    }

    /// The callback queue the user's events go to.
    pub fn callback_manager(&self) -> (m: &CallbackManager<H>)
        ensures
            *m == self.manager(),
    {
        &self.callback_manager
    }

    /// The callback queue, for taking events off it.
    pub fn callback_manager_mut(&mut self) -> (m: &mut CallbackManager<H>)
        ensures
            *m == old(self).manager(),
            final(self).manager() == *final(m),
            final(self).spec_steam_id() == old(self).spec_steam_id(),
            final(self).logged_in() == old(self).logged_in(),
            final(self).token() == old(self).token(),
    {
        &mut self.callback_manager
    }

    /// Asks for a new login key; the request needs nothing and succeeds.
    pub fn request_new_login_key(&self) -> (r: Result<(), SteamError>)
        ensures
            r is Ok,
    {
        Ok(())
    }

    /// Accepts a new login key; nothing is refused.
    pub fn accept_new_login_key(&self, unique_id: u32, login_key: &str) -> (r: Result<
        (),
        SteamError,
    >)
        ensures
            r is Ok,
    {
        Ok(())
    }

    /// Answers a machine authentication request; nothing is refused.
    pub fn send_machine_auth_response(&self, details: MachineAuthDetails) -> (r: Result<
        (),
        SteamError,
    >)
        ensures
            r is Ok,
    {
        Ok(())
    }
}

/// Details of a machine authentication answer.
#[derive(Debug, Clone)]
pub struct MachineAuthDetails {
    pub job_id: u64,
    pub filename: String,
    pub bytes_written: u32,
    pub file_size: u32,
    pub offset: u32,
    pub result: EResult,
    pub last_error: u32,
    pub one_time_password: u32,
    pub sentinel_file_hash: Vec<u8>,
}

impl MachineAuthDetails {
    /// An answer for the job and file with nothing written, result OK, no
    /// error, no one-time password and no sentinel hash.
    pub fn new(job_id: u64, filename: String) -> (d: MachineAuthDetails)
        ensures
            d.job_id == job_id,
            d.filename == filename,
            d.bytes_written == 0,
            d.file_size == 0,
            d.offset == 0,
            d.result == EResult::OK,
            d.last_error == 0,
            d.one_time_password == 0,
            d.sentinel_file_hash@ == Seq::<u8>::empty(),
    {
        MachineAuthDetails {
            job_id,
            filename,
            bytes_written: 0,
            file_size: 0,
            offset: 0,
            result: EResult::OK,
            last_error: 0,
            one_time_password: 0,
            sentinel_file_hash: Vec::new(),
        }
    }
}

/// A user's status as seen by friends.
#[derive(Debug, Clone)]
pub struct UserStatus {
    pub steam_id: SteamID,
    pub persona_name: String,
    pub persona_state: u32,
    pub persona_state_flags: u32,
    pub avatar_hash: Vec<u8>,
    pub last_logoff: u32,
    pub last_logon: u32,
    pub last_seen_online: u32,
    pub clan_id: SteamID,
    pub game_server_id: SteamID,
    pub game_server_ip: u32,
    pub game_server_port: u16,
    pub query_port: u16,
    pub source_tv_port: u16,
    pub game_data_blob: Vec<u8>,
    pub game_name: String,
    pub game_id: u64,
    pub rich_presence: Vec<u8>,
    pub broadcast_id: u64,
    pub game_lobby_id: SteamID,
}

impl Default for UserStatus {
    /// Every identifier, counter and time zero; every text and data empty.
    fn default() -> (s: UserStatus)
        ensures
            s.steam_id == (SteamID { id: 0 }),
            s.persona_name@ == Seq::<char>::empty(),
            s.persona_state == 0,
            s.persona_state_flags == 0,
            s.avatar_hash@ == Seq::<u8>::empty(),
            s.last_logoff == 0,
            s.last_logon == 0,
            s.last_seen_online == 0,
            s.clan_id == (SteamID { id: 0 }),
            s.game_server_id == (SteamID { id: 0 }),
            s.game_server_ip == 0,
            s.game_server_port == 0,
            s.query_port == 0,
            s.source_tv_port == 0,
            s.game_data_blob@ == Seq::<u8>::empty(),
            s.game_name@ == Seq::<char>::empty(),
            s.game_id == 0,
            s.rich_presence@ == Seq::<u8>::empty(),
            s.broadcast_id == 0,
            s.game_lobby_id == (SteamID { id: 0 }),
    {
        UserStatus {
            steam_id: SteamID::new(0),
            persona_name: String::new(),
            persona_state: 0,
            persona_state_flags: 0,
            avatar_hash: Vec::new(),
            last_logoff: 0,
            last_logon: 0,
            last_seen_online: 0,
            clan_id: SteamID::new(0),
            game_server_id: SteamID::new(0),
            game_server_ip: 0,
            game_server_port: 0,
            query_port: 0,
            source_tv_port: 0,
            game_data_blob: Vec::new(),
            game_name: String::new(),
            game_id: 0,
            rich_presence: Vec::new(),
            broadcast_id: 0,
            game_lobby_id: SteamID::new(0),
        }
    }
}

} // verus!
