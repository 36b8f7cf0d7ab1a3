//! Steam account authentication: session details, the logon details, the
//! requests of the web login flow, and the polling state machine that
//! decides, after each poll, whether to finish, ask the user for a code, or
//! poll again. The HTTP exchanges and the prompts happen around it.

use vstd::prelude::*;
use crate::encoding::base64_encoded;
use crate::text::{decimal, push_decimal, str_eq};
use crate::types::{SteamError, SteamID, is_unknown_error};
use crate::utils::{base64_encode, generate_machine_id, get_unix_timestamp, random_u32};
use vstd::string::StringSliceAdditionalSpecFns;
use vstd::utf8::encode_utf8;

verus! {

/// Steam Guard kinds of an authentication session.
#[derive(Debug, Clone, Copy, PartialEq, Eq, Structural)]
pub enum EAuthSessionGuardType {
    NoGuard,
    EmailCode,
    DeviceCode,
    DeviceConfirmation,
    EmailConfirmation,
    MachineToken,
}

impl EAuthSessionGuardType {
    /// The wire value.
    pub fn code(self) -> (c: u32)
        ensures
            c == (match self {
                EAuthSessionGuardType::NoGuard => 0u32,
                EAuthSessionGuardType::EmailCode => 1,
                EAuthSessionGuardType::DeviceCode => 2,
                EAuthSessionGuardType::DeviceConfirmation => 3,
                EAuthSessionGuardType::EmailConfirmation => 4,
                EAuthSessionGuardType::MachineToken => 5,
            }),
    {
        match self {
            EAuthSessionGuardType::NoGuard => 0,
            EAuthSessionGuardType::EmailCode => 1,
            EAuthSessionGuardType::DeviceCode => 2,
            EAuthSessionGuardType::DeviceConfirmation => 3,
            EAuthSessionGuardType::EmailConfirmation => 4,
            EAuthSessionGuardType::MachineToken => 5,
        }
    }
}

/// Platforms an authentication token is issued for.
#[derive(Debug, Clone, Copy, PartialEq, Eq, Structural)]
pub enum EAuthTokenPlatformType {
    Unknown,
    SteamClient,
    WebBrowser,
    MobileApp,
}

impl EAuthTokenPlatformType {
    /// The wire value.
    pub fn code(self) -> (c: u32)
        ensures
            c == (match self {
                EAuthTokenPlatformType::Unknown => 0u32,
                EAuthTokenPlatformType::SteamClient => 1,
                EAuthTokenPlatformType::WebBrowser => 2,
                EAuthTokenPlatformType::MobileApp => 3,
            }),
    {
        match self {
            EAuthTokenPlatformType::Unknown => 0,
            EAuthTokenPlatformType::SteamClient => 1,
            EAuthTokenPlatformType::WebBrowser => 2,
            EAuthTokenPlatformType::MobileApp => 3,
        }
    }
}

/// Platform types.
#[derive(Debug, Clone, Copy, PartialEq, Eq, Structural)]
pub enum EPlatformType {
    Unknown,
    Win32,
    Win64,
    Linux32,
    Linux64,
    MacOSX,
    PS3,
    PS4,
    PS5,
    XBox360,
    XBoxOne,
    AndroidPhone,
    AndroidTablet,
    IPhone,
    IPad,
    AndroidTV,
    VirtualReality,
    Steam,
}

impl EPlatformType {
    /// The wire value.
    pub fn code(self) -> (c: u32)
        ensures
            c <= 17,
            self == EPlatformType::Unknown <==> c == 0,
            self == EPlatformType::Steam <==> c == 17,
    {
        match self {
            EPlatformType::Unknown => 0,
            EPlatformType::Win32 => 1,
            EPlatformType::Win64 => 2,
            EPlatformType::Linux32 => 3,
            EPlatformType::Linux64 => 4,
            EPlatformType::MacOSX => 5,
            EPlatformType::PS3 => 6,
            EPlatformType::PS4 => 7,
            EPlatformType::PS5 => 8,
            EPlatformType::XBox360 => 9,
            EPlatformType::XBoxOne => 10,
            EPlatformType::AndroidPhone => 11,
            EPlatformType::AndroidTablet => 12,
            EPlatformType::IPhone => 13,
            EPlatformType::IPad => 14,
            EPlatformType::AndroidTV => 15,
            EPlatformType::VirtualReality => 16,
            EPlatformType::Steam => 17,
        }
    }
}

/// Details of an authentication session. Whether an authenticator is at
/// hand to answer Steam Guard challenges is passed to the polling decisions.
#[derive(Debug, Clone)]
pub struct AuthSessionDetails {
    pub username: String,
    pub password: String,
    /// A Steam Guard code known in advance.
    pub guard_code: Option<String>,
    pub device_friendly_name: String,
    pub platform_type: EAuthTokenPlatformType,
    pub language: String,
    /// Whether the session persists.
    pub persist_login: bool,
    pub website_id: String,
    pub client_id: String,
}

impl Default for AuthSessionDetails {
    fn default() -> (d: AuthSessionDetails)
        ensures
            d.username@ == Seq::<char>::empty(),
            d.password@ == Seq::<char>::empty(),
            d.guard_code is None,
            d.device_friendly_name@ == "Rust Steam Client"@,
            d.platform_type == EAuthTokenPlatformType::MobileApp,
            d.language@ == "chinese"@,
            d.persist_login,
            d.website_id@ == "Client"@,
            d.client_id@ == "DE45CD61"@,
    {
        AuthSessionDetails {
            username: String::new(),
            password: String::new(),
            guard_code: None,
            device_friendly_name: String::from_str("Rust Steam Client"),
            platform_type: EAuthTokenPlatformType::MobileApp,
            language: String::from_str("chinese"),
            persist_login: true,
            website_id: String::from_str("Client"),
            client_id: String::from_str("DE45CD61"),
        }
    }
}

/// The outcome of polling an authentication session.
#[derive(Debug, Clone)]
pub struct AuthPollResult {
    pub success: bool,
    pub error_message: Option<String>,
    pub access_token: Option<String>,
    pub refresh_token: Option<String>,
    pub new_guard_data: Option<String>,
    pub session_id: Option<String>,
    pub steam_id: Option<SteamID>,
    pub account_name: Option<String>,
    pub requires_2fa: bool,
    pub requires_email_verification: bool,
    pub requires_captcha: bool,
    pub captcha_gid: Option<String>,
}

/// Every field of a poll result is unset: not successful, nothing required,
/// no values.
pub open spec fn is_empty_poll_result(r: AuthPollResult) -> bool {
    &&& !r.success
    &&& r.error_message is None
    &&& r.access_token is None
    &&& r.refresh_token is None
    &&& r.new_guard_data is None
    &&& r.session_id is None
    &&& r.steam_id is None
    &&& r.account_name is None
    &&& !r.requires_2fa
    &&& !r.requires_email_verification
    &&& !r.requires_captcha
    &&& r.captcha_gid is None
}

impl Default for AuthPollResult {
    fn default() -> (r: AuthPollResult)
        ensures
            is_empty_poll_result(r),
    {
        AuthPollResult {
            success: false,
            error_message: None,
            access_token: None,
            refresh_token: None,
            new_guard_data: None,
            session_id: None,
            steam_id: None,
            account_name: None,
            requires_2fa: false,
            requires_email_verification: false,
            requires_captcha: false,
            captcha_gid: None,
        }
    }
}

/// The authenticator that asks the user on the console.
#[derive(Debug, Clone, Copy, PartialEq, Eq, Structural)]
pub struct ConsoleAuthenticator;

/// The server's answer to an RSA key request.
#[derive(Debug, Clone)]
pub struct RSAKeyResponse {
    pub success: bool,
    pub publickey_mod: String,
    pub publickey_exp: String,
    pub timestamp: String,
}

/// An RSA public key for encrypting the password.
#[derive(Debug, Clone)]
pub struct RSAKey {
    pub modulus: String,
    pub exponent: String,
    pub timestamp: String,
}

/// The server's answer to a login request.
#[derive(Debug, Clone)]
pub struct LoginResponse {
    pub success: bool,
    pub message: Option<String>,
    pub oauth: Option<OAuthResponse>,
}

/// The OAuth part of a login answer.
#[derive(Debug, Clone)]
pub struct OAuthResponse {
    pub oauth_token: Option<String>,
}

/// The server's answer to a poll of the authentication session.
#[derive(Debug, Clone)]
pub struct PollAuthResponse {
    pub status: String,
    pub error_message: Option<String>,
    pub access_token: Option<String>,
    pub refresh_token: Option<String>,
    pub steam_id: Option<u64>,
    pub email_domain: Option<String>,
    pub captcha_gid: Option<String>,
}

/// A form of request parameters, as text.
pub open spec fn form_view(f: Seq<(String, String)>) -> Seq<(Seq<char>, Seq<char>)> {
    f.map_values(|p: (String, String)| (p.0@, p.1@))
}

/// A lowercase hexadecimal digit.
pub open spec fn is_lower_hex_digit(c: char) -> bool {
    ('0' <= c && c <= '9') || ('a' <= c && c <= 'f')
}

/// The hyphenated text of a random (version 4, RFC 4122 variant) UUID:
/// 36 characters, hyphens at positions 8, 13, 18 and 23, lowercase
/// hexadecimal digits elsewhere, the version digit `4` at position 14 and a
/// variant digit of `8`, `9`, `a` or `b` at position 19.
pub open spec fn is_v4_uuid_text(s: Seq<char>) -> bool {
    &&& s.len() == 36
    &&& forall|i: int|
        0 <= i < 36 ==> (if i == 8 || i == 13 || i == 18 || i == 23 {
            s[i] == '-'
        } else {
            is_lower_hex_digit(#[trigger] s[i])
        })
    &&& s[14] == '4'
    &&& (s[19] == '8' || s[19] == '9' || s[19] == 'a' || s[19] == 'b')
}

/// A random UUID in hyphenated lowercase form (`uuid::Uuid::new_v4`,
/// rendered by its `Display`, which is `LowerHex`); which UUID is left open.
#[verifier::external_body]
fn new_uuid_string() -> (s: String)
    ensures
        is_v4_uuid_text(s@),
{
    uuid::Uuid::new_v4().to_string()
}

/// Milliseconds between polls.
pub const POLL_INTERVAL_MS: u64 = 1000;

/// Most polls of one session.
pub const MAX_POLL_ATTEMPTS: u32 = 60;

/// An authentication session of the web login flow.
#[derive(Debug)]
pub struct SteamAuthSession {
    pub client_id: String,
    pub request_id: String,
    pub session_id: String,
    pub details: AuthSessionDetails,
    pub poll_interval: u64,
    pub max_poll_attempts: u32,
}

/// The password text that is sent: `password:modulus:exponent`, in UTF-8,
/// Base64-encoded.
pub open spec fn encrypted_password_text(password: Seq<char>, key: RSAKey) -> Seq<char> {
    base64_encoded(encode_utf8(password + seq![':'] + key.modulus@ + seq![':'] + key.exponent@))
}

impl SteamAuthSession {
    /// A session for `details`, with fresh request and session identifiers,
    /// polling once a second at most sixty times.
    pub fn new(details: AuthSessionDetails) -> (r: Result<SteamAuthSession, SteamError>)
        ensures
            r matches Ok(s) && s.client_id@ == details.client_id@ && s.details == details
                && is_v4_uuid_text(s.request_id@) && is_v4_uuid_text(s.session_id@) && s.poll_interval
                == POLL_INTERVAL_MS && s.max_poll_attempts == MAX_POLL_ATTEMPTS,
    {
        let client_id = details.client_id.clone();
        Ok(
            SteamAuthSession {
                client_id,
                request_id: new_uuid_string(),
                session_id: new_uuid_string(),
                details,
                poll_interval: POLL_INTERVAL_MS,
                max_poll_attempts: MAX_POLL_ATTEMPTS,
            },
        )
    }

    /// The form of the RSA key request: the user name and a cache buster.
    pub fn rsa_key_form(&self, timestamp: u64) -> (f: Vec<(String, String)>)
        ensures
            form_view(f@) == seq![
                ("username"@, self.details.username@),
                ("donotcache"@, decimal(timestamp as nat)),
            ],
    {
        let mut f: Vec<(String, String)> = Vec::new();
        f.push((String::from_str("username"), self.details.username.clone()));
        let mut t = String::new();
        push_decimal(&mut t, timestamp);
        f.push((String::from_str("donotcache"), t));
        assert(form_view(f@) =~= seq![
            ("username"@, self.details.username@),
            ("donotcache"@, decimal(timestamp as nat)),
        ]);
        f
    }

    /// The key of an RSA key answer; a refusal is an error.
    pub fn rsa_key_from_response(&self, response: RSAKeyResponse) -> (r: Result<RSAKey, SteamError>)
        ensures
            !response.success ==> (r matches Err(e) && is_unknown_error(e, "无法获取RSA密钥"@)),
            response.success ==> (r matches Ok(k) && k.modulus == response.publickey_mod
                && k.exponent == response.publickey_exp && k.timestamp == response.timestamp),
    {
        if !response.success {
            return Err(SteamError::Unknown { message: String::from_str("无法获取RSA密钥") });
        }
        Ok(
            RSAKey {
                modulus: response.publickey_mod,
                exponent: response.publickey_exp,
                timestamp: response.timestamp,
            },
        )
    }

    /// The password as sent with the login request.
    pub fn encrypt_password(&self, password: &str, rsa_key: &RSAKey) -> (r: Result<String, SteamError>)
        ensures
            r matches Ok(s) && s@ == encrypted_password_text(password@, *rsa_key),
    {
        proof {
            reveal_strlit(":");
        }
        let mut combined = String::from_str(password);
        combined.append(":");
        combined.append(rsa_key.modulus.as_str());
        combined.append(":");
        combined.append(rsa_key.exponent.as_str());
        let bytes = combined.as_str().as_bytes();
        let s = base64_encode(bytes);
        assert(combined@ =~= password@ + seq![':'] + rsa_key.modulus@ + seq![':']
            + rsa_key.exponent@);
        Ok(s)
    }

    /// The form of the login request.
    pub fn login_form(&self, encrypted_password: &str, rsa_key: &RSAKey, timestamp: u64) -> (f: Vec<
        (String, String),
    >)
        ensures
            form_view(f@) == seq![
                ("username"@, self.details.username@),
                ("password"@, encrypted_password@),
                ("twofactorcode"@, match self.details.guard_code {
                    Some(c) => c@,
                    None => Seq::<char>::empty(),
                }),
                ("captchagid"@, "-1"@),
                ("captcha_text"@, Seq::<char>::empty()),
                ("emailauth"@, Seq::<char>::empty()),
                ("loginfriendlyname"@, self.details.device_friendly_name@),
                ("oauth_client_id"@, self.details.client_id@),
                ("oauth_scope"@, "read_limited write_limited"@),
                ("rsatimestamp"@, rsa_key.timestamp@),
                ("remember_login"@, if self.details.persist_login { "true"@ } else { "false"@ }),
                ("donotcache"@, decimal(timestamp as nat)),
            ],
    {
        let mut f: Vec<(String, String)> = Vec::new();
        f.push((String::from_str("username"), self.details.username.clone()));
        f.push((String::from_str("password"), String::from_str(encrypted_password)));
        let code = match &self.details.guard_code {
            Some(c) => c.clone(),
            None => String::new(),
        };
        f.push((String::from_str("twofactorcode"), code));
        f.push((String::from_str("captchagid"), String::from_str("-1")));
        f.push((String::from_str("captcha_text"), String::new()));
        f.push((String::from_str("emailauth"), String::new()));
        f.push((String::from_str("loginfriendlyname"), self.details.device_friendly_name.clone()));
        f.push((String::from_str("oauth_client_id"), self.details.client_id.clone()));
        f.push((String::from_str("oauth_scope"), String::from_str("read_limited write_limited")));
        f.push((String::from_str("rsatimestamp"), rsa_key.timestamp.clone()));
        let remember = if self.details.persist_login {
            String::from_str("true")
        } else {
            String::from_str("false")
        };
        f.push((String::from_str("remember_login"), remember));
        let mut t = String::new();
        push_decimal(&mut t, timestamp);
        f.push((String::from_str("donotcache"), t));
        assert(form_view(f@) =~= seq![
            ("username"@, self.details.username@),
            ("password"@, encrypted_password@),
            ("twofactorcode"@, match self.details.guard_code {
                Some(c) => c@,
                None => Seq::<char>::empty(),
            }),
            ("captchagid"@, "-1"@),
            ("captcha_text"@, Seq::<char>::empty()),
            ("emailauth"@, Seq::<char>::empty()),
            ("loginfriendlyname"@, self.details.device_friendly_name@),
            ("oauth_client_id"@, self.details.client_id@),
            ("oauth_scope"@, "read_limited write_limited"@),
            ("rsatimestamp"@, rsa_key.timestamp@),
            ("remember_login"@, if self.details.persist_login { "true"@ } else { "false"@ }),
            ("donotcache"@, decimal(timestamp as nat)),
        ]);
        f
    }

    /// Takes in a login answer: a refusal is an error carrying the server's
    /// message (or a generic one); an accepted login with an OAuth token
    /// makes that token the request identifier.
    pub fn apply_login_response(&mut self, response: LoginResponse) -> (r: Result<(), SteamError>)
        ensures
            !response.success ==> (r matches Err(e) && is_unknown_error(
                e,
                match response.message {
                    Some(m) => m@,
                    None => "登录失败"@,
                },
            )) && *final(self) == *old(self),
            response.success ==> r is Ok && final(self).request_id == (match response.oauth {
                Some(o) => match o.oauth_token {
                    Some(t) => t,
                    None => old(self).request_id,
                },
                None => old(self).request_id,
            }),
            final(self).client_id == old(self).client_id,
            final(self).session_id == old(self).session_id,
            final(self).details == old(self).details,
            final(self).poll_interval == old(self).poll_interval,
            final(self).max_poll_attempts == old(self).max_poll_attempts,
    {
        if !response.success {
            let message = match response.message {
                Some(m) => m,
                None => String::from_str("登录失败"),
            };
            return Err(SteamError::Unknown { message });
        }
        if let Some(oauth) = response.oauth {
            if let Some(token) = oauth.oauth_token {
                self.request_id = token;
            }
        }
        Ok(())
    }

    /// The form of a poll request: the request identifier.
    pub fn poll_form(&self) -> (f: Vec<(String, String)>)
        ensures
            form_view(f@) == seq![("oauth_token"@, self.request_id@)],
    {
        let mut f: Vec<(String, String)> = Vec::new();
        f.push((String::from_str("oauth_token"), self.request_id.clone()));
        assert(form_view(f@) =~= seq![("oauth_token"@, self.request_id@)]);
        f
    }

    /// The form submitting a two-factor code.
    pub fn two_factor_form(&self, code: &str) -> (f: Vec<(String, String)>)
        ensures
            form_view(f@) == seq![("twofactorcode"@, code@), ("oauth_token"@, self.request_id@)],
    {
        let mut f: Vec<(String, String)> = Vec::new();
        f.push((String::from_str("twofactorcode"), String::from_str(code)));
        f.push((String::from_str("oauth_token"), self.request_id.clone()));
        assert(form_view(f@) =~= seq![
            ("twofactorcode"@, code@),
            ("oauth_token"@, self.request_id@),
        ]);
        f
    }

    /// The form submitting an e-mail code.
    pub fn email_code_form(&self, code: &str) -> (f: Vec<(String, String)>)
        ensures
            form_view(f@) == seq![("emailauth"@, code@), ("oauth_token"@, self.request_id@)],
    {
        let mut f: Vec<(String, String)> = Vec::new();
        f.push((String::from_str("emailauth"), String::from_str(code)));
        f.push((String::from_str("oauth_token"), self.request_id.clone()));
        assert(form_view(f@) =~= seq![("emailauth"@, code@), ("oauth_token"@, self.request_id@)]);
        f
    }

    /// The form submitting a captcha answer.
    pub fn captcha_form(&self, code: &str, captcha_gid: &str) -> (f: Vec<(String, String)>)
        ensures
            form_view(f@) == seq![
                ("captcha_text"@, code@),
                ("captchagid"@, captcha_gid@),
                ("oauth_token"@, self.request_id@),
            ],
    {
        let mut f: Vec<(String, String)> = Vec::new();
        f.push((String::from_str("captcha_text"), String::from_str(code)));
        f.push((String::from_str("captchagid"), String::from_str(captcha_gid)));
        f.push((String::from_str("oauth_token"), self.request_id.clone()));
        assert(form_view(f@) =~= seq![
            ("captcha_text"@, code@),
            ("captchagid"@, captcha_gid@),
            ("oauth_token"@, self.request_id@),
        ]);
        f
    }

    /// A fresh polling state for this session.
    pub fn start_polling(&self) -> (p: AuthPoll)
        ensures
            p.attempts == 0,
            p.max_attempts == self.max_poll_attempts,
            p.previous_2fa_code is None,
            p.previous_email_code is None,
    {
        AuthPoll {
            attempts: 0,
            max_attempts: self.max_poll_attempts,
            previous_2fa_code: None,
            previous_email_code: None,
        }
    }
}

/// The statuses a poll answer can report.
#[derive(Debug, Clone, Copy, PartialEq, Eq, Structural)]
pub enum PollStatus {
    Success,
    NeedTwoFactor,
    NeedEmail,
    NeedCaptcha,
    Failed,
    Pending,
}

/// The status named by a poll answer's status text.
pub open spec fn poll_status_of(s: Seq<char>) -> PollStatus {
    if s == "success"@ {
        PollStatus::Success
    } else if s == "need_2fa"@ {
        PollStatus::NeedTwoFactor
    } else if s == "need_email"@ {
        PollStatus::NeedEmail
    } else if s == "need_captcha"@ {
        PollStatus::NeedCaptcha
    } else if s == "failed"@ {
        PollStatus::Failed
    } else {
        PollStatus::Pending
    }
}

/// Classifies a poll answer's status text.
pub fn classify_poll_status(status: &str) -> (p: PollStatus)
    ensures
        p == poll_status_of(status@),
{
    if str_eq(status, "success") {
        PollStatus::Success
    } else if str_eq(status, "need_2fa") {
        PollStatus::NeedTwoFactor
    } else if str_eq(status, "need_email") {
        PollStatus::NeedEmail
    } else if str_eq(status, "need_captcha") {
        PollStatus::NeedCaptcha
    } else if str_eq(status, "failed") {
        PollStatus::Failed
    } else {
        PollStatus::Pending
    }
}

/// What to do after a poll.
#[derive(Debug, Clone)]
pub enum PollStep {
    /// Report this outcome.
    Finished(AuthPollResult),
    /// Ask the authenticator for a device code (telling it the previous,
    /// rejected one), submit it, then poll again.
    RequestDeviceCode { previous: Option<String> },
    /// Ask the authenticator for the code sent to the e-mail domain, submit
    /// it, then poll again.
    RequestEmailCode { email_domain: String, previous: Option<String> },
    /// Ask the authenticator to solve the captcha, submit it, then poll again.
    RequestCaptchaCode { captcha_gid: String },
    /// Poll again.
    Continue,
}

/// The polling state of one authentication: polls made, the most polls
/// allowed, and the codes last submitted.
#[derive(Debug, Clone)]
pub struct AuthPoll {
    pub attempts: u32,
    pub max_attempts: u32,
    pub previous_2fa_code: Option<String>,
    pub previous_email_code: Option<String>,
}

/// The poll result that reports a missing authenticator.
pub open spec fn missing_authenticator_result(r: AuthPollResult, message: Seq<char>) -> bool {
    &&& !r.success
    &&& r.error_message matches Some(m) && m@ == message
    &&& r.access_token is None
    &&& r.refresh_token is None
    &&& r.new_guard_data is None
    &&& r.session_id is None
    &&& r.steam_id is None
    &&& r.account_name is None
}

impl AuthPoll {
    /// Starts the next poll; `false` once every allowed poll was made.
    pub fn next_attempt(&mut self) -> (started: bool)
        ensures
            started == (old(self).attempts < old(self).max_attempts),
            *final(self) == after_next_attempt(*old(self)),
            final(self).attempts == (if started { old(self).attempts + 1 } else { old(self).attempts as int }),
            final(self).max_attempts == old(self).max_attempts,
            final(self).previous_2fa_code == old(self).previous_2fa_code,
            final(self).previous_email_code == old(self).previous_email_code,
    {
        if self.attempts < self.max_attempts {
            self.attempts = self.attempts + 1;
            true
        } else {
            false
        }
    }

    /// Remembers the device code just submitted.
    pub fn record_device_code(&mut self, code: String)
        ensures
            final(self).previous_2fa_code == Some(code),
            final(self).previous_email_code == old(self).previous_email_code,
            final(self).attempts == old(self).attempts,
            final(self).max_attempts == old(self).max_attempts,
    {
        self.previous_2fa_code = Some(code);
    }

    /// Remembers the e-mail code just submitted.
    pub fn record_email_code(&mut self, code: String)
        ensures
            final(self).previous_email_code == Some(code),
            final(self).previous_2fa_code == old(self).previous_2fa_code,
            final(self).attempts == old(self).attempts,
            final(self).max_attempts == old(self).max_attempts,
    {
        self.previous_email_code = Some(code);
    }

    /// The error reported when every poll was made without an outcome.
    pub fn timed_out_error(&self) -> (e: SteamError)
        ensures
            is_unknown_error(e, "认证超时"@),
    {
        SteamError::Unknown { message: String::from_str("认证超时") }
    }

    /// Decides what follows a poll answer, given whether an authenticator is
    /// at hand and the session's user name.
    pub fn decide(&self, response: &PollAuthResponse, has_authenticator: bool, username: &String) -> (step:
        PollStep)
        ensures
            match poll_status_of(response.status@) {
                PollStatus::Success => step matches PollStep::Finished(r) && r.success
                    && r.access_token == response.access_token && r.refresh_token
                    == response.refresh_token && r.steam_id == (match response.steam_id {
                    Some(id) => Some(SteamID { id }),
                    None => None,
                }) && (r.account_name matches Some(a) && a@ == username@) && r.error_message is None
                    && r.new_guard_data is None && r.session_id is None && !r.requires_2fa
                    && !r.requires_email_verification && !r.requires_captcha && r.captcha_gid is None,
                PollStatus::NeedTwoFactor => if has_authenticator {
                    step matches PollStep::RequestDeviceCode { previous } && previous
                        == self.previous_2fa_code
                } else {
                    step matches PollStep::Finished(r) && missing_authenticator_result(
                        r,
                        "需要2FA验证但未提供认证器"@,
                    ) && r.requires_2fa && !r.requires_email_verification && !r.requires_captcha
                        && r.captcha_gid is None
                },
                PollStatus::NeedEmail => if has_authenticator {
                    step matches PollStep::RequestEmailCode { email_domain, previous } && previous
                        == self.previous_email_code && email_domain@ == (match response.email_domain {
                        Some(d) => d@,
                        None => "unknown"@,
                    })
                } else {
                    step matches PollStep::Finished(r) && missing_authenticator_result(
                        r,
                        "需要邮箱验证但未提供认证器"@,
                    ) && !r.requires_2fa && r.requires_email_verification && !r.requires_captcha
                        && r.captcha_gid is None
                },
                PollStatus::NeedCaptcha => if has_authenticator {
                    match response.captcha_gid {
                        Some(g) => step matches PollStep::RequestCaptchaCode { captcha_gid }
                            && captcha_gid == g,
                        None => step is Continue,
                    }
                } else {
                    step matches PollStep::Finished(r) && missing_authenticator_result(
                        r,
                        "需要验证码但未提供认证器"@,
                    ) && !r.requires_2fa && !r.requires_email_verification && r.requires_captcha
                        && r.captcha_gid == response.captcha_gid
                },
                PollStatus::Failed => step matches PollStep::Finished(r) && !r.success
                    && r.error_message == response.error_message && r.access_token is None
                    && r.refresh_token is None && r.new_guard_data is None && r.session_id is None
                    && r.steam_id is None && r.account_name is None && !r.requires_2fa
                    && !r.requires_email_verification && !r.requires_captcha && r.captcha_gid is None,
                PollStatus::Pending => step is Continue,
            },
    {
        match classify_poll_status(response.status.as_str()) {
            PollStatus::Success => {
                let mut r = AuthPollResult::default();
                r.success = true;
                r.access_token = response.access_token.clone();
                r.refresh_token = response.refresh_token.clone();
                r.steam_id = match response.steam_id {
                    Some(id) => Some(SteamID::new(id)),
                    None => None,
                };
                r.account_name = Some(username.clone());
                PollStep::Finished(r)
            },
            PollStatus::NeedTwoFactor => {
                if has_authenticator {
                    PollStep::RequestDeviceCode { previous: self.previous_2fa_code.clone() }
                } else {
                    let mut r = AuthPollResult::default();
                    r.error_message = Some(String::from_str("需要2FA验证但未提供认证器"));
                    r.requires_2fa = true;
                    PollStep::Finished(r)
                }
            },
            PollStatus::NeedEmail => {
                if has_authenticator {
                    let email_domain = match &response.email_domain {
                        Some(d) => d.clone(),
                        None => String::from_str("unknown"),
                    };
                    PollStep::RequestEmailCode {
                        email_domain,
                        previous: self.previous_email_code.clone(),
                    }
                } else {
                    let mut r = AuthPollResult::default();
                    r.error_message = Some(String::from_str("需要邮箱验证但未提供认证器"));
                    r.requires_email_verification = true;
                    PollStep::Finished(r)
                }
            },
            PollStatus::NeedCaptcha => {
                if has_authenticator {
                    match &response.captcha_gid {
                        Some(g) => PollStep::RequestCaptchaCode { captcha_gid: g.clone() },
                        None => PollStep::Continue,
                    }
                } else {
                    let mut r = AuthPollResult::default();
                    r.error_message = Some(String::from_str("需要验证码但未提供认证器"));
                    r.requires_captcha = true;
                    r.captcha_gid = response.captcha_gid.clone();
                    PollStep::Finished(r)
                }
            },
            PollStatus::Failed => {
                let mut r = AuthPollResult::default();
                r.error_message = response.error_message.clone();
                PollStep::Finished(r)
            },
            PollStatus::Pending => PollStep::Continue,
        }
    }
}

/// The polling state after a call of `next_attempt`.
pub open spec fn after_next_attempt(p: AuthPoll) -> AuthPoll {
    if p.attempts < p.max_attempts {
        AuthPoll { attempts: (p.attempts + 1) as u32, ..p }
    } else {
        p
    }
}

/// How many of `n` successive calls of `next_attempt` start a poll.
pub open spec fn polls_started(p: AuthPoll, n: nat) -> nat
    decreases n,
{
    if n == 0 {
        0
    } else {
        (if p.attempts < p.max_attempts { 1nat } else { 0nat }) + polls_started(
            after_next_attempt(p),
            (n - 1) as nat,
        )
    }
}

/// However often a poll is asked for, no more polls start than the limit
/// allows: from a state within the limit, at most `max_attempts - attempts`
/// of any number of calls start a poll.
pub proof fn lemma_poll_attempts_bounded(p: AuthPoll, n: nat)
    requires
        p.attempts <= p.max_attempts,
    ensures
        polls_started(p, n) <= p.max_attempts - p.attempts,
    decreases n,
{
    if n > 0 {
        lemma_poll_attempts_bounded(after_next_attempt(p), (n - 1) as nat);
    }
}

/// Logon details.
#[derive(Debug, Clone)]
pub struct LogOnDetails {
    pub username: Option<String>,
    pub password: Option<String>,
    pub login_key: Option<String>,
    pub access_token: Option<String>,
    pub refresh_token: Option<String>,
    pub account_name: Option<String>,
    pub steam_id: Option<SteamID>,
    pub client_instance_id: u64,
    pub machine_id: Vec<u8>,
    pub should_remember_password: bool,
    pub supports_rate_limit_response: bool,
    pub login_id: u32,
    pub two_factor_code: Option<String>,
    pub auth_code: Option<String>,
    pub sentinel_file_hash: Option<Vec<u8>>,
    pub machine_name: Option<String>,
    pub client_language: String,
    pub client_os_type: u32,
    pub anon_user_target_account_name: Option<String>,
    pub request_steam2_ticket: bool,
}

/// The operating-system type reported for Windows.
pub const CLIENT_OS_WINDOWS: u32 = 16;

/// The fields of fresh logon details that do not depend on the clock or on
/// chance: no credentials, remember the password, support rate-limit
/// answers, the machine name `Rust Steam Client`, Chinese, Windows, a
/// 20-byte machine identifier.
pub open spec fn fresh_logon_fields(d: LogOnDetails) -> bool {
    &&& d.login_key is None
    &&& d.refresh_token is None
    &&& d.account_name is None
    &&& d.steam_id is None
    &&& d.machine_id@.len() == 20
    &&& d.should_remember_password
    &&& d.supports_rate_limit_response
    &&& d.two_factor_code is None
    &&& d.auth_code is None
    &&& d.sentinel_file_hash is None
    &&& d.machine_name matches Some(n) && n@ == "Rust Steam Client"@
    &&& d.client_language@ == "chinese"@
    &&& d.client_os_type == CLIENT_OS_WINDOWS
    &&& d.anon_user_target_account_name is None
    &&& !d.request_steam2_ticket
}

impl LogOnDetails {
    /// Fresh details: the current time as client instance, a random machine
    /// identifier and login identifier, no credentials.
    pub fn new() -> (d: LogOnDetails)
        ensures
            fresh_logon_fields(d),
            d.username is None,
            d.password is None,
            d.access_token is None,
    {
        LogOnDetails {
            username: None,
            password: None,
            login_key: None,
            access_token: None,
            refresh_token: None,
            account_name: None,
            steam_id: None,
            client_instance_id: get_unix_timestamp(),
            machine_id: generate_machine_id(),
            should_remember_password: true,
            supports_rate_limit_response: true,
            login_id: random_u32(),
            two_factor_code: None,
            auth_code: None,
            sentinel_file_hash: None,
            machine_name: Some(String::from_str("Rust Steam Client")),
            client_language: String::from_str("chinese"),
            client_os_type: CLIENT_OS_WINDOWS,
            anon_user_target_account_name: None,
            request_steam2_ticket: false,
        }
    }

    /// Fresh details with a user name and password.
    pub fn with_credentials(username: String, password: String) -> (d: LogOnDetails)
        ensures
            fresh_logon_fields(d),
            d.username == Some(username),
            d.password == Some(password),
            d.access_token is None,
    {
        let mut details = Self::new();
        details.username = Some(username);
        details.password = Some(password);
        details
    }

    /// Fresh details with an access token.
    pub fn with_access_token(access_token: String) -> (d: LogOnDetails)
        ensures
            fresh_logon_fields(d),
            d.username is None,
            d.password is None,
            d.access_token == Some(access_token),
    {
        let mut details = Self::new();
        details.access_token = Some(access_token);
        details
    }
}

impl Default for LogOnDetails {
    fn default() -> (d: LogOnDetails)
        ensures
            fresh_logon_fields(d),
            d.username is None,
            d.password is None,
            d.access_token is None,
    {
        Self::new()
    }
}

} // verus!
