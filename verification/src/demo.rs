//! A self-contained client for demonstrations: connecting, a simulated
//! password check that derives the account from the user name, a friend
//! list, sent messages, and a toy XOR cipher rendered in hexadecimal.

use vstd::prelude::*;
use vstd::string::StringSliceAdditionalSpecFns;
use crate::encoding::{hex_digit, hex_encoded};
use crate::text::{decimal, push_char, push_decimal, str_chars, str_eq};
use crate::utils::get_unix_timestamp;

verus! {

/// The high bits of an individual account in the public universe on the
/// desktop instance: universe 1 at bit 56, type 1 at bit 52, instance 1 at
/// bit 32.
pub open spec fn demo_id_prefix() -> nat {
    0x0110_0001_0000_0000
}

/// A 64-bit Steam identifier.
#[derive(Debug, Clone, Copy, PartialEq, Eq, Structural)]
pub struct SteamID(pub u64);

impl SteamID {
    pub fn new(id: u64) -> (s: SteamID)
        ensures
            s.0 == id,
    {
        SteamID(id)
    }

    /// The identifier of an individual public desktop account.
    pub fn from_account_id(account_id: u32) -> (s: SteamID)
        ensures
            s.0 == demo_id_prefix() + account_id,
    {
        let universe: u64 = 1;
        let instance: u64 = 1;
        let account_type: u64 = 1;
        let a = account_id as u64;
        let id = (universe << 56u64) | (account_type << 52u64) | (instance << 32u64) | a;
        assert(id == 0x0110_0001_0000_0000u64 + a) by (bit_vector)
            requires
                a < 0x1_0000_0000u64,
                universe == 1u64,
                instance == 1u64,
                account_type == 1u64,
                id == (universe << 56u64) | (account_type << 52u64) | (instance << 32u64) | a,
        ;
        SteamID(id)
    }

    /// The account number: the low 32 bits.
    pub fn get_account_id(&self) -> (a: u32)
        ensures
            a == self.0 % 0x1_0000_0000,
    {
        let x = self.0;
        let low = x & 0xFFFF_FFFFu64;
        assert(low == x % 0x1_0000_0000) by (bit_vector)
            requires
                low == x & 0xFFFF_FFFFu64,
        ;
        low as u32
    }

    /// The textual form `STEAM_1:Y:Z`, where Y is the account number's
    /// lowest bit and Z the rest of it.
    pub fn render(&self) -> (s: String)
        ensures
            s@ == rendered(*self),
    {
        let account_id = self.get_account_id();
        let y = account_id % 2;
        let z = account_id / 2;
        let mut s = String::from_str("STEAM_1:");
        push_decimal(&mut s, y as u64);
        push_char(&mut s, ':');
        push_decimal(&mut s, z as u64);
        proof {
            reveal_strlit("STEAM_1:");
        }
        assert(s@ =~= rendered(*self));
        s
    }

    pub fn as_u64(&self) -> (v: u64)
        ensures
            v == self.0,
    {
        self.0
    }
}

/// An identifier built from an account number carries it in its low 32 bits,
/// and its textual form `STEAM_1:Y:Z` gives it back as `2 * Z + Y`.
pub proof fn lemma_demo_account_roundtrip(account_id: u32)
    ensures
        (demo_id_prefix() + account_id) % 0x1_0000_0000 == account_id,
        ({
            let a = ((demo_id_prefix() + account_id) % 0x1_0000_0000) as nat;
            2 * (a / 2) + a % 2 == account_id
        }),
{
}

/// The textual form of an identifier.
pub open spec fn rendered(id: SteamID) -> Seq<char> {
    let a = id.0 as nat % 0x1_0000_0000;
    seq!['S', 'T', 'E', 'A', 'M', '_', '1', ':'] + decimal(a % 2) + seq![':'] + decimal(a / 2)
}

/// What can go wrong in the demonstration client.
#[derive(Debug, Clone)]
pub enum DemoError {
    InvalidCredentials,
    NetworkError(String),
    AuthenticationFailed(String),
    NotConnected,
}

/// The message shown for an error.
pub open spec fn error_text(e: DemoError) -> Seq<char> {
    match e {
        DemoError::InvalidCredentials => "无效的凭据"@,
        DemoError::NetworkError(m) => "网络错误: "@ + m@,
        DemoError::AuthenticationFailed(m) => "认证失败: "@ + m@,
        DemoError::NotConnected => "未连接到服务器"@,
    }
}

impl DemoError {
    /// The message shown for this error.
    pub fn message(&self) -> (s: String)
        ensures
            s@ == error_text(*self),
    {
        match self {
            DemoError::InvalidCredentials => String::from_str("无效的凭据"),
            DemoError::NetworkError(m) => {
                let mut s = String::from_str("网络错误: ");
                s.append(m.as_str());
                s
            },
            DemoError::AuthenticationFailed(m) => {
                let mut s = String::from_str("认证失败: ");
                s.append(m.as_str());
                s
            },
            DemoError::NotConnected => String::from_str("未连接到服务器"),
        }
    }
}

/// Where the client stands.
#[derive(Debug, Clone)]
pub enum AuthState {
    Disconnected,
    Connected,
    Authenticating,
    Authenticated { steam_id: SteamID, username: String },
    Failed(String),
}

/// A sent message.
#[derive(Debug, Clone)]
pub struct Message {
    pub from: SteamID,
    pub to: SteamID,
    pub content: String,
    pub timestamp: u64,
}

/// A friend on the list.
#[derive(Debug, Clone)]
pub struct Friend {
    pub steam_id: SteamID,
    pub name: String,
    pub status: String,
}

/// Messages as (sender, recipient, text, time).
pub open spec fn messages_view(v: Seq<Message>) -> Seq<(u64, u64, Seq<char>, u64)> {
    v.map_values(|m: Message| (m.from.0, m.to.0, m.content@, m.timestamp))
}

/// Friends as (identifier, name, status).
pub open spec fn friends_view(v: Seq<Friend>) -> Seq<(u64, Seq<char>, Seq<char>)> {
    v.map_values(|f: Friend| (f.steam_id.0, f.name@, f.status@))
}

/// The friend list every authenticated user gets.
pub open spec fn demo_friends() -> Seq<(u64, Seq<char>, Seq<char>)> {
    seq![
        ((demo_id_prefix() + 12345) as u64, "Friend Alice"@, "在线"@),
        ((demo_id_prefix() + 67890) as u64, "Friend Bob"@, "游戏中"@),
        ((demo_id_prefix() + 11111) as u64, "Friend Charlie"@, "离线"@),
    ]
}

/// The sum of the character codes of a text.
pub open spec fn char_sum(s: Seq<char>) -> nat
    decreases s.len(),
{
    if s.len() == 0 {
        0
    } else {
        char_sum(s.drop_last()) + (s.last() as u32) as nat
    }
}

/// The account number derived from a user name.
pub open spec fn demo_account_id(username: Seq<char>) -> nat {
    char_sum(username) % 1000000 + 1000
}

/// The client's state, friends, messages and session.
#[derive(Debug)]
pub struct SteamClientDemo {
    auth_state: AuthState,
    friends: Vec<Friend>,
    messages: Vec<Message>,
    session_id: Option<String>,
}

/// The outcome of authenticating with the given credentials at time `now`,
/// from the client `old` to the client `new` with result `r`: refused when
/// disconnected, refused for an empty user name or password, failed for the
/// password `wrong`, and otherwise authenticated as the account derived from
/// the user name, with a session named after `now` and the friend list
/// loaded.
pub open spec fn authentication_outcome(
    old: SteamClientDemo,
    new: SteamClientDemo,
    username: Seq<char>,
    password: Seq<char>,
    r: Result<SteamID, DemoError>,
    now: u64,
) -> bool {
    if old.auth_state() is Disconnected {
        r == Err::<SteamID, DemoError>(DemoError::NotConnected) && new == old
    } else if username.len() == 0 || password.len() == 0 {
        r == Err::<SteamID, DemoError>(DemoError::InvalidCredentials) && new == old
    } else if password == "wrong"@ {
        &&& r matches Err(DemoError::AuthenticationFailed(m)) && m@ == "密码错误"@
        &&& new.auth_state() matches AuthState::Failed(m) && m@ == "密码错误"@
        &&& new.friends() == old.friends()
        &&& new.messages() == old.messages()
        &&& new.session_id() == old.session_id()
    } else {
        let id = (demo_id_prefix() + demo_account_id(username)) as u64;
        &&& r == Ok::<SteamID, DemoError>(SteamID(id))
        &&& new.auth_state() matches AuthState::Authenticated { steam_id, username: u }
            && steam_id == SteamID(id) && u@ == username
        &&& friends_view(new.friends()) == demo_friends()
        &&& new.messages() == old.messages()
        &&& new.session_id() matches Some(s) && s == "session_"@ + decimal(now as nat)
    }
}

impl SteamClientDemo {
    pub closed spec fn auth_state(&self) -> AuthState {
        self.auth_state
    }

    pub closed spec fn friends(&self) -> Seq<Friend> {
        self.friends@
    }

    pub closed spec fn messages(&self) -> Seq<Message> {
        self.messages@
    }

    pub closed spec fn session_id(&self) -> Option<Seq<char>> {
        match self.session_id {
            Some(s) => Some(s@),
            None => None,
        }
    }

    /// A disconnected client with no friends, messages or session.
    pub fn new() -> (c: SteamClientDemo)
        ensures
            c.auth_state() is Disconnected,
            c.friends().len() == 0,
            c.messages().len() == 0,
            c.session_id() is None,
    {
        SteamClientDemo {
            auth_state: AuthState::Disconnected,
            friends: Vec::new(),
            messages: Vec::new(),
            session_id: None,
        }
    }

    /// Connects: the client becomes connected.
    pub fn connect(&mut self) -> (r: Result<(), DemoError>)
        ensures
            r is Ok,
            final(self).auth_state() is Connected,
            final(self).friends() == old(self).friends(),
            final(self).messages() == old(self).messages(),
            final(self).session_id() == old(self).session_id(),
    {
        self.auth_state = AuthState::Connected;
        Ok(())
    }

    /// Authenticates at the given time (see `authentication_outcome`).
    pub fn authenticate_at(&mut self, username: &str, password: &str, now: u64) -> (r: Result<
        SteamID,
        DemoError,
    >)
        requires
            !(old(self).auth_state() is Disconnected) && username@.len() > 0 && password@.len()
                > 0 ==> char_sum(username@) <= u32::MAX,
        ensures
            authentication_outcome(*old(self), *final(self), username@, password@, r, now),
    {
        if let AuthState::Disconnected = &self.auth_state {
            return Err(DemoError::NotConnected);
        }
        if username.is_empty() || password.is_empty() {
            return Err(DemoError::InvalidCredentials);
        }
        self.auth_state = AuthState::Authenticating;
        let chars = str_chars(username);
        let mut sum: u32 = 0;
        let mut i: usize = 0;
        while i < chars.len()
            invariant
                chars@ == username@,
                i <= chars@.len(),
                sum == char_sum(username@.take(i as int)),
                char_sum(username@) <= u32::MAX,
            decreases chars@.len() - i,
        {
            proof {
                lemma_char_sum_prefix(username@, i as int + 1);
                assert(username@.take(i as int + 1).drop_last() =~= username@.take(i as int));
            }
            sum = sum + (chars[i] as u32);
            i = i + 1;
        }
        assert(username@.take(i as int) =~= username@);
        let account_id = sum % 1000000 + 1000;
        let steam_id = SteamID::from_account_id(account_id);
        proof {
            reveal_strlit("wrong");
        }
        if str_eq(password, "wrong") {
            self.auth_state = AuthState::Failed(String::from_str("密码错误"));
            return Err(DemoError::AuthenticationFailed(String::from_str("密码错误")));
        }
        self.auth_state = AuthState::Authenticated {
            steam_id,
            username: username.to_owned(),
        };
        let mut session = String::from_str("session_");
        push_decimal(&mut session, now);
        self.session_id = Some(session);
        self.load_friends();
        Ok(steam_id)
    }

    /// Authenticates at the current time (see `authentication_outcome`).
    pub fn authenticate(&mut self, username: &str, password: &str) -> (r: Result<
        SteamID,
        DemoError,
    >)
        requires
            !(old(self).auth_state() is Disconnected) && username@.len() > 0 && password@.len()
                > 0 ==> char_sum(username@) <= u32::MAX,
        ensures
            exists|now: u64|
                #[trigger] authentication_outcome(
                    *old(self),
                    *final(self),
                    username@,
                    password@,
                    r,
                    now,
                ),
    {
        let now = get_timestamp();
        self.authenticate_at(username, password, now)
    }

    /// Fills the friend list with the three demonstration friends.
    pub fn load_friends(&mut self)
        ensures
            friends_view(final(self).friends()) == demo_friends(),
            final(self).auth_state() == old(self).auth_state(),
            final(self).messages() == old(self).messages(),
            final(self).session_id() == old(self).session_id(),
    {
        let mut friends: Vec<Friend> = Vec::new();
        friends.push(
            Friend {
                steam_id: SteamID::from_account_id(12345),
                name: String::from_str("Friend Alice"),
                status: String::from_str("在线"),
            },
        );
        friends.push(
            Friend {
                steam_id: SteamID::from_account_id(67890),
                name: String::from_str("Friend Bob"),
                status: String::from_str("游戏中"),
            },
        );
        friends.push(
            Friend {
                steam_id: SteamID::from_account_id(11111),
                name: String::from_str("Friend Charlie"),
                status: String::from_str("离线"),
            },
        );
        assert(friends_view(friends@) =~= demo_friends());
        self.friends = friends;
    }

    /// The friend list, once authenticated.
    pub fn get_friends(&self) -> (r: Result<&Vec<Friend>, DemoError>)
        ensures
            self.auth_state() is Authenticated ==> (r matches Ok(v) && v@ == self.friends()),
            !(self.auth_state() is Authenticated) ==> r == Err::<&Vec<Friend>, DemoError>(
                DemoError::NotConnected,
            ),
    {
        match &self.auth_state {
            AuthState::Authenticated { .. } => Ok(&self.friends),
            _ => Err(DemoError::NotConnected),
        }
    }

    /// Sends a message at the given time: recorded from the authenticated
    /// user; refused when not authenticated.
    pub fn send_message_at(&mut self, to_steam_id: SteamID, content: &str, timestamp: u64) -> (r:
        Result<(), DemoError>)
        ensures
            old(self).auth_state() matches AuthState::Authenticated { steam_id, .. } ==> (r is Ok
                && messages_view(final(self).messages()) == messages_view(
                old(self).messages(),
            ).push((steam_id.0, to_steam_id.0, content@, timestamp))),
            !(old(self).auth_state() is Authenticated) ==> r == Err::<(), DemoError>(
                DemoError::NotConnected,
            ) && final(self).messages() == old(self).messages(),
            final(self).auth_state() == old(self).auth_state(),
            final(self).friends() == old(self).friends(),
            final(self).session_id() == old(self).session_id(),
    {
        if let AuthState::Authenticated { steam_id: from_steam_id, .. } = &self.auth_state {
            let message = Message {
                from: *from_steam_id,
                to: to_steam_id,
                content: content.to_owned(),
                timestamp,
            };
            self.messages.push(message);
            assert(messages_view(self.messages@) =~= messages_view(old(self).messages()).push(
                (from_steam_id.0, to_steam_id.0, content@, timestamp),
            ));
            Ok(())
        } else {
            Err(DemoError::NotConnected)
        }
    }

    /// Sends a message stamped with the current time.
    pub fn send_message(&mut self, to_steam_id: SteamID, content: &str) -> (r: Result<
        (),
        DemoError,
    >)
        ensures
            old(self).auth_state() matches AuthState::Authenticated { steam_id, .. } ==> (r is Ok
                && final(self).messages().len() == old(self).messages().len() + 1
                && messages_view(final(self).messages()).drop_last() == messages_view(
                old(self).messages(),
            ) && messages_view(final(self).messages()).last().0 == steam_id.0 && messages_view(
                final(self).messages(),
            ).last().1 == to_steam_id.0 && messages_view(final(self).messages()).last().2
                == content@),
            !(old(self).auth_state() is Authenticated) ==> r == Err::<(), DemoError>(
                DemoError::NotConnected,
            ) && final(self).messages() == old(self).messages(),
            final(self).auth_state() == old(self).auth_state(),
            final(self).friends() == old(self).friends(),
            final(self).session_id() == old(self).session_id(),
    {
        let now = get_timestamp();
        let r = self.send_message_at(to_steam_id, content, now);
        proof {
            if old(self).auth_state() is Authenticated {
                let before = messages_view(old(self).messages());
                let after = messages_view(self.messages());
                assert(after.len() == before.len() + 1);
                assert(after.drop_last() =~= before);
            }
        }
        r
    }

    /// The sent messages, oldest first.
    pub fn get_messages(&self) -> (v: &Vec<Message>)
        ensures
            v@ == self.messages(),
    {
        &self.messages
    }

    /// Disconnects, forgetting friends, messages and session.
    pub fn disconnect(&mut self)
        ensures
            final(self).auth_state() is Disconnected,
            final(self).friends().len() == 0,
            final(self).messages().len() == 0,
            final(self).session_id() is None,
    {
        self.auth_state = AuthState::Disconnected;
        self.friends.clear();
        self.messages.clear();
        self.session_id = None;
    }

    pub fn get_auth_state(&self) -> (s: &AuthState)
        ensures
            *s == self.auth_state(),
    {
        &self.auth_state
    }
}

/// The character sum of a prefix grows by the next character's code.
proof fn lemma_char_sum_prefix(s: Seq<char>, n: int)
    requires
        0 < n <= s.len(),
    ensures
        char_sum(s.take(n)) == char_sum(s.take(n - 1)) + s[n - 1] as u32,
        char_sum(s.take(n)) <= char_sum(s),
    decreases s.len() - n,
{
    assert(s.take(n).drop_last() =~= s.take(n - 1));
    if n < s.len() {
        lemma_char_sum_prefix(s, n + 1);
    } else {
        assert(s.take(n) =~= s);
    }
}

/// The current Unix time in seconds.
pub fn get_timestamp() -> u64 {
    get_unix_timestamp()
}

/// Each byte of the data XORed with the key byte at the same position,
/// the key repeating.
pub open spec fn xor_with_key(data: Seq<u8>, key: Seq<u8>) -> Seq<u8> {
    Seq::new(data.len(), |i: int| data[i] ^ key[i % key.len() as int])
}

/// The toy cipher's output: `enc:` and the XORed bytes in lowercase
/// hexadecimal.
pub open spec fn encrypted_text(data: Seq<u8>, key: Seq<u8>) -> Seq<char> {
    seq!['e', 'n', 'c', ':'] + hex_encoded(xor_with_key(data, key))
}

/// Appending a byte appends its two digits to the hexadecimal encoding.
proof fn lemma_hex_encoded_push(s: Seq<u8>, b: u8)
    ensures
        hex_encoded(s.push(b)) == hex_encoded(s) + seq![
            hex_digit(b as nat / 16),
            hex_digit(b as nat % 16),
        ],
    decreases s.len(),
{
    let pair = seq![hex_digit(b as nat / 16), hex_digit(b as nat % 16)];
    if s.len() == 0 {
        assert(s.push(b).drop_first() =~= Seq::<u8>::empty());
        assert(hex_encoded(Seq::<u8>::empty()) =~= Seq::<char>::empty());
        assert(hex_encoded(s.push(b)) =~= pair);
        assert(hex_encoded(s) + pair =~= pair);
    } else {
        lemma_hex_encoded_push(s.drop_first(), b);
        assert(s.push(b).drop_first() =~= s.drop_first().push(b));
        let head = seq![hex_digit(s[0] as nat / 16), hex_digit(s[0] as nat % 16)];
        assert(hex_encoded(s.push(b)) == head + hex_encoded(s.drop_first().push(b)));
        assert(hex_encoded(s) == head + hex_encoded(s.drop_first()));
        assert(head + (hex_encoded(s.drop_first()) + pair) =~= (head + hex_encoded(s.drop_first()))
            + pair);
    }
}

fn hex_digit_char(v: u8) -> (c: char)
    requires
        v < 16,
    ensures
        c == hex_digit(v as nat),
{
    if v < 10 {
        (48u8 + v) as char
    } else {
        (87u8 + v) as char
    }
}

/// The toy cipher: XOR with the repeating key, in hexadecimal behind
/// `enc:`. The key must not be empty unless the data is.
pub fn simulate_encryption(data: &str, key: &str) -> (s: String)
    requires
        data.spec_bytes().len() > 0 ==> key.spec_bytes().len() > 0,
    ensures
        s@ == encrypted_text(data.spec_bytes(), key.spec_bytes()),
{
    let data_bytes = data.as_bytes();
    let key_bytes = key.as_bytes();
    let ghost x = xor_with_key(data_bytes@, key_bytes@);
    let mut result = String::from_str("enc:");
    proof {
        reveal_strlit("enc:");
    }
    let mut i: usize = 0;
    while i < data_bytes.len()
        invariant
            data_bytes@ == data.spec_bytes(),
            key_bytes@ == key.spec_bytes(),
            data_bytes@.len() > 0 ==> key_bytes@.len() > 0,
            x == xor_with_key(data_bytes@, key_bytes@),
            i <= data_bytes@.len(),
            result@ == seq!['e', 'n', 'c', ':'] + hex_encoded(x.take(i as int)),
        decreases data_bytes@.len() - i,
    {
        let key_byte = key_bytes[i % key_bytes.len()];
        let encrypted_byte = data_bytes[i] ^ key_byte;
        assert(encrypted_byte == x[i as int]);
        proof {
            lemma_hex_encoded_push(x.take(i as int), encrypted_byte);
            assert(x.take(i as int).push(encrypted_byte) =~= x.take(i as int + 1));
        }
        push_char(&mut result, hex_digit_char(encrypted_byte / 16));
        push_char(&mut result, hex_digit_char(encrypted_byte % 16));
        i = i + 1;
    }
    assert(x.take(i as int) =~= x);
    result
}

} // verus!
