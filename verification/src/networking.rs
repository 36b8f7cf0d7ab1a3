//! Connections to Steam servers: the connection configuration, the plan of
//! connection attempts, the connection manager's state and outgoing queue,
//! and the framing of messages on each transport. Sockets are driven around
//! these pieces.

use vstd::prelude::*;
use vstd::slice::{slice_subrange, slice_to_vec};
use crate::bytes::{le_bytes, le_value, read_u32_le, u32_le_bytes, append_bytes};
use crate::client::SteamConfiguration;
use crate::text::{copy_string, decimal, push_decimal, str_starts_with};
use crate::types::{ConnectionState, ProtocolType, SteamError, is_invalid_state_error,
    is_network_error, is_unknown_error};

verus! {

/// The views of a list of strings.
pub open spec fn strings_view(v: Seq<String>) -> Seq<Seq<char>> {
    v.map_values(|s: String| s@)
}

/// The Steam connection managers tried when no server is configured.
pub open spec fn default_cm_servers() -> Seq<Seq<char>> {
    seq![
        "155.133.254.133:27017"@,
        "155.133.254.133:27018"@,
        "155.133.254.133:27019"@,
        "155.133.254.133:27020"@,
        "155.133.244.135:27017"@,
        "155.133.244.135:27018"@,
        "162.254.195.46:27017"@,
        "162.254.195.46:27018"@,
    ]
}

/// Connection configuration.
#[derive(Debug, Clone)]
pub struct ConnectionConfig {
    pub protocol_types: Vec<ProtocolType>,
    /// Connection timeout in milliseconds.
    pub connection_timeout_ms: u64,
    pub server_list: Vec<String>,
    pub allow_direct_connection: bool,
    pub cell_id: Option<u32>,
}

fn clone_strings(v: &Vec<String>) -> (r: Vec<String>)
    ensures
        strings_view(r@) == strings_view(v@),
{
    let mut r: Vec<String> = Vec::new();
    let mut i: usize = 0;
    while i < v.len()
        invariant
            i <= v@.len(),
            r@.len() == i,
            strings_view(r@) == strings_view(v@.subrange(0, i as int)),
        decreases v@.len() - i,
    {
        let ghost before = r@;
        r.push(copy_string(&v[i]));
        assert(r@ == before.push(r@[i as int]));
        i = i + 1;
        assert forall|k: int| 0 <= k < i implies #[trigger] strings_view(r@)[k] == strings_view(
            v@.subrange(0, i as int),
        )[k] by {
            if k < i - 1 {
                assert(strings_view(before)[k] == strings_view(v@.subrange(0, i - 1))[k]);
            }
        }
        assert(strings_view(r@) =~= strings_view(v@.subrange(0, i as int)));
    }
    assert(v@.subrange(0, i as int) =~= v@);
    r
}

fn clone_protocols(v: &Vec<ProtocolType>) -> (r: Vec<ProtocolType>)
    ensures
        r@ == v@,
{
    let mut r: Vec<ProtocolType> = Vec::new();
    let mut i: usize = 0;
    while i < v.len()
        invariant
            i <= v@.len(),
            r@ == v@.subrange(0, i as int),
        decreases v@.len() - i,
    {
        r.push(v[i]);
        i = i + 1;
        assert(r@ =~= v@.subrange(0, i as int));
    }
    assert(v@.subrange(0, i as int) =~= v@);
    r
}

impl ConnectionConfig {
    /// The configuration for the client's settings; with no server
    /// configured, the default connection managers are used.
    pub fn from_steam_config(config: &SteamConfiguration) -> (c: ConnectionConfig)
        ensures
            c.protocol_types@ == config.protocol_types@,
            c.connection_timeout_ms == config.connect_timeout_ms,
            strings_view(c.server_list@) == (if config.server_list@.len() == 0 {
                default_cm_servers()
            } else {
                strings_view(config.server_list@)
            }),
            c.allow_direct_connection == config.allow_direct_connection,
            c.cell_id == config.cell_id,
    {
        let server_list = if config.server_list.len() == 0 {
            let mut v: Vec<String> = Vec::new();
            v.push(String::from_str("155.133.254.133:27017"));
            v.push(String::from_str("155.133.254.133:27018"));
            v.push(String::from_str("155.133.254.133:27019"));
            v.push(String::from_str("155.133.254.133:27020"));
            v.push(String::from_str("155.133.244.135:27017"));
            v.push(String::from_str("155.133.244.135:27018"));
            v.push(String::from_str("162.254.195.46:27017"));
            v.push(String::from_str("162.254.195.46:27018"));
            assert(strings_view(v@) =~= default_cm_servers());
            v
        } else {
            clone_strings(&config.server_list)
        };
        ConnectionConfig {
            protocol_types: clone_protocols(&config.protocol_types),
            connection_timeout_ms: config.connect_timeout_ms,
            server_list,
            allow_direct_connection: config.allow_direct_connection,
            cell_id: config.cell_id,
        }
    }
}

/// One connection attempt: a server and a transport.
#[derive(Debug, Clone)]
pub struct ConnectionAttempt {
    pub server: String,
    pub protocol: ProtocolType,
}

/// The attempts for one server, one per protocol, in protocol order.
pub open spec fn server_attempts(server: Seq<char>, protocols: Seq<ProtocolType>) -> Seq<
    (Seq<char>, ProtocolType),
> {
    protocols.map_values(|p: ProtocolType| (server, p))
}

/// All connection attempts: servers in order, and for each server every
/// protocol in order.
pub open spec fn attempt_plan(servers: Seq<Seq<char>>, protocols: Seq<ProtocolType>) -> Seq<
    (Seq<char>, ProtocolType),
>
    decreases servers.len(),
{
    if servers.len() == 0 {
        Seq::empty()
    } else {
        attempt_plan(servers.drop_last(), protocols) + server_attempts(servers.last(), protocols)
    }
}

/// The view of a list of attempts.
pub open spec fn attempts_view(v: Seq<ConnectionAttempt>) -> Seq<(Seq<char>, ProtocolType)> {
    v.map_values(|a: ConnectionAttempt| (a.server@, a.protocol))
}

/// What follows a connection attempt.
#[derive(Debug)]
pub enum ConnectStep {
    /// The attempt opened: the manager is connected and sending may start.
    Connected,
    /// The attempt failed: try the next one.
    TryNext,
    /// Connecting ends with this error.
    Failed(SteamError),
}

/// The manager's model of its connection: which attempt succeeded, if any.
#[derive(Debug)]
pub struct ConnectionManager {
    config: ConnectionConfig,
    connection_state: ConnectionState,
    active: Option<ConnectionAttempt>,
    outgoing: Vec<Vec<u8>>,
    receiver_taken: bool,
}

impl ConnectionManager {
    pub closed spec fn state(&self) -> ConnectionState {
        self.connection_state
    }

    pub closed spec fn spec_config(&self) -> ConnectionConfig {
        self.config
    }

    pub closed spec fn active(&self) -> Option<ConnectionAttempt> {
        self.active
    }

    /// Messages waiting to be sent, oldest first.
    pub closed spec fn outgoing(&self) -> Seq<Seq<u8>> {
        self.outgoing@.map_values(|m: Vec<u8>| m@)
    }

    /// Whether the sending task has taken the outgoing queue.
    pub closed spec fn processing_started(&self) -> bool {
        self.receiver_taken
    }

    /// A disconnected manager with nothing to send.
    pub fn new(config: ConnectionConfig) -> (r: Result<ConnectionManager, SteamError>)
        ensures
            r matches Ok(m) && m.state() == ConnectionState::Disconnected && m.active() is None
                && m.outgoing() == Seq::<Seq<u8>>::empty() && !m.processing_started()
                && m.spec_config() == config,
    {
        let m = ConnectionManager {
            config,
            connection_state: ConnectionState::Disconnected,
            active: None,
            outgoing: Vec::new(),
            receiver_taken: false,
        };
        assert(m.outgoing() =~= Seq::<Seq<u8>>::empty());
        Ok(m)
    }

    /// The attempts to make, in order: every protocol on the first server,
    /// then on the next, and so on.
    pub fn connection_plan(&self) -> (plan: Vec<ConnectionAttempt>)
        ensures
            attempts_view(plan@) == attempt_plan(
                strings_view(self.spec_config().server_list@),
                self.spec_config().protocol_types@,
            ),
    {
        let servers = &self.config.server_list;
        let protocols = &self.config.protocol_types;
        let ghost sv = strings_view(servers@);
        let mut plan: Vec<ConnectionAttempt> = Vec::new();
        let mut i: usize = 0;
        while i < servers.len()
            invariant
                i <= servers@.len(),
                sv == strings_view(servers@),
                attempts_view(plan@) == attempt_plan(sv.subrange(0, i as int), protocols@),
            decreases servers@.len() - i,
        {
            let ghost before = attempts_view(plan@);
            assert(plan@.len() == before.len());
            let mut j: usize = 0;
            while j < protocols.len()
                invariant
                    i < servers@.len(),
                    j <= protocols@.len(),
                    attempts_view(plan@) == before + server_attempts(
                        servers@[i as int]@,
                        protocols@.subrange(0, j as int),
                    ),
                    plan@.len() == before.len() + j,
                decreases protocols@.len() - j,
            {
                let ghost prev = plan@;
                plan.push(ConnectionAttempt { server: copy_string(&servers[i]), protocol: protocols[j] });
                j = j + 1;
                assert forall|k: int| 0 <= k < plan@.len() implies #[trigger] attempts_view(plan@)[k]
                    == (before + server_attempts(
                    servers@[i as int]@,
                    protocols@.subrange(0, j as int),
                ))[k] by {
                    if k < plan@.len() - 1 {
                        assert(plan@[k] == prev[k]);
                        assert(attempts_view(prev)[k] == attempts_view(plan@)[k]);
                    }
                }
                assert(attempts_view(plan@) =~= before + server_attempts(
                    servers@[i as int]@,
                    protocols@.subrange(0, j as int),
                ));
            }
            assert(protocols@.subrange(0, j as int) =~= protocols@);
            assert(sv.subrange(0, i + 1).drop_last() =~= sv.subrange(0, i as int));
            i = i + 1;
        }
        assert(sv.subrange(0, i as int) =~= sv);
        plan
    }

    /// Starts connecting: the state becomes `Connecting`.
    pub fn begin_connect(&mut self)
        ensures
            final(self).state() == ConnectionState::Connecting,
            final(self).active() == old(self).active(),
            final(self).outgoing() == old(self).outgoing(),
            final(self).processing_started() == old(self).processing_started(),
    {
        self.connection_state = ConnectionState::Connecting;
    }

    /// An attempt succeeded: the state becomes `Connected` with it active.
    pub fn connection_established(&mut self, attempt: ConnectionAttempt)
        ensures
            final(self).state() == ConnectionState::Connected,
            final(self).active() == Some(attempt),
            final(self).outgoing() == old(self).outgoing(),
            final(self).processing_started() == old(self).processing_started(),
    {
        self.active = Some(attempt);
        self.connection_state = ConnectionState::Connected;
    }

    /// Decides after an attempt of the plan: the first attempt that opens
    /// connects the manager and hands over the outgoing queue (refused when
    /// it was handed over already); a failed attempt leads to the next one
    /// while attempts remain, and otherwise ends connecting with the error
    /// that no protocol could connect.
    pub fn attempt_finished(&mut self, attempt: ConnectionAttempt, opened: bool, more_attempts: bool) -> (step: ConnectStep)
        ensures
            opened ==> final(self).state() == ConnectionState::Connected && final(self).active()
                == Some(attempt) && final(self).processing_started() && (if old(
                self,
            ).processing_started() {
                step matches ConnectStep::Failed(e) && is_invalid_state_error(e, "消息接收器已被使用"@)
            } else {
                step is Connected
            }),
            !opened && more_attempts ==> step is TryNext && final(self).state() == old(self).state()
                && final(self).active() == old(self).active() && final(self).processing_started()
                == old(self).processing_started(),
            !opened && !more_attempts ==> final(self).state() == ConnectionState::Disconnected
                && final(self).active() == old(self).active() && final(self).processing_started()
                == old(self).processing_started() && (step matches ConnectStep::Failed(e)
                && is_network_error(e, "无法使用任何协议连接到Steam服务器"@)),
            final(self).outgoing() == old(self).outgoing(),
    {
        if opened {
            self.connection_established(attempt);
            match self.start_message_processing() {
                Ok(()) => ConnectStep::Connected,
                Err(e) => ConnectStep::Failed(e),
            }
        } else if more_attempts {
            ConnectStep::TryNext
        } else {
            ConnectStep::Failed(self.all_attempts_failed())
        }
    }

    /// Every attempt failed: the state returns to `Disconnected` and the
    /// error to report is given.
    pub fn all_attempts_failed(&mut self) -> (e: SteamError)
        ensures
            final(self).state() == ConnectionState::Disconnected,
            final(self).active() == old(self).active(),
            final(self).outgoing() == old(self).outgoing(),
            final(self).processing_started() == old(self).processing_started(),
            is_network_error(e, "无法使用任何协议连接到Steam服务器"@),
    {
        self.connection_state = ConnectionState::Disconnected;
        SteamError::Network(String::from_str("无法使用任何协议连接到Steam服务器"))
    }

    /// Hands the outgoing queue to the sending task; it can be handed over
    /// only once.
    pub fn start_message_processing(&mut self) -> (r: Result<(), SteamError>)
        ensures
            old(self).processing_started() ==> (r matches Err(e) && is_invalid_state_error(
                e,
                "消息接收器已被使用"@,
            )),
            !old(self).processing_started() ==> r is Ok,
            final(self).processing_started(),
            final(self).state() == old(self).state(),
            final(self).active() == old(self).active(),
            final(self).outgoing() == old(self).outgoing(),
    {
        if self.receiver_taken {
            return Err(SteamError::InvalidState { message: String::from_str("消息接收器已被使用") });
        }
        self.receiver_taken = true;
        Ok(())
    }

    /// Starts disconnecting: the state becomes `Disconnecting`.
    pub fn begin_disconnect(&mut self)
        ensures
            final(self).state() == ConnectionState::Disconnecting,
            final(self).active() == old(self).active(),
            final(self).outgoing() == old(self).outgoing(),
            final(self).processing_started() == old(self).processing_started(),
    {
        self.connection_state = ConnectionState::Disconnecting;
    }

    /// The connection is closed: no attempt is active and the state becomes
    /// `Disconnected`; the attempt that was active is returned, to be closed.
    pub fn complete_disconnect(&mut self) -> (closed: Option<ConnectionAttempt>)
        ensures
            closed == old(self).active(),
            final(self).active() is None,
            final(self).state() == ConnectionState::Disconnected,
            final(self).outgoing() == old(self).outgoing(),
            final(self).processing_started() == old(self).processing_started(),
    {
        let closed = self.active.take();
        self.connection_state = ConnectionState::Disconnected;
        closed
    }

    /// Queues a message for sending.
    pub fn send_message(&mut self, message: &[u8]) -> (r: Result<(), SteamError>)
        ensures
            r is Ok,
            final(self).outgoing() == old(self).outgoing().push(message@),
            final(self).state() == old(self).state(),
            final(self).active() == old(self).active(),
            final(self).processing_started() == old(self).processing_started(),
    {
        self.outgoing.push(slice_to_vec(message));
        assert(self.outgoing() =~= old(self).outgoing().push(message@));
        Ok(())
    }

    /// Takes the oldest queued message, if any.
    pub fn next_outgoing(&mut self) -> (m: Option<Vec<u8>>)
        ensures
            old(self).outgoing().len() == 0 ==> m is None && final(self).outgoing() == old(
                self,
            ).outgoing(),
            old(self).outgoing().len() > 0 ==> (m matches Some(v) && v@ == old(self).outgoing()[0])
                && final(self).outgoing() == old(self).outgoing().drop_first(),
            final(self).state() == old(self).state(),
            final(self).active() == old(self).active(),
            final(self).processing_started() == old(self).processing_started(),
    {
        if self.outgoing.len() == 0 {
            None
        } else {
            let m = self.outgoing.remove(0);
            assert(self.outgoing() =~= old(self).outgoing().drop_first());
            Some(m)
        }
    }

    /// The connection state.
    pub fn get_state(&self) -> (s: ConnectionState)
        ensures
            s == self.state(),
    {
        self.connection_state
    }

    /// The configuration.
    pub fn config(&self) -> (c: &ConnectionConfig)
        ensures
            *c == self.spec_config(),
    {
        &self.config
    }
}

/// Messages queued one after another with `send_message`.
pub open spec fn queued_all(queue: Seq<Seq<u8>>, messages: Seq<Seq<u8>>) -> Seq<Seq<u8>>
    decreases messages.len(),
{
    if messages.len() == 0 {
        queue
    } else {
        queued_all(queue.push(messages[0]), messages.drop_first())
    }
}

/// Messages leave in the order they were queued: queueing a series of
/// messages appends them, in order, behind those already waiting, and
/// `next_outgoing` takes from the front.
pub proof fn lemma_queued_in_order(queue: Seq<Seq<u8>>, messages: Seq<Seq<u8>>)
    ensures
        queued_all(queue, messages) == queue + messages,
    decreases messages.len(),
{
    if messages.len() > 0 {
        lemma_queued_in_order(queue.push(messages[0]), messages.drop_first());
        assert(queue.push(messages[0]) + messages.drop_first() =~= queue + messages);
    } else {
        assert(queue + messages =~= queue);
    }
}

/// The error reported when connecting to a server takes too long.
pub fn connect_timeout_error(server: &str, timeout_secs: u64) -> (e: SteamError)
    ensures
        is_network_error(
            e,
            "连接超时: "@ + server@ + " ("@ + decimal(timeout_secs as nat) + ")"@,
        ),
{
    let mut m = String::from_str("连接超时: ");
    m.append(server);
    m.append(" (");
    push_decimal(&mut m, timeout_secs);
    m.append(")");
    SteamError::Network(m)
}

/// The message type of an incoming message: its leading little-endian word,
/// when it has four bytes or more.
pub fn incoming_message_type(message: &[u8]) -> (t: Option<u32>)
    ensures
        message@.len() < 4 ==> t is None,
        message@.len() >= 4 ==> (t matches Some(v) && v as nat == le_value(
            message@.subrange(0, 4),
        )),
{
    if message.len() >= 4 {
        Some(read_u32_le(message, 0))
    } else {
        None
    }
}

/// The message of the error for a transfer on a connection that is not
/// established.
pub open spec fn not_connected_text(protocol: ProtocolType) -> Seq<char> {
    match protocol {
        ProtocolType::TCP => "TCP连接未建立"@,
        ProtocolType::UDP => "UDP连接未建立"@,
        ProtocolType::WebSocket => "WebSocket连接未建立"@,
    }
}

/// The error for sending or receiving on a connection of the given protocol
/// that is not established.
pub fn not_connected_error(protocol: ProtocolType) -> (e: SteamError)
    ensures
        is_invalid_state_error(e, not_connected_text(protocol)),
{
    let message = match protocol {
        ProtocolType::TCP => String::from_str("TCP连接未建立"),
        ProtocolType::UDP => String::from_str("UDP连接未建立"),
        ProtocolType::WebSocket => String::from_str("WebSocket连接未建立"),
    };
    SteamError::InvalidState { message }
}

/// Largest message accepted over TCP: one mebibyte.
pub const MAX_TCP_MESSAGE_LEN: u32 = 1024 * 1024;

/// A TCP frame: the message length (truncated to 32 bits) as a
/// little-endian word, then the message.
pub open spec fn tcp_frame(message: Seq<u8>) -> Seq<u8> {
    le_bytes(message.len() % 0x1_0000_0000, 4) + message
}

/// The model of a TCP connection: its address and whether it is connected.
#[derive(Debug, Clone)]
pub struct TcpConnection {
    pub address: String,
    pub connected: bool,
}

impl TcpConnection {
    /// A connection to `address` that is not connected yet.
    pub fn unconnected(address: &str) -> (c: TcpConnection)
        ensures
            c.address@ == address@,
            !c.connected,
    {
        TcpConnection { address: String::from_str(address), connected: false }
    }

    /// Records that the stream is up.
    pub fn mark_connected(&mut self)
        ensures
            final(self).connected,
            final(self).address == old(self).address,
    {
        self.connected = true;
    }

    /// Records that the stream is closed.
    pub fn mark_disconnected(&mut self)
        ensures
            !final(self).connected,
            final(self).address == old(self).address,
    {
        self.connected = false;
    }

    /// Whether a message may be sent or received: refused with an
    /// invalid-state error while the connection is not established.
    pub fn ensure_connected(&self) -> (r: Result<(), SteamError>)
        ensures
            self.connected ==> r is Ok,
            !self.connected ==> (r matches Err(e) && is_invalid_state_error(
                e,
                not_connected_text(ProtocolType::TCP),
            )),
    {
        if self.connected {
            Ok(())
        } else {
            Err(not_connected_error(ProtocolType::TCP))
        }
    }

    pub fn is_connected(&self) -> (b: bool)
        ensures
            b == self.connected,
    {
        self.connected
    }

    pub fn get_protocol_type(&self) -> (p: ProtocolType)
        ensures
            p == ProtocolType::TCP,
    {
        ProtocolType::TCP
    }

    /// The bytes written to the stream for a message: a length prefix, then
    /// the message.
    pub fn frame_message(message: &[u8]) -> (f: Vec<u8>)
        ensures
            f@ == tcp_frame(message@),
    {
        let len = message.len() as u64;
        #[verifier::truncate]
        let n = len as u32;
        assert(n == len % 0x1_0000_0000) by (bit_vector)
            requires
                n == len as u32,
        ;
        let mut f = u32_le_bytes(n);
        append_bytes(&mut f, message);
        f
    }

    /// The length of the message a frame announces, from its four-byte
    /// prefix; lengths above one mebibyte are refused.
    pub fn frame_length(prefix: &[u8]) -> (r: Result<u32, SteamError>)
        requires
            prefix@.len() == 4,
        ensures
            le_value(prefix@) <= MAX_TCP_MESSAGE_LEN ==> (r matches Ok(n) && n as nat == le_value(
                prefix@,
            )),
            le_value(prefix@) > MAX_TCP_MESSAGE_LEN ==> (r matches Err(e) && is_unknown_error(
                e,
                "消息长度过大: "@ + decimal(le_value(prefix@)),
            )),
    {
        let n = read_u32_le(prefix, 0);
        assert(prefix@.subrange(0, 4) =~= prefix@);
        if n > MAX_TCP_MESSAGE_LEN {
            let mut m = String::from_str("消息长度过大: ");
            push_decimal(&mut m, n as u64);
            return Err(SteamError::Unknown { message: m });
        }
        Ok(n)
    }
}

/// A message of at most one mebibyte, framed, announces its own length and
/// is followed by exactly its bytes: reading a frame gives the message back.
pub proof fn lemma_tcp_frame_roundtrip(message: Seq<u8>)
    requires
        message.len() <= MAX_TCP_MESSAGE_LEN,
    ensures
        tcp_frame(message).subrange(4, tcp_frame(message).len() as int) == message,
        le_value(tcp_frame(message).subrange(0, 4)) == message.len(),
{
    crate::bytes::lemma_pow256_values();
    crate::bytes::lemma_le_bytes_len(message.len(), 4);
    let f = tcp_frame(message);
    assert(f.subrange(0, 4) =~= le_bytes(message.len(), 4));
    assert(f.subrange(4, f.len() as int) =~= message);
    crate::bytes::lemma_le_value_of_bytes(message.len(), 4);
}

/// The URL of a WebSocket connection manager: addresses already given as
/// `ws://` or `wss://` URLs are used as they are, others become
/// `wss://<address>/cmsocket/`.
pub open spec fn websocket_url_of(address: Seq<char>) -> Seq<char> {
    if (address.len() >= 5 && address.subrange(0, 5) == "ws://"@) || (address.len() >= 6
        && address.subrange(0, 6) == "wss://"@) {
        address
    } else {
        "wss://"@ + address + "/cmsocket/"@
    }
}

/// The model of a WebSocket connection: its address and whether it is
/// connected.
#[derive(Debug, Clone)]
pub struct WebSocketConnection {
    pub address: String,
    pub connected: bool,
}

impl WebSocketConnection {
    /// A connection to `address` that is not connected yet.
    pub fn unconnected(address: &str) -> (c: WebSocketConnection)
        ensures
            c.address@ == address@,
            !c.connected,
    {
        WebSocketConnection { address: String::from_str(address), connected: false }
    }

    /// The URL to open for this connection's address.
    pub fn url(&self) -> (u: String)
        ensures
            u@ == websocket_url_of(self.address@),
    {
        proof {
            reveal_strlit("ws://");
            reveal_strlit("wss://");
        }
        let a = self.address.as_str();
        if str_starts_with(a, "ws://") || str_starts_with(a, "wss://") {
            return self.address.clone();
        }
        let mut u = String::from_str("wss://");
        u.append(a);
        u.append("/cmsocket/");
        u
    }

    pub fn mark_connected(&mut self)
        ensures
            final(self).connected,
            final(self).address == old(self).address,
    {
        self.connected = true;
    }

    pub fn mark_disconnected(&mut self)
        ensures
            !final(self).connected,
            final(self).address == old(self).address,
    {
        self.connected = false;
    }

    /// Whether a message may be sent or received: refused with an
    /// invalid-state error while the connection is not established.
    pub fn ensure_connected(&self) -> (r: Result<(), SteamError>)
        ensures
            self.connected ==> r is Ok,
            !self.connected ==> (r matches Err(e) && is_invalid_state_error(
                e,
                not_connected_text(ProtocolType::WebSocket),
            )),
    {
        if self.connected {
            Ok(())
        } else {
            Err(not_connected_error(ProtocolType::WebSocket))
        }
    }

    pub fn is_connected(&self) -> (b: bool)
        ensures
            b == self.connected,
    {
        self.connected
    }

    pub fn get_protocol_type(&self) -> (p: ProtocolType)
        ensures
            p == ProtocolType::WebSocket,
    {
        ProtocolType::WebSocket
    }
}

/// Size of the UDP receive buffer: a standard MTU.
pub const UDP_BUFFER_LEN: usize = 1500;

/// The model of a UDP connection: its address and whether it is connected.
#[derive(Debug, Clone)]
pub struct UdpConnection {
    pub address: String,
    pub connected: bool,
}

impl UdpConnection {
    /// A connection to `address` that is not connected yet.
    pub fn unconnected(address: &str) -> (c: UdpConnection)
        ensures
            c.address@ == address@,
            !c.connected,
    {
        UdpConnection { address: String::from_str(address), connected: false }
    }

    pub fn mark_connected(&mut self)
        ensures
            final(self).connected,
            final(self).address == old(self).address,
    {
        self.connected = true;
    }

    pub fn mark_disconnected(&mut self)
        ensures
            !final(self).connected,
            final(self).address == old(self).address,
    {
        self.connected = false;
    }

    /// Whether a message may be sent or received: refused with an
    /// invalid-state error while the connection is not established.
    pub fn ensure_connected(&self) -> (r: Result<(), SteamError>)
        ensures
            self.connected ==> r is Ok,
            !self.connected ==> (r matches Err(e) && is_invalid_state_error(
                e,
                not_connected_text(ProtocolType::UDP),
            )),
    {
        if self.connected {
            Ok(())
        } else {
            Err(not_connected_error(ProtocolType::UDP))
        }
    }

    pub fn is_connected(&self) -> (b: bool)
        ensures
            b == self.connected,
    {
        self.connected
    }

    pub fn get_protocol_type(&self) -> (p: ProtocolType)
        ensures
            p == ProtocolType::UDP,
    {
        ProtocolType::UDP
    }

    /// The datagram received into a buffer: its first `len` bytes.
    pub fn received_datagram(buffer: &[u8], len: usize) -> (d: Vec<u8>)
        requires
            len <= buffer@.len(),
        ensures
            d@ == buffer@.subrange(0, len as int),
    {
        slice_to_vec(slice_subrange(buffer, 0, len))
    }
}

} // verus!
