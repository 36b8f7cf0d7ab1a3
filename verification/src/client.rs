//! The client: its settings and its connection and logon state machine.
//! Waiting and network work happen around these transitions; each
//! transition records the state it reaches and queues the callbacks it fires.

use vstd::prelude::*;
use crate::authentication::LogOnDetails;
use crate::callbacks::{
    CallbackEvent, CallbackKind, CallbackManager, ConnectedCallback, DisconnectedCallback,
    LoggedOffCallback, LoggedOnCallback, logged_on_defaults, same_subscribers,
};
use crate::types::{ConnectionState, EResult, ProtocolType, SteamError, SteamID};

verus! {

/// Client settings.
#[derive(Debug, Clone)]
pub struct ClientSettings {
    /// Transport protocols to try, in order.
    pub protocol_types: Vec<ProtocolType>,
    /// Servers to try, in order.
    pub server_list: Vec<String>,
    /// Connection timeout in milliseconds.
    pub connect_timeout_ms: u64,
    /// Whether to retry automatically.
    pub auto_retry: bool,
    /// Most retries.
    pub max_retries: u32,
    /// Whether direct connections are allowed.
    pub allow_direct_connection: bool,
    /// The cell to prefer, if any.
    pub cell_id: Option<u32>,
}

/// Settings under their older name.
pub type SteamConfiguration = ClientSettings;

impl Default for ClientSettings {
    /// TCP then WebSocket, the two community servers, a ten-second timeout,
    /// automatic retry up to three times, direct connections allowed, no
    /// preferred cell.
    fn default() -> (s: ClientSettings)
        ensures
            s.protocol_types@ == seq![ProtocolType::TCP, ProtocolType::WebSocket],
            s.server_list@.len() == 2,
            s.server_list@[0]@ == "steamcommunity.com:443"@,
            s.server_list@[1]@ == "steampowered.com:443"@,
            s.connect_timeout_ms == 10_000,
            s.auto_retry,
            s.max_retries == 3,
            s.allow_direct_connection,
            s.cell_id is None,
    {
        let mut protocol_types = Vec::new();
        protocol_types.push(ProtocolType::TCP);
        protocol_types.push(ProtocolType::WebSocket);
        let mut server_list = Vec::new();
        server_list.push(String::from_str("steamcommunity.com:443"));
        server_list.push(String::from_str("steampowered.com:443"));
        ClientSettings {
            protocol_types,
            server_list,
            connect_timeout_ms: 10_000,
            auto_retry: true,
            max_retries: 3,
            allow_direct_connection: true,
            cell_id: None,
        }
    }
}

/// The identifier the client reports for a simulated logon.
pub const SIMULATED_STEAM_ID: u64 = 76561198000000000;

/// The Steam client: settings, connection state, callbacks, and whether its
/// dispatch loop runs.
pub struct SteamClient<H> {
    settings: ClientSettings,
    connection_state: ConnectionState,
    callback_manager: CallbackManager<H>,
    is_running: bool,
}

impl<H> SteamClient<H> {
    pub closed spec fn state(&self) -> ConnectionState {
        self.connection_state
    }

    pub closed spec fn running(&self) -> bool {
        self.is_running
    }

    pub closed spec fn manager(&self) -> CallbackManager<H> {
        self.callback_manager
    }

    pub closed spec fn spec_settings(&self) -> ClientSettings {
        self.settings
    }

    /// A disconnected client that is not running, with no subscribers.
    pub fn new(settings: ClientSettings) -> (c: SteamClient<H>)
        ensures
            c.state() == ConnectionState::Disconnected,
            !c.running(),
            forall|k: CallbackKind| c.manager().handlers(k) == Seq::<H>::empty(),
            forall|k: CallbackKind| c.manager().subscription_ids(k) == Seq::<u64>::empty(),
            c.manager().subscriptions_made() == 0,
            c.manager().pending() == Seq::<CallbackEvent>::empty(),
            !c.manager().shutdown_requested(),
            c.spec_settings() == settings,
    {
        SteamClient {
            settings,
            connection_state: ConnectionState::Disconnected,
            callback_manager: CallbackManager::new(),
            is_running: false,
        }
    }

    /// A client with the default settings.
    pub fn new_default() -> (r: Result<SteamClient<H>, SteamError>)
        ensures
            r matches Ok(c) && c.state() == ConnectionState::Disconnected && !c.running(),
    {
        Ok(Self::new(ClientSettings::default()))
    }

    /// The settings.
    pub fn settings(&self) -> (s: &ClientSettings)
        ensures
            *s == self.spec_settings(),
    {
        &self.settings
    }

    /// Starts connecting: the state becomes `Connecting`.
    pub fn begin_connect(&mut self)
        ensures
            final(self).state() == ConnectionState::Connecting,
            final(self).running() == old(self).running(),
            final(self).manager() == old(self).manager(),
    {
        self.connection_state = ConnectionState::Connecting;
    }

    /// The connection is up: the state becomes `Connected`, the client runs,
    /// and a connected callback is fired.
    pub fn complete_connect(&mut self) -> (r: Result<(), SteamError>)
        ensures
            r is Ok,
            final(self).state() == ConnectionState::Connected,
            final(self).running(),
            final(self).manager().pending() == old(self).manager().pending().push(
                CallbackEvent::Connected(ConnectedCallback),
            ),
            same_subscribers(old(self).manager(), final(self).manager()),
            final(self).manager().shutdown_requested() == old(self).manager().shutdown_requested(),
    {
        self.connection_state = ConnectionState::Connected;
        self.is_running = true;
        self.callback_manager.fire_callback(CallbackEvent::Connected(ConnectedCallback))
    }

    /// Starts disconnecting: the state becomes `Disconnecting`.
    pub fn begin_disconnect(&mut self)
        ensures
            final(self).state() == ConnectionState::Disconnecting,
            final(self).running() == old(self).running(),
            final(self).manager() == old(self).manager(),
    {
        self.connection_state = ConnectionState::Disconnecting;
    }

    /// The connection is down: the state becomes `Disconnected`, the client
    /// stops running, and a user-initiated disconnection is fired.
    pub fn complete_disconnect(&mut self) -> (r: Result<(), SteamError>)
        ensures
            r is Ok,
            final(self).state() == ConnectionState::Disconnected,
            !final(self).running(),
            final(self).manager().pending().len() == old(self).manager().pending().len() + 1,
            final(self).manager().pending().drop_last() == old(self).manager().pending(),
            final(self).manager().pending().last() matches CallbackEvent::Disconnected(d)
                && d.user_initiated && (d.reason matches Some(m) && m@
                == "User requested disconnect"@),
            same_subscribers(old(self).manager(), final(self).manager()),
            final(self).manager().shutdown_requested() == old(self).manager().shutdown_requested(),
    {
        self.connection_state = ConnectionState::Disconnected;
        self.is_running = false;
        let reason = String::from_str("User requested disconnect");
        let r = self.callback_manager.fire_callback(
            CallbackEvent::Disconnected(DisconnectedCallback::new(true, Some(reason))),
        );
        assert(self.callback_manager.pending().drop_last() =~= old(self).manager().pending());
        r
    }

    /// Reports a logon: fires a logged-on callback with result OK for the
    /// simulated identifier, the details' user name as account name (empty
    /// when there is none), cell 123 and e-mail domain `example.com`.
    pub fn log_on(&mut self, details: &LogOnDetails) -> (r: Result<(), SteamError>)
        ensures
            r is Ok,
            final(self).manager().pending().len() == old(self).manager().pending().len() + 1,
            final(self).manager().pending().drop_last() == old(self).manager().pending(),
            final(self).manager().pending().last() matches CallbackEvent::LoggedOn(c) && c.result
                == EResult::OK && c.steam_id == (SteamID { id: SIMULATED_STEAM_ID }) && c.cell_id
                == 123 && (c.email_domain matches Some(d) && d@ == "example.com"@)
                && c.account_name@ == (match details.username {
                Some(u) => u@,
                None => Seq::<char>::empty(),
            }) && logged_on_defaults(c),
            final(self).state() == old(self).state(),
            final(self).running() == old(self).running(),
            same_subscribers(old(self).manager(), final(self).manager()),
            final(self).manager().shutdown_requested() == old(self).manager().shutdown_requested(),
    {
        let mut callback = LoggedOnCallback::new(EResult::OK);
        callback.steam_id = SteamID::new(SIMULATED_STEAM_ID);
        callback.account_name = match &details.username {
            Some(u) => u.clone(),
            None => String::new(),
        };
        callback.cell_id = 123;
        callback.email_domain = Some(String::from_str("example.com"));
        let r = self.callback_manager.fire_callback(CallbackEvent::LoggedOn(callback));
        assert(self.callback_manager.pending().drop_last() =~= old(self).manager().pending());
        r
    }

    /// Reports a logoff: fires a logged-off callback with result OK.
    pub fn log_off(&mut self) -> (r: Result<(), SteamError>)
        ensures
            r is Ok,
            final(self).manager().pending() == old(self).manager().pending().push(
                CallbackEvent::LoggedOff(LoggedOffCallback { result: EResult::OK }),
            ),
            final(self).state() == old(self).state(),
            final(self).running() == old(self).running(),
            same_subscribers(old(self).manager(), final(self).manager()),
            final(self).manager().shutdown_requested() == old(self).manager().shutdown_requested(),
    {
        self.callback_manager.fire_callback(
            CallbackEvent::LoggedOff(LoggedOffCallback::new(EResult::OK)),
        )
    }

    /// The connection state.
    pub fn get_connection_state(&self) -> (s: ConnectionState)
        ensures
            s == self.state(),
    {
        self.connection_state
    }

    /// The callback manager.
    pub fn get_callback_manager(&self) -> (m: &CallbackManager<H>)
        ensures
            *m == self.manager(),
    {
        &self.callback_manager
    }

    /// The callback manager, for subscribing and dispatching.
    pub fn get_callback_manager_mut(&mut self) -> (m: &mut CallbackManager<H>)
        ensures
            *m == old(self).manager(),
            final(self).manager() == *final(m),
            final(self).state() == old(self).state(),
            final(self).running() == old(self).running(),
    {
        &mut self.callback_manager
    }

    /// Whether the dispatch loop runs.
    pub fn is_running(&self) -> (b: bool)
        ensures
            b == self.running(),
    {
        self.is_running
    }

    /// Starts the dispatch loop.
    pub fn start_running(&mut self)
        ensures
            final(self).running(),
            final(self).state() == old(self).state(),
            final(self).manager() == old(self).manager(),
    {
        self.is_running = true;
    }

    /// Whether the dispatch loop takes another turn: it runs and no shutdown
    /// was requested.
    pub fn should_continue(&self) -> (b: bool)
        ensures
            b == (self.running() && !self.manager().shutdown_requested()),
    {
        self.is_running && !self.callback_manager.should_shutdown()
    }

    /// Stops the client: it no longer runs and its dispatch loop shuts down.
    pub fn stop(&mut self)
        ensures
            !final(self).running(),
            final(self).manager().shutdown_requested(),
            final(self).state() == old(self).state(),
            final(self).manager().pending() == old(self).manager().pending(),
            same_subscribers(old(self).manager(), final(self).manager()),
    {
        self.is_running = false;
        self.callback_manager.shutdown();
    }
}

/// A stopped client takes no further turn of its dispatch loop.
pub proof fn lemma_stopped_client_halts<H>(c: SteamClient<H>)
    requires
        !c.running() || c.manager().shutdown_requested(),
    ensures
        !(c.running() && !c.manager().shutdown_requested()),
{
}

} // verus!
