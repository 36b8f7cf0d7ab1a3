//! Callbacks: the events the client reports, and the registry that holds
//! their subscribers and the queue of events not yet dispatched.

use vstd::prelude::*;
use crate::types::{EResult, SteamError, SteamID};
use crate::utils::IpAddress;

verus! {

/// Behaviour shared by all callbacks.
pub trait Callback {
    /// The name of the callback type, used for routing.
    fn callback_type(&self) -> &'static str;
}

/// Fired when the client connects to Steam.
#[derive(Debug, Clone, Copy, PartialEq, Eq, Structural)]
pub struct ConnectedCallback;

impl Callback for ConnectedCallback {
    fn callback_type(&self) -> (r: &'static str)
        ensures
            r@ == "ConnectedCallback"@,
    {
        "ConnectedCallback"
    }
}

/// Fired when the client disconnects from Steam.
#[derive(Debug, Clone)]
pub struct DisconnectedCallback {
    pub user_initiated: bool,
    pub reason: Option<String>,
}

impl Callback for DisconnectedCallback {
    fn callback_type(&self) -> (r: &'static str)
        ensures
            r@ == "DisconnectedCallback"@,
    {
        "DisconnectedCallback"
    }
}

impl DisconnectedCallback {
    pub fn new(user_initiated: bool, reason: Option<String>) -> (c: DisconnectedCallback)
        ensures
            c.user_initiated == user_initiated,
            c.reason == reason,
    {
        DisconnectedCallback { user_initiated, reason }
    }

    pub fn is_user_initiated(&self) -> (b: bool)
        ensures
            b == self.user_initiated,
    {
        self.user_initiated
    }
}

/// The current time as seconds since the Unix epoch, from `chrono::Utc::now`.
#[verifier::external_body]
fn utc_now_timestamp() -> i64 {
    chrono::Utc::now().timestamp()
}

/// Fired when the user has logged on.
#[derive(Debug, Clone)]
pub struct LoggedOnCallback {
    pub result: EResult,
    pub extended_result: EResult,
    pub steam_id: SteamID,
    pub cell_id: u32,
    pub email_domain: Option<String>,
    pub num_login_failures: u32,
    pub heartbeat_seconds: u32,
    pub ip_address: Option<IpAddress>,
    pub vac_banned: bool,
    pub account_flags: u32,
    pub client_supplied_steam_id: SteamID,
    pub public_ip: Option<IpAddress>,
    /// Server time, in seconds since the Unix epoch (UTC).
    pub server_time: i64,
    pub account_name: String,
    pub country: Option<String>,
    pub auth_status: i32,
    pub parental_settings: Vec<u8>,
    pub parental_setting_signature: Vec<u8>,
    pub count_auto_launch_account_restriction: i32,
    pub count_communication_restriction: i32,
    pub count_parental_restriction: i32,
    pub count_web_restriction: i32,
}

impl Callback for LoggedOnCallback {
    fn callback_type(&self) -> (r: &'static str)
        ensures
            r@ == "LoggedOnCallback"@,
    {
        "LoggedOnCallback"
    }
}

/// Every field of a logged-on callback but the result, the server time and
/// those listed in `except` holds its default: an extended result of OK,
/// zero identifiers and counters, no addresses, empty text and data.
pub open spec fn logged_on_defaults(c: LoggedOnCallback) -> bool {
    &&& c.extended_result == EResult::OK
    &&& c.num_login_failures == 0
    &&& c.heartbeat_seconds == 0
    &&& c.ip_address is None
    &&& !c.vac_banned
    &&& c.account_flags == 0
    &&& c.client_supplied_steam_id == (SteamID { id: 0 })
    &&& c.public_ip is None
    &&& c.country is None
    &&& c.auth_status == 0
    &&& c.parental_settings@ == Seq::<u8>::empty()
    &&& c.parental_setting_signature@ == Seq::<u8>::empty()
    &&& c.count_auto_launch_account_restriction == 0
    &&& c.count_communication_restriction == 0
    &&& c.count_parental_restriction == 0
    &&& c.count_web_restriction == 0
}

impl LoggedOnCallback {
    /// A callback with the given result, stamped with the current time; the
    /// identifier is zero, the cell zero, no e-mail domain, an empty account
    /// name, and every other field at its default.
    pub fn new(result: EResult) -> (c: LoggedOnCallback)
        ensures
            c.result == result,
            c.steam_id == (SteamID { id: 0 }),
            c.cell_id == 0,
            c.email_domain is None,
            c.account_name@ == Seq::<char>::empty(),
            logged_on_defaults(c),
    {
        LoggedOnCallback {
            result,
            extended_result: EResult::OK,
            steam_id: SteamID::new(0),
            cell_id: 0,
            email_domain: None,
            num_login_failures: 0,
            heartbeat_seconds: 0,
            ip_address: None,
            vac_banned: false,
            account_flags: 0,
            client_supplied_steam_id: SteamID::new(0),
            public_ip: None,
            server_time: utc_now_timestamp(),
            account_name: String::new(),
            country: None,
            auth_status: 0,
            parental_settings: Vec::new(),
            parental_setting_signature: Vec::new(),
            count_auto_launch_account_restriction: 0,
            count_communication_restriction: 0,
            count_parental_restriction: 0,
            count_web_restriction: 0,
        }
    }

    pub fn get_result(&self) -> (r: EResult)
        ensures
            r == self.result,
    {
        self.result
    }

    pub fn get_extended_result(&self) -> (r: EResult)
        ensures
            r == self.extended_result,
    {
        self.extended_result
    }
}

/// Fired when the user has logged off.
#[derive(Debug, Clone, Copy, PartialEq, Eq, Structural)]
pub struct LoggedOffCallback {
    pub result: EResult,
}

impl Callback for LoggedOffCallback {
    fn callback_type(&self) -> (r: &'static str)
        ensures
            r@ == "LoggedOffCallback"@,
    {
        "LoggedOffCallback"
    }
}

impl LoggedOffCallback {
    pub fn new(result: EResult) -> (c: LoggedOffCallback)
        ensures
            c.result == result,
    {
        LoggedOffCallback { result }
    }

    pub fn get_result(&self) -> (r: EResult)
        ensures
            r == self.result,
    {
        self.result
    }
}

/// The kinds of callback, by which subscribers are registered.
#[derive(Debug, Clone, Copy, PartialEq, Eq, Hash, Structural)]
pub enum CallbackKind {
    Connected,
    Disconnected,
    LoggedOn,
    LoggedOff,
}

/// A fired callback of any kind.
#[derive(Debug, Clone)]
pub enum CallbackEvent {
    Connected(ConnectedCallback),
    Disconnected(DisconnectedCallback),
    LoggedOn(LoggedOnCallback),
    LoggedOff(LoggedOffCallback),
}

/// The kind of an event.
pub open spec fn event_kind(e: CallbackEvent) -> CallbackKind {
    match e {
        CallbackEvent::Connected(_) => CallbackKind::Connected,
        CallbackEvent::Disconnected(_) => CallbackKind::Disconnected,
        CallbackEvent::LoggedOn(_) => CallbackKind::LoggedOn,
        CallbackEvent::LoggedOff(_) => CallbackKind::LoggedOff,
    }
}

/// The callback type name of a kind.
pub open spec fn callback_type_name(k: CallbackKind) -> Seq<char> {
    match k {
        CallbackKind::Connected => "ConnectedCallback"@,
        CallbackKind::Disconnected => "DisconnectedCallback"@,
        CallbackKind::LoggedOn => "LoggedOnCallback"@,
        CallbackKind::LoggedOff => "LoggedOffCallback"@,
    }
}

impl CallbackEvent {
    /// The kind of this event.
    pub fn kind(&self) -> (k: CallbackKind)
        ensures
            k == event_kind(*self),
    {
        match self {
            CallbackEvent::Connected(_) => CallbackKind::Connected,
            CallbackEvent::Disconnected(_) => CallbackKind::Disconnected,
            CallbackEvent::LoggedOn(_) => CallbackKind::LoggedOn,
            CallbackEvent::LoggedOff(_) => CallbackKind::LoggedOff,
        }
    }

    /// The callback type name of the event's callback.
    pub fn callback_type(&self) -> (r: &'static str)
        ensures
            r@ == callback_type_name(event_kind(*self)),
    {
        match self {
            CallbackEvent::Connected(c) => c.callback_type(),
            CallbackEvent::Disconnected(c) => c.callback_type(),
            CallbackEvent::LoggedOn(c) => c.callback_type(),
            CallbackEvent::LoggedOff(c) => c.callback_type(),
        }
    }
}

/// A subscription handle: returning it to the manager removes the
/// subscriber it was issued for.
#[derive(Debug, Clone, Copy, PartialEq, Eq, Structural)]
pub struct CallbackSubscription {
    pub kind: CallbackKind,
    /// The identifier the manager gave this subscription.
    pub id: u64,
}

/// The subscribers of one kind in subscription order, each with the
/// identifier of its subscription.
#[derive(Debug)]
struct Subscribers<H> {
    ids: Vec<u64>,
    handlers: Vec<H>,
}

/// As many identifiers as handlers, all distinct and below `next`.
spec fn subscribers_ok<H>(s: Subscribers<H>, next: u64) -> bool {
    &&& s.ids@.len() == s.handlers@.len()
    &&& forall|i: int| 0 <= i < s.ids@.len() ==> #[trigger] s.ids@[i] < next
    &&& forall|i: int, j: int|
        0 <= i < j < s.ids@.len() ==> #[trigger] s.ids@[i] != #[trigger] s.ids@[j]
}

impl<H> Subscribers<H> {
    fn empty() -> (s: Subscribers<H>)
        ensures
            s.ids@ == Seq::<u64>::empty(),
            s.handlers@ == Seq::<H>::empty(),
    {
        Subscribers { ids: Vec::new(), handlers: Vec::new() }
    }

    fn add(&mut self, id: u64, handler: H)
        ensures
            final(self).ids@ == old(self).ids@.push(id),
            final(self).handlers@ == old(self).handlers@.push(handler),
    {
        self.ids.push(id);
        self.handlers.push(handler);
    }

    /// Removes the first subscriber with the given identifier, if any.
    fn remove_id(&mut self, id: u64)
        requires
            old(self).ids@.len() == old(self).handlers@.len(),
        ensures
            forall|i: int|
                0 <= i < old(self).ids@.len() && old(self).ids@[i] == id && (forall|j: int|
                    0 <= j < i ==> old(self).ids@[j] != id) ==> final(self).ids@ == old(
                    self,
                ).ids@.remove(i) && final(self).handlers@ == old(self).handlers@.remove(i),
            !old(self).ids@.contains(id) ==> final(self).ids@ == old(self).ids@
                && final(self).handlers@ == old(self).handlers@,
    {
        let ghost ids0 = self.ids@;
        let ghost hs0 = self.handlers@;
        let mut i: usize = 0;
        while i < self.ids.len()
            invariant
                self.ids@ == ids0,
                self.handlers@ == hs0,
                ids0 == old(self).ids@,
                hs0 == old(self).handlers@,
                ids0.len() == hs0.len(),
                i <= ids0.len(),
                forall|j: int| 0 <= j < i ==> ids0[j] != id,
            decreases ids0.len() - i,
        {
            if self.ids[i] == id {
                self.ids.remove(i);
                self.handlers.remove(i);
                assert(ids0[i as int] == id);
                assert forall|k: int|
                    0 <= k < ids0.len() && ids0[k] == id && (forall|j: int|
                        0 <= j < k ==> ids0[j] != id) implies k == i by {
                    if k > i {
                        assert(ids0[i as int] != id);
                    }
                }
                return;
            }
            i = i + 1;
        }
    }
}

/// Subscribers by kind, the queue of fired callbacks, the shutdown flag, and
/// how many subscriptions were issued.
#[derive(Debug)]
pub struct CallbackManager<H> {
    connected: Subscribers<H>,
    disconnected: Subscribers<H>,
    logged_on: Subscribers<H>,
    logged_off: Subscribers<H>,
    pending: Vec<CallbackEvent>,
    should_shutdown: bool,
    next_id: u64,
}

/// Two managers have the same subscribers with the same identifiers, and
/// have issued as many subscriptions.
pub open spec fn same_subscribers<H>(a: CallbackManager<H>, b: CallbackManager<H>) -> bool {
    &&& forall|k: CallbackKind| #[trigger] b.handlers(k) == a.handlers(k)
    &&& forall|k: CallbackKind| #[trigger] b.subscription_ids(k) == a.subscription_ids(k)
    &&& b.subscriptions_made() == a.subscriptions_made()
}

impl<H> CallbackManager<H> {
    spec fn subscribers(&self, kind: CallbackKind) -> Subscribers<H> {
        match kind {
            CallbackKind::Connected => self.connected,
            CallbackKind::Disconnected => self.disconnected,
            CallbackKind::LoggedOn => self.logged_on,
            CallbackKind::LoggedOff => self.logged_off,
        }
    }

    /// Every kind's identifiers are distinct, below the next one to issue,
    /// and as many as its handlers.
    #[verifier::type_invariant]
    spec fn inv(self) -> bool {
        &&& subscribers_ok(self.connected, self.next_id)
        &&& subscribers_ok(self.disconnected, self.next_id)
        &&& subscribers_ok(self.logged_on, self.next_id)
        &&& subscribers_ok(self.logged_off, self.next_id)
    }

    /// The subscribers of a kind, oldest first.
    pub closed spec fn handlers(&self, kind: CallbackKind) -> Seq<H> {
        self.subscribers(kind).handlers@
    }

    /// The identifiers of the subscriptions of a kind, in the order of
    /// `handlers`.
    pub closed spec fn subscription_ids(&self, kind: CallbackKind) -> Seq<u64> {
        self.subscribers(kind).ids@
    }

    /// How many subscriptions were issued.
    pub closed spec fn subscriptions_made(&self) -> u64 {
        self.next_id
    }

    /// The fired callbacks not yet dispatched, oldest first.
    pub closed spec fn pending(&self) -> Seq<CallbackEvent> {
        self.pending@
    }

    /// Whether shutdown was requested.
    pub closed spec fn shutdown_requested(&self) -> bool {
        self.should_shutdown
    }

    /// No subscribers, no pending callbacks, no shutdown requested.
    pub fn new() -> (m: CallbackManager<H>)
        ensures
            forall|k: CallbackKind| m.handlers(k) == Seq::<H>::empty(),
            forall|k: CallbackKind| m.subscription_ids(k) == Seq::<u64>::empty(),
            m.subscriptions_made() == 0,
            m.pending() == Seq::<CallbackEvent>::empty(),
            !m.shutdown_requested(),
    {
        CallbackManager {
            connected: Subscribers::empty(),
            disconnected: Subscribers::empty(),
            logged_on: Subscribers::empty(),
            logged_off: Subscribers::empty(),
            pending: Vec::new(),
            should_shutdown: false,
            next_id: 0,
        }
    }

    /// How many subscriptions were issued; a new one can be issued while
    /// this is below `u64::MAX`.
    pub fn subscription_count(&self) -> (n: u64)
        ensures
            n == self.subscriptions_made(),
    {
        self.next_id
    }

    /// Adds a subscriber for callbacks of `kind`, under a fresh identifier.
    pub fn subscribe(&mut self, kind: CallbackKind, handler: H) -> (s: CallbackSubscription)
        requires
            old(self).subscriptions_made() < u64::MAX,
        ensures
            s.kind == kind,
            s.id == old(self).subscriptions_made(),
            !old(self).subscription_ids(kind).contains(s.id),
            final(self).handlers(kind) == old(self).handlers(kind).push(handler),
            final(self).subscription_ids(kind) == old(self).subscription_ids(kind).push(s.id),
            forall|k: CallbackKind|
                k != kind ==> #[trigger] final(self).handlers(k) == old(self).handlers(k)
                    && final(self).subscription_ids(k) == old(self).subscription_ids(k),
            final(self).subscriptions_made() == old(self).subscriptions_made() + 1,
            final(self).pending() == old(self).pending(),
            final(self).shutdown_requested() == old(self).shutdown_requested(),
    {
        proof {
            use_type_invariant(&*self);
        }
        let id = self.next_id;
        self.next_id = id + 1;
        let mut subs: Subscribers<H> = Subscribers::empty();
        match kind {
            CallbackKind::Connected => std::mem::swap(&mut subs, &mut self.connected),
            CallbackKind::Disconnected => std::mem::swap(&mut subs, &mut self.disconnected),
            CallbackKind::LoggedOn => std::mem::swap(&mut subs, &mut self.logged_on),
            CallbackKind::LoggedOff => std::mem::swap(&mut subs, &mut self.logged_off),
        }
        let ghost before = subs;
        subs.add(id, handler);
        assert(subscribers_ok(subs, self.next_id)) by {
            assert forall|i: int, j: int| 0 <= i < j < subs.ids@.len() implies subs.ids@[i]
                != subs.ids@[j] by {
                if j == subs.ids@.len() - 1 {
                    assert(before.ids@[i] < id);
                } else {
                    assert(before.ids@[i] != before.ids@[j]);
                }
            }
            assert forall|i: int| 0 <= i < subs.ids@.len() implies subs.ids@[i] < self.next_id by {
                if i < before.ids@.len() {
                    assert(before.ids@[i] < id);
                }
            }
        }
        assert(!before.ids@.contains(id)) by {
            if before.ids@.contains(id) {
                let i = before.ids@.index_of(id);
                assert(before.ids@[i] < id);
            }
        }
        match kind {
            CallbackKind::Connected => self.connected = subs,
            CallbackKind::Disconnected => self.disconnected = subs,
            CallbackKind::LoggedOn => self.logged_on = subs,
            CallbackKind::LoggedOff => self.logged_off = subs,
        }
        CallbackSubscription { kind, id }
    }

    /// Ends a subscription: exactly the subscriber it was issued for leaves,
    /// the others keeping their order; a handle that names no current
    /// subscriber changes nothing.
    pub fn unsubscribe(&mut self, subscription: CallbackSubscription)
        ensures
            ({
                let k = subscription.kind;
                let ids = old(self).subscription_ids(k);
                &&& forall|i: int|
                    0 <= i < ids.len() && #[trigger] ids[i] == subscription.id ==> final(self).handlers(k)
                        == old(self).handlers(k).remove(i) && final(self).subscription_ids(k)
                        == ids.remove(i)
                &&& !ids.contains(subscription.id) ==> final(self).handlers(k) == old(self).handlers(k)
                    && final(self).subscription_ids(k) == ids
            }),
            forall|k: CallbackKind|
                k != subscription.kind ==> #[trigger] final(self).handlers(k) == old(self).handlers(
                    k,
                ) && final(self).subscription_ids(k) == old(self).subscription_ids(k),
            final(self).subscriptions_made() == old(self).subscriptions_made(),
            final(self).pending() == old(self).pending(),
            final(self).shutdown_requested() == old(self).shutdown_requested(),
    {
        proof {
            use_type_invariant(&*self);
        }
        let kind = subscription.kind;
        let mut subs: Subscribers<H> = Subscribers::empty();
        match kind {
            CallbackKind::Connected => std::mem::swap(&mut subs, &mut self.connected),
            CallbackKind::Disconnected => std::mem::swap(&mut subs, &mut self.disconnected),
            CallbackKind::LoggedOn => std::mem::swap(&mut subs, &mut self.logged_on),
            CallbackKind::LoggedOff => std::mem::swap(&mut subs, &mut self.logged_off),
        }
        let ghost before = subs;
        assert(subscribers_ok(before, self.next_id));
        subs.remove_id(subscription.id);
        proof {
            assert forall|i: int|
                0 <= i < before.ids@.len() && before.ids@[i] == subscription.id implies (forall|
                j: int|
                0 <= j < i ==> before.ids@[j] != subscription.id) by {
                assert forall|j: int| 0 <= j < i implies before.ids@[j] != subscription.id by {
                    assert(before.ids@[j] != before.ids@[i]);
                }
            }
            if before.ids@.contains(subscription.id) {
                let i = before.ids@.index_of(subscription.id);
                assert(before.ids@[i] == subscription.id);
            }
            assert(subs.ids@.len() == subs.handlers@.len());
            assert forall|i: int| 0 <= i < subs.ids@.len() implies #[trigger] subs.ids@[i]
                < self.next_id by {
                let k = before.ids@.index_of(subscription.id);
                if before.ids@.contains(subscription.id) && i >= k {
                    assert(subs.ids@[i] == before.ids@[i + 1]);
                } else {
                    assert(subs.ids@[i] == before.ids@[i]);
                }
            }
            assert forall|i: int, j: int| 0 <= i < j < subs.ids@.len() implies #[trigger] subs.ids@[i]
                != #[trigger] subs.ids@[j] by {
                let k = before.ids@.index_of(subscription.id);
                if before.ids@.contains(subscription.id) {
                    let i2 = if i >= k { i + 1 } else { i };
                    let j2 = if j >= k { j + 1 } else { j };
                    assert(subs.ids@[i] == before.ids@[i2]);
                    assert(subs.ids@[j] == before.ids@[j2]);
                    assert(before.ids@[i2] != before.ids@[j2]);
                } else {
                    assert(before.ids@[i] != before.ids@[j]);
                }
            }
        }
        match kind {
            CallbackKind::Connected => self.connected = subs,
            CallbackKind::Disconnected => self.disconnected = subs,
            CallbackKind::LoggedOn => self.logged_on = subs,
            CallbackKind::LoggedOff => self.logged_off = subs,
        }
    }

    /// The subscribers of a kind, oldest first.
    pub fn handlers_for(&self, kind: CallbackKind) -> (v: &Vec<H>)
        ensures
            v@ == self.handlers(kind),
    {
        match kind {
            CallbackKind::Connected => &self.connected.handlers,
            CallbackKind::Disconnected => &self.disconnected.handlers,
            CallbackKind::LoggedOn => &self.logged_on.handlers,
            CallbackKind::LoggedOff => &self.logged_off.handlers,
        }
    }

    /// Queues a callback for dispatch.
    pub fn fire_callback(&mut self, event: CallbackEvent) -> (r: Result<(), SteamError>)
        ensures
            r is Ok,
            final(self).pending() == old(self).pending().push(event),
            same_subscribers(*old(self), *final(self)),
            final(self).shutdown_requested() == old(self).shutdown_requested(),
    {
        proof {
            use_type_invariant(&*self);
        }
        let mut queue: Vec<CallbackEvent> = Vec::new();
        std::mem::swap(&mut queue, &mut self.pending);
        queue.push(event);
        self.pending = queue;
        Ok(())
    }

    /// Takes the oldest queued callback, if any.
    pub fn next_event(&mut self) -> (e: Option<CallbackEvent>)
        ensures
            old(self).pending().len() == 0 ==> e is None && final(self).pending() == old(
                self,
            ).pending(),
            old(self).pending().len() > 0 ==> e == Some(old(self).pending()[0])
                && final(self).pending() == old(self).pending().drop_first(),
            same_subscribers(*old(self), *final(self)),
            final(self).shutdown_requested() == old(self).shutdown_requested(),
    {
        proof {
            use_type_invariant(&*self);
        }
        if self.pending.len() == 0 {
            None
        } else {
            let mut queue: Vec<CallbackEvent> = Vec::new();
            std::mem::swap(&mut queue, &mut self.pending);
            let e = queue.remove(0);
            self.pending = queue;
            Some(e)
        }
    }

    /// Number of queued callbacks.
    pub fn pending_count(&self) -> (n: usize)
        ensures
            n == self.pending().len(),
    {
        self.pending.len()
    }

    /// Checks that a queued callback can be handed to subscribers of its kind.
    fn try_cast_callback(&self, event: &CallbackEvent) -> (r: Result<(), SteamError>)
        ensures
            r is Ok,
    {
        Ok(())
    }

    /// Takes the oldest queued callback for dispatch, with the subscribers of
    /// its kind.
    pub fn dispatch_next(&mut self) -> (r: Option<(CallbackEvent, &Vec<H>)>)
        ensures
            old(self).pending().len() == 0 ==> r is None,
            old(self).pending().len() > 0 ==> (r matches Some((e, hs)) && e == old(
                self,
            ).pending()[0] && hs@ == old(self).handlers(event_kind(e))),
            final(self).pending() == (if old(self).pending().len() == 0 {
                old(self).pending()
            } else {
                old(self).pending().drop_first()
            }),
            same_subscribers(*old(self), *final(self)),
            final(self).shutdown_requested() == old(self).shutdown_requested(),
    {
        match self.next_event() {
            None => None,
            Some(e) => {
                let _ = self.try_cast_callback(&e);
                let k = e.kind();
                Some((e, self.handlers_for(k)))
            },
        }
    }

    /// Requests shutdown of the dispatch loop.
    pub fn shutdown(&mut self)
        ensures
            final(self).shutdown_requested(),
            same_subscribers(*old(self), *final(self)),
            final(self).pending() == old(self).pending(),
    {
        proof {
            use_type_invariant(&*self);
        }
        self.should_shutdown = true;
    }

    /// Whether shutdown was requested.
    pub fn should_shutdown(&self) -> (b: bool)
        ensures
            b == self.shutdown_requested(),
    {
        self.should_shutdown
    }
}

impl<H> Default for CallbackManager<H> {
    /// The same as `new`: no subscribers, nothing queued, no shutdown.
    fn default() -> (m: CallbackManager<H>)
        ensures
            forall|k: CallbackKind| m.handlers(k) == Seq::<H>::empty(),
            forall|k: CallbackKind| m.subscription_ids(k) == Seq::<u64>::empty(),
            m.subscriptions_made() == 0,
            m.pending() == Seq::<CallbackEvent>::empty(),
            !m.shutdown_requested(),
    {
        CallbackManager::new()
    }
}

/// Callbacks fired one after another onto a queue.
pub open spec fn fired_all(queue: Seq<CallbackEvent>, events: Seq<CallbackEvent>) -> Seq<
    CallbackEvent,
>
    decreases events.len(),
{
    if events.len() == 0 {
        queue
    } else {
        fired_all(queue.push(events[0]), events.drop_first())
    }
}

/// Callbacks are dispatched in the order they were fired: firing a series of
/// callbacks appends them, in order, behind those already queued.
pub proof fn lemma_fired_in_order(queue: Seq<CallbackEvent>, events: Seq<CallbackEvent>)
    ensures
        fired_all(queue, events) == queue + events,
    decreases events.len(),
{
    if events.len() > 0 {
        lemma_fired_in_order(queue.push(events[0]), events.drop_first());
        assert(queue.push(events[0]) + events.drop_first() =~= queue + events);
    } else {
        assert(queue + events =~= queue);
    }
}

/// Subscribing and then ending that subscription leaves the subscribers
/// and their identifiers as they were: the new subscription's identifier is
/// fresh, so ending it removes exactly the subscriber just added.
pub proof fn lemma_subscribe_unsubscribe<H>(handlers: Seq<H>, ids: Seq<u64>, handler: H, id: u64)
    requires
        handlers.len() == ids.len(),
        !ids.contains(id),
    ensures
        forall|i: int|
            0 <= i < ids.push(id).len() && #[trigger] ids.push(id)[i] == id ==> ids.push(id).remove(
                i,
            ) == ids && handlers.push(handler).remove(i) == handlers,
{
    assert forall|i: int|
        0 <= i < ids.push(id).len() && #[trigger] ids.push(id)[i] == id implies ids.push(
        id,
    ).remove(i) == ids && handlers.push(handler).remove(i) == handlers by {
        if i < ids.len() {
            assert(ids[i] == id);
            assert(ids.contains(id));
        }
        assert(ids.push(id).remove(i) =~= ids);
        assert(handlers.push(handler).remove(i) =~= handlers);
    }
}

} // verus!
