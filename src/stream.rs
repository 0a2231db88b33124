//! The streaming subscription engine: the set of held topics, the connection
//! state, the reconnect policy and the routing of inbound frames.
//!
//! The engine makes the decisions; the caller owns the transport. It asks the
//! engine which frames to send, reports what the transport accepted, and hands
//! every transport event and inbound frame to the engine.

use vstd::prelude::*;
use vstd::string::*;
use crate::error::WebullError;
use crate::json::{as_int, as_text, json_bytes_ok, json_text_ok, member, parse_bytes, parse_text};
use crate::text::{contains_str, has_substring, int_text, push_int, str_eq, views};

verus! {

/// Category codes of per-ticker topics.
pub struct TopicTypes;

impl TopicTypes {
    pub const TICKER_STATUS: i32 = 101;
    pub const TICKER_QUOTE: i32 = 102;
    pub const TICKER_TRADE: i32 = 103;
    pub const TICKER_BOOK: i32 = 104;
    pub const TICKER_QUOTE_AND_TRADE: i32 = 105;
    pub const TICKER_QUOTE_TRADE_OPTIONAL: i32 = 106;
    pub const TICKER_TRADE_AND_BOOK: i32 = 107;
    pub const TICKER_FULL: i32 = 108;

    /// Every category, in code order.
    pub fn all() -> (r: Vec<i32>)
        ensures
            r@ == seq![101i32, 102, 103, 104, 105, 106, 107, 108],
    {
        let mut v: Vec<i32> = Vec::new();
        let mut c: i32 = 101;
        while c <= 108
            invariant
                101 <= c <= 109,
                v@.len() == c - 101,
                forall|i: int| 0 <= i < v@.len() ==> v@[i] == 101 + i,
            decreases 109 - c,
        {
            v.push(c);
            c = c + 1;
        }
        assert(v@ =~= seq![101i32, 102, 103, 104, 105, 106, 107, 108]);
        v
    }

    /// Quote, trade and book.
    pub fn basic() -> (r: Vec<i32>)
        ensures
            r@ == seq![102i32, 103, 104],
    {
        let mut v: Vec<i32> = Vec::new();
        v.push(Self::TICKER_QUOTE);
        v.push(Self::TICKER_TRADE);
        v.push(Self::TICKER_BOOK);
        assert(v@ =~= seq![102i32, 103, 104]);
        v
    }
}

/// The topic key of one category of one ticker: `{"tickerId":"<id>","type":<code>}`.
pub open spec fn ticker_topic_text(ticker_id: Seq<char>, topic_type: int) -> Seq<char> {
    "{\"tickerId\":\""@ + ticker_id + "\",\"type\":"@ + int_text(topic_type) + "}"@
}

/// The topic key of the order updates of an account: `{"secAccountId":"<id>"}`.
pub open spec fn order_topic_text(account_id: Seq<char>) -> Seq<char> {
    "{\"secAccountId\":\""@ + account_id + "\"}"@
}

/// The delay before the next connection attempt after `failures` failures in a
/// row: half a second, doubled per failure, never above thirty seconds.
pub open spec fn backoff(failures: nat) -> nat
    decreases failures,
{
    if failures == 0 {
        500
    } else {
        let d = 2 * backoff((failures - 1) as nat);
        if d > 30000 {
            30000
        } else {
            d
        }
    }
}

/// Where an inbound frame goes.
#[derive(Debug, Clone, Copy, PartialEq, Eq, Structural)]
pub enum Route {
    /// Not JSON: no callback sees it.
    Dropped,
    /// To the order callback.
    Order,
    /// To the price callback.
    Price,
    /// JSON on a topic of no known channel.
    Ignored,
}

/// The channel that a topic addresses.
pub open spec fn route_of_topic(topic: Seq<char>) -> Route {
    if has_substring(topic, "platpush"@) {
        Route::Order
    } else if has_substring(topic, "wspush"@) || has_substring(topic, "ticker"@) {
        Route::Price
    } else {
        Route::Ignored
    }
}

/// Where a frame goes: nowhere unless both topic and payload are JSON.
pub open spec fn route_of_frame(topic: Seq<char>, payload: Seq<u8>) -> Route {
    if !json_text_ok(topic) || !json_bytes_ok(payload) {
        Route::Dropped
    } else {
        route_of_topic(topic)
    }
}

/// An inbound frame after routing, with its parsed topic and payload.
#[derive(Debug)]
pub enum Delivery {
    Dropped,
    Order(serde_json::Value, serde_json::Value),
    Price(serde_json::Value, serde_json::Value),
    Ignored,
}

impl Delivery {
    pub open spec fn route(&self) -> Route {
        match self {
            Delivery::Dropped => Route::Dropped,
            Delivery::Order(_, _) => Route::Order,
            Delivery::Price(_, _) => Route::Price,
            Delivery::Ignored => Route::Ignored,
        }
    }
}

/// The state of the connection.
#[derive(Debug, Clone, Copy, PartialEq, Eq, Structural)]
pub enum ConnState {
    Disconnected,
    Connecting,
    Connected,
    ConnectFailed,
}

/// A control event of the transport.
#[derive(Debug, Clone, Copy, PartialEq, Eq, Structural)]
pub enum TransportEvent {
    /// The server acknowledged the connection.
    ConnAck,
    /// The server closed the connection.
    Disconnect,
    /// Polling the transport failed.
    Error,
}

/// What the caller must do after a control event.
#[derive(Debug, Clone)]
pub enum EngineAction {
    /// Send a subscribe frame for each of these topics.
    Resubscribe(Vec<String>),
    /// Wait this many milliseconds before polling again.
    RetryAfter(u64),
}

/// The engine's state.
#[derive(Debug)]
pub struct StreamEngine {
    pub state: ConnState,
    /// Whether a transport was opened and not torn down.
    pub has_transport: bool,
    /// The held topics: the set that is replayed after every reconnect.
    pub subscriptions: Vec<String>,
    /// Tickers with a known cumulative volume.
    pub volume_keys: Vec<String>,
    /// The volume of the ticker at the same position of `volume_keys`.
    pub volume_values: Vec<i64>,
    /// Connection failures since the last acknowledgement.
    pub failures: u32,
}

impl StreamEngine {
    /// The held topics.
    pub open spec fn topics(&self) -> Seq<Seq<char>> {
        views(self.subscriptions@)
    }

    pub open spec fn holds(&self, topic: Seq<char>) -> bool {
        self.topics().contains(topic)
    }

    /// Each topic is held once; each ticker has one volume.
    pub open spec fn wf(&self) -> bool {
        &&& self.topics().no_duplicates()
        &&& views(self.volume_keys@).no_duplicates()
        &&& self.volume_keys@.len() == self.volume_values@.len()
    }

    /// The last cumulative volume seen for a ticker.
    pub open spec fn volume_of(&self, ticker: Seq<char>) -> Option<i64> {
        let keys = views(self.volume_keys@);
        if keys.contains(ticker) {
            Some(self.volume_values@[choose|i: int| 0 <= i < keys.len() && keys[i] == ticker])
        } else {
            None
        }
    }

    /// `new` is `old` with the held topics replaced by `topics`.
    pub open spec fn with_topics(old: StreamEngine, new: StreamEngine, topics: Seq<Seq<char>>) -> bool {
        &&& new.topics() == topics
        &&& new.state == old.state
        &&& new.has_transport == old.has_transport
        &&& new.volume_keys == old.volume_keys
        &&& new.volume_values == old.volume_values
        &&& new.failures == old.failures
    }

    /// What a control event does to the engine and asks of the caller.
    pub open spec fn after_event(old: StreamEngine, ev: TransportEvent, new: StreamEngine, act: EngineAction) -> bool {
        &&& new.topics() == old.topics()
        &&& new.has_transport == old.has_transport
        &&& new.volume_keys == old.volume_keys
        &&& new.volume_values == old.volume_values
        &&& match ev {
            TransportEvent::ConnAck => {
                &&& new.state == ConnState::Connected
                &&& new.failures == 0
                &&& act matches EngineAction::Resubscribe(keys) && views(keys@) == old.topics()
            },
            _ => {
                &&& new.state == (if old.state == ConnState::Connected {
                    ConnState::Disconnected
                } else {
                    ConnState::ConnectFailed
                })
                &&& new.failures == (if old.failures < u32::MAX {
                    old.failures + 1
                } else {
                    old.failures as int
                })
                &&& act matches EngineAction::RetryAfter(ms) && ms == backoff(old.failures as nat)
            },
        }
    }

    /// What routing a frame does to the engine: nothing unless the frame is a
    /// price frame, which may overwrite the volume of one ticker.
    pub open spec fn after_frame(old: StreamEngine, topic: Seq<char>, payload: Seq<u8>, new: StreamEngine, route: Route) -> bool {
        &&& route == route_of_frame(topic, payload)
        &&& new.topics() == old.topics()
        &&& new.state == old.state
        &&& new.has_transport == old.has_transport
        &&& new.failures == old.failures
        &&& route != Route::Price ==> new == old
        &&& route == Route::Price ==> (forall|k: Seq<char>| new.volume_of(k) == old.volume_of(k))
            || exists|t: Seq<char>, v: i64| #[trigger] Self::overwrites(old, new, t, v)
    }

    /// `new` knows volume `v` for ticker `t` and otherwise what `old` knew.
    pub open spec fn overwrites(old: StreamEngine, new: StreamEngine, t: Seq<char>, v: i64) -> bool {
        forall|k: Seq<char>| #[trigger] new.volume_of(k) == if k == t {
            Some(v)
        } else {
            old.volume_of(k)
        }
    }

    /// A disconnected engine holding nothing.
    pub fn new() -> (r: Self)
        ensures
            r.wf(),
            r.state == ConnState::Disconnected,
            !r.has_transport,
            r.topics() == Seq::<Seq<char>>::empty(),
            forall|k: Seq<char>| r.volume_of(k) is None,
            r.failures == 0,
    {
        let r = StreamEngine {
            state: ConnState::Disconnected,
            has_transport: false,
            subscriptions: Vec::new(),
            volume_keys: Vec::new(),
            volume_values: Vec::new(),
            failures: 0,
        };
        assert(r.topics() =~= Seq::<Seq<char>>::empty());
        assert(views(r.volume_keys@) =~= Seq::<Seq<char>>::empty());
        r
    }

    /// The topic key of one category of one ticker.
    pub fn ticker_topic(ticker_id: &str, topic_type: i32) -> (r: String)
        ensures
            r@ == ticker_topic_text(ticker_id@, topic_type as int),
    {
        let mut s = String::from_str("{\"tickerId\":\"");
        s.append(ticker_id);
        s.append("\",\"type\":");
        push_int(&mut s, topic_type as i64);
        s.append("}");
        s
    }

    /// The topic key of the order updates of an account.
    pub fn order_topic(account_id: &str) -> (r: String)
        ensures
            r@ == order_topic_text(account_id@),
    {
        let mut s = String::from_str("{\"secAccountId\":\"");
        s.append(account_id);
        s.append("\"}");
        s
    }

    /// The caller has opened a transport and waits for its acknowledgement.
    pub fn begin_connect(&mut self)
        ensures
            *final(self) == (StreamEngine { state: ConnState::Connecting, has_transport: true, ..*old(self) }),
    {
        self.state = ConnState::Connecting;
        self.has_transport = true;
    }

    /// Whether the connection is acknowledged and up.
    pub fn is_connected(&self) -> (r: bool)
        ensures
            r == (self.state == ConnState::Connected),
    {
        self.state == ConnState::Connected
    }

    fn copy_topics(&self) -> (r: Vec<String>)
        ensures
            views(r@) == self.topics(),
    {
        let mut r: Vec<String> = Vec::new();
        let mut i: usize = 0;
        while i < self.subscriptions.len()
            invariant
                i <= self.subscriptions@.len(),
                views(r@) == self.topics().subrange(0, i as int),
            decreases self.subscriptions@.len() - i,
        {
            let c = self.subscriptions[i].clone();
            assert(c@ == self.topics()[i as int]);
            let ghost before = r@;
            r.push(c);
            assert(r@ == before.push(c));
            assert(views(r@) =~= views(before).push(c@));
            assert(views(r@) =~= self.topics().subrange(0, i + 1));
            i = i + 1;
        }
        assert(self.topics().subrange(0, i as int) =~= self.topics());
        r
    }

    /// The held topics.
    pub fn get_subscriptions(&self) -> (r: Vec<String>)
        ensures
            views(r@) == self.topics(),
    {
        self.copy_topics()
    }

    fn position_of(v: &Vec<String>, key: &str) -> (r: Option<usize>)
        ensures
            match r {
                Some(i) => i < v@.len() && v@[i as int]@ == key@,
                None => !views(v@).contains(key@),
            },
    {
        let mut i: usize = 0;
        while i < v.len()
            invariant
                i <= v@.len(),
                forall|j: int| 0 <= j < i ==> v@[j]@ != key@,
            decreases v@.len() - i,
        {
            if str_eq(v[i].as_str(), key) {
                return Some(i);
            }
            i = i + 1;
        }
        assert(!views(v@).contains(key@)) by {
            if views(v@).contains(key@) {
                let j = choose|j: int| 0 <= j < views(v@).len() && views(v@)[j] == key@;
                assert(v@[j]@ == key@);
            }
        }
        None
    }

    /// Whether a topic is held.
    pub fn is_subscribed(&self, key: &str) -> (r: bool)
        ensures
            r == self.holds(key@),
    {
        match Self::position_of(&self.subscriptions, key) {
            Some(i) => {
                assert(self.topics()[i as int] == key@);
                true
            },
            None => false,
        }
    }

    /// Records that the transport accepted a subscription; holding a topic twice
    /// is a no-op.
    pub fn confirm_subscribed(&mut self, key: String)
        requires
            old(self).wf(),
        ensures
            final(self).wf(),
            Self::with_topics(
                *old(self),
                *final(self),
                if old(self).holds(key@) {
                    old(self).topics()
                } else {
                    old(self).topics().push(key@)
                },
            ),
    {
        if !self.is_subscribed(key.as_str()) {
            let ghost k = key@;
            self.subscriptions.push(key);
            assert(self.topics() =~= old(self).topics().push(k));
        }
    }

    /// Records that the transport dropped a subscription.
    pub fn confirm_unsubscribed(&mut self, key: &str)
        requires
            old(self).wf(),
        ensures
            final(self).wf(),
            !final(self).holds(key@),
            forall|t: Seq<char>| t != key@ ==> (final(self).holds(t) == old(self).holds(t)),
            Self::with_topics(*old(self), *final(self), final(self).topics()),
    {
        match Self::position_of(&self.subscriptions, key) {
            Some(i) => {
                let ghost before = self.topics();
                self.subscriptions.remove(i);
                assert(self.topics() =~= before.remove(i as int));
                assert forall|t: Seq<char>| t != key@ implies (self.holds(t) == old(self).holds(t)) by {
                    if old(self).holds(t) {
                        let j = choose|j: int| 0 <= j < before.len() && before[j] == t;
                        if j < i {
                            assert(self.topics()[j] == t);
                        } else {
                            assert(self.topics()[j - 1] == t);
                        }
                    }
                }
                assert(!self.holds(key@)) by {
                    if self.holds(key@) {
                        let j = choose|j: int| 0 <= j < self.topics().len() && self.topics()[j] == key@;
                        if j < i {
                            assert(before[j] == before[i as int]);
                        } else {
                            assert(before[j + 1] == before[i as int]);
                        }
                    }
                }
            },
            None => {},
        }
    }

    fn require_transport(&self) -> (r: Result<(), WebullError>)
        ensures
            r is Ok == self.has_transport,
            r matches Err(e) ==> e is WebSocketError,
    {
        if self.has_transport {
            Ok(())
        } else {
            Err(WebullError::WebSocketError(String::from_str("Not connected")))
        }
    }

    /// The subscribe frames to send for categories of a ticker: one per
    /// category whose topic is not held yet, each once.
    pub fn subscribe_ticker(&self, ticker_id: &str, topics: &Vec<i32>) -> (r: Result<Vec<String>, WebullError>)
        ensures
            match r {
                Ok(keys) => {
                    &&& self.has_transport
                    &&& views(keys@).no_duplicates()
                    &&& forall|k: Seq<char>| #[trigger] views(keys@).contains(k) <==> !self.holds(k)
                        && exists|j: int| 0 <= j < topics@.len() && k == ticker_topic_text(ticker_id@, topics@[j] as int)
                },
                Err(e) => !self.has_transport && e is WebSocketError,
            },
    {
        self.require_transport()?;
        let mut keys: Vec<String> = Vec::new();
        let mut j: usize = 0;
        while j < topics.len()
            invariant
                j <= topics@.len(),
                views(keys@).no_duplicates(),
                forall|k: Seq<char>| #[trigger] views(keys@).contains(k) <==> !self.holds(k)
                    && exists|i: int| 0 <= i < j && k == ticker_topic_text(ticker_id@, topics@[i] as int),
            decreases topics@.len() - j,
        {
            let key = Self::ticker_topic(ticker_id, topics[j]);
            let ghost kv = key@;
            let held = self.is_subscribed(key.as_str());
            let listed = match Self::position_of(&keys, key.as_str()) {
                Some(p) => {
                    assert(views(keys@)[p as int] == kv);
                    true
                },
                None => false,
            };
            let ghost old_keys = views(keys@);
            if !held && !listed {
                keys.push(key);
                assert(views(keys@) =~= old_keys.push(kv));
            }
            assert forall|k: Seq<char>| #[trigger] views(keys@).contains(k) <==> !self.holds(k)
                && exists|i: int| 0 <= i < j + 1 && k == ticker_topic_text(ticker_id@, topics@[i] as int) by {
                if k == kv {
                    assert(k == ticker_topic_text(ticker_id@, topics@[j as int] as int));
                    if !held && !listed {
                        assert(views(keys@)[views(keys@).len() - 1] == k);
                    }
                } else {
                    if exists|i: int| 0 <= i < j + 1 && k == ticker_topic_text(ticker_id@, topics@[i] as int) {
                        let i = choose|i: int| 0 <= i < j + 1 && k == ticker_topic_text(ticker_id@, topics@[i] as int);
                        assert(i < j);
                    }
                    if !held && !listed && views(keys@).contains(k) {
                        let p = choose|p: int| 0 <= p < views(keys@).len() && views(keys@)[p] == k;
                        assert(p < old_keys.len());
                        assert(old_keys[p] == k);
                    }
                    if !held && !listed && old_keys.contains(k) {
                        let p = choose|p: int| 0 <= p < old_keys.len() && old_keys[p] == k;
                        assert(views(keys@)[p] == k);
                    }
                }
            }
            j = j + 1;
        }
        Ok(keys)
    }

    /// The unsubscribe frames to send for categories of a ticker: one per held topic.
    pub fn unsubscribe_ticker(&self, ticker_id: &str, topics: &Vec<i32>) -> (r: Result<Vec<String>, WebullError>)
        ensures
            match r {
                Ok(keys) => {
                    &&& self.has_transport
                    &&& forall|k: Seq<char>| #[trigger] views(keys@).contains(k) <==> self.holds(k)
                        && exists|j: int| 0 <= j < topics@.len() && k == ticker_topic_text(ticker_id@, topics@[j] as int)
                },
                Err(e) => !self.has_transport && e is WebSocketError,
            },
    {
        self.require_transport()?;
        let mut keys: Vec<String> = Vec::new();
        let mut j: usize = 0;
        while j < topics.len()
            invariant
                j <= topics@.len(),
                forall|k: Seq<char>| #[trigger] views(keys@).contains(k) <==> self.holds(k)
                    && exists|i: int| 0 <= i < j && k == ticker_topic_text(ticker_id@, topics@[i] as int),
            decreases topics@.len() - j,
        {
            let key = Self::ticker_topic(ticker_id, topics[j]);
            let ghost kv = key@;
            let held = self.is_subscribed(key.as_str());
            let ghost old_keys = views(keys@);
            if held {
                keys.push(key);
                assert(views(keys@) =~= old_keys.push(kv));
            }
            assert forall|k: Seq<char>| #[trigger] views(keys@).contains(k) <==> self.holds(k)
                && exists|i: int| 0 <= i < j + 1 && k == ticker_topic_text(ticker_id@, topics@[i] as int) by {
                if k == kv {
                    assert(k == ticker_topic_text(ticker_id@, topics@[j as int] as int));
                    if held {
                        assert(views(keys@)[views(keys@).len() - 1] == k);
                    } else if views(keys@).contains(k) {
                        let p = choose|p: int| 0 <= p < views(keys@).len() && views(keys@)[p] == k;
                        assert(old_keys[p] == k);
                    }
                } else {
                    if exists|i: int| 0 <= i < j + 1 && k == ticker_topic_text(ticker_id@, topics@[i] as int) {
                        let i = choose|i: int| 0 <= i < j + 1 && k == ticker_topic_text(ticker_id@, topics@[i] as int);
                        assert(i < j);
                    }
                    if held && views(keys@).contains(k) {
                        let p = choose|p: int| 0 <= p < views(keys@).len() && views(keys@)[p] == k;
                        assert(old_keys[p] == k);
                    }
                    if held && old_keys.contains(k) {
                        let p = choose|p: int| 0 <= p < old_keys.len() && old_keys[p] == k;
                        assert(views(keys@)[p] == k);
                    }
                }
            }
            j = j + 1;
        }
        Ok(keys)
    }

    /// The subscribe frame to send for the order updates of an account, or
    /// `None` when that topic is already held.
    pub fn subscribe_orders(&self, account_id: &str) -> (r: Result<Option<String>, WebullError>)
        ensures
            match r {
                Ok(Some(key)) => self.has_transport && key@ == order_topic_text(account_id@) && !self.holds(key@),
                Ok(None) => self.has_transport && self.holds(order_topic_text(account_id@)),
                Err(e) => !self.has_transport && e is WebSocketError,
            },
    {
        self.require_transport()?;
        let key = Self::order_topic(account_id);
        if self.is_subscribed(key.as_str()) {
            Ok(None)
        } else {
            Ok(Some(key))
        }
    }

    /// Empties the held set and returns what it held, for the caller to send
    /// an unsubscribe frame for each.
    pub fn unsubscribe_all(&mut self) -> (r: Result<Vec<String>, WebullError>)
        requires
            old(self).wf(),
        ensures
            final(self).wf(),
            match r {
                Ok(keys) => old(self).has_transport && views(keys@) == old(self).topics()
                    && Self::with_topics(*old(self), *final(self), Seq::empty()),
                Err(e) => !old(self).has_transport && e is WebSocketError && *final(self) == *old(self),
            },
    {
        self.require_transport()?;
        let keys = self.copy_topics();
        self.subscriptions = Vec::new();
        assert(self.topics() =~= Seq::<Seq<char>>::empty());
        Ok(keys)
    }

    /// Unsubscribes everything and tears the transport down; the topics to
    /// unsubscribe are returned. A no-op, returning nothing, without a transport.
    pub fn disconnect(&mut self) -> (r: Vec<String>)
        requires
            old(self).wf(),
        ensures
            final(self).wf(),
            old(self).has_transport ==> {
                &&& views(r@) == old(self).topics()
                &&& final(self).topics() == Seq::<Seq<char>>::empty()
                &&& !final(self).has_transport
                &&& final(self).state == ConnState::Disconnected
                &&& final(self).volume_keys == old(self).volume_keys
                &&& final(self).volume_values == old(self).volume_values
                &&& final(self).failures == old(self).failures
            },
            !old(self).has_transport ==> r@.len() == 0 && *final(self) == *old(self),
    {
        if !self.has_transport {
            return Vec::new();
        }
        let keys = self.copy_topics();
        self.subscriptions = Vec::new();
        self.has_transport = false;
        self.state = ConnState::Disconnected;
        assert(self.topics() =~= Seq::<Seq<char>>::empty());
        keys
    }

    /// The delay before the next attempt after `failures` failures in a row.
    pub fn backoff_ms(failures: u32) -> (r: u64)
        ensures
            r == backoff(failures as nat),
            500 <= r <= 30000,
    {
        let mut d: u64 = 500;
        let mut i: u32 = 0;
        while i < failures
            invariant
                i <= failures,
                d == backoff(i as nat),
                500 <= d <= 30000,
            decreases failures - i,
        {
            if d == 30000 {
                proof {
                    lemma_backoff_saturates(i as nat, failures as nat);
                }
                return d;
            }
            d = if 2 * d > 30000 {
                30000
            } else {
                2 * d
            };
            i = i + 1;
        }
        d
    }

    /// Applies a control event of the transport. An acknowledgement replays
    /// every held topic; a drop or failure schedules a retry with backoff.
    pub fn on_event(&mut self, ev: TransportEvent) -> (r: EngineAction)
        requires
            old(self).wf(),
        ensures
            final(self).wf(),
            Self::after_event(*old(self), ev, *final(self), r),
    {
        match ev {
            TransportEvent::ConnAck => {
                self.state = ConnState::Connected;
                self.failures = 0;
                EngineAction::Resubscribe(self.copy_topics())
            },
            _ => {
                let wait = Self::backoff_ms(self.failures);
                self.state = if self.state == ConnState::Connected {
                    ConnState::Disconnected
                } else {
                    ConnState::ConnectFailed
                };
                if self.failures < u32::MAX {
                    self.failures = self.failures + 1;
                }
                EngineAction::RetryAfter(wait)
            },
        }
    }

    /// The last cumulative volume seen for a ticker.
    pub fn get_total_volume(&self, ticker_id: &str) -> (r: Option<i64>)
        requires
            self.wf(),
        ensures
            r == self.volume_of(ticker_id@),
    {
        match Self::position_of(&self.volume_keys, ticker_id) {
            Some(i) => {
                let ghost keys = views(self.volume_keys@);
                assert(keys[i as int] == ticker_id@);
                let ghost c = choose|c: int| 0 <= c < keys.len() && keys[c] == ticker_id@;
                assert(keys[c] == keys[i as int]);
                Some(self.volume_values[i])
            },
            None => None,
        }
    }

    /// Overwrites the cumulative volume of a ticker (last write wins).
    pub fn record_volume(&mut self, ticker_id: String, volume: i64)
        requires
            old(self).wf(),
        ensures
            final(self).wf(),
            forall|k: Seq<char>| #[trigger] final(self).volume_of(k) == if k == ticker_id@ {
                Some(volume)
            } else {
                old(self).volume_of(k)
            },
            final(self).subscriptions == old(self).subscriptions,
            final(self).state == old(self).state,
            final(self).has_transport == old(self).has_transport,
            final(self).failures == old(self).failures,
    {
        let ghost t = ticker_id@;
        let ghost old_keys = views(self.volume_keys@);
        match Self::position_of(&self.volume_keys, ticker_id.as_str()) {
            Some(i) => {
                assert(old_keys[i as int] == t);
                self.volume_values.set(i, volume);
                assert(views(self.volume_keys@) == old_keys);
                assert forall|k: Seq<char>| #[trigger] self.volume_of(k) == if k == t {
                    Some(volume)
                } else {
                    old(self).volume_of(k)
                } by {
                    if old_keys.contains(k) {
                        let c = choose|c: int| 0 <= c < old_keys.len() && old_keys[c] == k;
                        if k == t {
                            assert(old_keys[c] == old_keys[i as int]);
                        } else {
                            assert(c != i);
                        }
                    }
                }
            },
            None => {
                self.volume_keys.push(ticker_id);
                self.volume_values.push(volume);
                let ghost keys = views(self.volume_keys@);
                assert(keys =~= old_keys.push(t));
                assert forall|k: Seq<char>| #[trigger] self.volume_of(k) == if k == t {
                    Some(volume)
                } else {
                    old(self).volume_of(k)
                } by {
                    if k == t {
                        assert(keys[old_keys.len() as int] == t);
                        let c = choose|c: int| 0 <= c < keys.len() && keys[c] == k;
                        assert(c == old_keys.len()) by {
                            if c < old_keys.len() {
                                assert(old_keys[c] == t);
                            }
                        }
                    } else {
                        if keys.contains(k) {
                            let c = choose|c: int| 0 <= c < keys.len() && keys[c] == k;
                            assert(old_keys[c] == k);
                        }
                        if old_keys.contains(k) {
                            let c = choose|c: int| 0 <= c < old_keys.len() && old_keys[c] == k;
                            assert(keys[c] == k);
                            let c2 = choose|c2: int| 0 <= c2 < keys.len() && keys[c2] == k;
                            assert(c2 < old_keys.len());
                            assert(old_keys[c2] == k);
                        }
                    }
                }
            },
        }
    }

    /// Routes an inbound frame. A frame whose topic or payload is not JSON is
    /// dropped and changes nothing. A price frame whose topic names a ticker and
    /// whose payload carries an integer volume overwrites that ticker's volume.
    pub fn handle_message(&mut self, topic: &str, payload: &[u8]) -> (r: Delivery)
        requires
            old(self).wf(),
        ensures
            final(self).wf(),
            Self::after_frame(*old(self), topic@, payload@, *final(self), r.route()),
    {
        let topic_json = match parse_text(topic) {
            Some(v) => v,
            None => return Delivery::Dropped,
        };
        let payload_json = match parse_bytes(payload) {
            Some(v) => v,
            None => return Delivery::Dropped,
        };
        if contains_str(topic, "platpush") {
            Delivery::Order(topic_json, payload_json)
        } else if contains_str(topic, "wspush") || contains_str(topic, "ticker") {
            let ticker = match member(&topic_json, "tickerId") {
                Some(m) => as_text(&m),
                None => None,
            };
            let volume = match member(&payload_json, "volume") {
                Some(m) => as_int(&m),
                None => None,
            };
            match (ticker, volume) {
                (Some(t), Some(v)) => {
                    let ghost tv = t@;
                    self.record_volume(t, v);
                    assert(Self::overwrites(*old(self), *self, tv, v));
                },
                _ => {},
            }
            Delivery::Price(topic_json, payload_json)
        } else {
            Delivery::Ignored
        }
    }
}

proof fn lemma_backoff_saturates(i: nat, n: nat)
    requires
        i <= n,
        backoff(i) == 30000,
    ensures
        backoff(n) == 30000,
    decreases n - i,
{
    if i < n {
        assert(backoff(i + 1) == 30000);
        lemma_backoff_saturates(i + 1, n);
    }
}

/// A held topic stays held through a drop of the connection and the next
/// acknowledgement, and the acknowledgement asks for its subscribe frame again.
pub proof fn lemma_topic_survives_reconnect(
    s0: StreamEngine,
    s1: StreamEngine,
    s2: StreamEngine,
    s3: StreamEngine,
    key: Seq<char>,
    drop: TransportEvent,
    a2: EngineAction,
    a3: EngineAction,
)
    requires
        StreamEngine::with_topics(
            s0,
            s1,
            if s0.holds(key) {
                s0.topics()
            } else {
                s0.topics().push(key)
            },
        ),
        drop != TransportEvent::ConnAck,
        StreamEngine::after_event(s1, drop, s2, a2),
        StreamEngine::after_event(s2, TransportEvent::ConnAck, s3, a3),
    ensures
        s1.holds(key),
        s2.holds(key),
        s3.holds(key),
        s3.state == ConnState::Connected,
        a3 matches EngineAction::Resubscribe(keys) && views(keys@).contains(key),
{
    if !s0.holds(key) {
        assert(s1.topics()[s0.topics().len() as int] == key);
    }
}

/// After `unsubscribe_all` succeeds nothing is held.
pub proof fn lemma_nothing_held_after_unsubscribe_all(s0: StreamEngine, s1: StreamEngine)
    requires
        StreamEngine::with_topics(s0, s1, Seq::empty()),
    ensures
        forall|t: Seq<char>| !s1.holds(t),
        s1.topics().len() == 0,
{
}

/// A frame that is not JSON is dropped and leaves the engine as it was, so
/// the well-formed frame that follows it is routed as if it had come first.
pub proof fn lemma_bad_frame_then_good_frame(
    s0: StreamEngine,
    s1: StreamEngine,
    s2: StreamEngine,
    topic: Seq<char>,
    bad: Seq<u8>,
    good: Seq<u8>,
    r1: Route,
    r2: Route,
)
    requires
        StreamEngine::after_frame(s0, topic, bad, s1, r1),
        StreamEngine::after_frame(s1, topic, good, s2, r2),
        !json_bytes_ok(bad),
        json_bytes_ok(good),
        json_text_ok(topic),
    ensures
        r1 == Route::Dropped,
        s1 == s0,
        r2 == route_of_topic(topic),
        r2 != Route::Dropped,
{
}

} // verus!
