//! The order gateway: checks an order against the session, keeps the
//! idempotency bookkeeping, shapes the payload for live or paper accounts, reads
//! the new order id out of the reply, and selects the open orders.

use vstd::prelude::*;
use vstd::string::*;
use crate::builders::PlaceOrderRequest;
use crate::endpoints::Endpoints;
use crate::error::WebullError;
use crate::models::{Decimal, OrderAction, OrderStatus, OrderType, TimeInForce, prices_ok, status_of_wire};
use crate::session::{Account, AccountMode, Session};
use crate::text::{int_text, push_int, str_eq, views};

verus! {

/// The fields of an order as the server receives them.
#[derive(Debug, Clone)]
pub struct OrderPayload {
    pub ticker_id: i64,
    pub action: OrderAction,
    pub order_type: OrderType,
    pub time_in_force: TimeInForce,
    pub quantity: Decimal,
    pub limit_price: Option<Decimal>,
    pub stop_price: Option<Decimal>,
    /// The live API's limit price field.
    pub lmt_price: Option<Decimal>,
    /// The live API's stop price field.
    pub aux_price: Option<Decimal>,
    pub outside_regular_trading_hour: bool,
    pub serial_id: String,
    /// The live API's combination type; absent for paper orders.
    pub combo_type: Option<String>,
}

/// What to send for an order.
#[derive(Debug, Clone)]
pub struct OrderSubmission {
    pub url: String,
    pub payload: OrderPayload,
}

/// The outcome of preparing an order.
#[derive(Debug, Clone)]
pub enum PlacePlan {
    /// Send this submission, then record the id that comes back.
    Send(OrderSubmission),
    /// An order with this idempotency key was already placed, under this id.
    AlreadyPlaced(String),
}

/// How the reply carries the new order id.
#[derive(Debug, Clone)]
pub enum IdField {
    Missing,
    Text(String),
    Number(i64),
    /// Present, but neither a string nor an integer.
    Other,
}

/// An order as listed by the server, with its wire status.
#[derive(Debug, Clone)]
pub struct WireOrder {
    pub order_id: String,
    pub status: String,
}

/// An order with its normalized status.
#[derive(Debug, Clone)]
pub struct OpenOrder {
    pub order_id: String,
    pub status: OrderStatus,
}

pub open spec fn open_views(v: Seq<OpenOrder>) -> Seq<(Seq<char>, OrderStatus)> {
    v.map_values(|o: OpenOrder| (o.order_id@, o.status))
}

/// The orders of a listing whose status is known, normalized, in order; with
/// `only_working`, those whose status is Working.
pub open spec fn selected(h: Seq<WireOrder>, only_working: bool) -> Seq<(Seq<char>, OrderStatus)>
    decreases h.len(),
{
    if h.len() == 0 {
        Seq::empty()
    } else {
        let prev = selected(h.drop_last(), only_working);
        let st = status_of_wire(h.last().status@);
        if st is Some && (!only_working || st->0 == OrderStatus::Working) {
            prev.push((h.last().order_id@, st->0))
        } else {
            prev
        }
    }
}

/// The open orders of an account. Live accounts list them in the account
/// snapshot; paper accounts do not, so their order history is filtered for
/// Working orders instead.
pub open spec fn open_orders_of(mode: AccountMode, snapshot: Option<Seq<WireOrder>>, history: Seq<WireOrder>) -> Seq<(Seq<char>, OrderStatus)> {
    match mode {
        AccountMode::Live => match snapshot {
            Some(s) => selected(s, false),
            None => Seq::empty(),
        },
        AccountMode::Paper => selected(history, true),
    }
}

/// The new order id of a reply: the nested data field first, then the top-level
/// field; text as it is, an integer in decimal.
pub open spec fn order_id_of(nested: IdField, top: IdField) -> Option<Seq<char>> {
    let f = if nested is Missing {
        top
    } else {
        nested
    };
    match f {
        IdField::Text(s) => Some(s@),
        IdField::Number(n) => Some(int_text(n as int)),
        _ => None,
    }
}

/// The payload of an order for a mode. Live orders carry the combination type
/// and the price fields named per order kind; paper orders the plain prices.
/// Market orders never trade outside regular hours.
pub open spec fn payload_for(mode: AccountMode, order: PlaceOrderRequest, key: String, combo: Option<String>) -> OrderPayload {
    OrderPayload {
        ticker_id: order.ticker_id,
        action: order.action,
        order_type: order.order_type,
        time_in_force: order.time_in_force,
        quantity: order.quantity,
        limit_price: order.limit_price,
        stop_price: order.stop_price,
        lmt_price: match mode {
            AccountMode::Live => if order.order_type == OrderType::Limit || order.order_type == OrderType::StopLimit {
                order.limit_price
            } else {
                None
            },
            AccountMode::Paper => order.limit_price,
        },
        aux_price: match mode {
            AccountMode::Live => if order.order_type == OrderType::Stop || order.order_type == OrderType::StopLimit {
                order.stop_price
            } else {
                None
            },
            AccountMode::Paper => None,
        },
        outside_regular_trading_hour: order.order_type != OrderType::Market && order.outside_regular_trading_hour,
        serial_id: key,
        combo_type: combo,
    }
}

/// The address that an order of a ticker is placed at for an account.
pub open spec fn place_url(endpoints: Endpoints, account: Account, ticker_id: i64) -> Seq<char> {
    match account.mode {
        AccountMode::Live => endpoints.base_ustrade_url@ + "/trade/order/"@ + account.id@ + "/placeStockOrder"@,
        AccountMode::Paper => endpoints.base_paper_url@ + "/paper/1/acc/"@ + account.id@ + "/orderop/place/"@
            + int_text(ticker_id as int),
    }
}

/// Orders placed so far, by idempotency key.
#[derive(Debug, Clone)]
pub struct OrderGateway {
    pub placed_keys: Vec<String>,
    pub placed_ids: Vec<String>,
}

impl OrderGateway {
    /// Each key once, with one id.
    pub open spec fn wf(&self) -> bool {
        &&& views(self.placed_keys@).no_duplicates()
        &&& self.placed_keys@.len() == self.placed_ids@.len()
    }

    /// The id under which the order with this key was placed.
    pub open spec fn placed_id(&self, key: Seq<char>) -> Option<Seq<char>> {
        let keys = views(self.placed_keys@);
        if keys.contains(key) {
            Some(self.placed_ids@[choose|i: int| 0 <= i < keys.len() && keys[i] == key]@)
        } else {
            None
        }
    }

    /// `new` knows the placement `key -> id` besides what `old` knew; a key
    /// already known keeps its first id.
    pub open spec fn recorded(old: OrderGateway, key: Seq<char>, id: Seq<char>, new: OrderGateway) -> bool {
        forall|k: Seq<char>| #[trigger] new.placed_id(k) == if k == key && old.placed_id(key) is None {
            Some(id)
        } else {
            old.placed_id(k)
        }
    }

    /// The idempotency key of an order: the caller's, else the fresh one.
    pub open spec fn key_of(order: PlaceOrderRequest, fresh: String) -> String {
        match order.serial_id {
            Some(k) => k,
            None => fresh,
        }
    }

    /// What preparing an order yields.
    pub open spec fn plan_ok(&self, session: Session, endpoints: Endpoints, order: PlaceOrderRequest, fresh: String, r: Result<PlacePlan, WebullError>) -> bool {
        if session.trade_token is None {
            r matches Err(e) && e is TradeTokenNotAvailable
        } else if session.account is None {
            r matches Err(e) && e is AccountNotFound
        } else if !order.valid() {
            r matches Err(e) && e is InvalidParameter
        } else {
            let key = Self::key_of(order, fresh);
            match self.placed_id(key@) {
                Some(id) => r matches Ok(PlacePlan::AlreadyPlaced(x)) && x@ == id,
                None => r matches Ok(PlacePlan::Send(sub)) && sub.payload == payload_for(
                    session.account->0.mode,
                    order,
                    key,
                    sub.payload.combo_type,
                ) && (session.account->0.mode == AccountMode::Live ==> sub.payload.combo_type is Some
                    && sub.payload.combo_type->0@ == "NORMAL"@) && (session.account->0.mode
                    == AccountMode::Paper ==> sub.payload.combo_type is None) && sub.url@ == place_url(
                    endpoints,
                    session.account->0,
                    order.ticker_id,
                ),
            }
        }
    }

    pub fn new() -> (r: Self)
        ensures
            r.wf(),
            forall|k: Seq<char>| r.placed_id(k) is None,
    {
        let r = OrderGateway { placed_keys: Vec::new(), placed_ids: Vec::new() };
        assert(views(r.placed_keys@) =~= Seq::<Seq<char>>::empty());
        r
    }

    fn find_key(&self, key: &str) -> (r: Option<usize>)
        requires
            self.wf(),
        ensures
            match r {
                Some(i) => i < self.placed_keys@.len() && views(self.placed_keys@)[i as int] == key@
                    && self.placed_id(key@) == Some(self.placed_ids@[i as int]@),
                None => self.placed_id(key@) is None,
            },
    {
        let mut i: usize = 0;
        while i < self.placed_keys.len()
            invariant
                self.wf(),
                i <= self.placed_keys@.len(),
                forall|j: int| 0 <= j < i ==> self.placed_keys@[j]@ != key@,
            decreases self.placed_keys@.len() - i,
        {
            if str_eq(self.placed_keys[i].as_str(), key) {
                proof {
                    let keys = views(self.placed_keys@);
                    assert(keys[i as int] == key@);
                    let c = choose|c: int| 0 <= c < keys.len() && keys[c] == key@;
                    assert(keys[c] == keys[i as int]);
                }
                return Some(i);
            }
            i = i + 1;
        }
        proof {
            let keys = views(self.placed_keys@);
            if keys.contains(key@) {
                let c = choose|c: int| 0 <= c < keys.len() && keys[c] == key@;
                assert(self.placed_keys@[c]@ == key@);
            }
        }
        None
    }

    /// Records that the order with this key was placed under this id. A key
    /// already recorded keeps its first id.
    pub fn record_placement(&mut self, key: String, order_id: String)
        requires
            old(self).wf(),
        ensures
            final(self).wf(),
            Self::recorded(*old(self), key@, order_id@, *final(self)),
    {
        match self.find_key(key.as_str()) {
            Some(_) => {},
            None => {
                let ghost k = key@;
                let ghost v = order_id@;
                let ghost old_keys = views(self.placed_keys@);
                self.placed_keys.push(key);
                self.placed_ids.push(order_id);
                let ghost keys = views(self.placed_keys@);
                assert(keys =~= old_keys.push(k));
                assert forall|q: Seq<char>| #[trigger] self.placed_id(q) == if q == k && old(self).placed_id(k) is None {
                    Some(v)
                } else {
                    old(self).placed_id(q)
                } by {
                    if q == k {
                        assert(keys[old_keys.len() as int] == k);
                        let c = choose|c: int| 0 <= c < keys.len() && keys[c] == q;
                        assert(c == old_keys.len()) by {
                            if c < old_keys.len() {
                                assert(old_keys[c] == k);
                            }
                        }
                    } else {
                        if keys.contains(q) {
                            let c = choose|c: int| 0 <= c < keys.len() && keys[c] == q;
                            assert(old_keys[c] == q);
                        }
                        if old_keys.contains(q) {
                            let c = choose|c: int| 0 <= c < old_keys.len() && old_keys[c] == q;
                            assert(keys[c] == q);
                            let c2 = choose|c2: int| 0 <= c2 < keys.len() && keys[c2] == q;
                            assert(c2 < old_keys.len());
                            assert(old_keys[c2] == q);
                        }
                    }
                }
            },
        }
    }

    /// Checks an order against the session and the bookkeeping and shapes what
    /// to send. The trade token comes first, then the account, then the prices
    /// that the order's kind needs. An order whose idempotency key was already
    /// placed is not sent again. `fresh_key` is the key of an order that
    /// carries none.
    pub fn prepare_place(&self, session: &Session, endpoints: &Endpoints, order: &PlaceOrderRequest, fresh_key: String) -> (r: Result<PlacePlan, WebullError>)
        requires
            self.wf(),
        ensures
            self.plan_ok(*session, *endpoints, *order, fresh_key, r),
    {
        let account: Account = session.authorize_trade()?;
        if order.quantity.mantissa <= 0 {
            return Err(WebullError::InvalidParameter(String::from_str("quantity must be positive")));
        }
        let has_limit = order.limit_price.is_some();
        let has_stop = order.stop_price.is_some();
        let priced = match order.order_type {
            OrderType::Market => true,
            OrderType::Limit => has_limit,
            OrderType::Stop => has_stop,
            OrderType::StopLimit => has_limit && has_stop,
        };
        if !priced {
            return Err(WebullError::InvalidParameter(String::from_str("order lacks a price its type requires")));
        }
        let key: String = match &order.serial_id {
            Some(k) => k.clone(),
            None => fresh_key,
        };
        match self.find_key(key.as_str()) {
            Some(i) => {
                return Ok(PlacePlan::AlreadyPlaced(self.placed_ids[i].clone()));
            },
            None => {},
        }
        let live = match account.mode {
            AccountMode::Live => true,
            AccountMode::Paper => false,
        };
        let url = if live {
            endpoints.place_orders(account.id.as_str())
        } else {
            let mut ticker = String::new();
            push_int(&mut ticker, order.ticker_id);
            endpoints.paper_place_order(account.id.as_str(), ticker.as_str())
        };
        let lmt_price = if live {
            match order.order_type {
                OrderType::Limit | OrderType::StopLimit => order.limit_price,
                _ => None,
            }
        } else {
            order.limit_price
        };
        let aux_price = if live {
            match order.order_type {
                OrderType::Stop | OrderType::StopLimit => order.stop_price,
                _ => None,
            }
        } else {
            None
        };
        let combo_type = if live {
            Some(String::from_str("NORMAL"))
        } else {
            None
        };
        let outside = match order.order_type {
            OrderType::Market => false,
            _ => order.outside_regular_trading_hour,
        };
        let payload = OrderPayload {
            ticker_id: order.ticker_id,
            action: order.action,
            order_type: order.order_type,
            time_in_force: order.time_in_force,
            quantity: order.quantity,
            limit_price: order.limit_price,
            stop_price: order.stop_price,
            lmt_price,
            aux_price,
            outside_regular_trading_hour: outside,
            serial_id: key,
            combo_type,
        };
        Ok(PlacePlan::Send(OrderSubmission { url, payload }))
    }
}

/// The address to cancel an order at; cancelling needs the trade token and the
/// account. Success of the request says only that the server accepted it: the
/// caller confirms by listing the order again.
pub fn prepare_cancel(session: &Session, endpoints: &Endpoints, order_id: &str) -> (r: Result<String, WebullError>)
    ensures
        session.trade_token is None ==> (r matches Err(e) && e is TradeTokenNotAvailable),
        session.trade_token is Some && session.account is None ==> (r matches Err(e) && e is AccountNotFound),
        session.trade_token is Some && session.account is Some ==> (r matches Ok(url) && url@ == match session.account->0.mode {
            AccountMode::Live => endpoints.base_ustrade_url@ + "/trade/order/"@ + session.account->0.id@
                + "/cancelStockOrder/"@ + order_id@,
            AccountMode::Paper => endpoints.base_paper_url@ + "/paper/1/acc/"@ + session.account->0.id@
                + "/orderop/cancel/"@ + order_id@,
        }),
{
    let account = session.authorize_trade()?;
    match account.mode {
        AccountMode::Live => {
            let mut url = endpoints.cancel_order(account.id.as_str());
            url.append(order_id);
            Ok(url)
        },
        AccountMode::Paper => Ok(endpoints.paper_cancel_order(account.id.as_str(), order_id)),
    }
}

/// The new order id of a place reply, or an API error for any other shape.
pub fn parse_order_id(nested: IdField, top: IdField) -> (r: Result<String, WebullError>)
    ensures
        match order_id_of(nested, top) {
            Some(id) => (r matches Ok(s) && s@ == id),
            None => (r matches Err(e) && e is ApiError),
        },
{
    let f = match nested {
        IdField::Missing => top,
        _ => nested,
    };
    match f {
        IdField::Text(s) => Ok(s),
        IdField::Number(n) => {
            let mut s = String::new();
            push_int(&mut s, n);
            Ok(s)
        },
        IdField::Missing => Err(WebullError::ApiError(String::from_str("Failed to place order"))),
        IdField::Other => Err(WebullError::ApiError(String::from_str("Invalid orderId format"))),
    }
}

fn select_orders(h: &Vec<WireOrder>, only_working: bool) -> (r: Vec<OpenOrder>)
    ensures
        open_views(r@) == selected(h@, only_working),
{
    let mut r: Vec<OpenOrder> = Vec::new();
    let mut i: usize = 0;
    while i < h.len()
        invariant
            i <= h@.len(),
            open_views(r@) == selected(h@.subrange(0, i as int), only_working),
        decreases h@.len() - i,
    {
        let ghost pre = h@.subrange(0, i + 1);
        assert(pre.drop_last() =~= h@.subrange(0, i as int));
        assert(pre.last() == h@[i as int]);
        let st = OrderStatus::from_wire(h[i].status.as_str());
        match st {
            Some(s) => {
                let keep = match s {
                    OrderStatus::Working => true,
                    _ => !only_working,
                };
                if keep {
                    let ghost before = r@;
                    let o = OpenOrder { order_id: h[i].order_id.clone(), status: s };
                    r.push(o);
                    assert(open_views(r@) =~= open_views(before).push((h@[i as int].order_id@, s)));
                }
            },
            None => {},
        }
        i = i + 1;
    }
    assert(h@.subrange(0, h@.len() as int) =~= h@);
    r
}

/// The open orders of an account, normalized. Live accounts take them from the
/// account snapshot (none when it has no open-order list); paper accounts from
/// the order history, keeping the Working orders. Orders whose status is not a
/// known spelling are left out.
pub fn list_open(mode: AccountMode, snapshot: Option<&Vec<WireOrder>>, history: &Vec<WireOrder>) -> (r: Vec<OpenOrder>)
    ensures
        open_views(r@) == open_orders_of(
            mode,
            match snapshot {
                Some(s) => Some(s@),
                None => None,
            },
            history@,
        ),
{
    match mode {
        AccountMode::Live => match snapshot {
            Some(s) => select_orders(s, false),
            None => {
                let r: Vec<OpenOrder> = Vec::new();
                assert(open_views(r@) =~= Seq::<(Seq<char>, OrderStatus)>::empty());
                r
            },
        },
        AccountMode::Paper => select_orders(history, true),
    }
}

/// Every order that the paper listing yields is Working.
pub proof fn lemma_paper_open_orders_are_working(history: Seq<WireOrder>, i: int)
    requires
        0 <= i < selected(history, true).len(),
    ensures
        selected(history, true)[i].1 == OrderStatus::Working,
    decreases history.len(),
{
    if i < selected(history.drop_last(), true).len() {
        lemma_paper_open_orders_are_working(history.drop_last(), i);
    }
}

/// With the trade token and the account in place, `place` refuses a Limit
/// order without a limit price, a Stop order without a stop price, and a
/// StopLimit order missing either.
pub proof fn lemma_place_requires_prices(
    g: OrderGateway,
    session: Session,
    endpoints: Endpoints,
    order: PlaceOrderRequest,
    fresh: String,
    r: Result<PlacePlan, WebullError>,
)
    requires
        session.trade_token is Some,
        session.account is Some,
        g.plan_ok(session, endpoints, order, fresh, r),
    ensures
        !prices_ok(order.order_type, order.limit_price is Some, order.stop_price is Some) ==> (r matches Err(e)
            && e is InvalidParameter),
        order.order_type == OrderType::Limit && order.limit_price is None ==> (r matches Err(e) && e is InvalidParameter),
        order.order_type == OrderType::Stop && order.stop_price is None ==> (r matches Err(e) && e is InvalidParameter),
        order.order_type == OrderType::StopLimit && (order.limit_price is None || order.stop_price is None) ==> (r matches Err(
            e,
        ) && e is InvalidParameter),
{
}

/// Once an order is recorded under its idempotency key, preparing an order
/// with the same key yields that placement again instead of a second one.
pub proof fn lemma_same_key_is_not_placed_twice(
    g0: OrderGateway,
    g1: OrderGateway,
    key: String,
    id: Seq<char>,
    session: Session,
    endpoints: Endpoints,
    order: PlaceOrderRequest,
    fresh: String,
    r: Result<PlacePlan, WebullError>,
)
    requires
        OrderGateway::recorded(g0, key@, id, g1),
        OrderGateway::key_of(order, fresh) == key,
        session.trade_token is Some,
        session.account is Some,
        order.valid(),
        g1.plan_ok(session, endpoints, order, fresh, r),
    ensures
        r matches Ok(PlacePlan::AlreadyPlaced(x)) && x@ == (match g0.placed_id(key@) {
            Some(first) => first,
            None => id,
        }),
{
    assert(g1.placed_id(key@) == if g0.placed_id(key@) is None {
        Some(id)
    } else {
        g0.placed_id(key@)
    });
}

} // verus!
