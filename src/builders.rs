//! Request builders: each collects optional fields and checks, when built,
//! that the required ones were given.

use vstd::prelude::*;
use vstd::string::*;
use crate::models::{Decimal, OrderAction, OrderType, TimeInForce, prices_ok};

verus! {

/// An order ready to be sent.
#[derive(Debug, Clone)]
pub struct PlaceOrderRequest {
    pub ticker_id: i64,
    pub action: OrderAction,
    pub order_type: OrderType,
    pub time_in_force: TimeInForce,
    pub quantity: Decimal,
    pub limit_price: Option<Decimal>,
    pub stop_price: Option<Decimal>,
    pub outside_regular_trading_hour: bool,
    pub serial_id: Option<String>,
    pub combo_type: Option<String>,
}

impl PlaceOrderRequest {
    /// Whether the order has a positive quantity and the prices its kind needs.
    pub open spec fn valid(&self) -> bool {
        &&& self.quantity.is_positive()
        &&& prices_ok(self.order_type, self.limit_price is Some, self.stop_price is Some)
    }

    pub fn market() -> (r: PlaceOrderRequestBuilder)
        ensures
            r == PlaceOrderRequestBuilder::initial(OrderType::Market),
    {
        PlaceOrderRequestBuilder::new(OrderType::Market)
    }

    pub fn limit(price: Decimal) -> (r: PlaceOrderRequestBuilder)
        ensures
            r == (PlaceOrderRequestBuilder {
                limit_price: Some(price),
                ..PlaceOrderRequestBuilder::initial(OrderType::Limit)
            }),
    {
        PlaceOrderRequestBuilder::new(OrderType::Limit).limit_price(price)
    }

    pub fn stop(price: Decimal) -> (r: PlaceOrderRequestBuilder)
        ensures
            r == (PlaceOrderRequestBuilder {
                stop_price: Some(price),
                ..PlaceOrderRequestBuilder::initial(OrderType::Stop)
            }),
    {
        PlaceOrderRequestBuilder::new(OrderType::Stop).stop_price(price)
    }

    pub fn stop_limit(stop_price: Decimal, limit_price: Decimal) -> (r: PlaceOrderRequestBuilder)
        ensures
            r == (PlaceOrderRequestBuilder {
                stop_price: Some(stop_price),
                limit_price: Some(limit_price),
                ..PlaceOrderRequestBuilder::initial(OrderType::StopLimit)
            }),
    {
        PlaceOrderRequestBuilder::new(OrderType::StopLimit).stop_price(stop_price).limit_price(
            limit_price,
        )
    }

    pub fn builder(order_type: OrderType) -> (r: PlaceOrderRequestBuilder)
        ensures
            r == PlaceOrderRequestBuilder::initial(order_type),
    {
        PlaceOrderRequestBuilder::new(order_type)
    }
}

/// Collects the fields of an order.
#[derive(Debug, Clone)]
pub struct PlaceOrderRequestBuilder {
    pub ticker_id: Option<i64>,
    pub action: Option<OrderAction>,
    pub order_type: OrderType,
    pub time_in_force: TimeInForce,
    pub quantity: Option<Decimal>,
    pub limit_price: Option<Decimal>,
    pub stop_price: Option<Decimal>,
    pub outside_regular_trading_hour: bool,
    pub serial_id: Option<String>,
    pub combo_type: Option<String>,
}

impl PlaceOrderRequestBuilder {
    /// A builder with nothing set but the order type; day orders by default.
    pub open spec fn initial(order_type: OrderType) -> PlaceOrderRequestBuilder {
        PlaceOrderRequestBuilder {
            ticker_id: None,
            action: None,
            order_type,
            time_in_force: TimeInForce::Day,
            quantity: None,
            limit_price: None,
            stop_price: None,
            outside_regular_trading_hour: false,
            serial_id: None,
            combo_type: None,
        }
    }

    /// Why `build` refuses this builder, or `None` when it succeeds.
    pub open spec fn problem(&self) -> Option<Seq<char>> {
        if self.ticker_id is None {
            Some("ticker_id is required"@)
        } else if self.action is None {
            Some("action is required"@)
        } else if self.quantity is None {
            Some("quantity is required"@)
        } else if !self.quantity->0.is_positive() {
            Some("quantity must be positive"@)
        } else if self.order_type == OrderType::Limit && self.limit_price is None {
            Some("Limit order requires limit_price"@)
        } else if self.order_type == OrderType::Stop && self.stop_price is None {
            Some("Stop order requires stop_price"@)
        } else if self.order_type == OrderType::StopLimit && self.limit_price is None {
            Some("StopLimit order requires limit_price"@)
        } else if self.order_type == OrderType::StopLimit && self.stop_price is None {
            Some("StopLimit order requires stop_price"@)
        } else {
            None
        }
    }

    /// The order that `build` returns when it succeeds.
    pub open spec fn order(&self) -> PlaceOrderRequest {
        PlaceOrderRequest {
            ticker_id: self.ticker_id->0,
            action: self.action->0,
            order_type: self.order_type,
            time_in_force: self.time_in_force,
            quantity: self.quantity->0,
            limit_price: self.limit_price,
            stop_price: self.stop_price,
            outside_regular_trading_hour: self.outside_regular_trading_hour,
            serial_id: self.serial_id,
            combo_type: self.combo_type,
        }
    }

    pub fn new(order_type: OrderType) -> (r: Self)
        ensures
            r == Self::initial(order_type),
    {
        PlaceOrderRequestBuilder {
            ticker_id: None,
            action: None,
            order_type,
            time_in_force: TimeInForce::Day,
            quantity: None,
            limit_price: None,
            stop_price: None,
            outside_regular_trading_hour: false,
            serial_id: None,
            combo_type: None,
        }
    }

    pub fn ticker_id(self, ticker_id: i64) -> (r: Self)
        ensures
            r == (Self { ticker_id: Some(ticker_id), ..self }),
    {
        Self { ticker_id: Some(ticker_id), ..self }
    }

    /// Kept for a uniform call chain; the ticker is chosen by `ticker_id`.
    pub fn symbol(self, _symbol: &str) -> (r: Self)
        ensures
            r == self,
    {
        self
    }

    pub fn action(self, action: OrderAction) -> (r: Self)
        ensures
            r == (Self { action: Some(action), ..self }),
    {
        Self { action: Some(action), ..self }
    }

    pub fn buy(self) -> (r: Self)
        ensures
            r == (Self { action: Some(OrderAction::Buy), ..self }),
    {
        Self { action: Some(OrderAction::Buy), ..self }
    }

    pub fn sell(self) -> (r: Self)
        ensures
            r == (Self { action: Some(OrderAction::Sell), ..self }),
    {
        Self { action: Some(OrderAction::Sell), ..self }
    }

    pub fn quantity(self, quantity: Decimal) -> (r: Self)
        ensures
            r == (Self { quantity: Some(quantity), ..self }),
    {
        Self { quantity: Some(quantity), ..self }
    }

    pub fn time_in_force(self, tif: TimeInForce) -> (r: Self)
        ensures
            r == (Self { time_in_force: tif, ..self }),
    {
        Self { time_in_force: tif, ..self }
    }

    pub fn limit_price(self, price: Decimal) -> (r: Self)
        ensures
            r == (Self { limit_price: Some(price), ..self }),
    {
        Self { limit_price: Some(price), ..self }
    }

    pub fn stop_price(self, price: Decimal) -> (r: Self)
        ensures
            r == (Self { stop_price: Some(price), ..self }),
    {
        Self { stop_price: Some(price), ..self }
    }

    pub fn outside_regular_trading_hour(self, enabled: bool) -> (r: Self)
        ensures
            r == (Self { outside_regular_trading_hour: enabled, ..self }),
    {
        Self { outside_regular_trading_hour: enabled, ..self }
    }

    pub fn extended_hours(self) -> (r: Self)
        ensures
            r == (Self { outside_regular_trading_hour: true, ..self }),
    {
        Self { outside_regular_trading_hour: true, ..self }
    }

    pub fn serial_id(self, id: String) -> (r: Self)
        ensures
            r == (Self { serial_id: Some(id), ..self }),
    {
        Self { serial_id: Some(id), ..self }
    }

    pub fn combo_type(self, combo_type: String) -> (r: Self)
        ensures
            r == (Self { combo_type: Some(combo_type), ..self }),
    {
        Self { combo_type: Some(combo_type), ..self }
    }

    /// Checks the required fields and the prices that the order type needs.
    pub fn build(self) -> (r: Result<PlaceOrderRequest, String>)
        ensures
            match r {
                Ok(req) => self.problem() is None && req == self.order() && req.valid(),
                Err(m) => self.problem() == Some(m@),
            },
    {
        let ticker_id = match self.ticker_id {
            Some(t) => t,
            None => return Err(String::from_str("ticker_id is required")),
        };
        let action = match self.action {
            Some(a) => a,
            None => return Err(String::from_str("action is required")),
        };
        let quantity = match self.quantity {
            Some(q) => q,
            None => return Err(String::from_str("quantity is required")),
        };
        if quantity.mantissa <= 0 {
            return Err(String::from_str("quantity must be positive"));
        }
        match self.order_type {
            OrderType::Limit => {
                if self.limit_price.is_none() {
                    return Err(String::from_str("Limit order requires limit_price"));
                }
            },
            OrderType::Stop => {
                if self.stop_price.is_none() {
                    return Err(String::from_str("Stop order requires stop_price"));
                }
            },
            OrderType::StopLimit => {
                if self.limit_price.is_none() {
                    return Err(String::from_str("StopLimit order requires limit_price"));
                }
                if self.stop_price.is_none() {
                    return Err(String::from_str("StopLimit order requires stop_price"));
                }
            },
            OrderType::Market => {},
        }
        Ok(
            PlaceOrderRequest {
                ticker_id,
                action,
                order_type: self.order_type,
                time_in_force: self.time_in_force,
                quantity,
                limit_price: self.limit_price,
                stop_price: self.stop_price,
                outside_regular_trading_hour: self.outside_regular_trading_hour,
                serial_id: self.serial_id,
                combo_type: self.combo_type,
            },
        )
    }
}

/// A builder whose kind and quantity are set refuses to build exactly when
/// the kind lacks a price it needs: a Limit order without a limit price, a
/// Stop order without a stop price, a StopLimit order missing either.
pub proof fn lemma_build_requires_prices(b: PlaceOrderRequestBuilder)
    requires
        b.ticker_id is Some,
        b.action is Some,
        b.quantity is Some,
        b.quantity->0.is_positive(),
    ensures
        (b.problem() is None) == prices_ok(b.order_type, b.limit_price is Some, b.stop_price is Some),
        b.order_type == OrderType::Limit && b.limit_price is None ==> b.problem() is Some,
        b.order_type == OrderType::Stop && b.stop_price is None ==> b.problem() is Some,
        b.order_type == OrderType::StopLimit && (b.limit_price is None || b.stop_price is None)
            ==> b.problem() is Some,
{
}

/// Collects the parameters of a login.
#[derive(Debug, Clone)]
pub struct LoginRequestBuilder {
    pub username: Option<String>,
    pub password: Option<String>,
    pub device_name: Option<String>,
    pub device_id: Option<String>,
    pub mfa_code: Option<String>,
    pub question_id: Option<String>,
    pub question_answer: Option<String>,
    pub region_id: Option<i32>,
}

/// The parameters of a login: username, password, device name, MFA code,
/// question id and question answer.
pub type LoginParams = (String, String, Option<String>, Option<String>, Option<String>, Option<String>);

impl LoginRequestBuilder {
    pub open spec fn initial() -> LoginRequestBuilder {
        LoginRequestBuilder {
            username: None,
            password: None,
            device_name: None,
            device_id: None,
            mfa_code: None,
            question_id: None,
            question_answer: None,
            region_id: Some(6),
        }
    }

    /// A builder with nothing set and the US region.
    pub fn new() -> (r: Self)
        ensures
            r == Self::initial(),
    {
        LoginRequestBuilder {
            username: None,
            password: None,
            device_name: None,
            device_id: None,
            mfa_code: None,
            question_id: None,
            question_answer: None,
            region_id: Some(6),
        }
    }

    pub fn username(self, username: &str) -> (r: Self)
        ensures
            r.username is Some && r.username->0@ == username@,
            r == (Self { username: r.username, ..self }),
    {
        Self { username: Some(String::from_str(username)), ..self }
    }

    pub fn password(self, password: &str) -> (r: Self)
        ensures
            r.password is Some && r.password->0@ == password@,
            r == (Self { password: r.password, ..self }),
    {
        Self { password: Some(String::from_str(password)), ..self }
    }

    pub fn device_name(self, device_name: &str) -> (r: Self)
        ensures
            r.device_name is Some && r.device_name->0@ == device_name@,
            r == (Self { device_name: r.device_name, ..self }),
    {
        Self { device_name: Some(String::from_str(device_name)), ..self }
    }

    pub fn device_id(self, device_id: &str) -> (r: Self)
        ensures
            r.device_id is Some && r.device_id->0@ == device_id@,
            r == (Self { device_id: r.device_id, ..self }),
    {
        Self { device_id: Some(String::from_str(device_id)), ..self }
    }

    pub fn mfa(self, code: &str) -> (r: Self)
        ensures
            r.mfa_code is Some && r.mfa_code->0@ == code@,
            r == (Self { mfa_code: r.mfa_code, ..self }),
    {
        Self { mfa_code: Some(String::from_str(code)), ..self }
    }

    pub fn security_question(self, question_id: &str, answer: &str) -> (r: Self)
        ensures
            r.question_id is Some && r.question_id->0@ == question_id@,
            r.question_answer is Some && r.question_answer->0@ == answer@,
            r == (Self { question_id: r.question_id, question_answer: r.question_answer, ..self }),
    {
        Self {
            question_id: Some(String::from_str(question_id)),
            question_answer: Some(String::from_str(answer)),
            ..self
        }
    }

    pub fn region(self, region_id: i32) -> (r: Self)
        ensures
            r == (Self { region_id: Some(region_id), ..self }),
    {
        Self { region_id: Some(region_id), ..self }
    }

    /// The login parameters; username and password are required.
    pub fn build(self) -> (r: Result<LoginParams, String>)
        ensures
            match r {
                Ok(p) => self.username == Some(p.0) && self.password == Some(p.1) && p.2
                    == self.device_name && p.3 == self.mfa_code && p.4 == self.question_id && p.5
                    == self.question_answer,
                Err(m) => if self.username is None {
                    m@ == "username is required"@
                } else {
                    self.password is None && m@ == "password is required"@
                },
            },
    {
        let username = match self.username {
            Some(u) => u,
            None => return Err(String::from_str("username is required")),
        };
        let password = match self.password {
            Some(p) => p,
            None => return Err(String::from_str("password is required")),
        };
        Ok(
            (
                username,
                password,
                self.device_name,
                self.mfa_code,
                self.question_id,
                self.question_answer,
            ),
        )
    }
}

impl Default for LoginRequestBuilder {
    fn default() -> (r: Self)
        ensures
            r == Self::initial(),
    {
        Self::new()
    }
}

/// Collects the parameters of a chart query.
#[derive(Debug, Clone)]
pub struct BarsRequestBuilder {
    pub ticker_id: Option<String>,
    pub interval: Option<String>,
    pub count: Option<i32>,
    pub timestamp: Option<i64>,
}

impl BarsRequestBuilder {
    pub open spec fn initial() -> BarsRequestBuilder {
        BarsRequestBuilder { ticker_id: None, interval: None, count: Some(100), timestamp: None }
    }

    /// A builder with a count of 100.
    pub fn new() -> (r: Self)
        ensures
            r == Self::initial(),
    {
        BarsRequestBuilder { ticker_id: None, interval: None, count: Some(100), timestamp: None }
    }

    pub fn ticker_id(self, ticker_id: &str) -> (r: Self)
        ensures
            r.ticker_id is Some && r.ticker_id->0@ == ticker_id@,
            r == (Self { ticker_id: r.ticker_id, ..self }),
    {
        Self { ticker_id: Some(String::from_str(ticker_id)), ..self }
    }

    pub fn interval(self, interval: &str) -> (r: Self)
        ensures
            r.interval is Some && r.interval->0@ == interval@,
            r == (Self { interval: r.interval, ..self }),
    {
        Self { interval: Some(String::from_str(interval)), ..self }
    }

    pub fn count(self, count: i32) -> (r: Self)
        ensures
            r == (Self { count: Some(count), ..self }),
    {
        Self { count: Some(count), ..self }
    }

    pub fn timestamp(self, timestamp: i64) -> (r: Self)
        ensures
            r == (Self { timestamp: Some(timestamp), ..self }),
    {
        Self { timestamp: Some(timestamp), ..self }
    }

    /// Ticker, interval, count (100 when unset) and timestamp; ticker and interval are required.
    pub fn build(self) -> (r: Result<(String, String, i32, Option<i64>), String>)
        ensures
            match r {
                Ok(p) => self.ticker_id == Some(p.0) && self.interval == Some(p.1) && p.2 == (
                match self.count {
                    Some(c) => c,
                    None => 100,
                }) && p.3 == self.timestamp,
                Err(m) => if self.ticker_id is None {
                    m@ == "ticker_id is required"@
                } else {
                    self.interval is None && m@ == "interval is required"@
                },
            },
    {
        let ticker_id = match self.ticker_id {
            Some(t) => t,
            None => return Err(String::from_str("ticker_id is required")),
        };
        let interval = match self.interval {
            Some(i) => i,
            None => return Err(String::from_str("interval is required")),
        };
        let count = match self.count {
            Some(c) => c,
            None => 100,
        };
        Ok((ticker_id, interval, count, self.timestamp))
    }
}

impl Default for BarsRequestBuilder {
    fn default() -> (r: Self)
        ensures
            r == Self::initial(),
    {
        Self::new()
    }
}

/// Collects the parameters of a news query.
#[derive(Debug, Clone)]
pub struct NewsRequestBuilder {
    pub ticker: Option<String>,
    pub last_id: Option<i64>,
    pub count: Option<i32>,
}

impl NewsRequestBuilder {
    pub open spec fn initial() -> NewsRequestBuilder {
        NewsRequestBuilder { ticker: None, last_id: Some(0), count: Some(20) }
    }

    /// A builder that starts from the newest item and fetches 20.
    pub fn new() -> (r: Self)
        ensures
            r == Self::initial(),
    {
        NewsRequestBuilder { ticker: None, last_id: Some(0), count: Some(20) }
    }

    pub fn ticker(self, ticker: &str) -> (r: Self)
        ensures
            r.ticker is Some && r.ticker->0@ == ticker@,
            r == (Self { ticker: r.ticker, ..self }),
    {
        Self { ticker: Some(String::from_str(ticker)), ..self }
    }

    pub fn last_id(self, last_id: i64) -> (r: Self)
        ensures
            r == (Self { last_id: Some(last_id), ..self }),
    {
        Self { last_id: Some(last_id), ..self }
    }

    pub fn after(self, news_id: i64) -> (r: Self)
        ensures
            r == (Self { last_id: Some(news_id), ..self }),
    {
        Self { last_id: Some(news_id), ..self }
    }

    pub fn count(self, count: i32) -> (r: Self)
        ensures
            r == (Self { count: Some(count), ..self }),
    {
        Self { count: Some(count), ..self }
    }

    pub fn latest(self, count: i32) -> (r: Self)
        ensures
            r == (Self { last_id: Some(0), count: Some(count), ..self }),
    {
        Self { last_id: Some(0), count: Some(count), ..self }
    }

    /// Ticker, last id (0 when unset) and count (20 when unset); the ticker is required.
    pub fn build(self) -> (r: Result<(String, i64, i32), String>)
        ensures
            match r {
                Ok(p) => self.ticker == Some(p.0) && p.1 == (match self.last_id {
                    Some(i) => i,
                    None => 0,
                }) && p.2 == (match self.count {
                    Some(c) => c,
                    None => 20,
                }),
                Err(m) => self.ticker is None && m@ == "ticker is required"@,
            },
    {
        let ticker = match self.ticker {
            Some(t) => t,
            None => return Err(String::from_str("ticker is required")),
        };
        let last_id = match self.last_id {
            Some(i) => i,
            None => 0,
        };
        let count = match self.count {
            Some(c) => c,
            None => 20,
        };
        Ok((ticker, last_id, count))
    }
}

impl Default for NewsRequestBuilder {
    fn default() -> (r: Self)
        ensures
            r == Self::initial(),
    {
        Self::new()
    }
}

/// The parameters of a screener query.
#[derive(Debug, Clone, Copy, PartialEq, Eq, Structural)]
pub struct ScreenerRequest {
    pub region_id: i32,
    pub plate_id: i32,
    pub rank_id: i32,
}

/// Collects the parameters of a screener query.
#[derive(Debug, Clone, Copy)]
pub struct ScreenerRequestBuilder {
    pub region_id: Option<i32>,
    pub plate_id: Option<i32>,
    pub rank_id: Option<i32>,
}

impl ScreenerRequestBuilder {
    pub open spec fn initial() -> ScreenerRequestBuilder {
        ScreenerRequestBuilder { region_id: Some(6), plate_id: None, rank_id: None }
    }

    /// A builder for the US region.
    pub fn new() -> (r: Self)
        ensures
            r == Self::initial(),
    {
        ScreenerRequestBuilder { region_id: Some(6), plate_id: None, rank_id: None }
    }

    pub fn region(self, region_id: i32) -> (r: Self)
        ensures
            r == (Self { region_id: Some(region_id), ..self }),
    {
        Self { region_id: Some(region_id), ..self }
    }

    pub fn plate(self, plate_id: i32) -> (r: Self)
        ensures
            r == (Self { plate_id: Some(plate_id), ..self }),
    {
        Self { plate_id: Some(plate_id), ..self }
    }

    pub fn rank(self, rank_id: i32) -> (r: Self)
        ensures
            r == (Self { rank_id: Some(rank_id), ..self }),
    {
        Self { rank_id: Some(rank_id), ..self }
    }

    pub fn top_gainers(self) -> (r: Self)
        ensures
            r == (Self { plate_id: Some(1), rank_id: Some(1), ..self }),
    {
        Self { plate_id: Some(1), rank_id: Some(1), ..self }
    }

    pub fn top_losers(self) -> (r: Self)
        ensures
            r == (Self { plate_id: Some(2), rank_id: Some(2), ..self }),
    {
        Self { plate_id: Some(2), rank_id: Some(2), ..self }
    }

    pub fn most_active(self) -> (r: Self)
        ensures
            r == (Self { plate_id: Some(3), rank_id: Some(3), ..self }),
    {
        Self { plate_id: Some(3), rank_id: Some(3), ..self }
    }

    /// The request; plate and rank are required, the region is 6 when unset.
    pub fn build(self) -> (r: Result<ScreenerRequest, String>)
        ensures
            match r {
                Ok(q) => self.plate_id == Some(q.plate_id) && self.rank_id == Some(q.rank_id)
                    && q.region_id == (match self.region_id {
                    Some(g) => g,
                    None => 6,
                }),
                Err(m) => if self.plate_id is None {
                    m@ == "plate_id is required"@
                } else {
                    self.rank_id is None && m@ == "rank_id is required"@
                },
            },
    {
        let region_id = match self.region_id {
            Some(g) => g,
            None => 6,
        };
        let plate_id = match self.plate_id {
            Some(p) => p,
            None => return Err(String::from_str("plate_id is required")),
        };
        let rank_id = match self.rank_id {
            Some(k) => k,
            None => return Err(String::from_str("rank_id is required")),
        };
        Ok(ScreenerRequest { region_id, plate_id, rank_id })
    }
}

impl Default for ScreenerRequestBuilder {
    fn default() -> (r: Self)
        ensures
            r == Self::initial(),
    {
        Self::new()
    }
}

} // verus!
