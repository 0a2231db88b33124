//! Order vocabulary, wire codes, and the request builders.

use vstd::prelude::*;
use vstd::string::*;
use crate::text::str_eq;

verus! {

/// Buy or sell.
#[derive(Debug, Clone, Copy, PartialEq, Eq, Structural)]
pub enum OrderAction {
    Buy,
    Sell,
}

/// How an order is priced.
#[derive(Debug, Clone, Copy, PartialEq, Eq, Structural)]
pub enum OrderType {
    Market,
    Limit,
    Stop,
    StopLimit,
}

/// The normalized state of an order, whatever spelling the server used.
#[derive(Debug, Clone, Copy, PartialEq, Eq, Structural)]
pub enum OrderStatus {
    Working,
    Pending,
    Submitted,
    PartialFilled,
    Filled,
    Cancelled,
    Failed,
    Rejected,
}

/// How long an order stays live.
#[derive(Debug, Clone, Copy, PartialEq, Eq, Structural)]
pub enum TimeInForce {
    Day,
    GoodTillCancel,
    ImmediateOrCancel,
    FillOrKill,
}

/// A decimal number `mantissa / 10^scale`.
#[derive(Debug, Clone, Copy, PartialEq, Eq, Structural)]
pub struct Decimal {
    pub mantissa: i64,
    pub scale: u32,
}

impl Decimal {
    pub open spec fn is_positive(self) -> bool {
        self.mantissa > 0
    }
}

/// The order status that a wire spelling stands for; `None` for a spelling
/// that names no known state.
pub open spec fn status_of_wire(s: Seq<char>) -> Option<OrderStatus> {
    if s == "Working"@ {
        Some(OrderStatus::Working)
    } else if s == "Pending"@ {
        Some(OrderStatus::Pending)
    } else if s == "Submitted"@ {
        Some(OrderStatus::Submitted)
    } else if s == "PartialFilled"@ || s == "PartiallyFilled"@ || s == "Partial Filled"@ {
        Some(OrderStatus::PartialFilled)
    } else if s == "Filled"@ {
        Some(OrderStatus::Filled)
    } else if s == "Cancelled"@ || s == "Canceled"@ {
        Some(OrderStatus::Cancelled)
    } else if s == "Failed"@ {
        Some(OrderStatus::Failed)
    } else if s == "Rejected"@ {
        Some(OrderStatus::Rejected)
    } else {
        None
    }
}

/// The order type that a wire code stands for.
pub open spec fn order_type_of_wire(s: Seq<char>) -> Option<OrderType> {
    if s == "MKT"@ {
        Some(OrderType::Market)
    } else if s == "LMT"@ {
        Some(OrderType::Limit)
    } else if s == "STP"@ {
        Some(OrderType::Stop)
    } else if s == "STP LMT"@ || s == "STP_LMT"@ {
        Some(OrderType::StopLimit)
    } else {
        None
    }
}

/// The action that a wire code stands for.
pub open spec fn action_of_wire(s: Seq<char>) -> Option<OrderAction> {
    if s == "BUY"@ {
        Some(OrderAction::Buy)
    } else if s == "SELL"@ {
        Some(OrderAction::Sell)
    } else {
        None
    }
}

/// The time in force that a wire code stands for; an unknown code means a day order.
pub open spec fn time_in_force_of_wire(s: Seq<char>) -> TimeInForce {
    if s == "GTC"@ {
        TimeInForce::GoodTillCancel
    } else if s == "IOC"@ {
        TimeInForce::ImmediateOrCancel
    } else if s == "FOK"@ {
        TimeInForce::FillOrKill
    } else {
        TimeInForce::Day
    }
}

/// The order type implied by which prices are given.
pub open spec fn type_for_prices(has_limit: bool, has_stop: bool) -> OrderType {
    if has_limit && has_stop {
        OrderType::StopLimit
    } else if has_limit {
        OrderType::Limit
    } else if has_stop {
        OrderType::Stop
    } else {
        OrderType::Market
    }
}

/// Whether an order of kind `t` carries the prices its kind needs: a limit
/// price for Limit and StopLimit, a stop price for Stop and StopLimit.
pub open spec fn prices_ok(t: OrderType, has_limit: bool, has_stop: bool) -> bool {
    match t {
        OrderType::Market => true,
        OrderType::Limit => has_limit,
        OrderType::Stop => has_stop,
        OrderType::StopLimit => has_limit && has_stop,
    }
}

/// Both spellings of a cancelled order name the same state.
pub proof fn lemma_cancel_spellings_agree()
    ensures
        status_of_wire("Canceled"@) == Some(OrderStatus::Cancelled),
        status_of_wire("Cancelled"@) == Some(OrderStatus::Cancelled),
        status_of_wire("Canceled"@) == status_of_wire("Cancelled"@),
{
    reveal_strlit("Canceled");
    reveal_strlit("Cancelled");
    reveal_strlit("Working");
    reveal_strlit("Pending");
    reveal_strlit("Submitted");
    reveal_strlit("PartialFilled");
    reveal_strlit("PartiallyFilled");
    reveal_strlit("Partial Filled");
    reveal_strlit("Filled");
    assert("Cancelled"@[0] != "Submitted"@[0]);
    assert("Canceled"@.len() == 8 && "Cancelled"@.len() == 9 && "Working"@.len() == 7);
    assert("Pending"@.len() == 7 && "Filled"@.len() == 6 && "Submitted"@.len() == 9);
    assert("PartialFilled"@.len() == 13 && "PartiallyFilled"@.len() == 15 && "Partial Filled"@.len() == 14);
}

impl OrderStatus {
    /// Normalizes a wire status string.
    pub fn from_wire(s: &str) -> (r: Option<OrderStatus>)
        ensures
            r == status_of_wire(s@),
    {
        if str_eq(s, "Working") {
            Some(OrderStatus::Working)
        } else if str_eq(s, "Pending") {
            Some(OrderStatus::Pending)
        } else if str_eq(s, "Submitted") {
            Some(OrderStatus::Submitted)
        } else if str_eq(s, "PartialFilled") || str_eq(s, "PartiallyFilled") || str_eq(s, "Partial Filled") {
            Some(OrderStatus::PartialFilled)
        } else if str_eq(s, "Filled") {
            Some(OrderStatus::Filled)
        } else if str_eq(s, "Cancelled") || str_eq(s, "Canceled") {
            Some(OrderStatus::Cancelled)
        } else if str_eq(s, "Failed") {
            Some(OrderStatus::Failed)
        } else if str_eq(s, "Rejected") {
            Some(OrderStatus::Rejected)
        } else {
            None
        }
    }
}

impl OrderType {
    /// Parses a wire order-type code.
    pub fn from_wire(s: &str) -> (r: Option<OrderType>)
        ensures
            r == order_type_of_wire(s@),
    {
        if str_eq(s, "MKT") {
            Some(OrderType::Market)
        } else if str_eq(s, "LMT") {
            Some(OrderType::Limit)
        } else if str_eq(s, "STP") {
            Some(OrderType::Stop)
        } else if str_eq(s, "STP LMT") || str_eq(s, "STP_LMT") {
            Some(OrderType::StopLimit)
        } else {
            None
        }
    }

    /// The code the server uses for this order type.
    pub fn code(&self) -> (r: &'static str)
        ensures
            order_type_of_wire(r@) == Some(*self),
    {
        proof {
            reveal_strlit("MKT");
            reveal_strlit("LMT");
            reveal_strlit("STP");
            reveal_strlit("STP_LMT");
            reveal_strlit("STP LMT");
        }
        let r: &'static str = match self {
            OrderType::Market => "MKT",
            OrderType::Limit => "LMT",
            OrderType::Stop => "STP",
            OrderType::StopLimit => "STP_LMT",
        };
        assert("MKT"@[0] == 'M' && "LMT"@[0] == 'L' && "STP"@[0] == 'S' && "STP_LMT"@.len() == 7);
        assert("STP"@.len() == 3);
        r
    }

    /// The order type implied by which prices are given.
    pub fn detect(has_limit: bool, has_stop: bool) -> (r: OrderType)
        ensures
            r == type_for_prices(has_limit, has_stop),
            prices_ok(r, has_limit, has_stop),
    {
        if has_limit && has_stop {
            OrderType::StopLimit
        } else if has_limit {
            OrderType::Limit
        } else if has_stop {
            OrderType::Stop
        } else {
            OrderType::Market
        }
    }
}

impl OrderAction {
    /// Parses a wire action code.
    pub fn from_wire(s: &str) -> (r: Option<OrderAction>)
        ensures
            r == action_of_wire(s@),
    {
        if str_eq(s, "BUY") {
            Some(OrderAction::Buy)
        } else if str_eq(s, "SELL") {
            Some(OrderAction::Sell)
        } else {
            None
        }
    }

    /// The code the server uses for this action.
    pub fn code(&self) -> (r: &'static str)
        ensures
            action_of_wire(r@) == Some(*self),
    {
        proof {
            reveal_strlit("BUY");
            reveal_strlit("SELL");
        }
        assert("BUY"@[0] == 'B' && "SELL"@[0] == 'S');
        match self {
            OrderAction::Buy => "BUY",
            OrderAction::Sell => "SELL",
        }
    }
}

impl TimeInForce {
    /// Parses a wire time-in-force code.
    pub fn from_wire(s: &str) -> (r: TimeInForce)
        ensures
            r == time_in_force_of_wire(s@),
    {
        if str_eq(s, "GTC") {
            TimeInForce::GoodTillCancel
        } else if str_eq(s, "IOC") {
            TimeInForce::ImmediateOrCancel
        } else if str_eq(s, "FOK") {
            TimeInForce::FillOrKill
        } else {
            TimeInForce::Day
        }
    }

    /// The code the server uses for this time in force.
    pub fn code(&self) -> (r: &'static str)
        ensures
            time_in_force_of_wire(r@) == *self,
    {
        proof {
            reveal_strlit("DAY");
            reveal_strlit("GTC");
            reveal_strlit("IOC");
            reveal_strlit("FOK");
        }
        assert("DAY"@[0] == 'D' && "GTC"@[0] == 'G' && "IOC"@[0] == 'I' && "FOK"@[0] == 'F');
        match self {
            TimeInForce::Day => "DAY",
            TimeInForce::GoodTillCancel => "GTC",
            TimeInForce::ImmediateOrCancel => "IOC",
            TimeInForce::FillOrKill => "FOK",
        }
    }
}

} // verus!
