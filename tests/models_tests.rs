use webull_core::builders::{
    BarsRequestBuilder, LoginRequestBuilder, NewsRequestBuilder, PlaceOrderRequest,
    PlaceOrderRequestBuilder, ScreenerRequestBuilder,
};
use webull_core::error::WebullError;
use webull_core::models::{Decimal, OrderAction, OrderStatus, OrderType, TimeInForce};

fn dec(m: i64) -> Decimal {
    Decimal { mantissa: m, scale: 2 }
}

#[test]
fn test_order_type_detection_logic() {
    assert_eq!(OrderType::detect(false, false), OrderType::Market);
    assert_eq!(OrderType::detect(true, false), OrderType::Limit);
    assert_eq!(OrderType::detect(false, true), OrderType::Stop);
    assert_eq!(OrderType::detect(true, true), OrderType::StopLimit);
}

#[test]
fn test_error_types() {
    let auth_error = WebullError::AuthenticationError("Test".to_string());
    assert_eq!(auth_error.message(), "Authentication failed: Test");

    let mfa_error = WebullError::MfaRequired;
    assert_eq!(mfa_error.message(), "MFA required");

    let session_error = WebullError::SessionExpired;
    assert_eq!(session_error.message(), "Session expired");
}

#[test]
fn trade_token_error_is_distinguishable() {
    assert!(WebullError::TradeTokenNotAvailable.needs_trade_elevation());
    assert!(!WebullError::AccountNotFound.needs_trade_elevation());
    assert_eq!(WebullError::TradeTokenNotAvailable.message(), "Trade token not available");
}

#[test]
fn canceled_and_cancelled_normalize_alike() {
    assert_eq!(OrderStatus::from_wire("Canceled"), Some(OrderStatus::Cancelled));
    assert_eq!(OrderStatus::from_wire("Cancelled"), Some(OrderStatus::Cancelled));
    assert_eq!(OrderStatus::from_wire("Canceled"), OrderStatus::from_wire("Cancelled"));
}

#[test]
fn unknown_status_is_not_working() {
    assert_eq!(OrderStatus::from_wire("Expired"), None);
    assert_eq!(OrderStatus::from_wire(""), None);
    assert_eq!(OrderStatus::from_wire("Working"), Some(OrderStatus::Working));
    assert_eq!(OrderStatus::from_wire("Partial Filled"), Some(OrderStatus::PartialFilled));
}

#[test]
fn wire_codes_round_trip() {
    assert_eq!(OrderAction::Buy.code(), "BUY");
    assert_eq!(OrderAction::Sell.code(), "SELL");
    assert_eq!(OrderType::Market.code(), "MKT");
    assert_eq!(OrderType::Limit.code(), "LMT");
    assert_eq!(TimeInForce::Day.code(), "DAY");
    assert_eq!(TimeInForce::GoodTillCancel.code(), "GTC");
    assert_eq!(OrderType::from_wire("STP LMT"), Some(OrderType::StopLimit));
    assert_eq!(OrderAction::from_wire("SELL"), Some(OrderAction::Sell));
    assert_eq!(TimeInForce::from_wire("XYZ"), TimeInForce::Day);
}

fn base(t: OrderType) -> PlaceOrderRequestBuilder {
    PlaceOrderRequest::builder(t).ticker_id(913256135).buy().quantity(dec(1000))
}

#[test]
fn builder_rejects_orders_missing_prices() {
    assert_eq!(base(OrderType::Limit).build().unwrap_err(), "Limit order requires limit_price");
    assert_eq!(base(OrderType::Stop).build().unwrap_err(), "Stop order requires stop_price");
    assert_eq!(
        base(OrderType::StopLimit).stop_price(dec(14500)).build().unwrap_err(),
        "StopLimit order requires limit_price"
    );
    assert_eq!(
        base(OrderType::StopLimit).limit_price(dec(14400)).build().unwrap_err(),
        "StopLimit order requires stop_price"
    );
    assert!(base(OrderType::Market).build().is_ok());
    assert!(base(OrderType::StopLimit).limit_price(dec(1)).stop_price(dec(2)).build().is_ok());
}

#[test]
fn builder_required_fields() {
    assert_eq!(PlaceOrderRequest::market().build().unwrap_err(), "ticker_id is required");
    assert_eq!(PlaceOrderRequest::market().ticker_id(1).build().unwrap_err(), "action is required");
    assert_eq!(PlaceOrderRequest::market().ticker_id(1).sell().build().unwrap_err(), "quantity is required");
    assert_eq!(
        PlaceOrderRequest::market().ticker_id(1).sell().quantity(dec(0)).build().unwrap_err(),
        "quantity must be positive"
    );
}

#[test]
fn builder_keeps_fields() {
    let req = PlaceOrderRequest::limit(dec(15000))
        .ticker_id(123)
        .sell()
        .quantity(dec(1000))
        .time_in_force(TimeInForce::GoodTillCancel)
        .extended_hours()
        .serial_id("test_serial".to_string())
        .build()
        .unwrap();
    assert_eq!(req.ticker_id, 123);
    assert_eq!(req.action, OrderAction::Sell);
    assert_eq!(req.order_type, OrderType::Limit);
    assert_eq!(req.limit_price, Some(dec(15000)));
    assert!(req.outside_regular_trading_hour);
    assert_eq!(req.serial_id, Some("test_serial".to_string()));
    let sl = PlaceOrderRequest::stop_limit(dec(14500), dec(14400));
    assert_eq!(sl.stop_price, Some(dec(14500)));
    assert_eq!(sl.limit_price, Some(dec(14400)));
}

#[test]
fn login_builder() {
    let b = LoginRequestBuilder::new().username("test@example.com").password("testpass").device_name("test_device").mfa("123456");
    assert_eq!(b.region_id, Some(6));
    let (u, p, d, m, q, a) = b.build().unwrap();
    assert_eq!(u, "test@example.com");
    assert_eq!(p, "testpass");
    assert_eq!(d, Some("test_device".to_string()));
    assert_eq!(m, Some("123456".to_string()));
    assert_eq!(q, None);
    assert_eq!(a, None);
    assert_eq!(LoginRequestBuilder::new().password("x").build().unwrap_err(), "username is required");
    assert_eq!(LoginRequestBuilder::default().username("x").build().unwrap_err(), "password is required");
}

#[test]
fn bars_news_screener_builders() {
    let (t, i, c, ts) = BarsRequestBuilder::new().ticker_id("913256135").interval("m1").timestamp(1234567890).build().unwrap();
    assert_eq!((t.as_str(), i.as_str(), c, ts), ("913256135", "m1", 100, Some(1234567890)));
    assert_eq!(BarsRequestBuilder::new().ticker_id("1").build().unwrap_err(), "interval is required");

    let (t, id, c) = NewsRequestBuilder::new().ticker("AAPL").after(9876543210).count(20).build().unwrap();
    assert_eq!((t.as_str(), id, c), ("AAPL", 9876543210, 20));
    let (_, id, c) = NewsRequestBuilder::new().ticker("123").last_id(5).latest(10).build().unwrap();
    assert_eq!((id, c), (0, 10));
    assert_eq!(NewsRequestBuilder::new().build().unwrap_err(), "ticker is required");

    let q = ScreenerRequestBuilder::new().top_losers().build().unwrap();
    assert_eq!((q.region_id, q.plate_id, q.rank_id), (6, 2, 2));
    assert_eq!(ScreenerRequestBuilder::new().plate(1).build().unwrap_err(), "rank_id is required");
}
