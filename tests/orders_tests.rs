use webull_core::builders::PlaceOrderRequest;
use webull_core::endpoints::Endpoints;
use webull_core::error::WebullError;
use webull_core::models::{Decimal, OrderStatus, OrderType};
use webull_core::orders::{list_open, parse_order_id, prepare_cancel, IdField, OrderGateway, PlacePlan, WireOrder};
use webull_core::session::{AccountMode, Session, TokenReply};

fn dec(m: i64) -> Decimal {
    Decimal { mantissa: m, scale: 2 }
}

fn trading_session(mode: AccountMode) -> Session {
    let mut s = Session::new("d".to_string());
    s.apply_login(TokenReply { access_token: Some("a".to_string()), refresh_token: None, token_expiry: None }).unwrap();
    s.apply_trade_token(Some("t".to_string())).unwrap();
    s.resolve_account(mode, &vec![Some("5001".to_string())]).unwrap();
    s
}

fn order(t: OrderType, limit: Option<i64>, stop: Option<i64>) -> PlaceOrderRequest {
    PlaceOrderRequest {
        ticker_id: 913256135,
        action: webull_core::models::OrderAction::Buy,
        order_type: t,
        time_in_force: webull_core::models::TimeInForce::Day,
        quantity: dec(1000),
        limit_price: limit.map(dec),
        stop_price: stop.map(dec),
        outside_regular_trading_hour: true,
        serial_id: None,
        combo_type: None,
    }
}

fn wire(id: &str, status: &str) -> WireOrder {
    WireOrder { order_id: id.to_string(), status: status.to_string() }
}

#[test]
fn place_rejects_missing_prices() {
    let g = OrderGateway::new();
    let s = trading_session(AccountMode::Live);
    let e = Endpoints::new();
    for o in [
        order(OrderType::Limit, None, Some(1)),
        order(OrderType::Stop, Some(1), None),
        order(OrderType::StopLimit, None, Some(1)),
        order(OrderType::StopLimit, Some(1), None),
    ] {
        assert!(matches!(g.prepare_place(&s, &e, &o, "k".to_string()), Err(WebullError::InvalidParameter(_))));
    }
    assert!(g.prepare_place(&s, &e, &order(OrderType::Market, None, None), "k".to_string()).is_ok());
}

#[test]
fn place_needs_trade_token_then_account() {
    let g = OrderGateway::new();
    let e = Endpoints::new();
    let mut s = Session::new("d".to_string());
    s.apply_login(TokenReply { access_token: Some("a".to_string()), refresh_token: None, token_expiry: None }).unwrap();
    let o = order(OrderType::Market, None, None);
    assert!(matches!(g.prepare_place(&s, &e, &o, "k".to_string()), Err(WebullError::TradeTokenNotAvailable)));
    s.apply_trade_token(Some("t".to_string())).unwrap();
    assert!(matches!(g.prepare_place(&s, &e, &o, "k".to_string()), Err(WebullError::AccountNotFound)));
}

#[test]
fn live_payload_fields() {
    let g = OrderGateway::new();
    let s = trading_session(AccountMode::Live);
    let e = Endpoints::new();
    match g.prepare_place(&s, &e, &order(OrderType::StopLimit, Some(14400), Some(14500)), "key-1".to_string()).unwrap() {
        PlacePlan::Send(sub) => {
            assert_eq!(sub.url, "https://ustrade.webullfinance.com/api/trade/order/5001/placeStockOrder");
            assert_eq!(sub.payload.lmt_price, Some(dec(14400)));
            assert_eq!(sub.payload.aux_price, Some(dec(14500)));
            assert_eq!(sub.payload.combo_type, Some("NORMAL".to_string()));
            assert_eq!(sub.payload.serial_id, "key-1");
            assert!(sub.payload.outside_regular_trading_hour);
        }
        other => panic!("unexpected: {:?}", other),
    }
    match g.prepare_place(&s, &e, &order(OrderType::Market, None, None), "k".to_string()).unwrap() {
        PlacePlan::Send(sub) => assert!(!sub.payload.outside_regular_trading_hour),
        other => panic!("unexpected: {:?}", other),
    }
}

#[test]
fn paper_payload_fields() {
    let g = OrderGateway::new();
    let s = trading_session(AccountMode::Paper);
    let e = Endpoints::new();
    match g.prepare_place(&s, &e, &order(OrderType::Limit, Some(15000), None), "k".to_string()).unwrap() {
        PlacePlan::Send(sub) => {
            assert_eq!(sub.url, "https://act.webullbroker.com/webull-paper-center/api/paper/1/acc/5001/orderop/place/913256135");
            assert_eq!(sub.payload.lmt_price, Some(dec(15000)));
            assert_eq!(sub.payload.aux_price, None);
            assert_eq!(sub.payload.combo_type, None);
        }
        other => panic!("unexpected: {:?}", other),
    }
}

#[test]
fn same_idempotency_key_is_not_placed_twice() {
    let mut g = OrderGateway::new();
    let s = trading_session(AccountMode::Live);
    let e = Endpoints::new();
    let mut o = order(OrderType::Market, None, None);
    o.serial_id = Some("idem-1".to_string());
    let key = match g.prepare_place(&s, &e, &o, "unused".to_string()).unwrap() {
        PlacePlan::Send(sub) => sub.payload.serial_id,
        other => panic!("unexpected: {:?}", other),
    };
    assert_eq!(key, "idem-1");
    g.record_placement(key.clone(), "9001".to_string());
    match g.prepare_place(&s, &e, &o, "unused".to_string()).unwrap() {
        PlacePlan::AlreadyPlaced(id) => assert_eq!(id, "9001"),
        other => panic!("unexpected: {:?}", other),
    }
    g.record_placement(key, "9002".to_string());
    match g.prepare_place(&s, &e, &o, "other".to_string()).unwrap() {
        PlacePlan::AlreadyPlaced(id) => assert_eq!(id, "9001"),
        other => panic!("unexpected: {:?}", other),
    }
    o.serial_id = None;
    assert!(matches!(g.prepare_place(&s, &e, &o, "fresh".to_string()).unwrap(), PlacePlan::Send(_)));
}

#[test]
fn order_id_shapes() {
    assert_eq!(parse_order_id(IdField::Text("abc".to_string()), IdField::Missing).unwrap(), "abc");
    assert_eq!(parse_order_id(IdField::Missing, IdField::Number(1234567)).unwrap(), "1234567");
    assert_eq!(parse_order_id(IdField::Number(-5), IdField::Text("x".to_string())).unwrap(), "-5");
    assert!(matches!(parse_order_id(IdField::Other, IdField::Text("x".to_string())), Err(WebullError::ApiError(_))));
    assert!(matches!(parse_order_id(IdField::Missing, IdField::Missing), Err(WebullError::ApiError(_))));
}

#[test]
fn paper_open_orders_come_from_history() {
    let history = vec![
        wire("1", "Working"),
        wire("2", "Filled"),
        wire("3", "Working"),
        wire("4", "Cancelled"),
        wire("5", "Working"),
    ];
    let open = list_open(AccountMode::Paper, None, &history);
    assert_eq!(open.len(), 3);
    let ids: Vec<&str> = open.iter().map(|o| o.order_id.as_str()).collect();
    assert_eq!(ids, vec!["1", "3", "5"]);
    assert!(open.iter().all(|o| o.status == OrderStatus::Working));
}

#[test]
fn live_open_orders_come_from_snapshot() {
    let snapshot = vec![wire("7", "Working"), wire("8", "PartiallyFilled"), wire("9", "Mystery")];
    let history = vec![wire("1", "Working")];
    let open = list_open(AccountMode::Live, Some(&snapshot), &history);
    assert_eq!(open.len(), 2);
    assert_eq!(open[1].status, OrderStatus::PartialFilled);
    assert!(list_open(AccountMode::Live, None, &history).is_empty());
}

#[test]
fn cancel_addresses() {
    let e = Endpoints::new();
    let live = trading_session(AccountMode::Live);
    assert_eq!(prepare_cancel(&live, &e, "42").unwrap(), "https://ustrade.webullfinance.com/api/trade/order/5001/cancelStockOrder/42");
    let paper = trading_session(AccountMode::Paper);
    assert_eq!(prepare_cancel(&paper, &e, "42").unwrap(), "https://act.webullbroker.com/webull-paper-center/api/paper/1/acc/5001/orderop/cancel/42");
    let none = Session::new("d".to_string());
    assert!(matches!(prepare_cancel(&none, &e, "42"), Err(WebullError::TradeTokenNotAvailable)));
}
