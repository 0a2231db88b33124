use webull_core::error::WebullError;
use webull_core::session::{AccountMode, RefreshStart, Session, TokenReply};

fn reply(access: Option<&str>, refresh: Option<&str>) -> TokenReply {
    TokenReply {
        access_token: access.map(|s| s.to_string()),
        refresh_token: refresh.map(|s| s.to_string()),
        token_expiry: Some(1700000000),
    }
}

fn logged_in() -> Session {
    let mut s = Session::new("did123".to_string());
    s.apply_login(reply(Some("acc"), Some("ref"))).unwrap();
    s
}

#[test]
fn credentials_are_checked() {
    assert!(matches!(Session::check_credentials("", "pw"), Err(WebullError::InvalidParameter(_))));
    assert!(matches!(Session::check_credentials("a@b.com", ""), Err(WebullError::InvalidParameter(_))));
    assert_eq!(Session::check_credentials("a@b.com", "pw").unwrap(), 2);
    assert_eq!(Session::check_credentials("+15550000", "pw").unwrap(), 1);
}

#[test]
fn login_rejected_leaves_session() {
    let mut s = Session::new("d".to_string());
    assert!(matches!(s.apply_login(reply(None, None)), Err(WebullError::AuthenticationError(_))));
    assert!(s.access_token.is_none());
}

#[test]
fn failed_elevation_keeps_access_token_and_account() {
    let mut s = logged_in();
    let id = s.resolve_account(AccountMode::Live, &vec![Some("5001".to_string())]).unwrap();
    assert_eq!(id, "5001");
    let r = s.apply_trade_token(None);
    assert!(matches!(r, Err(WebullError::AuthenticationError(_))));
    assert_eq!(s.access_token, Some("acc".to_string()));
    assert_eq!(s.account.as_ref().unwrap().id, "5001");
    assert!(matches!(s.authorize_trade(), Err(WebullError::TradeTokenNotAvailable)));
    assert!(s.authorize_read().is_ok());
}

#[test]
fn elevation_then_trade_is_authorized() {
    let mut s = logged_in();
    assert!(matches!(s.authorize_trade(), Err(WebullError::TradeTokenNotAvailable)));
    assert_eq!(s.apply_trade_token(Some("tt".to_string())).unwrap(), "tt");
    assert!(matches!(s.authorize_trade(), Err(WebullError::AccountNotFound)));
    s.resolve_account(AccountMode::Paper, &vec![None, Some("".to_string()), Some("77".to_string())]).unwrap();
    let a = s.authorize_trade().unwrap();
    assert_eq!(a.id, "77");
    assert_eq!(a.mode, AccountMode::Paper);
}

#[test]
fn elevation_without_login_fails() {
    let mut s = Session::new("d".to_string());
    assert!(matches!(s.apply_trade_token(Some("t".to_string())), Err(WebullError::SessionExpired)));
    assert!(s.trade_token.is_none());
}

#[test]
fn account_is_cached_and_cleared_by_login() {
    let mut s = logged_in();
    assert!(matches!(s.resolve_account(AccountMode::Live, &vec![None]), Err(WebullError::AccountNotFound)));
    s.resolve_account(AccountMode::Live, &vec![Some("1".to_string())]).unwrap();
    assert_eq!(s.resolve_account(AccountMode::Live, &vec![Some("2".to_string())]).unwrap(), "1");
    s.apply_login(reply(Some("acc2"), None)).unwrap();
    assert!(s.account.is_none());
    assert_eq!(s.resolve_account(AccountMode::Live, &vec![Some("2".to_string())]).unwrap(), "2");
}

#[test]
fn refresh_is_single_flight() {
    let mut s = logged_in();
    match s.begin_refresh().unwrap() {
        RefreshStart::Issue(t) => assert_eq!(t, "ref"),
        other => panic!("unexpected: {:?}", other),
    }
    assert!(matches!(s.begin_refresh().unwrap(), RefreshStart::AwaitInFlight));
    s.finish_refresh(reply(Some("acc3"), Some("ref3"))).unwrap();
    assert_eq!(s.access_token, Some("acc3".to_string()));
    assert!(matches!(s.begin_refresh().unwrap(), RefreshStart::Issue(_)));
    assert!(matches!(s.finish_refresh(reply(None, None)), Err(WebullError::SessionExpired)));
    assert!(!s.refresh_in_flight);
}

#[test]
fn refresh_without_token_is_expired() {
    let mut s = Session::new("d".to_string());
    assert!(matches!(s.begin_refresh(), Err(WebullError::SessionExpired)));
}

#[test]
fn logout_clears_everything_whatever_the_reply() {
    let mut s = logged_in();
    s.apply_trade_token(Some("tt".to_string())).unwrap();
    assert!(!s.apply_logout(false));
    assert!(s.access_token.is_none() && s.trade_token.is_none() && s.refresh_token.is_none());
    let mut s = logged_in();
    assert!(s.apply_logout(true));
    assert!(s.account.is_none());
    assert_eq!(s.device_id, "did123");
}

#[test]
fn access_questions_text() {
    assert_eq!(Session::access_questions("1001", "blue"), "[{\"questionId\":\"1001\", \"answer\":\"blue\"}]");
}
