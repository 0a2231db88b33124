use webull_core::endpoints::Endpoints;

#[test]
fn test_endpoints_generation() {
    let endpoints = Endpoints::new();

    let account_url = endpoints.account("12345");
    assert!(account_url.contains("12345"));
    assert!(account_url.contains("/v3/home/"));

    let quote_url = endpoints.quotes("AAPL");
    assert!(quote_url.contains("AAPL"));
    assert!(quote_url.contains("getTickerRealTime"));

    let order_url = endpoints.place_orders("67890");
    assert!(order_url.contains("67890"));
    assert!(order_url.contains("placeStockOrder"));
}

#[test]
fn endpoint_exact_addresses() {
    let e = Endpoints::default();
    assert_eq!(e.account("12345"), "https://tradeapi.webullbroker.com/api/trade/v3/home/12345");
    assert_eq!(
        e.paper_orders("77", 100),
        "https://act.webullbroker.com/webull-paper-center/api/paper/1/acc/77/order?&startTime=1970-0-1&dateType=ORDER&pageSize=100&status="
    );
    assert_eq!(
        e.news("913256135", -5, 20),
        "https://quotes-gw.webullfintech.com/api/information/news/tickerNews?tickerId=913256135&currentNewsId=-5&pageSize=20"
    );
    assert_eq!(
        e.analysis_capital_flow("1", true),
        "https://securitiesapi.webullbroker.com/api/wlas/capitalflow/ticker?tickerId=1&showHis=true"
    );
}

#[test]
fn endpoint_optional_and_chosen_parts() {
    let e = Endpoints::new();
    assert_eq!(
        e.bars("1", "m1", 10, Some(1700000000)),
        "https://quotes-gw.webullfintech.com/api/quote/charts/query?tickerIds=1&type=m1&count=10&timestamp=1700000000"
    );
    assert_eq!(
        e.bars("1", "m1", 10, None),
        "https://quotes-gw.webullfintech.com/api/quote/charts/query?tickerIds=1&type=m1&count=10"
    );
    assert!(e.active_gainers_losers("gainer", 6, "1d", 5).contains("/wlas/ranking/topGainers?regionId=6&rankType=1d&pageIndex=1&pageSize=5"));
    assert!(e.active_gainers_losers("loser", 6, "1d", 5).contains("/ranking/dropGainers?"));
    assert!(e.active_gainers_losers("other", 6, "1d", 5).contains("/ranking/topActive?"));
    assert!(e.get_security("u", 2, 6, "PRODUCT_LOGIN", 12, 1).contains("/user/risk/getPrivacyQuestion?account=u&accountType=2&regionId=6&event=PRODUCT_LOGIN&v=12"));
    assert!(e.next_security("u", 2, 6, "E", 12, 0).contains("/user/risk/nextSecurityQuestion?"));
    assert!(e.press_releases("9", Some("1,2"), 3).ends_with("/list?lastAnnouncementId=0&limit=3&typeIds=1,2&options=2"));
    assert!(e.press_releases("9", None, 3).ends_with("/list?lastAnnouncementId=0&limit=3&options=2"));
}
