//! The REST endpoint addresses of the brokerage API. Each address is the
//! base URL of one service followed by a fixed path and the caller's values.

use vstd::prelude::*;
use vstd::string::*;
use crate::text::{bool_text, int_text, push_bool, push_int, str_eq};

verus! {

/// Base URLs of the services that the client talks to.
#[derive(Debug, Clone)]
pub struct Endpoints {
    pub base_info_url: String,
    pub base_options_url: String,
    pub base_options_gw_url: String,
    pub base_paper_url: String,
    pub base_quote_url: String,
    pub base_securities_url: String,
    pub base_trade_url: String,
    pub base_user_url: String,
    pub base_userbroker_url: String,
    pub base_ustrade_url: String,
    pub base_paperfintech_url: String,
    pub base_fintech_gw_url: String,
    pub base_userfintech_url: String,
    pub base_new_trade_url: String,
    pub base_ustradebroker_url: String,
    pub base_securitiesfintech_url: String,
}

/// The path segment of a ranking list for a direction word.
pub open spec fn ranking_path(direction: Seq<char>) -> Seq<char> {
    if direction == "gainer"@ {
        "topGainers"@
    } else if direction == "loser"@ {
        "dropGainers"@
    } else {
        "topActive"@
    }
}

/// The optional timestamp parameter of a chart query.
pub open spec fn timestamp_param(timestamp: Option<i64>) -> Seq<char> {
    match timestamp {
        Some(t) => "&timestamp="@ + int_text(t as int),
        None => Seq::empty(),
    }
}

/// The optional type filter of an announcement query.
pub open spec fn type_ids_param(type_ids: Option<&str>) -> Seq<char> {
    match type_ids {
        Some(t) => "&typeIds="@ + t@,
        None => Seq::empty(),
    }
}

/// The question path of the security-question lookup.
pub open spec fn security_path(next: bool, url_type: i32) -> Seq<char> {
    if next {
        if url_type == 1 {
            "nextPrivacyQuestion"@
        } else {
            "nextSecurityQuestion"@
        }
    } else {
        if url_type == 1 {
            "getPrivacyQuestion"@
        } else {
            "getSecurityQuestion"@
        }
    }
}

impl Endpoints {
    /// Whether every base URL is the production one.
    pub open spec fn is_default(&self) -> bool {
        &&& self.base_info_url@ == "https://infoapi.webull.com/api"@
        &&& self.base_options_url@ == "https://quoteapi.webullbroker.com/api"@
        &&& self.base_options_gw_url@ == "https://quotes-gw.webullbroker.com/api"@
        &&& self.base_paper_url@ == "https://act.webullbroker.com/webull-paper-center/api"@
        &&& self.base_quote_url@ == "https://quoteapi.webullbroker.com/api"@
        &&& self.base_securities_url@ == "https://securitiesapi.webullbroker.com/api"@
        &&& self.base_trade_url@ == "https://tradeapi.webullbroker.com/api/trade"@
        &&& self.base_user_url@ == "https://userapi.webull.com/api"@
        &&& self.base_userbroker_url@ == "https://userapi.webullbroker.com/api"@
        &&& self.base_ustrade_url@ == "https://ustrade.webullfinance.com/api"@
        &&& self.base_paperfintech_url@ == "https://act.webullfintech.com/webull-paper-center/api"@
        &&& self.base_fintech_gw_url@ == "https://quotes-gw.webullfintech.com/api"@
        &&& self.base_userfintech_url@ == "https://u1suser.webullfintech.com/api"@
        &&& self.base_new_trade_url@ == "https://trade.webullfintech.com/api"@
        &&& self.base_ustradebroker_url@ == "https://ustrade.webullbroker.com/api"@
        &&& self.base_securitiesfintech_url@ == "https://securitiesapi.webullfintech.com/api"@
    }
}

impl Default for Endpoints {
    fn default() -> (r: Self)
        ensures
            r.is_default(),
    {
        Endpoints {
            base_info_url: String::from_str("https://infoapi.webull.com/api"),
            base_options_url: String::from_str("https://quoteapi.webullbroker.com/api"),
            base_options_gw_url: String::from_str("https://quotes-gw.webullbroker.com/api"),
            base_paper_url: String::from_str("https://act.webullbroker.com/webull-paper-center/api"),
            base_quote_url: String::from_str("https://quoteapi.webullbroker.com/api"),
            base_securities_url: String::from_str("https://securitiesapi.webullbroker.com/api"),
            base_trade_url: String::from_str("https://tradeapi.webullbroker.com/api/trade"),
            base_user_url: String::from_str("https://userapi.webull.com/api"),
            base_userbroker_url: String::from_str("https://userapi.webullbroker.com/api"),
            base_ustrade_url: String::from_str("https://ustrade.webullfinance.com/api"),
            base_paperfintech_url: String::from_str("https://act.webullfintech.com/webull-paper-center/api"),
            base_fintech_gw_url: String::from_str("https://quotes-gw.webullfintech.com/api"),
            base_userfintech_url: String::from_str("https://u1suser.webullfintech.com/api"),
            base_new_trade_url: String::from_str("https://trade.webullfintech.com/api"),
            base_ustradebroker_url: String::from_str("https://ustrade.webullbroker.com/api"),
            base_securitiesfintech_url: String::from_str("https://securitiesapi.webullfintech.com/api"),
        }
    }
}

impl Endpoints {
    pub fn new() -> (r: Self)
        ensures
            r.is_default(),
    {
        Self::default()
    }

    pub fn active_gainers_losers(&self, direction: &str, region_code: i32, rank_type: &str, num: i32) -> (r: String)
        ensures
            r@ == self.base_fintech_gw_url@ + "/wlas/ranking/"@ + ranking_path(direction@) + "?regionId="@
                + int_text(region_code as int) + "&rankType="@ + rank_type@ + "&pageIndex=1&pageSize="@
                + int_text(num as int),
    {
        let path: &str = if str_eq(direction, "gainer") {
            "topGainers"
        } else if str_eq(direction, "loser") {
            "dropGainers"
        } else {
            "topActive"
        };
        let mut s = self.base_fintech_gw_url.clone();
        s.append("/wlas/ranking/");
        s.append(path);
        s.append("?regionId=");
        push_int(&mut s, region_code as i64);
        s.append("&rankType=");
        s.append(rank_type);
        s.append("&pageIndex=1&pageSize=");
        push_int(&mut s, num as i64);
        s
    }

    pub fn bars(&self, stock: &str, interval: &str, count: i32, timestamp: Option<i64>) -> (r: String)
        ensures
            r@ == self.base_fintech_gw_url@ + "/quote/charts/query?tickerIds="@ + stock@ + "&type="@
                + interval@ + "&count="@ + int_text(count as int) + timestamp_param(timestamp),
    {
        let mut s = self.base_fintech_gw_url.clone();
        s.append("/quote/charts/query?tickerIds=");
        s.append(stock);
        s.append("&type=");
        s.append(interval);
        s.append("&count=");
        push_int(&mut s, count as i64);
        let ghost before = s@;
        match timestamp {
            Some(t) => {
                s.append("&timestamp=");
                push_int(&mut s, t);
                assert(s@ =~= before + timestamp_param(timestamp));
            },
            None => {
                assert(s@ =~= before + timestamp_param(timestamp));
            },
        }
        s
    }

    fn security(&self, next: bool, username: &str, account_type: i32, region_code: i32, event: &str, time: i64, url_type: i32) -> (r: String)
        ensures
            r@ == self.base_user_url@ + "/user/risk/"@ + security_path(next, url_type) + "?account="@
                + username@ + "&accountType="@ + int_text(account_type as int) + "&regionId="@
                + int_text(region_code as int) + "&event="@ + event@ + "&v="@ + int_text(time as int),
    {
        let path: &str = if next {
            if url_type == 1 {
                "nextPrivacyQuestion"
            } else {
                "nextSecurityQuestion"
            }
        } else {
            if url_type == 1 {
                "getPrivacyQuestion"
            } else {
                "getSecurityQuestion"
            }
        };
        let mut s = self.base_user_url.clone();
        s.append("/user/risk/");
        s.append(path);
        s.append("?account=");
        s.append(username);
        s.append("&accountType=");
        push_int(&mut s, account_type as i64);
        s.append("&regionId=");
        push_int(&mut s, region_code as i64);
        s.append("&event=");
        s.append(event);
        s.append("&v=");
        push_int(&mut s, time);
        s
    }

    pub fn get_security(&self, username: &str, account_type: i32, region_code: i32, event: &str, time: i64, url_type: i32) -> (r: String)
        ensures
            r@ == self.base_user_url@ + "/user/risk/"@ + security_path(false, url_type) + "?account="@
                + username@ + "&accountType="@ + int_text(account_type as int) + "&regionId="@
                + int_text(region_code as int) + "&event="@ + event@ + "&v="@ + int_text(time as int),
    {
        self.security(false, username, account_type, region_code, event, time, url_type)
    }

    pub fn next_security(&self, username: &str, account_type: i32, region_code: i32, event: &str, time: i64, url_type: i32) -> (r: String)
        ensures
            r@ == self.base_user_url@ + "/user/risk/"@ + security_path(true, url_type) + "?account="@
                + username@ + "&accountType="@ + int_text(account_type as int) + "&regionId="@
                + int_text(region_code as int) + "&event="@ + event@ + "&v="@ + int_text(time as int),
    {
        self.security(true, username, account_type, region_code, event, time, url_type)
    }

    pub fn press_releases(&self, stock: &str, type_ids: Option<&str>, num: i32) -> (r: String)
        ensures
            r@ == self.base_securitiesfintech_url@ + "/securities/announcement/"@ + stock@
                + "/list?lastAnnouncementId=0&limit="@ + int_text(num as int) + type_ids_param(type_ids)
                + "&options=2"@,
    {
        let mut s = self.base_securitiesfintech_url.clone();
        s.append("/securities/announcement/");
        s.append(stock);
        s.append("/list?lastAnnouncementId=0&limit=");
        push_int(&mut s, num as i64);
        let ghost before = s@;
        match type_ids {
            Some(t) => {
                s.append("&typeIds=");
                s.append(t);
                assert(s@ =~= before + type_ids_param(type_ids));
            },
            None => {
                assert(s@ =~= before + type_ids_param(type_ids));
            },
        }
        s.append("&options=2");
        s
    }

    pub fn account(&self, account_id: &str) -> (r: String)
        ensures
            r@ == self.base_trade_url@ + "/v3/home/"@ + account_id@,
    {
        let mut s = self.base_trade_url.clone();
        s.append("/v3/home/");
        s.append(account_id);
        s
    }

    pub fn account_id(&self) -> (r: String)
        ensures
            r@ == self.base_trade_url@ + "/account/getSecAccountList/v5"@,
    {
        let mut s = self.base_trade_url.clone();
        s.append("/account/getSecAccountList/v5");
        s
    }

    pub fn account_activities(&self, account_id: &str) -> (r: String)
        ensures
            r@ == self.base_ustrade_url@ + "/trade/v2/funds/"@ + account_id@ + "/activities"@,
    {
        let mut s = self.base_ustrade_url.clone();
        s.append("/trade/v2/funds/");
        s.append(account_id);
        s.append("/activities");
        s
    }

    pub fn add_alert(&self) -> (r: String)
        ensures
            r@ == self.base_userbroker_url@ + "/user/warning/v2/manage/overlap"@,
    {
        let mut s = self.base_userbroker_url.clone();
        s.append("/user/warning/v2/manage/overlap");
        s
    }

    pub fn analysis(&self, stock: &str) -> (r: String)
        ensures
            r@ == self.base_securities_url@ + "/securities/ticker/v5/analysis/"@ + stock@,
    {
        let mut s = self.base_securities_url.clone();
        s.append("/securities/ticker/v5/analysis/");
        s.append(stock);
        s
    }

    pub fn analysis_shortinterest(&self, stock: &str) -> (r: String)
        ensures
            r@ == self.base_securities_url@ + "/securities/stock/"@ + stock@ + "/shortInterest"@,
    {
        let mut s = self.base_securities_url.clone();
        s.append("/securities/stock/");
        s.append(stock);
        s.append("/shortInterest");
        s
    }

    pub fn analysis_institutional_holding(&self, stock: &str) -> (r: String)
        ensures
            r@ == self.base_securities_url@ + "/securities/stock/v5/"@ + stock@ + "/institutionalHolding"@,
    {
        let mut s = self.base_securities_url.clone();
        s.append("/securities/stock/v5/");
        s.append(stock);
        s.append("/institutionalHolding");
        s
    }

    pub fn analysis_etf_holding(&self, stock: &str, has_num: i32, page_size: i32) -> (r: String)
        ensures
            r@ == self.base_securities_url@ + "/securities/stock/v5/"@ + stock@ + "/belongEtf?hasNum="@ + int_text(has_num as int) + "&pageSize="@ + int_text(page_size as int),
    {
        let mut s = self.base_securities_url.clone();
        s.append("/securities/stock/v5/");
        s.append(stock);
        s.append("/belongEtf?hasNum=");
        push_int(&mut s, has_num as i64);
        s.append("&pageSize=");
        push_int(&mut s, page_size as i64);
        s
    }

    pub fn analysis_capital_flow(&self, stock: &str, show_hist: bool) -> (r: String)
        ensures
            r@ == self.base_securities_url@ + "/wlas/capitalflow/ticker?tickerId="@ + stock@ + "&showHis="@ + bool_text(show_hist),
    {
        let mut s = self.base_securities_url.clone();
        s.append("/wlas/capitalflow/ticker?tickerId=");
        s.append(stock);
        s.append("&showHis=");
        push_bool(&mut s, show_hist);
        s
    }

    pub fn bars_crypto(&self, stock: &str) -> (r: String)
        ensures
            r@ == self.base_fintech_gw_url@ + "/crypto/charts/query?tickerIds="@ + stock@,
    {
        let mut s = self.base_fintech_gw_url.clone();
        s.append("/crypto/charts/query?tickerIds=");
        s.append(stock);
        s
    }

    pub fn cancel_order(&self, account_id: &str) -> (r: String)
        ensures
            r@ == self.base_ustrade_url@ + "/trade/order/"@ + account_id@ + "/cancelStockOrder/"@,
    {
        let mut s = self.base_ustrade_url.clone();
        s.append("/trade/order/");
        s.append(account_id);
        s.append("/cancelStockOrder/");
        s
    }

    pub fn modify_otoco_orders(&self, account_id: &str) -> (r: String)
        ensures
            r@ == self.base_ustrade_url@ + "/trade/v2/corder/stock/modify/"@ + account_id@,
    {
        let mut s = self.base_ustrade_url.clone();
        s.append("/trade/v2/corder/stock/modify/");
        s.append(account_id);
        s
    }

    pub fn cancel_otoco_orders(&self, account_id: &str, combo_id: &str) -> (r: String)
        ensures
            r@ == self.base_ustrade_url@ + "/trade/v2/corder/stock/cancel/"@ + account_id@ + "/"@ + combo_id@,
    {
        let mut s = self.base_ustrade_url.clone();
        s.append("/trade/v2/corder/stock/cancel/");
        s.append(account_id);
        s.append("/");
        s.append(combo_id);
        s
    }

    pub fn check_otoco_orders(&self, account_id: &str) -> (r: String)
        ensures
            r@ == self.base_ustrade_url@ + "/trade/v2/corder/stock/check/"@ + account_id@,
    {
        let mut s = self.base_ustrade_url.clone();
        s.append("/trade/v2/corder/stock/check/");
        s.append(account_id);
        s
    }

    pub fn place_otoco_orders(&self, account_id: &str) -> (r: String)
        ensures
            r@ == self.base_ustrade_url@ + "/trade/v2/corder/stock/place/"@ + account_id@,
    {
        let mut s = self.base_ustrade_url.clone();
        s.append("/trade/v2/corder/stock/place/");
        s.append(account_id);
        s
    }

    pub fn dividends(&self, account_id: &str) -> (r: String)
        ensures
            r@ == self.base_trade_url@ + "/v2/account/"@ + account_id@ + "/dividends?direct=in"@,
    {
        let mut s = self.base_trade_url.clone();
        s.append("/v2/account/");
        s.append(account_id);
        s.append("/dividends?direct=in");
        s
    }

    pub fn fundamentals(&self, stock: &str) -> (r: String)
        ensures
            r@ == self.base_securities_url@ + "/securities/financial/index/"@ + stock@,
    {
        let mut s = self.base_securities_url.clone();
        s.append("/securities/financial/index/");
        s.append(stock);
        s
    }

    pub fn is_tradable(&self, stock: &str) -> (r: String)
        ensures
            r@ == self.base_trade_url@ + "/ticker/broker/permissionV2?tickerId="@ + stock@,
    {
        let mut s = self.base_trade_url.clone();
        s.append("/ticker/broker/permissionV2?tickerId=");
        s.append(stock);
        s
    }

    pub fn list_alerts(&self) -> (r: String)
        ensures
            r@ == self.base_userbroker_url@ + "/user/warning/v2/query/tickers"@,
    {
        let mut s = self.base_userbroker_url.clone();
        s.append("/user/warning/v2/query/tickers");
        s
    }

    pub fn login(&self) -> (r: String)
        ensures
            r@ == self.base_userfintech_url@ + "/user/v1/login/account/v2"@,
    {
        let mut s = self.base_userfintech_url.clone();
        s.append("/user/v1/login/account/v2");
        s
    }

    pub fn get_mfa(&self) -> (r: String)
        ensures
            r@ == self.base_user_url@ + "/user/v1/verificationCode/send/v2"@,
    {
        let mut s = self.base_user_url.clone();
        s.append("/user/v1/verificationCode/send/v2");
        s
    }

    pub fn check_mfa(&self) -> (r: String)
        ensures
            r@ == self.base_userfintech_url@ + "/user/v1/verificationCode/checkCode"@,
    {
        let mut s = self.base_userfintech_url.clone();
        s.append("/user/v1/verificationCode/checkCode");
        s
    }

    pub fn check_security(&self) -> (r: String)
        ensures
            r@ == self.base_user_url@ + "/user/risk/checkAnswer"@,
    {
        let mut s = self.base_user_url.clone();
        s.append("/user/risk/checkAnswer");
        s
    }

    pub fn logout(&self) -> (r: String)
        ensures
            r@ == self.base_userfintech_url@ + "/user/v1/logout"@,
    {
        let mut s = self.base_userfintech_url.clone();
        s.append("/user/v1/logout");
        s
    }

    pub fn news(&self, stock: &str, id: i64, items: i32) -> (r: String)
        ensures
            r@ == self.base_fintech_gw_url@ + "/information/news/tickerNews?tickerId="@ + stock@ + "&currentNewsId="@ + int_text(id as int) + "&pageSize="@ + int_text(items as int),
    {
        let mut s = self.base_fintech_gw_url.clone();
        s.append("/information/news/tickerNews?tickerId=");
        s.append(stock);
        s.append("&currentNewsId=");
        push_int(&mut s, id as i64);
        s.append("&pageSize=");
        push_int(&mut s, items as i64);
        s
    }

    pub fn option_quotes(&self) -> (r: String)
        ensures
            r@ == self.base_options_gw_url@ + "/quote/option/query/list"@,
    {
        let mut s = self.base_options_gw_url.clone();
        s.append("/quote/option/query/list");
        s
    }

    pub fn options(&self, stock: &str) -> (r: String)
        ensures
            r@ == self.base_options_url@ + "/quote/option/"@ + stock@ + "/list"@,
    {
        let mut s = self.base_options_url.clone();
        s.append("/quote/option/");
        s.append(stock);
        s.append("/list");
        s
    }

    pub fn options_exp_date(&self, stock: &str) -> (r: String)
        ensures
            r@ == self.base_options_url@ + "/quote/option/"@ + stock@ + "/list"@,
    {
        let mut s = self.base_options_url.clone();
        s.append("/quote/option/");
        s.append(stock);
        s.append("/list");
        s
    }

    pub fn options_exp_date_new(&self) -> (r: String)
        ensures
            r@ == self.base_fintech_gw_url@ + "/quote/option/strategy/list"@,
    {
        let mut s = self.base_fintech_gw_url.clone();
        s.append("/quote/option/strategy/list");
        s
    }

    pub fn options_bars(&self, derivative_id: &str) -> (r: String)
        ensures
            r@ == self.base_options_gw_url@ + "/quote/option/chart/query?derivativeId="@ + derivative_id@,
    {
        let mut s = self.base_options_gw_url.clone();
        s.append("/quote/option/chart/query?derivativeId=");
        s.append(derivative_id);
        s
    }

    pub fn orders(&self, account_id: &str, page_size: i32) -> (r: String)
        ensures
            r@ == self.base_ustradebroker_url@ + "/trade/v2/option/list?secAccountId="@ + account_id@ + "&startTime=1970-0-1&dateType=ORDER&pageSize="@ + int_text(page_size as int) + "&status="@,
    {
        let mut s = self.base_ustradebroker_url.clone();
        s.append("/trade/v2/option/list?secAccountId=");
        s.append(account_id);
        s.append("&startTime=1970-0-1&dateType=ORDER&pageSize=");
        push_int(&mut s, page_size as i64);
        s.append("&status=");
        s
    }

    pub fn history(&self, account_id: &str) -> (r: String)
        ensures
            r@ == self.base_ustrade_url@ + "/trading/v1/webull/order/list?secAccountId="@ + account_id@,
    {
        let mut s = self.base_ustrade_url.clone();
        s.append("/trading/v1/webull/order/list?secAccountId=");
        s.append(account_id);
        s
    }

    pub fn paper_orders(&self, paper_account_id: &str, page_size: i32) -> (r: String)
        ensures
            r@ == self.base_paper_url@ + "/paper/1/acc/"@ + paper_account_id@ + "/order?&startTime=1970-0-1&dateType=ORDER&pageSize="@ + int_text(page_size as int) + "&status="@,
    {
        let mut s = self.base_paper_url.clone();
        s.append("/paper/1/acc/");
        s.append(paper_account_id);
        s.append("/order?&startTime=1970-0-1&dateType=ORDER&pageSize=");
        push_int(&mut s, page_size as i64);
        s.append("&status=");
        s
    }

    pub fn paper_account(&self, paper_account_id: &str) -> (r: String)
        ensures
            r@ == self.base_paperfintech_url@ + "/paper/1/acc/"@ + paper_account_id@,
    {
        let mut s = self.base_paperfintech_url.clone();
        s.append("/paper/1/acc/");
        s.append(paper_account_id);
        s
    }

    pub fn paper_account_id(&self) -> (r: String)
        ensures
            r@ == self.base_paperfintech_url@ + "/myaccounts/true"@,
    {
        let mut s = self.base_paperfintech_url.clone();
        s.append("/myaccounts/true");
        s
    }

    pub fn paper_cancel_order(&self, paper_account_id: &str, order_id: &str) -> (r: String)
        ensures
            r@ == self.base_paper_url@ + "/paper/1/acc/"@ + paper_account_id@ + "/orderop/cancel/"@ + order_id@,
    {
        let mut s = self.base_paper_url.clone();
        s.append("/paper/1/acc/");
        s.append(paper_account_id);
        s.append("/orderop/cancel/");
        s.append(order_id);
        s
    }

    pub fn paper_modify_order(&self, paper_account_id: &str, order_id: &str) -> (r: String)
        ensures
            r@ == self.base_paper_url@ + "/paper/1/acc/"@ + paper_account_id@ + "/orderop/modify/"@ + order_id@,
    {
        let mut s = self.base_paper_url.clone();
        s.append("/paper/1/acc/");
        s.append(paper_account_id);
        s.append("/orderop/modify/");
        s.append(order_id);
        s
    }

    pub fn paper_place_order(&self, paper_account_id: &str, stock: &str) -> (r: String)
        ensures
            r@ == self.base_paper_url@ + "/paper/1/acc/"@ + paper_account_id@ + "/orderop/place/"@ + stock@,
    {
        let mut s = self.base_paper_url.clone();
        s.append("/paper/1/acc/");
        s.append(paper_account_id);
        s.append("/orderop/place/");
        s.append(stock);
        s
    }

    pub fn place_option_orders(&self, account_id: &str) -> (r: String)
        ensures
            r@ == self.base_ustrade_url@ + "/trade/v2/option/placeOrder/"@ + account_id@,
    {
        let mut s = self.base_ustrade_url.clone();
        s.append("/trade/v2/option/placeOrder/");
        s.append(account_id);
        s
    }

    pub fn place_orders(&self, account_id: &str) -> (r: String)
        ensures
            r@ == self.base_ustrade_url@ + "/trade/order/"@ + account_id@ + "/placeStockOrder"@,
    {
        let mut s = self.base_ustrade_url.clone();
        s.append("/trade/order/");
        s.append(account_id);
        s.append("/placeStockOrder");
        s
    }

    pub fn modify_order(&self, account_id: &str, _order_id: &str) -> (r: String)
        ensures
            r@ == self.base_ustrade_url@ + "/trading/v1/webull/order/stockOrderModify?secAccountId="@ + account_id@,
    {
        let mut s = self.base_ustrade_url.clone();
        s.append("/trading/v1/webull/order/stockOrderModify?secAccountId=");
        s.append(account_id);
        s
    }

    pub fn quotes(&self, stock: &str) -> (r: String)
        ensures
            r@ == self.base_options_gw_url@ + "/quotes/ticker/getTickerRealTime?tickerId="@ + stock@ + "&includeSecu=1&includeQuote=1"@,
    {
        let mut s = self.base_options_gw_url.clone();
        s.append("/quotes/ticker/getTickerRealTime?tickerId=");
        s.append(stock);
        s.append("&includeSecu=1&includeQuote=1");
        s
    }

    pub fn rankings(&self) -> (r: String)
        ensures
            r@ == self.base_securities_url@ + "/securities/market/v5/6/portal"@,
    {
        let mut s = self.base_securities_url.clone();
        s.append("/securities/market/v5/6/portal");
        s
    }

    pub fn refresh_login(&self, refresh_token: &str) -> (r: String)
        ensures
            r@ == self.base_user_url@ + "/passport/refreshToken?refreshToken="@ + refresh_token@,
    {
        let mut s = self.base_user_url.clone();
        s.append("/passport/refreshToken?refreshToken=");
        s.append(refresh_token);
        s
    }

    pub fn remove_alert(&self) -> (r: String)
        ensures
            r@ == self.base_userbroker_url@ + "/user/warning/v2/manage/overlap"@,
    {
        let mut s = self.base_userbroker_url.clone();
        s.append("/user/warning/v2/manage/overlap");
        s
    }

    pub fn replace_option_orders(&self, account_id: &str) -> (r: String)
        ensures
            r@ == self.base_trade_url@ + "/v2/option/replaceOrder/"@ + account_id@,
    {
        let mut s = self.base_trade_url.clone();
        s.append("/v2/option/replaceOrder/");
        s.append(account_id);
        s
    }

    pub fn stock_detail(&self, stock: &str) -> (r: String)
        ensures
            r@ == self.base_fintech_gw_url@ + "/stock/tickerRealTime/getQuote?tickerId="@ + stock@ + "&includeSecu=1&includeQuote=1&more=1"@,
    {
        let mut s = self.base_fintech_gw_url.clone();
        s.append("/stock/tickerRealTime/getQuote?tickerId=");
        s.append(stock);
        s.append("&includeSecu=1&includeQuote=1&more=1");
        s
    }

    pub fn stock_id(&self, stock: &str, region_code: i32) -> (r: String)
        ensures
            r@ == self.base_options_gw_url@ + "/search/pc/tickers?keyword="@ + stock@ + "&pageIndex=1&pageSize=20&regionId="@ + int_text(region_code as int),
    {
        let mut s = self.base_options_gw_url.clone();
        s.append("/search/pc/tickers?keyword=");
        s.append(stock);
        s.append("&pageIndex=1&pageSize=20&regionId=");
        push_int(&mut s, region_code as i64);
        s
    }

    pub fn trade_token(&self) -> (r: String)
        ensures
            r@ == self.base_new_trade_url@ + "/trading/v1/global/trade/login"@,
    {
        let mut s = self.base_new_trade_url.clone();
        s.append("/trading/v1/global/trade/login");
        s
    }

    pub fn user(&self) -> (r: String)
        ensures
            r@ == self.base_user_url@ + "/user"@,
    {
        let mut s = self.base_user_url.clone();
        s.append("/user");
        s
    }

    pub fn screener(&self) -> (r: String)
        ensures
            r@ == self.base_userbroker_url@ + "/wlas/screener/ng/query"@,
    {
        let mut s = self.base_userbroker_url.clone();
        s.append("/wlas/screener/ng/query");
        s
    }

    pub fn social_posts(&self, topic: &str, num: i32) -> (r: String)
        ensures
            r@ == self.base_user_url@ + "/social/feed/topic/"@ + topic@ + "/posts?size="@ + int_text(num as int),
    {
        let mut s = self.base_user_url.clone();
        s.append("/social/feed/topic/");
        s.append(topic);
        s.append("/posts?size=");
        push_int(&mut s, num as i64);
        s
    }

    pub fn social_home(&self, topic: &str, num: i32) -> (r: String)
        ensures
            r@ == self.base_user_url@ + "/social/feed/topic/"@ + topic@ + "/home?size="@ + int_text(num as int),
    {
        let mut s = self.base_user_url.clone();
        s.append("/social/feed/topic/");
        s.append(topic);
        s.append("/home?size=");
        push_int(&mut s, num as i64);
        s
    }

    pub fn portfolio_lists(&self) -> (r: String)
        ensures
            r@ == self.base_options_gw_url@ + "/personal/portfolio/v2/check"@,
    {
        let mut s = self.base_options_gw_url.clone();
        s.append("/personal/portfolio/v2/check");
        s
    }

    pub fn calendar_events(&self, event: &str, region_code: i32, start_date: &str, page: i32, num: i32) -> (r: String)
        ensures
            r@ == self.base_fintech_gw_url@ + "/bgw/explore/calendar/"@ + event@ + "?regionId="@ + int_text(region_code as int) + "&pageIndex="@ + int_text(page as int) + "&pageSize="@ + int_text(num as int) + "&startDate="@ + start_date@,
    {
        let mut s = self.base_fintech_gw_url.clone();
        s.append("/bgw/explore/calendar/");
        s.append(event);
        s.append("?regionId=");
        push_int(&mut s, region_code as i64);
        s.append("&pageIndex=");
        push_int(&mut s, page as i64);
        s.append("&pageSize=");
        push_int(&mut s, num as i64);
        s.append("&startDate=");
        s.append(start_date);
        s
    }

    pub fn get_all_tickers(&self, region_code: i32, user_region_code: i32) -> (r: String)
        ensures
            r@ == self.base_securitiesfintech_url@ + "/securities/market/v5/card/stockActivityPc.advanced/list?regionId="@ + int_text(region_code as int) + "&userRegionId="@ + int_text(user_region_code as int) + "&hasNum=0&pageSize=9999"@,
    {
        let mut s = self.base_securitiesfintech_url.clone();
        s.append("/securities/market/v5/card/stockActivityPc.advanced/list?regionId=");
        push_int(&mut s, region_code as i64);
        s.append("&userRegionId=");
        push_int(&mut s, user_region_code as i64);
        s.append("&hasNum=0&pageSize=9999");
        s
    }
}

} // verus!
