use kiteconnect::connect::{raise_or_return, Answer, KiteConnect, API_ROOT};
use kiteconnect::instruments::{
    instrument_of, instruments_of, mf_instruments_of, parse_instruments, parse_mf_instruments,
};
use kiteconnect::request::{Encoding, Method, Param, Request};
use kiteconnect::types::{optional_date_time, optional_naive_date_time_from_str};

fn client() -> KiteConnect<fn()> {
    KiteConnect::new("API_KEY", "ACCESS_TOKEN")
}

fn param(name: &str, value: &str) -> Param {
    Param { name: name.to_string(), value: value.to_string() }
}

fn params(pairs: &[(&str, &str)]) -> Vec<Param> {
    pairs.iter().map(|(name, value)| param(name, value)).collect()
}

fn get(path: &str) -> Request {
    Request { method: Method::Get, path: path.to_string(), query: vec![], data: vec![] }
}

fn is_object(answer: Answer) -> bool {
    match answer {
        Answer::Accepted(body) => {
            serde_json::from_str::<serde_json::Value>(&body).unwrap().is_object()
        }
        Answer::KiteException(_) => false,
    }
}

fn accepted(request: &Request, prefix: &str) -> bool {
    assert_eq!(request.method, Method::Get);
    assert!(request.path.starts_with(prefix), "{}", request.path);
    let body = "{\"status\": \"success\", \"data\": {}}".to_string();
    is_object(raise_or_return(200, body))
}

const INSTRUMENTS: &str = "\
instrument_token,exchange_token,tradingsymbol,name,last_price,expiry,strike,tick_size,lot_size,instrument_type,segment,exchange
408065,1594,INFY,INFOSYS,1520.5,,0.0,0.05,1,EQ,NSE,NSE
5720322,22345,NIFTY15DECFUT,,78.0,2015-12-31,0.0,0.05,75,FUT,NFO-FUT,NFO
";

const MF_INSTRUMENTS: &str = "\
tradingsymbol,amc,name,purchase_allowed,redemption_allowed,minimum_purchase_amount,purchase_amount_multiplier,minimum_additional_purchase_amount,minimum_redemption_quantity,redemption_quantity_multiplier,dividend_type,scheme_type,plan,settlement_type,last_price,last_price_date
INF846K01DP8,AXISMUTUALFUND_MF,Axis Banking & PSU Debt Fund,1,1,5000.0,1.0,1000.0,0.001,0.001,growth,debt,direct,T1,1639.0711,2018-07-31
";

#[test]
fn test_build_url() {
    let kiteconnect = KiteConnect::<fn()>::new("key", "token");
    let url = kiteconnect.build_url("/my-holdings", None).unwrap();
    assert_eq!(url.as_str(), format!("{}/my-holdings", API_ROOT).as_str());

    let mut params: Vec<Param> = Vec::new();
    params.push(param("one", "1"));
    let url = kiteconnect.build_url("/my-holdings", Some(&params)).unwrap();
    assert_eq!(url.as_str(), format!("{}/my-holdings?one=1", API_ROOT).as_str());
}

#[test]
fn build_url_encodes_the_query() {
    let kiteconnect = client();
    let query = params(&[("i", "NSE:INFY"), ("i", "NSE:M&M"), ("q", "a b")]);
    let url = kiteconnect.build_url("/quote", Some(&query)).unwrap();
    assert_eq!(url, "https://api.kite.trade/quote?i=NSE%3AINFY&i=NSE%3AM%26M&q=a+b");
}

#[test]
fn build_url_normalises_the_path() {
    let kiteconnect = client();
    let url = kiteconnect.build_url("/orders/../trades", None).unwrap();
    assert_eq!(url, "https://api.kite.trade/trades");
    let url = kiteconnect.build_url("/", None).unwrap();
    assert_eq!(url, "https://api.kite.trade/");
}

#[test]
fn build_url_replaces_the_first_character() {
    let kiteconnect = client();
    let url = kiteconnect.build_url("xorders", None).unwrap();
    assert_eq!(url, "https://api.kite.trade/orders");
}

#[test]
fn build_url_with_empty_query_keeps_the_mark() {
    let kiteconnect = client();
    let url = kiteconnect.build_url("/orders", Some(&vec![])).unwrap();
    assert_eq!(url, "https://api.kite.trade/orders?");
}

#[test]
fn checksum_is_the_digest_of_key_token_and_secret() {
    let kiteconnect = KiteConnect::<fn()>::new("key", "token");
    assert_eq!(
        kiteconnect.checksum("request_token", "api_secret"),
        "d70fb4a1271f036212b10b393f3b01930c09a43cf422b9e43d6b4ab904f0dbfc"
    );
    assert_eq!(client().checksum("", "secret"), "7ce47b0ccb9c34fb25632069a452207195e473b4f8ec07c6e9581f0bd831370f");
    assert_eq!(
        KiteConnect::<fn()>::new("", "").checksum("", ""),
        "e3b0c44298fc1c149afbf4c8996fb92427ae41e4649b934ca495991b7852b855"
    );
    assert_eq!(
        KiteConnect::<fn()>::new("a", "").checksum("b", "c"),
        "ba7816bf8f01cfea414140de5dae2223b00361a396177a9cb410ff61f20015ad"
    );
}

#[test]
fn authorization_header() {
    assert_eq!(client().authorization(), "token API_KEY:ACCESS_TOKEN");
    let mut kiteconnect = client();
    kiteconnect.set_access_token("other");
    assert_eq!(kiteconnect.authorization(), "token API_KEY:other");
}

#[test]
fn only_status_200_is_accepted() {
    assert_eq!(raise_or_return(200, "{}".to_string()), Answer::Accepted("{}".to_string()));
    for status in [0u16, 199, 201, 204, 301, 400, 403, 404, 500] {
        assert_eq!(
            raise_or_return(status, "no".to_string()),
            Answer::KiteException("no".to_string())
        );
    }
}

#[test]
fn encoding_by_method() {
    assert_eq!(Method::Get.encoding(), Encoding::Nothing);
    assert_eq!(Method::Post.encoding(), Encoding::Form);
    assert_eq!(Method::Put.encoding(), Encoding::Form);
    assert_eq!(Method::Delete.encoding(), Encoding::Json);
    assert_eq!(client().holdings().encoding(), Encoding::Nothing);
    assert_eq!(client().cancel_mf_sip("1").encoding(), Encoding::Json);
}

#[test]
fn method_names() {
    assert_eq!(Method::Get.as_str(), "GET");
    assert_eq!(Method::Post.as_str(), "POST");
    assert_eq!(Method::Put.as_str(), "PUT");
    assert_eq!(Method::Delete.as_str(), "DELETE");
}

#[test]
fn session_requests() {
    let kiteconnect = KiteConnect::<fn()>::new("key", "token");
    assert_eq!(
        kiteconnect.generate_session("request_token", "api_secret"),
        Request {
            method: Method::Post,
            path: "/session/token".to_string(),
            query: vec![],
            data: params(&[
                ("api_key", "key"),
                ("request_token", "request_token"),
                ("checksum", "d70fb4a1271f036212b10b393f3b01930c09a43cf422b9e43d6b4ab904f0dbfc"),
            ]),
        }
    );
    assert_eq!(
        kiteconnect.renew_access_token("request_token", "api_secret"),
        Request {
            method: Method::Post,
            path: "/session/refresh_token".to_string(),
            query: vec![],
            data: params(&[
                ("api_key", "key"),
                ("access_token", "request_token"),
                ("checksum", "d70fb4a1271f036212b10b393f3b01930c09a43cf422b9e43d6b4ab904f0dbfc"),
            ]),
        }
    );
    assert_eq!(
        kiteconnect.invalidate_access_token("abc"),
        Request {
            method: Method::Delete,
            path: "/session/token".to_string(),
            query: vec![],
            data: params(&[("access_token", "abc")]),
        }
    );
    assert_eq!(
        kiteconnect.invalidate_refresh_token("abc"),
        Request {
            method: Method::Delete,
            path: "/session/refresh_token".to_string(),
            query: vec![],
            data: params(&[("refresh_token", "abc")]),
        }
    );
}

#[test]
fn test_margins() {
    let kiteconnect = KiteConnect::<fn()>::new("API_KEY", "ACCESS_TOKEN");
    let request = kiteconnect.margins(None);
    assert_eq!(request, get("/user/margins"));
    assert!(accepted(&request, "/user/margins"));
    let request = kiteconnect.margins(Some("commodity".to_string()));
    assert_eq!(request, get("/user/margins/commodity"));
    assert!(accepted(&request, "/user/margins/commodity"));
}

#[test]
fn test_holdings() {
    let kiteconnect = KiteConnect::<fn()>::new("API_KEY", "ACCESS_TOKEN");
    let request = kiteconnect.holdings();
    assert_eq!(request, get("/portfolio/holdings"));
    assert!(accepted(&request, "/portfolio/holdings"));
}

#[test]
fn test_positions() {
    let kiteconnect = KiteConnect::<fn()>::new("API_KEY", "ACCESS_TOKEN");
    let request = kiteconnect.positions();
    assert_eq!(request, get("/portfolio/positions"));
    assert!(accepted(&request, "/portfolio/positions"));
}

#[test]
fn test_order_trades() {
    let kiteconnect = KiteConnect::<fn()>::new("API_KEY", "ACCESS_TOKEN");
    let request = kiteconnect.order_trades("171229000724687");
    assert_eq!(request, get("/orders/171229000724687/trades"));
    assert!(accepted(&request, "/orders/171229000724687/trades"));
}

#[test]
fn test_orders() {
    let kiteconnect = KiteConnect::<fn()>::new("API_KEY", "ACCESS_TOKEN");
    let request = kiteconnect.orders();
    assert_eq!(request, get("/orders"));
    assert!(accepted(&request, "/orders"));
}

#[test]
fn test_order_history() {
    let kiteconnect = KiteConnect::<fn()>::new("API_KEY", "ACCESS_TOKEN");
    let request = kiteconnect.order_history("171229000724687");
    assert_eq!(
        request,
        Request {
            method: Method::Get,
            path: "/orders".to_string(),
            query: params(&[("order_id", "171229000724687")]),
            data: vec![],
        }
    );
    assert!(accepted(&request, "/orders"));
    let url = kiteconnect.build_url(&request.path, Some(&request.query)).unwrap();
    assert_eq!(url, "https://api.kite.trade/orders?order_id=171229000724687");
}

#[test]
fn test_trades() {
    let kiteconnect = KiteConnect::<fn()>::new("API_KEY", "ACCESS_TOKEN");
    let request = kiteconnect.trades();
    assert_eq!(request, get("/trades"));
    assert!(accepted(&request, "/trades"));
}

#[test]
fn test_mf_orders() {
    let kiteconnect = KiteConnect::<fn()>::new("API_KEY", "ACCESS_TOKEN");
    let request = kiteconnect.mf_orders(None);
    assert_eq!(request, get("/mf/orders"));
    assert!(accepted(&request, "/mf/orders"));
    let request = kiteconnect.mf_orders(Some("171229000724687"));
    assert_eq!(request, get("/mf/orders/171229000724687"));
    assert!(accepted(&request, "/mf/orders"));
}

#[test]
fn test_trigger_range() {
    let kiteconnect = KiteConnect::<fn()>::new("API_KEY", "ACCESS_TOKEN");
    let request = kiteconnect.trigger_range("BUY", vec!["NSE:INFY", "NSE:RELIANCE"]);
    assert_eq!(
        request,
        Request {
            method: Method::Get,
            path: "/instruments/trigger_range/BUY".to_string(),
            query: params(&[("i", "NSE:INFY"), ("i", "NSE:RELIANCE")]),
            data: vec![],
        }
    );
    assert!(accepted(&request, "/instruments/trigger_range"));
}

#[test]
fn test_instruments() {
    let kiteconnect = KiteConnect::<fn()>::new("API_KEY", "ACCESS_TOKEN");
    let request = kiteconnect.instruments(None);
    assert_eq!(request, get("/instruments"));
    let data = parse_instruments(INSTRUMENTS).unwrap();
    assert_eq!(data[0].instrument_token.as_str(), "408065");
}

#[test]
fn test_mf_instruments() {
    let kiteconnect = KiteConnect::<fn()>::new("API_KEY", "ACCESS_TOKEN");
    let request = kiteconnect.mf_instruments();
    assert_eq!(request, get("/mf/instruments"));
    let data = parse_mf_instruments(MF_INSTRUMENTS).unwrap();
    assert_eq!(data[0].tradingsymbol.as_str(), "INF846K01DP8");
}

#[test]
fn plain_get_requests() {
    let kiteconnect = client();
    assert_eq!(kiteconnect.profile(), get("/user/profile"));
    assert_eq!(kiteconnect.mf_holdings(), get("/mf/holdings"));
    assert_eq!(kiteconnect.mf_sips(None), get("/mf/sips"));
    assert_eq!(kiteconnect.mf_sips(Some("42")), get("/mf/sips/42"));
    assert_eq!(kiteconnect.instruments_margins("equity"), get("/margins/equity"));
    assert_eq!(kiteconnect.instruments(Some("/NSE")), get("/instruments/NSE"));
    assert_eq!(kiteconnect.instruments(Some("NSE")), get("/instrumentsNSE"));
}

#[test]
fn delete_requests_without_data() {
    let kiteconnect = client();
    let expected = Request {
        method: Method::Delete,
        path: "/mf/orders/7".to_string(),
        query: vec![],
        data: vec![],
    };
    assert_eq!(kiteconnect.cancel_mf_order("7"), expected);
    let expected = Request { path: "/mf/sips/7".to_string(), ..expected };
    assert_eq!(kiteconnect.cancel_mf_sip("7"), expected);
}

#[test]
fn quote_requests_repeat_the_parameter() {
    let kiteconnect = client();
    let expected = Request {
        method: Method::Get,
        path: "/quote".to_string(),
        query: params(&[("i", "NSE:INFY"), ("i", "BSE:SENSEX")]),
        data: vec![],
    };
    assert_eq!(kiteconnect.quote(vec!["NSE:INFY", "BSE:SENSEX"]), expected);
    let expected = Request { path: "/quote/ohlc".to_string(), ..expected };
    assert_eq!(kiteconnect.ohlc(vec!["NSE:INFY", "BSE:SENSEX"]), expected);
    let expected = Request { path: "/quote/ltp".to_string(), ..expected };
    assert_eq!(kiteconnect.ltp(vec!["NSE:INFY", "BSE:SENSEX"]), expected);
    assert_eq!(kiteconnect.ltp(vec![]), get("/quote/ltp"));
}

#[test]
fn place_order_with_all_parameters() {
    let request = client().place_order(
        "NSE",
        "INFY",
        "BUY",
        "1",
        "regular",
        Some("1500"),
        Some("CNC"),
        Some("LIMIT"),
        Some("DAY"),
        Some("0"),
        Some("1490"),
        Some("10"),
        Some("5"),
        Some("1"),
        Some("mine"),
    );
    assert_eq!(
        request,
        Request {
            method: Method::Post,
            path: "/orders/regular".to_string(),
            query: vec![],
            data: params(&[
                ("exchange", "NSE"),
                ("tradingsymbol", "INFY"),
                ("transaction_type", "BUY"),
                ("quantity", "1"),
                ("variety", "regular"),
                ("price", "1500"),
                ("product", "CNC"),
                ("order_type", "LIMIT"),
                ("validity", "DAY"),
                ("disclosed_quantity", "0"),
                ("trigger_price", "1490"),
                ("squareoff", "10"),
                ("stoploss", "5"),
                ("trailing_stoploss", "1"),
                ("tag", "mine"),
            ]),
        }
    );
}

#[test]
fn place_order_leaves_out_what_is_not_given() {
    let request = client().place_order(
        "NSE",
        "INFY",
        "SELL",
        "2",
        "amo",
        None,
        Some("MIS"),
        None,
        None,
        None,
        None,
        None,
        None,
        None,
        Some("t"),
    );
    assert_eq!(request.path, "/orders/amo");
    assert_eq!(
        request.data,
        params(&[
            ("exchange", "NSE"),
            ("tradingsymbol", "INFY"),
            ("transaction_type", "SELL"),
            ("quantity", "2"),
            ("variety", "amo"),
            ("product", "MIS"),
            ("tag", "t"),
        ])
    );
}

#[test]
fn modify_cancel_and_exit_order() {
    let kiteconnect = client();
    let request = kiteconnect.modify_order(
        "151220000000000",
        "regular",
        None,
        None,
        None,
        None,
        Some("3"),
        Some("1510"),
        None,
        None,
        None,
        Some("IOC"),
        None,
    );
    assert_eq!(
        request,
        Request {
            method: Method::Put,
            path: "/orders/regular/151220000000000".to_string(),
            query: vec![],
            data: params(&[
                ("order_id", "151220000000000"),
                ("variety", "regular"),
                ("quantity", "3"),
                ("price", "1510"),
                ("validity", "IOC"),
            ]),
        }
    );
    let cancel = kiteconnect.cancel_order("151220000000000", "bo", Some("9"));
    assert_eq!(
        cancel,
        Request {
            method: Method::Delete,
            path: "/orders/bo/151220000000000".to_string(),
            query: vec![],
            data: params(&[
                ("order_id", "151220000000000"),
                ("variety", "bo"),
                ("parent_order_id", "9"),
            ]),
        }
    );
    assert_eq!(kiteconnect.exit_order("151220000000000", "bo", Some("9")), cancel);
    assert_eq!(
        kiteconnect.exit_order("1", "co", None).data,
        params(&[("order_id", "1"), ("variety", "co")])
    );
}

#[test]
fn convert_position_request() {
    let request = client().convert_position("NSE", "INFY", "BUY", "day", "1", "MIS", "CNC");
    assert_eq!(
        request,
        Request {
            method: Method::Put,
            path: "/portfolio/positions".to_string(),
            query: vec![],
            data: params(&[
                ("exchange", "NSE"),
                ("tradingsymbol", "INFY"),
                ("transaction_type", "BUY"),
                ("position_type", "day"),
                ("quantity", "1"),
                ("old_product", "MIS"),
                ("new_product", "CNC"),
            ]),
        }
    );
}

#[test]
fn mutual_fund_requests() {
    let kiteconnect = client();
    assert_eq!(
        kiteconnect.place_mf_order("INF846K01DP8", "BUY", None, Some("5000"), None),
        Request {
            method: Method::Post,
            path: "/mf/orders".to_string(),
            query: vec![],
            data: params(&[
                ("tradingsymbol", "INF846K01DP8"),
                ("transaction_type", "BUY"),
                ("amount", "5000"),
            ]),
        }
    );
    assert_eq!(
        kiteconnect.place_mf_sip("INF846K01DP8", "1000", "12", "monthly", Some("5000"), None, Some("x")),
        Request {
            method: Method::Post,
            path: "/mf/sips".to_string(),
            query: vec![],
            data: params(&[
                ("tradingsymbol", "INF846K01DP8"),
                ("amount", "1000"),
                ("instalments", "12"),
                ("frequency", "monthly"),
                ("initial_amount", "5000"),
                ("tag", "x"),
            ]),
        }
    );
    assert_eq!(
        kiteconnect.modify_mf_sip("77", "1000", "paused", "12", "monthly", Some("5")),
        Request {
            method: Method::Post,
            path: "/mf/sips/77".to_string(),
            query: vec![],
            data: params(&[
                ("sip_id", "77"),
                ("amount", "1000"),
                ("status", "paused"),
                ("instalments", "12"),
                ("frequency", "monthly"),
                ("instalment_day", "5"),
            ]),
        }
    );
}

#[test]
fn historical_data_request() {
    let request = client().historical_data("408065", "2017-01-01", "2017-01-02", "minute", "0");
    assert_eq!(request.method, Method::Get);
    assert_eq!(request.encoding(), Encoding::Nothing);
    assert_eq!(request.path, "/instruments/historical/408065/minute");
    assert_eq!(request.query, vec![]);
    assert_eq!(
        request.data,
        params(&[
            ("instrument_token", "408065"),
            ("from", "2017-01-01"),
            ("to", "2017-01-02"),
            ("interval", "minute"),
            ("continuos", "0"),
        ])
    );
}

#[test]
fn instruments_keep_every_column() {
    let data = parse_instruments(INSTRUMENTS).unwrap();
    assert_eq!(data.len(), 2);
    let second = &data[1];
    assert_eq!(second.instrument_token, "5720322");
    assert_eq!(second.exchange_token, "22345");
    assert_eq!(second.tradingsymbol, "NIFTY15DECFUT");
    assert_eq!(second.name, "");
    assert_eq!(second.last_price, "78.0");
    assert_eq!(second.expiry, "2015-12-31");
    assert_eq!(second.strike, "0.0");
    assert_eq!(second.tick_size, "0.05");
    assert_eq!(second.lot_size, "75");
    assert_eq!(second.instrument_type, "FUT");
    assert_eq!(second.segment, "NFO-FUT");
    assert_eq!(second.exchange, "NFO");
}

#[test]
fn mf_instruments_keep_every_column() {
    let data = parse_mf_instruments(MF_INSTRUMENTS).unwrap();
    assert_eq!(data.len(), 1);
    let first = &data[0];
    assert_eq!(first.amc, "AXISMUTUALFUND_MF");
    assert_eq!(first.name, "Axis Banking & PSU Debt Fund");
    assert_eq!(first.purchase_allowed, "1");
    assert_eq!(first.redemption_allowed, "1");
    assert_eq!(first.minimum_purchase_amount, "5000.0");
    assert_eq!(first.purchase_amount_multiplier, "1.0");
    assert_eq!(first.minimum_additional_purchase_amount, "1000.0");
    assert_eq!(first.minimum_redemption_quantity, "0.001");
    assert_eq!(first.redemption_quantity_multiplier, "0.001");
    assert_eq!(first.dividend_type, "growth");
    assert_eq!(first.scheme_type, "debt");
    assert_eq!(first.plan, "direct");
    assert_eq!(first.settlement_type, "T1");
    assert_eq!(first.last_price, "1639.0711");
    assert_eq!(first.last_price_date, "2018-07-31");
}

#[test]
fn header_alone_gives_no_instruments() {
    let header = INSTRUMENTS.lines().next().unwrap();
    assert_eq!(parse_instruments(header), Some(vec![]));
    assert_eq!(parse_instruments(""), Some(vec![]));
}

#[test]
fn quoted_fields_are_unquoted() {
    let text = "a,b,c,d,e,f,g,h,i,j,k,l\n1,2,\"X, Y\",\"say \"\"hi\"\"\",5,6,7,8,9,10,11,12\n";
    let data = parse_instruments(text).unwrap();
    assert_eq!(data[0].tradingsymbol, "X, Y");
    assert_eq!(data[0].name, "say \"hi\"");
}

#[test]
fn narrow_files_give_nothing() {
    assert_eq!(parse_instruments("a,b,c\n1,2,3\n"), None);
    assert_eq!(parse_mf_instruments(INSTRUMENTS), None);
    assert!(parse_instruments(MF_INSTRUMENTS).is_some());
}

#[test]
fn lines_of_unequal_length_give_nothing() {
    let text = format!("{}1,2,3\n", INSTRUMENTS);
    assert_eq!(parse_instruments(&text), None);
}

#[test]
fn rows_by_hand() {
    let row: Vec<String> = (0..12).map(|column| format!("c{}", column)).collect();
    let instrument = instrument_of(&row);
    assert_eq!(instrument.instrument_token, "c0");
    assert_eq!(instrument.exchange, "c11");
    let short: Vec<String> = row[..11].to_vec();
    assert_eq!(instruments_of(&vec![row.clone(), short]), None);
    assert_eq!(instruments_of(&vec![row.clone(), row.clone()]).unwrap().len(), 2);
    assert_eq!(mf_instruments_of(&vec![row]), None);
    assert_eq!(mf_instruments_of(&vec![]), Some(vec![]));
}

#[test]
fn date_time_fields() {
    assert_eq!(optional_naive_date_time_from_str(None), Ok(None));
    let parsed = optional_naive_date_time_from_str(Some("2017-12-29 11:06:52".to_string()));
    let expected = chrono::NaiveDate::from_ymd_opt(2017, 12, 29)
        .unwrap()
        .and_hms_opt(11, 6, 52)
        .unwrap();
    assert_eq!(parsed, Ok(Some(expected)));
    assert!(optional_naive_date_time_from_str(Some("2017-12-29".to_string())).is_err());
    assert!(optional_naive_date_time_from_str(Some("".to_string())).is_err());
    assert!(optional_naive_date_time_from_str(Some("2017-13-29 11:06:52".to_string())).is_err());
}

#[test]
fn method_of_a_name() {
    assert_eq!(Method::parse("GET"), Some(Method::Get));
    assert_eq!(Method::parse("POST"), Some(Method::Post));
    assert_eq!(Method::parse("PUT"), Some(Method::Put));
    assert_eq!(Method::parse("DELETE"), Some(Method::Delete));
    for name in ["", "get", "PATCH", "HEAD", "GET "] {
        assert_eq!(Method::parse(name), None, "{}", name);
    }
    for method in [Method::Get, Method::Post, Method::Put, Method::Delete] {
        assert_eq!(Method::parse(method.as_str()), Some(method));
    }
}

#[test]
fn session_requests_with_a_given_checksum() {
    let kiteconnect = KiteConnect::<fn()>::new("key", "token");
    assert_eq!(
        kiteconnect.session_request("request_token", "abc"),
        Request {
            method: Method::Post,
            path: "/session/token".to_string(),
            query: vec![],
            data: params(&[("api_key", "key"), ("request_token", "request_token"), ("checksum", "abc")]),
        }
    );
    assert_eq!(
        kiteconnect.renewal_request("old", "abc"),
        Request {
            method: Method::Post,
            path: "/session/refresh_token".to_string(),
            query: vec![],
            data: params(&[("api_key", "key"), ("access_token", "old"), ("checksum", "abc")]),
        }
    );
    let checksum = kiteconnect.checksum("request_token", "api_secret");
    assert_eq!(
        kiteconnect.generate_session("request_token", "api_secret"),
        kiteconnect.session_request("request_token", &checksum)
    );
    assert_eq!(
        kiteconnect.renew_access_token("request_token", "api_secret"),
        kiteconnect.renewal_request("request_token", &checksum)
    );
}

#[test]
fn missing_date_time_is_no_error() {
    assert_eq!(optional_date_time(None), Ok(None));
    let date_time =
        chrono::NaiveDate::from_ymd_opt(2018, 1, 2).unwrap().and_hms_opt(3, 4, 5).unwrap();
    assert_eq!(optional_date_time(Some(Ok(date_time))), Ok(Some(date_time)));
    let error = chrono::NaiveDateTime::parse_from_str("x", "%Y").unwrap_err();
    assert_eq!(optional_date_time(Some(Err(error))), Err(error));
}
