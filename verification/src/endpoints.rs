//! The calls of the REST API, each as the request that it makes. Sending the
//! request and reading the answer is left to the caller.

use crate::connect::{checksum_of, KiteConnect};
use crate::request::{
    join2, join3, no_params, one, optional, params_none, params_one, params_repeated, plain,
    push_optional, push_param, repeated, Method, Request, RequestModel,
};
use vstd::prelude::*;
use vstd::string::*;

verus! {

/// The path of a collection, or of one of its members if `member` names one.
pub open spec fn member_path(collection: Seq<char>, member: Option<Seq<char>>) -> Seq<char> {
    match member {
        Some(member) => collection + "/"@ + member,
        None => collection,
    }
}

/// The path of a collection, or of one of its members if `member` names one.
fn path_of_member(collection: &str, member: Option<&str>) -> (path: String)
    ensures
        path@ == member_path(
            collection@,
            match member {
                Some(member) => Some(member@),
                None => None,
            },
        ),
{
    match member {
        Some(member) => join3(collection, "/", member),
        None => String::from_str(collection),
    }
}

impl<H> KiteConnect<H> {
    /// Asks for a session with a request token and the checksum that goes
    /// with it.
    pub fn session_request(&self, request_token: &str, checksum: &str) -> (request: Request)
        ensures
            request@ == (RequestModel {
                method: Method::Post,
                path: "/session/token"@,
                query: no_params(),
                data: one("api_key"@, self.key()) + one("request_token"@, request_token@) + one(
                    "checksum"@,
                    checksum@,
                ),
            }),
    {
        let mut data = params_one("api_key", self.api_key());
        push_param(&mut data, "request_token", request_token);
        push_param(&mut data, "checksum", checksum);
        Request::with(Method::Post, String::from_str("/session/token"), params_none(), data)
    }

    /// Asks for a new access token with the old one and the checksum that
    /// goes with it.
    pub fn renewal_request(&self, access_token: &str, checksum: &str) -> (request: Request)
        ensures
            request@ == (RequestModel {
                method: Method::Post,
                path: "/session/refresh_token"@,
                query: no_params(),
                data: one("api_key"@, self.key()) + one("access_token"@, access_token@) + one(
                    "checksum"@,
                    checksum@,
                ),
            }),
    {
        let mut data = params_one("api_key", self.api_key());
        push_param(&mut data, "access_token", access_token);
        push_param(&mut data, "checksum", checksum);
        Request::with(
            Method::Post,
            String::from_str("/session/refresh_token"),
            params_none(),
            data,
        )
    }

    /// Exchanges a request token for a session.
    pub fn generate_session(&self, request_token: &str, api_secret: &str) -> (request: Request)
        ensures
            request@ == (RequestModel {
                method: Method::Post,
                path: "/session/token"@,
                query: no_params(),
                data: one("api_key"@, self.key()) + one("request_token"@, request_token@) + one(
                    "checksum"@,
                    checksum_of(self.key(), request_token@, api_secret@),
                ),
            }),
    {
        let checksum = self.checksum(request_token, api_secret);
        self.session_request(request_token, checksum.as_str())
    }

    /// Ends the session of `access_token`.
    pub fn invalidate_access_token(&self, access_token: &str) -> (request: Request)
        ensures
            request@ == (RequestModel {
                method: Method::Delete,
                path: "/session/token"@,
                query: no_params(),
                data: one("access_token"@, access_token@),
            }),
    {
        let data = params_one("access_token", access_token);
        Request::with(Method::Delete, String::from_str("/session/token"), params_none(), data)
    }

    /// Exchanges a refresh token for a new access token.
    pub fn renew_access_token(&self, access_token: &str, api_secret: &str) -> (request: Request)
        ensures
            request@ == (RequestModel {
                method: Method::Post,
                path: "/session/refresh_token"@,
                query: no_params(),
                data: one("api_key"@, self.key()) + one("access_token"@, access_token@) + one(
                    "checksum"@,
                    checksum_of(self.key(), access_token@, api_secret@),
                ),
            }),
    {
        let checksum = self.checksum(access_token, api_secret);
        self.renewal_request(access_token, checksum.as_str())
    }

    /// Makes `refresh_token` useless.
    pub fn invalidate_refresh_token(&self, refresh_token: &str) -> (request: Request)
        ensures
            request@ == (RequestModel {
                method: Method::Delete,
                path: "/session/refresh_token"@,
                query: no_params(),
                data: one("refresh_token"@, refresh_token@),
            }),
    {
        let data = params_one("refresh_token", refresh_token);
        Request::with(Method::Delete, String::from_str("/session/refresh_token"), params_none(), data)
    }

    /// Balance and margins, of one segment or of all.
    pub fn margins(&self, segment: Option<String>) -> (request: Request)
        ensures
            request@ == plain(
                Method::Get,
                member_path(
                    "/user/margins"@,
                    match segment {
                        Some(segment) => Some(segment@),
                        None => None,
                    },
                ),
            ),
    {
        let path = match &segment {
            Some(segment) => path_of_member("/user/margins", Some(segment.as_str())),
            None => path_of_member("/user/margins", None),
        };
        Request::new(Method::Get, path)
    }

    /// All holdings.
    pub fn holdings(&self) -> (request: Request)
        ensures
            request@ == plain(Method::Get, "/portfolio/holdings"@),
    {
        Request::new(Method::Get, String::from_str("/portfolio/holdings"))
    }

    /// All positions.
    pub fn positions(&self) -> (request: Request)
        ensures
            request@ == plain(Method::Get, "/portfolio/positions"@),
    {
        Request::new(Method::Get, String::from_str("/portfolio/positions"))
    }

    /// The profile of the user.
    pub fn profile(&self) -> (request: Request)
        ensures
            request@ == plain(Method::Get, "/user/profile"@),
    {
        Request::new(Method::Get, String::from_str("/user/profile"))
    }

    /// Places an order.
    pub fn place_order(
        &self,
        exchange: &str,
        tradingsymbol: &str,
        transaction_type: &str,
        quantity: &str,
        variety: &str,
        price: Option<&str>,
        product: Option<&str>,
        order_type: Option<&str>,
        validity: Option<&str>,
        disclosed_quantity: Option<&str>,
        trigger_price: Option<&str>,
        squareoff: Option<&str>,
        stoploss: Option<&str>,
        trailing_stoploss: Option<&str>,
        tag: Option<&str>,
    ) -> (request: Request)
        ensures
            request@ == (RequestModel {
                method: Method::Post,
                path: "/orders/"@ + variety@,
                query: no_params(),
                data: one("exchange"@, exchange@) + one("tradingsymbol"@, tradingsymbol@) + one(
                    "transaction_type"@,
                    transaction_type@,
                ) + one("quantity"@, quantity@) + one("variety"@, variety@) + optional(
                    "price"@,
                    price,
                ) + optional("product"@, product) + optional("order_type"@, order_type) + optional(
                    "validity"@,
                    validity,
                ) + optional("disclosed_quantity"@, disclosed_quantity) + optional(
                    "trigger_price"@,
                    trigger_price,
                ) + optional("squareoff"@, squareoff) + optional("stoploss"@, stoploss) + optional(
                    "trailing_stoploss"@,
                    trailing_stoploss,
                ) + optional("tag"@, tag),
            }),
    {
        let mut data = params_one("exchange", exchange);
        push_param(&mut data, "tradingsymbol", tradingsymbol);
        push_param(&mut data, "transaction_type", transaction_type);
        push_param(&mut data, "quantity", quantity);
        push_param(&mut data, "variety", variety);
        push_optional(&mut data, "price", price);
        push_optional(&mut data, "product", product);
        push_optional(&mut data, "order_type", order_type);
        push_optional(&mut data, "validity", validity);
        push_optional(&mut data, "disclosed_quantity", disclosed_quantity);
        push_optional(&mut data, "trigger_price", trigger_price);
        push_optional(&mut data, "squareoff", squareoff);
        push_optional(&mut data, "stoploss", stoploss);
        push_optional(&mut data, "trailing_stoploss", trailing_stoploss);
        push_optional(&mut data, "tag", tag);
        Request::with(Method::Post, join2("/orders/", variety), params_none(), data)
    }

    /// Modifies an open order.
    pub fn modify_order(
        &self,
        order_id: &str,
        variety: &str,
        parent_order_id: Option<&str>,
        exchange: Option<&str>,
        tradingsymbol: Option<&str>,
        transaction_type: Option<&str>,
        quantity: Option<&str>,
        price: Option<&str>,
        order_type: Option<&str>,
        product: Option<&str>,
        trigger_price: Option<&str>,
        validity: Option<&str>,
        disclosed_quantity: Option<&str>,
    ) -> (request: Request)
        ensures
            request@ == (RequestModel {
                method: Method::Put,
                path: "/orders/"@ + variety@ + "/"@ + order_id@,
                query: no_params(),
                data: one("order_id"@, order_id@) + one("variety"@, variety@) + optional(
                    "parent_order_id"@,
                    parent_order_id,
                ) + optional("exchange"@, exchange) + optional("tradingsymbol"@, tradingsymbol)
                    + optional("transaction_type"@, transaction_type) + optional(
                    "quantity"@,
                    quantity,
                ) + optional("price"@, price) + optional("order_type"@, order_type) + optional(
                    "product"@,
                    product,
                ) + optional("trigger_price"@, trigger_price) + optional("validity"@, validity)
                    + optional("disclosed_quantity"@, disclosed_quantity),
            }),
    {
        let mut data = params_one("order_id", order_id);
        push_param(&mut data, "variety", variety);
        push_optional(&mut data, "parent_order_id", parent_order_id);
        push_optional(&mut data, "exchange", exchange);
        push_optional(&mut data, "tradingsymbol", tradingsymbol);
        push_optional(&mut data, "transaction_type", transaction_type);
        push_optional(&mut data, "quantity", quantity);
        push_optional(&mut data, "price", price);
        push_optional(&mut data, "order_type", order_type);
        push_optional(&mut data, "product", product);
        push_optional(&mut data, "trigger_price", trigger_price);
        push_optional(&mut data, "validity", validity);
        push_optional(&mut data, "disclosed_quantity", disclosed_quantity);
        let mut path = join3("/orders/", variety, "/");
        path.append(order_id);
        Request::with(Method::Put, path, params_none(), data)
    }

    /// Cancels an order.
    pub fn cancel_order(
        &self,
        order_id: &str,
        variety: &str,
        parent_order_id: Option<&str>,
    ) -> (request: Request)
        ensures
            request@ == (RequestModel {
                method: Method::Delete,
                path: "/orders/"@ + variety@ + "/"@ + order_id@,
                query: no_params(),
                data: one("order_id"@, order_id@) + one("variety"@, variety@) + optional(
                    "parent_order_id"@,
                    parent_order_id,
                ),
            }),
    {
        let mut data = params_one("order_id", order_id);
        push_param(&mut data, "variety", variety);
        push_optional(&mut data, "parent_order_id", parent_order_id);
        let mut path = join3("/orders/", variety, "/");
        path.append(order_id);
        Request::with(Method::Delete, path, params_none(), data)
    }

    /// Exits a bracket or cover order: the same request as cancelling it.
    pub fn exit_order(
        &self,
        order_id: &str,
        variety: &str,
        parent_order_id: Option<&str>,
    ) -> (request: Request)
        ensures
            request@ == (RequestModel {
                method: Method::Delete,
                path: "/orders/"@ + variety@ + "/"@ + order_id@,
                query: no_params(),
                data: one("order_id"@, order_id@) + one("variety"@, variety@) + optional(
                    "parent_order_id"@,
                    parent_order_id,
                ),
            }),
    {
        self.cancel_order(order_id, variety, parent_order_id)
    }

    /// All orders of the day.
    pub fn orders(&self) -> (request: Request)
        ensures
            request@ == plain(Method::Get, "/orders"@),
    {
        Request::new(Method::Get, String::from_str("/orders"))
    }

    /// The history of one order.
    pub fn order_history(&self, order_id: &str) -> (request: Request)
        ensures
            request@ == (RequestModel {
                method: Method::Get,
                path: "/orders"@,
                query: one("order_id"@, order_id@),
                data: no_params(),
            }),
    {
        let query = params_one("order_id", order_id);
        Request::with(Method::Get, String::from_str("/orders"), query, params_none())
    }

    /// All trades of the day.
    pub fn trades(&self) -> (request: Request)
        ensures
            request@ == plain(Method::Get, "/trades"@),
    {
        Request::new(Method::Get, String::from_str("/trades"))
    }

    /// The trades of one order.
    pub fn order_trades(&self, order_id: &str) -> (request: Request)
        ensures
            request@ == plain(Method::Get, "/orders/"@ + order_id@ + "/trades"@),
    {
        Request::new(Method::Get, join3("/orders/", order_id, "/trades"))
    }

    /// Changes the product of an open position.
    pub fn convert_position(
        &self,
        exchange: &str,
        tradingsymbol: &str,
        transaction_type: &str,
        position_type: &str,
        quantity: &str,
        old_product: &str,
        new_product: &str,
    ) -> (request: Request)
        ensures
            request@ == (RequestModel {
                method: Method::Put,
                path: "/portfolio/positions"@,
                query: no_params(),
                data: one("exchange"@, exchange@) + one("tradingsymbol"@, tradingsymbol@) + one(
                    "transaction_type"@,
                    transaction_type@,
                ) + one("position_type"@, position_type@) + one("quantity"@, quantity@) + one(
                    "old_product"@,
                    old_product@,
                ) + one("new_product"@, new_product@),
            }),
    {
        let mut data = params_one("exchange", exchange);
        push_param(&mut data, "tradingsymbol", tradingsymbol);
        push_param(&mut data, "transaction_type", transaction_type);
        push_param(&mut data, "position_type", position_type);
        push_param(&mut data, "quantity", quantity);
        push_param(&mut data, "old_product", old_product);
        push_param(&mut data, "new_product", new_product);
        Request::with(Method::Put, String::from_str("/portfolio/positions"), params_none(), data)
    }

    /// All mutual-fund orders, or one of them.
    pub fn mf_orders(&self, order_id: Option<&str>) -> (request: Request)
        ensures
            request@ == plain(
                Method::Get,
                member_path(
                    "/mf/orders"@,
                    match order_id {
                        Some(order_id) => Some(order_id@),
                        None => None,
                    },
                ),
            ),
    {
        Request::new(Method::Get, path_of_member("/mf/orders", order_id))
    }

    /// Places a mutual-fund order.
    pub fn place_mf_order(
        &self,
        tradingsymbol: &str,
        transaction_type: &str,
        quantity: Option<&str>,
        amount: Option<&str>,
        tag: Option<&str>,
    ) -> (request: Request)
        ensures
            request@ == (RequestModel {
                method: Method::Post,
                path: "/mf/orders"@,
                query: no_params(),
                data: one("tradingsymbol"@, tradingsymbol@) + one(
                    "transaction_type"@,
                    transaction_type@,
                ) + optional("quantity"@, quantity) + optional("amount"@, amount) + optional(
                    "tag"@,
                    tag,
                ),
            }),
    {
        let mut data = params_one("tradingsymbol", tradingsymbol);
        push_param(&mut data, "transaction_type", transaction_type);
        push_optional(&mut data, "quantity", quantity);
        push_optional(&mut data, "amount", amount);
        push_optional(&mut data, "tag", tag);
        Request::with(Method::Post, String::from_str("/mf/orders"), params_none(), data)
    }

    /// Cancels a mutual-fund order.
    pub fn cancel_mf_order(&self, order_id: &str) -> (request: Request)
        ensures
            request@ == plain(Method::Delete, "/mf/orders/"@ + order_id@),
    {
        Request::new(Method::Delete, join2("/mf/orders/", order_id))
    }

    /// All mutual-fund SIPs, or one of them.
    pub fn mf_sips(&self, sip_id: Option<&str>) -> (request: Request)
        ensures
            request@ == plain(
                Method::Get,
                member_path(
                    "/mf/sips"@,
                    match sip_id {
                        Some(sip_id) => Some(sip_id@),
                        None => None,
                    },
                ),
            ),
    {
        Request::new(Method::Get, path_of_member("/mf/sips", sip_id))
    }

    /// Places a mutual-fund SIP.
    pub fn place_mf_sip(
        &self,
        tradingsymbol: &str,
        amount: &str,
        instalments: &str,
        frequency: &str,
        initial_amount: Option<&str>,
        instalment_day: Option<&str>,
        tag: Option<&str>,
    ) -> (request: Request)
        ensures
            request@ == (RequestModel {
                method: Method::Post,
                path: "/mf/sips"@,
                query: no_params(),
                data: one("tradingsymbol"@, tradingsymbol@) + one("amount"@, amount@) + one(
                    "instalments"@,
                    instalments@,
                ) + one("frequency"@, frequency@) + optional("initial_amount"@, initial_amount)
                    + optional("instalment_day"@, instalment_day) + optional("tag"@, tag),
            }),
    {
        let mut data = params_one("tradingsymbol", tradingsymbol);
        push_param(&mut data, "amount", amount);
        push_param(&mut data, "instalments", instalments);
        push_param(&mut data, "frequency", frequency);
        push_optional(&mut data, "initial_amount", initial_amount);
        push_optional(&mut data, "instalment_day", instalment_day);
        push_optional(&mut data, "tag", tag);
        Request::with(Method::Post, String::from_str("/mf/sips"), params_none(), data)
    }

    /// Modifies a mutual-fund SIP.
    pub fn modify_mf_sip(
        &self,
        sip_id: &str,
        amount: &str,
        status: &str,
        instalments: &str,
        frequency: &str,
        instalment_day: Option<&str>,
    ) -> (request: Request)
        ensures
            request@ == (RequestModel {
                method: Method::Post,
                path: "/mf/sips/"@ + sip_id@,
                query: no_params(),
                data: one("sip_id"@, sip_id@) + one("amount"@, amount@) + one("status"@, status@)
                    + one("instalments"@, instalments@) + one("frequency"@, frequency@) + optional(
                    "instalment_day"@,
                    instalment_day,
                ),
            }),
    {
        let mut data = params_one("sip_id", sip_id);
        push_param(&mut data, "amount", amount);
        push_param(&mut data, "status", status);
        push_param(&mut data, "instalments", instalments);
        push_param(&mut data, "frequency", frequency);
        push_optional(&mut data, "instalment_day", instalment_day);
        Request::with(Method::Post, join2("/mf/sips/", sip_id), params_none(), data)
    }

    /// Cancels a mutual-fund SIP.
    pub fn cancel_mf_sip(&self, sip_id: &str) -> (request: Request)
        ensures
            request@ == plain(Method::Delete, "/mf/sips/"@ + sip_id@),
    {
        Request::new(Method::Delete, join2("/mf/sips/", sip_id))
    }

    /// All mutual-fund holdings.
    pub fn mf_holdings(&self) -> (request: Request)
        ensures
            request@ == plain(Method::Get, "/mf/holdings"@),
    {
        Request::new(Method::Get, String::from_str("/mf/holdings"))
    }

    /// The master file of mutual-fund instruments.
    pub fn mf_instruments(&self) -> (request: Request)
        ensures
            request@ == plain(Method::Get, "/mf/instruments"@),
    {
        Request::new(Method::Get, String::from_str("/mf/instruments"))
    }

    /// The master file of instruments, of one exchange or of all. The name of
    /// the exchange follows the path as it is given: it brings its own slash.
    pub fn instruments(&self, exchange: Option<&str>) -> (request: Request)
        ensures
            request@ == plain(
                Method::Get,
                match exchange {
                    Some(exchange) => "/instruments"@ + exchange@,
                    None => "/instruments"@,
                },
            ),
    {
        let path = match exchange {
            Some(exchange) => join2("/instruments", exchange),
            None => String::from_str("/instruments"),
        };
        Request::new(Method::Get, path)
    }

    /// Full quotes of `instruments`.
    pub fn quote(&self, instruments: Vec<&str>) -> (request: Request)
        ensures
            request@ == (RequestModel {
                method: Method::Get,
                path: "/quote"@,
                query: repeated("i"@, instruments@),
                data: no_params(),
            }),
    {
        let query = params_repeated("i", &instruments);
        Request::with(Method::Get, String::from_str("/quote"), query, params_none())
    }

    /// Open, high, low and close of `instruments`.
    pub fn ohlc(&self, instruments: Vec<&str>) -> (request: Request)
        ensures
            request@ == (RequestModel {
                method: Method::Get,
                path: "/quote/ohlc"@,
                query: repeated("i"@, instruments@),
                data: no_params(),
            }),
    {
        let query = params_repeated("i", &instruments);
        Request::with(Method::Get, String::from_str("/quote/ohlc"), query, params_none())
    }

    /// Last prices of `instruments`.
    pub fn ltp(&self, instruments: Vec<&str>) -> (request: Request)
        ensures
            request@ == (RequestModel {
                method: Method::Get,
                path: "/quote/ltp"@,
                query: repeated("i"@, instruments@),
                data: no_params(),
            }),
    {
        let query = params_repeated("i", &instruments);
        Request::with(Method::Get, String::from_str("/quote/ltp"), query, params_none())
    }

    /// The margins of one segment.
    pub fn instruments_margins(&self, segment: &str) -> (request: Request)
        ensures
            request@ == plain(Method::Get, "/margins/"@ + segment@),
    {
        Request::new(Method::Get, join2("/margins/", segment))
    }

    /// Candles of an instrument. The request is a `GET`, so that its data,
    /// range and all, is not sent: only the path tells the server what is
    /// asked.
    pub fn historical_data(
        &self,
        instrument_token: &str,
        from_date: &str,
        to_date: &str,
        interval: &str,
        continuos: &str,
    ) -> (request: Request)
        ensures
            request@ == (RequestModel {
                method: Method::Get,
                path: "/instruments/historical/"@ + instrument_token@ + "/"@ + interval@,
                query: no_params(),
                data: one("instrument_token"@, instrument_token@) + one("from"@, from_date@) + one(
                    "to"@,
                    to_date@,
                ) + one("interval"@, interval@) + one("continuos"@, continuos@),
            }),
    {
        let mut data = params_one("instrument_token", instrument_token);
        push_param(&mut data, "from", from_date);
        push_param(&mut data, "to", to_date);
        push_param(&mut data, "interval", interval);
        push_param(&mut data, "continuos", continuos);
        let mut path = join3("/instruments/historical/", instrument_token, "/");
        path.append(interval);
        Request::with(Method::Get, path, params_none(), data)
    }

    /// The trigger range of `instruments` for one side of the market.
    pub fn trigger_range(&self, transaction_type: &str, instruments: Vec<&str>) -> (request:
        Request)
        ensures
            request@ == (RequestModel {
                method: Method::Get,
                path: "/instruments/trigger_range/"@ + transaction_type@,
                query: repeated("i"@, instruments@),
                data: no_params(),
            }),
    {
        let query = params_repeated("i", &instruments);
        Request::with(
            Method::Get,
            join2("/instruments/trigger_range/", transaction_type),
            query,
            params_none(),
        )
    }
}

} // verus!
