//! The coin-margined futures venue: its account, general and market data
//! operations, each built as the request the exchange expects.

use vstd::prelude::*;
use vstd::string::*;
use crate::client::{Client, Method, Request, is_public_request, is_signed_request};
use crate::encode::{Param, opt_string_text, params_view, push_opt_string, push_param, with_opt};
use crate::request::{HistoryQuery, history_params};

verus! {

/// Access to the coin-margined futures account.
#[derive(Clone, Debug)]
pub struct CoinFuturesAccount {
    pub client: Client,
    pub recv_window: u64,
}

impl CoinFuturesAccount {
    /// The balances of the futures account.
    pub fn account_balance(&self, timestamp: u64) -> (r: Request)
        ensures
            is_signed_request(
                r,
                Method::Get,
                "/dapi/v1/balance"@,
                Seq::empty(),
                self.recv_window,
                timestamp,
                self.client.secret_key@,
            ),
    {
        let ps: Vec<Param> = Vec::new();
        assert(params_view(ps@) =~= Seq::<(Seq<char>, Seq<char>)>::empty());
        self.client.signed_request(Method::Get, "/dapi/v1/balance", &ps, self.recv_window, timestamp)
    }
}

/// General information on the coin-margined futures venue.
#[derive(Clone, Debug)]
pub struct CoinFuturesGeneral {
    pub client: Client,
}

impl CoinFuturesGeneral {
    /// The venue's trading rules and symbols.
    pub fn exchange_info(&self) -> (r: Request)
        ensures
            is_public_request(r, Method::Get, "/dapi/v1/exchangeInfo"@, Seq::empty()),
    {
        let ps: Vec<Param> = Vec::new();
        assert(params_view(ps@) =~= Seq::<(Seq<char>, Seq<char>)>::empty());
        self.client.public_request(Method::Get, "/dapi/v1/exchangeInfo", &ps)
    }
}

/// Market data of the coin-margined futures venue.
#[derive(Clone, Debug)]
pub struct CoinFuturesMarket {
    pub client: Client,
    pub recv_window: u64,
}

/// The optional `symbol` and `pair` of a mark price query.
pub open spec fn mark_price_params(symbol: Option<Seq<char>>, pair: Option<Seq<char>>) -> Seq<(Seq<char>, Seq<char>)> {
    with_opt(with_opt(Seq::empty(), "symbol"@, symbol), "pair"@, pair)
}

impl CoinFuturesMarket {
    /// The order book of one symbol.
    pub fn get_depth(&self, symbol: &str) -> (r: Request)
        ensures
            is_public_request(r, Method::Get, "/dapi/v1/depth"@, seq![("symbol"@, symbol@)]),
    {
        let mut ps: Vec<Param> = Vec::new();
        push_param(&mut ps, "symbol", String::from_str(symbol));
        assert(params_view(ps@) =~= seq![("symbol"@, symbol@)]);
        self.client.public_request(Method::Get, "/dapi/v1/depth", &ps)
    }

    /// Past trades of one symbol, from a trade id on where one is given.
    pub fn get_historical_trades(&self, symbol: &str, from_id: Option<u64>, limit: u16, timestamp: u64) -> (r: Request)
        ensures
            is_signed_request(
                r,
                Method::Get,
                "/dapi/v1/historicalTrades"@,
                history_params(None, None, from_id, limit, symbol@, None, None),
                self.recv_window,
                timestamp,
                self.client.secret_key@,
            ),
    {
        let q = HistoryQuery {
            start_time: None,
            end_time: None,
            from_id,
            limit,
            symbol: String::from_str(symbol),
            interval: None,
            period: None,
        };
        self.client.signed_request(Method::Get, "/dapi/v1/historicalTrades", &q.to_params(), self.recv_window, timestamp)
    }

    /// Mark prices, of one symbol or one pair where given.
    pub fn get_mark_prices(&self, symbol: &Option<String>, pair: &Option<String>) -> (r: Request)
        ensures
            is_public_request(
                r,
                Method::Get,
                "/dapi/v1/premiumIndex"@,
                mark_price_params(opt_string_text(*symbol), opt_string_text(*pair)),
            ),
    {
        let mut ps: Vec<Param> = Vec::new();
        assert(params_view(ps@) =~= Seq::<(Seq<char>, Seq<char>)>::empty());
        push_opt_string(&mut ps, "symbol", symbol);
        push_opt_string(&mut ps, "pair", pair);
        self.client.public_request(Method::Get, "/dapi/v1/premiumIndex", &ps)
    }

    /// Funding rate history of one symbol.
    pub fn get_funding_rate(
        &self,
        symbol: &str,
        start_time: Option<u64>,
        end_time: Option<u64>,
        limit: u16,
        timestamp: u64,
    ) -> (r: Request)
        ensures
            is_signed_request(
                r,
                Method::Get,
                "/dapi/v1/fundingRate"@,
                history_params(start_time, end_time, None, limit, symbol@, None, None),
                self.recv_window,
                timestamp,
                self.client.secret_key@,
            ),
    {
        let q = HistoryQuery {
            start_time,
            end_time,
            from_id: None,
            limit,
            symbol: String::from_str(symbol),
            interval: None,
            period: None,
        };
        self.client.signed_request(Method::Get, "/dapi/v1/fundingRate", &q.to_params(), self.recv_window, timestamp)
    }

    /// Up to `limit` premium index klines of one symbol at an interval
    /// ("1m", "5m", ...).
    pub fn get_premium_index_klines(
        &self,
        symbol: &str,
        interval: &str,
        limit: u16,
        start_time: Option<u64>,
        end_time: Option<u64>,
    ) -> (r: Request)
        ensures
            is_public_request(
                r,
                Method::Get,
                "/dapi/v1/premiumIndexKlines"@,
                history_params(start_time, end_time, None, limit, symbol@, Some(interval@), None),
            ),
    {
        let q = HistoryQuery {
            start_time,
            end_time,
            from_id: None,
            limit,
            symbol: String::from_str(symbol),
            interval: Some(String::from_str(interval)),
            period: None,
        };
        self.client.public_request(Method::Get, "/dapi/v1/premiumIndexKlines", &q.to_params())
    }
}

} // verus!
