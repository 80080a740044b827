//! The spot account's operations, each built as the request the exchange
//! expects. Orders are checked before they are signed; a request that fails
//! the check is never built, so nothing is sent for it.

use vstd::prelude::*;
use vstd::string::*;
use crate::client::{Client, Method, Request, is_signed_request, pick_recv_window, recv_window_or};
use crate::encode::{Param, params_view, push_param};
use crate::model::Error;
use crate::request::{
    CancelReplaceRequest, OrderCancellation, OrderRequest, OrderStatusRequest, OrdersQuery,
    iceberg_msg, iceberg_rule_holds,
};
use crate::sign::{params_head, signing_payload};
use crate::text::dec_text;

verus! {

/// A receive window above 60000 is passed on as it is: whether an order
/// passes the check does not depend on it, and the request is signed with
/// that very window, which the payload carries in decimal.
pub proof fn lemma_large_recv_window_kept(o: OrderRequest, default: u64, params: Seq<char>, timestamp: nat)
    requires
        o.recv_window matches Some(w) && w > 60000,
    ensures
        o.is_valid() == iceberg_rule_holds(o.iceberg_qty, o.time_in_force),
        recv_window_or(o.recv_window, default) == o.recv_window->Some_0,
        signing_payload(params, recv_window_or(o.recv_window, default) as nat, timestamp)
            == params_head(params) + "recvWindow="@ + dec_text(o.recv_window->Some_0 as nat)
            + "&timestamp="@ + dec_text(timestamp),
{
}

/// The single parameter `symbol`.
pub open spec fn symbol_params(symbol: Seq<char>) -> Seq<(Seq<char>, Seq<char>)> {
    seq![("symbol"@, symbol)]
}

fn symbol_param(symbol: &str) -> (r: Vec<Param>)
    ensures
        params_view(r@) == symbol_params(symbol@),
{
    let mut ps: Vec<Param> = Vec::new();
    push_param(&mut ps, "symbol", String::from_str(symbol));
    assert(params_view(ps@) =~= symbol_params(symbol@));
    ps
}

fn no_params() -> (r: Vec<Param>)
    ensures
        params_view(r@) == Seq::<(Seq<char>, Seq<char>)>::empty(),
{
    let ps: Vec<Param> = Vec::new();
    assert(params_view(ps@) =~= Seq::<(Seq<char>, Seq<char>)>::empty());
    ps
}

/// Access to the spot account. `recv_window` is the receive window of the
/// requests that do not carry their own.
#[derive(Clone, Debug)]
pub struct Account {
    pub client: Client,
    pub recv_window: u64,
}

impl Account {
    /// Whether `r` is the request signed with this account's secret.
    pub open spec fn signs(
        &self,
        r: Request,
        method: Method,
        path: Seq<char>,
        params: Seq<(Seq<char>, Seq<char>)>,
        recv_window: u64,
        timestamp: u64,
    ) -> bool {
        is_signed_request(r, method, path, params, recv_window, timestamp, self.client.secret_key@)
    }

    /// General account information.
    pub fn get_account(&self, timestamp: u64) -> (r: Request)
        ensures
            self.signs(r, Method::Get, "/api/v3/account"@, Seq::empty(), self.recv_window, timestamp),
    {
        self.client.signed_request(Method::Get, "/api/v3/account", &no_params(), self.recv_window, timestamp)
    }

    /// The currently open orders on one symbol.
    pub fn get_open_orders(&self, symbol: &str, timestamp: u64) -> (r: Request)
        ensures
            self.signs(r, Method::Get, "/api/v3/openOrders"@, symbol_params(symbol@), self.recv_window, timestamp),
    {
        self.client.signed_request(Method::Get, "/api/v3/openOrders", &symbol_param(symbol), self.recv_window, timestamp)
    }

    /// All orders of the account on one symbol.
    pub fn get_all_orders(&self, query: &OrdersQuery, timestamp: u64) -> (r: Request)
        ensures
            self.signs(
                r,
                Method::Get,
                "/api/v3/allOrders"@,
                query.params(),
                recv_window_or(query.recv_window, self.recv_window),
                timestamp,
            ),
    {
        let recv_window = pick_recv_window(query.recv_window, self.recv_window);
        self.client.signed_request(Method::Get, "/api/v3/allOrders", &query.to_params(), recv_window, timestamp)
    }

    /// The currently open orders on every symbol.
    pub fn get_all_open_orders(&self, timestamp: u64) -> (r: Request)
        ensures
            self.signs(r, Method::Get, "/api/v3/openOrders"@, Seq::empty(), self.recv_window, timestamp),
    {
        self.client.signed_request(Method::Get, "/api/v3/openOrders", &no_params(), self.recv_window, timestamp)
    }

    /// Cancels every open order on one symbol.
    pub fn cancel_all_open_orders(&self, symbol: &str, timestamp: u64) -> (r: Request)
        ensures
            self.signs(r, Method::Delete, "/api/v3/openOrders"@, symbol_params(symbol@), self.recv_window, timestamp),
    {
        self.client.signed_request(Method::Delete, "/api/v3/openOrders", &symbol_param(symbol), self.recv_window, timestamp)
    }

    /// The state of one order.
    pub fn order_status(&self, osr: &OrderStatusRequest, timestamp: u64) -> (r: Request)
        ensures
            self.signs(
                r,
                Method::Get,
                "/api/v3/order"@,
                osr.params(),
                recv_window_or(osr.recv_window, self.recv_window),
                timestamp,
            ),
    {
        let recv_window = pick_recv_window(osr.recv_window, self.recv_window);
        self.client.signed_request(Method::Get, "/api/v3/order", &osr.to_params(), recv_window, timestamp)
    }

    /// The state of one order, asked of the test endpoint.
    pub fn test_order_status(&self, osr: &OrderStatusRequest, timestamp: u64) -> (r: Request)
        ensures
            self.signs(
                r,
                Method::Get,
                "/api/v3/order/test"@,
                osr.params(),
                recv_window_or(osr.recv_window, self.recv_window),
                timestamp,
            ),
    {
        let recv_window = pick_recv_window(osr.recv_window, self.recv_window);
        self.client.signed_request(Method::Get, "/api/v3/order/test", &osr.to_params(), recv_window, timestamp)
    }

    /// Places an order, once it has passed the check.
    pub fn place_order(&self, order: &OrderRequest, timestamp: u64) -> (r: Result<Request, Error>)
        ensures
            r is Ok <==> order.is_valid(),
            r matches Ok(req) ==> self.signs(
                req,
                Method::Post,
                "/api/v3/order"@,
                order.params(),
                recv_window_or(order.recv_window, self.recv_window),
                timestamp,
            ),
            r matches Err(e) ==> (e matches Error::InvalidOrder { msg } && msg@ == iceberg_msg()),
    {
        order.valid()?;
        let recv_window = pick_recv_window(order.recv_window, self.recv_window);
        Ok(self.client.signed_request(Method::Post, "/api/v3/order", &order.to_params(), recv_window, timestamp))
    }

    /// Places an order on the test endpoint, which checks it but does not
    /// match it; the local check is made first all the same.
    pub fn place_test_order(&self, order: &OrderRequest, timestamp: u64) -> (r: Result<Request, Error>)
        ensures
            r is Ok <==> order.is_valid(),
            r matches Ok(req) ==> self.signs(
                req,
                Method::Post,
                "/api/v3/order/test"@,
                order.params(),
                recv_window_or(order.recv_window, self.recv_window),
                timestamp,
            ),
            r matches Err(e) ==> (e matches Error::InvalidOrder { msg } && msg@ == iceberg_msg()),
    {
        order.valid()?;
        let recv_window = pick_recv_window(order.recv_window, self.recv_window);
        Ok(self.client.signed_request(Method::Post, "/api/v3/order/test", &order.to_params(), recv_window, timestamp))
    }

    /// Cancels an order.
    pub fn cancel_order(&self, o: &OrderCancellation, timestamp: u64) -> (r: Request)
        ensures
            self.signs(
                r,
                Method::Delete,
                "/api/v3/order"@,
                o.params(),
                recv_window_or(o.recv_window, self.recv_window),
                timestamp,
            ),
    {
        let recv_window = pick_recv_window(o.recv_window, self.recv_window);
        self.client.signed_request(Method::Delete, "/api/v3/order", &o.to_params(), recv_window, timestamp)
    }

    /// Cancels an order and places a new one, once the new one has passed the check.
    pub fn cancel_replace_order(&self, order: &CancelReplaceRequest, timestamp: u64) -> (r: Result<Request, Error>)
        ensures
            r is Ok <==> order.is_valid(),
            r matches Ok(req) ==> self.signs(
                req,
                Method::Post,
                "/api/v3/order/cancelReplace"@,
                order.params(),
                recv_window_or(order.recv_window, self.recv_window),
                timestamp,
            ),
            r matches Err(e) ==> (e matches Error::InvalidOrder { msg } && msg@ == iceberg_msg()),
    {
        order.valid()?;
        let recv_window = pick_recv_window(order.recv_window, self.recv_window);
        Ok(
            self.client.signed_request(
                Method::Post,
                "/api/v3/order/cancelReplace",
                &order.to_params(),
                recv_window,
                timestamp,
            ),
        )
    }

    /// Cancels an order on the test endpoint.
    pub fn test_cancel_order(&self, o: &OrderCancellation, timestamp: u64) -> (r: Request)
        ensures
            self.signs(
                r,
                Method::Delete,
                "/api/v3/order/test"@,
                o.params(),
                recv_window_or(o.recv_window, self.recv_window),
                timestamp,
            ),
    {
        let recv_window = pick_recv_window(o.recv_window, self.recv_window);
        self.client.signed_request(Method::Delete, "/api/v3/order/test", &o.to_params(), recv_window, timestamp)
    }

    /// The account's trades on one symbol.
    pub fn trade_history(&self, symbol: &str, timestamp: u64) -> (r: Request)
        ensures
            self.signs(r, Method::Get, "/api/v3/myTrades"@, symbol_params(symbol@), self.recv_window, timestamp),
    {
        self.client.signed_request(Method::Get, "/api/v3/myTrades", &symbol_param(symbol), self.recv_window, timestamp)
    }
}

} // verus!
