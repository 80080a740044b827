//! The request structures, the parameters each one is encoded to, and the
//! checks made on them before they are signed.

use vstd::prelude::*;
use crate::encode::{
    Param, query_text, opt_decimal_text, opt_string_text, opt_u64_text, params_view, push_opt_decimal,
    push_opt_string, push_opt_u64, push_param, with_opt,
};
use crate::model::{CancelReplaceMode, Error, OrderResponse, OrderSide, OrderType, TimeInForce};
use crate::text::{Decimal, dec_text, u64_text};

verus! {

/// The text of an optional time in force.
pub open spec fn opt_tif_text(v: Option<TimeInForce>) -> Option<Seq<char>> {
    match v {
        Some(t) => Some(t.wire()),
        None => None,
    }
}

/// The text of an optional response type.
pub open spec fn opt_resp_text(v: Option<OrderResponse>) -> Option<Seq<char>> {
    match v {
        Some(t) => Some(t.wire()),
        None => None,
    }
}

fn push_opt_tif(ps: &mut Vec<Param>, name: &str, v: Option<TimeInForce>)
    ensures
        params_view(final(ps)@) == with_opt(params_view(old(ps)@), name@, opt_tif_text(v)),
{
    match v {
        Some(t) => push_param(ps, name, String::from_str(t.as_str())),
        None => {},
    }
}

fn push_opt_resp(ps: &mut Vec<Param>, name: &str, v: Option<OrderResponse>)
    ensures
        params_view(final(ps)@) == with_opt(params_view(old(ps)@), name@, opt_resp_text(v)),
{
    match v {
        Some(t) => push_param(ps, name, String::from_str(t.as_str())),
        None => {},
    }
}

/// The rule on iceberg orders: where an iceberg quantity is set, the time in
/// force must be good-till-cancelled.
pub open spec fn iceberg_rule_holds(iceberg_qty: Option<Decimal>, time_in_force: Option<TimeInForce>) -> bool {
    iceberg_qty is Some ==> time_in_force == Some(TimeInForce::GTC)
}

/// The message of the error for an iceberg order that is not good-till-cancelled.
pub open spec fn iceberg_msg() -> Seq<char> {
    "Time in force has to be GTC for iceberg orders"@
}

/// Checks the iceberg rule, shared by every request that places an order.
pub fn check_iceberg(iceberg_qty: Option<Decimal>, time_in_force: Option<TimeInForce>) -> (r: Result<(), Error>)
    ensures
        r is Ok <==> iceberg_rule_holds(iceberg_qty, time_in_force),
        r matches Err(e) ==> (e matches Error::InvalidOrder { msg } && msg@ == iceberg_msg()),
{
    let gtc = match time_in_force {
        Some(TimeInForce::GTC) => true,
        _ => false,
    };
    if iceberg_qty.is_some() && !gtc {
        return Err(Error::InvalidOrder { msg: String::from_str("Time in force has to be GTC for iceberg orders") });
    }
    Ok(())
}

/// A new order.
#[derive(Clone, Debug)]
pub struct OrderRequest {
    pub symbol: String,
    pub side: OrderSide,
    pub order_type: OrderType,
    pub time_in_force: Option<TimeInForce>,
    pub quantity: Option<Decimal>,
    pub quote_order_qty: Option<Decimal>,
    pub price: Option<Decimal>,
    /// A unique id for the order, generated by the exchange if not sent.
    pub new_client_order_id: Option<String>,
    /// Used with stop loss, stop loss limit, take profit and take profit limit orders.
    pub stop_price: Option<Decimal>,
    /// Used with limit, stop loss limit and take profit limit orders to make an iceberg order.
    pub iceberg_qty: Option<Decimal>,
    pub new_order_resp_type: Option<OrderResponse>,
    /// Overrides the account's receive window; the exchange refuses more than 60000.
    pub recv_window: Option<u64>,
}

impl OrderRequest {
    /// The parameters of the order, in declaration order, absent fields left out.
    pub open spec fn params(&self) -> Seq<(Seq<char>, Seq<char>)> {
        let p = seq![("symbol"@, self.symbol@), ("side"@, self.side.wire()), ("type"@, self.order_type.wire())];
        let p = with_opt(p, "timeInForce"@, opt_tif_text(self.time_in_force));
        let p = with_opt(p, "quantity"@, opt_decimal_text(self.quantity));
        let p = with_opt(p, "quoteOrderQty"@, opt_decimal_text(self.quote_order_qty));
        let p = with_opt(p, "price"@, opt_decimal_text(self.price));
        let p = with_opt(p, "newClientOrderId"@, opt_string_text(self.new_client_order_id));
        let p = with_opt(p, "stopPrice"@, opt_decimal_text(self.stop_price));
        let p = with_opt(p, "icebergQty"@, opt_decimal_text(self.iceberg_qty));
        with_opt(p, "newOrderRespType"@, opt_resp_text(self.new_order_resp_type))
    }

    pub open spec fn is_valid(&self) -> bool {
        iceberg_rule_holds(self.iceberg_qty, self.time_in_force)
    }

    /// Checks the order against the rules that the exchange would otherwise refuse it on.
    pub fn valid(&self) -> (r: Result<(), Error>)
        ensures
            r is Ok <==> self.is_valid(),
            r matches Err(e) ==> (e matches Error::InvalidOrder { msg } && msg@ == iceberg_msg()),
    {
        check_iceberg(self.iceberg_qty, self.time_in_force)
    }

    pub fn to_params(&self) -> (r: Vec<Param>)
        ensures
            params_view(r@) == self.params(),
    {
        let mut ps: Vec<Param> = Vec::new();
        push_param(&mut ps, "symbol", self.symbol.clone());
        push_param(&mut ps, "side", String::from_str(self.side.as_str()));
        push_param(&mut ps, "type", String::from_str(self.order_type.as_str()));
        assert(params_view(ps@) =~= seq![("symbol"@, self.symbol@), ("side"@, self.side.wire()), ("type"@, self.order_type.wire())]);
        push_opt_tif(&mut ps, "timeInForce", self.time_in_force);
        push_opt_decimal(&mut ps, "quantity", self.quantity);
        push_opt_decimal(&mut ps, "quoteOrderQty", self.quote_order_qty);
        push_opt_decimal(&mut ps, "price", self.price);
        push_opt_string(&mut ps, "newClientOrderId", &self.new_client_order_id);
        push_opt_decimal(&mut ps, "stopPrice", self.stop_price);
        push_opt_decimal(&mut ps, "icebergQty", self.iceberg_qty);
        push_opt_resp(&mut ps, "newOrderRespType", self.new_order_resp_type);
        ps
    }
}


/// Orders with the same values in their present fields encode to the same
/// parameters, hence to the same query, however often they are encoded; the
/// receive window is not among them, as it travels apart.
pub proof fn lemma_order_encoding_deterministic(a: OrderRequest, b: OrderRequest)
    requires
        a.symbol@ == b.symbol@,
        a.side == b.side,
        a.order_type == b.order_type,
        a.time_in_force == b.time_in_force,
        a.quantity == b.quantity,
        a.quote_order_qty == b.quote_order_qty,
        a.price == b.price,
        opt_string_text(a.new_client_order_id) == opt_string_text(b.new_client_order_id),
        a.stop_price == b.stop_price,
        a.iceberg_qty == b.iceberg_qty,
        a.new_order_resp_type == b.new_order_resp_type,
    ensures
        a.params() == b.params(),
        query_text(a.params()) == query_text(b.params()),
{
}

/// An iceberg order passes the check exactly when its time in force is
/// good-till-cancelled; the same holds of a cancel-replace.
pub proof fn lemma_iceberg_needs_gtc(o: OrderRequest, c: CancelReplaceRequest)
    ensures
        o.iceberg_qty is Some ==> (o.is_valid() <==> o.time_in_force == Some(TimeInForce::GTC)),
        c.iceberg_qty is Some ==> (c.is_valid() <==> c.time_in_force == Some(TimeInForce::GTC)),
{
}

/// Cancels an active order, named by the exchange's id or by the client's.
#[derive(Clone, Debug)]
pub struct OrderCancellation {
    pub symbol: String,
    pub order_id: Option<u64>,
    pub orig_client_order_id: Option<String>,
    /// Identifies this cancellation; generated by the exchange if not sent.
    pub new_client_order_id: Option<String>,
    /// Overrides the account's receive window; the exchange refuses more than 60000.
    pub recv_window: Option<u64>,
}

impl OrderCancellation {
    pub open spec fn params(&self) -> Seq<(Seq<char>, Seq<char>)> {
        let p = seq![("symbol"@, self.symbol@)];
        let p = with_opt(p, "orderId"@, opt_u64_text(self.order_id));
        let p = with_opt(p, "origClientOrderId"@, opt_string_text(self.orig_client_order_id));
        with_opt(p, "newClientOrderId"@, opt_string_text(self.new_client_order_id))
    }

    pub fn to_params(&self) -> (r: Vec<Param>)
        ensures
            params_view(r@) == self.params(),
    {
        let mut ps: Vec<Param> = Vec::new();
        push_param(&mut ps, "symbol", self.symbol.clone());
        assert(params_view(ps@) =~= seq![("symbol"@, self.symbol@)]);
        push_opt_u64(&mut ps, "orderId", self.order_id);
        push_opt_string(&mut ps, "origClientOrderId", &self.orig_client_order_id);
        push_opt_string(&mut ps, "newClientOrderId", &self.new_client_order_id);
        ps
    }
}

/// Cancels an existing order and places a new one on the same symbol.
#[derive(Clone, Debug)]
pub struct CancelReplaceRequest {
    pub symbol: String,
    pub side: OrderSide,
    pub order_type: OrderType,
    pub cancel_replace_mode: CancelReplaceMode,
    pub time_in_force: Option<TimeInForce>,
    pub quantity: Option<Decimal>,
    pub quote_order_qty: Option<Decimal>,
    pub price: Option<Decimal>,
    pub cancel_new_client_order_id: Option<String>,
    pub cancel_orig_client_order_id: Option<String>,
    pub cancel_order_id: Option<u64>,
    pub new_client_order_id: Option<String>,
    pub stop_price: Option<Decimal>,
    pub iceberg_qty: Option<Decimal>,
    pub new_order_resp_type: Option<OrderResponse>,
    /// Overrides the account's receive window; the exchange refuses more than 60000.
    pub recv_window: Option<u64>,
}

impl CancelReplaceRequest {
    pub open spec fn params(&self) -> Seq<(Seq<char>, Seq<char>)> {
        let p = seq![
            ("symbol"@, self.symbol@),
            ("side"@, self.side.wire()),
            ("type"@, self.order_type.wire()),
            ("cancelReplaceMode"@, self.cancel_replace_mode.wire()),
        ];
        let p = with_opt(p, "timeInForce"@, opt_tif_text(self.time_in_force));
        let p = with_opt(p, "quantity"@, opt_decimal_text(self.quantity));
        let p = with_opt(p, "quoteOrderQty"@, opt_decimal_text(self.quote_order_qty));
        let p = with_opt(p, "price"@, opt_decimal_text(self.price));
        let p = with_opt(p, "cancelNewClientOrderId"@, opt_string_text(self.cancel_new_client_order_id));
        let p = with_opt(p, "cancelOrigClientOrderId"@, opt_string_text(self.cancel_orig_client_order_id));
        let p = with_opt(p, "cancelOrderId"@, opt_u64_text(self.cancel_order_id));
        let p = with_opt(p, "newClientOrderId"@, opt_string_text(self.new_client_order_id));
        let p = with_opt(p, "stopPrice"@, opt_decimal_text(self.stop_price));
        let p = with_opt(p, "icebergQty"@, opt_decimal_text(self.iceberg_qty));
        with_opt(p, "newOrderRespType"@, opt_resp_text(self.new_order_resp_type))
    }

    pub open spec fn is_valid(&self) -> bool {
        iceberg_rule_holds(self.iceberg_qty, self.time_in_force)
    }

    /// Checks the request against the rules that the exchange would otherwise refuse it on.
    pub fn valid(&self) -> (r: Result<(), Error>)
        ensures
            r is Ok <==> self.is_valid(),
            r matches Err(e) ==> (e matches Error::InvalidOrder { msg } && msg@ == iceberg_msg()),
    {
        check_iceberg(self.iceberg_qty, self.time_in_force)
    }

    pub fn to_params(&self) -> (r: Vec<Param>)
        ensures
            params_view(r@) == self.params(),
    {
        let mut ps: Vec<Param> = Vec::new();
        push_param(&mut ps, "symbol", self.symbol.clone());
        push_param(&mut ps, "side", String::from_str(self.side.as_str()));
        push_param(&mut ps, "type", String::from_str(self.order_type.as_str()));
        push_param(&mut ps, "cancelReplaceMode", String::from_str(self.cancel_replace_mode.as_str()));
        assert(params_view(ps@) =~= seq![
            ("symbol"@, self.symbol@),
            ("side"@, self.side.wire()),
            ("type"@, self.order_type.wire()),
            ("cancelReplaceMode"@, self.cancel_replace_mode.wire()),
        ]);
        push_opt_tif(&mut ps, "timeInForce", self.time_in_force);
        push_opt_decimal(&mut ps, "quantity", self.quantity);
        push_opt_decimal(&mut ps, "quoteOrderQty", self.quote_order_qty);
        push_opt_decimal(&mut ps, "price", self.price);
        push_opt_string(&mut ps, "cancelNewClientOrderId", &self.cancel_new_client_order_id);
        push_opt_string(&mut ps, "cancelOrigClientOrderId", &self.cancel_orig_client_order_id);
        push_opt_u64(&mut ps, "cancelOrderId", self.cancel_order_id);
        push_opt_string(&mut ps, "newClientOrderId", &self.new_client_order_id);
        push_opt_decimal(&mut ps, "stopPrice", self.stop_price);
        push_opt_decimal(&mut ps, "icebergQty", self.iceberg_qty);
        push_opt_resp(&mut ps, "newOrderRespType", self.new_order_resp_type);
        ps
    }
}

/// Asks for the state of one order.
#[derive(Clone, Debug)]
pub struct OrderStatusRequest {
    pub symbol: String,
    pub order_id: Option<u64>,
    pub orig_client_order_id: Option<String>,
    /// Overrides the account's receive window; the exchange refuses more than 60000.
    pub recv_window: Option<u64>,
}

impl OrderStatusRequest {
    pub open spec fn params(&self) -> Seq<(Seq<char>, Seq<char>)> {
        let p = seq![("symbol"@, self.symbol@)];
        let p = with_opt(p, "orderId"@, opt_u64_text(self.order_id));
        with_opt(p, "origClientOrderId"@, opt_string_text(self.orig_client_order_id))
    }

    pub fn to_params(&self) -> (r: Vec<Param>)
        ensures
            params_view(r@) == self.params(),
    {
        let mut ps: Vec<Param> = Vec::new();
        push_param(&mut ps, "symbol", self.symbol.clone());
        assert(params_view(ps@) =~= seq![("symbol"@, self.symbol@)]);
        push_opt_u64(&mut ps, "orderId", self.order_id);
        push_opt_string(&mut ps, "origClientOrderId", &self.orig_client_order_id);
        ps
    }
}

/// The text of an optional count.
pub open spec fn opt_u32_text(v: Option<u32>) -> Option<Seq<char>> {
    match v {
        Some(n) => Some(dec_text(n as nat)),
        None => None,
    }
}

/// Asks for all orders of the account on one symbol.
#[derive(Clone, Debug)]
pub struct OrdersQuery {
    pub symbol: String,
    pub order_id: Option<u64>,
    pub start_time: Option<u64>,
    pub end_time: Option<u64>,
    /// 500 where absent, at most 1000.
    pub limit: Option<u32>,
    /// Overrides the account's receive window; the exchange refuses more than 60000.
    pub recv_window: Option<u64>,
}

impl OrdersQuery {
    pub open spec fn params(&self) -> Seq<(Seq<char>, Seq<char>)> {
        let p = seq![("symbol"@, self.symbol@)];
        let p = with_opt(p, "orderId"@, opt_u64_text(self.order_id));
        let p = with_opt(p, "startTime"@, opt_u64_text(self.start_time));
        let p = with_opt(p, "endTime"@, opt_u64_text(self.end_time));
        with_opt(p, "limit"@, opt_u32_text(self.limit))
    }

    pub fn to_params(&self) -> (r: Vec<Param>)
        ensures
            params_view(r@) == self.params(),
    {
        let mut ps: Vec<Param> = Vec::new();
        push_param(&mut ps, "symbol", self.symbol.clone());
        assert(params_view(ps@) =~= seq![("symbol"@, self.symbol@)]);
        push_opt_u64(&mut ps, "orderId", self.order_id);
        push_opt_u64(&mut ps, "startTime", self.start_time);
        push_opt_u64(&mut ps, "endTime", self.end_time);
        let limit = match self.limit {
            Some(n) => Some(n as u64),
            None => None,
        };
        push_opt_u64(&mut ps, "limit", limit);
        ps
    }
}

/// A query over a window of history on one symbol.
#[derive(Clone, Debug)]
pub struct HistoryQuery {
    pub start_time: Option<u64>,
    pub end_time: Option<u64>,
    pub from_id: Option<u64>,
    pub limit: u16,
    pub symbol: String,
    pub interval: Option<String>,
    pub period: Option<String>,
}

/// The parameters of a history query, absent fields left out.
pub open spec fn history_params(
    start_time: Option<u64>,
    end_time: Option<u64>,
    from_id: Option<u64>,
    limit: u16,
    symbol: Seq<char>,
    interval: Option<Seq<char>>,
    period: Option<Seq<char>>,
) -> Seq<(Seq<char>, Seq<char>)> {
    let p = with_opt(Seq::empty(), "startTime"@, opt_u64_text(start_time));
    let p = with_opt(p, "endTime"@, opt_u64_text(end_time));
    let p = with_opt(p, "fromId"@, opt_u64_text(from_id));
    let p = p.push(("limit"@, dec_text(limit as nat))).push(("symbol"@, symbol));
    let p = with_opt(p, "interval"@, interval);
    with_opt(p, "period"@, period)
}

impl HistoryQuery {
    pub open spec fn params(&self) -> Seq<(Seq<char>, Seq<char>)> {
        history_params(
            self.start_time,
            self.end_time,
            self.from_id,
            self.limit,
            self.symbol@,
            opt_string_text(self.interval),
            opt_string_text(self.period),
        )
    }

    pub fn to_params(&self) -> (r: Vec<Param>)
        ensures
            params_view(r@) == self.params(),
    {
        let mut ps: Vec<Param> = Vec::new();
        assert(params_view(ps@) =~= Seq::empty());
        push_opt_u64(&mut ps, "startTime", self.start_time);
        push_opt_u64(&mut ps, "endTime", self.end_time);
        push_opt_u64(&mut ps, "fromId", self.from_id);
        push_param(&mut ps, "limit", u64_text(self.limit as u64));
        push_param(&mut ps, "symbol", self.symbol.clone());
        push_opt_string(&mut ps, "interval", &self.interval);
        push_opt_string(&mut ps, "period", &self.period);
        ps
    }
}

} // verus!
