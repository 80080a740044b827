//! The exchange's enumerations, as they are written on the wire, and the
//! library's error type.

use vstd::prelude::*;

verus! {

#[derive(Clone, Copy, Debug, PartialEq, Eq, Structural)]
pub enum OrderSide {
    Buy,
    Sell,
}

impl OrderSide {
    pub open spec fn wire(self) -> Seq<char> {
        match self {
            OrderSide::Buy => "BUY"@,
            OrderSide::Sell => "SELL"@,
        }
    }

    pub fn as_str(&self) -> (r: &'static str)
        ensures
            r@ == self.wire(),
    {
        match self {
            OrderSide::Buy => "BUY",
            OrderSide::Sell => "SELL",
        }
    }
}

#[derive(Clone, Copy, Debug, PartialEq, Eq, Structural)]
pub enum OrderType {
    Limit,
    Market,
    StopLoss,
    StopLossLimit,
    TakeProfit,
    TakeProfitLimit,
    LimitMaker,
}

impl OrderType {
    pub open spec fn wire(self) -> Seq<char> {
        match self {
            OrderType::Limit => "LIMIT"@,
            OrderType::Market => "MARKET"@,
            OrderType::StopLoss => "STOP_LOSS"@,
            OrderType::StopLossLimit => "STOP_LOSS_LIMIT"@,
            OrderType::TakeProfit => "TAKE_PROFIT"@,
            OrderType::TakeProfitLimit => "TAKE_PROFIT_LIMIT"@,
            OrderType::LimitMaker => "LIMIT_MAKER"@,
        }
    }

    pub fn as_str(&self) -> (r: &'static str)
        ensures
            r@ == self.wire(),
    {
        match self {
            OrderType::Limit => "LIMIT",
            OrderType::Market => "MARKET",
            OrderType::StopLoss => "STOP_LOSS",
            OrderType::StopLossLimit => "STOP_LOSS_LIMIT",
            OrderType::TakeProfit => "TAKE_PROFIT",
            OrderType::TakeProfitLimit => "TAKE_PROFIT_LIMIT",
            OrderType::LimitMaker => "LIMIT_MAKER",
        }
    }
}

/// How long an order stays active: good till cancelled, immediate or cancel,
/// fill or kill, good till crossing.
#[derive(Clone, Copy, Debug, PartialEq, Eq, Structural)]
pub enum TimeInForce {
    GTC,
    IOC,
    FOK,
    GTX,
}

impl TimeInForce {
    pub open spec fn wire(self) -> Seq<char> {
        match self {
            TimeInForce::GTC => "GTC"@,
            TimeInForce::IOC => "IOC"@,
            TimeInForce::FOK => "FOK"@,
            TimeInForce::GTX => "GTX"@,
        }
    }

    pub fn as_str(&self) -> (r: &'static str)
        ensures
            r@ == self.wire(),
    {
        match self {
            TimeInForce::GTC => "GTC",
            TimeInForce::IOC => "IOC",
            TimeInForce::FOK => "FOK",
            TimeInForce::GTX => "GTX",
        }
    }
}

/// The amount of detail that the exchange answers a new order with.
#[derive(Clone, Copy, Debug, PartialEq, Eq, Structural)]
pub enum OrderResponse {
    Ack,
    Result,
    Full,
}

impl OrderResponse {
    pub open spec fn wire(self) -> Seq<char> {
        match self {
            OrderResponse::Ack => "ACK"@,
            OrderResponse::Result => "RESULT"@,
            OrderResponse::Full => "FULL"@,
        }
    }

    pub fn as_str(&self) -> (r: &'static str)
        ensures
            r@ == self.wire(),
    {
        match self {
            OrderResponse::Ack => "ACK",
            OrderResponse::Result => "RESULT",
            OrderResponse::Full => "FULL",
        }
    }
}

/// Whether a cancel-replace places the new order when the cancellation fails.
#[derive(Clone, Copy, Debug, PartialEq, Eq, Structural)]
pub enum CancelReplaceMode {
    StopOnFailure,
    AllowFailure,
}

impl CancelReplaceMode {
    pub open spec fn wire(self) -> Seq<char> {
        match self {
            CancelReplaceMode::StopOnFailure => "STOP_ON_FAILURE"@,
            CancelReplaceMode::AllowFailure => "ALLOW_FAILURE"@,
        }
    }

    pub fn as_str(&self) -> (r: &'static str)
        ensures
            r@ == self.wire(),
    {
        match self {
            CancelReplaceMode::StopOnFailure => "STOP_ON_FAILURE",
            CancelReplaceMode::AllowFailure => "ALLOW_FAILURE",
        }
    }
}

/// What can go wrong with a call.
#[derive(Clone, Debug, PartialEq, Eq)]
pub enum Error {
    /// The request breaks a rule of the exchange; found before anything is sent.
    InvalidOrder { msg: String },
    /// The exchange answered with its error envelope.
    Api { code: i64, msg: String },
    /// The exchange could not be reached, or its answer was neither the
    /// expected body nor an error envelope.
    Transport { msg: String },
    /// A well-formed answer lacks the entity asked for.
    NotFound { msg: String },
}

} // verus!
