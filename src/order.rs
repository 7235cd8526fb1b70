//! Validation of trade intents into exchange-ready order requests.
use vstd::prelude::*;

use crate::decimal::Decimal;
use crate::text::text_is;

verus! {

broadcast use vstd::string::group_string_axioms;

#[derive(Clone, Copy, Debug, PartialEq, Eq, Structural)]
pub enum Side {
    Buy,
    Sell,
}

#[derive(Clone, Copy, Debug, PartialEq, Eq, Structural)]
pub enum OrderKind {
    Market,
    Limit,
    StopLimit,
}

/// Which ordering of stop price and limit price a stop-limit order must
/// have. The rule differs between exchanges.
#[derive(Clone, Copy, Debug, PartialEq, Eq, Structural)]
pub enum StopPriceRule {
    /// A buy needs stop >= limit, a sell needs stop <= limit.
    SideOrdered,
    /// Any positive stop price is accepted.
    Unordered,
}

/// The specific rule that a trade intent broke.
#[derive(Clone, Copy, Debug, PartialEq, Eq, Structural)]
pub enum ValidationError {
    InvalidSide,
    InvalidOrderKind,
    InvalidQuantity,
    MissingPrice,
    MissingStopPrice,
    InconsistentStopPrice,
}

/// A desired trade, not yet validated. Side and kind are given by name:
/// `BUY` or `SELL`; `MARKET`, `LIMIT` or `STOP_LIMIT`.
#[derive(Clone, Debug)]
pub struct TradeIntent {
    pub side: String,
    pub kind: String,
    pub symbol: String,
    pub quantity: Decimal,
    pub price: Option<Decimal>,
    pub stop_price: Option<Decimal>,
}

/// A validated order, ready to be sent to the exchange.
#[derive(Clone, Debug)]
pub struct OrderRequest {
    pub symbol: String,
    pub side: Side,
    pub kind: OrderKind,
    pub quantity: Decimal,
    pub price: Option<Decimal>,
    pub stop_price: Option<Decimal>,
}

pub open spec fn side_named(s: Seq<char>) -> Option<Side> {
    if s == "BUY"@ {
        Some(Side::Buy)
    } else if s == "SELL"@ {
        Some(Side::Sell)
    } else {
        None
    }
}

pub open spec fn kind_named(s: Seq<char>) -> Option<OrderKind> {
    if s == "MARKET"@ {
        Some(OrderKind::Market)
    } else if s == "LIMIT"@ {
        Some(OrderKind::Limit)
    } else if s == "STOP_LIMIT"@ {
        Some(OrderKind::StopLimit)
    } else {
        None
    }
}

pub open spec fn is_positive(d: Option<Decimal>) -> bool {
    d is Some && d->Some_0.units > 0
}

pub open spec fn needs_price(k: OrderKind) -> bool {
    k == OrderKind::Limit || k == OrderKind::StopLimit
}

/// Stop and limit price are ordered as `rule` asks for `side`.
pub open spec fn stop_consistent(rule: StopPriceRule, side: Side, stop: int, limit: int) -> bool {
    match rule {
        StopPriceRule::SideOrdered => match side {
            Side::Buy => stop >= limit,
            Side::Sell => stop <= limit,
        },
        StopPriceRule::Unordered => true,
    }
}

/// The first rule, in order, that `intent` breaks; `None` if it breaks none.
pub open spec fn first_violation(intent: TradeIntent, rule: StopPriceRule) -> Option<
    ValidationError,
> {
    let side = side_named(intent.side@);
    let kind = kind_named(intent.kind@);
    if side is None {
        Some(ValidationError::InvalidSide)
    } else if kind is None {
        Some(ValidationError::InvalidOrderKind)
    } else if intent.quantity.units <= 0 {
        Some(ValidationError::InvalidQuantity)
    } else if needs_price(kind->Some_0) && !is_positive(intent.price) {
        Some(ValidationError::MissingPrice)
    } else if kind->Some_0 == OrderKind::StopLimit && !is_positive(intent.stop_price) {
        Some(ValidationError::MissingStopPrice)
    } else if kind->Some_0 == OrderKind::StopLimit && !stop_consistent(
        rule,
        side->Some_0,
        intent.stop_price->Some_0.units as int,
        intent.price->Some_0.units as int,
    ) {
        Some(ValidationError::InconsistentStopPrice)
    } else {
        None
    }
}

impl OrderRequest {
    /// Quantity positive; price present and positive exactly for the limit
    /// kinds; stop price present and positive exactly for stop-limit.
    pub open spec fn is_valid(&self) -> bool {
        &&& self.quantity.units > 0
        &&& (needs_price(self.kind) ==> is_positive(self.price))
        &&& (!needs_price(self.kind) ==> self.price is None)
        &&& (self.kind == OrderKind::StopLimit ==> is_positive(self.stop_price))
        &&& (self.kind != OrderKind::StopLimit ==> self.stop_price is None)
    }
}

/// The order that a valid `intent` becomes: side and kind by name, price
/// only for the limit kinds, stop price only for stop-limit.
pub open spec fn order_of(intent: TradeIntent) -> OrderRequest {
    let kind = kind_named(intent.kind@)->Some_0;
    OrderRequest {
        symbol: intent.symbol,
        side: side_named(intent.side@)->Some_0,
        kind,
        quantity: intent.quantity,
        price: if needs_price(kind) {
            intent.price
        } else {
            None
        },
        stop_price: if kind == OrderKind::StopLimit {
            intent.stop_price
        } else {
            None
        },
    }
}

impl OrderRequest {
    /// A copy of the request, equal to it.
    pub fn duplicate(&self) -> (r: OrderRequest)
        ensures
            r == *self,
    {
        OrderRequest {
            symbol: self.symbol.clone(),
            side: self.side,
            kind: self.kind,
            quantity: self.quantity,
            price: self.price,
            stop_price: self.stop_price,
        }
    }
}

impl Side {
    /// The exchange's name of the side.
    pub fn wire_name(&self) -> (r: &'static str)
        ensures
            side_named(r@) == Some(*self),
    {
        proof {
            reveal_strlit("BUY");
            reveal_strlit("SELL");
            assert("BUY"@.len() == 3);
            assert("SELL"@.len() == 4);
            assert("BUY"@ != "SELL"@);
        }
        let r = match self {
            Side::Buy => "BUY",
            Side::Sell => "SELL",
        };
        r
    }
}

impl OrderKind {
    /// The exchange's name of the order kind.
    pub fn wire_name(&self) -> (r: &'static str)
        ensures
            kind_named(r@) == Some(*self),
    {
        proof {
            reveal_strlit("MARKET");
            reveal_strlit("LIMIT");
            reveal_strlit("STOP_LIMIT");
            assert("MARKET"@.len() == 6);
            assert("LIMIT"@.len() == 5);
            assert("STOP_LIMIT"@.len() == 10);
        }
        match self {
            OrderKind::Market => "MARKET",
            OrderKind::Limit => "LIMIT",
            OrderKind::StopLimit => "STOP_LIMIT",
        }
    }
}

/// Reads a side by its exchange name.
pub fn parse_side(s: &str) -> (r: Option<Side>)
    ensures
        r == side_named(s@),
{
    if text_is(s, "BUY") {
        Some(Side::Buy)
    } else if text_is(s, "SELL") {
        Some(Side::Sell)
    } else {
        None
    }
}

/// Reads an order kind by its exchange name.
pub fn parse_order_kind(s: &str) -> (r: Option<OrderKind>)
    ensures
        r == kind_named(s@),
{
    if text_is(s, "MARKET") {
        Some(OrderKind::Market)
    } else if text_is(s, "LIMIT") {
        Some(OrderKind::Limit)
    } else if text_is(s, "STOP_LIMIT") {
        Some(OrderKind::StopLimit)
    } else {
        None
    }
}

fn positive(d: Option<Decimal>) -> (r: bool)
    ensures
        r == is_positive(d),
{
    match d {
        Some(v) => v.units > 0,
        None => false,
    }
}

/// Validates `intent` under the stop-price `rule`. The rules are checked in
/// a fixed order and the first one broken is reported.
pub fn translate_with(intent: &TradeIntent, rule: StopPriceRule) -> (r: Result<
    OrderRequest,
    ValidationError,
>)
    ensures
        match r {
            Ok(req) => first_violation(*intent, rule) is None && req == order_of(*intent)
                && req.is_valid(),
            Err(e) => first_violation(*intent, rule) == Some(e),
        },
{
    let side = match parse_side(intent.side.as_str()) {
        Some(s) => s,
        None => {
            return Err(ValidationError::InvalidSide);
        },
    };
    let kind = match parse_order_kind(intent.kind.as_str()) {
        Some(k) => k,
        None => {
            return Err(ValidationError::InvalidOrderKind);
        },
    };
    if intent.quantity.units <= 0 {
        return Err(ValidationError::InvalidQuantity);
    }
    let limit_family = match kind {
        OrderKind::Market => false,
        _ => true,
    };
    let is_stop = match kind {
        OrderKind::StopLimit => true,
        _ => false,
    };
    if limit_family && !positive(intent.price) {
        return Err(ValidationError::MissingPrice);
    }
    if is_stop && !positive(intent.stop_price) {
        return Err(ValidationError::MissingStopPrice);
    }
    if is_stop {
        let stop = match intent.stop_price {
            Some(v) => v.units,
            None => 0,
        };
        let limit = match intent.price {
            Some(v) => v.units,
            None => 0,
        };
        let ordered = match rule {
            StopPriceRule::SideOrdered => match side {
                Side::Buy => stop >= limit,
                Side::Sell => stop <= limit,
            },
            StopPriceRule::Unordered => true,
        };
        if !ordered {
            return Err(ValidationError::InconsistentStopPrice);
        }
    }
    let price = if limit_family {
        intent.price
    } else {
        None
    };
    let stop_price = if is_stop {
        intent.stop_price
    } else {
        None
    };
    Ok(OrderRequest {
        symbol: intent.symbol.clone(),
        side,
        kind,
        quantity: intent.quantity,
        price,
        stop_price,
    })
}

/// Validates `intent` with the conventional stop-price ordering.
pub fn translate(intent: &TradeIntent) -> (r: Result<OrderRequest, ValidationError>)
    ensures
        match r {
            Ok(req) => first_violation(*intent, StopPriceRule::SideOrdered) is None
                && req == order_of(*intent) && req.is_valid(),
            Err(e) => first_violation(*intent, StopPriceRule::SideOrdered) == Some(e),
        },
{
    translate_with(intent, StopPriceRule::SideOrdered)
}

/// An intent whose side is neither `BUY` nor `SELL` is rejected with
/// `InvalidSide`, under every stop-price rule, so no order request comes of it.
pub proof fn lemma_unknown_side_rejected(intent: TradeIntent, rule: StopPriceRule)
    requires
        side_named(intent.side@) is None,
    ensures
        first_violation(intent, rule) == Some(ValidationError::InvalidSide),
{
}

/// A limit intent with a known side and a price that is absent or not
/// positive is rejected, with `InvalidQuantity` when the quantity is not
/// positive and with `MissingPrice` otherwise.
pub proof fn lemma_limit_without_price_rejected(intent: TradeIntent, rule: StopPriceRule)
    requires
        side_named(intent.side@) is Some,
        kind_named(intent.kind@) == Some(OrderKind::Limit),
        !is_positive(intent.price),
    ensures
        first_violation(intent, rule) == Some(
            if intent.quantity.units <= 0 {
                ValidationError::InvalidQuantity
            } else {
                ValidationError::MissingPrice
            },
        ),
{
}

} // verus!
