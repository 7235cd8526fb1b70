use cexarbot::decimal::{parse_decimal, Decimal};
use cexarbot::order::{
    parse_order_kind, parse_side, translate, translate_with, OrderKind, Side, StopPriceRule,
    TradeIntent, ValidationError,
};

fn dec(units: i64) -> Decimal {
    Decimal { units }
}

fn intent(side: &str, kind: &str, qty: i64, price: Option<i64>, stop: Option<i64>) -> TradeIntent {
    TradeIntent {
        side: side.to_string(),
        kind: kind.to_string(),
        symbol: "BTCUSDT".to_string(),
        quantity: dec(qty),
        price: price.map(dec),
        stop_price: stop.map(dec),
    }
}

#[test]
fn market_buy_becomes_order_without_price() {
    let qty = parse_decimal("0.01").unwrap();
    let i = TradeIntent {
        side: "BUY".to_string(),
        kind: "MARKET".to_string(),
        symbol: "BTCUSDT".to_string(),
        quantity: qty,
        price: None,
        stop_price: None,
    };
    let r = translate(&i).unwrap();
    assert_eq!(r.side, Side::Buy);
    assert_eq!(r.kind, OrderKind::Market);
    assert_eq!(r.symbol, "BTCUSDT");
    assert_eq!(r.quantity, dec(1_000_000));
    assert_eq!(r.price, None);
    assert_eq!(r.stop_price, None);
}

#[test]
fn market_order_drops_a_given_price() {
    let r = translate(&intent("SELL", "MARKET", 5, Some(7), Some(9))).unwrap();
    assert_eq!(r.side, Side::Sell);
    assert_eq!(r.price, None);
    assert_eq!(r.stop_price, None);
}

#[test]
fn stop_limit_without_price_is_missing_price() {
    let stop = parse_decimal("9000").unwrap();
    let i = intent("BUY", "STOP_LIMIT", 1_000_000, None, Some(stop.units));
    assert_eq!(translate(&i).unwrap_err(), ValidationError::MissingPrice);
}

#[test]
fn unknown_sides_are_rejected() {
    for side in ["HOLD", "buy", "Buy", "", "BUY ", "SELLING"] {
        let i = intent(side, "MARKET", 10, None, None);
        assert_eq!(translate(&i).unwrap_err(), ValidationError::InvalidSide);
        let i = intent(side, "LIMIT", -1, None, None);
        assert_eq!(translate(&i).unwrap_err(), ValidationError::InvalidSide);
    }
}

#[test]
fn unknown_kind_is_rejected() {
    let i = intent("BUY", "STOP", 10, Some(1), Some(1));
    assert_eq!(translate(&i).unwrap_err(), ValidationError::InvalidOrderKind);
}

#[test]
fn limit_without_positive_price_is_rejected() {
    assert_eq!(translate(&intent("BUY", "LIMIT", 10, None, None)).unwrap_err(), ValidationError::MissingPrice);
    assert_eq!(translate(&intent("BUY", "LIMIT", 10, Some(0), None)).unwrap_err(), ValidationError::MissingPrice);
    assert_eq!(translate(&intent("SELL", "LIMIT", 10, Some(-5), None)).unwrap_err(), ValidationError::MissingPrice);
    assert_eq!(translate(&intent("SELL", "LIMIT", 0, Some(-5), None)).unwrap_err(), ValidationError::InvalidQuantity);
}

#[test]
fn quantity_must_be_positive() {
    assert_eq!(translate(&intent("BUY", "MARKET", 0, None, None)).unwrap_err(), ValidationError::InvalidQuantity);
    assert_eq!(translate(&intent("BUY", "MARKET", -3, None, None)).unwrap_err(), ValidationError::InvalidQuantity);
}

#[test]
fn stop_limit_needs_stop_price() {
    assert_eq!(translate(&intent("BUY", "STOP_LIMIT", 10, Some(5), None)).unwrap_err(), ValidationError::MissingStopPrice);
    assert_eq!(translate(&intent("BUY", "STOP_LIMIT", 10, Some(5), Some(0))).unwrap_err(), ValidationError::MissingStopPrice);
}

#[test]
fn stop_price_ordering_follows_side() {
    assert_eq!(translate(&intent("BUY", "STOP_LIMIT", 10, Some(5), Some(4))).unwrap_err(), ValidationError::InconsistentStopPrice);
    assert_eq!(translate(&intent("SELL", "STOP_LIMIT", 10, Some(5), Some(6))).unwrap_err(), ValidationError::InconsistentStopPrice);
    let buy = translate(&intent("BUY", "STOP_LIMIT", 10, Some(5), Some(5))).unwrap();
    assert_eq!(buy.price, Some(dec(5)));
    assert_eq!(buy.stop_price, Some(dec(5)));
    let sell = translate(&intent("SELL", "STOP_LIMIT", 10, Some(5), Some(4))).unwrap();
    assert_eq!(sell.kind, OrderKind::StopLimit);
    assert_eq!(sell.stop_price, Some(dec(4)));
}

#[test]
fn unordered_rule_accepts_any_positive_stop() {
    let r = translate_with(&intent("BUY", "STOP_LIMIT", 10, Some(5), Some(4)), StopPriceRule::Unordered).unwrap();
    assert_eq!(r.stop_price, Some(dec(4)));
}

#[test]
fn limit_order_keeps_price() {
    let r = translate(&intent("SELL", "LIMIT", 10, Some(25), Some(3))).unwrap();
    assert_eq!(r.kind, OrderKind::Limit);
    assert_eq!(r.price, Some(dec(25)));
    assert_eq!(r.stop_price, None);
}

#[test]
fn wire_names_round_trip() {
    assert_eq!(Side::Buy.wire_name(), "BUY");
    assert_eq!(Side::Sell.wire_name(), "SELL");
    assert_eq!(OrderKind::StopLimit.wire_name(), "STOP_LIMIT");
    for s in [Side::Buy, Side::Sell] {
        assert_eq!(parse_side(s.wire_name()), Some(s));
    }
    for k in [OrderKind::Market, OrderKind::Limit, OrderKind::StopLimit] {
        assert_eq!(parse_order_kind(k.wire_name()), Some(k));
    }
    assert_eq!(parse_side("sell"), None);
    assert_eq!(parse_order_kind("STOP_LOSS"), None);
}

#[test]
fn decimals_parse_exactly() {
    assert_eq!(parse_decimal("0.01"), Some(dec(1_000_000)));
    assert_eq!(parse_decimal("42"), Some(dec(4_200_000_000)));
    assert_eq!(parse_decimal("1.5"), Some(dec(150_000_000)));
    assert_eq!(parse_decimal("0.00000001"), Some(dec(1)));
    assert_eq!(parse_decimal("0"), Some(dec(0)));
    assert_eq!(parse_decimal("92233720368.54775807"), Some(dec(i64::MAX)));
}

#[test]
fn malformed_decimals_are_rejected() {
    for s in ["", ".5", "5.", "1.2.3", "-1", "+1", "1e5", " 1", "1,5", "0.000000001", "92233720368.54775808", "99999999999999999999999"] {
        assert_eq!(parse_decimal(s), None, "{}", s);
    }
}
