use cexarbot::decimal::Decimal;
use cexarbot::decision::trade_prompt;
use cexarbot::intent::{parse_intent, split_words};
use cexarbot::order::{translate, ValidationError};

#[test]
fn words_split_at_each_space() {
    assert_eq!(split_words("a bb  c"), vec!["a", "bb", "", "c"]);
    assert_eq!(split_words(""), vec![""]);
    assert_eq!(split_words(" x "), vec!["", "x", ""]);
}

#[test]
fn market_intent_is_read() {
    let i = parse_intent("BUY MARKET BTCUSDT 0.01").unwrap();
    assert_eq!(i.side, "BUY");
    assert_eq!(i.kind, "MARKET");
    assert_eq!(i.symbol, "BTCUSDT");
    assert_eq!(i.quantity, Decimal { units: 1_000_000 });
    assert_eq!(i.price, None);
    assert_eq!(i.stop_price, None);
    let r = translate(&i).unwrap();
    assert_eq!(r.quantity.units, 1_000_000);
}

#[test]
fn stop_limit_intent_is_read() {
    let i = parse_intent("SELL STOP_LIMIT ETHUSDT 2 1800.5 1810").unwrap();
    assert_eq!(i.price, Some(Decimal { units: 180_050_000_000 }));
    assert_eq!(i.stop_price, Some(Decimal { units: 181_000_000_000 }));
    assert_eq!(translate(&i).unwrap_err(), ValidationError::InconsistentStopPrice);
}

#[test]
fn free_text_is_not_read() {
    for t in [
        "I recommend buying 0.01 BTC now",
        "buy market BTCUSDT 0.01",
        "BUY MARKET BTCUSDT",
        "BUY MARKET  0.01",
        "BUY MARKET BTCUSDT 0.01 ",
        "BUY MARKET BTCUSDT -0.01",
        "BUY LIMIT BTCUSDT 1 2 3 4",
        "HOLD MARKET BTCUSDT 1",
        "",
    ] {
        assert!(parse_intent(t).is_none(), "{}", t);
    }
}

#[test]
fn trade_prompt_carries_answer_form() {
    let p = trade_prompt("BTCUSDT");
    assert!(p.starts_with("Analyze the market for BTCUSDT and provide a trading decision. Answer with one line"));
}
