use cexarbot::decimal::Decimal;
use cexarbot::decision::DecisionError;
use cexarbot::gateway::{GatewayError, OrderHandle, OrderStatus};
use cexarbot::order::{TradeIntent, ValidationError};
use cexarbot::orchestrator::{backoff_delay, Action, Command, Completion, Cycle, CycleError, Event, Phase};

fn buy_intent() -> TradeIntent {
    TradeIntent {
        side: "BUY".to_string(),
        kind: "MARKET".to_string(),
        symbol: "BTCUSDT".to_string(),
        quantity: Decimal { units: 1_000_000 },
        price: None,
        stop_price: None,
    }
}

fn handle() -> OrderHandle {
    OrderHandle { symbol: "BTCUSDT".to_string(), order_id: 77 }
}

fn submitting() -> Cycle {
    let mut c = Cycle::new(5);
    assert!(matches!(c.step(Event::Start(Command::Trade)), Action::FetchSnapshot { delay_ms: 0 }));
    assert!(matches!(c.step(Event::SnapshotFetched), Action::RequestPrediction));
    match c.step(Event::PredictionReady(Some(buy_intent()))) {
        Action::PlaceOrder { order, delay_ms } => {
            assert_eq!(order.symbol, "BTCUSDT");
            assert_eq!(delay_ms, 0);
        }
        _ => panic!("expected an order"),
    }
    assert_eq!(c.phase, Phase::Submitting);
    c
}

#[test]
fn refused_submission_retried_three_times_then_errored() {
    let mut c = submitting();
    let refused = GatewayError::Transport { before_send: true };
    for (n, delay) in [(1u32, 500u64), (2, 1000), (3, 2000)] {
        match c.step(Event::OrderFailed(refused)) {
            Action::PlaceOrder { delay_ms, .. } => assert_eq!(delay_ms, delay),
            _ => panic!("expected a retry"),
        }
        assert_eq!(c.retries, n);
    }
    assert!(matches!(c.step(Event::OrderFailed(refused)), Action::Stop));
    assert_eq!(c.phase, Phase::Errored);
    assert!(matches!(c.error, Some(CycleError::Gateway(GatewayError::Transport { before_send: true }))));
}

#[test]
fn indeterminate_submission_is_never_retried() {
    let mut c = submitting();
    assert!(matches!(c.step(Event::OrderFailed(GatewayError::Indeterminate)), Action::Stop));
    assert!(matches!(c.error, Some(CycleError::Gateway(GatewayError::Indeterminate))));
}

#[test]
fn rate_limited_prediction_rereads_without_ordering() {
    let mut c = Cycle::new(5);
    c.step(Event::Start(Command::Trade));
    c.step(Event::SnapshotFetched);
    match c.step(Event::PredictionFailed(DecisionError::RateLimited)) {
        Action::FetchSnapshot { delay_ms } => assert_eq!(delay_ms, 500),
        _ => panic!("expected a read retry"),
    }
    assert_eq!(c.phase, Phase::FetchingSnapshot);
    assert!(c.order.is_none());
    assert!(matches!(c.step(Event::SnapshotFetched), Action::RequestPrediction));
    c.step(Event::PredictionFailed(DecisionError::RateLimited));
    c.step(Event::SnapshotFetched);
    c.step(Event::PredictionFailed(DecisionError::RateLimited));
    c.step(Event::SnapshotFetched);
    assert!(matches!(c.step(Event::PredictionFailed(DecisionError::RateLimited)), Action::Stop));
    assert!(matches!(c.error, Some(CycleError::Decision(DecisionError::RateLimited))));
    assert!(c.order.is_none());
}

#[test]
fn filled_status_completes_cycle() {
    let mut c = submitting();
    match c.step(Event::OrderPlaced(handle())) {
        Action::PollStatus { handle, delay_ms } => {
            assert_eq!(handle.order_id, 77);
            assert_eq!(delay_ms, 0);
        }
        _ => panic!("expected a poll"),
    }
    assert!(matches!(c.step(Event::StatusObserved(OrderStatus::New)), Action::PollStatus { delay_ms: 1000, .. }));
    assert!(matches!(c.step(Event::StatusObserved(OrderStatus::Filled)), Action::Stop));
    assert_eq!(c.phase, Phase::Done);
    assert_eq!(c.completion, Some(Completion::Terminal(OrderStatus::Filled)));
}

#[test]
fn open_order_left_pending_after_poll_limit() {
    let mut c = Cycle::new(2);
    c.step(Event::Start(Command::Trade));
    c.step(Event::SnapshotFetched);
    c.step(Event::PredictionReady(Some(buy_intent())));
    c.step(Event::OrderPlaced(handle()));
    assert!(matches!(c.step(Event::StatusObserved(OrderStatus::PartiallyFilled)), Action::PollStatus { .. }));
    assert!(matches!(c.step(Event::StatusObserved(OrderStatus::PartiallyFilled)), Action::Stop));
    assert_eq!(c.completion, Some(Completion::PendingExternally));
}

#[test]
fn invalid_intent_and_unreadable_prediction_end_in_error() {
    let mut c = Cycle::new(3);
    c.step(Event::Start(Command::Trade));
    c.step(Event::SnapshotFetched);
    let mut bad = buy_intent();
    bad.side = "HOLD".to_string();
    assert!(matches!(c.step(Event::PredictionReady(Some(bad))), Action::Stop));
    assert!(matches!(c.error, Some(CycleError::Validation(ValidationError::InvalidSide))));
    assert!(c.order.is_none());

    let mut c = Cycle::new(3);
    c.step(Event::Start(Command::Trade));
    c.step(Event::SnapshotFetched);
    assert!(matches!(c.step(Event::PredictionReady(None)), Action::Stop));
    assert!(matches!(c.error, Some(CycleError::UnactionablePrediction)));
}

#[test]
fn account_cycle_summarizes_without_order() {
    let mut c = Cycle::new(3);
    c.step(Event::Start(Command::Account));
    match c.step(Event::SnapshotFailed(GatewayError::Transport { before_send: false })) {
        Action::FetchSnapshot { delay_ms } => assert_eq!(delay_ms, 500),
        _ => panic!("expected a read retry"),
    }
    assert!(matches!(c.step(Event::SnapshotFetched), Action::Stop));
    assert_eq!(c.completion, Some(Completion::AccountSummarized));
    assert!(matches!(c.step(Event::Interrupt), Action::Stop));
    assert_eq!(c.phase, Phase::Done);
}

#[test]
fn unauthorized_snapshot_is_not_retried() {
    let mut c = Cycle::new(3);
    c.step(Event::Start(Command::Account));
    assert!(matches!(c.step(Event::SnapshotFailed(GatewayError::Unauthorized)), Action::Stop));
    assert!(matches!(c.error, Some(CycleError::Gateway(GatewayError::Unauthorized))));
}

#[test]
fn interrupt_and_stray_events_end_cycle() {
    let mut c = Cycle::new(3);
    c.step(Event::Start(Command::Trade));
    assert!(matches!(c.step(Event::Interrupt), Action::Stop));
    assert!(matches!(c.error, Some(CycleError::Interrupted)));
    let mut c = Cycle::new(3);
    assert!(matches!(c.step(Event::SnapshotFetched), Action::Stop));
    assert!(matches!(c.error, Some(CycleError::OutOfSequence)));
}

#[test]
fn backoff_doubles() {
    assert_eq!(backoff_delay(1), 500);
    assert_eq!(backoff_delay(2), 1000);
    assert_eq!(backoff_delay(3), 2000);
}
