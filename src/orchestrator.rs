//! The state machine of one decision cycle. It decides; the caller performs
//! each action it asks for and reports the outcome back as an event.
use vstd::prelude::*;

use crate::decision::DecisionError;
use crate::gateway::{GatewayError, OrderHandle, OrderStatus};
use crate::order::{first_violation, order_of, translate, OrderRequest, StopPriceRule, TradeIntent, ValidationError};

verus! {

/// How often a failed step is tried again before the cycle gives up.
pub const MAX_RETRIES: u32 = 3;

/// Delay before the first retry; each further retry doubles it.
pub const BASE_BACKOFF_MS: u64 = 500;

/// Delay between two status polls of a submitted order.
pub const POLL_INTERVAL_MS: u64 = 1000;

#[derive(Clone, Copy, Debug, PartialEq, Eq, Structural)]
pub enum Command {
    Trade,
    Account,
}

/// Where a cycle stands. A trade intent is validated in the same step in
/// which it arrives, since validation does no I/O.
#[derive(Clone, Copy, Debug, PartialEq, Eq, Structural)]
pub enum Phase {
    Idle,
    FetchingSnapshot,
    AwaitingPrediction,
    Submitting,
    Confirming,
    Done,
    Errored,
}

/// Why a cycle ended in `Errored`.
#[derive(Clone, Debug)]
pub enum CycleError {
    Gateway(GatewayError),
    Decision(DecisionError),
    Validation(ValidationError),
    /// The prediction could not be read as a trade intent.
    UnactionablePrediction,
    /// The operator asked the cycle to stop.
    Interrupted,
    /// An event arrived that the current phase does not expect.
    OutOfSequence,
}

/// How a cycle ended in `Done`.
#[derive(Clone, Copy, Debug, PartialEq, Eq, Structural)]
pub enum Completion {
    /// The account snapshot is ready to be summarized.
    AccountSummarized,
    /// The order reached this terminal status.
    Terminal(OrderStatus),
    /// The order was still open when polling stopped; it may fill later.
    PendingExternally,
}

/// The outcome of the last action, or a request from outside.
#[derive(Clone, Debug)]
pub enum Event {
    Start(Command),
    SnapshotFetched,
    SnapshotFailed(GatewayError),
    /// The prediction, read as a trade intent; `None` when it could not be.
    PredictionReady(Option<TradeIntent>),
    PredictionFailed(DecisionError),
    OrderPlaced(OrderHandle),
    OrderFailed(GatewayError),
    StatusObserved(OrderStatus),
    StatusFailed(GatewayError),
    Interrupt,
}

/// What the caller is to do next.
#[derive(Clone, Debug)]
pub enum Action {
    /// Nothing: the cycle has ended.
    Stop,
    /// Read the market and account state, after waiting `delay_ms`.
    FetchSnapshot { delay_ms: u64 },
    /// Ask the prediction service for a trading decision.
    RequestPrediction,
    /// Submit this order, after waiting `delay_ms`.
    PlaceOrder { order: OrderRequest, delay_ms: u64 },
    /// Ask for the status of this order, after waiting `delay_ms`.
    PollStatus { handle: OrderHandle, delay_ms: u64 },
}

/// One decision cycle.
#[derive(Clone, Debug)]
pub struct Cycle {
    pub command: Command,
    pub phase: Phase,
    /// Retries spent on the current step.
    pub retries: u32,
    /// Status polls made of the submitted order.
    pub polls: u32,
    /// Polls after which a still open order is left to the exchange.
    pub max_polls: u32,
    pub order: Option<OrderRequest>,
    pub handle: Option<OrderHandle>,
    pub error: Option<CycleError>,
    pub completion: Option<Completion>,
}

pub open spec fn pow2(n: nat) -> nat
    decreases n,
{
    if n == 0 {
        1
    } else {
        2 * pow2((n - 1) as nat)
    }
}

/// Wait before retry number `n` (counted from one).
pub open spec fn backoff_ms(n: nat) -> int {
    BASE_BACKOFF_MS * pow2((n - 1) as nat)
}

/// Exponential backoff before retry number `n`, counted from one.
pub fn backoff_delay(n: u32) -> (r: u64)
    requires
        1 <= n <= MAX_RETRIES,
    ensures
        r == backoff_ms(n as nat),
{
    proof {
        reveal_with_fuel(pow2, 3);
    }
    if n == 1 {
        BASE_BACKOFF_MS
    } else if n == 2 {
        BASE_BACKOFF_MS * 2
    } else {
        BASE_BACKOFF_MS * 4
    }
}

impl Cycle {
    /// A cycle that has not started; an open order is polled at most
    /// `max_polls` times.
    pub fn new(max_polls: u32) -> (r: Cycle)
        requires
            max_polls > 0,
        ensures
            r.wf(),
            r == (Cycle {
                command: Command::Trade,
                phase: Phase::Idle,
                retries: 0,
                polls: 0,
                max_polls,
                order: None,
                handle: None,
                error: None,
                completion: None,
            }),
    {
        Cycle {
            command: Command::Trade,
            phase: Phase::Idle,
            retries: 0,
            polls: 0,
            max_polls,
            order: None,
            handle: None,
            error: None,
            completion: None,
        }
    }

    /// The bookkeeping agrees with the phase.
    pub open spec fn wf(&self) -> bool {
        &&& self.retries <= MAX_RETRIES
        &&& 0 < self.max_polls
        &&& self.polls <= self.max_polls
        &&& (self.phase == Phase::Errored <==> self.error is Some)
        &&& (self.phase == Phase::Done <==> self.completion is Some)
        &&& (self.phase == Phase::Submitting ==> self.order is Some && self.order->Some_0.is_valid())
        &&& (self.phase == Phase::Confirming ==> self.handle is Some && self.polls < self.max_polls)
    }

    pub open spec fn finished(&self) -> bool {
        self.phase == Phase::Done || self.phase == Phase::Errored
    }

    pub open spec fn fail(self, e: CycleError) -> Cycle {
        Cycle { phase: Phase::Errored, error: Some(e), ..self }
    }

    pub open spec fn complete(self, c: Completion) -> Cycle {
        Cycle { phase: Phase::Done, completion: Some(c), ..self }
    }

    /// A failed read is retried with backoff while retries are left.
    pub open spec fn after_read_failure(self, e: GatewayError, again: Phase) -> Cycle {
        if e.read_retryable() && self.retries < MAX_RETRIES {
            Cycle { phase: again, retries: (self.retries + 1) as u32, ..self }
        } else {
            self.fail(CycleError::Gateway(e))
        }
    }

    /// The next state of the cycle on event `e`.
    pub open spec fn next(self, e: Event) -> Cycle {
        if self.finished() {
            self
        } else {
            match e {
                Event::Interrupt => self.fail(CycleError::Interrupted),
                Event::Start(cmd) => if self.phase == Phase::Idle {
                    Cycle { command: cmd, phase: Phase::FetchingSnapshot, ..self }
                } else {
                    self.fail(CycleError::OutOfSequence)
                },
                Event::SnapshotFetched => if self.phase != Phase::FetchingSnapshot {
                    self.fail(CycleError::OutOfSequence)
                } else if self.command == Command::Account {
                    self.complete(Completion::AccountSummarized)
                } else {
                    Cycle { phase: Phase::AwaitingPrediction, ..self }
                },
                Event::SnapshotFailed(g) => if self.phase == Phase::FetchingSnapshot {
                    self.after_read_failure(g, Phase::FetchingSnapshot)
                } else {
                    self.fail(CycleError::OutOfSequence)
                },
                Event::PredictionReady(intent) => if self.phase != Phase::AwaitingPrediction {
                    self.fail(CycleError::OutOfSequence)
                } else {
                    match intent {
                        None => self.fail(CycleError::UnactionablePrediction),
                        Some(i) => match first_violation(i, StopPriceRule::SideOrdered) {
                            Some(v) => self.fail(CycleError::Validation(v)),
                            None => Cycle {
                                phase: Phase::Submitting,
                                retries: 0,
                                order: Some(order_of(i)),
                                ..self
                            },
                        },
                    }
                },
                Event::PredictionFailed(d) => if self.phase != Phase::AwaitingPrediction {
                    self.fail(CycleError::OutOfSequence)
                } else if d is RateLimited && self.retries < MAX_RETRIES {
                    Cycle {
                        phase: Phase::FetchingSnapshot,
                        retries: (self.retries + 1) as u32,
                        ..self
                    }
                } else {
                    self.fail(CycleError::Decision(d))
                },
                Event::OrderPlaced(h) => if self.phase == Phase::Submitting {
                    Cycle { phase: Phase::Confirming, retries: 0, polls: 0, handle: Some(h), ..self }
                } else {
                    self.fail(CycleError::OutOfSequence)
                },
                Event::OrderFailed(g) => if self.phase != Phase::Submitting {
                    self.fail(CycleError::OutOfSequence)
                } else if g.write_retryable() && self.retries < MAX_RETRIES {
                    Cycle { retries: (self.retries + 1) as u32, ..self }
                } else {
                    self.fail(CycleError::Gateway(g))
                },
                Event::StatusObserved(s) => if self.phase != Phase::Confirming {
                    self.fail(CycleError::OutOfSequence)
                } else if s.terminal() {
                    Cycle { polls: (self.polls + 1) as u32, ..self }.complete(Completion::Terminal(s))
                } else if self.polls + 1 >= self.max_polls {
                    Cycle { polls: self.max_polls, ..self }.complete(Completion::PendingExternally)
                } else {
                    Cycle { polls: (self.polls + 1) as u32, retries: 0, ..self }
                },
                Event::StatusFailed(g) => if self.phase == Phase::Confirming {
                    self.after_read_failure(g, Phase::Confirming)
                } else {
                    self.fail(CycleError::OutOfSequence)
                },
            }
        }
    }

    /// The action that the cycle asks for once it is in state `self`,
    /// having just taken event `e`.
    pub open spec fn action_for(self, e: Event) -> Action {
        if self.finished() {
            Action::Stop
        } else {
            match self.phase {
                Phase::FetchingSnapshot => Action::FetchSnapshot {
                    delay_ms: if self.retries == 0 || e is Start {
                        0
                    } else {
                        backoff_ms(self.retries as nat) as u64
                    },
                },
                Phase::AwaitingPrediction => Action::RequestPrediction,
                Phase::Submitting => Action::PlaceOrder {
                    order: self.order->Some_0,
                    delay_ms: if self.retries == 0 {
                        0
                    } else {
                        backoff_ms(self.retries as nat) as u64
                    },
                },
                Phase::Confirming => Action::PollStatus {
                    handle: self.handle->Some_0,
                    delay_ms: if self.retries > 0 {
                        backoff_ms(self.retries as nat) as u64
                    } else if e is OrderPlaced {
                        0
                    } else {
                        POLL_INTERVAL_MS
                    },
                },
                _ => Action::Stop,
            }
        }
    }
}

impl Cycle {
    pub fn is_finished(&self) -> (r: bool)
        ensures
            r == self.finished(),
    {
        self.phase == Phase::Done || self.phase == Phase::Errored
    }

    fn set_failed(&mut self, e: CycleError)
        ensures
            *final(self) == old(self).fail(e),
    {
        self.phase = Phase::Errored;
        self.error = Some(e);
    }

    fn set_complete(&mut self, c: Completion)
        ensures
            *final(self) == old(self).complete(c),
    {
        self.phase = Phase::Done;
        self.completion = Some(c);
    }

    fn read_failed(&mut self, e: GatewayError, again: Phase)
        requires
            old(self).retries <= MAX_RETRIES,
        ensures
            *final(self) == old(self).after_read_failure(e, again),
    {
        if e.is_read_retryable() && self.retries < MAX_RETRIES {
            self.phase = again;
            self.retries = self.retries + 1;
        } else {
            self.set_failed(CycleError::Gateway(e));
        }
    }

    fn pending_action(&self, started: bool, placed: bool) -> (a: Action)
        requires
            self.wf(),
        ensures
            forall|e: Event|
                e is Start == started && e is OrderPlaced == placed ==> a == #[trigger] self.action_for(e),
    {
        if self.is_finished() {
            return Action::Stop;
        }
        match self.phase {
            Phase::FetchingSnapshot => {
                let delay_ms = if self.retries == 0 || started {
                    0
                } else {
                    backoff_delay(self.retries)
                };
                Action::FetchSnapshot { delay_ms }
            },
            Phase::AwaitingPrediction => Action::RequestPrediction,
            Phase::Submitting => {
                let delay_ms = if self.retries == 0 {
                    0
                } else {
                    backoff_delay(self.retries)
                };
                match &self.order {
                    Some(o) => Action::PlaceOrder { order: o.duplicate(), delay_ms },
                    None => Action::Stop,
                }
            },
            Phase::Confirming => {
                let delay_ms = if self.retries > 0 {
                    backoff_delay(self.retries)
                } else if placed {
                    0
                } else {
                    POLL_INTERVAL_MS
                };
                match &self.handle {
                    Some(h) => Action::PollStatus { handle: h.duplicate(), delay_ms },
                    None => Action::Stop,
                }
            },
            _ => Action::Stop,
        }
    }

    /// Takes event `event` and returns what to do next.
    pub fn step(&mut self, event: Event) -> (a: Action)
        requires
            old(self).wf(),
        ensures
            *final(self) == old(self).next(event),
            a == final(self).action_for(event),
            final(self).wf(),
    {
        let started = matches!(event, Event::Start(_));
        let placed = matches!(event, Event::OrderPlaced(_));
        let ghost ev = event;
        if self.is_finished() {
            return Action::Stop;
        }
        match event {
            Event::Interrupt => self.set_failed(CycleError::Interrupted),
            Event::Start(cmd) => {
                if self.phase == Phase::Idle {
                    self.command = cmd;
                    self.phase = Phase::FetchingSnapshot;
                } else {
                    self.set_failed(CycleError::OutOfSequence);
                }
            },
            Event::SnapshotFetched => {
                if self.phase != Phase::FetchingSnapshot {
                    self.set_failed(CycleError::OutOfSequence);
                } else if self.command == Command::Account {
                    self.set_complete(Completion::AccountSummarized);
                } else {
                    self.phase = Phase::AwaitingPrediction;
                }
            },
            Event::SnapshotFailed(g) => {
                if self.phase == Phase::FetchingSnapshot {
                    self.read_failed(g, Phase::FetchingSnapshot);
                } else {
                    self.set_failed(CycleError::OutOfSequence);
                }
            },
            Event::PredictionReady(intent) => {
                if self.phase != Phase::AwaitingPrediction {
                    self.set_failed(CycleError::OutOfSequence);
                } else {
                    match intent {
                        None => self.set_failed(CycleError::UnactionablePrediction),
                        Some(i) => match translate(&i) {
                            Ok(req) => {
                                self.phase = Phase::Submitting;
                                self.retries = 0;
                                self.order = Some(req);
                            },
                            Err(v) => self.set_failed(CycleError::Validation(v)),
                        },
                    }
                }
            },
            Event::PredictionFailed(d) => {
                if self.phase != Phase::AwaitingPrediction {
                    self.set_failed(CycleError::OutOfSequence);
                } else if matches!(d, DecisionError::RateLimited) && self.retries < MAX_RETRIES {
                    self.phase = Phase::FetchingSnapshot;
                    self.retries = self.retries + 1;
                } else {
                    self.set_failed(CycleError::Decision(d));
                }
            },
            Event::OrderPlaced(h) => {
                if self.phase == Phase::Submitting {
                    self.phase = Phase::Confirming;
                    self.retries = 0;
                    self.polls = 0;
                    self.handle = Some(h);
                } else {
                    self.set_failed(CycleError::OutOfSequence);
                }
            },
            Event::OrderFailed(g) => {
                if self.phase != Phase::Submitting {
                    self.set_failed(CycleError::OutOfSequence);
                } else if g.is_write_retryable() && self.retries < MAX_RETRIES {
                    self.retries = self.retries + 1;
                } else {
                    self.set_failed(CycleError::Gateway(g));
                }
            },
            Event::StatusObserved(st) => {
                if self.phase != Phase::Confirming {
                    self.set_failed(CycleError::OutOfSequence);
                } else if st.is_terminal() {
                    self.polls = self.polls + 1;
                    self.set_complete(Completion::Terminal(st));
                } else if self.polls + 1 >= self.max_polls {
                    self.polls = self.max_polls;
                    self.set_complete(Completion::PendingExternally);
                } else {
                    self.polls = self.polls + 1;
                    self.retries = 0;
                }
            },
            Event::StatusFailed(g) => {
                if self.phase == Phase::Confirming {
                    self.read_failed(g, Phase::Confirming);
                } else {
                    self.set_failed(CycleError::OutOfSequence);
                }
            },
        }
        self.pending_action(started, placed)
    }
}

/// Every transition keeps the cycle's bookkeeping consistent with its phase.
pub proof fn lemma_next_preserves_wf(c: Cycle, e: Event)
    requires
        c.wf(),
    ensures
        c.next(e).wf(),
{
    if !c.finished() {
        if let Event::PredictionReady(Some(i)) = e {
            if c.phase == Phase::AwaitingPrediction && first_violation(
                i,
                StopPriceRule::SideOrdered,
            ) is None {
                lemma_valid_intent_gives_valid_order(i);
            }
        }
    }
}

proof fn lemma_valid_intent_gives_valid_order(i: TradeIntent)
    requires
        first_violation(i, StopPriceRule::SideOrdered) is None,
    ensures
        order_of(i).is_valid(),
{
}

/// `Done` and `Errored` absorb every event, and ask for nothing more.
pub proof fn lemma_finished_absorbs(c: Cycle, e: Event)
    requires
        c.finished(),
    ensures
        c.next(e) == c,
        c.next(e).action_for(e) == Action::Stop,
{
}

/// An order is only ever sent once it passed validation: whatever the
/// event, an order that the cycle asks to place is a valid one.
pub proof fn lemma_placed_orders_are_valid(c: Cycle, e: Event)
    requires
        c.wf(),
    ensures
        c.next(e).action_for(e) matches Action::PlaceOrder { order, .. } ==> order.is_valid(),
{
    lemma_next_preserves_wf(c, e);
}

/// A prediction whose intent breaks a validation rule ends the cycle with
/// that rule, and no order is placed.
pub proof fn lemma_invalid_intent_sends_nothing(c: Cycle, i: TradeIntent)
    requires
        c.phase == Phase::AwaitingPrediction,
        first_violation(i, StopPriceRule::SideOrdered) is Some,
    ensures
        c.next(Event::PredictionReady(Some(i))).phase == Phase::Errored,
        c.next(Event::PredictionReady(Some(i))).error == Some(
            CycleError::Validation(first_violation(i, StopPriceRule::SideOrdered)->Some_0),
        ),
        c.next(Event::PredictionReady(Some(i))).action_for(Event::PredictionReady(Some(i)))
            == Action::Stop,
{
}

/// A failed submission is sent again only when it never left the client,
/// and at most `MAX_RETRIES` times; otherwise the cycle ends with that error.
pub proof fn lemma_submission_retry(c: Cycle, g: GatewayError)
    requires
        c.wf(),
        c.phase == Phase::Submitting,
    ensures
        (g.write_retryable() && c.retries < MAX_RETRIES) ==> c.next(Event::OrderFailed(g)).phase
            == Phase::Submitting && c.next(Event::OrderFailed(g)).retries == c.retries + 1
            && c.next(Event::OrderFailed(g)).order == c.order,
        !(g.write_retryable() && c.retries < MAX_RETRIES) ==> c.next(Event::OrderFailed(g)).phase
            == Phase::Errored && c.next(Event::OrderFailed(g)).error == Some(
            CycleError::Gateway(g),
        ),
{
}

/// A rate-limited prediction sends the cycle back to re-read the market
/// after a backoff, while retries are left; it never leads to an order.
pub proof fn lemma_rate_limited_prediction(c: Cycle)
    requires
        c.wf(),
        c.phase == Phase::AwaitingPrediction,
    ensures
        ({
            let e = Event::PredictionFailed(DecisionError::RateLimited);
            let n = c.next(e);
            &&& c.retries < MAX_RETRIES ==> n.phase == Phase::FetchingSnapshot && n.action_for(e)
                == Action::FetchSnapshot { delay_ms: backoff_ms((c.retries + 1) as nat) as u64 }
            &&& c.retries == MAX_RETRIES ==> n.phase == Phase::Errored
            &&& !(n.action_for(e) is PlaceOrder)
        }),
{
}

/// An observed terminal status completes the cycle with that status.
pub proof fn lemma_terminal_status_completes(c: Cycle, s: OrderStatus)
    requires
        c.phase == Phase::Confirming,
        s.terminal(),
    ensures
        c.next(Event::StatusObserved(s)).phase == Phase::Done,
        c.next(Event::StatusObserved(s)).completion == Some(Completion::Terminal(s)),
        c.next(Event::StatusObserved(s)).action_for(Event::StatusObserved(s)) == Action::Stop,
{
}

} // verus!
