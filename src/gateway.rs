//! What the exchange gateway hands back: accounts, order handles, order
//! statuses, and the error taxonomy that every exchange failure is sorted into.
use vstd::prelude::*;

use crate::decimal::{decimal_text_units, is_amount, parse_decimal, Decimal};
use crate::text::text_is;

verus! {

broadcast use vstd::string::group_string_axioms;

/// Whether a call only reads exchange state or may change it.
#[derive(Clone, Copy, Debug, PartialEq, Eq, Structural)]
pub enum Operation {
    Read,
    Write,
}

/// A failure as the exchange client reports it.
#[derive(Clone, Debug)]
pub enum ExchangeFailure {
    /// The exchange answered with one of its numbered error codes.
    Api { code: i64 },
    /// The client answered with a message of its own for an HTTP status it
    /// does not decode (`"Unauthorized"`, `"Received response: 429"`).
    Message { text: String },
    /// The HTTP request failed; `before_send` is set when no connection
    /// could be made, so that nothing left the client.
    Request { before_send: bool },
    /// The call ran out of time.
    Timeout,
    /// A response arrived but could not be decoded.
    Decode,
}

/// The local error taxonomy for exchange calls.
#[derive(Clone, Copy, Debug, PartialEq, Eq, Structural)]
pub enum GatewayError {
    /// Unknown symbol, or an order that does not exist or is already terminal.
    NotFound,
    /// No definitive answer from the exchange. `before_send` is set when the
    /// request never left the client.
    Transport { before_send: bool },
    /// The exchange asked the client to slow down.
    RateLimited,
    /// The credentials were rejected.
    Unauthorized,
    /// A write whose effect on the exchange is unknown.
    Indeterminate,
    /// The exchange refused the request with this error code.
    Rejected { code: i64 },
    /// A read whose answer could not be understood.
    Malformed,
}

/// Exchange error code: too many requests.
pub const CODE_TOO_MANY_REQUESTS: i64 = -1003;
/// Exchange error code: too many new orders.
pub const CODE_TOO_MANY_ORDERS: i64 = -1015;
/// Exchange error code: unauthorized request.
pub const CODE_UNAUTHORIZED: i64 = -1002;
/// Exchange error code: invalid signature.
pub const CODE_INVALID_SIGNATURE: i64 = -1022;
/// Exchange error code: invalid symbol.
pub const CODE_INVALID_SYMBOL: i64 = -1121;
/// Exchange error code: cancel rejected (unknown or finished order).
pub const CODE_CANCEL_REJECTED: i64 = -2011;
/// Exchange error code: the order does not exist.
pub const CODE_NO_SUCH_ORDER: i64 = -2013;
/// Exchange error code: malformed API key.
pub const CODE_BAD_API_KEY: i64 = -2014;
/// Exchange error code: API key, IP or permissions rejected.
pub const CODE_KEY_REJECTED: i64 = -2015;

pub open spec fn error_for_code(code: i64) -> GatewayError {
    if code == CODE_TOO_MANY_REQUESTS || code == CODE_TOO_MANY_ORDERS {
        GatewayError::RateLimited
    } else if code == CODE_UNAUTHORIZED || code == CODE_INVALID_SIGNATURE || code
        == CODE_BAD_API_KEY || code == CODE_KEY_REJECTED {
        GatewayError::Unauthorized
    } else if code == CODE_INVALID_SYMBOL || code == CODE_CANCEL_REJECTED || code
        == CODE_NO_SUCH_ORDER {
        GatewayError::NotFound
    } else {
        GatewayError::Rejected { code }
    }
}

/// The answer was lost somewhere after the request was sent: harmless for
/// a read, of unknown effect for a write.
pub open spec fn lost_answer(op: Operation) -> GatewayError {
    match op {
        Operation::Read => GatewayError::Transport { before_send: false },
        Operation::Write => GatewayError::Indeterminate,
    }
}

pub open spec fn error_for_message(text: Seq<char>, op: Operation) -> GatewayError {
    if text == "Unauthorized"@ {
        GatewayError::Unauthorized
    } else if text == "Received response: 429"@ || text == "Received response: 418"@ {
        GatewayError::RateLimited
    } else {
        lost_answer(op)
    }
}

/// Where a failure of an operation of kind `op` falls in the taxonomy.
pub open spec fn classified(f: ExchangeFailure, op: Operation) -> GatewayError {
    match f {
        ExchangeFailure::Api { code } => error_for_code(code),
        ExchangeFailure::Message { text } => error_for_message(text@, op),
        ExchangeFailure::Request { before_send } => if before_send {
            GatewayError::Transport { before_send: true }
        } else {
            lost_answer(op)
        },
        ExchangeFailure::Timeout => lost_answer(op),
        ExchangeFailure::Decode => match op {
            Operation::Read => GatewayError::Malformed,
            Operation::Write => GatewayError::Indeterminate,
        },
    }
}

fn lost_answer_error(op: Operation) -> (r: GatewayError)
    ensures
        r == lost_answer(op),
{
    match op {
        Operation::Read => GatewayError::Transport { before_send: false },
        Operation::Write => GatewayError::Indeterminate,
    }
}

/// Sorts an exchange failure into the taxonomy.
pub fn classify(f: &ExchangeFailure, op: Operation) -> (r: GatewayError)
    ensures
        r == classified(*f, op),
{
    match f {
        ExchangeFailure::Api { code } => {
            let code = *code;
            if code == CODE_TOO_MANY_REQUESTS || code == CODE_TOO_MANY_ORDERS {
                GatewayError::RateLimited
            } else if code == CODE_UNAUTHORIZED || code == CODE_INVALID_SIGNATURE || code
                == CODE_BAD_API_KEY || code == CODE_KEY_REJECTED {
                GatewayError::Unauthorized
            } else if code == CODE_INVALID_SYMBOL || code == CODE_CANCEL_REJECTED || code
                == CODE_NO_SUCH_ORDER {
                GatewayError::NotFound
            } else {
                GatewayError::Rejected { code }
            }
        },
        ExchangeFailure::Message { text } => {
            if text_is(text.as_str(), "Unauthorized") {
                GatewayError::Unauthorized
            } else if text_is(text.as_str(), "Received response: 429") || text_is(
                text.as_str(),
                "Received response: 418",
            ) {
                GatewayError::RateLimited
            } else {
                lost_answer_error(op)
            }
        },
        ExchangeFailure::Request { before_send } => {
            if *before_send {
                GatewayError::Transport { before_send: true }
            } else {
                lost_answer_error(op)
            }
        },
        ExchangeFailure::Timeout => lost_answer_error(op),
        ExchangeFailure::Decode => match op {
            Operation::Read => GatewayError::Malformed,
            Operation::Write => GatewayError::Indeterminate,
        },
    }
}

impl GatewayError {
    /// A read that failed this way may be tried again.
    pub open spec fn read_retryable(self) -> bool {
        self is Transport || self is RateLimited
    }

    /// A write that failed this way may be sent again: only one that never
    /// left the client.
    pub open spec fn write_retryable(self) -> bool {
        self == GatewayError::Transport { before_send: true }
    }

    pub fn is_read_retryable(&self) -> (r: bool)
        ensures
            r == self.read_retryable(),
    {
        match self {
            GatewayError::Transport { .. } => true,
            GatewayError::RateLimited => true,
            _ => false,
        }
    }

    pub fn is_write_retryable(&self) -> (r: bool)
        ensures
            r == self.write_retryable(),
    {
        match self {
            GatewayError::Transport { before_send } => *before_send,
            _ => false,
        }
    }
}

/// A write that fails after it may have reached the exchange is never
/// classified as one that may be sent again.
pub proof fn lemma_lost_write_not_retried(f: ExchangeFailure)
    requires
        !(f == ExchangeFailure::Request { before_send: true }),
    ensures
        !classified(f, Operation::Write).write_retryable(),
{
}

/// The state of an order on the exchange.
#[derive(Clone, Copy, Debug, PartialEq, Eq, Structural)]
pub enum OrderStatus {
    New,
    PartiallyFilled,
    Filled,
    Canceled,
    PendingCancel,
    Rejected,
    Expired,
}

impl OrderStatus {
    pub open spec fn terminal(self) -> bool {
        self is Filled || self is Canceled || self is Rejected || self is Expired
    }

    /// Filled, canceled, rejected and expired orders change no more.
    pub fn is_terminal(&self) -> (r: bool)
        ensures
            r == self.terminal(),
    {
        match self {
            OrderStatus::Filled | OrderStatus::Canceled | OrderStatus::Rejected
            | OrderStatus::Expired => true,
            _ => false,
        }
    }
}

pub open spec fn status_named(s: Seq<char>) -> Option<OrderStatus> {
    if s == "NEW"@ {
        Some(OrderStatus::New)
    } else if s == "PARTIALLY_FILLED"@ {
        Some(OrderStatus::PartiallyFilled)
    } else if s == "FILLED"@ {
        Some(OrderStatus::Filled)
    } else if s == "CANCELED"@ {
        Some(OrderStatus::Canceled)
    } else if s == "PENDING_CANCEL"@ {
        Some(OrderStatus::PendingCancel)
    } else if s == "REJECTED"@ {
        Some(OrderStatus::Rejected)
    } else if s == "EXPIRED"@ || s == "EXPIRED_IN_MATCH"@ {
        Some(OrderStatus::Expired)
    } else {
        None
    }
}

/// Reads an order status by the exchange's name of it.
pub fn parse_order_status(s: &str) -> (r: Option<OrderStatus>)
    ensures
        r == status_named(s@),
{
    if text_is(s, "NEW") {
        Some(OrderStatus::New)
    } else if text_is(s, "PARTIALLY_FILLED") {
        Some(OrderStatus::PartiallyFilled)
    } else if text_is(s, "FILLED") {
        Some(OrderStatus::Filled)
    } else if text_is(s, "CANCELED") {
        Some(OrderStatus::Canceled)
    } else if text_is(s, "PENDING_CANCEL") {
        Some(OrderStatus::PendingCancel)
    } else if text_is(s, "REJECTED") {
        Some(OrderStatus::Rejected)
    } else if text_is(s, "EXPIRED") || text_is(s, "EXPIRED_IN_MATCH") {
        Some(OrderStatus::Expired)
    } else {
        None
    }
}

/// What is kept of a submitted order: enough to poll and cancel it.
#[derive(Clone, Debug)]
pub struct OrderHandle {
    pub symbol: String,
    pub order_id: u64,
}

impl OrderHandle {
    /// A copy of the handle, equal to it.
    pub fn duplicate(&self) -> (r: OrderHandle)
        ensures
            r == *self,
    {
        OrderHandle { symbol: self.symbol.clone(), order_id: self.order_id }
    }
}

/// One asset's balance, amounts as the exchange writes them.
#[derive(Clone, Debug)]
pub struct Balance {
    pub asset: String,
    pub free: String,
    pub locked: String,
}

/// Account permissions and balances.
#[derive(Clone, Debug)]
pub struct AccountSnapshot {
    pub can_trade: bool,
    pub can_withdraw: bool,
    pub can_deposit: bool,
    pub balances: Vec<Balance>,
}

pub open spec fn balance_ok(b: Balance) -> bool {
    is_amount(b.free@) && is_amount(b.locked@)
}

pub open spec fn assets_distinct(bs: Seq<Balance>) -> bool {
    forall|i: int, j: int| 0 <= i < j < bs.len() ==> bs[i].asset@ != bs[j].asset@
}

pub open spec fn balances_ok(bs: Seq<Balance>) -> bool {
    &&& assets_distinct(bs)
    &&& forall|i: int| 0 <= i < bs.len() ==> balance_ok(#[trigger] bs[i])
}

impl Balance {
    /// The free amount as an exact decimal.
    pub fn free_amount(&self) -> (r: Decimal)
        requires
            balance_ok(*self),
        ensures
            r.units == decimal_text_units(self.free@),
    {
        match parse_decimal(self.free.as_str()) {
            Some(d) => d,
            None => Decimal { units: 0 },
        }
    }

    /// The locked amount as an exact decimal.
    pub fn locked_amount(&self) -> (r: Decimal)
        requires
            balance_ok(*self),
        ensures
            r.units == decimal_text_units(self.locked@),
    {
        match parse_decimal(self.locked.as_str()) {
            Some(d) => d,
            None => Decimal { units: 0 },
        }
    }
}

impl AccountSnapshot {
    /// Each asset appears once and every amount is a non-negative decimal.
    pub open spec fn wf(&self) -> bool {
        balances_ok(self.balances@)
    }

    /// Builds a snapshot from what the exchange reported. Fails with
    /// `Malformed` when an asset repeats or an amount is not a decimal.
    pub fn from_wire(
        can_trade: bool,
        can_withdraw: bool,
        can_deposit: bool,
        balances: Vec<Balance>,
    ) -> (r: Result<AccountSnapshot, GatewayError>)
        ensures
            r is Ok <==> balances_ok(balances@),
            r is Ok ==> r->Ok_0.wf() && r->Ok_0.balances@ == balances@ && r->Ok_0.can_trade
                == can_trade && r->Ok_0.can_withdraw == can_withdraw && r->Ok_0.can_deposit
                == can_deposit,
            r is Err ==> r->Err_0 == GatewayError::Malformed,
    {
        let n = balances.len();
        let mut i: usize = 0;
        while i < n
            invariant
                n == balances@.len(),
                i <= n,
                balances_ok(balances@.subrange(0, i as int)),
            decreases n - i,
        {
            let b = &balances[i];
            let ghost pre = balances@.subrange(0, i as int);
            let ghost next = balances@.subrange(0, i + 1);
            if parse_decimal(b.free.as_str()).is_none() || parse_decimal(
                b.locked.as_str(),
            ).is_none() {
                assert(!balance_ok(balances@[i as int]));
                return Err(GatewayError::Malformed);
            }
            let mut j: usize = 0;
            while j < i
                invariant
                    n == balances@.len(),
                    j <= i < n,
                    b == balances@[i as int],
                    forall|k: int| 0 <= k < j ==> balances@[k].asset@ != b.asset@,
                decreases i - j,
            {
                if text_is(balances[j].asset.as_str(), b.asset.as_str()) {
                    assert(balances@[j as int].asset@ == balances@[i as int].asset@);
                    return Err(GatewayError::Malformed);
                }
                j = j + 1;
            }
            proof {
                assert forall|k: int| 0 <= k < next.len() implies balance_ok(#[trigger] next[k]) by {
                    if k < i {
                        assert(next[k] == pre[k]);
                    }
                }
                assert forall|k: int, l: int| 0 <= k < l < next.len() implies next[k].asset@
                    != next[l].asset@ by {
                    if l < i {
                        assert(next[k] == pre[k]);
                        assert(next[l] == pre[l]);
                    }
                }
            }
            i = i + 1;
        }
        assert(balances@.subrange(0, n as int) =~= balances@);
        Ok(AccountSnapshot { can_trade, can_withdraw, can_deposit, balances })
    }
}

} // verus!
