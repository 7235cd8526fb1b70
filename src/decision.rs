//! The decision engine: prompts from market and account state, the request
//! sent to the prediction service, and the reading of its answer.
use vstd::prelude::*;

use crate::gateway::{AccountSnapshot, Balance};
use crate::intent::{intent_hint, intent_hint_text};
use crate::text::{decimal_digits, number_text};

verus! {

/// serde_json's error type, carried without looking inside.
#[verifier::external_type_specification]
#[verifier::external_body]
pub struct ExJsonError(serde_json::Error);

/// Lowercase hexadecimal digit of `n < 16`.
pub open spec fn hex_digit(n: int) -> char {
    if n < 10 {
        (n + '0' as int) as char
    } else {
        (n - 10 + 'a' as int) as char
    }
}

/// How one character is written inside a JSON string literal: quote and
/// backslash escaped, the usual short escapes for backspace, tab, newline,
/// form feed and carriage return, `\u00XX` for any other character below
/// 0x20, every other character unchanged.
pub open spec fn json_char_escape(c: char) -> Seq<char> {
    if c == '"' {
        seq!['\\', '"']
    } else if c == '\\' {
        seq!['\\', '\\']
    } else if c == '\u{8}' {
        seq!['\\', 'b']
    } else if c == '\t' {
        seq!['\\', 't']
    } else if c == '\n' {
        seq!['\\', 'n']
    } else if c == '\u{c}' {
        seq!['\\', 'f']
    } else if c == '\r' {
        seq!['\\', 'r']
    } else if (c as int) < 0x20 {
        seq!['\\', 'u', '0', '0', hex_digit(c as int / 16), hex_digit(c as int % 16)]
    } else {
        seq![c]
    }
}

/// The characters of `s`, each escaped.
pub open spec fn json_escaped(s: Seq<char>) -> Seq<char>
    decreases s.len(),
{
    if s.len() == 0 {
        Seq::empty()
    } else {
        json_escaped(s.drop_last()) + json_char_escape(s.last())
    }
}

/// The JSON string literal that encodes `s`: a quote, the escaped
/// characters, a quote.
pub open spec fn json_string_literal(s: Seq<char>) -> Seq<char> {
    seq!['"'] + json_escaped(s) + seq!['"']
}

/// Relies on `serde_json::to_string` on a `str`: it never fails (it writes
/// into a `Vec`, whose writes always succeed) and writes the text as one
/// JSON string literal, escaped as `json_char_escape` says.
#[verifier::external_body]
fn json_quote(s: &str) -> (r: Result<String, serde_json::Error>)
    ensures
        r is Ok,
        r is Ok ==> r->Ok_0@ == json_string_literal(s@),
{
    serde_json::to_string(s)
}

/// Completion budget asked of the prediction service.
pub const MAX_COMPLETION_TOKENS: u16 = 256;

/// A request to the prediction service.
#[derive(Clone, Debug)]
pub struct OpenAIRequest {
    pub prompt: String,
    pub max_tokens: u16,
}

/// One candidate completion.
#[derive(Clone, Debug)]
pub struct Choice {
    pub text: String,
}

/// The decoded answer of the prediction service.
#[derive(Clone, Debug)]
pub struct OpenAIResponse {
    pub choices: Vec<Choice>,
}

/// The text of a prediction, with the prompt that produced it.
#[derive(Clone, Debug)]
pub struct PredictionResult {
    pub prompt: String,
    pub text: String,
}

/// Why no prediction came back.
#[derive(Clone, Debug)]
pub enum DecisionError {
    /// The service could not be reached, or its answer was lost.
    Transport,
    /// The service answered HTTP 429.
    RateLimited,
    /// Any other status outside 2xx, with the body for diagnostics.
    ServiceError { status: u16, body: String },
    /// A 2xx answer without a usable completion.
    MalformedResponse,
}

/// HTTP status for "too many requests".
pub const STATUS_TOO_MANY_REQUESTS: u16 = 429;

pub open spec fn bool_text(b: bool) -> Seq<char> {
    if b {
        "true"@
    } else {
        "false"@
    }
}

pub open spec fn balance_entry(b: Balance) -> Seq<char> {
    b.asset@ + ": "@ + b.free@
}

/// The balances as `asset: free` entries joined by `", "`.
pub open spec fn balances_text(bs: Seq<Balance>) -> Seq<char>
    decreases bs.len(),
{
    if bs.len() == 0 {
        Seq::empty()
    } else if bs.len() == 1 {
        balance_entry(bs[0])
    } else {
        balances_text(bs.drop_last()) + ", "@ + balance_entry(bs.last())
    }
}

pub open spec fn account_prompt_text(a: AccountSnapshot) -> Seq<char> {
    "You have the following balances: "@ + balances_text(a.balances@) + ". Your account can trade: "@
        + bool_text(a.can_trade) + ", can withdraw: "@ + bool_text(a.can_withdraw)
        + ", can deposit: "@ + bool_text(a.can_deposit) + "."@
}

pub open spec fn market_prompt_text(symbol: Seq<char>) -> Seq<char> {
    "Analyze the market for "@ + symbol + " and provide a trading decision."@
}

pub open spec fn chat_body_text(quoted_prompt: Seq<char>, max_tokens: nat) -> Seq<char> {
    "{\"model\":\"gpt-3.5-turbo-16k\",\"messages\":[{\"role\":\"user\",\"content\":"@
        + quoted_prompt + "}],\"temperature\":1,\"max_tokens\":"@ + decimal_digits(max_tokens)
        + ",\"top_p\":1,\"frequency_penalty\":0,\"presence_penalty\":0}"@
}

fn bool_word(b: bool) -> (r: &'static str)
    ensures
        r@ == bool_text(b),
{
    if b {
        "true"
    } else {
        "false"
    }
}

/// The prompt that asks for a trading decision on `symbol`.
pub fn market_prompt(symbol: &str) -> (r: String)
    ensures
        r@ == market_prompt_text(symbol@),
{
    let r = String::from_str("Analyze the market for ");
    let r = r.concat(symbol);
    r.concat(" and provide a trading decision.")
}

/// The prompt that asks for a summary of an account: its balances and
/// permissions, written as text.
pub fn account_prompt(account: &AccountSnapshot) -> (r: String)
    ensures
        r@ == account_prompt_text(*account),
{
    let bs = &account.balances;
    let mut list = String::new();
    let mut i: usize = 0;
    while i < bs.len()
        invariant
            i <= bs@.len(),
            list@ == balances_text(bs@.subrange(0, i as int)),
        decreases bs@.len() - i,
    {
        let ghost pre = bs@.subrange(0, i as int);
        let ghost next = bs@.subrange(0, i + 1);
        assert(next.drop_last() =~= pre);
        assert(next.last() == bs@[i as int]);
        if i > 0 {
            list.append(", ");
        } else {
            assert(pre =~= Seq::<Balance>::empty());
        }
        list.append(bs[i].asset.as_str());
        list.append(": ");
        list.append(bs[i].free.as_str());
        assert(list@ =~= balances_text(next));
        i = i + 1;
    }
    assert(bs@.subrange(0, bs@.len() as int) =~= bs@);
    let mut r = String::from_str("You have the following balances: ");
    r.append(list.as_str());
    r.append(". Your account can trade: ");
    r.append(bool_word(account.can_trade));
    r.append(", can withdraw: ");
    r.append(bool_word(account.can_withdraw));
    r.append(", can deposit: ");
    r.append(bool_word(account.can_deposit));
    r.append(".");
    r
}

/// The prompt for a trade decision on `symbol`, followed by the form the
/// answer must take.
pub fn trade_prompt(symbol: &str) -> (r: String)
    ensures
        r@ == market_prompt_text(symbol@) + " "@ + intent_hint_text(),
{
    let mut r = market_prompt(symbol);
    r.append(" ");
    r.append(intent_hint());
    r
}

impl OpenAIRequest {
    /// A request for `prompt` with the standard completion budget.
    pub fn new(prompt: String) -> (r: OpenAIRequest)
        ensures
            r.prompt == prompt,
            r.max_tokens == MAX_COMPLETION_TOKENS,
    {
        OpenAIRequest { prompt, max_tokens: MAX_COMPLETION_TOKENS }
    }

    /// The JSON body of the chat request, built around the prompt already
    /// encoded as a JSON string literal.
    pub fn frame_body(&self, quoted_prompt: &str) -> (r: String)
        ensures
            r@ == chat_body_text(quoted_prompt@, self.max_tokens as nat),
    {
        let mut r = String::from_str(
            "{\"model\":\"gpt-3.5-turbo-16k\",\"messages\":[{\"role\":\"user\",\"content\":",
        );
        r.append(quoted_prompt);
        r.append("}],\"temperature\":1,\"max_tokens\":");
        let n = number_text(self.max_tokens as u64);
        r.append(n.as_str());
        r.append(",\"top_p\":1,\"frequency_penalty\":0,\"presence_penalty\":0}");
        r
    }

    /// The JSON body of the chat request: one user message that holds the
    /// prompt. It never fails: any prompt text can be encoded.
    pub fn body(&self) -> (r: String)
        ensures
            r@ == chat_body_text(json_string_literal(self.prompt@), self.max_tokens as nat),
    {
        match json_quote(self.prompt.as_str()) {
            Ok(q) => self.frame_body(q.as_str()),
            Err(_) => String::new(),
        }
    }

}

pub open spec fn is_success(status: u16) -> bool {
    200 <= status <= 299
}

/// The encoded prompt holds no raw control character, whatever the prompt:
/// every character below 0x20 is written as an escape.
pub proof fn lemma_literal_has_no_control_chars(s: Seq<char>)
    ensures
        forall|i: int|
            0 <= i < json_string_literal(s).len() ==> (#[trigger] json_string_literal(s)[i]) as int
                >= 0x20,
{
    lemma_escaped_has_no_control_chars(s);
    let l = json_string_literal(s);
    let e = json_escaped(s);
    assert forall|i: int| 0 <= i < l.len() implies (#[trigger] l[i]) as int >= 0x20 by {
        if 0 < i < l.len() - 1 {
            assert(l[i] == e[i - 1]);
        }
    }
}

proof fn lemma_char_escape_no_control(c: char)
    ensures
        forall|i: int|
            0 <= i < json_char_escape(c).len() ==> (#[trigger] json_char_escape(c)[i]) as int
                >= 0x20,
{
    let e = json_char_escape(c);
    assert forall|i: int| 0 <= i < e.len() implies (#[trigger] e[i]) as int >= 0x20 by {
        if (c as int) < 0x20 && c != '\u{8}' && c != '\t' && c != '\n' && c != '\u{c}' && c
            != '\r' && i >= 4 {
            assert(0 <= c as int / 16 < 16);
            assert(0 <= c as int % 16 < 16);
        }
    }
}

proof fn lemma_escaped_has_no_control_chars(s: Seq<char>)
    ensures
        forall|i: int|
            0 <= i < json_escaped(s).len() ==> (#[trigger] json_escaped(s)[i]) as int >= 0x20,
    decreases s.len(),
{
    if s.len() > 0 {
        let p = json_escaped(s.drop_last());
        let q = json_char_escape(s.last());
        lemma_escaped_has_no_control_chars(s.drop_last());
        lemma_char_escape_no_control(s.last());
        assert forall|i: int| 0 <= i < (p + q).len() implies (#[trigger] (p + q)[i]) as int
            >= 0x20 by {
            if i < p.len() {
                assert((p + q)[i] == p[i]);
            } else {
                assert((p + q)[i] == q[i - p.len()]);
            }
        }
    }
}

/// What an answer of the prediction service amounts to: `status` is its
/// HTTP status, `body` its text, `parsed` the body decoded, if it could be.
/// The first completion's text is taken verbatim.
pub open spec fn response_outcome(
    prompt: String,
    status: u16,
    body: String,
    parsed: Option<OpenAIResponse>,
) -> Result<PredictionResult, DecisionError> {
    if status == STATUS_TOO_MANY_REQUESTS {
        Err(DecisionError::RateLimited)
    } else if !is_success(status) {
        Err(DecisionError::ServiceError { status, body })
    } else {
        match parsed {
            Some(p) => if p.choices@.len() > 0 {
                Ok(PredictionResult { prompt, text: p.choices@[0].text })
            } else {
                Err(DecisionError::MalformedResponse)
            },
            None => Err(DecisionError::MalformedResponse),
        }
    }
}

/// Reads an answer of the prediction service.
pub fn interpret_response(
    prompt: String,
    status: u16,
    body: String,
    parsed: Option<OpenAIResponse>,
) -> (r: Result<PredictionResult, DecisionError>)
    ensures
        r == response_outcome(prompt, status, body, parsed),
{
    if status == STATUS_TOO_MANY_REQUESTS {
        return Err(DecisionError::RateLimited);
    }
    if status < 200 || status > 299 {
        return Err(DecisionError::ServiceError { status, body });
    }
    match parsed {
        None => Err(DecisionError::MalformedResponse),
        Some(p) => {
            if p.choices.len() == 0 {
                Err(DecisionError::MalformedResponse)
            } else {
                let text = p.choices[0].text.clone();
                Ok(PredictionResult { prompt, text })
            }
        },
    }
}

/// A successful answer without any completion is reported as
/// `MalformedResponse`: there is no first completion to read.
pub proof fn lemma_empty_choices_malformed(
    prompt: String,
    status: u16,
    body: String,
    resp: OpenAIResponse,
)
    requires
        is_success(status),
        resp.choices@.len() == 0,
    ensures
        response_outcome(prompt, status, body, Some(resp)) == Err::<
            PredictionResult,
            DecisionError,
        >(DecisionError::MalformedResponse),
{
}

} // verus!
