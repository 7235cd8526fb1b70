use cexarbot::decision::{
    account_prompt, interpret_response, market_prompt, Choice, DecisionError, OpenAIRequest,
    OpenAIResponse,
};
use cexarbot::gateway::{AccountSnapshot, Balance};

#[test]
fn market_prompt_names_symbol() {
    assert_eq!(market_prompt("BTCUSDT"), "Analyze the market for BTCUSDT and provide a trading decision.");
}

#[test]
fn account_prompt_lists_balances_and_permissions() {
    let a = AccountSnapshot::from_wire(
        true,
        true,
        false,
        vec![
            Balance { asset: "BTC".to_string(), free: "0.1".to_string(), locked: "0.0".to_string() },
            Balance { asset: "ETH".to_string(), free: "1.0".to_string(), locked: "0.0".to_string() },
        ],
    )
    .unwrap();
    assert_eq!(
        account_prompt(&a),
        "You have the following balances: BTC: 0.1, ETH: 1.0. Your account can trade: true, can withdraw: true, can deposit: false."
    );
    let empty = AccountSnapshot::from_wire(false, false, false, vec![]).unwrap();
    assert_eq!(
        account_prompt(&empty),
        "You have the following balances: . Your account can trade: false, can withdraw: false, can deposit: false."
    );
}

#[test]
fn request_body_escapes_prompt() {
    let req = OpenAIRequest::new("Say \"hi\"\nnow".to_string());
    assert_eq!(req.max_tokens, 256);
    let body = req.body();
    assert_eq!(
        body,
        "{\"model\":\"gpt-3.5-turbo-16k\",\"messages\":[{\"role\":\"user\",\"content\":\"Say \\\"hi\\\"\\nnow\"}],\"temperature\":1,\"max_tokens\":256,\"top_p\":1,\"frequency_penalty\":0,\"presence_penalty\":0}"
    );
    let v: serde_json::Value = serde_json::from_str(&body).unwrap();
    assert_eq!(v["messages"][0]["content"], "Say \"hi\"\nnow");
}

#[test]
fn control_characters_are_escaped() {
    let req = OpenAIRequest::new("a\tb\u{1}c\u{1f}\\d\u{8}\u{c}\r/é".to_string());
    let body = req.body();
    assert!(body.contains("\"content\":\"a\\tb\\u0001c\\u001f\\\\d\\b\\f\\r/é\"}"), "{}", body);
    assert!(body.chars().all(|c| c as u32 >= 0x20));
    let v: serde_json::Value = serde_json::from_str(&body).unwrap();
    assert_eq!(v["messages"][0]["content"], "a\tb\u{1}c\u{1f}\\d\u{8}\u{c}\r/é");
}

#[test]
fn frame_body_writes_token_budget() {
    let req = OpenAIRequest { prompt: String::new(), max_tokens: 1000 };
    let body = req.frame_body("\"x\"");
    assert!(body.contains("\"content\":\"x\"}"));
    assert!(body.contains("\"max_tokens\":1000,"));
}

fn resp(texts: &[&str]) -> OpenAIResponse {
    OpenAIResponse { choices: texts.iter().map(|t| Choice { text: t.to_string() }).collect() }
}

#[test]
fn first_choice_is_taken_verbatim() {
    let r = interpret_response("p".to_string(), 200, "{}".to_string(), Some(resp(&["BUY it", "no"]))).unwrap();
    assert_eq!(r.text, "BUY it");
    assert_eq!(r.prompt, "p");
}

#[test]
fn empty_choices_are_malformed() {
    let r = interpret_response("p".to_string(), 200, "{\"choices\":[]}".to_string(), Some(resp(&[])));
    assert!(matches!(r, Err(DecisionError::MalformedResponse)));
    let r = interpret_response("p".to_string(), 200, "garbage".to_string(), None);
    assert!(matches!(r, Err(DecisionError::MalformedResponse)));
}

#[test]
fn service_statuses_are_reported() {
    let r = interpret_response("p".to_string(), 429, "slow down".to_string(), None);
    assert!(matches!(r, Err(DecisionError::RateLimited)));
    let r = interpret_response("p".to_string(), 500, "boom".to_string(), Some(resp(&["x"])));
    match r {
        Err(DecisionError::ServiceError { status, body }) => {
            assert_eq!(status, 500);
            assert_eq!(body, "boom");
        }
        _ => panic!("expected a service error"),
    }
}
