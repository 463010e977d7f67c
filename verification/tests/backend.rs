use medium_summary::error::{AISummaryError, ClientError, VarError};
use medium_summary::header::header_value;
use reqwest::header::InvalidHeaderValue;
use medium_summary::summary::{
    api_header_map, AISummary, Claude3agent, Claude3respose, Claude3resposeContent, Exchange, OllamaAgent,
    API_VERSION, CONTENT_TYPE, INSTRUCTION, MAX_TOKENS, USER_ROLE,
};
use std::time::Duration;

const MODEL: &str = "haiku-20240307";

fn agent(key: &str, url: &str) -> Claude3agent {
    Claude3agent::new(Ok(key.to_string()), Ok(url.to_string()), Ok(MODEL.to_string())).unwrap()
}

fn rejects_empty_values(value: &str) -> Result<(), InvalidHeaderValue> {
    if value.is_empty() {
        Err(header_value("\n").unwrap_err())
    } else {
        header_value(value).map(|_| ())
    }
}

fn transport_error() -> reqwest::Error {
    reqwest::Client::new().get("not an address").build().unwrap_err()
}

fn reply(texts: &[&str]) -> Claude3respose {
    let blocks = texts.iter().map(|t| Claude3resposeContent::new(t.to_string())).collect();
    Claude3respose::new(blocks, "msg_01".to_string(), MODEL.to_string())
}

#[test]
fn missing_key_is_reported_first() {
    let r = Claude3agent::new(
        Err(VarError::NotPresent),
        Err(VarError::NotUnicode),
        Err(VarError::NotUnicode),
    );
    assert!(matches!(r, Err(AISummaryError::NoAPIKey(VarError::NotPresent))));
}

#[test]
fn missing_address_is_reported() {
    let r = Claude3agent::new(
        Ok("k".to_string()),
        Err(VarError::NotUnicode),
        Err(VarError::NotPresent),
    );
    assert!(matches!(r, Err(AISummaryError::NoAPIURL(VarError::NotUnicode))));
}

#[test]
fn body_holds_model_instruction_budget_and_text() {
    let body = agent("k", "https://api.example/v1/messages").build_body("the article".to_string());
    assert_eq!(body.model, "haiku-20240307");
    assert_eq!(body.system, "can you summarize this as bullet point with english lang");
    assert_eq!(body.max_tokens, 1024);
    assert_eq!(body.messages.len(), 1);
    assert_eq!(body.messages[0].role, "user");
    assert_eq!(body.messages[0].content, "the article");
}

#[test]
fn body_constants_are_spelled_out() {
    assert_eq!(INSTRUCTION, "can you summarize this as bullet point with english lang");
    assert_eq!(MAX_TOKENS, 1024);
    assert_eq!(USER_ROLE, "user");
    assert_eq!(API_VERSION, "2023-06-01");
    assert_eq!(CONTENT_TYPE, "application/json");
}

#[test]
fn body_is_the_same_for_the_same_text() {
    let a = agent("k", "u");
    let text = "line one\nline \"two\" \\ \u{4e16}\u{754c}";
    let first = a.build_body(text.to_string());
    let second = a.build_body(text.to_string());
    assert_eq!(first.model, second.model);
    assert_eq!(first.system, second.system);
    assert_eq!(first.max_tokens, second.max_tokens);
    assert_eq!(first.messages.len(), second.messages.len());
    assert_eq!(first.messages[0].role, second.messages[0].role);
    assert_eq!(first.messages[0].content, second.messages[0].content);
    assert_eq!(first.messages[0].content, text);
}

#[test]
fn body_keeps_a_long_text_whole() {
    let text = "x".repeat(200_000);
    let body = agent("k", "u").build_body(text.clone());
    assert_eq!(body.messages[0].content, text);
}

#[test]
fn key_with_newline_fails_before_any_post() {
    let a = agent("secret\nvalue", "https://api.example/v1/messages");
    let mut posts = 0;
    let r = a.fetch("text".to_string(), None, |_request| {
        posts += 1;
        Exchange::Reply(reply(&["never"]))
    });
    assert!(matches!(r, Err(AISummaryError::FetchFailed(ClientError::InsertHeaderFailed(_)))));
    assert_eq!(posts, 0);
}

#[test]
fn empty_key_passes_the_header_check() {
    let a = agent("", "https://api.example/v1/messages");
    let mut posts = 0;
    let r = a.fetch("text".to_string(), None, |_request| {
        posts += 1;
        Exchange::Reply(reply(&["ok"]))
    });
    assert!(r.is_ok());
    assert_eq!(posts, 1);
}

#[test]
fn fetch_hands_address_body_and_headers_to_the_transport() {
    let a = agent("key-123", "https://api.example/v1/messages");
    let limit = Some(Duration::from_secs(30));
    let mut posts = 0;
    let r = a.fetch("the article".to_string(), limit, |request| {
        posts += 1;
        assert_eq!(request.url, "https://api.example/v1/messages");
        assert_eq!(request.deadline, limit);
        assert_eq!(request.body.model, MODEL);
        assert_eq!(request.body.system, INSTRUCTION);
        assert_eq!(request.body.max_tokens, 1024);
        assert_eq!(request.body.messages.len(), 1);
        assert_eq!(request.body.messages[0].role, "user");
        assert_eq!(request.body.messages[0].content, "the article");
        assert_eq!(request.headers.len(), 3);
        assert_eq!(request.headers.get("x-api-key").unwrap().as_bytes(), b"key-123");
        assert_eq!(request.headers.get("anthropic-version").unwrap().as_bytes(), b"2023-06-01");
        assert_eq!(request.headers.get("content-type").unwrap().as_bytes(), b"application/json");
        Exchange::Reply(reply(&["first", "second"]))
    });
    assert_eq!(posts, 1);
    let response = r.unwrap();
    assert_eq!(response.segments(), vec!["first".to_string(), "second".to_string()]);
    assert_eq!(response.id(), "msg_01");
    assert_eq!(response.model(), MODEL);
}

#[test]
fn send_failure_is_wrapped_as_transport_failure() {
    let a = agent("k", "https://api.example/v1/messages");
    let r = a.fetch("t".to_string(), None, |_request| Exchange::SendFailed(transport_error()));
    assert!(matches!(r, Err(AISummaryError::FetchFailed(ClientError::FetchFailed(_)))));
}

#[test]
fn reply_of_wrong_shape_is_a_parse_failure() {
    let a = agent("k", "https://api.example/v1/messages");
    let r = a.fetch("t".to_string(), None, |_request| Exchange::BadReply(transport_error()));
    assert!(matches!(r, Err(AISummaryError::FetchFailed(ClientError::ParseError(_)))));
}

#[test]
fn exchange_settles_without_a_backend() {
    assert_eq!(Exchange::Reply(7u8).into_result().unwrap(), 7);
    assert!(matches!(
        Exchange::<u8>::SendFailed(transport_error()).into_result(),
        Err(AISummaryError::FetchFailed(ClientError::FetchFailed(_)))
    ));
    assert!(matches!(
        Exchange::<u8>::BadReply(transport_error()).into_result(),
        Err(AISummaryError::FetchFailed(ClientError::ParseError(_)))
    ));
}

#[test]
fn response_keeps_the_order_of_its_blocks() {
    let response = reply(&["c", "a", "b"]);
    assert_eq!(response.segments(), vec!["c".to_string(), "a".to_string(), "b".to_string()]);
    assert_eq!(response.content().len(), 3);
    assert_eq!(response.content()[0].text(), "c");
    assert_eq!(response.content()[2].text(), "b");
}

#[test]
fn response_without_blocks_has_no_segments() {
    let response = reply(&[]);
    assert!(response.segments().is_empty());
    assert_eq!(response.id(), "msg_01");
}

#[test]
fn local_backend_can_be_made() {
    let _agent: OllamaAgent = OllamaAgent::new();
}

#[test]
fn api_header_map_holds_key_version_and_content_type() {
    let headers = api_header_map("key-123").unwrap();
    assert_eq!(headers.len(), 3);
    assert_eq!(headers.get("x-api-key").unwrap().as_bytes(), b"key-123");
    assert_eq!(headers.get("anthropic-version").unwrap().as_bytes(), b"2023-06-01");
    assert_eq!(headers.get(reqwest::header::CONTENT_TYPE).unwrap().as_bytes(), b"application/json");
}

#[test]
fn api_header_map_refuses_a_key_with_control_characters() {
    assert!(api_header_map("key\n").is_err());
    assert!(api_header_map("key\u{7f}").is_err());
    assert!(api_header_map("").is_ok());
}

#[test]
fn empty_key_under_a_validator_that_rejects_empty_values_fails_before_any_post() {
    let a = agent("", "https://api.example/v1/messages");
    let verdict = rejects_empty_values(a.apikey());
    let mut posts = 0;
    let r = a.fetch_checked(verdict, "text".to_string(), None, |_request| {
        posts += 1;
        Exchange::Reply(reply(&["never"]))
    });
    assert!(matches!(r, Err(AISummaryError::FetchFailed(ClientError::InsertHeaderFailed(_)))));
    assert_eq!(posts, 0);
}

#[test]
fn accepted_key_under_a_stricter_validator_is_sent() {
    let a = agent("key-123", "https://api.example/v1/messages");
    let verdict = rejects_empty_values(a.apikey());
    let mut posts = 0;
    let r = a.fetch_checked(verdict, "text".to_string(), None, |request| {
        posts += 1;
        assert_eq!(request.headers.get("x-api-key").unwrap().as_bytes(), b"key-123");
        Exchange::Reply(reply(&["done"]))
    });
    assert_eq!(r.unwrap().segments(), vec!["done".to_string()]);
    assert_eq!(posts, 1);
}

#[test]
fn accepting_verdict_does_not_outvote_the_header_check() {
    let a = agent("bad\u{0}key", "https://api.example/v1/messages");
    let mut posts = 0;
    let r = a.fetch_checked(Ok(()), "text".to_string(), None, |_request| {
        posts += 1;
        Exchange::Reply(reply(&["never"]))
    });
    assert!(matches!(r, Err(AISummaryError::FetchFailed(ClientError::InsertHeaderFailed(_)))));
    assert_eq!(posts, 0);
}

#[test]
fn agent_keeps_what_it_was_made_with() {
    let a = agent("key-123", "https://api.example/v1/messages");
    assert_eq!(a.apikey(), "key-123");
    assert_eq!(a.url(), "https://api.example/v1/messages");
    assert_eq!(a.model(), MODEL);
}

#[test]
fn backend_failures_have_their_words() {
    assert_eq!(
        AISummaryError::FetchFailed(ClientError::MissMatch).message(),
        "failed to fetch summary from agent"
    );
    assert_eq!(AISummaryError::NoAPIKey(VarError::NotPresent).message(), "No api key");
    assert_eq!(AISummaryError::NoAPIURL(VarError::NotUnicode).message(), "No api url");
    assert_eq!(AISummaryError::NoModel(VarError::NotPresent).message(), "No model");
}

#[test]
fn transport_that_cannot_run_is_never_run_for_a_refused_key() {
    let a = agent("secret\nvalue", "https://api.example/v1/messages");
    let r = a.fetch("text".to_string(), None, |_request| -> Exchange<Claude3respose> {
        panic!("no request may leave")
    });
    assert!(matches!(r, Err(AISummaryError::FetchFailed(ClientError::InsertHeaderFailed(_)))));
}

#[test]
fn missing_model_is_reported_last() {
    let r = Claude3agent::new(
        Ok("k".to_string()),
        Ok("u".to_string()),
        Err(VarError::NotUnicode),
    );
    assert!(matches!(r, Err(AISummaryError::NoModel(VarError::NotUnicode))));
}

#[test]
fn model_without_a_name_is_missing() {
    let r = Claude3agent::new(Ok("k".to_string()), Ok("u".to_string()), Ok(String::new()));
    assert!(matches!(r, Err(AISummaryError::NoModel(VarError::NotPresent))));
}

#[test]
fn empty_key_and_address_still_make_a_backend() {
    let a = Claude3agent::new(Ok(String::new()), Ok(String::new()), Ok("m".to_string())).unwrap();
    assert_eq!(a.apikey(), "");
    assert_eq!(a.url(), "");
    assert_eq!(a.build_body("t".to_string()).model, "m");
}
