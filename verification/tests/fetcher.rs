use medium_summary::error::ClientError;
use medium_summary::medium::{session_header_map, MediumClient, Transfer, ORIGIN, USER_AGENT};
use std::time::Duration;

fn transport_error() -> reqwest::Error {
    reqwest::Client::new().get("not an address").build().unwrap_err()
}

#[test]
fn cookie_with_newline_is_refused() {
    let r = MediumClient::new("sid=1\nuid=2");
    assert!(matches!(r, Err(ClientError::InsertHeaderFailed(_))));
}

#[test]
fn cookie_with_control_character_is_refused() {
    assert!(matches!(MediumClient::new("a\u{7f}"), Err(ClientError::InsertHeaderFailed(_))));
    assert!(matches!(MediumClient::new("\r"), Err(ClientError::InsertHeaderFailed(_))));
}

#[test]
fn plain_cookie_makes_a_fetcher() {
    assert!(MediumClient::new("sid=1:abc; uid=42").is_ok());
    assert!(MediumClient::new("").is_ok());
}

#[test]
fn fixed_header_values_are_spelled_out() {
    assert_eq!(ORIGIN, "https://medium.com");
    assert_eq!(
        USER_AGENT,
        "Mozilla/5.0 (X11; Linux x86_64; rv:124.0) Gecko/20100101 Firefox/124.0"
    );
}

#[test]
fn fetch_captures_address_body_and_status() {
    let fetcher = MediumClient::new("sid=1").unwrap();
    let mut calls = 0;
    let data = fetcher
        .fetch("https://medium.com/p/1", None, |_client, url, deadline| {
            calls += 1;
            assert_eq!(url, "https://medium.com/p/1");
            assert_eq!(deadline, None);
            Transfer::Complete { status: "200".to_string(), body: "<html>hi</html>".to_string() }
        })
        .unwrap();
    assert_eq!(calls, 1);
    assert_eq!(data.url(), "https://medium.com/p/1");
    assert_eq!(data.body(), "<html>hi</html>");
    assert_eq!(data.status(), "200");
}

#[test]
fn fetch_hands_the_deadline_to_the_transport() {
    let fetcher = MediumClient::new("sid=1").unwrap();
    let limit = Some(Duration::from_millis(1500));
    let mut seen = None;
    let _ = fetcher.fetch("https://medium.com/p/1", limit, |_client, _url, deadline| {
        seen = deadline;
        Transfer::Complete { status: "404".to_string(), body: String::new() }
    });
    assert_eq!(seen, limit);
}

#[test]
fn fetch_keeps_a_non_success_status() {
    let fetcher = MediumClient::new("sid=1").unwrap();
    let data = fetcher
        .fetch("https://medium.com/missing", None, |_c, _u, _d| Transfer::Complete {
            status: "404".to_string(),
            body: "gone".to_string(),
        })
        .unwrap();
    assert_eq!(data.status(), "404");
    assert_eq!(data.body(), "gone");
}

#[test]
fn send_failure_is_a_fetch_failure() {
    let fetcher = MediumClient::new("sid=1").unwrap();
    let r = fetcher.fetch("https://medium.com/p/1", None, |_c, _u, _d| {
        Transfer::SendFailed(transport_error())
    });
    assert!(matches!(r, Err(ClientError::FetchFailed(_))));
}

#[test]
fn read_failure_is_a_parse_error() {
    let fetcher = MediumClient::new("sid=1").unwrap();
    let r = fetcher.fetch("https://medium.com/p/1", None, |_c, _u, _d| {
        Transfer::ReadFailed(transport_error())
    });
    assert!(matches!(r, Err(ClientError::ParseError(_))));
}

#[test]
fn transfer_settles_without_a_fetcher() {
    let done = Transfer::Complete { status: "200".to_string(), body: "b".to_string() };
    let data = done.into_result("u").unwrap();
    assert_eq!((data.url(), data.body(), data.status()), ("u", "b", "200"));
    assert!(matches!(
        Transfer::SendFailed(transport_error()).into_result("u"),
        Err(ClientError::FetchFailed(_))
    ));
    assert!(matches!(
        Transfer::ReadFailed(transport_error()).into_result("u"),
        Err(ClientError::ParseError(_))
    ));
}

#[test]
fn fetcher_holds_cookie_and_three_headers() {
    let fetcher = MediumClient::new("sid=1:abc; uid=42").unwrap();
    assert_eq!(fetcher.cookie(), "sid=1:abc; uid=42");
    let headers = fetcher.headers();
    assert_eq!(headers.len(), 3);
    assert_eq!(headers.get("cookie").unwrap().as_bytes(), b"sid=1:abc; uid=42");
    assert_eq!(headers.get("origin").unwrap().as_bytes(), b"https://medium.com");
    assert_eq!(headers.get("user-agent").unwrap().as_bytes(), USER_AGENT.as_bytes());
}

#[test]
fn session_header_map_holds_the_three_headers() {
    let headers = session_header_map("k=v").unwrap();
    assert_eq!(headers.len(), 3);
    assert_eq!(headers.get(reqwest::header::COOKIE).unwrap().as_bytes(), b"k=v");
    assert_eq!(headers.get(reqwest::header::ORIGIN).unwrap().as_bytes(), ORIGIN.as_bytes());
    assert_eq!(headers.get(reqwest::header::USER_AGENT).unwrap().as_bytes(), USER_AGENT.as_bytes());
}

#[test]
fn session_header_map_refuses_a_line_feed() {
    assert!(session_header_map("k=v\n").is_err());
    assert!(session_header_map("\u{0}").is_err());
}

#[test]
fn refused_cookie_never_reaches_a_transport() {
    let mut calls = 0;
    let r = MediumClient::new("a\nb").and_then(|fetcher| {
        fetcher.fetch("https://medium.com/p/1", None, |_c, _u, _d| {
            calls += 1;
            Transfer::Complete { status: "200".to_string(), body: String::new() }
        })
    });
    assert!(matches!(r, Err(ClientError::InsertHeaderFailed(_))));
    assert_eq!(calls, 0);
}

#[test]
fn client_failures_have_their_words() {
    assert_eq!(ClientError::FetchFailed(transport_error()).message(), "failed to fecth url");
    assert_eq!(ClientError::ParseError(transport_error()).message(), "failed to parse data");
    assert_eq!(ClientError::BuildError(transport_error()).message(), "failed to build client");
    assert_eq!(ClientError::MissMatch.message(), "Not found");
    let refused = MediumClient::new("a\nb").unwrap_err();
    assert_eq!(refused.message(), "failed to insert header: failed to parse header value");
    let pattern = regex::Regex::new("(").unwrap_err();
    assert_eq!(ClientError::RegexError(pattern).message(), "failed to use regex");
}

#[test]
fn unreachable_server_is_a_fetch_failure() {
    let runtime = tokio::runtime::Runtime::new().unwrap();
    let fetcher = MediumClient::new("sid=1").unwrap();
    let r = fetcher.fetch("http://127.0.0.1:9/gone", None, |client, url, _deadline| {
        runtime.block_on(async {
            match client.get(url).send().await {
                Ok(_) => Transfer::Complete { status: String::new(), body: String::new() },
                Err(cause) => Transfer::SendFailed(cause),
            }
        })
    });
    assert!(matches!(r, Err(ClientError::FetchFailed(_))));
    assert_eq!(r.unwrap_err().message(), "failed to fecth url");
}
