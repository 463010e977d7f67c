//! The page fetcher: an HTTP client that sends the session headers with
//! every request, the fetch of one page, and the extraction of its text.

use crate::error::ClientError;
use crate::extract::{
    first_group_of_each_match, joined, pattern_captures, pattern_compiles, text_of_segments,
    texts_of, unescape_all, values_of, NoMatch,
};
use crate::header::{
    empty_header_map, header_map_entries, header_text_allowed, header_value, insert_header,
    lemma_line_feed_not_allowed, no_headers, HEADER_MAP_ROOM,
};
use crate::page::Data;
use reqwest::header::{HeaderMap, HeaderValue, InvalidHeaderValue};
use std::time::Duration;
use vstd::prelude::*;
use vstd::utf8::encode_utf8;

verus! {

/// `reqwest`'s asynchronous HTTP client. Opaque here.
#[verifier::external_type_specification]
#[verifier::external_body]
pub struct ExClient(reqwest::Client);

/// The headers that a client sends with every request that does not set
/// them itself: each name with the bytes of its value.
pub uninterp spec fn client_default_headers(client: reqwest::Client) -> Map<Seq<char>, Seq<u8>>;

/// The default headers of a client that was built with `given`: the builder
/// starts with `accept: */*` and then sets every entry of `given`.
pub open spec fn built_with(given: Map<Seq<char>, Seq<u8>>) -> Map<Seq<char>, Seq<u8>> {
    no_headers().insert("accept"@, encode_utf8("*/*"@)).union_prefer_right(given)
}

/// Builds a client with `reqwest::Client::builder`, `default_headers` and
/// `build`. Whether it succeeds depends on the machine (the TLS backend, the
/// resolver's configuration), so success is not promised. A client that was
/// built sends by default what the builder held: `accept: */*`, with which
/// every builder starts, and over it each entry of the given map, which
/// `default_headers` inserts one by one. The map must hold fewer than
/// `HEADER_MAP_ROOM` names, for those insertions.
#[verifier::external_body]
pub(crate) fn build_client(headers: &HeaderMap<HeaderValue>) -> (r: Result<
    reqwest::Client,
    reqwest::Error,
>)
    requires
        header_map_entries(*headers).dom().finite(),
        header_map_entries(*headers).dom().len() < HEADER_MAP_ROOM,
    ensures
        r matches Ok(client) ==> client_default_headers(client) == built_with(
            header_map_entries(*headers),
        ),
{
    reqwest::Client::builder().default_headers(headers.clone()).build()
}

/// The origin that every request names.
pub const ORIGIN: &'static str = "https://medium.com";

/// The browser that every request claims to come from.
pub const USER_AGENT: &'static str =
    "Mozilla/5.0 (X11; Linux x86_64; rv:124.0) Gecko/20100101 Firefox/124.0";

/// The headers that a fetcher made with this cookie sends with every request.
pub open spec fn session_headers(cookie: Seq<char>) -> Map<Seq<char>, Seq<u8>> {
    no_headers().insert("cookie"@, encode_utf8(cookie)).insert(
        "origin"@,
        encode_utf8(ORIGIN@),
    ).insert("user-agent"@, encode_utf8(USER_AGENT@))
}

/// The pattern that finds a text field: the key `text` with its closing
/// quote, a colon, optional white space, and a JSON string, whose content
/// (characters other than the quote and the backslash, and backslash pairs)
/// is the first capture group.
pub const TEXT_PATTERN: &'static str = r#"text":\s*"((?:[^"\\]|\\.)*)"#;

/// The header map of a session: `session_headers` of the cookie, where the
/// cookie can be a header value, and else the reason why it cannot.
pub fn session_header_map(cookie: &str) -> (r: Result<HeaderMap<HeaderValue>, InvalidHeaderValue>)
    ensures
        r is Ok <==> header_text_allowed(cookie@),
        r matches Ok(headers) ==> header_map_entries(headers) == session_headers(cookie@),
{
    let mut headers = empty_header_map();
    let session = match header_value(cookie) {
        Ok(value) => value,
        Err(cause) => { return Err(cause); },
    };
    proof {
        reveal_strlit("cookie");
        reveal_strlit("origin");
        reveal_strlit("user-agent");
        reveal_strlit("https://medium.com");
        reveal_strlit("Mozilla/5.0 (X11; Linux x86_64; rv:124.0) Gecko/20100101 Firefox/124.0");
    }
    insert_header(&mut headers, "cookie", session);
    let origin = match header_value(ORIGIN) {
        Ok(value) => value,
        Err(cause) => { return Err(cause); },
    };
    insert_header(&mut headers, "origin", origin);
    let agent = match header_value(USER_AGENT) {
        Ok(value) => value,
        Err(cause) => { return Err(cause); },
    };
    insert_header(&mut headers, "user-agent", agent);
    Ok(headers)
}

/// What the transport reports of one GET.
#[derive(Debug)]
pub enum Transfer {
    /// The request could not be sent, or no response came.
    SendFailed(reqwest::Error),
    /// A response came, but its body could not be read to the end.
    ReadFailed(reqwest::Error),
    /// The response, with its status code as text and its whole body.
    Complete { status: String, body: String },
}

impl Transfer {
    /// What a fetch of `url` gives when the transport reported `self`.
    pub open spec fn settles(self, url: Seq<char>, r: Result<Data, ClientError>) -> bool {
        match self {
            Transfer::SendFailed(cause) => r == Err::<Data, ClientError>(
                ClientError::FetchFailed(cause),
            ),
            Transfer::ReadFailed(cause) => r == Err::<Data, ClientError>(
                ClientError::ParseError(cause),
            ),
            Transfer::Complete { status, body } => {
                &&& r matches Ok(data)
                &&& data.spec_url() == url
                &&& data.spec_body() == body@
                &&& data.spec_status() == status@
            },
        }
    }

    /// Turns what the transport reported of a GET of `url` into the result of
    /// the fetch: the captured page, or the failure with its cause.
    pub fn into_result(self, url: &str) -> (r: Result<Data, ClientError>)
        ensures
            self.settles(url@, r),
    {
        match self {
            Transfer::SendFailed(cause) => Err(ClientError::FetchFailed(cause)),
            Transfer::ReadFailed(cause) => Err(ClientError::ParseError(cause)),
            Transfer::Complete { status, body } => Ok(Data::new(url.to_owned(), body, status)),
        }
    }
}

/// The fetcher: an HTTP client that sends `session_headers` of its cookie
/// with every request.
#[derive(Debug)]
pub struct MediumClient {
    client: reqwest::Client,
    cookie: String,
    headers: HeaderMap<HeaderValue>,
}

impl MediumClient {
    /// Every fetcher holds a cookie that can be a header value, and the
    /// header map of that cookie's session.
    #[verifier::type_invariant]
    spec fn well_formed(self) -> bool {
        &&& header_text_allowed(self.cookie@)
        &&& header_map_entries(self.headers) == session_headers(self.cookie@)
        &&& client_default_headers(self.client) == built_with(session_headers(self.cookie@))
    }

    /// The session cookie that the fetcher was made with.
    pub closed spec fn spec_cookie(&self) -> Seq<char> {
        self.cookie@
    }

    /// The headers that the fetcher's client sends with every request.
    pub closed spec fn default_headers(&self) -> Map<Seq<char>, Seq<u8>> {
        client_default_headers(self.client)
    }

    /// The header map that was handed to the client's builder.
    pub closed spec fn session_map(&self) -> Map<Seq<char>, Seq<u8>> {
        header_map_entries(self.headers)
    }

    /// The client.
    pub closed spec fn spec_client(&self) -> reqwest::Client {
        self.client
    }

    /// Makes a fetcher for this session cookie. It fails with
    /// `InsertHeaderFailed` exactly when the cookie cannot be a header value
    /// (so whenever it holds a line feed), before anything else is done; with
    /// `BuildError` when the client could not be built on this machine. It
    /// sends nothing.
    pub fn new(cookie: &str) -> (r: Result<Self, ClientError>)
        ensures
            match r {
                Ok(fetcher) => {
                    &&& header_text_allowed(cookie@)
                    &&& fetcher.spec_cookie() == cookie@
                    &&& fetcher.session_map() == session_headers(cookie@)
                    &&& fetcher.default_headers() == built_with(session_headers(cookie@))
                    &&& client_default_headers(fetcher.spec_client()) == built_with(
                        session_headers(cookie@),
                    )
                },
                Err(ClientError::InsertHeaderFailed(_)) => !header_text_allowed(cookie@),
                Err(ClientError::BuildError(_)) => header_text_allowed(cookie@),
                Err(_) => false,
            },
            cookie@.contains('\n') ==> r matches Err(ClientError::InsertHeaderFailed(_)),
    {
        proof {
            if cookie@.contains('\n') {
                lemma_line_feed_not_allowed(cookie@);
            }
        }
        let headers = match session_header_map(cookie) {
            Ok(headers) => headers,
            Err(cause) => { return Err(ClientError::InsertHeaderFailed(cause)); },
        };
        match build_client(&headers) {
            Ok(client) => Ok(Self { client, cookie: cookie.to_owned(), headers }),
            Err(cause) => Err(ClientError::BuildError(cause)),
        }
    }

    /// The client, for the transport to send with. With every request it
    /// sends the three headers of the session, and `accept: */*`.
    pub fn client(&self) -> (client: &reqwest::Client)
        ensures
            *client == self.spec_client(),
            client_default_headers(*client) == built_with(session_headers(self.spec_cookie())),
    {
        proof {
            use_type_invariant(self);
        }
        &self.client
    }

    /// The session cookie. It can be a header value.
    pub fn cookie(&self) -> (cookie: &str)
        ensures
            cookie@ == self.spec_cookie(),
            header_text_allowed(cookie@),
    {
        proof {
            use_type_invariant(self);
        }
        self.cookie.as_str()
    }

    /// The header map that the client was built with: always
    /// `session_headers` of the cookie.
    pub fn headers(&self) -> (headers: &HeaderMap<HeaderValue>)
        ensures
            header_map_entries(*headers) == self.session_map(),
            self.session_map() == session_headers(self.spec_cookie()),
    {
        proof {
            use_type_invariant(self);
        }
        &self.headers
    }

    /// Fetches `url`: hands the client, the address and the time that the
    /// transfer may take, if it is limited, to `transport`, once, and turns
    /// what it reports into the captured page or the failure.
    pub fn fetch<F: FnOnce(&reqwest::Client, &str, Option<Duration>) -> Transfer>(
        &self,
        url: &str,
        deadline: Option<Duration>,
        transport: F,
    ) -> (r: Result<Data, ClientError>)
        requires
            call_requires(transport, (&self.spec_client(), url, deadline)),
        ensures
            client_default_headers(self.spec_client()) == built_with(
                session_headers(self.spec_cookie()),
            ),
            exists|reported: Transfer|
                {
                    &&& call_ensures(transport, (&self.spec_client(), url, deadline), reported)
                    &&& #[trigger] reported.settles(url@, r)
                },
    {
        proof {
            use_type_invariant(self);
        }
        let reported = transport(&self.client, url, deadline);
        reported.into_result(url)
    }

    /// The article text of a fetched page: the value of every text field of
    /// the body (what its JSON string stands for, escapes resolved), in the
    /// order in which the fields stand there, joined with single spaces; the
    /// empty text where the body holds none. It fails only where the pattern
    /// itself is not accepted, whatever the page.
    pub fn get_content(data: Data) -> (r: Result<String, ClientError>)
        ensures
            r is Ok <==> pattern_compiles(TEXT_PATTERN@),
            r matches Ok(text) ==> text@ == joined(
                values_of(pattern_captures(TEXT_PATTERN@, data.spec_body())),
            ),
            r matches Ok(text) ==> (pattern_captures(TEXT_PATTERN@, data.spec_body()).len() == 0
                ==> text@.len() == 0),
            r matches Err(e) ==> e is RegexError,
    {
        Self::get_content_with(data, NoMatch::Empty)
    }

    /// The article text of a fetched page, as `get_content` gives it, but
    /// with the caller's choice of what a body without any text field is:
    /// the empty text, or the failure `MissMatch`.
    pub fn get_content_with(data: Data, policy: NoMatch) -> (r: Result<String, ClientError>)
        ensures
            !pattern_compiles(TEXT_PATTERN@) ==> r matches Err(ClientError::RegexError(_)),
            pattern_compiles(TEXT_PATTERN@) ==> {
                let found = pattern_captures(TEXT_PATTERN@, data.spec_body());
                if found.len() == 0 && policy == NoMatch::Reject {
                    r == Err::<String, ClientError>(ClientError::MissMatch)
                } else {
                    r matches Ok(text) && text@ == joined(values_of(found))
                }
            },
    {
        match first_group_of_each_match(TEXT_PATTERN, data.body()) {
            Ok(found) => {
                let values = unescape_all(&found);
                assert(values@.len() == found@.len()) by {
                    assert(texts_of(values@).len() == values_of(texts_of(found@)).len());
                }
                text_of_segments(&values, policy)
            },
            Err(cause) => Err(ClientError::RegexError(cause)),
        }
    }
}

} // verus!
