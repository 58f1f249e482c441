//! The request client: which endpoint a request goes to, what it carries,
//! and how a response's status is turned into a result or a classified error.

use vstd::prelude::*;
use vstd::string::*;
use crate::text::{decimal, owned, push_decimal};

verus! {

/// Base URL for requests that carry an API key.
pub const PRO_BASE: &'static str = "https://api-pro.coinpaprika.com/v1";

/// Base URL for requests without an API key.
pub const PUBLIC_BASE: &'static str = "https://api.coinpaprika.com/v1";

/// What the client says it is in the `User-Agent` header.
pub const USER_AGENT: &'static str = "coinpaprika-cli/0.1.0";

/// Shown for status 402 when the request carried an API key.
pub const UPGRADE_PLAN_TEXT: &'static str =
    "This endpoint requires a higher-tier plan.\n\n\
     Check your plan:   coinpaprika-cli key-info\n\
     Upgrade:           https://coinpaprika.com/api/pricing\n\n\
     Available plans:\n\
     \x20 Starter    — Historical data, ticker history, changelog\n\
     \x20 Business   — All Starter features + ID mappings, priority support\n\
     \x20 Enterprise — Custom limits, dedicated support";

/// Shown for status 402 when the request carried no API key.
pub const FREE_TIER_TEXT: &'static str =
    "Free tier rate limit reached, or this endpoint requires a paid plan.\n\n\
     If you just hit the rate limit (20,000 calls/mo), wait and retry.\n\
     Run coinpaprika-cli plans to see free tier limits.\n\n\
     To unlock higher limits and all endpoints:\n\
     \x20 Get your API key:  https://coinpaprika.com/api/pricing\n\
     \x20 Set your key:      coinpaprika-cli config set-key <YOUR_KEY>";

/// Shown for status 429.
pub const RATE_LIMITED_TEXT: &'static str = "Rate limit exceeded. Wait a moment and try again.";

/// Shown for status 403.
pub const FORBIDDEN_TEXT: &'static str =
    "Invalid API key. Check your key with `coinpaprika-cli config show`";

/// Start of the message for status 404; the response body follows.
pub const NOT_FOUND_PREFIX: &'static str =
    "Not found. Check the ID format (e.g., btc-bitcoin for Bitcoin). API response: ";

/// Start of the message for a 5xx status; the status and `)` follow.
pub const UNAVAILABLE_PREFIX: &'static str =
    "CoinPaprika API is temporarily unavailable. Try again shortly. (";

/// Start of the message for any other status; the status, `: ` and the
/// response body follow.
pub const OTHER_PREFIX: &'static str = "CoinPaprika API error ";

/// Reason shown for a status code that has no standard reason phrase.
pub const UNKNOWN_REASON: &'static str = "<unknown status code>";

/// The kinds of failure that end an invocation.
#[derive(Clone, Copy, Debug, PartialEq, Eq, Structural)]
pub enum ErrorKind {
    /// Status 402.
    PaymentRequired,
    /// Status 429.
    RateLimited,
    /// Status 403.
    Forbidden,
    /// Status 404.
    NotFound,
    /// Status 500 to 599.
    ServerUnavailable,
    /// A successful response whose body does not have the expected shape.
    DecodeFailure,
    /// The request could not be sent, or a file could not be read or written.
    IoFailure,
    /// Any other status outside 200 to 299.
    Other,
}

/// A failure together with the text that tells the user what to do next.
#[derive(Debug)]
pub struct ClassifiedError {
    pub kind: ErrorKind,
    pub message: String,
}

/// One HTTP GET request, ready to be sent.
#[derive(Debug)]
pub struct HttpRequest {
    /// Base URL followed by the path.
    pub url: String,
    /// Value of the `User-Agent` header.
    pub user_agent: String,
    /// Value of the `Authorization` header; `None` sends no such header.
    pub authorization: Option<String>,
    /// Query parameters as name and value, in the order in which they are sent.
    pub query: Vec<(String, String)>,
}

/// A client bound to one credential, or to none.
#[derive(Debug)]
pub struct ApiClient {
    coinpaprika_base: String,
    api_key: Option<String>,
}

/// The standard reason phrase of an HTTP status code, as the `http` crate's
/// `StatusCode::canonical_reason` gives it; `None` for a code that has none
/// or that is not a status code at all.
pub uninterp spec fn canonical_reason(code: u16) -> Option<Seq<char>>;

/// `reqwest::StatusCode::from_u16` followed by `canonical_reason`: the reason
/// phrase that the `http` crate's table holds for `code`. A code that
/// `from_u16` rejects has no phrase.
#[verifier::external_body]
fn reason_phrase(code: u16) -> (r: Option<String>)
    ensures
        r.deep_view() == canonical_reason(code),
{
    match reqwest::StatusCode::from_u16(code) {
        Ok(status) => status.canonical_reason().map(String::from),
        Err(_) => None,
    }
}

/// Whether a status means success.
pub open spec fn is_success(status: u16) -> bool {
    200 <= status < 300
}

/// Whether a status reports a failure on the server's side.
pub open spec fn is_server_error(status: u16) -> bool {
    500 <= status < 600
}

/// The kind of failure that a status stands for.
pub open spec fn classify_kind(status: u16) -> ErrorKind {
    if status == 402 {
        ErrorKind::PaymentRequired
    } else if status == 429 {
        ErrorKind::RateLimited
    } else if status == 403 {
        ErrorKind::Forbidden
    } else if status == 404 {
        ErrorKind::NotFound
    } else if is_server_error(status) {
        ErrorKind::ServerUnavailable
    } else {
        ErrorKind::Other
    }
}

/// A status as it is shown to the user: the number, a space and the reason
/// phrase, such as `503 Service Unavailable`.
pub open spec fn status_text(status: u16) -> Seq<char> {
    decimal(status as nat) + " "@ + match canonical_reason(status) {
        Some(reason) => reason,
        None => UNKNOWN_REASON@,
    }
}

/// The message that goes with a failed response.
pub open spec fn classify_message(status: u16, body: Seq<char>, has_key: bool) -> Seq<char> {
    if status == 402 {
        if has_key {
            UPGRADE_PLAN_TEXT@
        } else {
            FREE_TIER_TEXT@
        }
    } else if status == 429 {
        RATE_LIMITED_TEXT@
    } else if status == 403 {
        FORBIDDEN_TEXT@
    } else if status == 404 {
        NOT_FOUND_PREFIX@ + body
    } else if is_server_error(status) {
        UNAVAILABLE_PREFIX@ + status_text(status) + ")"@
    } else {
        OTHER_PREFIX@ + status_text(status) + ": "@ + body
    }
}

impl ClassifiedError {
    /// The failure of a response that succeeded but whose body does not
    /// have the expected shape, with the decoder's own words as message.
    pub fn decode_failure(detail: &str) -> (e: ClassifiedError)
        ensures
            e.kind == ErrorKind::DecodeFailure,
            e.message@ == detail@,
    {
        ClassifiedError { kind: ErrorKind::DecodeFailure, message: owned(detail) }
    }

    /// The failure to send a request or to read or write a file, with the
    /// system's own words as message.
    pub fn io_failure(detail: &str) -> (e: ClassifiedError)
        ensures
            e.kind == ErrorKind::IoFailure,
            e.message@ == detail@,
    {
        ClassifiedError { kind: ErrorKind::IoFailure, message: owned(detail) }
    }
}

/// Tells whether a status means success.
pub fn succeeded(status: u16) -> (r: bool)
    ensures
        r == is_success(status),
{
    200 <= status && status < 300
}

/// Appends a status, as it is shown to the user, to `out`.
fn push_status(out: &mut String, status: u16)
    ensures
        final(out)@ == old(out)@ + status_text(status),
{
    let ghost start = out@;
    push_decimal(out, status as u128);
    out.append(" ");
    match reason_phrase(status) {
        Some(reason) => {
            out.append(reason.as_str());
        },
        None => {
            out.append(UNKNOWN_REASON);
        },
    }
    assert(out@ =~= start + status_text(status));
}

/// Classifies a response that did not succeed: the kind follows from the
/// status alone, the message from the status, the body and, for status 402,
/// from whether the request carried an API key.
pub fn classify(status: u16, body: &str, has_key: bool) -> (e: ClassifiedError)
    ensures
        e.kind == classify_kind(status),
        e.message@ == classify_message(status, body@, has_key),
{
    if status == 402 {
        let text = if has_key {
            UPGRADE_PLAN_TEXT
        } else {
            FREE_TIER_TEXT
        };
        ClassifiedError { kind: ErrorKind::PaymentRequired, message: owned(text) }
    } else if status == 429 {
        ClassifiedError { kind: ErrorKind::RateLimited, message: owned(RATE_LIMITED_TEXT) }
    } else if status == 403 {
        ClassifiedError { kind: ErrorKind::Forbidden, message: owned(FORBIDDEN_TEXT) }
    } else if status == 404 {
        let mut message = owned(NOT_FOUND_PREFIX);
        message.append(body);
        ClassifiedError { kind: ErrorKind::NotFound, message }
    } else if 500 <= status && status < 600 {
        let mut message = owned(UNAVAILABLE_PREFIX);
        push_status(&mut message, status);
        message.append(")");
        ClassifiedError { kind: ErrorKind::ServerUnavailable, message }
    } else {
        let mut message = owned(OTHER_PREFIX);
        push_status(&mut message, status);
        message.append(": ");
        message.append(body);
        ClassifiedError { kind: ErrorKind::Other, message }
    }
}

/// The base URL of a client: the paid endpoint with an API key, the public
/// endpoint without one.
pub open spec fn base_for(has_key: bool) -> Seq<char> {
    if has_key {
        PRO_BASE@
    } else {
        PUBLIC_BASE@
    }
}

/// The two endpoints are not the same.
pub proof fn lemma_endpoints_differ()
    ensures
        base_for(true) != base_for(false),
{
    reveal_strlit("https://api-pro.coinpaprika.com/v1");
    reveal_strlit("https://api.coinpaprika.com/v1");
    assert(PRO_BASE@[11] == '-');
    assert(PUBLIC_BASE@[11] == '.');
}

impl ApiClient {
    /// The API key that every request of this client carries, if any.
    pub closed spec fn key(&self) -> Option<Seq<char>> {
        self.api_key.deep_view()
    }

    /// The endpoint is chosen once, when the client is made, and goes with
    /// the key from then on.
    #[verifier::type_invariant]
    spec fn bound_to_endpoint(&self) -> bool {
        self.coinpaprika_base@ == base_for(self.api_key is Some)
    }

    /// A client for the given API key, or for anonymous access.
    pub fn new(api_key: Option<String>) -> (client: Self)
        ensures
            client.key() == api_key.deep_view(),
    {
        let coinpaprika_base = if api_key.is_some() {
            owned(PRO_BASE)
        } else {
            owned(PUBLIC_BASE)
        };
        ApiClient { coinpaprika_base, api_key }
    }

    /// Whether this client sends an API key.
    pub fn has_key(&self) -> (r: bool)
        ensures
            r == (self.key() is Some),
    {
        self.api_key.is_some()
    }

    /// The base URL that every request of this client starts with.
    pub fn base_url(&self) -> (r: &str)
        ensures
            r@ == base_for(self.key() is Some),
    {
        proof {
            use_type_invariant(self);
        }
        self.coinpaprika_base.as_str()
    }

    /// The GET request for `path` with the given query parameters: the URL is
    /// the client's base followed by `path`, the key travels in the
    /// `Authorization` header as it is, and the parameters keep their order.
    pub fn coinpaprika_get(&self, path: &str, params: Vec<(String, String)>) -> (req: HttpRequest)
        ensures
            req.url@ == base_for(self.key() is Some) + path@,
            req.user_agent@ == USER_AGENT@,
            req.authorization.deep_view() == self.key(),
            req.query == params,
    {
        proof {
            use_type_invariant(self);
        }
        let mut url = self.coinpaprika_base.clone();
        url.append(path);
        HttpRequest {
            url,
            user_agent: owned(USER_AGENT),
            authorization: self.api_key.clone(),
            query: params,
        }
    }

    /// Classifies a response that did not succeed, for this client.
    pub fn failure(&self, status: u16, body: &str) -> (e: ClassifiedError)
        ensures
            e.kind == classify_kind(status),
            e.message@ == classify_message(status, body@, self.key() is Some),
    {
        classify(status, body, self.api_key.is_some())
    }

    /// Reads a response: a status from 200 to 299 hands the body on for
    /// decoding; any other status is classified, and nothing is retried.
    pub fn receive(&self, status: u16, body: String) -> (r: Result<String, ClassifiedError>)
        ensures
            is_success(status) ==> r == Ok::<String, ClassifiedError>(body),
            !is_success(status) ==> (r matches Err(e) && e.kind == classify_kind(status)
                && e.message@ == classify_message(status, body@, self.key() is Some)),
    {
        if succeeded(status) {
            Ok(body)
        } else {
            Err(self.failure(status, body.as_str()))
        }
    }
}

/// For status 402 the message depends on nothing but whether the request
/// carried an API key: the response body does not enter it, and the text
/// with a key is another than the text without one.
pub proof fn lemma_payment_required_depends_on_key_alone(
    body_a: Seq<char>,
    body_b: Seq<char>,
    has_key: bool,
)
    ensures
        classify_message(402, body_a, has_key) == classify_message(402, body_b, has_key),
        classify_message(402, body_a, true) != classify_message(402, body_a, false),
        classify_kind(402) == ErrorKind::PaymentRequired,
{
    reveal_strlit(
        "This endpoint requires a higher-tier plan.\n\n\
     Check your plan:   coinpaprika-cli key-info\n\
     Upgrade:           https://coinpaprika.com/api/pricing\n\n\
     Available plans:\n\
     \x20 Starter    — Historical data, ticker history, changelog\n\
     \x20 Business   — All Starter features + ID mappings, priority support\n\
     \x20 Enterprise — Custom limits, dedicated support",
    );
    reveal_strlit(
        "Free tier rate limit reached, or this endpoint requires a paid plan.\n\n\
     If you just hit the rate limit (20,000 calls/mo), wait and retry.\n\
     Run coinpaprika-cli plans to see free tier limits.\n\n\
     To unlock higher limits and all endpoints:\n\
     \x20 Get your API key:  https://coinpaprika.com/api/pricing\n\
     \x20 Set your key:      coinpaprika-cli config set-key <YOUR_KEY>",
    );
    assert(UPGRADE_PLAN_TEXT@[0] == 'T');
    assert(FREE_TIER_TEXT@[0] == 'F');
}

/// A client without an API key that receives status 402 reports the limits
/// of the free tier, never the text about upgrading a plan.
pub proof fn lemma_anonymous_payment_required(client: ApiClient, body: Seq<char>)
    requires
        client.key() is None,
    ensures
        classify_message(402, body, client.key() is Some) == FREE_TIER_TEXT@,
        classify_message(402, body, client.key() is Some) != UPGRADE_PLAN_TEXT@,
        !is_success(402),
{
    lemma_payment_required_depends_on_key_alone(body, body, false);
}

/// Every status outside 200 to 299 falls into exactly one of the six kinds
/// that a response can have, and the kind follows from the status alone.
pub proof fn lemma_classification_is_total(status: u16)
    ensures
        match classify_kind(status) {
            ErrorKind::PaymentRequired => status == 402,
            ErrorKind::RateLimited => status == 429,
            ErrorKind::Forbidden => status == 403,
            ErrorKind::NotFound => status == 404,
            ErrorKind::ServerUnavailable => is_server_error(status),
            ErrorKind::Other => status != 402 && status != 429 && status != 403 && status != 404
                && !is_server_error(status),
            ErrorKind::DecodeFailure => false,
            ErrorKind::IoFailure => false,
        },
{
}

} // verus!
