use vstd::prelude::*;
use core::time::Duration;
use crate::base64_bytes::{base64_encode, base64_of};
use crate::error::Error;
use crate::json::Json;
use crate::response::{errors_from_json, errors_spec, response_from_json, response_spec, Response};
use crate::text::{decimal, decimal_u64};
use vstd::utf8::encode_utf8;

verus! {

/// The endpoint used when none is configured.
pub const DEFAULT_URI: &'static str = "https://db.fauna.com";

/// The timeout, in seconds, used when none is configured.
pub const DEFAULT_TIMEOUT_SECS: u64 = 60;

/// The version of the service's protocol that requests ask for.
pub const API_VERSION: &'static str = "2.1";

#[verifier::external_type_specification]
#[verifier::external_body]
pub struct ExUri(http::Uri);

/// Whether `http` reads the text as a URI.
pub uninterp spec fn uri_parses(s: Seq<char>) -> bool;

/// The URI that `http` reads from the text.
pub uninterp spec fn uri_of(s: Seq<char>) -> http::Uri;

/// The duration of `secs` whole seconds.
pub uninterp spec fn seconds(secs: u64) -> Duration;

/// Relies on `Duration::from_secs`, which makes a duration of whole seconds.
#[verifier::external_body]
fn duration_from_secs(secs: u64) -> (r: Duration)
    ensures
        r == seconds(secs),
{
    Duration::from_secs(secs)
}

/// Relies on `FromStr` for `http::Uri`: the URI, or the text of the
/// `InvalidUri` error.
#[verifier::external_body]
fn parse_uri(s: &str) -> (r: Result<http::Uri, String>)
    ensures
        r is Ok <==> uri_parses(s@),
        r matches Ok(u) ==> u == uri_of(s@),
{
    s.parse::<http::Uri>().map_err(|e| e.to_string())
}

/// The value of the `Authorization` header for a secret: HTTP Basic with
/// the secret as user name and an empty password.
pub open spec fn basic_auth(secret: Seq<char>) -> Seq<char> {
    "Basic "@ + base64_of(encode_utf8(secret + ":"@))
}

/// For building a new client.
pub struct ClientBuilder {
    pub uri: String,
    pub secret: String,
    pub timeout: Duration,
}

/// The configuration of a client: where queries go, how long they may
/// take, and the precomputed `Authorization` header. It does not change
/// once built and can be shared by any number of concurrent queries.
pub struct Client {
    pub uri: http::Uri,
    pub timeout: Duration,
    pub authorization: String,
}

impl ClientBuilder {
    /// Change the uri if using dedicated servers. Default: `https://db.fauna.com`.
    pub fn uri(&mut self, uri: &str) -> (r: &mut Self)
        ensures
            (*r).uri@ == uri@,
            (*r).secret == old(self).secret,
            (*r).timeout == old(self).timeout,
            *final(self) == *final(r),
    {
        self.uri = uri.to_owned();
        self
    }

    /// Request timeout. Default: 60 seconds.
    pub fn timeout(&mut self, timeout: Duration) -> (r: &mut Self)
        ensures
            (*r).timeout == timeout,
            (*r).uri == old(self).uri,
            (*r).secret == old(self).secret,
            *final(self) == *final(r),
    {
        self.timeout = timeout;
        self
    }
}

impl ClientBuilder {
    /// Creates the client: the URI must parse, and the secret becomes the
    /// `Authorization` header.
    pub fn build(self) -> (r: Result<Client, Error>)
        ensures
            r is Ok <==> uri_parses(self.uri@),
            r matches Ok(c) ==> c.uri == uri_of(self.uri@) && c.timeout == self.timeout && c.authorization@
                == basic_auth(self.secret@),
            r matches Err(e) ==> e is ConfigurationError,
    {
        let mut credentials = self.secret.clone();
        credentials.append(":");
        let encoded = base64_encode(credentials.as_str().as_bytes());
        let mut authorization = "Basic ".to_owned();
        authorization.append(encoded.as_str());
        match parse_uri(self.uri.as_str()) {
            Ok(uri) => Ok(Client { uri, timeout: self.timeout, authorization }),
            Err(message) => Err(Error::ConfigurationError(message)),
        }
    }
}

impl Client {
    /// A builder for a client that authenticates with `secret`, with the
    /// default endpoint and timeout.
    pub fn builder(secret: &str) -> (r: ClientBuilder)
        ensures
            r.uri@ == DEFAULT_URI@,
            r.secret@ == secret@,
            r.timeout == seconds(DEFAULT_TIMEOUT_SECS),
    {
        ClientBuilder {
            uri: DEFAULT_URI.to_owned(),
            secret: secret.to_owned(),
            timeout: duration_from_secs(DEFAULT_TIMEOUT_SECS),
        }
    }
}

/// The headers of a request whose body is `length` bytes long, in order.
pub open spec fn headers_spec(authorization: Seq<char>, length: nat) -> Seq<(Seq<char>, Seq<char>)> {
    seq![
        ("Content-Length"@, decimal(length)),
        ("Content-Type"@, "application/json"@),
        ("Authorization"@, authorization),
        ("X-FaunaDB-API-Version"@, API_VERSION@),
    ]
}

/// Whether a body was left empty or was not text.
pub open spec fn missing_body(body: Option<String>) -> bool {
    match body {
        Some(t) => t@.len() == 0,
        None => true,
    }
}

impl Client {
    /// The headers of a request that sends `payload`, the wire form of a
    /// query.
    pub fn request_headers(&self, payload: &str) -> (r: Vec<(String, String)>)
        ensures
            r@.len() == 4,
            forall|i: int| 0 <= i < 4 ==> (#[trigger] r@[i]).0@ == headers_spec(self.authorization@, payload.len() as nat)[i].0
                && r@[i].1@ == headers_spec(self.authorization@, payload.len() as nat)[i].1,
    {
        let mut r: Vec<(String, String)> = Vec::new();
        r.push(("Content-Length".to_owned(), decimal_u64(payload.len() as u64)));
        r.push(("Content-Type".to_owned(), "application/json".to_owned()));
        r.push(("Authorization".to_owned(), self.authorization.clone()));
        r.push(("X-FaunaDB-API-Version".to_owned(), API_VERSION.to_owned()));
        let ghost h = headers_spec(self.authorization@, payload.len() as nat);
        assert(r@[1].1@ == h[1].1 && r@[2].1@ == h[2].1 && r@[3].1@ == h[3].1);
        assert(r@[0].0@ == h[0].0 && r@[1].0@ == h[1].0 && r@[2].0@ == h[2].0 && r@[3].0@ == h[3].0);
        r
    }
}

/// Whether the body of a response with this status is read as JSON: for a
/// success, a rejected query (400) and a missing resource (404).
pub open spec fn expects_json_spec(status: u16) -> bool {
    (200 <= status <= 299) || status == 400 || status == 404
}

/// Whether the body of a response with this status is to be read as JSON.
pub fn expects_json(status: u16) -> (r: bool)
    ensures
        r == expects_json_spec(status),
{
    (200 <= status && status <= 299) || status == 400 || status == 404
}

/// Classifies the outcome of an HTTP exchange. `body` is the text of the
/// body (`None` when it is not UTF-8); `json` is that text read as JSON,
/// where [`expects_json`] asks for it and it parses.
///
/// - 2xx: the resource of `{"resource": ...}`;
/// - 401: `Unauthorized`, whatever the body;
/// - 400 and 404: `BadRequest` and `NotFound` with the reported errors;
/// - any other status: `DatabaseError` with the text of the body;
///
/// and `EmptyResponse` where a body was needed and there is none.
pub fn classify(status: u16, body: Option<String>, json: Option<Json>) -> (r: Result<Response, Error>)
    ensures
        (200 <= status <= 299) ==> match json {
            Some(j) => match response_spec(j@) {
                Some(v) => r matches Ok(x) && x.resource@ == v,
                None => r matches Err(Error::ResponseDataFailure(_)),
            },
            None => if missing_body(body) {
                r matches Err(Error::EmptyResponse)
            } else {
                r matches Err(Error::ResponseDataFailure(_))
            },
        },
        status == 401 ==> r matches Err(Error::Unauthorized),
        (status == 400 || status == 404) ==> match json {
            Some(j) => match errors_spec(j@) {
                Some(es) => if status == 400 {
                    r matches Err(Error::BadRequest(x)) && x.view() == es
                } else {
                    r matches Err(Error::NotFound(x)) && x.view() == es
                },
                None => r matches Err(Error::ResponseDataFailure(_)),
            },
            None => if missing_body(body) {
                r matches Err(Error::EmptyResponse)
            } else {
                r matches Err(Error::ResponseDataFailure(_))
            },
        },
        !(200 <= status <= 299) && status != 401 && status != 400 && status != 404 ==> match body {
            Some(t) => r matches Err(Error::DatabaseError(x)) && x@ == t@,
            None => r matches Err(Error::EmptyResponse),
        },
{
    if status == 401 {
        return Err(Error::Unauthorized);
    }
    if !expects_json(status) {
        return match body {
            Some(t) => Err(Error::DatabaseError(t)),
            None => Err(Error::EmptyResponse),
        };
    }
    let j = match json {
        Some(j) => j,
        None => {
            let empty = match &body {
                Some(t) => t.as_str().unicode_len() == 0,
                None => true,
            };
            return if empty {
                Err(Error::EmptyResponse)
            } else {
                Err(Error::ResponseDataFailure("the body is not JSON".to_owned()))
            };
        },
    };
    if 200 <= status && status <= 299 {
        match response_from_json(&j) {
            Some(resp) => Ok(resp),
            None => Err(Error::ResponseDataFailure("the body has no resource".to_owned())),
        }
    } else {
        match errors_from_json(&j) {
            Some(errors) => if status == 400 {
                Err(Error::BadRequest(errors))
            } else {
                Err(Error::NotFound(errors))
            },
            None => Err(Error::ResponseDataFailure("the body has no list of errors".to_owned())),
        }
    }
}

/// What can happen to a query in flight.
pub enum QueryEvent {
    /// The request was handed to the transport.
    Send,
    /// The exchange finished with this outcome.
    Responded(Result<Response, Error>),
    /// The configured timeout expired.
    TimerExpired,
}

/// Where a query stands: built, sent, or finished with an outcome or by
/// timing out. A query is never re-issued.
pub enum QueryState {
    Built,
    Sent,
    Done(Result<Response, Error>),
    TimedOut,
}

/// The next state of a query. Only a sent query takes an outcome or a
/// timeout, whichever comes first; a finished query keeps its outcome.
pub open spec fn step_spec(state: QueryState, event: QueryEvent) -> QueryState {
    match (state, event) {
        (QueryState::Built, QueryEvent::Send) => QueryState::Sent,
        (QueryState::Sent, QueryEvent::Responded(outcome)) => QueryState::Done(outcome),
        (QueryState::Sent, QueryEvent::TimerExpired) => QueryState::TimedOut,
        (s, _) => s,
    }
}

/// The state after a sequence of events.
pub open spec fn run(state: QueryState, events: Seq<QueryEvent>) -> QueryState
    decreases events.len(),
{
    if events.len() == 0 {
        state
    } else {
        run(step_spec(state, events[0]), events.drop_first())
    }
}

/// Whether a query has finished.
pub open spec fn is_finished(state: QueryState) -> bool {
    state is Done || state is TimedOut
}

/// The result that a finished query hands to its caller.
pub open spec fn result_spec(state: QueryState) -> Result<Response, Error> {
    match state {
        QueryState::Done(outcome) => outcome,
        _ => Err(Error::TimeoutError),
    }
}

impl QueryState {
    /// Applies an event.
    pub fn step(self, event: QueryEvent) -> (r: QueryState)
        ensures
            r == step_spec(self, event),
    {
        match (self, event) {
            (QueryState::Built, QueryEvent::Send) => QueryState::Sent,
            (QueryState::Sent, QueryEvent::Responded(outcome)) => QueryState::Done(outcome),
            (QueryState::Sent, QueryEvent::TimerExpired) => QueryState::TimedOut,
            (s, _) => s,
        }
    }

    /// The result of a finished query: its outcome, or `TimeoutError`.
    pub fn into_result(self) -> (r: Result<Response, Error>)
        requires
            is_finished(self),
        ensures
            r == result_spec(self),
    {
        match self {
            QueryState::Done(outcome) => outcome,
            _ => Err(Error::TimeoutError),
        }
    }
}

/// Once the timeout of a sent query expires, no later event changes its
/// fate: it ends with `TimeoutError`, never with a late outcome.
pub proof fn timeout_wins(events: Seq<QueryEvent>)
    ensures
        is_finished(run(step_spec(QueryState::Sent, QueryEvent::TimerExpired), events)),
        result_spec(run(step_spec(QueryState::Sent, QueryEvent::TimerExpired), events)) == Err::<Response, Error>(Error::TimeoutError),
    decreases events.len(),
{
    if events.len() > 0 {
        timeout_wins(events.drop_first());
    }
}

/// The states of two queries after events that are each tagged with the
/// query they belong to (`true` for the first).
pub open spec fn run_both(a: QueryState, b: QueryState, events: Seq<(bool, QueryEvent)>) -> (QueryState, QueryState)
    decreases events.len(),
{
    if events.len() == 0 {
        (a, b)
    } else if events[0].0 {
        run_both(step_spec(a, events[0].1), b, events.drop_first())
    } else {
        run_both(a, step_spec(b, events[0].1), events.drop_first())
    }
}

/// The events of one of the two queries, in order.
pub open spec fn own_events(events: Seq<(bool, QueryEvent)>, first: bool) -> Seq<QueryEvent>
    decreases events.len(),
{
    if events.len() == 0 {
        Seq::empty()
    } else if events[0].0 == first {
        seq![events[0].1] + own_events(events.drop_first(), first)
    } else {
        own_events(events.drop_first(), first)
    }
}

/// Two queries in flight at once do not affect each other: whatever the
/// interleaving of their events, each ends where it would have ended alone.
pub proof fn queries_are_independent(a: QueryState, b: QueryState, events: Seq<(bool, QueryEvent)>)
    ensures
        run_both(a, b, events) == (run(a, own_events(events, true)), run(b, own_events(events, false))),
    decreases events.len(),
{
    if events.len() > 0 {
        let rest = events.drop_first();
        let e = events[0].1;
        if events[0].0 {
            queries_are_independent(step_spec(a, e), b, rest);
            assert((seq![e] + own_events(rest, true)).drop_first() =~= own_events(rest, true));
        } else {
            queries_are_independent(a, step_spec(b, e), rest);
            assert((seq![e] + own_events(rest, false)).drop_first() =~= own_events(rest, false));
        }
    }
}

} // verus!
