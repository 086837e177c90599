use vstd::prelude::*;
use crate::types::{MVolaError, Usage, opt_view};

verus! {

/// The HTTP methods that the gateway's endpoints use.
#[derive(Debug, Clone, Copy, PartialEq, Eq, Structural)]
pub enum Method {
    Get,
    Post,
}

/// One header line of an outgoing request.
#[derive(Debug, Clone)]
pub struct Header {
    pub name: String,
    pub value: String,
}

impl View for Header {
    type V = (Seq<char>, Seq<char>);

    open spec fn view(&self) -> (Seq<char>, Seq<char>) {
        (self.name@, self.value@)
    }
}

/// A request ready to be handed to a transport: nothing in it is left to decide.
#[derive(Debug, Clone)]
pub struct HttpRequest {
    pub method: Method,
    pub url: String,
    pub headers: Vec<Header>,
    pub body: Option<String>,
}

/// The plain values that an `HttpRequest` holds; headers keep their order.
pub struct RequestView {
    pub method: Method,
    pub url: Seq<char>,
    pub headers: Seq<(Seq<char>, Seq<char>)>,
    pub body: Option<Seq<char>>,
}

pub open spec fn headers_view(hs: Seq<Header>) -> Seq<(Seq<char>, Seq<char>)> {
    hs.map_values(|h: Header| h@)
}

impl View for HttpRequest {
    type V = RequestView;

    open spec fn view(&self) -> RequestView {
        RequestView {
            method: self.method,
            url: self.url@,
            headers: headers_view(self.headers@),
            body: opt_view(self.body),
        }
    }
}

/// What a request builder produced, seen as plain values: the request, or the
/// usage error that stopped it; `None` for any other error, which no builder returns.
pub open spec fn built(r: Result<HttpRequest, MVolaError>) -> Option<Result<RequestView, Usage>> {
    match r {
        Ok(q) => Some(Ok(q@)),
        Err(MVolaError::UsageError(u)) => Some(Err(u)),
        Err(_) => None,
    }
}

/// Appends one header line.
pub fn push_header(hs: &mut Vec<Header>, name: &str, value: &str)
    ensures
        headers_view(final(hs)@) == headers_view(old(hs)@).push((name@, value@)),
{
    hs.push(Header { name: String::from_str(name), value: String::from_str(value) });
    assert(headers_view(final(hs)@) =~= headers_view(old(hs)@).push((name@, value@)));
}

/// The serialisation of `s` as an absolute URL, or `None` where `s` is not one.
pub uninterp spec fn url_parse_of(s: Seq<char>) -> Option<Seq<char>>;

/// Relies on `url::Url::parse` (surf's `Url`): the result depends on the text alone;
/// `String::from` of a `Url` is its serialisation.
#[verifier::external_body]
pub(crate) fn parse_url(s: &str) -> (r: Option<String>)
    ensures
        opt_view(r) == url_parse_of(s@),
{
    surf::Url::parse(s).ok().map(String::from)
}

/// How the JSON body of an answer decoded into the expected type.
#[derive(Debug, Clone)]
pub enum Decoded<T> {
    /// It had the expected shape.
    Value(T),
    /// It was not JSON at all.
    NotJson,
    /// It was JSON, of another shape.
    WrongShape,
}

/// What a transport made of one request.
#[derive(Debug, Clone)]
pub enum HttpOutcome<T> {
    /// No answer came: the transport's message.
    Unreachable(String),
    /// An answer came, with its status, its raw body and how that body decoded.
    Answered { status: u16, body: String, decoded: Decoded<T> },
}

pub open spec fn is_success(status: u16) -> bool {
    200 <= status < 300
}

/// The result that an operation reports for an outcome of its request.
pub open spec fn outcome_result<T>(outcome: HttpOutcome<T>) -> Result<T, MVolaError> {
    match outcome {
        HttpOutcome::Unreachable(m) => Err(MVolaError::TransportFailure(m)),
        HttpOutcome::Answered { status, body, decoded } => {
            if !is_success(status) {
                Err(MVolaError::ApiFailure { status, body })
            } else {
                match decoded {
                    Decoded::Value(v) => Ok(v),
                    Decoded::NotJson => Err(MVolaError::ApiFailure { status, body }),
                    Decoded::WrongShape => Err(MVolaError::DecodeFailure { status, body }),
                }
            }
        },
    }
}

/// Turns what the transport made of a request into the operation's result: the
/// decoded value, unchanged, for a success status with a body of the expected shape.
pub fn complete<T>(outcome: HttpOutcome<T>) -> (r: Result<T, MVolaError>)
    ensures
        r == outcome_result(outcome),
{
    match outcome {
        HttpOutcome::Unreachable(m) => Err(MVolaError::TransportFailure(m)),
        HttpOutcome::Answered { status, body, decoded } => {
            if status < 200 || status >= 300 {
                Err(MVolaError::ApiFailure { status, body })
            } else {
                match decoded {
                    Decoded::Value(v) => Ok(v),
                    Decoded::NotJson => Err(MVolaError::ApiFailure { status, body }),
                    Decoded::WrongShape => Err(MVolaError::DecodeFailure { status, body }),
                }
            }
        },
    }
}

} // verus!
