use vstd::prelude::*;
use crate::http::{
    built, is_success, outcome_result, parse_url, push_header, url_parse_of, Decoded,
    Header, HttpOutcome, HttpRequest, Method, RequestView,
};
use crate::types::{opt_view, AuthRequest, AuthResponse, MVolaError, Usage};

verus! {

/// The path of the token endpoint, below the base URL.
pub const TOKEN_PATH: &'static str = "/token";

/// The grant type of the client-credentials flow.
pub const GRANT_TYPE: &'static str = "client_credentials";

/// The scope that every token is asked for.
pub const TOKEN_SCOPE: &'static str = "EXT_INT_MVOLA_SCOPE";

/// The characters that form encoding leaves as they are.
pub open spec fn form_safe(c: char) -> bool {
    c == '*' || c == '-' || c == '.' || c == '_' || ('0' <= c && c <= '9') || ('A' <= c && c
        <= 'Z') || ('a' <= c && c <= 'z')
}

pub open spec fn all_form_safe(s: Seq<char>) -> bool {
    forall|i: int| 0 <= i < s.len() ==> form_safe(#[trigger] s[i])
}

/// The form-encoded body of a token request.
pub open spec fn token_form_of(grant_type: Seq<char>, scope: Seq<char>) -> Seq<char> {
    "grant_type="@ + grant_type + "&scope="@ + scope
}

impl AuthRequest {
    /// Both parameters are made of characters that form encoding keeps unchanged,
    /// so that writing them as they are is their encoding.
    pub open spec fn wf(&self) -> bool {
        all_form_safe(self.grant_type@) && all_form_safe(self.scope@)
    }

    /// The parameters of the client-credentials grant.
    pub fn client_credentials() -> (r: AuthRequest)
        ensures
            r.grant_type@ == GRANT_TYPE@,
            r.scope@ == TOKEN_SCOPE@,
            r.wf(),
    {
        proof {
            reveal_strlit("client_credentials");
            reveal_strlit("EXT_INT_MVOLA_SCOPE");
        }
        AuthRequest { grant_type: String::from_str(GRANT_TYPE), scope: String::from_str(TOKEN_SCOPE) }
    }

    /// The `application/x-www-form-urlencoded` body that carries the parameters.
    pub fn form_body(&self) -> (r: String)
        requires
            self.wf(),
        ensures
            r@ == token_form_of(self.grant_type@, self.scope@),
    {
        let mut out = String::from_str("grant_type=");
        out.append(self.grant_type.as_str());
        out.append("&scope=");
        out.append(self.scope.as_str());
        out
    }
}

/// The value of a `Basic` authorization header for a user and a password.
pub uninterp spec fn basic_auth_of(user: Seq<char>, password: Seq<char>) -> Seq<char>;

/// Relies on http-types' `BasicAuth::value` (surf's `http::auth::BasicAuth`): the header
/// value depends on the user and the password alone.
#[verifier::external_body]
fn basic_auth(user: &str, password: &str) -> (r: String)
    ensures
        r@ == basic_auth_of(user@, password@),
{
    surf::http::auth::BasicAuth::new(user, password).value().as_str().to_string()
}

/// The URL text of the token endpoint below `base`.
pub open spec fn token_url_of(base: Seq<char>) -> Seq<char> {
    base + TOKEN_PATH@
}

/// The token request to the parsed URL `url`, authenticated by the `Basic` header value
/// `authorization`.
pub open spec fn token_request_of(url: Option<Seq<char>>, authorization: Seq<char>) -> Result<
    RequestView,
    Usage,
> {
    match url {
        None => Err(Usage::InvalidUrl),
        Some(u) => Ok(
            RequestView {
                method: Method::Post,
                url: u,
                headers: seq![
                    ("Authorization"@, authorization),
                    ("Accept"@, "application/json"@),
                    ("Content-Type"@, "application/x-www-form-urlencoded"@),
                ],
                body: Some(token_form_of(GRANT_TYPE@, TOKEN_SCOPE@)),
            },
        ),
    }
}

/// Builds the token request from the parsed URL of the token endpoint and the value of
/// its `Basic` authorization header.
pub fn token_request_with(url: Option<String>, authorization: String) -> (r: Result<
    HttpRequest,
    MVolaError,
>)
    ensures
        built(r) == Some(token_request_of(opt_view(url), authorization@)),
{
    match url {
        None => Err(MVolaError::UsageError(Usage::InvalidUrl)),
        Some(u) => {
            let params = AuthRequest::client_credentials();
            let mut headers: Vec<Header> = Vec::new();
            push_header(&mut headers, "Authorization", authorization.as_str());
            push_header(&mut headers, "Accept", "application/json");
            push_header(&mut headers, "Content-Type", "application/x-www-form-urlencoded");
            let req = HttpRequest {
                method: Method::Post,
                url: u,
                headers,
                body: Some(params.form_body()),
            };
            assert(req@.headers =~= token_request_of(opt_view(Some(u)), authorization@)->Ok_0.headers);
            Ok(req)
        },
    }
}

/// Exchanges consumer credentials for a bearer token against one base URL.
pub struct AuthService {
    pub base_url: String,
}

impl AuthService {
    pub fn new(base_url: &str) -> (r: AuthService)
        ensures
            r.base_url@ == base_url@,
    {
        AuthService { base_url: String::from_str(base_url) }
    }

    /// The one request that asks for a token: a POST to the token endpoint, authenticated
    /// with HTTP Basic by `consumer_key` and `consumer_secret`, with the form-encoded
    /// client-credentials grant as its body.
    pub fn token_request(&self, consumer_key: &str, consumer_secret: &str) -> (r: Result<
        HttpRequest,
        MVolaError,
    >)
        ensures
            built(r) == Some(
                token_request_of(
                    url_parse_of(token_url_of(self.base_url@)),
                    basic_auth_of(consumer_key@, consumer_secret@),
                ),
            ),
    {
        let mut path = self.base_url.clone();
        path.append(TOKEN_PATH);
        let url = parse_url(path.as_str());
        let authorization = basic_auth(consumer_key, consumer_secret);
        token_request_with(url, authorization)
    }
}

/// A token exchange is one POST to the token endpoint below the base URL, authenticated
/// by the `Basic` header of exactly the given credentials, whose body is the
/// client-credentials form; a success answer whose body decodes is returned verbatim.
pub proof fn lemma_token_exchange(
    base: Seq<char>,
    key: Seq<char>,
    secret: Seq<char>,
    status: u16,
    body: String,
    token: AuthResponse,
)
    requires
        url_parse_of(token_url_of(base)) is Some,
        is_success(status),
    ensures
        ({
            let req = token_request_of(url_parse_of(token_url_of(base)), basic_auth_of(key, secret))->Ok_0;
            &&& token_request_of(url_parse_of(token_url_of(base)), basic_auth_of(key, secret)) is Ok
            &&& req.method == Method::Post
            &&& Some(req.url) == url_parse_of(token_url_of(base))
            &&& req.headers.contains(("Authorization"@, basic_auth_of(key, secret)))
            &&& req.body == Some(token_form_of(GRANT_TYPE@, TOKEN_SCOPE@))
        }),
        outcome_result(
            HttpOutcome::Answered { status, body, decoded: Decoded::Value(token) },
        ) == Ok::<AuthResponse, MVolaError>(token),
{
    let req = token_request_of(url_parse_of(token_url_of(base)), basic_auth_of(key, secret))->Ok_0;
    assert(req.headers[0] == ("Authorization"@, basic_auth_of(key, secret)));
}

} // verus!
