use vstd::prelude::*;
use crate::http::{built, parse_url, push_header, url_parse_of, Header, HttpRequest, Method, RequestView};
use crate::json::{payment_json, payment_json_of};
use crate::types::{
    bearer_value_of, default_options, opt_view, MVolaError, Options, OptionsView, Service,
    TransactionRequest, Usage,
};

verus! {

/// The path of the merchant-pay transaction collection, below the base URL.
pub const MERCHANT_PAY_PATH: &'static str = "/mvola/mm/transactions/type/merchantpay/";

/// The version of the transaction API, which every transaction path carries.
pub const API_VERSION: &'static str = "1.0.0";

/// The URL text of the transaction collection below `base`.
pub open spec fn collection_url_of(base: Seq<char>) -> Seq<char> {
    base + MERCHANT_PAY_PATH@ + API_VERSION@ + "/"@
}

/// The URL text of the transaction `id` below `base`.
pub open spec fn details_url_of(base: Seq<char>, id: Seq<char>) -> Seq<char> {
    collection_url_of(base) + id
}

/// The URL text of the status of the transaction with server correlation id `id`.
pub open spec fn status_url_of(base: Seq<char>, id: Seq<char>) -> Seq<char> {
    collection_url_of(base) + "status/"@ + id
}

/// The request for the details of a transaction at the parsed URL `url`: it needs an
/// authorization, and neither the user language nor the partner name.
pub open spec fn details_request_of(
    authorization: Option<Seq<char>>,
    o: OptionsView,
    url: Option<Seq<char>>,
) -> Result<RequestView, Usage> {
    if authorization is None {
        Err(Usage::MissingAuthorization)
    } else if url is None {
        Err(Usage::InvalidUrl)
    } else {
        Ok(
            RequestView {
                method: Method::Get,
                url: url->Some_0,
                headers: seq![
                    ("Authorization"@, authorization->Some_0),
                    ("Accept"@, "application/json"@),
                    ("Version"@, o.version),
                    ("X-CorrelationID"@, o.correlation_id),
                    ("Cache-Control"@, "no-cache"@),
                    ("UserAccountIdentifier"@, o.user_account_identifier),
                ],
                body: None,
            },
        )
    }
}

/// The request for the status of a transaction at the parsed URL `url`: it needs an
/// authorization, a user language and a partner name.
pub open spec fn status_request_of(
    authorization: Option<Seq<char>>,
    o: OptionsView,
    url: Option<Seq<char>>,
) -> Result<RequestView, Usage> {
    if authorization is None {
        Err(Usage::MissingAuthorization)
    } else if o.user_language is None {
        Err(Usage::MissingUserLanguage)
    } else if o.partner_name is None {
        Err(Usage::MissingPartnerName)
    } else if url is None {
        Err(Usage::InvalidUrl)
    } else {
        Ok(
            RequestView {
                method: Method::Get,
                url: url->Some_0,
                headers: seq![
                    ("Authorization"@, authorization->Some_0),
                    ("Version"@, o.version),
                    ("X-CorrelationID"@, o.correlation_id),
                    ("UserLanguage"@, o.user_language->Some_0),
                    ("PartnerName"@, o.partner_name->Some_0),
                    ("Cache-Control"@, "no-cache"@),
                    ("UserAccountIdentifier"@, o.user_account_identifier),
                ],
                body: None,
            },
        )
    }
}

/// The headers of a payment, with `X-Callback-URL` only where the options hold one.
pub open spec fn payment_headers_of(authorization: Seq<char>, o: OptionsView) -> Seq<
    (Seq<char>, Seq<char>),
> {
    seq![
        ("Authorization"@, authorization),
        ("Accept"@, "application/json"@),
        ("Version"@, o.version),
        ("X-CorrelationID"@, o.correlation_id),
        ("UserLanguage"@, o.user_language->Some_0),
        ("PartnerName"@, o.partner_name->Some_0),
        ("Cache-Control"@, "no-cache"@),
        ("UserAccountIdentifier"@, o.user_account_identifier),
    ] + match o.callback_url {
        Some(c) => seq![("X-Callback-URL"@, c)],
        None => Seq::empty(),
    } + seq![("Content-Type"@, "application/json"@)]
}

/// The payment request at the parsed URL `url` whose body is the JSON text `json`: it
/// needs an authorization, a user language and a partner name.
pub open spec fn payment_request_of(
    authorization: Option<Seq<char>>,
    o: OptionsView,
    url: Option<Seq<char>>,
    json: Seq<char>,
) -> Result<RequestView, Usage> {
    if authorization is None {
        Err(Usage::MissingAuthorization)
    } else if o.user_language is None {
        Err(Usage::MissingUserLanguage)
    } else if o.partner_name is None {
        Err(Usage::MissingPartnerName)
    } else if url is None {
        Err(Usage::InvalidUrl)
    } else {
        Ok(
            RequestView {
                method: Method::Post,
                url: url->Some_0,
                headers: payment_headers_of(authorization->Some_0, o),
                body: Some(json),
            },
        )
    }
}

/// Relies on http-types' `Authorization::value` (surf's `http::auth::Authorization`) for
/// the `Bearer` scheme: the scheme's name, one space, then the credentials as given.
#[verifier::external_body]
fn bearer_value(token: &str) -> (r: String)
    ensures
        r@ == bearer_value_of(token@),
{
    surf::http::auth::Authorization::new(
        surf::http::auth::AuthenticationScheme::Bearer,
        token.to_string(),
    ).value().as_str().to_string()
}

/// The transaction client: one session, that is an authorization and the options,
/// against one base URL.
pub struct TransactionService {
    base_url: String,
    authorization: Option<String>,
    options: Options,
}

impl Service for TransactionService {
    closed spec fn base(&self) -> Seq<char> {
        self.base_url@
    }

    closed spec fn authorization(&self) -> Option<Seq<char>> {
        opt_view(self.authorization)
    }

    closed spec fn options(&self) -> OptionsView {
        self.options@
    }

    fn set_authorization(&mut self, token: &str) {
        self.authorization = Some(bearer_value(token));
    }

    fn set_options(&mut self, options: Options) {
        self.options = options;
    }
}

impl TransactionService {
    /// A session with no authorization and the default options.
    pub fn new(base_url: &str) -> (r: TransactionService)
        ensures
            r.base() == base_url@,
            r.authorization() is None,
            r.options() == default_options(),
    {
        TransactionService {
            base_url: String::from_str(base_url),
            authorization: None,
            options: Options::initial(),
        }
    }

    /// The request for the details of a transaction, to the parsed URL `url`.
    pub fn transaction_request_with(&self, url: Option<String>) -> (r: Result<
        HttpRequest,
        MVolaError,
    >)
        ensures
            built(r) == Some(details_request_of(self.authorization(), self.options(), opt_view(url))),
    {
        let authorization = match &self.authorization {
            None => {
                return Err(MVolaError::UsageError(Usage::MissingAuthorization));
            },
            Some(a) => a,
        };
        let u = match url {
            None => {
                return Err(MVolaError::UsageError(Usage::InvalidUrl));
            },
            Some(u) => u,
        };
        let o = &self.options;
        let mut headers: Vec<Header> = Vec::new();
        push_header(&mut headers, "Authorization", authorization.as_str());
        push_header(&mut headers, "Accept", "application/json");
        push_header(&mut headers, "Version", o.version.as_str());
        push_header(&mut headers, "X-CorrelationID", o.correlation_id.as_str());
        push_header(&mut headers, "Cache-Control", "no-cache");
        push_header(&mut headers, "UserAccountIdentifier", o.user_account_identifier.as_str());
        let req = HttpRequest { method: Method::Get, url: u, headers, body: None };
        assert(req@.headers =~= details_request_of(
            self.authorization(),
            self.options(),
            opt_view(Some(u)),
        )->Ok_0.headers);
        Ok(req)
    }

    /// The request for the details of the transaction `id`: a GET with the session's
    /// authorization; the user language and the partner name are not needed.
    pub fn transaction_request(&self, id: &str) -> (r: Result<HttpRequest, MVolaError>)
        ensures
            built(r) == Some(
                details_request_of(
                    self.authorization(),
                    self.options(),
                    url_parse_of(details_url_of(self.base(), id@)),
                ),
            ),
    {
        let mut path = self.base_url.clone();
        path.append(MERCHANT_PAY_PATH);
        path.append(API_VERSION);
        path.append("/");
        path.append(id);
        let url = parse_url(path.as_str());
        self.transaction_request_with(url)
    }

    /// The request for the status of a transaction, to the parsed URL `url`.
    pub fn status_request_with(&self, url: Option<String>) -> (r: Result<HttpRequest, MVolaError>)
        ensures
            built(r) == Some(status_request_of(self.authorization(), self.options(), opt_view(url))),
    {
        let authorization = match &self.authorization {
            None => {
                return Err(MVolaError::UsageError(Usage::MissingAuthorization));
            },
            Some(a) => a,
        };
        let o = &self.options;
        let language = match &o.user_language {
            None => {
                return Err(MVolaError::UsageError(Usage::MissingUserLanguage));
            },
            Some(l) => l,
        };
        let partner = match &o.partner_name {
            None => {
                return Err(MVolaError::UsageError(Usage::MissingPartnerName));
            },
            Some(p) => p,
        };
        let u = match url {
            None => {
                return Err(MVolaError::UsageError(Usage::InvalidUrl));
            },
            Some(u) => u,
        };
        let mut headers: Vec<Header> = Vec::new();
        push_header(&mut headers, "Authorization", authorization.as_str());
        push_header(&mut headers, "Version", o.version.as_str());
        push_header(&mut headers, "X-CorrelationID", o.correlation_id.as_str());
        push_header(&mut headers, "UserLanguage", language.as_str());
        push_header(&mut headers, "PartnerName", partner.as_str());
        push_header(&mut headers, "Cache-Control", "no-cache");
        push_header(&mut headers, "UserAccountIdentifier", o.user_account_identifier.as_str());
        let req = HttpRequest { method: Method::Get, url: u, headers, body: None };
        assert(req@.headers =~= status_request_of(
            self.authorization(),
            self.options(),
            opt_view(Some(u)),
        )->Ok_0.headers);
        Ok(req)
    }

    /// The request for the status of the transaction with the given server correlation
    /// id: a GET with the session's authorization, user language and partner name, each
    /// of which must be present.
    pub fn status_request(&self, server_correlation_id: &str) -> (r: Result<
        HttpRequest,
        MVolaError,
    >)
        ensures
            built(r) == Some(
                status_request_of(
                    self.authorization(),
                    self.options(),
                    url_parse_of(status_url_of(self.base(), server_correlation_id@)),
                ),
            ),
    {
        let mut path = self.base_url.clone();
        path.append(MERCHANT_PAY_PATH);
        path.append(API_VERSION);
        path.append("/status/");
        path.append(server_correlation_id);
        proof {
            reveal_strlit("/status/");
            reveal_strlit("/");
            reveal_strlit("status/");
            assert(path@ =~= status_url_of(self.base(), server_correlation_id@));
        }
        let url = parse_url(path.as_str());
        self.status_request_with(url)
    }

    /// The payment request to the parsed URL `url`, whose body is the JSON text `json`.
    pub fn payment_request_with(&self, url: Option<String>, json: String) -> (r: Result<
        HttpRequest,
        MVolaError,
    >)
        ensures
            built(r) == Some(
                payment_request_of(self.authorization(), self.options(), opt_view(url), json@),
            ),
    {
        let authorization = match &self.authorization {
            None => {
                return Err(MVolaError::UsageError(Usage::MissingAuthorization));
            },
            Some(a) => a,
        };
        let o = &self.options;
        let language = match &o.user_language {
            None => {
                return Err(MVolaError::UsageError(Usage::MissingUserLanguage));
            },
            Some(l) => l,
        };
        let partner = match &o.partner_name {
            None => {
                return Err(MVolaError::UsageError(Usage::MissingPartnerName));
            },
            Some(p) => p,
        };
        let u = match url {
            None => {
                return Err(MVolaError::UsageError(Usage::InvalidUrl));
            },
            Some(u) => u,
        };
        let mut headers: Vec<Header> = Vec::new();
        push_header(&mut headers, "Authorization", authorization.as_str());
        push_header(&mut headers, "Accept", "application/json");
        push_header(&mut headers, "Version", o.version.as_str());
        push_header(&mut headers, "X-CorrelationID", o.correlation_id.as_str());
        push_header(&mut headers, "UserLanguage", language.as_str());
        push_header(&mut headers, "PartnerName", partner.as_str());
        push_header(&mut headers, "Cache-Control", "no-cache");
        push_header(&mut headers, "UserAccountIdentifier", o.user_account_identifier.as_str());
        match &o.callback_url {
            Some(c) => push_header(&mut headers, "X-Callback-URL", c.as_str()),
            None => {},
        }
        push_header(&mut headers, "Content-Type", "application/json");
        let req = HttpRequest { method: Method::Post, url: u, headers, body: Some(json) };
        assert(req@.headers =~= payment_headers_of(authorization@, o@));
        Ok(req)
    }

    /// The request that initiates the payment `tx`: a POST to the transaction collection
    /// with the session's authorization, user language and partner name, each of which
    /// must be present, and the wire JSON of `tx` as its body.
    pub fn payment_request(&self, tx: &TransactionRequest) -> (r: Result<
        HttpRequest,
        MVolaError,
    >)
        ensures
            built(r) == Some(
                payment_request_of(
                    self.authorization(),
                    self.options(),
                    url_parse_of(collection_url_of(self.base())),
                    payment_json_of(*tx),
                ),
            ),
    {
        let mut path = self.base_url.clone();
        path.append(MERCHANT_PAY_PATH);
        path.append(API_VERSION);
        path.append("/");
        let url = parse_url(path.as_str());
        let json = payment_json(tx);
        self.payment_request_with(url, json)
    }
}

/// Before an authorization is set, every transaction operation stops with a usage error,
/// whatever the options, the URL and the payment.
pub proof fn lemma_unauthorized_fails(o: OptionsView, url: Option<Seq<char>>, json: Seq<char>)
    ensures
        details_request_of(None, o, url) == Err::<RequestView, Usage>(Usage::MissingAuthorization),
        status_request_of(None, o, url) == Err::<RequestView, Usage>(Usage::MissingAuthorization),
        payment_request_of(None, o, url, json) == Err::<RequestView, Usage>(
            Usage::MissingAuthorization,
        ),
{
}

/// The details lookup needs neither a user language nor a partner name: with an
/// authorization and a URL it succeeds, and its request is the same whether those two
/// options are present or absent.
pub proof fn lemma_details_without_locale(authorization: Seq<char>, o: OptionsView, url: Seq<char>)
    ensures
        details_request_of(Some(authorization), o, Some(url)) is Ok,
        details_request_of(Some(authorization), o, Some(url)) == details_request_of(
            Some(authorization),
            (OptionsView { user_language: None, partner_name: None, ..o }),
            Some(url),
        ),
{
}

/// Replacing the options twice leaves nothing of the first replacement: whatever `first`
/// held, every request built afterwards is the one built from `second` alone.
pub proof fn lemma_options_replaced(
    s0: TransactionService,
    s1: TransactionService,
    s2: TransactionService,
    first: Options,
    second: Options,
    url: Option<Seq<char>>,
    json: Seq<char>,
)
    requires
        s1.options() == first@,
        s1.authorization() == s0.authorization(),
        s1.base() == s0.base(),
        s2.options() == second@,
        s2.authorization() == s1.authorization(),
        s2.base() == s1.base(),
    ensures
        s2.base() == s0.base(),
        details_request_of(s2.authorization(), s2.options(), url) == details_request_of(
            s0.authorization(),
            second@,
            url,
        ),
        status_request_of(s2.authorization(), s2.options(), url) == status_request_of(
            s0.authorization(),
            second@,
            url,
        ),
        payment_request_of(s2.authorization(), s2.options(), url, json) == payment_request_of(
            s0.authorization(),
            second@,
            url,
            json,
        ),
{
}

} // verus!
