use vstd::prelude::*;

verus! {

/// The value of the `Version` header that a fresh session sends.
pub const DEFAULT_VERSION: &'static str = "1.0";

/// The view of an optional string: the characters it holds, if any.
pub open spec fn opt_view(o: Option<String>) -> Option<Seq<char>> {
    match o {
        Some(s) => Some(s@),
        None => None,
    }
}

/// A generic labelled field: a party identifier (`msisdn`) or a metadata entry.
#[derive(Debug, Clone)]
pub struct KeyValue {
    pub key: String,
    pub value: String,
}

impl View for KeyValue {
    type V = (Seq<char>, Seq<char>);

    open spec fn view(&self) -> (Seq<char>, Seq<char>) {
        (self.key@, self.value@)
    }
}

/// A fee charged on a transaction.
#[derive(Debug, Clone)]
pub struct Fee {
    pub fee_amount: String,
}

/// The token that the authentication endpoint hands out.
#[derive(Debug, Clone)]
pub struct AuthResponse {
    pub access_token: String,
    pub token_type: String,
    pub expires_in: u64,
    pub scope: String,
}

/// The form parameters of a token request.
#[derive(Debug, Clone)]
pub struct AuthRequest {
    pub grant_type: String,
    pub scope: String,
}

/// A merchant-pay payment to initiate.
#[derive(Debug, Clone)]
pub struct TransactionRequest {
    pub amount: String,
    pub currency: String,
    pub description_text: String,
    pub request_date: String,
    pub debit_party: Vec<KeyValue>,
    pub credit_party: Vec<KeyValue>,
    pub metadata: Vec<KeyValue>,
    pub requesting_organisation_transaction_reference: String,
    pub original_transaction_reference: String,
}

/// What the gateway answers to a payment.
#[derive(Debug, Clone)]
pub struct TransactionResponse {
    pub status: String,
    pub server_correlation_id: String,
    pub notification_method: String,
}

/// The details of a past transaction.
#[derive(Debug, Clone)]
pub struct TransactionDetails {
    pub amount: String,
    pub currency: String,
    pub transaction_reference: String,
    pub transaction_status: String,
    pub creation_date: String,
    pub request_date: String,
    pub debit_party: Vec<KeyValue>,
    pub credit_party: Vec<KeyValue>,
    pub metadata: Vec<KeyValue>,
    pub fees: Vec<Fee>,
}

/// The status of a transaction, looked up by its server correlation id.
#[derive(Debug, Clone)]
pub struct TransactionStatus {
    pub status: String,
    pub server_correlation_id: String,
    pub notification_method: String,
    pub object_reference: String,
}

/// The per-session values that go into the headers of every transactional request.
#[derive(Debug, Clone)]
pub struct Options {
    pub version: String,
    pub correlation_id: String,
    pub user_language: Option<String>,
    pub user_account_identifier: String,
    pub partner_name: Option<String>,
    pub callback_url: Option<String>,
}

/// The plain values that an `Options` holds.
pub struct OptionsView {
    pub version: Seq<char>,
    pub correlation_id: Seq<char>,
    pub user_language: Option<Seq<char>>,
    pub user_account_identifier: Seq<char>,
    pub partner_name: Option<Seq<char>>,
    pub callback_url: Option<Seq<char>>,
}

impl View for Options {
    type V = OptionsView;

    open spec fn view(&self) -> OptionsView {
        OptionsView {
            version: self.version@,
            correlation_id: self.correlation_id@,
            user_language: opt_view(self.user_language),
            user_account_identifier: self.user_account_identifier@,
            partner_name: opt_view(self.partner_name),
            callback_url: opt_view(self.callback_url),
        }
    }
}

/// The options of a fresh session: the default version and nothing else.
pub open spec fn default_options() -> OptionsView {
    OptionsView {
        version: DEFAULT_VERSION@,
        correlation_id: Seq::empty(),
        user_language: None,
        user_account_identifier: Seq::empty(),
        partner_name: None,
        callback_url: None,
    }
}

impl Options {
    /// The options of a fresh session.
    pub fn initial() -> (r: Options)
        ensures
            r@ == default_options(),
    {
        Options {
            version: String::from_str(DEFAULT_VERSION),
            correlation_id: String::new(),
            user_language: None,
            user_account_identifier: String::new(),
            partner_name: None,
            callback_url: None,
        }
    }
}

/// Which piece of session state a request needed and did not find.
#[derive(Debug, Clone, Copy, PartialEq, Eq, Structural)]
pub enum Usage {
    MissingAuthorization,
    MissingUserLanguage,
    MissingPartnerName,
    InvalidUrl,
}

/// Every way in which an operation of this client can fail.
#[derive(Debug, Clone)]
pub enum MVolaError {
    /// Required session state was absent, or the target URL is not a URL;
    /// raised before any network activity.
    UsageError(Usage),
    /// The request never got an answer: connection, DNS, TLS or timeout.
    TransportFailure(String),
    /// A non-success status, or a body that is not JSON at all.
    ApiFailure { status: u16, body: String },
    /// A success status whose JSON body does not have the expected shape.
    DecodeFailure { status: u16, body: String },
}

/// A service that can receive a bearer token and the session options.
pub trait Service {
    /// The base URL that requests go below.
    spec fn base(&self) -> Seq<char>;

    /// The value of the `Authorization` header that requests carry, once set.
    spec fn authorization(&self) -> Option<Seq<char>>;

    /// The options that requests are built from.
    spec fn options(&self) -> OptionsView;

    /// Replaces the authorization by a bearer credential wrapping `token`.
    fn set_authorization(&mut self, token: &str)
        ensures
            final(self).authorization() == Some(bearer_value_of(token@)),
            final(self).options() == old(self).options(),
            final(self).base() == old(self).base(),
    ;

    /// Replaces the whole options block: nothing of the previous one is kept.
    fn set_options(&mut self, options: Options)
        ensures
            final(self).options() == options@,
            final(self).authorization() == old(self).authorization(),
            final(self).base() == old(self).base(),
    ;
}

/// The header value of a bearer credential.
pub open spec fn bearer_value_of(token: Seq<char>) -> Seq<char> {
    "Bearer "@ + token
}

} // verus!
