use mvola::http::{complete, Decoded, HttpOutcome, HttpRequest, Method};
use mvola::json::{json_key_value_array, json_string, payment_json};
use mvola::transaction::TransactionService;
use mvola::types::{
    KeyValue, MVolaError, Options, Service, TransactionDetails, TransactionRequest,
    TransactionResponse, TransactionStatus, Usage,
};

const SERVER_URL: &str = "http://127.0.0.1:1234";

fn header<'a>(req: &'a HttpRequest, name: &str) -> Option<&'a str> {
    req.headers.iter().find(|h| h.name == name).map(|h| h.value.as_str())
}

fn names(req: &HttpRequest) -> Vec<&str> {
    req.headers.iter().map(|h| h.name.as_str()).collect()
}

fn kv(key: &str, value: &str) -> KeyValue {
    KeyValue {
        key: String::from(key),
        value: String::from(value),
    }
}

fn options(language: Option<&str>, partner: Option<&str>) -> Options {
    Options {
        version: String::from("1.0"),
        correlation_id: String::from("c0ffee00-0000-4000-8000-000000000001"),
        user_language: language.map(String::from),
        user_account_identifier: String::from("msisdn;0343500003"),
        partner_name: partner.map(String::from),
        callback_url: None,
    }
}

fn payment() -> TransactionRequest {
    let transaction_ref = "3f1c3f2e-9a4b-4c1d-8e2f-0a1b2c3d4e5f";
    TransactionRequest {
        amount: String::from("1000"),
        currency: String::from("Ar"),
        description_text: String::from("test"),
        request_date: String::from("2024-01-02T03:04:05.678Z"),
        debit_party: vec![kv("msisdn", "0343500003")],
        credit_party: vec![kv("msisdn", "0343500004")],
        metadata: vec![
            kv("partnerName", "TestMVola"),
            kv("fc", "USD"),
            kv("amountFc", "1"),
        ],
        requesting_organisation_transaction_reference: transaction_ref.to_string(),
        original_transaction_reference: transaction_ref.to_string(),
    }
}

fn authorized(opts: Options) -> TransactionService {
    let mut client = TransactionService::new(SERVER_URL);
    client.set_authorization("access token");
    client.set_options(opts);
    client
}

fn answered<T>(body: &str, value: T) -> HttpOutcome<T> {
    HttpOutcome::Answered {
        status: 200,
        body: body.to_string(),
        decoded: Decoded::Value(value),
    }
}

fn text(v: &serde_json::Value, key: &str) -> String {
    v[key].as_str().unwrap().to_string()
}

#[test]
fn test_send_payment() {
    let body = r#"{"status":"pending","serverCorrelationId":"a6b5569b-6181-4fc9-bee3-b9f928dd7ae3","notificationMethod":"polling"}"#;
    let client = authorized(options(Some("FR"), Some("TestMVola")));

    let req = client.payment_request(&payment()).unwrap();
    assert_eq!(req.method, Method::Post);
    assert_eq!(
        req.url,
        "http://127.0.0.1:1234/mvola/mm/transactions/type/merchantpay/1.0.0/"
    );

    let v: serde_json::Value = serde_json::from_str(body).unwrap();
    let decoded = TransactionResponse {
        status: text(&v, "status"),
        server_correlation_id: text(&v, "serverCorrelationId"),
        notification_method: text(&v, "notificationMethod"),
    };
    let response = complete(answered(body, decoded)).unwrap();
    assert_eq!(response.status, "pending");
    assert_eq!(
        response.server_correlation_id,
        "a6b5569b-6181-4fc9-bee3-b9f928dd7ae3"
    );
    assert_eq!(response.notification_method, "polling");
}

#[test]
fn payment_request_headers_and_body() {
    let client = authorized(options(Some("FR"), Some("TestMVola")));
    let req = client.payment_request(&payment()).unwrap();
    assert_eq!(
        names(&req),
        vec![
            "Authorization",
            "Accept",
            "Version",
            "X-CorrelationID",
            "UserLanguage",
            "PartnerName",
            "Cache-Control",
            "UserAccountIdentifier",
            "Content-Type",
        ]
    );
    assert_eq!(header(&req, "Authorization"), Some("Bearer access token"));
    assert_eq!(header(&req, "Accept"), Some("application/json"));
    assert_eq!(header(&req, "Version"), Some("1.0"));
    assert_eq!(
        header(&req, "X-CorrelationID"),
        Some("c0ffee00-0000-4000-8000-000000000001")
    );
    assert_eq!(header(&req, "UserLanguage"), Some("FR"));
    assert_eq!(header(&req, "PartnerName"), Some("TestMVola"));
    assert_eq!(header(&req, "Cache-Control"), Some("no-cache"));
    assert_eq!(
        header(&req, "UserAccountIdentifier"),
        Some("msisdn;0343500003")
    );
    assert_eq!(header(&req, "Content-Type"), Some("application/json"));
    assert_eq!(req.body.unwrap(), payment_json(&payment()));
}

#[test]
fn payment_json_is_camel_case_and_ordered() {
    let json = payment_json(&payment());
    assert_eq!(
        json,
        [
            r#"{"amount":"1000","currency":"Ar","descriptionText":"test","#,
            r#""requestDate":"2024-01-02T03:04:05.678Z","#,
            r#""debitParty":[{"key":"msisdn","value":"0343500003"}],"#,
            r#""creditParty":[{"key":"msisdn","value":"0343500004"}],"#,
            r#""metadata":[{"key":"partnerName","value":"TestMVola"},{"key":"fc","value":"USD"},{"key":"amountFc","value":"1"}],"#,
            r#""requestingOrganisationTransactionReference":"3f1c3f2e-9a4b-4c1d-8e2f-0a1b2c3d4e5f","#,
            r#""originalTransactionReference":"3f1c3f2e-9a4b-4c1d-8e2f-0a1b2c3d4e5f"}"#,
        ]
        .concat()
    );
}

#[test]
fn payment_json_round_trips() {
    let mut tx = payment();
    tx.description_text = String::from("quote \" back \\ line\n tab\t bell\u{7} é");
    tx.metadata.push(kv("", "\u{1f}"));
    let json = payment_json(&tx);
    let v: serde_json::Value = serde_json::from_str(&json).unwrap();
    assert_eq!(text(&v, "amount"), tx.amount);
    assert_eq!(text(&v, "currency"), tx.currency);
    assert_eq!(text(&v, "descriptionText"), tx.description_text);
    assert_eq!(text(&v, "requestDate"), tx.request_date);
    assert_eq!(
        text(&v, "requestingOrganisationTransactionReference"),
        tx.requesting_organisation_transaction_reference
    );
    assert_eq!(
        text(&v, "originalTransactionReference"),
        tx.original_transaction_reference
    );
    for (field, parties) in [
        ("debitParty", &tx.debit_party),
        ("creditParty", &tx.credit_party),
        ("metadata", &tx.metadata),
    ] {
        let items = v[field].as_array().unwrap();
        assert_eq!(items.len(), parties.len());
        for (item, party) in items.iter().zip(parties.iter()) {
            assert_eq!(text(item, "key"), party.key);
            assert_eq!(text(item, "value"), party.value);
        }
    }
}

#[test]
fn json_string_escapes() {
    assert_eq!(json_string(""), "\"\"");
    assert_eq!(json_string("plain é"), "\"plain é\"");
    assert_eq!(
        json_string("a\"b\\c\nd\re\tf\u{8}g\u{c}h\u{1}i\u{1f}"),
        "\"a\\\"b\\\\c\\nd\\re\\tf\\bg\\fh\\u0001i\\u001f\""
    );
}

#[test]
fn empty_key_value_array() {
    assert_eq!(json_key_value_array(&Vec::new()), "[]");
    assert_eq!(
        json_key_value_array(&vec![kv("a", "1"), kv("b", "2")]),
        r#"[{"key":"a","value":"1"},{"key":"b","value":"2"}]"#
    );
}

#[test]
fn payment_callback_header_only_when_set() {
    let mut opts = options(Some("FR"), Some("TestMVola"));
    opts.callback_url = Some(String::from("https://example.org/cb"));
    let client = authorized(opts);
    let req = client.payment_request(&payment()).unwrap();
    assert_eq!(header(&req, "X-Callback-URL"), Some("https://example.org/cb"));
    assert_eq!(req.headers.len(), 10);
    assert_eq!(req.headers[8].name, "X-Callback-URL");
}

#[test]
fn test_get_status() {
    let body = r#"{"status":"completed","serverCorrelationId":"2ba1d66a-25cf-4c12-8a6f-4cb01255148e","notificationMethod":"polling","objectReference":"636042511"}"#;
    let client = authorized(options(Some("FR"), Some("TestMVola")));

    let req = client
        .status_request("05AB2C4F-E0E6-42AD-8FA4-9807BDF348BE")
        .unwrap();
    assert_eq!(req.method, Method::Get);
    assert_eq!(
        req.url,
        "http://127.0.0.1:1234/mvola/mm/transactions/type/merchantpay/1.0.0/status/05AB2C4F-E0E6-42AD-8FA4-9807BDF348BE"
    );
    assert_eq!(header(&req, "UserLanguage"), Some("FR"));
    assert_eq!(header(&req, "PartnerName"), Some("TestMVola"));

    let v: serde_json::Value = serde_json::from_str(body).unwrap();
    let decoded = TransactionStatus {
        status: text(&v, "status"),
        server_correlation_id: text(&v, "serverCorrelationId"),
        notification_method: text(&v, "notificationMethod"),
        object_reference: text(&v, "objectReference"),
    };
    let response = complete(answered(body, decoded)).unwrap();

    assert_eq!(response.status, "completed");
    assert_eq!(
        response.server_correlation_id,
        "2ba1d66a-25cf-4c12-8a6f-4cb01255148e"
    );
}

#[test]
fn status_request_headers() {
    let client = authorized(options(Some("MG"), Some("Shop")));
    let req = client.status_request("abc").unwrap();
    assert_eq!(
        names(&req),
        vec![
            "Authorization",
            "Version",
            "X-CorrelationID",
            "UserLanguage",
            "PartnerName",
            "Cache-Control",
            "UserAccountIdentifier",
        ]
    );
    assert_eq!(header(&req, "UserLanguage"), Some("MG"));
    assert_eq!(header(&req, "PartnerName"), Some("Shop"));
    assert!(req.body.is_none());
}

#[test]
fn status_requires_language_and_partner() {
    let client = authorized(options(None, Some("TestMVola")));
    assert!(matches!(
        client.status_request("x"),
        Err(MVolaError::UsageError(Usage::MissingUserLanguage))
    ));
    let client = authorized(options(Some("FR"), None));
    assert!(matches!(
        client.status_request("x"),
        Err(MVolaError::UsageError(Usage::MissingPartnerName))
    ));
    assert!(matches!(
        client.payment_request(&payment()),
        Err(MVolaError::UsageError(Usage::MissingPartnerName))
    ));
    let client = authorized(options(None, None));
    assert!(matches!(
        client.payment_request(&payment()),
        Err(MVolaError::UsageError(Usage::MissingUserLanguage))
    ));
}

#[test]
fn test_get_transaction() {
    let body = r#"{"amount":"10000.00","currency":"Ar","transactionReference":"636042511","transactionStatus":"completed","creationDate":"2021-11-26T11:42:40.555Z","requestDate":"2021-11-26T11:42:38.000Z","debitParty":[{"key":"msisdn","value":"0343500003"}],"creditParty":[{"key":"msisdn","value":"0343500004"}],"metadata":[{"key":"originalTransactionResult","value":"0"}],"fees":[{"feeAmount":"150"}]}"#;
    let client = authorized(options(None, None));

    let req = client
        .transaction_request("3A5C5E20-B2D9-449F-BBD6-2367A684E9C4")
        .unwrap();
    assert_eq!(req.method, Method::Get);
    assert_eq!(
        req.url,
        "http://127.0.0.1:1234/mvola/mm/transactions/type/merchantpay/1.0.0/3A5C5E20-B2D9-449F-BBD6-2367A684E9C4"
    );

    let v: serde_json::Value = serde_json::from_str(body).unwrap();
    let decoded = TransactionDetails {
        amount: text(&v, "amount"),
        currency: text(&v, "currency"),
        transaction_reference: text(&v, "transactionReference"),
        transaction_status: text(&v, "transactionStatus"),
        creation_date: text(&v, "creationDate"),
        request_date: text(&v, "requestDate"),
        debit_party: vec![kv("msisdn", "0343500003")],
        credit_party: vec![kv("msisdn", "0343500004")],
        metadata: vec![kv("originalTransactionResult", "0")],
        fees: Vec::new(),
    };
    let response = complete(answered(body, decoded)).unwrap();

    assert_eq!(response.amount, "10000.00");
}

#[test]
fn details_request_headers_without_locale() {
    let client = authorized(options(None, None));
    let req = client.transaction_request("636042511").unwrap();
    assert_eq!(
        names(&req),
        vec![
            "Authorization",
            "Accept",
            "Version",
            "X-CorrelationID",
            "Cache-Control",
            "UserAccountIdentifier",
        ]
    );
    assert_eq!(header(&req, "Authorization"), Some("Bearer access token"));
    assert!(req.body.is_none());
}

#[test]
fn operations_before_authorization_are_usage_errors() {
    let mut client = TransactionService::new(SERVER_URL);
    client.set_options(options(Some("FR"), Some("TestMVola")));
    assert!(matches!(
        client.transaction_request("1"),
        Err(MVolaError::UsageError(Usage::MissingAuthorization))
    ));
    assert!(matches!(
        client.status_request("1"),
        Err(MVolaError::UsageError(Usage::MissingAuthorization))
    ));
    assert!(matches!(
        client.payment_request(&payment()),
        Err(MVolaError::UsageError(Usage::MissingAuthorization))
    ));
}

#[test]
fn set_options_replaces_everything() {
    let mut client = TransactionService::new(SERVER_URL);
    client.set_authorization("t");
    let mut first = options(Some("EN"), Some("First"));
    first.callback_url = Some(String::from("https://first.example/cb"));
    first.correlation_id = String::from("first-id");
    client.set_options(first);
    let mut second = options(Some("FR"), Some("Second"));
    second.correlation_id = String::from("second-id");
    second.version = String::from("2.0");
    client.set_options(second);
    let req = client.payment_request(&payment()).unwrap();
    assert_eq!(header(&req, "UserLanguage"), Some("FR"));
    assert_eq!(header(&req, "PartnerName"), Some("Second"));
    assert_eq!(header(&req, "X-CorrelationID"), Some("second-id"));
    assert_eq!(header(&req, "Version"), Some("2.0"));
    assert_eq!(header(&req, "X-Callback-URL"), None);
    assert_eq!(header(&req, "Authorization"), Some("Bearer t"));

    client.set_options(options(None, None));
    assert!(matches!(
        client.status_request("1"),
        Err(MVolaError::UsageError(Usage::MissingUserLanguage))
    ));
}

#[test]
fn set_authorization_replaces_token() {
    let mut client = authorized(options(None, None));
    client.set_authorization("second token");
    let req = client.transaction_request("1").unwrap();
    assert_eq!(header(&req, "Authorization"), Some("Bearer second token"));
}

#[test]
fn invalid_base_url_is_usage_error() {
    let mut client = TransactionService::new("::not a url::");
    client.set_authorization("t");
    assert!(matches!(
        client.transaction_request("1"),
        Err(MVolaError::UsageError(Usage::InvalidUrl))
    ));
}

#[test]
fn default_options_lack_locale() {
    let mut client = TransactionService::new(SERVER_URL);
    client.set_authorization("t");
    let req = client.transaction_request("1").unwrap();
    assert_eq!(header(&req, "Version"), Some("1.0"));
    assert_eq!(header(&req, "X-CorrelationID"), Some(""));
    assert!(matches!(
        client.status_request("1"),
        Err(MVolaError::UsageError(Usage::MissingUserLanguage))
    ));
}

#[test]
fn outcomes_map_to_errors() {
    let r: Result<u8, MVolaError> = complete(HttpOutcome::Unreachable("timed out".to_string()));
    assert!(matches!(r, Err(MVolaError::TransportFailure(m)) if m == "timed out"));

    let r: Result<u8, MVolaError> = complete(HttpOutcome::Answered {
        status: 500,
        body: "boom".to_string(),
        decoded: Decoded::Value(1),
    });
    assert!(matches!(r, Err(MVolaError::ApiFailure { status: 500, body }) if body == "boom"));

    let r: Result<u8, MVolaError> = complete(HttpOutcome::Answered {
        status: 200,
        body: "<html>".to_string(),
        decoded: Decoded::NotJson,
    });
    assert!(matches!(r, Err(MVolaError::ApiFailure { status: 200, .. })));

    let r: Result<u8, MVolaError> = complete(HttpOutcome::Answered {
        status: 201,
        body: "{}".to_string(),
        decoded: Decoded::WrongShape,
    });
    assert!(matches!(r, Err(MVolaError::DecodeFailure { status: 201, body }) if body == "{}"));

    let r: Result<u8, MVolaError> = complete(HttpOutcome::Answered {
        status: 299,
        body: "7".to_string(),
        decoded: Decoded::Value(7),
    });
    assert!(matches!(r, Ok(7)));

    for status in [199u16, 300] {
        let r: Result<u8, MVolaError> = complete(HttpOutcome::Answered {
            status,
            body: "7".to_string(),
            decoded: Decoded::Value(7),
        });
        assert!(matches!(r, Err(MVolaError::ApiFailure { .. })));
    }
}
