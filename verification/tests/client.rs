use datto_api::client::{basic_authorization, REQUEST_TIMEOUT_SECS};
use datto_api::error::decimal_string;
use datto_api::token::{EXPIRY_BUFFER_SECS, NANOS_PER_SEC};
use datto_api::{
    Credentials, DattoClient, Error, FetchOutcome, Platform, StatusCode, TokenCheck, TokenRequest,
    TokenState,
};

const SECOND: u64 = 1_000_000_000;

fn credentials() -> Credentials {
    Credentials {
        api_key: "key".to_string(),
        api_secret: "secret".to_string(),
    }
}

fn issued(token: &str, expires_in: u64) -> FetchOutcome {
    FetchOutcome::Issued {
        access_token: token.to_string(),
        expires_in,
    }
}

fn rejected(code: u16, body: &str) -> FetchOutcome {
    FetchOutcome::Rejected {
        status: StatusCode::from_u16(code).unwrap(),
        body: body.to_string(),
    }
}

fn client_with(token: &str, expires_in: u64, now: u64) -> DattoClient {
    DattoClient::new(Platform::Merlot, credentials(), issued(token, expires_in), now).unwrap()
}

fn cached(check: TokenCheck) -> String {
    match check {
        TokenCheck::Cached(token) => token,
        TokenCheck::Refresh(request) => panic!("a refresh was asked for at {}", request.url),
    }
}

fn refresh(check: TokenCheck) -> TokenRequest {
    match check {
        TokenCheck::Refresh(request) => request,
        TokenCheck::Cached(_) => panic!("a cached token was handed out"),
    }
}

#[test]
fn test_credentials_creation() {
    let creds = Credentials {
        api_key: "test-key".to_string(),
        api_secret: "test-secret".to_string(),
    };
    assert_eq!(creds.api_key, "test-key");
    assert_eq!(creds.api_secret, "test-secret");
}

#[test]
fn test_credentials_clone() {
    let creds1 = Credentials {
        api_key: "key".to_string(),
        api_secret: "secret".to_string(),
    };
    let creds2 = creds1.clone();
    assert_eq!(creds1.api_key, creds2.api_key);
    assert_eq!(creds1.api_secret, creds2.api_secret);
}

#[test]
fn test_error_display_http_client() {
    let err = Error::Auth("invalid credentials".to_string());
    assert_eq!(err.to_string(), "Authentication failed: invalid credentials");
}

#[test]
fn test_error_display_api() {
    let err = Error::Api {
        status: 404,
        message: "Not found".to_string(),
    };
    assert_eq!(err.to_string(), "API error: 404 - Not found");
}

#[test]
fn test_error_debug() {
    let err = Error::Auth("test".to_string());
    let debug_str = format!("{:?}", err);
    assert!(debug_str.contains("Auth"));
    assert!(debug_str.contains("test"));
}

#[test]
fn test_error_display_transport() {
    let err = Error::HttpClient("operation timed out".to_string());
    assert_eq!(err.to_string(), "HTTP client error: operation timed out");
}

#[test]
fn test_decimal_string() {
    assert_eq!(decimal_string(0), "0");
    assert_eq!(decimal_string(7), "7");
    assert_eq!(decimal_string(9), "9");
    assert_eq!(decimal_string(10), "10");
    assert_eq!(decimal_string(404), "404");
    assert_eq!(decimal_string(1000), "1000");
    assert_eq!(decimal_string(65535), "65535");
}

#[test]
fn test_error_display_api_status_digits() {
    for status in [0u16, 5, 99, 100, 503, 9999, 65535] {
        let err = Error::Api {
            status,
            message: String::new(),
        };
        assert_eq!(err.to_string(), format!("API error: {} - ", status));
    }
}

#[test]
fn test_status_code_range() {
    assert!(StatusCode::from_u16(0).is_none());
    assert!(StatusCode::from_u16(99).is_none());
    assert_eq!(StatusCode::from_u16(100).unwrap().as_u16(), 100);
    assert_eq!(StatusCode::from_u16(999).unwrap().as_u16(), 999);
    assert!(StatusCode::from_u16(1000).is_none());
    assert!(StatusCode::from_u16(u16::MAX).is_none());
}

#[test]
fn test_status_code_agrees_with_transport() {
    for code in [0u16, 99, 100, 200, 404, 599, 999, 1000] {
        assert_eq!(
            StatusCode::from_u16(code).is_some(),
            reqwest::StatusCode::from_u16(code).is_ok()
        );
    }
    for code in 100u16..1000 {
        let ours = StatusCode::from_u16(code).unwrap();
        let theirs = reqwest::StatusCode::from_u16(code).unwrap();
        assert_eq!(ours.is_success(), theirs.is_success());
        assert_eq!(ours.to_string(), theirs.to_string());
    }
}

#[test]
fn test_status_code_is_success() {
    assert!(!StatusCode::from_u16(199).unwrap().is_success());
    assert!(StatusCode::from_u16(200).unwrap().is_success());
    assert!(StatusCode::from_u16(204).unwrap().is_success());
    assert!(StatusCode::from_u16(299).unwrap().is_success());
    assert!(!StatusCode::from_u16(300).unwrap().is_success());
    assert!(!StatusCode::from_u16(401).unwrap().is_success());
    assert!(!StatusCode::from_u16(500).unwrap().is_success());
}

#[test]
fn test_status_line() {
    assert_eq!(StatusCode::from_u16(200).unwrap().to_string(), "200 OK");
    assert_eq!(
        StatusCode::from_u16(401).unwrap().to_string(),
        "401 Unauthorized"
    );
    assert_eq!(
        StatusCode::from_u16(799).unwrap().to_string(),
        "799 <unknown status code>"
    );
}

#[test]
fn test_basic_authorization() {
    assert_eq!(basic_authorization("a2V5OnNlY3JldA=="), "Basic a2V5OnNlY3JldA==");
    assert_eq!(basic_authorization(""), "Basic ");
}

#[test]
fn test_credentials_authorization() {
    assert_eq!(credentials().authorization(), "Basic a2V5OnNlY3JldA==");
    let empty = Credentials {
        api_key: String::new(),
        api_secret: String::new(),
    };
    assert_eq!(empty.authorization(), "Basic Og==");
    let odd = Credentials {
        api_key: "cl\u{e9}".to_string(),
        api_secret: "p:w".to_string(),
    };
    assert_eq!(odd.authorization(), "Basic Y2zDqTpwOnc=");
}

#[test]
fn test_token_request() {
    let request = TokenRequest::new(Platform::Merlot, &credentials());
    assert_eq!(
        request.url,
        "https://merlot-api.centrastage.net/api/public/oauth/token"
    );
    assert_eq!(request.content_type, "application/x-www-form-urlencoded");
    assert_eq!(request.authorization, "Basic a2V5OnNlY3JldA==");
    assert_eq!(request.body, "grant_type=client_credentials");
}

#[test]
fn test_token_request_goes_to_the_platform() {
    for platform in Platform::all() {
        let request = TokenRequest::new(*platform, &credentials());
        assert_eq!(request.url, platform.token_endpoint());
    }
}

#[test]
fn test_constants() {
    assert_eq!(EXPIRY_BUFFER_SECS, 5 * 60);
    assert_eq!(NANOS_PER_SEC, SECOND);
    assert_eq!(REQUEST_TIMEOUT_SECS, 30);
}

#[test]
fn test_token_state_issued() {
    let state = TokenState::issued("tok".to_string(), 3600, 7);
    assert_eq!(state.access_token(), "tok");
    assert_eq!(state.expires_at(), 3_600_000_000_007);
}

#[test]
fn test_token_state_expiry_never_overflows() {
    let state = TokenState::issued("tok".to_string(), u64::MAX, u64::MAX);
    assert_eq!(
        state.expires_at(),
        u64::MAX as u128 + u64::MAX as u128 * 1_000_000_000
    );
    assert!(state.is_fresh(u64::MAX));
    let spent = TokenState::issued("tok".to_string(), 0, u64::MAX);
    assert_eq!(spent.expires_at(), u64::MAX as u128);
    assert!(!spent.is_fresh(u64::MAX));
    assert!(spent.is_fresh(0));
}

#[test]
fn test_token_state_is_fresh() {
    let state = TokenState::issued("tok".to_string(), 3600, 0);
    assert!(state.is_fresh(0));
    assert!(state.is_fresh(3299 * SECOND));
    assert!(state.is_fresh(3300 * SECOND - 1));
    assert!(!state.is_fresh(3300 * SECOND));
    assert!(!state.is_fresh(3600 * SECOND));
    assert!(!state.is_fresh(u64::MAX));
}

#[test]
fn test_new_holds_first_token() {
    let client = client_with("first", 3600, 10 * SECOND);
    assert_eq!(client.platform(), Platform::Merlot);
    assert_eq!(client.base_url(), "https://merlot-api.centrastage.net/api");
    let state = client.token_state().unwrap();
    assert_eq!(state.access_token(), "first");
    assert_eq!(state.expires_at(), 3610 * SECOND as u128);
}

#[test]
fn test_new_fails_when_first_fetch_is_rejected() {
    let made = DattoClient::new(
        Platform::Merlot,
        credentials(),
        rejected(401, "invalid_client"),
        0,
    );
    match made {
        Err(Error::Auth(message)) => {
            assert_eq!(
                message,
                "OAuth token request failed: 401 Unauthorized - invalid_client"
            );
        }
        Err(other) => panic!("unexpected: {:?}", other),
        Ok(_) => panic!("a client was made"),
    }
}

#[test]
fn test_new_fails_when_transport_fails() {
    let made = DattoClient::new(
        Platform::Syrah,
        credentials(),
        FetchOutcome::Failed("connection refused".to_string()),
        0,
    );
    match made {
        Err(Error::HttpClient(failure)) => assert_eq!(failure, "connection refused"),
        Err(other) => panic!("unexpected: {:?}", other),
        Ok(_) => panic!("a client was made"),
    }
}

#[test]
fn test_ensure_token_returns_cached_token() {
    let client = client_with("cached", 3600, 0);
    assert_eq!(cached(client.ensure_token(0)), "cached");
    assert_eq!(cached(client.ensure_token(1800 * SECOND)), "cached");
    assert_eq!(cached(client.ensure_token(3300 * SECOND - 1)), "cached");
    assert_eq!(client.token_state().unwrap().access_token(), "cached");
}

#[test]
fn test_ensure_token_refreshes_within_buffer() {
    let mut client = client_with("old", 3600, 0);
    let request = refresh(client.ensure_token(3300 * SECOND));
    assert_eq!(
        request.url,
        "https://merlot-api.centrastage.net/api/public/oauth/token"
    );
    assert_eq!(request.authorization, "Basic a2V5OnNlY3JldA==");
    let token = client
        .refresh_token(issued("new", 3600), 3301 * SECOND)
        .unwrap();
    assert_eq!(token, "new");
    assert_eq!(cached(client.ensure_token(3301 * SECOND)), "new");
    let state = client.token_state().unwrap();
    assert_eq!(state.access_token(), "new");
    assert_eq!(state.expires_at(), 6901 * SECOND as u128);
}

#[test]
fn test_ensure_token_refreshes_after_expiry() {
    let mut client = client_with("old", 3600, 0);
    refresh(client.ensure_token(3600 * SECOND));
    refresh(client.ensure_token(4000 * SECOND));
    refresh(client.ensure_token(u64::MAX));
    let token = client
        .refresh_token(issued("new", 600), 4000 * SECOND)
        .unwrap();
    assert_eq!(token, "new");
    assert_eq!(cached(client.ensure_token(4299 * SECOND)), "new");
    refresh(client.ensure_token(4300 * SECOND));
}

#[test]
fn test_short_lived_token_is_never_handed_out_from_cache() {
    let mut client = client_with("brief", 300, 0);
    refresh(client.ensure_token(0));
    assert_eq!(client.refresh_token(issued("longer", 301), 0).unwrap(), "longer");
    assert_eq!(cached(client.ensure_token(0)), "longer");
    assert_eq!(cached(client.ensure_token(SECOND - 1)), "longer");
    refresh(client.ensure_token(SECOND));
}

#[test]
fn test_refresh_rejected_gives_auth_error() {
    let mut client = client_with("old", 3600, 0);
    let err = client
        .refresh_token(rejected(401, "invalid_client"), 3400 * SECOND)
        .unwrap_err();
    let message = err.to_string();
    assert!(matches!(err, Error::Auth(_)));
    assert!(message.contains("401"));
    assert!(message.contains("invalid_client"));
    assert_eq!(
        message,
        "Authentication failed: OAuth token request failed: 401 Unauthorized - invalid_client"
    );
}

#[test]
fn test_refresh_rejected_with_unreadable_body() {
    let mut client = client_with("old", 3600, 0);
    let err = client
        .refresh_token(rejected(503, ""), 3400 * SECOND)
        .unwrap_err();
    match err {
        Error::Auth(message) => assert_eq!(
            message,
            "OAuth token request failed: 503 Service Unavailable - "
        ),
        other => panic!("unexpected: {:?}", other),
    }
}

#[test]
fn test_refresh_transport_failure_is_not_an_auth_error() {
    let mut client = client_with("old", 3600, 0);
    let err = client
        .refresh_token(
            FetchOutcome::Failed("operation timed out".to_string()),
            3400 * SECOND,
        )
        .unwrap_err();
    assert!(matches!(err, Error::HttpClient(_)));
    assert_eq!(err.to_string(), "HTTP client error: operation timed out");
}

#[test]
fn test_failed_refresh_leaves_cache_as_it_was() {
    let mut client = client_with("old", 3600, 0);
    refresh(client.ensure_token(3400 * SECOND));
    client
        .refresh_token(rejected(500, "boom"), 3401 * SECOND)
        .unwrap_err();
    let state = client.token_state().unwrap();
    assert_eq!(state.access_token(), "old");
    assert_eq!(state.expires_at(), 3600 * SECOND as u128);
    refresh(client.ensure_token(3401 * SECOND));
    client
        .refresh_token(FetchOutcome::Failed("reset".to_string()), 3402 * SECOND)
        .unwrap_err();
    assert_eq!(client.token_state().unwrap().access_token(), "old");
    refresh(client.ensure_token(3402 * SECOND));
}

#[test]
fn test_failed_refresh_does_not_clear_a_fresh_token() {
    let mut client = client_with("old", 3600, 0);
    refresh(client.ensure_token(3400 * SECOND));
    assert_eq!(
        client
            .refresh_token(issued("winner", 3600), 3401 * SECOND)
            .unwrap(),
        "winner"
    );
    client
        .refresh_token(rejected(429, "slow down"), 3402 * SECOND)
        .unwrap_err();
    assert_eq!(cached(client.ensure_token(3402 * SECOND)), "winner");
}

#[test]
fn test_racing_refreshes_leave_one_whole_token() {
    let mut client = client_with("old", 3600, 0);
    for _ in 0..3 {
        refresh(client.ensure_token(3500 * SECOND));
    }
    let first = client
        .refresh_token(issued("first", 1000), 3501 * SECOND)
        .unwrap();
    let second = client
        .refresh_token(issued("second", 2000), 3502 * SECOND)
        .unwrap();
    let third = client
        .refresh_token(issued("third", 3000), 3503 * SECOND)
        .unwrap();
    assert_eq!(first, "first");
    assert_eq!(second, "second");
    assert_eq!(third, "third");
    let state = client.token_state().unwrap();
    assert_eq!(state.access_token(), "third");
    assert_eq!(state.expires_at(), 6503 * SECOND as u128);
    assert_eq!(cached(client.ensure_token(3503 * SECOND)), "third");
}

#[test]
fn test_auth_failure_message_parts() {
    let err = Error::token_request_failed("401 Unauthorized", "invalid_client");
    match err {
        Error::Auth(message) => assert_eq!(
            message,
            "OAuth token request failed: 401 Unauthorized - invalid_client"
        ),
        other => panic!("unexpected: {:?}", other),
    }
    let err = Error::auth_failure(StatusCode::from_u16(403).unwrap(), "no");
    match err {
        Error::Auth(message) => {
            assert_eq!(message, "OAuth token request failed: 403 Forbidden - no")
        }
        other => panic!("unexpected: {:?}", other),
    }
}
