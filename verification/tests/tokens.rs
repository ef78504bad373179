use openai_subscribed::credentials::{
    claims_of_payload, credentials_from_tokens, expiry_fits, extract_jwt_claims, CodexCredentials,
    TokenResponse,
};
use openai_subscribed::json::Json;
use openai_subscribed::oauth::{
    authorization_request, begin_authorization, exchange_form, exchange_outcome,
    finish_authorization, refresh_form, refresh_outcome, retries_refresh, RefreshError,
};
use openai_subscribed::requests::{authorization, codex_extra_headers, models_uri};
use openai_subscribed::time::{clock_ms, now_ms, Timestamp};
use std::time::SystemTime;

fn tokens(access_token: &str) -> TokenResponse {
    TokenResponse {
        scope: None,
        access_token: access_token.to_string(),
        refresh_token: "renew".to_string(),
        id_token: None,
        expires_in: 60,
        email: None,
    }
}

// {"chatgpt_account_id":"acct","email":"me@example.com"}
const NAMED: &str = "x.eyJjaGF0Z3B0X2FjY291bnRfaWQiOiJhY2N0IiwiZW1haWwiOiJtZUBleGFtcGxlLmNvbSJ9.y";

#[test]
fn claims_are_read_from_the_second_part() {
    let claims = extract_jwt_claims(NAMED);
    assert_eq!(claims.account_id.as_deref(), Some("acct"));
    assert_eq!(claims.email.as_deref(), Some("me@example.com"));
    for jwt in ["", "nothing", "x.!!!.y", "x.bm90IGpzb24.y", "x..y"] {
        let claims = extract_jwt_claims(jwt);
        assert_eq!(claims.account_id, None);
        assert_eq!(claims.email, None);
    }
}

#[test]
fn accounts_are_named_in_three_places() {
    let named = |document: &str| {
        claims_of_payload(&Json::parse(document).expect("document")).account_id
    };
    let nested = "\"https://api.openai.com/auth\":{\"chatgpt_account_id\":\"nested\"}";
    let organizations = "\"organizations\":[{\"id\":\"first\"},{\"id\":\"second\"}]";
    assert_eq!(
        named(&format!("{{\"chatgpt_account_id\":\"top\",{nested},{organizations}}}")).as_deref(),
        Some("top")
    );
    assert_eq!(
        named(&format!("{{\"chatgpt_account_id\":5,{nested},{organizations}}}")).as_deref(),
        Some("nested")
    );
    assert_eq!(named(&format!("{{{organizations}}}")).as_deref(), Some("first"));
    assert_eq!(named("{\"organizations\":[]}"), None);
    assert_eq!(named("[]"), None);
}

#[test]
fn tokens_make_credentials() {
    let mut issued = tokens("plain");
    issued.id_token = Some(NAMED.to_string());
    issued.scope = Some(" openid  email\toffline_access ".to_string());
    issued.email = Some("other@example.com".to_string());
    let credentials = credentials_from_tokens(issued, 1_000);
    assert_eq!(credentials.access_token, "plain");
    assert_eq!(credentials.refresh_token, "renew");
    assert_eq!(credentials.expires_at_ms, 61_000);
    assert_eq!(credentials.account_id.as_deref(), Some("acct"));
    assert_eq!(credentials.email.as_deref(), Some("me@example.com"));
    assert_eq!(credentials.scopes, ["openid", "email", "offline_access"]);

    let credentials = credentials_from_tokens(tokens(NAMED), 0);
    assert_eq!(credentials.account_id.as_deref(), Some("acct"));
    assert!(credentials.scopes.is_empty());

    let mut mailed = tokens("plain");
    mailed.email = Some("other@example.com".to_string());
    assert_eq!(credentials_from_tokens(mailed, 0).email.as_deref(), Some("other@example.com"));
}

#[test]
fn expiry_has_to_fit() {
    let mut issued = tokens("t");
    issued.expires_in = u64::MAX / 1000;
    assert!(expiry_fits(&issued, 615));
    assert!(!expiry_fits(&issued, 616));
    assert_eq!(credentials_from_tokens(issued, 615).expires_at_ms, u64::MAX);
}

#[test]
fn tokens_expire_five_minutes_early() {
    let mut credentials = credentials_from_tokens(tokens("t"), 1_000_000);
    assert!(credentials.is_expired_at(1_000_000));
    assert!(credentials.is_expired_at(760_000));
    assert!(!credentials.is_expired_at(759_999));
    assert!(credentials.is_expired());
    credentials.expires_at_ms = u64::MAX;
    assert!(!credentials.is_expired());
}

#[test]
fn authorization_follows_the_random_bytes() {
    let request = authorization_request("http://localhost:1455/auth/callback", &[0; 32], &[255; 16]);
    assert_eq!(request.verifier, "AAAAAAAAAAAAAAAAAAAAAAAAAAAAAAAAAAAAAAAAAAA");
    assert_eq!(request.state, "ffffffffffffffffffffffffffffffff");
    assert!(request.url.starts_with(
        "https://auth.openai.com/oauth/authorize?client_id=app_EMoamEEZ73f0CkXaXp7hrann&redirect_uri=http%3A%2F%2Flocalhost%3A1455%2Fauth%2Fcallback&scope=openid+profile+email+offline_access&prompt=select_account&response_type=code&code_challenge="
    ));
    assert!(request.url.ends_with(
        "&code_challenge_method=S256&id_token_add_organizations=true&state=ffffffffffffffffffffffffffffffff&codex_cli_simplified_flow=true&originator=zed"
    ));
}

#[test]
fn authorizations_differ() {
    let first = begin_authorization("http://localhost");
    let second = begin_authorization("http://localhost");
    assert_ne!(first.verifier, second.verifier);
    assert_ne!(first.state, second.state);
    assert_eq!(first.verifier.len(), 43);
    assert_eq!(first.state.len(), 32);
}

#[test]
fn only_the_own_callback_is_accepted() {
    let request = authorization_request("http://localhost", &[1; 32], &[10; 16]);
    assert_eq!(
        request.accept_callback("0b0a", "code", "http://localhost"),
        Err("OAuth state mismatch".to_string())
    );
    let form = request
        .accept_callback("0a0a0a0a0a0a0a0a0a0a0a0a0a0a0a0a", "a&b", "http://localhost")
        .expect("form");
    assert_eq!(form, exchange_form("a&b", &request.verifier, "http://localhost"));
    assert_eq!(
        form,
        format!(
            "grant_type=authorization_code&client_id=app_EMoamEEZ73f0CkXaXp7hrann&code=a%26b&redirect_uri=http%3A%2F%2Flocalhost&code_verifier={}",
            request.verifier
        )
    );
}

#[test]
fn exchanges_come_to_credentials_or_errors() {
    assert_eq!(
        exchange_outcome(400, "denied", Ok(tokens("t"))).err(),
        Some("Token exchange failed (HTTP 400 Bad Request): denied".to_string())
    );
    assert_eq!(
        exchange_outcome(200, "{}", Err("missing field".to_string())).err(),
        Some("Failed to parse token response: missing field".to_string())
    );
    assert_eq!(
        finish_authorization(400, "denied", Ok(tokens("t")), 0).err(),
        Some(
            "Token exchange failed: Token exchange failed (HTTP 400 Bad Request): denied".to_string()
        )
    );
    assert_eq!(
        finish_authorization(200, "{}", Err("missing field".to_string()), 0).err(),
        Some(
            "Token exchange failed: Failed to parse token response: missing field".to_string()
        )
    );
    let credentials = finish_authorization(201, "", Ok(tokens(NAMED)), 5).expect("credentials");
    assert_eq!(credentials.account_id.as_deref(), Some("acct"));
    assert_eq!(credentials.expires_at_ms, 60_005);
}

#[test]
fn renewals_fail_for_good_or_for_now() {
    assert_eq!(
        refresh_form("a b"),
        "grant_type=refresh_token&client_id=app_EMoamEEZ73f0CkXaXp7hrann&refresh_token=a+b"
    );
    for status in [400, 401, 403] {
        let result = refresh_outcome(status, "no", Ok(tokens("t")), 0);
        assert!(matches!(result, Err(RefreshError::Fatal(_))));
        assert!(!retries_refresh(&result, false));
    }
    for status in [404, 429, 500, 503] {
        let result = refresh_outcome(status, "no", Ok(tokens("t")), 0);
        assert!(retries_refresh(&result, false));
        assert!(!retries_refresh(&result, true));
    }
    match refresh_outcome(503, "later", Ok(tokens("t")), 0) {
        Err(RefreshError::Transient(message)) => {
            assert_eq!(message, "Token refresh failed (HTTP 503 Service Unavailable): later");
        }
        _ => panic!("an error that may pass"),
    }
    match refresh_outcome(200, "odd", Err("unreadable".to_string()), 0) {
        Err(error) => assert_eq!(error.message(), "unreadable"),
        Ok(_) => panic!("an error"),
    }
    let renewed = refresh_outcome(200, "", Ok(tokens("t")), 7).expect("credentials");
    assert_eq!(renewed.expires_at_ms, 60_007);
}

fn credentials(account_id: Option<&str>) -> CodexCredentials {
    CodexCredentials {
        access_token: "secret".to_string(),
        refresh_token: String::new(),
        expires_at_ms: 0,
        account_id: account_id.map(str::to_owned),
        email: None,
        scopes: Vec::new(),
    }
}

#[test]
fn headers_name_the_account() {
    let names = |account: Option<&str>, key: Option<&str>| -> Vec<String> {
        codex_extra_headers(&credentials(account), key)
            .into_iter()
            .map(|(name, value)| format!("{name}: {value}"))
            .collect()
    };
    let fixed = ["originator: zed", "openai-beta: responses=experimental"];
    assert_eq!(names(None, None), fixed);
    assert_eq!(names(Some(""), Some("bad\nkey")), fixed);
    assert_eq!(names(Some("bad\u{7f}"), None), fixed);
    assert_eq!(
        names(Some("id"), Some("key\tä")),
        [
            "originator: zed",
            "openai-beta: responses=experimental",
            "chatgpt-account-id: id",
            "session-id: key\tä",
            "thread-id: key\tä",
        ]
    );
    assert_eq!(authorization(&credentials(None)), "Bearer secret");
    assert_eq!(
        models_uri("1.2 3"),
        "https://chatgpt.com/backend-api/codex/models?client_version=1.2+3"
    );
}

#[test]
fn documents_are_read() {
    assert!(Json::parse("{").is_none());
    assert!(Json::parse_bytes(&[255]).is_none());
    let document = Json::parse("{\"a\":[1,{\"b\":\"c\"}],\"n\":-1,\"t\":true,\"z\":null}").expect("document");
    let items = document.get("a").expect("a");
    assert_eq!(items.first().expect("first").as_u64(), Some(1));
    assert_eq!(document.get("n").expect("n").as_u64(), None);
    assert!(document.get("missing").is_none());
    assert!(document.get("t").expect("t").as_str().is_none());
    let bytes = Json::parse_bytes(b"{\"k\":\"v\"}").expect("document");
    assert_eq!(bytes.get("k").expect("k").as_str(), Some("v"));
}

#[test]
fn clock_readings_become_numbers() {
    assert_eq!(clock_ms(None), 0);
    assert_eq!(clock_ms(Some(5)), 5);
    assert_eq!(clock_ms(Some((1 << 64) + 5)), 5);
    assert!(now_ms() > 1_600_000_000_000);
    let now = Timestamp::now();
    assert!(now.seconds() > 1_600_000_000);
    assert!(now.nanos() < 1_000_000_000);
}

#[test]
fn clock_is_read_in_its_units() {
    let before = SystemTime::now().duration_since(SystemTime::UNIX_EPOCH).expect("clock");
    let ms = u128::from(now_ms());
    let moment = Timestamp::now();
    let after = SystemTime::now().duration_since(SystemTime::UNIX_EPOCH).expect("clock");
    assert!(before.as_millis() <= ms && ms <= after.as_millis());
    let nanos = moment.seconds() as u128 * 1_000_000_000 + u128::from(moment.nanos());
    assert!(before.as_nanos() <= nanos && nanos <= after.as_nanos());
}

#[test]
fn moments_are_compared_and_moved() {
    let moment = Timestamp::new(10, 500_000_000).expect("moment");
    assert_eq!(Timestamp::new(0, 1_000_000_000), None);
    assert_eq!(moment.seconds_since(Timestamp::epoch()), Some(10));
    assert_eq!(Timestamp::epoch().seconds_since(moment), None);
    assert_eq!(
        Timestamp::new(12, 0).expect("moment").seconds_since(moment),
        Some(1)
    );
    assert!(moment.is_past(Timestamp::epoch(), 10));
    assert!(!Timestamp::new(10, 0).expect("moment").is_past(Timestamp::epoch(), 10));
    assert_eq!(moment.checked_add(i64::MAX as u64), None);
    assert_eq!(Timestamp::from_span(1, 250_000_000, true).seconds(), -2);
    assert_eq!(Timestamp::from_span(1, 250_000_000, true).nanos(), 750_000_000);
    assert_eq!(Timestamp::from_span(u64::MAX, 1, false).seconds(), i64::MAX);
}
