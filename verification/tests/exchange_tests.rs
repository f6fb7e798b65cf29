use mf_cli::error::AuthError;
use mf_cli::exchange::{
    exchange, exchange_request, refresh, refresh_request, FormField, TokenReply, TokenRequest,
    REQUEST_TIMEOUT_SECS, STATUS_OK, TOKEN_ENDPOINT,
};
use mf_cli::record::{CredentialRecord, TokenResponse};

const NOW: u64 = 1_700_000_000;

fn authorized_record() -> CredentialRecord {
    let mut record = CredentialRecord::new();
    record.client_id = "abc".to_string();
    record.client_secret = "xyz".to_string();
    record.scope = "read write".to_string();
    record.redirect_uri = "http://localhost/cb".to_string();
    record.authorization_code = "c0de".to_string();
    record
}

fn configured_record() -> CredentialRecord {
    let mut record = authorized_record();
    record.authorization_code = String::new();
    record.access_token = "A0".to_string();
    record.refresh_token = "R0".to_string();
    record.access_token_expiry = 1_600_000_000;
    record
}

fn token(access: &str, refresh: &str, expires_in: i32) -> TokenResponse {
    TokenResponse {
        access_token: access.to_string(),
        token_type: "bearer".to_string(),
        expires_in,
        refresh_token: refresh.to_string(),
        scope: "read".to_string(),
    }
}

fn granting(access: &str, refresh: &str, expires_in: i32) -> TokenReply {
    TokenReply {
        status: Some(200),
        body: "{}".to_string(),
        token: Some(token(access, refresh, expires_in)),
    }
}

fn decode(body: &str) -> Option<TokenResponse> {
    let value: serde_json::Value = serde_json::from_str(body).ok()?;
    Some(TokenResponse {
        access_token: value.get("access_token")?.as_str()?.to_string(),
        token_type: value.get("token_type")?.as_str()?.to_string(),
        expires_in: i32::try_from(value.get("expires_in")?.as_i64()?).ok()?,
        refresh_token: value.get("refresh_token")?.as_str()?.to_string(),
        scope: value.get("scope")?.as_str()?.to_string(),
    })
}

fn reply_with_body(status: u16, body: &str) -> TokenReply {
    TokenReply { status: Some(status), body: body.to_string(), token: decode(body) }
}

fn pairs(request: &TokenRequest) -> Vec<(String, String)> {
    request.form.iter().map(|f: &FormField| (f.name.clone(), f.value.clone())).collect()
}

fn pair(name: &str, value: &str) -> (String, String) {
    (name.to_string(), value.to_string())
}

#[test]
fn token_endpoint_is_the_providers() {
    assert_eq!(TOKEN_ENDPOINT, "https://expense.moneyforward.com/oauth/token");
    assert_eq!(STATUS_OK, 200);
    assert_eq!(REQUEST_TIMEOUT_SECS, 30);
}

#[test]
fn token_requests_are_bounded_in_time() {
    assert_eq!(exchange_request(&authorized_record()).expect("a code is there").timeout_secs, 30);
    assert_eq!(refresh_request(&configured_record()).expect("a token is there").timeout_secs, 30);
}

#[test]
fn exchange_request_carries_the_code_grant() {
    let request = exchange_request(&authorized_record()).expect("a code is there");
    assert_eq!(request.url, "https://expense.moneyforward.com/oauth/token");
    assert_eq!(
        pairs(&request),
        vec![
            pair("grant_type", "authorization_code"),
            pair("client_id", "abc"),
            pair("client_secret", "xyz"),
            pair("redirect_uri", "http://localhost/cb"),
            pair("code", "c0de"),
        ]
    );
}

#[test]
fn exchange_request_leaves_the_scope_out_and_encodes_nothing() {
    let mut record = authorized_record();
    record.redirect_uri = "http://localhost/cb?a=b c".to_string();
    let request = exchange_request(&record).expect("a code is there");
    let fields = pairs(&request);
    assert!(fields.iter().all(|(name, _)| name != "scope"));
    assert!(fields.contains(&pair("redirect_uri", "http://localhost/cb?a=b c")));
}

#[test]
fn exchange_request_needs_a_code() {
    let mut record = authorized_record();
    record.authorization_code = String::new();
    assert_eq!(exchange_request(&record).err(), Some(AuthError::InvalidInput));
    assert_eq!(exchange_request(&CredentialRecord::new()).err(), Some(AuthError::InvalidInput));
}

#[test]
fn refresh_request_carries_the_refresh_grant() {
    let request = refresh_request(&configured_record()).expect("a refresh token is there");
    assert_eq!(request.url, "https://expense.moneyforward.com/oauth/token");
    assert_eq!(
        pairs(&request),
        vec![
            pair("grant_type", "refresh_token"),
            pair("client_id", "abc"),
            pair("client_secret", "xyz"),
            pair("refresh_token", "R0"),
        ]
    );
}

#[test]
fn refresh_request_without_refresh_token_builds_nothing() {
    let mut record = configured_record();
    record.refresh_token = String::new();
    assert_eq!(refresh_request(&record).err(), Some(AuthError::NoCredentialsConfigured));
    assert_eq!(
        refresh_request(&CredentialRecord::new()).err(),
        Some(AuthError::NoCredentialsConfigured)
    );
}

#[test]
fn exchange_takes_tokens_and_expiry_from_the_response() {
    let body = "{\"access_token\":\"A1\",\"token_type\":\"bearer\",\"expires_in\":3600,\"refresh_token\":\"R1\",\"scope\":\"read\"}";
    let reply = reply_with_body(200, body);
    assert!(reply.token.is_some());
    let updated = exchange(&authorized_record(), &reply, NOW).expect("tokens are granted");
    assert_eq!(updated.access_token, "A1");
    assert_eq!(updated.refresh_token, "R1");
    assert_eq!(updated.access_token_expiry, NOW + 3600);
    assert_eq!(updated.access_token_expiry, 1_700_003_600);
}

#[test]
fn exchange_keeps_every_field_but_the_tokens() {
    let updated =
        exchange(&authorized_record(), &granting("A1", "R1", 3600), NOW).expect("granted");
    assert_eq!(updated.client_id, "abc");
    assert_eq!(updated.client_secret, "xyz");
    assert_eq!(updated.scope, "read write");
    assert_eq!(updated.redirect_uri, "http://localhost/cb");
    assert_eq!(updated.authorization_code, "c0de");
    let mut expected = authorized_record();
    expected.access_token = "A1".to_string();
    expected.refresh_token = "R1".to_string();
    expected.access_token_expiry = NOW + 3600;
    assert_eq!(updated, expected);
}

#[test]
fn exchange_overwrites_tokens_that_were_there() {
    let mut record = configured_record();
    record.authorization_code = "c0de".to_string();
    let updated = exchange(&record, &granting("A1", "R1", 60), NOW).expect("granted");
    assert_eq!(updated.access_token, "A1");
    assert_eq!(updated.refresh_token, "R1");
    assert_eq!(updated.access_token_expiry, NOW + 60);
    assert_eq!(updated.authorization_code, "c0de");
}

#[test]
fn expiry_is_computed_anew_and_not_prolonged() {
    let mut record = configured_record();
    record.authorization_code = "c0de".to_string();
    for old_expiry in [0u64, 1, NOW - 1, NOW, NOW + 999_999, u64::MAX] {
        record.access_token_expiry = old_expiry;
        let exchanged = exchange(&record, &granting("A1", "R1", 3600), NOW).expect("granted");
        assert_eq!(exchanged.access_token_expiry, NOW + 3600);
        let refreshed = refresh(&record, &granting("A2", "R2", 7200), NOW).expect("granted");
        assert_eq!(refreshed.access_token_expiry, NOW + 7200);
    }
}

#[test]
fn every_lifetime_fits_a_clock_of_this_age() {
    for lifetime in [0i32, 1, 3600, 86_400, i32::MAX] {
        for now in [0u64, NOW, 4_102_444_800, u64::MAX - i32::MAX as u64] {
            let exchanged = exchange(&authorized_record(), &granting("A", "R", lifetime), now)
                .expect("granted");
            assert_eq!(exchanged.access_token_expiry, now + lifetime as u64);
            let refreshed = refresh(&configured_record(), &granting("A", "R", lifetime), now)
                .expect("granted");
            assert_eq!(refreshed.access_token_expiry, now + lifetime as u64);
        }
    }
}

#[test]
fn exchange_expiry_is_now_plus_lifetime() {
    for (now, lifetime) in [(0u64, 0i32), (1, 1), (NOW, 60), (NOW, 86_400), (5_000, -100)] {
        let updated =
            exchange(&authorized_record(), &granting("A", "R", lifetime), now).expect("granted");
        assert_eq!(updated.access_token_expiry as i128, now as i128 + lifetime as i128);
    }
}

#[test]
fn exchange_on_http_400_fails_and_leaves_the_record() {
    let mut record = configured_record();
    record.authorization_code = "c0de".to_string();
    let before = record.clone();
    let reply = reply_with_body(400, "{\"error\":\"invalid_grant\"}");
    let result = exchange(&record, &reply, NOW);
    assert_eq!(
        result,
        Err(AuthError::TokenExchangeFailed {
            status: Some(400),
            body: "{\"error\":\"invalid_grant\"}".to_string(),
        })
    );
    assert_eq!(record, before);
    assert_eq!(record.access_token, "A0");
    assert_eq!(record.refresh_token, "R0");
}

#[test]
fn exchange_fails_on_a_token_body_with_another_status() {
    let mut reply = granting("A1", "R1", 3600);
    for status in [0u16, 199, 201, 204, 302, 400, 401, 500] {
        reply.status = Some(status);
        let result = exchange(&authorized_record(), &reply, NOW);
        assert_eq!(
            result,
            Err(AuthError::TokenExchangeFailed { status: Some(status), body: "{}".to_string() })
        );
    }
}

#[test]
fn exchange_fails_on_a_malformed_body() {
    let reply = reply_with_body(200, "<html>oops</html>");
    assert!(reply.token.is_none());
    assert_eq!(
        exchange(&authorized_record(), &reply, NOW),
        Err(AuthError::TokenExchangeFailed {
            status: Some(200),
            body: "<html>oops</html>".to_string(),
        })
    );
    let partial = reply_with_body(200, "{\"access_token\":\"A1\"}");
    assert!(partial.token.is_none());
    assert!(matches!(
        exchange(&authorized_record(), &partial, NOW),
        Err(AuthError::TokenExchangeFailed { status: Some(200), .. })
    ));
}

#[test]
fn exchange_fails_without_a_response() {
    let reply =
        TokenReply { status: None, body: "connection refused".to_string(), token: None };
    assert_eq!(
        exchange(&authorized_record(), &reply, NOW),
        Err(AuthError::TokenExchangeFailed {
            status: None,
            body: "connection refused".to_string(),
        })
    );
}

#[test]
fn exchange_fails_on_a_lifetime_that_no_record_can_hold() {
    let late = exchange(&authorized_record(), &granting("A1", "R1", 1), u64::MAX);
    assert!(matches!(late, Err(AuthError::TokenExchangeFailed { status: Some(200), .. })));
    let early = exchange(&authorized_record(), &granting("A1", "R1", -10), 9);
    assert!(matches!(early, Err(AuthError::TokenExchangeFailed { status: Some(200), .. })));
    let edge = exchange(&authorized_record(), &granting("A1", "R1", -10), 10).expect("fits");
    assert_eq!(edge.access_token_expiry, 0);
}

#[test]
fn exchange_without_a_code_is_invalid_whatever_the_reply() {
    let record = configured_record();
    assert_eq!(exchange(&record, &granting("A1", "R1", 3600), NOW), Err(AuthError::InvalidInput));
    assert_eq!(
        exchange(&record, &reply_with_body(400, "no"), NOW),
        Err(AuthError::InvalidInput)
    );
}

#[test]
fn refresh_replaces_tokens_and_expiry() {
    let updated =
        refresh(&configured_record(), &granting("A2", "R2", 7200), NOW).expect("granted");
    assert_eq!(updated.access_token, "A2");
    assert_eq!(updated.refresh_token, "R2");
    assert_eq!(updated.access_token_expiry, NOW + 7200);
    assert_eq!(updated.client_id, "abc");
    assert_eq!(updated.client_secret, "xyz");
    assert_eq!(updated.scope, "read write");
    assert_eq!(updated.redirect_uri, "http://localhost/cb");
}

#[test]
fn refresh_takes_the_new_refresh_token_whatever_it_is() {
    let same = refresh(&configured_record(), &granting("A2", "R0", 60), NOW).expect("granted");
    assert_eq!(same.refresh_token, "R0");
    let empty = refresh(&configured_record(), &granting("A2", "", 60), NOW).expect("granted");
    assert_eq!(empty.refresh_token, "");
    assert_eq!(refresh_request(&empty).err(), Some(AuthError::NoCredentialsConfigured));
}

#[test]
fn refresh_keeps_an_authorization_code_that_is_there() {
    let mut record = configured_record();
    record.authorization_code = "c0de".to_string();
    let updated = refresh(&record, &granting("A2", "R2", 60), NOW).expect("granted");
    assert_eq!(updated.authorization_code, "c0de");
}

#[test]
fn refresh_with_empty_refresh_token_is_not_configured() {
    let mut record = configured_record();
    record.refresh_token = String::new();
    assert_eq!(
        refresh(&record, &granting("A2", "R2", 3600), NOW),
        Err(AuthError::NoCredentialsConfigured)
    );
    assert_eq!(
        refresh(&CredentialRecord::new(), &reply_with_body(500, "down"), NOW),
        Err(AuthError::NoCredentialsConfigured)
    );
}

#[test]
fn refresh_failure_carries_status_and_body() {
    let record = configured_record();
    let before = record.clone();
    assert_eq!(
        refresh(&record, &reply_with_body(401, "{\"error\":\"invalid_token\"}"), NOW),
        Err(AuthError::TokenRefreshFailed {
            status: Some(401),
            body: "{\"error\":\"invalid_token\"}".to_string(),
        })
    );
    assert_eq!(
        refresh(&record, &reply_with_body(200, "not json"), NOW),
        Err(AuthError::TokenRefreshFailed { status: Some(200), body: "not json".to_string() })
    );
    let silent = TokenReply { status: None, body: "timed out".to_string(), token: None };
    assert_eq!(
        refresh(&record, &silent, NOW),
        Err(AuthError::TokenRefreshFailed { status: None, body: "timed out".to_string() })
    );
    assert_eq!(record, before);
}

#[test]
fn refresh_fails_on_a_lifetime_that_no_record_can_hold() {
    let late = refresh(&configured_record(), &granting("A2", "R2", i32::MAX), u64::MAX - 5);
    assert!(matches!(late, Err(AuthError::TokenRefreshFailed { status: Some(200), .. })));
}
