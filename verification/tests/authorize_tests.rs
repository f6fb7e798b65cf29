use mf_cli::authorize::{authorize_url, AUTHORIZE_ENDPOINT, REGISTRATION_URL};
use mf_cli::record::CredentialRecord;

fn record_with(client_id: &str, scope: &str, redirect_uri: &str) -> CredentialRecord {
    let mut record = CredentialRecord::new();
    record.client_id = client_id.to_string();
    record.client_secret = "xyz".to_string();
    record.scope = scope.to_string();
    record.redirect_uri = redirect_uri.to_string();
    record
}

fn scope_part(url: &str) -> String {
    let marker = "&response_type=code&scope=";
    let at = url.find(marker).expect("the URL has a scope");
    url[at + marker.len()..].to_string()
}

#[test]
fn endpoints_are_the_providers() {
    assert_eq!(REGISTRATION_URL, "https://moneyforward.com/apps");
    assert_eq!(AUTHORIZE_ENDPOINT, "https://moneyforward.com/oauth/authorize");
}

#[test]
fn authorize_url_encodes_the_scope_and_nothing_else() {
    let record = record_with("abc", "read write", "http://localhost/cb");
    let url = authorize_url(&record);
    assert_eq!(
        url,
        "https://moneyforward.com/oauth/authorize?client_id=abc&redirect_uri=http://localhost/cb&response_type=code&scope=read%20write"
    );
    assert!(url.contains("scope=read%20write"));
    assert!(url.contains("client_id=abc"));
    assert!(url.contains("redirect_uri=http://localhost/cb"));
    assert!(url.contains("response_type=code"));
    assert!(!url.contains("xyz"));
}

#[test]
fn authorize_url_leaves_unreserved_scope_as_it_is() {
    let record = record_with("id", "AZaz09-._~", "https://example.com/");
    assert_eq!(scope_part(&authorize_url(&record)), "AZaz09-._~");
}

#[test]
fn authorize_url_escapes_reserved_scope_bytes_in_upper_case_hex() {
    let record = record_with("id", "a/b,c:d+e&f=g%h", "https://example.com/");
    assert_eq!(scope_part(&authorize_url(&record)), "a%2Fb%2Cc%3Ad%2Be%26f%3Dg%25h");
}

#[test]
fn authorize_url_escapes_scope_by_utf8_bytes() {
    let record = record_with("id", "caf\u{e9} \u{7d4c}\u{8cbb} \u{1f47e}", "https://example.com/");
    assert_eq!(
        scope_part(&authorize_url(&record)),
        "caf%C3%A9%20%E7%B5%8C%E8%B2%BB%20%F0%9F%91%BE"
    );
}

#[test]
fn authorize_url_escapes_control_and_edge_bytes() {
    let record = record_with("id", "\u{0}\n\u{7f}@[`{", "https://example.com/");
    assert_eq!(scope_part(&authorize_url(&record)), "%00%0A%7F%40%5B%60%7B");
}

#[test]
fn authorize_url_of_an_empty_record() {
    let record = CredentialRecord::new();
    assert_eq!(
        authorize_url(&record),
        "https://moneyforward.com/oauth/authorize?client_id=&redirect_uri=&response_type=code&scope="
    );
}

#[test]
fn authorize_url_does_not_encode_client_id_or_redirect_uri() {
    let record = record_with("a b", "s", "http://localhost/cb?x=1&y=2");
    assert_eq!(
        authorize_url(&record),
        "https://moneyforward.com/oauth/authorize?client_id=a b&redirect_uri=http://localhost/cb?x=1&y=2&response_type=code&scope=s"
    );
}
