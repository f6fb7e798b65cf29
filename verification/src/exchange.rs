//! Token requests, and what the token endpoint's reply does to a record.
//!
//! Both grants are form-encoded POST requests to one fixed endpoint. The
//! library builds the request and judges the reply; sending is the caller's
//! part. The caller sends each request once: the provider takes an
//! authorization code with the first request that reaches it, so nothing
//! here repeats one.
use vstd::prelude::*;
use crate::error::{AuthError, AuthErrorView};
use crate::expiry::{expiry_after, lifetime_fits};
use crate::record::{CredentialRecord, RecordView, TokenResponse, TokenResponseView};

verus! {

/// The provider's token endpoint.
pub const TOKEN_ENDPOINT: &'static str = "https://expense.moneyforward.com/oauth/token";

/// The HTTP status with which the token endpoint grants tokens.
pub const STATUS_OK: u16 = 200;

/// The seconds after which the caller gives a token request up. The
/// provider is not under anyone's control here, so no request waits for
/// ever.
pub const REQUEST_TIMEOUT_SECS: u64 = 30;

/// What a [`FormField`] holds.
#[verifier::ext_equal]
pub struct FieldView {
    pub name: Seq<char>,
    pub value: Seq<char>,
}

/// One field of a form body, not yet encoded for the wire.
#[derive(Debug)]
pub struct FormField {
    pub name: String,
    pub value: String,
}

impl View for FormField {
    type V = FieldView;

    open spec fn view(&self) -> FieldView {
        FieldView { name: self.name@, value: self.value@ }
    }
}

/// The fields of a form, in order.
pub open spec fn fields_of(form: Seq<FormField>) -> Seq<FieldView> {
    Seq::new(form.len(), |i: int| form[i]@)
}

/// What a [`TokenRequest`] holds.
#[verifier::ext_equal]
pub struct TokenRequestView {
    pub url: Seq<char>,
    pub form: Seq<FieldView>,
    pub timeout_secs: nat,
}

/// A POST request to the token endpoint: where it goes, its form fields,
/// and how many seconds it may take.
#[derive(Debug)]
pub struct TokenRequest {
    pub url: String,
    pub form: Vec<FormField>,
    pub timeout_secs: u64,
}

impl View for TokenRequest {
    type V = TokenRequestView;

    open spec fn view(&self) -> TokenRequestView {
        TokenRequestView {
            url: self.url@,
            form: fields_of(self.form@),
            timeout_secs: self.timeout_secs as nat,
        }
    }
}

/// What a [`TokenReply`] holds.
#[verifier::ext_equal]
pub struct TokenReplyView {
    pub status: Option<u16>,
    pub body: Seq<char>,
    pub token: Option<TokenResponseView>,
}

/// What came back for a token request.
///
/// `status` is the HTTP status, or `None` where no response arrived at all.
/// `body` is the raw body, or what is known of the failure. `token` is the
/// body decoded, where it has the shape of a token response.
#[derive(Debug)]
pub struct TokenReply {
    pub status: Option<u16>,
    pub body: String,
    pub token: Option<TokenResponse>,
}

impl View for TokenReply {
    type V = TokenReplyView;

    open spec fn view(&self) -> TokenReplyView {
        TokenReplyView {
            status: self.status,
            body: self.body@,
            token: match self.token {
                Some(t) => Some(t@),
                None => None,
            },
        }
    }
}

/// The request that exchanges a record's authorization code for tokens.
pub open spec fn exchange_request_of(record: RecordView) -> TokenRequestView {
    TokenRequestView {
        url: TOKEN_ENDPOINT@,
        form: seq![
            FieldView { name: "grant_type"@, value: "authorization_code"@ },
            FieldView { name: "client_id"@, value: record.client_id },
            FieldView { name: "client_secret"@, value: record.client_secret },
            FieldView { name: "redirect_uri"@, value: record.redirect_uri },
            FieldView { name: "code"@, value: record.authorization_code },
        ],
        timeout_secs: REQUEST_TIMEOUT_SECS as nat,
    }
}

/// The request that trades a record's refresh token for new tokens.
pub open spec fn refresh_request_of(record: RecordView) -> TokenRequestView {
    TokenRequestView {
        url: TOKEN_ENDPOINT@,
        form: seq![
            FieldView { name: "grant_type"@, value: "refresh_token"@ },
            FieldView { name: "client_id"@, value: record.client_id },
            FieldView { name: "client_secret"@, value: record.client_secret },
            FieldView { name: "refresh_token"@, value: record.refresh_token },
        ],
        timeout_secs: REQUEST_TIMEOUT_SECS as nat,
    }
}

/// Whether a reply grants tokens at `now`: the status is 200, the body is a
/// token response, and the lifetime it gives ends at a time that a record
/// can hold.
pub open spec fn grants(reply: TokenReplyView, now: nat) -> bool {
    &&& reply.status == Some(STATUS_OK)
    &&& reply.token is Some
    &&& lifetime_fits(now, reply.token.unwrap().expires_in)
}

/// A record after a reply that grants tokens: the access token and the
/// refresh token are those of the reply, whatever they are, and the expiry
/// is `now` plus the lifetime.
pub open spec fn granted(record: RecordView, reply: TokenReplyView, now: nat) -> RecordView {
    let token = reply.token.unwrap();
    record.with_tokens(token.access_token, token.refresh_token, (now + token.expires_in) as nat)
}

/// What exchanging the authorization code comes to, given the reply.
///
/// Without a code there is nothing to exchange. A granting reply yields the
/// record with the new tokens and everything else as it was. Any other
/// reply fails, with its status and body.
pub open spec fn exchange_result(record: RecordView, reply: TokenReplyView, now: nat) -> Result<
    RecordView,
    AuthErrorView,
> {
    if record.authorization_code.len() == 0 {
        Err(AuthErrorView::InvalidInput)
    } else if grants(reply, now) {
        Ok(granted(record, reply, now))
    } else {
        Err(AuthErrorView::TokenExchangeFailed { status: reply.status, body: reply.body })
    }
}

/// What refreshing comes to, given the reply.
///
/// Without a refresh token no setup was completed. A granting reply yields
/// the record with the new tokens. Any other reply fails, with its status
/// and body.
pub open spec fn refresh_result(record: RecordView, reply: TokenReplyView, now: nat) -> Result<
    RecordView,
    AuthErrorView,
> {
    if record.refresh_token.len() == 0 {
        Err(AuthErrorView::NoCredentialsConfigured)
    } else if grants(reply, now) {
        Ok(granted(record, reply, now))
    } else {
        Err(AuthErrorView::TokenRefreshFailed { status: reply.status, body: reply.body })
    }
}

fn field(name: &str, value: &str) -> (f: FormField)
    ensures
        f@ == (FieldView { name: name@, value: value@ }),
{
    FormField { name: String::from_str(name), value: String::from_str(value) }
}

/// The request that exchanges the record's authorization code for tokens.
///
/// Fails with `InvalidInput`, and builds nothing, exactly when the record
/// holds no authorization code.
pub fn exchange_request(record: &CredentialRecord) -> (r: Result<TokenRequest, AuthError>)
    ensures
        r is Ok <==> record@.authorization_code.len() > 0,
        r is Ok ==> r.unwrap()@ == exchange_request_of(record@),
        r is Err ==> r.unwrap_err()@ == AuthErrorView::InvalidInput,
{
    if record.authorization_code.as_str().is_empty() {
        return Err(AuthError::InvalidInput);
    }
    let mut form: Vec<FormField> = Vec::new();
    form.push(field("grant_type", "authorization_code"));
    form.push(field("client_id", record.client_id.as_str()));
    form.push(field("client_secret", record.client_secret.as_str()));
    form.push(field("redirect_uri", record.redirect_uri.as_str()));
    form.push(field("code", record.authorization_code.as_str()));
    let request = TokenRequest {
        url: String::from_str(TOKEN_ENDPOINT),
        form,
        timeout_secs: REQUEST_TIMEOUT_SECS,
    };
    assert(request@.form =~= exchange_request_of(record@).form);
    Ok(request)
}

/// The request that trades the record's refresh token for new tokens.
///
/// Fails with `NoCredentialsConfigured`, and builds nothing, exactly when
/// the record holds no refresh token.
pub fn refresh_request(record: &CredentialRecord) -> (r: Result<TokenRequest, AuthError>)
    ensures
        r is Ok <==> record@.refresh_token.len() > 0,
        r is Ok ==> r.unwrap()@ == refresh_request_of(record@),
        r is Err ==> r.unwrap_err()@ == AuthErrorView::NoCredentialsConfigured,
{
    if record.refresh_token.as_str().is_empty() {
        return Err(AuthError::NoCredentialsConfigured);
    }
    let mut form: Vec<FormField> = Vec::new();
    form.push(field("grant_type", "refresh_token"));
    form.push(field("client_id", record.client_id.as_str()));
    form.push(field("client_secret", record.client_secret.as_str()));
    form.push(field("refresh_token", record.refresh_token.as_str()));
    let request = TokenRequest {
        url: String::from_str(TOKEN_ENDPOINT),
        form,
        timeout_secs: REQUEST_TIMEOUT_SECS,
    };
    assert(request@.form =~= refresh_request_of(record@).form);
    Ok(request)
}

/// The record with the tokens of a granting reply, or `None` where the
/// reply grants none.
fn apply_grant(record: &CredentialRecord, reply: &TokenReply, now: u64) -> (r: Option<
    CredentialRecord,
>)
    ensures
        r is Some <==> grants(reply@, now as nat),
        r is Some ==> r.unwrap()@ == granted(record@, reply@, now as nat),
{
    match reply.status {
        Some(status) => {
            if status != STATUS_OK {
                return None;
            }
        },
        None => {
            return None;
        },
    }
    match &reply.token {
        Some(token) => {
            match expiry_after(now, token.expires_in) {
                Some(expiry) => Some(
                    CredentialRecord {
                        client_id: record.client_id.clone(),
                        client_secret: record.client_secret.clone(),
                        scope: record.scope.clone(),
                        redirect_uri: record.redirect_uri.clone(),
                        authorization_code: record.authorization_code.clone(),
                        access_token: token.access_token.clone(),
                        refresh_token: token.refresh_token.clone(),
                        access_token_expiry: expiry,
                    },
                ),
                None => None,
            }
        },
        None => None,
    }
}

/// Completes the exchange of the record's authorization code, given the
/// token endpoint's reply and the time at which it arrived.
///
/// On a granting reply the result is the record with the reply's access
/// token and refresh token and with the expiry `now + expires_in`; the
/// other five fields are kept. On any other reply the result is
/// `TokenExchangeFailed` with the reply's status and body. A record without
/// an authorization code gives `InvalidInput` whatever the reply. The
/// record that was passed in is never changed.
pub fn exchange(record: &CredentialRecord, reply: &TokenReply, now: u64) -> (r: Result<
    CredentialRecord,
    AuthError,
>)
    ensures
        match r {
            Ok(updated) => exchange_result(record@, reply@, now as nat) == Ok::<
                RecordView,
                AuthErrorView,
            >(updated@),
            Err(e) => exchange_result(record@, reply@, now as nat) == Err::<
                RecordView,
                AuthErrorView,
            >(e@),
        },
        r is Ok ==> r.unwrap()@.access_token_expiry == now + reply@.token.unwrap().expires_in,
{
    if record.authorization_code.as_str().is_empty() {
        return Err(AuthError::InvalidInput);
    }
    match apply_grant(record, reply, now) {
        Some(updated) => Ok(updated),
        None => Err(
            AuthError::TokenExchangeFailed { status: reply.status, body: reply.body.clone() },
        ),
    }
}

/// Completes a refresh, given the token endpoint's reply and the time at
/// which it arrived.
///
/// On a granting reply the result is the record with the reply's access
/// token and refresh token, the latter replacing the old one whatever it is,
/// and with the expiry `now + expires_in`. On any other reply the result is
/// `TokenRefreshFailed` with the reply's status and body. A record without a
/// refresh token gives `NoCredentialsConfigured` whatever the reply.
pub fn refresh(record: &CredentialRecord, reply: &TokenReply, now: u64) -> (r: Result<
    CredentialRecord,
    AuthError,
>)
    ensures
        match r {
            Ok(updated) => refresh_result(record@, reply@, now as nat) == Ok::<
                RecordView,
                AuthErrorView,
            >(updated@),
            Err(e) => refresh_result(record@, reply@, now as nat) == Err::<
                RecordView,
                AuthErrorView,
            >(e@),
        },
        r is Ok ==> r.unwrap()@.access_token_expiry == now + reply@.token.unwrap().expires_in,
{
    if record.refresh_token.as_str().is_empty() {
        return Err(AuthError::NoCredentialsConfigured);
    }
    match apply_grant(record, reply, now) {
        Some(updated) => Ok(updated),
        None => Err(
            AuthError::TokenRefreshFailed { status: reply.status, body: reply.body.clone() },
        ),
    }
}

/// An exchange sets the expiry from the reply and the clock alone: where
/// the reply has status 200 and a token response for its body, and the
/// lifetime ends at a time that a record can hold, the exchange succeeds,
/// and the expiry of its result is `now + expires_in`, whatever expiry the
/// record held before. The tokens are the reply's, and the five other
/// fields are the record's.
///
/// The two premises beside the reply's leave out the inputs with nothing to
/// exchange, and a clock so close to the last time that a record can hold
/// (`u64::MAX` seconds) that the lifetime would end past it.
pub proof fn law_granted_exchange_sets_expiry(record: RecordView, reply: TokenReplyView, now: nat)
    requires
        record.authorization_code.len() > 0,
        reply.status == Some(STATUS_OK),
        reply.token is Some,
        lifetime_fits(now, reply.token.unwrap().expires_in),
    ensures
        exchange_result(record, reply, now) is Ok,
        exchange_result(record, reply, now)->Ok_0.access_token_expiry == now
            + reply.token.unwrap().expires_in,
        exchange_result(record, reply, now)->Ok_0.access_token
            == reply.token.unwrap().access_token,
        exchange_result(record, reply, now)->Ok_0.refresh_token
            == reply.token.unwrap().refresh_token,
        exchange_result(record, reply, now)->Ok_0.client_id == record.client_id,
        exchange_result(record, reply, now)->Ok_0.client_secret == record.client_secret,
        exchange_result(record, reply, now)->Ok_0.scope == record.scope,
        exchange_result(record, reply, now)->Ok_0.redirect_uri == record.redirect_uri,
        exchange_result(record, reply, now)->Ok_0.authorization_code
            == record.authorization_code,
        forall|other: nat|
            (#[trigger] exchange_result(
                RecordView { access_token_expiry: other, ..record },
                reply,
                now,
            )) == exchange_result(record, reply, now),
{
}

/// A refresh sets the expiry from the reply and the clock alone: where the
/// reply has status 200 and a token response for its body, and the lifetime
/// ends at a time that a record can hold, the refresh succeeds, and the
/// expiry of its result is `now + expires_in`, not the old expiry prolonged.
/// The refresh token is the reply's, whatever the record held, and the five
/// other fields are the record's.
pub proof fn law_granted_refresh_sets_expiry(record: RecordView, reply: TokenReplyView, now: nat)
    requires
        record.refresh_token.len() > 0,
        reply.status == Some(STATUS_OK),
        reply.token is Some,
        lifetime_fits(now, reply.token.unwrap().expires_in),
    ensures
        refresh_result(record, reply, now) is Ok,
        refresh_result(record, reply, now)->Ok_0.access_token_expiry == now
            + reply.token.unwrap().expires_in,
        refresh_result(record, reply, now)->Ok_0.access_token
            == reply.token.unwrap().access_token,
        refresh_result(record, reply, now)->Ok_0.refresh_token
            == reply.token.unwrap().refresh_token,
        refresh_result(record, reply, now)->Ok_0.client_id == record.client_id,
        refresh_result(record, reply, now)->Ok_0.client_secret == record.client_secret,
        refresh_result(record, reply, now)->Ok_0.scope == record.scope,
        refresh_result(record, reply, now)->Ok_0.redirect_uri == record.redirect_uri,
        refresh_result(record, reply, now)->Ok_0.authorization_code
            == record.authorization_code,
        forall|other: nat|
            (#[trigger] refresh_result(
                RecordView { access_token_expiry: other, ..record },
                reply,
                now,
            )) == refresh_result(record, reply, now),
{
}

/// Every lifetime that is not negative fits, at every time that leaves room
/// for the longest lifetime there is: no clock of this age comes near the
/// times at which an exchange or a refresh is refused for its lifetime.
pub proof fn law_lifetime_fits_any_clock_in_reach(now: nat, expires_in: int)
    requires
        now + i32::MAX <= u64::MAX,
        0 <= expires_in <= i32::MAX,
    ensures
        lifetime_fits(now, expires_in),
{
}

} // verus!
