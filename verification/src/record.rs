//! The credential record that an installation persists, and the token
//! endpoint's response.
use vstd::prelude::*;

verus! {

/// What a [`CredentialRecord`] holds, as mathematical values.
#[verifier::ext_equal]
pub struct RecordView {
    pub client_id: Seq<char>,
    pub client_secret: Seq<char>,
    pub scope: Seq<char>,
    pub redirect_uri: Seq<char>,
    pub authorization_code: Seq<char>,
    pub access_token: Seq<char>,
    pub refresh_token: Seq<char>,
    pub access_token_expiry: nat,
}

impl RecordView {
    /// The record of an installation that was never set up: every text
    /// empty, the expiry unset.
    pub open spec fn empty() -> RecordView {
        RecordView {
            client_id: Seq::empty(),
            client_secret: Seq::empty(),
            scope: Seq::empty(),
            redirect_uri: Seq::empty(),
            authorization_code: Seq::empty(),
            access_token: Seq::empty(),
            refresh_token: Seq::empty(),
            access_token_expiry: 0,
        }
    }

    /// This record with the three token fields replaced and the rest kept.
    pub open spec fn with_tokens(
        self,
        access_token: Seq<char>,
        refresh_token: Seq<char>,
        expiry: nat,
    ) -> RecordView {
        RecordView { access_token, refresh_token, access_token_expiry: expiry, ..self }
    }

    /// Whether the record holds all that the user is asked for in a setup:
    /// the client identifier, the client secret, the scope, the redirect
    /// URI and the authorization code, none of them empty.
    pub open spec fn holds_every_answer(self) -> bool {
        &&& self.client_id.len() > 0
        &&& self.client_secret.len() > 0
        &&& self.scope.len() > 0
        &&& self.redirect_uri.len() > 0
        &&& self.authorization_code.len() > 0
    }

    /// Whether the token fields are those of a record that never held tokens.
    pub open spec fn has_no_tokens(self) -> bool {
        &&& self.access_token.len() == 0
        &&& self.refresh_token.len() == 0
        &&& self.access_token_expiry == 0
    }
}

/// The OAuth credentials of one installation.
///
/// `access_token_expiry` is in seconds since the Unix epoch; zero means that
/// no expiry was ever computed.
#[derive(Debug)]
pub struct CredentialRecord {
    pub client_id: String,
    pub client_secret: String,
    pub scope: String,
    pub redirect_uri: String,
    pub authorization_code: String,
    pub access_token: String,
    pub refresh_token: String,
    pub access_token_expiry: u64,
}

impl View for CredentialRecord {
    type V = RecordView;

    open spec fn view(&self) -> RecordView {
        RecordView {
            client_id: self.client_id@,
            client_secret: self.client_secret@,
            scope: self.scope@,
            redirect_uri: self.redirect_uri@,
            authorization_code: self.authorization_code@,
            access_token: self.access_token@,
            refresh_token: self.refresh_token@,
            access_token_expiry: self.access_token_expiry as nat,
        }
    }
}

impl CredentialRecord {
    /// The record of an installation that was never set up.
    pub fn new() -> (r: CredentialRecord)
        ensures
            r@ == RecordView::empty(),
    {
        CredentialRecord {
            client_id: String::new(),
            client_secret: String::new(),
            scope: String::new(),
            redirect_uri: String::new(),
            authorization_code: String::new(),
            access_token: String::new(),
            refresh_token: String::new(),
            access_token_expiry: 0,
        }
    }
}

impl Default for CredentialRecord {
    fn default() -> (r: CredentialRecord)
        ensures
            r@ == RecordView::empty(),
    {
        CredentialRecord::new()
    }
}

impl Clone for CredentialRecord {
    fn clone(&self) -> (r: CredentialRecord)
        ensures
            r == *self,
    {
        CredentialRecord {
            client_id: self.client_id.clone(),
            client_secret: self.client_secret.clone(),
            scope: self.scope.clone(),
            redirect_uri: self.redirect_uri.clone(),
            authorization_code: self.authorization_code.clone(),
            access_token: self.access_token.clone(),
            refresh_token: self.refresh_token.clone(),
            access_token_expiry: self.access_token_expiry,
        }
    }
}

impl PartialEq for CredentialRecord {
    fn eq(&self, other: &CredentialRecord) -> (r: bool) {
        self.client_id == other.client_id && self.client_secret == other.client_secret
            && self.scope == other.scope && self.redirect_uri == other.redirect_uri
            && self.authorization_code == other.authorization_code && self.access_token
            == other.access_token && self.refresh_token == other.refresh_token
            && self.access_token_expiry == other.access_token_expiry
    }
}

impl vstd::std_specs::cmp::PartialEqSpecImpl for CredentialRecord {
    open spec fn obeys_eq_spec() -> bool {
        true
    }

    open spec fn eq_spec(&self, other: &CredentialRecord) -> bool {
        self@ == other@
    }
}

impl Eq for CredentialRecord {

}

/// What a [`TokenResponse`] holds, as mathematical values.
#[verifier::ext_equal]
pub struct TokenResponseView {
    pub access_token: Seq<char>,
    pub token_type: Seq<char>,
    pub expires_in: int,
    pub refresh_token: Seq<char>,
    pub scope: Seq<char>,
}

/// The body of a successful answer of the token endpoint. `expires_in` is
/// the access token's lifetime in seconds, counted from the moment of the
/// answer.
#[derive(Debug)]
pub struct TokenResponse {
    pub access_token: String,
    pub token_type: String,
    pub expires_in: i32,
    pub refresh_token: String,
    pub scope: String,
}

impl View for TokenResponse {
    type V = TokenResponseView;

    open spec fn view(&self) -> TokenResponseView {
        TokenResponseView {
            access_token: self.access_token@,
            token_type: self.token_type@,
            expires_in: self.expires_in as int,
            refresh_token: self.refresh_token@,
            scope: self.scope@,
        }
    }
}

impl Clone for TokenResponse {
    fn clone(&self) -> (r: TokenResponse)
        ensures
            r == *self,
    {
        TokenResponse {
            access_token: self.access_token.clone(),
            token_type: self.token_type.clone(),
            expires_in: self.expires_in,
            refresh_token: self.refresh_token.clone(),
            scope: self.scope.clone(),
        }
    }
}

} // verus!
