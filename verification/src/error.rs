//! The failures that the credential lifecycle reports.
use vstd::prelude::*;

verus! {

/// What an [`AuthError`] holds, as mathematical values.
#[verifier::ext_equal]
pub enum AuthErrorView {
    InvalidInput,
    BrowserLaunchFailed { url: Seq<char> },
    TokenExchangeFailed { status: Option<u16>, body: Seq<char> },
    TokenRefreshFailed { status: Option<u16>, body: Seq<char> },
    NoCredentialsConfigured,
    StorageFailure,
}

/// A failure of the credential lifecycle.
///
/// The two token failures carry the HTTP status of the reply, where there
/// was one, and its raw body, for diagnostics.
#[derive(Debug)]
pub enum AuthError {
    /// A required answer was left blank, or something else was given in its
    /// place.
    InvalidInput,
    /// The browser could not be opened on `url`. Never fatal: the user is
    /// shown the URL instead.
    BrowserLaunchFailed { url: String },
    /// The token endpoint did not grant tokens for an authorization code.
    TokenExchangeFailed { status: Option<u16>, body: String },
    /// The token endpoint did not grant tokens for a refresh token.
    TokenRefreshFailed { status: Option<u16>, body: String },
    /// The command needs credentials that no completed setup has stored.
    NoCredentialsConfigured,
    /// The persisted record could not be read or written.
    StorageFailure,
}

impl View for AuthError {
    type V = AuthErrorView;

    open spec fn view(&self) -> AuthErrorView {
        match self {
            AuthError::InvalidInput => AuthErrorView::InvalidInput,
            AuthError::BrowserLaunchFailed { url } => AuthErrorView::BrowserLaunchFailed {
                url: url@,
            },
            AuthError::TokenExchangeFailed { status, body } => AuthErrorView::TokenExchangeFailed {
                status: *status,
                body: body@,
            },
            AuthError::TokenRefreshFailed { status, body } => AuthErrorView::TokenRefreshFailed {
                status: *status,
                body: body@,
            },
            AuthError::NoCredentialsConfigured => AuthErrorView::NoCredentialsConfigured,
            AuthError::StorageFailure => AuthErrorView::StorageFailure,
        }
    }
}

impl Clone for AuthError {
    fn clone(&self) -> (r: AuthError)
        ensures
            r == *self,
    {
        match self {
            AuthError::InvalidInput => AuthError::InvalidInput,
            AuthError::BrowserLaunchFailed { url } => AuthError::BrowserLaunchFailed {
                url: url.clone(),
            },
            AuthError::TokenExchangeFailed { status, body } => AuthError::TokenExchangeFailed {
                status: *status,
                body: body.clone(),
            },
            AuthError::TokenRefreshFailed { status, body } => AuthError::TokenRefreshFailed {
                status: *status,
                body: body.clone(),
            },
            AuthError::NoCredentialsConfigured => AuthError::NoCredentialsConfigured,
            AuthError::StorageFailure => AuthError::StorageFailure,
        }
    }
}

/// Whether two optional HTTP statuses are the same.
fn same_status(a: &Option<u16>, b: &Option<u16>) -> (r: bool)
    ensures
        r == (*a == *b),
{
    match (a, b) {
        (Some(x), Some(y)) => *x == *y,
        (None, None) => true,
        _ => false,
    }
}

impl PartialEq for AuthError {
    fn eq(&self, other: &AuthError) -> (r: bool) {
        match (self, other) {
            (AuthError::InvalidInput, AuthError::InvalidInput) => true,
            (
                AuthError::BrowserLaunchFailed { url: u1 },
                AuthError::BrowserLaunchFailed { url: u2 },
            ) => *u1 == *u2,
            (
                AuthError::TokenExchangeFailed { status: s1, body: b1 },
                AuthError::TokenExchangeFailed { status: s2, body: b2 },
            ) => same_status(s1, s2) && *b1 == *b2,
            (
                AuthError::TokenRefreshFailed { status: s1, body: b1 },
                AuthError::TokenRefreshFailed { status: s2, body: b2 },
            ) => same_status(s1, s2) && *b1 == *b2,
            (AuthError::NoCredentialsConfigured, AuthError::NoCredentialsConfigured) => true,
            (AuthError::StorageFailure, AuthError::StorageFailure) => true,
            _ => false,
        }
    }
}

impl vstd::std_specs::cmp::PartialEqSpecImpl for AuthError {
    open spec fn obeys_eq_spec() -> bool {
        true
    }

    open spec fn eq_spec(&self, other: &AuthError) -> bool {
        self@ == other@
    }
}

impl Eq for AuthError {

}

} // verus!
