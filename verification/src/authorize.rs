//! The URL at which the user authorizes the application.
use vstd::prelude::*;
use vstd::utf8::encode_utf8;
use crate::record::{CredentialRecord, RecordView};

verus! {

/// The page on which the user registers an application with the provider.
pub const REGISTRATION_URL: &'static str = "https://moneyforward.com/apps";

/// The provider's authorization endpoint.
pub const AUTHORIZE_ENDPOINT: &'static str = "https://moneyforward.com/oauth/authorize";

/// The bytes that percent-encoding leaves as they are: ASCII letters and
/// digits, and `-`, `.`, `_`, `~`.
pub open spec fn is_unreserved(b: u8) -> bool {
    ||| 0x30 <= b <= 0x39
    ||| 0x41 <= b <= 0x5A
    ||| 0x61 <= b <= 0x7A
    ||| b == 0x2D
    ||| b == 0x2E
    ||| b == 0x5F
    ||| b == 0x7E
}

/// The upper-case hexadecimal digit for a value below sixteen.
pub open spec fn hex_digit(n: u8) -> char {
    if n < 10 {
        ((0x30 + n) as u8) as char
    } else {
        ((0x41 + n - 10) as u8) as char
    }
}

/// One byte, percent-encoded: itself where it is unreserved, else `%` and
/// its two hexadecimal digits.
pub open spec fn escaped_byte(b: u8) -> Seq<char> {
    if is_unreserved(b) {
        seq![b as char]
    } else {
        seq!['%', hex_digit(b / 16), hex_digit(b % 16)]
    }
}

/// A byte string, percent-encoded byte by byte.
pub open spec fn escaped_bytes(bytes: Seq<u8>) -> Seq<char>
    decreases bytes.len(),
{
    if bytes.len() == 0 {
        Seq::empty()
    } else {
        escaped_bytes(bytes.drop_last()) + escaped_byte(bytes.last())
    }
}

/// A text, percent-encoded: the bytes of its UTF-8 form, each encoded.
pub open spec fn percent_encoded(text: Seq<char>) -> Seq<char> {
    escaped_bytes(encode_utf8(text))
}

/// The authorization URL for a record: the endpoint, then the client
/// identifier and the redirect URI as they are, the response type `code`,
/// and the scope percent-encoded.
pub open spec fn authorize_url_of(record: RecordView) -> Seq<char> {
    AUTHORIZE_ENDPOINT@ + "?client_id="@ + record.client_id + "&redirect_uri="@
        + record.redirect_uri + "&response_type=code&scope="@ + percent_encoded(record.scope)
}

/// Percent-encodes a text with `urlencoding::encode`.
///
/// Trusted: that function walks the UTF-8 bytes of its argument, copies the
/// ASCII letters, digits and `-`, `.`, `_`, `~`, and writes every other byte
/// as `%` followed by its two upper-case hexadecimal digits.
#[verifier::external_body]
fn percent_encode(text: &str) -> (r: String)
    ensures
        r@ == percent_encoded(text@),
{
    urlencoding::encode(text).into_owned()
}

/// The URL that the user opens to authorize the application.
pub fn authorize_url(record: &CredentialRecord) -> (url: String)
    ensures
        url@ == authorize_url_of(record@),
{
    let scope = percent_encode(record.scope.as_str());
    let mut url = String::from_str(AUTHORIZE_ENDPOINT);
    url.append("?client_id=");
    url.append(record.client_id.as_str());
    url.append("&redirect_uri=");
    url.append(record.redirect_uri.as_str());
    url.append("&response_type=code&scope=");
    url.append(scope.as_str());
    url
}

/// The characters of which every percent-encoded text is made: `%`, and
/// the unreserved ASCII letters, digits and `-`, `.`, `_`, `~`.
pub open spec fn is_url_safe(c: char) -> bool {
    c == '%' || ((c as u32) < 0x80 && is_unreserved(c as u8))
}

proof fn lemma_escaped_byte_is_url_safe(b: u8)
    ensures
        forall|i: int|
            0 <= i < escaped_byte(b).len() ==> is_url_safe(#[trigger] escaped_byte(b)[i]),
{
    if !is_unreserved(b) {
        assert(is_url_safe(hex_digit(b / 16)));
        assert(is_url_safe(hex_digit(b % 16)));
    }
}

proof fn lemma_escaped_bytes_are_url_safe(bytes: Seq<u8>)
    ensures
        forall|i: int|
            0 <= i < escaped_bytes(bytes).len() ==> is_url_safe(#[trigger] escaped_bytes(bytes)[i]),
    decreases bytes.len(),
{
    if bytes.len() > 0 {
        let front = escaped_bytes(bytes.drop_last());
        let back = escaped_byte(bytes.last());
        lemma_escaped_bytes_are_url_safe(bytes.drop_last());
        lemma_escaped_byte_is_url_safe(bytes.last());
        assert forall|i: int| 0 <= i < escaped_bytes(bytes).len() implies is_url_safe(
            #[trigger] escaped_bytes(bytes)[i],
        ) by {
            if i < front.len() {
                assert(escaped_bytes(bytes)[i] == front[i]);
            } else {
                assert(escaped_bytes(bytes)[i] == back[i - front.len()]);
            }
        }
    }
}

/// Whatever the scope holds, its place in the authorization URL holds
/// nothing that could end the parameter or start another: every character
/// of a percent-encoded text is `%` or unreserved, so none is a space, `&`,
/// `=`, `#`, `?`, `/` or `+`.
pub proof fn law_encoded_text_is_url_safe(text: Seq<char>)
    ensures
        forall|i: int|
            0 <= i < percent_encoded(text).len() ==> is_url_safe(
                #[trigger] percent_encoded(text)[i],
            ),
        !percent_encoded(text).contains(' '),
        !percent_encoded(text).contains('&'),
        !percent_encoded(text).contains('='),
        !percent_encoded(text).contains('#'),
        !percent_encoded(text).contains('?'),
        !percent_encoded(text).contains('/'),
        !percent_encoded(text).contains('+'),
{
    lemma_escaped_bytes_are_url_safe(encode_utf8(text));
}

/// The authorization URL is the endpoint, the client identifier and the
/// redirect URI exactly as the record holds them, the response type `code`,
/// and the scope percent-encoded, in this order and with nothing between
/// but the parameters' names.
pub proof fn law_authorize_url_encodes_the_scope_alone(record: RecordView)
    ensures
        authorize_url_of(record) == AUTHORIZE_ENDPOINT@ + "?client_id="@ + record.client_id
            + "&redirect_uri="@ + record.redirect_uri + "&response_type=code&scope="@
            + percent_encoded(record.scope),
        authorize_url_of(record).subrange(
            authorize_url_of(record).len() - percent_encoded(record.scope).len(),
            authorize_url_of(record).len() as int,
        ) == percent_encoded(record.scope),
{
}

} // verus!
