//! When an access token counts as expired.
//!
//! Times are whole seconds since the Unix epoch. The caller reads the clock;
//! nothing here does.
use vstd::prelude::*;
use crate::record::CredentialRecord;

verus! {

/// An access token whose expiry is `expiry` is expired at `now` when no
/// expiry was ever computed, or when `now` has reached it.
pub open spec fn expired_at(expiry: nat, now: nat) -> bool {
    expiry == 0 || now >= expiry
}

/// Whether a lifetime of `expires_in` seconds that starts at `now` ends at a
/// time that a record can hold.
pub open spec fn lifetime_fits(now: nat, expires_in: int) -> bool {
    0 <= now + expires_in <= u64::MAX
}

/// Whether the record's access token is expired at `now`: true when the
/// expiry is unset, and from the second of expiry on.
pub fn is_expired(record: &CredentialRecord, now: u64) -> (r: bool)
    ensures
        r == expired_at(record@.access_token_expiry, now as nat),
        record@.access_token_expiry == 0 ==> r,
        now == record@.access_token_expiry ==> r,
{
    record.access_token_expiry == 0 || now >= record.access_token_expiry
}

/// The seconds from `now` until the record's access token expires; negative
/// once it has expired.
pub fn time_until_expiry(record: &CredentialRecord, now: u64) -> (r: i128)
    ensures
        r == record@.access_token_expiry - now,
{
    record.access_token_expiry as i128 - now as i128
}

/// The expiry of a token that was issued at `now` with a lifetime of
/// `expires_in` seconds, where a record can hold that time.
pub fn expiry_after(now: u64, expires_in: i32) -> (r: Option<u64>)
    ensures
        r is Some <==> lifetime_fits(now as nat, expires_in as int),
        r is Some ==> r.unwrap() == now + expires_in,
{
    let end: i128 = now as i128 + expires_in as i128;
    if 0 <= end && end <= u64::MAX as i128 {
        Some(end as u64)
    } else {
        None
    }
}

} // verus!
