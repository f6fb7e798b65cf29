//! OAuth2 credential lifecycle for the MoneyForward expense service.
//!
//! The crate holds the rules of the lifecycle and nothing that touches the
//! outside world: the caller prompts, opens browsers, talks HTTP and reads
//! the clock and the disk, and hands the library plain values.
//!
//! * [`record`]: the persisted credential record and the provider's token
//!   response.
//! * [`error`]: the failures the lifecycle can report.
//! * [`expiry`]: when an access token counts as expired.
//! * [`authorize`]: the authorization URL.
//! * [`flow`]: the interactive steps that obtain an authorization code.
//! * [`exchange`]: token requests and what a reply does to a record.
//! * [`store`]: what loading and saving the record mean.
//! * [`controller`]: the three commands, as a state machine that the caller
//!   drives.
pub mod record;
pub mod error;
pub mod expiry;
pub mod authorize;
pub mod exchange;
pub mod flow;
pub mod store;
pub mod controller;
