//! Typed client pieces for the Slack Web API, with verified request signing,
//! pagination and error handling.
//!
//! The library builds each request (its URL or form) and reads each decoded
//! response into a typed result; sending and JSON decoding are left to the
//! caller.

pub mod chat;
pub mod client;
pub mod conversation;
pub mod decimal;
pub mod emoji;
pub mod error;
pub mod hex;
pub mod hmac;
pub mod oauth;
pub mod oidc;
pub mod openid;
pub mod page;
pub mod query;
pub mod team;
pub mod timestamp;
pub mod user;
pub mod verification;

pub use page::{Cursor, Limit, Page};
pub use verification::{verify, verify_at, VerificationError};
