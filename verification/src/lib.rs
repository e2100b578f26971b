//! Verified core of the ECR17 payment-terminal protocol.
use vstd::prelude::*;

pub mod lrc;
pub mod codec;
pub mod text;
pub mod error;
pub mod protocol;
pub mod types;
pub mod response;
pub mod retry;
pub mod session;
pub mod transport;
pub mod client;

verus! {
}
