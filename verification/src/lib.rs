//! Verified core of an end-to-end encrypted paste service.
//!
//! The library holds the decision logic of the server: the proof-of-work
//! admission protocol, create-request validation, time-to-live computation,
//! the paste lifecycle decisions (view counting, burn-after-read scheduling,
//! token-authorized deletion) and the error taxonomy. Transport and the
//! TTL-keyed store are kept outside; every function here is deterministic in
//! its arguments, except where a documented trusted wrapper draws the random
//! salt, the record id, or a limiter slot.

pub mod crypto;
pub mod encoding;
pub mod error;
pub mod lifecycle;
pub mod limiter;
pub mod model;
pub mod pow;
