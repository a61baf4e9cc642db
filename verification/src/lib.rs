//! Short-lived, randomly generated authentication tokens ("expiring keys").
//!
//! An expiring key pairs a fixed-length random token ([`auth::Key`]) with an
//! absolute expiration instant, read from a substitutable clock
//! ([`clock::Clock`]) so that time-dependent behaviour is deterministic under
//! test and correct under a real wall clock.

pub mod auth;
pub mod clock;
