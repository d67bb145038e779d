//! A credential accessor.
//!
//! The accessor looks two environment variables up, one for an access
//! identifier and one for a secret value, and hands both back as an ordered
//! pair of strings. A variable that is not set contributes the empty string:
//! absence is never an error.
//!
//! The library does not touch the process environment itself. The caller
//! supplies the lookup, so the same code serves the real environment and a
//! stand-in for it.
//!
//! - [`environment`] is the mathematical model of an environment.
//! - [`credentials`] holds the accessor and what is proved of it.

pub mod credentials;
pub mod environment;
