//! Registry of blockchain identities and the dispatcher that selects a chain
//! module for an identity.
//!
//! `registry` resolves external chain tags to identities, never failing: an
//! unknown tag resolves to `Unsupported`. `dispatch` is the first and only place
//! where an unsupported identity becomes an error.

pub mod dispatch;
pub mod registry;
