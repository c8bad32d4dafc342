//! Localized-content resolution: a read-only catalog of language bundles,
//! detection of the preferred language from an environment locale, and a
//! resolver that holds the active language, serves resources under it and
//! tells its subscribers when it changes. Beside it, the plain values that
//! the client exchanges with its server: votes, replies and the session
//! cookie.

pub mod bundle;
pub mod locale;
pub mod resolver;
pub mod laws;
pub mod cookie;
pub mod request;
