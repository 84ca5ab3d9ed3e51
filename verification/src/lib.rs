//! Verified core of a local account switcher for a third-party game client.
//!
//! The crate covers two independent paths:
//! - a local credential handshake: the client's lock file is parsed into
//!   connection credentials, exchanged for a bearer session, and assembled
//!   into a canonical header set (`lockfile`, `auth`, `prefs`);
//! - an account snapshot store with a switch protocol over a fixed set of
//!   managed installation paths (`store`, `plan`).
//!
//! All I/O (filesystem, HTTP, process control) stays outside this crate; the
//! functions here take the observed values and return decisions and results
//! with proved contracts.

pub mod auth;
pub mod errors;
pub mod lockfile;
pub mod plan;
pub mod prefs;
pub mod store;
pub mod text;
