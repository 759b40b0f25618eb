//! A verified flash-loan settlement core.
//!
//! A party requests a temporary, uncollateralized supply of a fungible
//! asset, an external action runs with that supply and repays through a
//! callback, and the engine checks that the principal plus a fee came back
//! before the unit of work may complete. The host environment (asset
//! ledger, call dispatch, transactional rollback) stays outside: the
//! library decides, the host performs.

pub mod asset;
pub mod bytes;
pub mod config;
pub mod engine;
pub mod errors;
pub mod fees;
pub mod invocation;
pub mod session;
pub mod settings;
