//! Mirrors every repository of a selected account from a hosted git service
//! to local bare clones.
//!
//! The crate holds the reconciliation-and-dispatch engine: enumerating a
//! paginated remote inventory, classifying local mirror state against it,
//! and planning per-repository clone, fetch, cleanup and skip operations
//! with partial-failure isolation. Network and filesystem mutation are left
//! to the binary around the library; the engine works on the observations
//! and outcomes that the binary hands it.

pub mod credentials;
pub mod dispatch;
pub mod disposition;
pub mod errors;
pub mod inventory;
pub mod json;
pub mod pagination;
pub mod repo;
pub mod report;
pub mod scope;
