//! The resource-provisioning layer of a typesetting run: stable file
//! identities, a memoizing path cache, an append-only source registry, a
//! lazily loaded font index and the environment that ties them together.

pub mod error;
pub mod identity;
pub mod cache;
pub mod registry;
pub mod fonts;
pub mod report;
pub mod environment;
