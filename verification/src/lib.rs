//! Code-emission model for an API-client generator.
//!
//! Given a resolved description of API objects, the paths and operations
//! bound to them, and the parameters those operations need, this library
//! derives builder descriptors, merges and deduplicates their attributes,
//! decides when a secondary aggregate layout is needed, resolves type and
//! constructor names, and renders everything into target source text.

pub mod model;
pub mod deriver;
pub mod merge;
pub mod naming;
pub mod casing;
pub mod render;
pub mod render_impl;
pub mod render_object;
