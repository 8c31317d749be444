//! Transformation engine for a sponsored-content proxy.
//!
//! The library translates an inbound sponsored-content request into the
//! ad-decision request understood by the upstream ad network, and translates
//! the upstream decision response back into the client-facing schema:
//! targeting keywords, placement defaulting, tracking-URL shims, field
//! normalization, per-item validation and collection grouping.

pub mod client;
pub mod defaults;
pub mod errors;
pub mod image;
pub mod models;
pub mod normalize;
pub mod personalization;
pub mod response;
pub mod shim;
pub mod spocs;
pub mod text;
pub mod url;
