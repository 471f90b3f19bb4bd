//! A catalog of measurement units and the rules for converting between them.
//!
//! A catalog is a list of categories, each holding the units that can be
//! converted into one another. Every unit carries a scale factor relative to
//! the implicit base unit of its category. The library resolves a conversion
//! request to the two scale factors involved; the caller applies them as
//! `value * from_factor / to_factor`. Factors are held as the bit patterns of
//! doubles, so that the library itself never computes with floating point.
//!
//! - [`model`]: factors, units, categories, the catalog, and their views.
//! - [`error`]: what loading and converting can fail with.
//! - [`engine`]: lookup by first exact match, conversion, and listing.
//! - [`json`]: the JSON documents read by `serde_json`, as the library sees them.
//! - [`loader`]: building a catalog from a JSON document.
//! - [`menu`]: the choices of the interactive menu.
//! - [`laws`]: what holds of every conversion request and of every malformed source.

pub mod engine;
pub mod error;
pub mod json;
pub mod laws;
pub mod loader;
pub mod menu;
pub mod model;
