//! Borders on the map.
//!
//! Their category is read as for any border feature.

pub use crate::feature::border::{Category, border_category_of, border_category_rest};
