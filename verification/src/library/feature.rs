//! Library features.

pub mod guide;
pub mod label;
