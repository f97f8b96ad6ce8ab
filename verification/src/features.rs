//! Building blocks of map features.

pub mod label;
