//! The rules of the railway map proper.

pub mod feature;
pub mod colors;
pub mod functions;
pub mod style;
