//! Evaluating the map description language.

pub mod eval;
pub mod functions;
pub mod load;
pub mod path;
