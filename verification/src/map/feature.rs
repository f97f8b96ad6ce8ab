//! Map features.

pub mod border;
pub mod dot;
pub mod stage;
