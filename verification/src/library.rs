//! The rules of the railway map library: how the symbols of a feature
//! select its class, its track rendering and its label fonts.

pub mod border;
pub mod class;
pub mod feature;
pub mod functions;
pub mod symbols;
pub mod track;
