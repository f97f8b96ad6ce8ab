//! Classification and import language of a railway map renderer.
//!
//! The crate holds the parts of the renderer that decide things: how the
//! symbols attached to a feature classify a railway and configure its
//! rendering, and how the map description language is parsed into its
//! syntax tree.

pub mod symbols;
pub mod class;
pub mod source;
pub mod ast;
pub mod lexer;
pub mod parser;
pub mod config;
pub mod feature;
pub mod features;
pub mod import;
pub mod library;
pub mod map;
