//! A source-to-source pass that rewrites internationalization macro
//! expressions — tagged templates and plural/select calls — into explicit
//! runtime translation calls carrying an ICU message string and an ordered
//! mapping of interpolation values.
#![allow(non_snake_case)]

pub mod ast;
pub mod laws;
pub mod model;
pub mod strings;
pub mod visitor;
