//! Shape model, parser and code generator for a JSON interface-definition
//! language describing the data shapes of a remote service.

pub mod error;
pub mod json;
pub mod shape;
pub mod parser;
pub mod generator;
pub mod service;
pub mod laws;
