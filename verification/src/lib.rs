//! Conversion and serialization core for parsed recipe documents.
//!
//! The external `cooklang` parser turns recipe text into an AST and a
//! diagnostics report.  This crate converts that AST into a flattened,
//! boundary-safe output model, optionally after scaling the recipe to a
//! target number of servings, and renders the model as a canonical JSON
//! string with stable keys and omit-if-absent optional fields.

pub mod model;
pub mod output;
pub mod outside;
pub mod convert;
pub mod json;
pub mod api;
pub mod laws;
