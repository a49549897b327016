//! Translates a reflected type graph (documented structs, traits and their
//! implementations) into schema object definitions for a second schema
//! language, restricted to structs that implement a marker serialization
//! capability.

pub mod engine;
pub mod error;
pub mod laws;
pub mod known;
pub mod mapper;
pub mod model;
pub mod resolve;
pub mod schema;
