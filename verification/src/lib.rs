//! A small cocktail-recommendation library.
//!
//! The catalog holds a fixed table of ingredients and drinks; the matcher
//! ranks the drinks that share at least one ingredient with a caller-supplied
//! set of available ingredient ids, ordered by how few ingredients are still
//! missing (ties keep catalog order).

pub mod catalog;
pub mod data;
pub mod laws;
pub mod matcher;
