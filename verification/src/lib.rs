//! Rewrites a function definition so that each explicit parameter accepts any
//! value convertible into its declared type.
//!
//! The declared type of every typed parameter becomes a fresh generic type
//! parameter bounded by `Into` of the declared type, and the body is prefixed
//! with one shadowing binding per parameter that converts the argument back.

pub mod body;
pub mod generics;
pub mod laws;
pub mod list;
pub mod rewrite;
pub mod samples;
pub mod syntax;
