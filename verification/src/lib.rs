//! An in-memory model of asset administration shell documents.
//!
//! An [`structs::environment::Environment`] owns shells, submodels and
//! concept descriptions; a submodel owns a tree of submodel elements. What an
//! element can have besides its own data (a short ID, a semantic definition,
//! qualifiers, extensions, data specifications, an identity) is an aspect, a
//! trait in [`traits`], and each concrete type in [`structs`] implements the
//! aspects that it has. Where a place accepts one of several types, a closed
//! union in [`enumerations::interface_enumerations`] lists them and hands
//! every call on to the variant it holds.
//!
//! Every type has a mathematical form, its view, and every function states
//! over the views what it returns and what it changes. Every type maps itself
//! to a wire tree ([`wire`]) and back, and what was encoded decodes to the
//! same value again.
pub mod error;
pub mod laws;
pub mod validation;
pub mod wire;
pub mod names;
pub mod enumerations;
pub mod traits;
pub mod structs;
