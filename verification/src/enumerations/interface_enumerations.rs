//! The closed unions: for each aspect, and for each place that accepts more than one type,
//! the types that fit.
pub mod data_element;
pub mod has_data_specification;
pub mod has_extensions;
pub mod has_semantics;
pub mod identifiable;
pub mod qualifiable;
pub mod referable;
pub mod relationship_element;
pub mod submodel_element;
