//! The aspects: what an element can have, whatever its type.
pub mod data_element;
pub mod event_element;
pub mod has_data_specification;
pub mod has_extensions;
pub mod has_kind;
pub mod has_semantics;
pub mod identifiable;
pub mod qualifiable;
pub mod referable;
pub mod relationship_element;
pub mod submodel_element;
