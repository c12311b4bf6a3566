//! The concrete types of the model.
pub mod administrative_information;
pub mod annotated_relationship_element;
pub mod asset_administration_shell;
pub mod asset_information;
pub mod basic_event_element;
pub mod blob;
pub mod capability;
pub mod concept_description;
pub mod entity;
pub mod environment;
pub mod event_payload;
pub mod extension;
pub mod file;
pub mod key;
pub mod multi_language_name_type;
pub mod multi_language_property;
pub mod multi_language_text_type;
pub mod operation;
pub mod operation_variable;
pub mod property;
pub mod qualifier;
pub mod range;
pub mod reference;
pub mod reference_element;
pub mod relationship_element;
pub mod resource;
pub mod specific_asset_id;
pub mod submodel;
pub mod submodel_element_collection;
pub mod submodel_element_list;
