//! The enumerations of the model and the closed unions over its element types.
pub mod aas_submodel_elements;
pub mod asset_kind;
pub mod data_type_def_xsd;
pub mod direction;
pub mod entity_type;
pub mod interface_enumerations;
pub mod key_type;
pub mod modelling_kind;
pub mod qualifier_kind;
pub mod reference_type;
pub mod state_of_event;
