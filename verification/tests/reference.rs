use aas_model::enumerations::key_type::KeyType;
use aas_model::enumerations::reference_type::ReferenceType;
use aas_model::error::ModelError;
use aas_model::structs::key::Key;
use aas_model::structs::reference::Reference;
use aas_model::wire::{DecodeFault, Field, Wire};

fn key(key_type: KeyType, value: &str) -> Key {
    Key::new(key_type, value.to_string())
}

fn model_reference() -> Reference {
    Reference::new(
        ReferenceType::ModelReference,
        vec![
            key(KeyType::Submodel, "https://example.com/sm/1"),
            key(KeyType::SubmodelElementCollection, "Measurements"),
            key(KeyType::Property, "Temperature"),
        ],
    )
    .expect("the path begins at a submodel")
}

#[test]
fn model_reference_without_keys_is_refused() {
    assert_eq!(
        Reference::new(ReferenceType::ModelReference, vec![]),
        Err(ModelError::InvalidReference)
    );
}

#[test]
fn external_reference_without_keys_is_refused() {
    assert_eq!(
        Reference::new(ReferenceType::ExternalReference, vec![]),
        Err(ModelError::InvalidReference)
    );
}

#[test]
fn model_reference_must_begin_at_a_root() {
    for kind in [KeyType::Property, KeyType::GlobalReference, KeyType::SubmodelElement, KeyType::Entity] {
        assert_eq!(
            Reference::new(ReferenceType::ModelReference, vec![key(kind, "x")]),
            Err(ModelError::InvalidReference)
        );
    }
    for kind in [KeyType::AssetAdministrationShell, KeyType::Submodel, KeyType::ConceptDescription] {
        assert!(Reference::new(ReferenceType::ModelReference, vec![key(kind, "x")]).is_ok());
    }
}

#[test]
fn external_reference_may_begin_anywhere() {
    let reference = Reference::new(
        ReferenceType::ExternalReference,
        vec![key(KeyType::GlobalReference, "0173-1#02-AAO677#002")],
    )
    .unwrap();
    assert_eq!(*reference.get_reference_type(), ReferenceType::ExternalReference);
    assert_eq!(reference.get_keys().len(), 1);
    assert_eq!(reference.get_keys()[0].get_value(), "0173-1#02-AAO677#002");
}

#[test]
fn keys_are_kept_in_order_with_types_and_values() {
    let reference = model_reference();
    let keys = reference.get_keys();
    assert_eq!(keys.len(), 3);
    assert_eq!(*keys[0].get_key_type(), KeyType::Submodel);
    assert_eq!(keys[0].get_value(), "https://example.com/sm/1");
    assert_eq!(*keys[1].get_key_type(), KeyType::SubmodelElementCollection);
    assert_eq!(keys[1].get_value(), "Measurements");
    assert_eq!(*keys[2].get_key_type(), KeyType::Property);
    assert_eq!(keys[2].get_value(), "Temperature");
}

#[test]
fn copy_of_a_reference_is_equal_to_it() {
    let mut reference = model_reference();
    reference.set_referred_semantic_id(Box::new(
        Reference::new(ReferenceType::ExternalReference, vec![key(KeyType::GlobalReference, "sem")]).unwrap(),
    ));
    let copy = reference.clone();
    assert_eq!(copy, reference);
    assert_eq!(copy.get_keys(), reference.get_keys());
    assert_eq!(copy.get_referred_semantic_id(), reference.get_referred_semantic_id());
}

#[test]
fn reference_survives_the_wire() {
    let mut reference = model_reference();
    reference.set_referred_semantic_id(Box::new(
        Reference::new(ReferenceType::ExternalReference, vec![key(KeyType::GlobalReference, "sem")]).unwrap(),
    ));
    let wire = reference.encode();
    assert_eq!(wire.get("type"), Some(&Wire::Text("ModelReference".to_string())));
    match wire.get("keys") {
        Some(Wire::List(items)) => {
            assert_eq!(items.len(), 3);
            assert_eq!(items[2].get("type"), Some(&Wire::Text("Property".to_string())));
            assert_eq!(items[2].get("value"), Some(&Wire::Text("Temperature".to_string())));
        },
        other => panic!("expected the list of keys, found {:?}", other),
    }
    assert_eq!(Reference::decode(&wire), Ok(reference));
}

#[test]
fn decoding_refuses_a_reference_without_keys() {
    let wire = Wire::Record(vec![
        Field::new("type", Wire::Text("ExternalReference".to_string())),
        Field::new("keys", Wire::List(vec![])),
    ]);
    let error = Reference::decode(&wire).unwrap_err();
    assert_eq!(error.get_fault(), DecodeFault::InvalidReference);
}

#[test]
fn decoding_refuses_a_model_reference_that_begins_at_no_root() {
    let wire = Wire::Record(vec![
        Field::new("type", Wire::Text("ModelReference".to_string())),
        Field::new("keys", Wire::List(vec![key(KeyType::Property, "p").encode()])),
    ]);
    let error = Reference::decode(&wire).unwrap_err();
    assert_eq!(error.get_fault(), DecodeFault::InvalidReference);
}

#[test]
fn set_reference_type_keeps_the_reference_valid() {
    let mut reference = Reference::new(
        ReferenceType::ExternalReference,
        vec![key(KeyType::GlobalReference, "g")],
    )
    .unwrap();
    let before = reference.clone();
    assert_eq!(
        reference.set_reference_type(ReferenceType::ModelReference),
        Err(ModelError::InvalidReference)
    );
    assert_eq!(reference, before);

    let mut reference = model_reference();
    assert_eq!(reference.set_reference_type(ReferenceType::ExternalReference), Ok(()));
    assert_eq!(*reference.get_reference_type(), ReferenceType::ExternalReference);
    assert_eq!(reference.set_reference_type(ReferenceType::ModelReference), Ok(()));
}

#[test]
fn set_keys_keeps_the_reference_valid() {
    let mut reference = model_reference();
    let before = reference.clone();
    assert_eq!(reference.set_keys(vec![]), Err(ModelError::InvalidReference));
    assert_eq!(reference, before);
    assert_eq!(
        reference.set_keys(vec![key(KeyType::Blob, "b")]),
        Err(ModelError::InvalidReference)
    );
    assert_eq!(reference, before);
    assert_eq!(reference.set_keys(vec![key(KeyType::ConceptDescription, "cd")]), Ok(()));
    assert_eq!(reference.get_keys().len(), 1);
    assert_eq!(*reference.get_keys()[0].get_key_type(), KeyType::ConceptDescription);
}

#[test]
fn add_key_then_remove_last_restores_the_path() {
    let mut reference = model_reference();
    let before = reference.clone();
    reference.add_key(key(KeyType::FragmentReference, "unit"));
    assert_eq!(reference.get_keys().len(), 4);
    let removed = reference.remove_key(3).unwrap();
    assert_eq!(removed, key(KeyType::FragmentReference, "unit"));
    assert_eq!(reference, before);
}

#[test]
fn remove_key_out_of_range_changes_nothing() {
    let mut reference = model_reference();
    let before = reference.clone();
    assert_eq!(reference.remove_key(3), Err(ModelError::IndexOutOfRange));
    assert_eq!(reference.remove_key(usize::MAX), Err(ModelError::IndexOutOfRange));
    assert_eq!(reference, before);
}

#[test]
fn remove_key_never_leaves_a_reference_invalid() {
    let mut single = Reference::new(ReferenceType::ExternalReference, vec![key(KeyType::GlobalReference, "g")])
        .unwrap();
    assert_eq!(single.remove_key(0), Err(ModelError::InvalidReference));
    assert_eq!(single.get_keys().len(), 1);

    let mut reference = model_reference();
    let before = reference.clone();
    assert_eq!(reference.remove_key(0), Err(ModelError::InvalidReference));
    assert_eq!(reference, before);
    assert_eq!(
        reference.remove_key(1),
        Ok(key(KeyType::SubmodelElementCollection, "Measurements"))
    );
    assert_eq!(reference.get_keys().len(), 2);
    assert_eq!(*reference.get_keys()[1].get_key_type(), KeyType::Property);
}

#[test]
fn remove_first_key_is_allowed_where_the_next_is_a_root() {
    let mut reference = Reference::new(
        ReferenceType::ModelReference,
        vec![key(KeyType::AssetAdministrationShell, "aas"), key(KeyType::Submodel, "sm")],
    )
    .unwrap();
    assert_eq!(reference.remove_key(0), Ok(key(KeyType::AssetAdministrationShell, "aas")));
    assert_eq!(reference.get_keys().len(), 1);
    assert_eq!(*reference.get_keys()[0].get_key_type(), KeyType::Submodel);
}

#[test]
fn model_error_messages() {
    assert_eq!(ModelError::IndexOutOfRange.message(), "index out of range");
    assert_eq!(ModelError::InvalidReference.message(), "invalid reference");
}

#[test]
fn kinds_of_keys() {
    assert!(KeyType::Property.is_element_kind());
    assert!(KeyType::SubmodelElement.is_element_kind());
    assert!(KeyType::Entity.is_element_kind());
    assert!(!KeyType::Submodel.is_element_kind());
    assert!(!KeyType::GlobalReference.is_element_kind());
    assert!(!KeyType::FragmentReference.is_element_kind());
    assert!(KeyType::Range.is_data_element_kind());
    assert!(KeyType::DataElement.is_data_element_kind());
    assert!(!KeyType::Entity.is_data_element_kind());
    assert!(!KeyType::Capability.is_data_element_kind());
    assert!(KeyType::Submodel.holds_elements_kind());
    assert!(KeyType::SubmodelElementList.holds_elements_kind());
    assert!(!KeyType::Property.holds_elements_kind());
    assert!(!KeyType::AssetAdministrationShell.holds_elements_kind());
    assert!(KeyType::AnnotatedRelationshipElement.holds_annotations_kind());
    assert!(!KeyType::Entity.holds_annotations_kind());
    assert!(KeyType::Submodel.admits_child_kind(&KeyType::Property));
    assert!(KeyType::Entity.admits_child_kind(&KeyType::Entity));
    assert!(KeyType::AnnotatedRelationshipElement.admits_child_kind(&KeyType::Property));
    assert!(!KeyType::AnnotatedRelationshipElement.admits_child_kind(&KeyType::Entity));
    assert!(!KeyType::Property.admits_child_kind(&KeyType::Property));
    assert!(!KeyType::Submodel.admits_child_kind(&KeyType::Submodel));
    assert!(!KeyType::ConceptDescription.admits_child_kind(&KeyType::Property));
}

#[test]
fn path_of_a_model_reference_descends_by_kind() {
    assert!(model_reference().path_descends());
    let single = Reference::new(ReferenceType::ModelReference, vec![key(KeyType::Submodel, "sm")]).unwrap();
    assert!(single.path_descends());
    let into_annotations = Reference::new(
        ReferenceType::ModelReference,
        vec![
            key(KeyType::Submodel, "sm"),
            key(KeyType::AnnotatedRelationshipElement, "rel"),
            key(KeyType::MultiLanguageProperty, "note"),
        ],
    )
    .unwrap();
    assert!(into_annotations.path_descends());
    let below_a_leaf = Reference::new(
        ReferenceType::ModelReference,
        vec![key(KeyType::Submodel, "sm"), key(KeyType::Property, "p"), key(KeyType::Property, "q")],
    )
    .unwrap();
    assert!(!below_a_leaf.path_descends());
    let below_a_shell = Reference::new(
        ReferenceType::ModelReference,
        vec![key(KeyType::AssetAdministrationShell, "aas"), key(KeyType::Property, "p")],
    )
    .unwrap();
    assert!(!below_a_shell.path_descends());
    let container_among_annotations = Reference::new(
        ReferenceType::ModelReference,
        vec![
            key(KeyType::Submodel, "sm"),
            key(KeyType::AnnotatedRelationshipElement, "rel"),
            key(KeyType::SubmodelElementCollection, "c"),
        ],
    )
    .unwrap();
    assert!(!container_among_annotations.path_descends());
}

#[test]
fn keys_of_an_external_reference_are_opaque() {
    let reference = Reference::new(
        ReferenceType::ExternalReference,
        vec![key(KeyType::Property, "p"), key(KeyType::Submodel, "sm"), key(KeyType::GlobalReference, "g")],
    )
    .unwrap();
    assert!(reference.path_descends());
}
