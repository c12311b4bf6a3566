use aas_model::enumerations::aas_submodel_elements::AasSubmodelElements;
use aas_model::enumerations::asset_kind::AssetKind;
use aas_model::enumerations::data_type_def_xsd::DataTypeDefXsd;
use aas_model::enumerations::direction::Direction;
use aas_model::enumerations::interface_enumerations::data_element::DataElement;
use aas_model::enumerations::interface_enumerations::has_data_specification::HasDataSpecification;
use aas_model::enumerations::interface_enumerations::has_extensions::HasExtensions;
use aas_model::enumerations::interface_enumerations::has_semantics::HasSemantics;
use aas_model::enumerations::interface_enumerations::identifiable::Identifiable;
use aas_model::enumerations::interface_enumerations::qualifiable::Qualifiable;
use aas_model::enumerations::interface_enumerations::referable::Referable;
use aas_model::enumerations::interface_enumerations::relationship_element::RelationshipElement;
use aas_model::enumerations::interface_enumerations::submodel_element::SubmodelElement;
use aas_model::enumerations::key_type::KeyType;
use aas_model::enumerations::reference_type::ReferenceType;
use aas_model::enumerations::state_of_event::StateOfEvent;
use aas_model::error::ModelError;
use aas_model::structs::administrative_information::AdministrativeInformation;
use aas_model::structs::annotated_relationship_element::AnnotatedRelationshipElement;
use aas_model::structs::asset_administration_shell::AssetAdministrationShell;
use aas_model::structs::asset_information::AssetInformation;
use aas_model::structs::basic_event_element::BasicEventElement;
use aas_model::structs::blob::Blob;
use aas_model::structs::capability::Capability;
use aas_model::structs::concept_description::ConceptDescription;
use aas_model::structs::entity::Entity;
use aas_model::structs::extension::Extension;
use aas_model::structs::file::File;
use aas_model::structs::key::Key;
use aas_model::structs::multi_language_name_type::MultiLanguageNameType;
use aas_model::structs::multi_language_property::MultiLanguageProperty;
use aas_model::structs::multi_language_text_type::MultiLanguageTextType;
use aas_model::structs::operation::Operation;
use aas_model::structs::property::Property;
use aas_model::structs::qualifier::Qualifier;
use aas_model::structs::range::Range;
use aas_model::structs::reference::Reference;
use aas_model::structs::reference_element::ReferenceElement;
use aas_model::structs::specific_asset_id::SpecificAssetId;
use aas_model::structs::submodel::Submodel;
use aas_model::structs::submodel_element_collection::SubmodelElementCollection;
use aas_model::structs::submodel_element_list::SubmodelElementList;
use aas_model::traits::has_extensions::THasExtensions;
use aas_model::traits::has_semantics::THasSemantics;
use aas_model::traits::identifiable::TIdentifiable;
use aas_model::traits::qualifiable::TQualifiable;
use aas_model::traits::referable::TReferable;
use aas_model::traits::relationship_element::TRelationshipElement;
use aas_model::wire::{DecodeFault, Field, PathStep, Wire};

fn external(value: &str) -> Reference {
    Reference::new(
        ReferenceType::ExternalReference,
        vec![Key::new(KeyType::GlobalReference, value.to_string())],
    )
    .unwrap()
}

fn event() -> BasicEventElement {
    BasicEventElement::new(external("observed"), Direction::Input, StateOfEvent::On)
}

fn shell() -> AssetAdministrationShell {
    AssetAdministrationShell::new("aas".to_string(), AssetInformation::new(AssetKind::Instance))
}

fn plain_relationship() -> aas_model::structs::relationship_element::RelationshipElement {
    aas_model::structs::relationship_element::RelationshipElement::new()
}

fn submodel_elements() -> Vec<(SubmodelElement, &'static str)> {
    vec![
        (SubmodelElement::RelationshipElement(plain_relationship()), "RelationshipElement"),
        (
            SubmodelElement::AnnotatedRelationshipElement(AnnotatedRelationshipElement::new()),
            "AnnotatedRelationshipElement",
        ),
        (SubmodelElement::Property(Property::new(DataTypeDefXsd::Int)), "Property"),
        (SubmodelElement::MultiLanguageProperty(MultiLanguageProperty::new()), "MultiLanguageProperty"),
        (SubmodelElement::Range(Range::new(DataTypeDefXsd::Int)), "Range"),
        (SubmodelElement::Blob(Blob::new("a/b".to_string())), "Blob"),
        (SubmodelElement::File(File::new("a/b".to_string())), "File"),
        (SubmodelElement::ReferenceElement(ReferenceElement::new()), "ReferenceElement"),
        (SubmodelElement::Capability(Capability::new()), "Capability"),
        (
            SubmodelElement::SubmodelElementList(SubmodelElementList::new(AasSubmodelElements::Blob)),
            "SubmodelElementList",
        ),
        (
            SubmodelElement::SubmodelElementCollection(SubmodelElementCollection::new()),
            "SubmodelElementCollection",
        ),
        (SubmodelElement::Entity(Entity::new()), "Entity"),
        (SubmodelElement::BasicEventElement(event()), "BasicEventElement"),
        (SubmodelElement::Operation(Operation::new()), "Operation"),
    ]
}

fn text(s: &str) -> Wire {
    Wire::Text(s.to_string())
}

#[test]
fn every_submodel_element_is_tagged_with_its_type_name() {
    let all = submodel_elements();
    assert_eq!(all.len(), 14);
    for (element, name) in all {
        assert_eq!(element.model_type(), name);
        let wire = element.encode();
        assert_eq!(wire.get("modelType"), Some(&text(name)));
        match &wire {
            Wire::Record(fields) => assert_eq!(fields[0].name, "modelType"),
            other => panic!("expected a record, found {:?}", other),
        }
        assert_eq!(SubmodelElement::decode(&wire), Ok(element));
    }
}

#[test]
fn every_data_element_is_tagged_with_its_type_name() {
    let all = vec![
        (DataElement::Property(Property::new(DataTypeDefXsd::Int)), "Property"),
        (DataElement::MultiLanguageProperty(MultiLanguageProperty::new()), "MultiLanguageProperty"),
        (DataElement::Range(Range::new(DataTypeDefXsd::Int)), "Range"),
        (DataElement::Blob(Blob::new("a/b".to_string())), "Blob"),
        (DataElement::File(File::new("a/b".to_string())), "File"),
        (DataElement::ReferenceElement(ReferenceElement::new()), "ReferenceElement"),
    ];
    for (element, name) in all {
        assert_eq!(element.model_type(), name);
        let wire = element.encode();
        assert_eq!(wire.get("modelType"), Some(&text(name)));
        assert_eq!(DataElement::decode(&wire), Ok(element));
    }
}

#[test]
fn every_referable_is_tagged_with_its_type_name() {
    let all = vec![
        (Referable::AnnotatedRelationshipElement(AnnotatedRelationshipElement::new()), "AnnotatedRelationshipElement"),
        (Referable::AssetAdministrationShell(shell()), "AssetAdministrationShell"),
        (Referable::BasicEventElement(Box::new(event())), "BasicEventElement"),
        (Referable::Blob(Blob::new("a/b".to_string())), "Blob"),
        (Referable::Capability(Capability::new()), "Capability"),
        (Referable::ConceptDescription(ConceptDescription::new("cd".to_string())), "ConceptDescription"),
        (Referable::Entity(Entity::new()), "Entity"),
        (Referable::File(File::new("a/b".to_string())), "File"),
        (Referable::MultiLanguageProperty(MultiLanguageProperty::new()), "MultiLanguageProperty"),
        (Referable::Operation(Operation::new()), "Operation"),
        (Referable::Property(Property::new(DataTypeDefXsd::Int)), "Property"),
        (Referable::Range(Range::new(DataTypeDefXsd::Int)), "Range"),
        (Referable::ReferenceElement(ReferenceElement::new()), "ReferenceElement"),
        (Referable::RelationshipElement(plain_relationship()), "RelationshipElement"),
        (Referable::Submodel(Submodel::new("sm".to_string())), "Submodel"),
        (Referable::SubmodelElementCollection(SubmodelElementCollection::new()), "SubmodelElementCollection"),
        (
            Referable::SubmodelElementList(SubmodelElementList::new(AasSubmodelElements::File)),
            "SubmodelElementList",
        ),
    ];
    assert_eq!(all.len(), 17);
    for (element, name) in all {
        assert_eq!(element.model_type(), name);
        let wire = element.encode();
        assert_eq!(wire.get("modelType"), Some(&text(name)));
        assert_eq!(Referable::decode(&wire), Ok(element));
    }
}

#[test]
fn aspect_unions_are_tagged_with_the_type_name_of_the_variant() {
    let qualifier = HasSemantics::Qualifier(Qualifier::new("q".to_string(), DataTypeDefXsd::Int));
    assert_eq!(qualifier.encode().get("modelType"), Some(&text("Qualifier")));
    assert_eq!(HasSemantics::decode(&qualifier.encode()), Ok(qualifier));
    let extension = HasSemantics::Extension(Extension::new("e".to_string()));
    assert_eq!(extension.encode().get("modelType"), Some(&text("Extension")));
    let asset_id = HasSemantics::SpecificAssetId(SpecificAssetId::new("n".to_string(), "v".to_string()));
    assert_eq!(asset_id.encode().get("modelType"), Some(&text("SpecificAssetId")));
    assert_eq!(HasSemantics::decode(&asset_id.encode()), Ok(asset_id));

    let administration = HasDataSpecification::AdministrativeInformation(AdministrativeInformation::new());
    assert_eq!(administration.encode().get("modelType"), Some(&text("AdministrativeInformation")));
    assert_eq!(HasDataSpecification::decode(&administration.encode()), Ok(administration));

    let submodel = Identifiable::Submodel(Submodel::new("sm".to_string()));
    assert_eq!(submodel.encode().get("modelType"), Some(&text("Submodel")));
    assert_eq!(Identifiable::decode(&submodel.encode()), Ok(submodel));
    let concept = Identifiable::ConceptDescription(ConceptDescription::new("cd".to_string()));
    assert_eq!(Identifiable::decode(&concept.encode()), Ok(concept));
    let identified_shell = Identifiable::AssetAdministrationShell(shell());
    assert_eq!(Identifiable::decode(&identified_shell.encode()), Ok(identified_shell));

    let qualifiable = Qualifiable::Operation(Operation::new());
    assert_eq!(qualifiable.encode().get("modelType"), Some(&text("Operation")));
    assert_eq!(Qualifiable::decode(&qualifiable.encode()), Ok(qualifiable));

    let extensible = HasExtensions::Entity(Entity::new());
    assert_eq!(extensible.encode().get("modelType"), Some(&text("Entity")));
    assert_eq!(HasExtensions::decode(&extensible.encode()), Ok(extensible));

    let relation = RelationshipElement::AnnotatedRelationshipElement(AnnotatedRelationshipElement::new());
    assert_eq!(relation.encode().get("modelType"), Some(&text("AnnotatedRelationshipElement")));
    assert_eq!(RelationshipElement::decode(&relation.encode()), Ok(relation));
    let relation = RelationshipElement::RelationshipElement(plain_relationship());
    assert_eq!(relation.encode().get("modelType"), Some(&text("RelationshipElement")));
    assert_eq!(RelationshipElement::decode(&relation.encode()), Ok(relation));
}

#[test]
fn unknown_type_name_is_refused() {
    let mut wire = Property::new(DataTypeDefXsd::Int).encode();
    if let Wire::Record(fields) = &mut wire {
        fields.insert(0, Field::new("modelType", text("Gadget")));
    }
    let error = SubmodelElement::decode(&wire).unwrap_err();
    assert_eq!(error.get_fault(), DecodeFault::UnknownDiscriminant);
    assert_eq!(error.get_path(), &vec![PathStep::Field("modelType".to_string())]);
    assert_eq!(DataElement::decode(&wire).unwrap_err().get_fault(), DecodeFault::UnknownDiscriminant);
    assert_eq!(Referable::decode(&wire).unwrap_err().get_fault(), DecodeFault::UnknownDiscriminant);
}

#[test]
fn type_name_of_a_type_that_does_not_fit_the_place_is_refused() {
    let entity = SubmodelElement::Entity(Entity::new()).encode();
    assert_eq!(DataElement::decode(&entity).unwrap_err().get_fault(), DecodeFault::UnknownDiscriminant);
    let submodel = Referable::Submodel(Submodel::new("sm".to_string())).encode();
    assert_eq!(
        SubmodelElement::decode(&submodel).unwrap_err().get_fault(),
        DecodeFault::UnknownDiscriminant
    );
    let property = DataElement::Property(Property::new(DataTypeDefXsd::Int)).encode();
    assert_eq!(Identifiable::decode(&property).unwrap_err().get_fault(), DecodeFault::UnknownDiscriminant);
    assert_eq!(HasExtensions::decode(&property).unwrap_err().get_fault(), DecodeFault::UnknownDiscriminant);
}

#[test]
fn type_names_are_case_sensitive() {
    let mut wire = Property::new(DataTypeDefXsd::Int).encode();
    if let Wire::Record(fields) = &mut wire {
        fields.insert(0, Field::new("modelType", text("property")));
    }
    assert_eq!(SubmodelElement::decode(&wire).unwrap_err().get_fault(), DecodeFault::UnknownDiscriminant);
}

#[test]
fn missing_type_name_is_refused() {
    let wire = Property::new(DataTypeDefXsd::Int).encode();
    let error = SubmodelElement::decode(&wire).unwrap_err();
    assert_eq!(error.get_fault(), DecodeFault::MissingField);
    assert_eq!(error.get_path(), &vec![PathStep::Field("modelType".to_string())]);
}

#[test]
fn type_name_that_is_no_text_is_refused() {
    let wire = Wire::Record(vec![Field::new("modelType", Wire::Bool(true))]);
    let error = SubmodelElement::decode(&wire).unwrap_err();
    assert_eq!(error.get_fault(), DecodeFault::ExpectedText);
    assert_eq!(error.get_path(), &vec![PathStep::Field("modelType".to_string())]);
}

#[test]
fn union_that_is_no_record_is_refused() {
    let error = SubmodelElement::decode(&Wire::List(vec![])).unwrap_err();
    assert_eq!(error.get_fault(), DecodeFault::ExpectedRecord);
    assert!(error.get_path().is_empty());
}

#[test]
fn referable_union_hands_calls_to_the_variant() {
    let mut element = Referable::Entity(Entity::new());
    element.set_id_short("Robot".to_string());
    element.set_category("PARAMETER".to_string());
    element.add_display_name(MultiLanguageNameType::new("en".to_string(), "Robot".to_string()));
    element.add_description(MultiLanguageTextType::new("en".to_string(), "A robot".to_string()));
    assert_eq!(element.get_id_short(), Some(&"Robot".to_string()));
    assert_eq!(element.get_category(), Some(&"PARAMETER".to_string()));
    assert_eq!(element.get_display_name().len(), 1);
    assert_eq!(element.get_description().len(), 1);
    if let Some(id_short) = element.get_mut_id_short() {
        id_short.push_str("-1");
    }
    let mut expected = Entity::new();
    expected.set_id_short("Robot-1".to_string());
    expected.set_category("PARAMETER".to_string());
    expected.add_display_name(MultiLanguageNameType::new("en".to_string(), "Robot".to_string()));
    expected.add_description(MultiLanguageTextType::new("en".to_string(), "A robot".to_string()));
    assert_eq!(element, Referable::Entity(expected));
    assert_eq!(element.remove_display_name(1), Err(ModelError::IndexOutOfRange));
    assert!(element.remove_display_name(0).is_ok());
}

#[test]
fn boxed_variant_of_referable_is_reached_through_the_union() {
    let mut element = Referable::BasicEventElement(Box::new(event()));
    assert_eq!(element.get_id_short(), None);
    element.set_id_short("Changed".to_string());
    assert_eq!(element.get_id_short(), Some(&"Changed".to_string()));
    match &element {
        Referable::BasicEventElement(inner) => {
            assert_eq!(inner.get_id_short(), Some(&"Changed".to_string()))
        },
        other => panic!("variant changed to {:?}", other),
    }
}

#[test]
fn submodel_element_union_hands_calls_to_the_variant() {
    let mut element = SubmodelElement::Range(Range::new(DataTypeDefXsd::Int));
    element.set_id_short("Limits".to_string());
    element.set_semantic_id(external("semantics"));
    element.add_supplemental_semantic_id(external("more"));
    element.add_qualifier(Qualifier::new("q".to_string(), DataTypeDefXsd::Int));
    assert_eq!(element.get_semantic_id(), Some(&external("semantics")));
    assert_eq!(element.get_supplemental_semantic_ids(), &vec![external("more")]);
    assert_eq!(element.get_qualifiers().len(), 1);
    match &element {
        SubmodelElement::Range(range) => {
            assert_eq!(range.get_id_short(), Some(&"Limits".to_string()));
            assert_eq!(range.get_qualifiers().len(), 1);
        },
        other => panic!("variant changed to {:?}", other),
    }
}

#[test]
fn other_unions_hand_calls_to_the_variant() {
    let mut semantic = HasSemantics::Qualifier(Qualifier::new("q".to_string(), DataTypeDefXsd::Int));
    semantic.set_semantic_id(external("s"));
    assert_eq!(semantic.get_semantic_id(), Some(&external("s")));
    assert_eq!(semantic.remove_supplemental_semantic_id(0), Err(ModelError::IndexOutOfRange));

    let mut qualifiable = Qualifiable::Capability(Capability::new());
    qualifiable.add_qualifier(Qualifier::new("q".to_string(), DataTypeDefXsd::Int));
    assert_eq!(qualifiable.get_qualifiers().len(), 1);

    let mut extensible = HasExtensions::Submodel(Submodel::new("sm".to_string()));
    extensible.add_extension(Extension::new("e".to_string()));
    assert_eq!(extensible.get_extensions(), &vec![Extension::new("e".to_string())]);

    let mut identifiable = Identifiable::ConceptDescription(ConceptDescription::new("cd".to_string()));
    assert_eq!(identifiable.get_id(), "cd");
    identifiable.set_id("cd-2".to_string());
    identifiable.set_id_short("Concept".to_string());
    identifiable.set_administration(AdministrativeInformation::new());
    assert_eq!(identifiable.get_id(), "cd-2");
    assert_eq!(identifiable.get_id_short(), Some(&"Concept".to_string()));
    assert_eq!(identifiable.get_administration(), Some(&AdministrativeInformation::new()));

    let mut relation = RelationshipElement::AnnotatedRelationshipElement(AnnotatedRelationshipElement::new());
    relation.set_first(external("first"));
    relation.set_second(external("second"));
    assert_eq!(relation.get_first(), Some(&external("first")));
    assert_eq!(relation.get_second(), Some(&external("second")));
}
