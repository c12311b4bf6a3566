use aas_model::enumerations::aas_submodel_elements::AasSubmodelElements;
use aas_model::enumerations::asset_kind::AssetKind;
use aas_model::enumerations::data_type_def_xsd::DataTypeDefXsd;
use aas_model::enumerations::interface_enumerations::data_element::DataElement;
use aas_model::enumerations::interface_enumerations::has_data_specification::HasDataSpecification;
use aas_model::enumerations::interface_enumerations::submodel_element::SubmodelElement;
use aas_model::enumerations::key_type::KeyType;
use aas_model::enumerations::reference_type::ReferenceType;
use aas_model::error::ModelError;
use aas_model::structs::annotated_relationship_element::AnnotatedRelationshipElement;
use aas_model::structs::asset_administration_shell::AssetAdministrationShell;
use aas_model::structs::asset_information::AssetInformation;
use aas_model::structs::capability::Capability;
use aas_model::structs::concept_description::ConceptDescription;
use aas_model::structs::entity::Entity;
use aas_model::structs::environment::Environment;
use aas_model::structs::extension::Extension;
use aas_model::structs::key::Key;
use aas_model::structs::multi_language_name_type::MultiLanguageNameType;
use aas_model::structs::multi_language_property::MultiLanguageProperty;
use aas_model::structs::multi_language_text_type::MultiLanguageTextType;
use aas_model::structs::operation::Operation;
use aas_model::structs::operation_variable::OperationVariable;
use aas_model::structs::property::Property;
use aas_model::structs::qualifier::Qualifier;
use aas_model::structs::reference::Reference;
use aas_model::structs::specific_asset_id::SpecificAssetId;
use aas_model::structs::submodel::Submodel;
use aas_model::structs::submodel_element_collection::SubmodelElementCollection;
use aas_model::structs::submodel_element_list::SubmodelElementList;
use aas_model::traits::has_data_specification::THasDataSpecification;
use aas_model::traits::has_extensions::THasExtensions;
use aas_model::traits::has_semantics::THasSemantics;
use aas_model::traits::qualifiable::TQualifiable;
use aas_model::traits::referable::TReferable;

fn external(value: &str) -> Reference {
    Reference::new(
        ReferenceType::ExternalReference,
        vec![Key::new(KeyType::GlobalReference, value.to_string())],
    )
    .unwrap()
}

fn named_property(id_short: &str) -> SubmodelElement {
    let mut property = Property::new(DataTypeDefXsd::String);
    property.set_id_short(id_short.to_string());
    SubmodelElement::Property(property)
}

#[test]
fn add_keeps_insertion_order() {
    let mut capability = Capability::new();
    capability.add_data_specification(external("a"));
    capability.add_data_specification(external("b"));
    capability.add_data_specification(external("c"));
    let values: Vec<&String> =
        capability.get_data_specifications().iter().map(|r| r.get_keys()[0].get_value()).collect();
    assert_eq!(values, vec!["a", "b", "c"]);
}

#[test]
fn add_then_remove_last_restores_data_specifications() {
    let mut capability = Capability::new();
    capability.add_data_specification(external("a"));
    capability.add_data_specification(external("b"));
    let before = capability.clone();
    capability.add_data_specification(external("c"));
    assert_eq!(capability.remove_data_specification(2), Ok(external("c")));
    assert_eq!(capability, before);
}

#[test]
fn add_then_remove_last_restores_extensions() {
    let mut entity = Entity::new();
    let before = entity.clone();
    entity.add_extension(Extension::new("vendor".to_string()));
    assert_eq!(entity.get_extensions().len(), 1);
    assert_eq!(entity.remove_extension(0), Ok(Extension::new("vendor".to_string())));
    assert_eq!(entity, before);
}

#[test]
fn add_then_remove_last_restores_qualifiers() {
    let mut property = Property::new(DataTypeDefXsd::Int);
    property.add_qualifier(Qualifier::new("range".to_string(), DataTypeDefXsd::Int));
    let before = property.clone();
    let added = Qualifier::new("unit".to_string(), DataTypeDefXsd::String);
    property.add_qualifier(added.clone());
    assert_eq!(property.remove_qualifier(1), Ok(added));
    assert_eq!(property, before);
}

#[test]
fn add_then_remove_last_restores_supplemental_semantic_ids() {
    let mut qualifier = Qualifier::new("q".to_string(), DataTypeDefXsd::Boolean);
    let before = qualifier.clone();
    qualifier.add_supplemental_semantic_id(external("s"));
    assert_eq!(qualifier.remove_supplemental_semantic_id(0), Ok(external("s")));
    assert_eq!(qualifier, before);
}

#[test]
fn add_then_remove_last_restores_display_names_and_descriptions() {
    let mut submodel = Submodel::new("sm".to_string());
    submodel.add_display_name(MultiLanguageNameType::new("en".to_string(), "Plant".to_string()));
    submodel.add_description(MultiLanguageTextType::new("en".to_string(), "A plant".to_string()));
    let before = submodel.clone();
    submodel.add_display_name(MultiLanguageNameType::new("de".to_string(), "Anlage".to_string()));
    submodel.add_description(MultiLanguageTextType::new("de".to_string(), "Eine Anlage".to_string()));
    assert_eq!(
        submodel.remove_display_name(1),
        Ok(MultiLanguageNameType::new("de".to_string(), "Anlage".to_string()))
    );
    assert_eq!(
        submodel.remove_description(1),
        Ok(MultiLanguageTextType::new("de".to_string(), "Eine Anlage".to_string()))
    );
    assert_eq!(submodel, before);
}

#[test]
fn add_then_remove_last_restores_children() {
    let mut submodel = Submodel::new("sm".to_string());
    submodel.add_submodel_element(named_property("a"));
    let before = submodel.clone();
    submodel.add_submodel_element(named_property("b"));
    assert_eq!(submodel.remove_submodel_element(1), Ok(named_property("b")));
    assert_eq!(submodel, before);

    let mut entity = Entity::new();
    let before = entity.clone();
    entity.add_statement(named_property("s"));
    assert_eq!(entity.remove_statement(0), Ok(named_property("s")));
    assert_eq!(entity, before);

    let mut collection = SubmodelElementCollection::new();
    let before = collection.clone();
    collection.add_value(named_property("c"));
    assert_eq!(collection.remove_value(0), Ok(named_property("c")));
    assert_eq!(collection, before);

    let mut list = SubmodelElementList::new(AasSubmodelElements::Property);
    let before = list.clone();
    list.add_value(named_property("l"));
    assert_eq!(list.remove_value(0), Ok(named_property("l")));
    assert_eq!(list, before);
}

#[test]
fn add_then_remove_last_restores_operation_variables() {
    let mut operation = Operation::new();
    let before = operation.clone();
    operation.add_input_variable(OperationVariable::new(named_property("in")));
    operation.add_output_variable(OperationVariable::new(named_property("out")));
    operation.add_inoutput_variable(OperationVariable::new(named_property("both")));
    assert_eq!(operation.get_input_variables().len(), 1);
    assert_eq!(operation.remove_inoutput_variable(0), Ok(OperationVariable::new(named_property("both"))));
    assert_eq!(operation.remove_output_variable(0), Ok(OperationVariable::new(named_property("out"))));
    assert_eq!(operation.remove_input_variable(0), Ok(OperationVariable::new(named_property("in"))));
    assert_eq!(operation, before);
}

#[test]
fn add_then_remove_last_restores_the_lists_of_the_environment() {
    let mut environment = Environment::new();
    let before = environment.clone();
    environment.add_asset_administration_shell(AssetAdministrationShell::new(
        "aas".to_string(),
        AssetInformation::new(AssetKind::Instance),
    ));
    environment.add_submodel(Submodel::new("sm".to_string()));
    environment.add_concept_description(ConceptDescription::new("cd".to_string()));
    assert_eq!(environment.get_asset_administration_shells().len(), 1);
    assert_eq!(environment.get_submodels().len(), 1);
    assert_eq!(environment.get_concept_descriptions().len(), 1);
    assert_eq!(environment.remove_concept_description(0), Ok(ConceptDescription::new("cd".to_string())));
    assert_eq!(environment.remove_submodel(0), Ok(Submodel::new("sm".to_string())));
    assert!(environment.remove_asset_administration_shell(0).is_ok());
    assert_eq!(environment, before);
}

#[test]
fn remove_in_the_middle_keeps_the_order_of_the_rest() {
    let mut submodel = Submodel::new("sm".to_string());
    for name in ["a", "b", "c", "d"] {
        submodel.add_submodel_element(named_property(name));
    }
    assert_eq!(submodel.remove_submodel_element(1), Ok(named_property("b")));
    assert_eq!(
        submodel.get_submodel_elements(),
        &vec![named_property("a"), named_property("c"), named_property("d")]
    );
    assert_eq!(submodel.remove_submodel_element(0), Ok(named_property("a")));
    assert_eq!(submodel.get_submodel_elements(), &vec![named_property("c"), named_property("d")]);
}

#[test]
fn remove_from_an_empty_collection_fails_and_changes_nothing() {
    let mut capability = Capability::new();
    let before = capability.clone();
    assert_eq!(capability.remove_data_specification(0), Err(ModelError::IndexOutOfRange));
    assert_eq!(capability.remove_extension(0), Err(ModelError::IndexOutOfRange));
    assert_eq!(capability.remove_qualifier(0), Err(ModelError::IndexOutOfRange));
    assert_eq!(capability.remove_supplemental_semantic_id(0), Err(ModelError::IndexOutOfRange));
    assert_eq!(capability.remove_display_name(0), Err(ModelError::IndexOutOfRange));
    assert_eq!(capability.remove_description(0), Err(ModelError::IndexOutOfRange));
    assert_eq!(capability, before);
}

#[test]
fn remove_at_the_length_fails_and_changes_nothing() {
    let mut property = MultiLanguageProperty::new();
    property.add_value(MultiLanguageTextType::new("en".to_string(), "one".to_string()));
    property.add_value(MultiLanguageTextType::new("de".to_string(), "eins".to_string()));
    let before = property.clone();
    assert_eq!(property.remove_value(2), Err(ModelError::IndexOutOfRange));
    assert_eq!(property.remove_value(17), Err(ModelError::IndexOutOfRange));
    assert_eq!(property, before);
    assert_eq!(
        property.remove_value(1),
        Ok(MultiLanguageTextType::new("de".to_string(), "eins".to_string()))
    );
}

#[test]
fn set_replaces_the_whole_collection() {
    let mut annotated = AnnotatedRelationshipElement::new();
    annotated.add_data_element(DataElement::Property(Property::new(DataTypeDefXsd::Int)));
    annotated.set_annotations(vec![
        DataElement::Property(Property::new(DataTypeDefXsd::Long)),
        DataElement::MultiLanguageProperty(MultiLanguageProperty::new()),
    ]);
    assert_eq!(annotated.get_data_elements().len(), 2);
    assert_eq!(
        annotated.remove_data_element(0),
        Ok(DataElement::Property(Property::new(DataTypeDefXsd::Long)))
    );
    annotated.set_qualifiers(vec![]);
    assert!(annotated.get_qualifiers().is_empty());
}

#[test]
fn changes_through_a_borrowed_collection_are_kept() {
    let mut entity = Entity::new();
    entity.get_mut_statements().push(named_property("pushed"));
    entity.get_mut_extensions().push(Extension::new("e".to_string()));
    entity.get_mut_qualifiers().push(Qualifier::new("q".to_string(), DataTypeDefXsd::Int));
    entity.get_mut_data_specifications().push(external("d"));
    entity.get_mut_supplemental_semantic_ids().push(external("s"));
    entity.get_mut_specific_asset_ids().push(SpecificAssetId::new("serial".to_string(), "1".to_string()));
    assert_eq!(entity.get_statements(), &vec![named_property("pushed")]);
    assert_eq!(entity.get_extensions().len(), 1);
    assert_eq!(entity.get_qualifiers().len(), 1);
    assert_eq!(entity.get_data_specifications(), &vec![external("d")]);
    assert_eq!(entity.get_supplemental_semantic_ids(), &vec![external("s")]);
    assert_eq!(entity.get_specific_asset_ids().len(), 1);
}

#[test]
fn asset_information_removes_and_returns_specific_asset_ids() {
    let mut information = AssetInformation::new(AssetKind::Type);
    information.add_specific_asset_id(SpecificAssetId::new("serial".to_string(), "42".to_string()));
    assert_eq!(
        information.remove_specific_asset_id(0),
        Ok(SpecificAssetId::new("serial".to_string(), "42".to_string()))
    );
    assert_eq!(information.remove_specific_asset_id(0), Err(ModelError::IndexOutOfRange));
}

#[test]
fn union_hands_collection_edits_to_the_variant() {
    let mut element = HasDataSpecification::Property(Property::new(DataTypeDefXsd::Int));
    element.add_data_specification(external("a"));
    element.add_data_specification(external("b"));
    assert_eq!(element.get_data_specifications().len(), 2);
    assert_eq!(element.remove_data_specification(0), Ok(external("a")));
    assert_eq!(element.remove_data_specification(1), Err(ModelError::IndexOutOfRange));
    element.set_data_specifications(vec![external("c")]);
    element.get_mut_data_specifications().push(external("d"));
    let mut expected = Property::new(DataTypeDefXsd::Int);
    expected.set_data_specifications(vec![external("c"), external("d")]);
    assert_eq!(element, HasDataSpecification::Property(expected));
}
