use aas_model::enumerations::aas_submodel_elements::AasSubmodelElements;
use aas_model::enumerations::asset_kind::AssetKind;
use aas_model::enumerations::data_type_def_xsd::DataTypeDefXsd;
use aas_model::enumerations::direction::Direction;
use aas_model::enumerations::interface_enumerations::data_element::DataElement;
use aas_model::enumerations::interface_enumerations::referable::Referable;
use aas_model::enumerations::interface_enumerations::submodel_element::SubmodelElement;
use aas_model::enumerations::key_type::KeyType;
use aas_model::enumerations::reference_type::ReferenceType;
use aas_model::enumerations::state_of_event::StateOfEvent;
use aas_model::structs::annotated_relationship_element::AnnotatedRelationshipElement;
use aas_model::structs::asset_administration_shell::AssetAdministrationShell;
use aas_model::structs::asset_information::AssetInformation;
use aas_model::structs::basic_event_element::BasicEventElement;
use aas_model::structs::capability::Capability;
use aas_model::structs::concept_description::ConceptDescription;
use aas_model::structs::entity::Entity;
use aas_model::structs::environment::Environment;
use aas_model::structs::key::Key;
use aas_model::structs::multi_language_name_type::MultiLanguageNameType;
use aas_model::structs::multi_language_property::MultiLanguageProperty;
use aas_model::structs::multi_language_text_type::MultiLanguageTextType;
use aas_model::structs::operation::Operation;
use aas_model::structs::operation_variable::OperationVariable;
use aas_model::structs::property::Property;
use aas_model::structs::range::Range;
use aas_model::structs::reference::Reference;
use aas_model::structs::submodel::Submodel;
use aas_model::structs::submodel_element_collection::SubmodelElementCollection;
use aas_model::structs::submodel_element_list::SubmodelElementList;
use aas_model::traits::referable::TReferable;
use aas_model::validation::all_distinct;

fn named(id_short: &str) -> SubmodelElement {
    let mut property = Property::new(DataTypeDefXsd::String);
    property.set_id_short(id_short.to_string());
    SubmodelElement::Property(property)
}

fn unnamed() -> SubmodelElement {
    SubmodelElement::Capability(Capability::new())
}

fn name(language: &str) -> MultiLanguageNameType {
    MultiLanguageNameType::new(language.to_string(), "name".to_string())
}

fn text(language: &str) -> MultiLanguageTextType {
    MultiLanguageTextType::new(language.to_string(), "text".to_string())
}

#[test]
fn distinct_texts() {
    let a = "a".to_string();
    let b = "b".to_string();
    let a2 = "a".to_string();
    assert!(all_distinct(&vec![]));
    assert!(all_distinct(&vec![&a]));
    assert!(all_distinct(&vec![&a, &b]));
    assert!(!all_distinct(&vec![&a, &a2]));
    assert!(!all_distinct(&vec![&a, &b, &a2]));
    assert!(!all_distinct(&vec![&b, &a, &a2]));
}

#[test]
fn languages_must_not_repeat() {
    assert!(MultiLanguageNameType::languages_distinct(&vec![]));
    assert!(MultiLanguageNameType::languages_distinct(&vec![name("en"), name("de")]));
    assert!(!MultiLanguageNameType::languages_distinct(&vec![name("en"), name("de"), name("en")]));
    assert!(MultiLanguageNameType::languages_distinct(&vec![name("en"), name("EN")]));
    assert!(MultiLanguageTextType::languages_distinct(&vec![text("en"), text("fr")]));
    assert!(!MultiLanguageTextType::languages_distinct(&vec![text("fr"), text("fr")]));
}

#[test]
fn short_ids_of_siblings_must_not_repeat() {
    assert!(SubmodelElement::id_shorts_distinct(&vec![]));
    assert!(SubmodelElement::id_shorts_distinct(&vec![named("a"), named("b"), unnamed()]));
    assert!(SubmodelElement::id_shorts_distinct(&vec![unnamed(), unnamed(), unnamed()]));
    assert!(!SubmodelElement::id_shorts_distinct(&vec![named("a"), unnamed(), named("a")]));
    assert!(!SubmodelElement::id_shorts_distinct(&vec![named("a"), named("a")]));
    let mut x = Property::new(DataTypeDefXsd::Int);
    x.set_id_short("x".to_string());
    assert!(!DataElement::id_shorts_distinct(&vec![
        DataElement::Property(x.clone()),
        DataElement::Property(x),
    ]));
}

#[test]
fn fresh_elements_are_consistent() {
    assert!(Environment::new().is_consistent());
    assert!(Submodel::new("sm".to_string()).is_consistent());
    assert!(Entity::new().is_consistent());
    assert!(Operation::new().is_consistent());
    assert!(Property::new(DataTypeDefXsd::Int).is_consistent());
    assert!(named("a").is_consistent());
}

#[test]
fn empty_id_is_inconsistent() {
    assert!(!Submodel::new(String::new()).is_consistent());
    assert!(!ConceptDescription::new(String::new()).is_consistent());
    assert!(!AssetAdministrationShell::new(String::new(), AssetInformation::new(AssetKind::Type)).is_consistent());
    let mut environment = Environment::new();
    environment.add_submodel(Submodel::new(String::new()));
    assert!(!environment.is_consistent());
}

#[test]
fn repeated_language_in_a_description_is_inconsistent() {
    let mut property = Property::new(DataTypeDefXsd::Int);
    property.add_description(text("en"));
    property.add_description(text("de"));
    assert!(property.is_consistent());
    property.add_description(text("en"));
    assert!(!property.is_consistent());

    let mut capability = Capability::new();
    capability.add_display_name(name("en"));
    capability.add_display_name(name("en"));
    assert!(!capability.is_consistent());

    let mut value = MultiLanguageProperty::new();
    value.add_value(text("en"));
    assert!(value.is_consistent());
    value.add_value(text("en"));
    assert!(!value.is_consistent());
}

#[test]
fn repeated_short_id_among_siblings_is_inconsistent() {
    let mut submodel = Submodel::new("sm".to_string());
    submodel.add_submodel_element(named("a"));
    submodel.add_submodel_element(named("b"));
    assert!(submodel.is_consistent());
    submodel.add_submodel_element(named("a"));
    assert!(!submodel.is_consistent());
    assert_eq!(submodel.remove_submodel_element(2).map(|_| ()), Ok(()));
    assert!(submodel.is_consistent());
}

#[test]
fn same_short_id_in_different_containers_is_consistent() {
    let mut inner = SubmodelElementCollection::new();
    inner.set_id_short("group".to_string());
    inner.add_value(named("a"));
    let mut submodel = Submodel::new("sm".to_string());
    submodel.add_submodel_element(named("a"));
    submodel.add_submodel_element(SubmodelElement::SubmodelElementCollection(inner));
    assert!(submodel.is_consistent());
}

#[test]
fn inconsistency_deep_in_the_tree_is_found() {
    let mut innermost = Entity::new();
    innermost.add_statement(named("x"));
    innermost.add_statement(named("x"));
    let mut operation = Operation::new();
    operation.add_output_variable(OperationVariable::new(SubmodelElement::Entity(innermost)));
    let mut collection = SubmodelElementCollection::new();
    collection.add_value(SubmodelElement::Operation(operation));
    let mut submodel = Submodel::new("sm".to_string());
    submodel.add_submodel_element(SubmodelElement::SubmodelElementCollection(collection));
    assert!(!submodel.is_consistent());
    let mut environment = Environment::new();
    environment.add_submodel(submodel);
    assert!(!environment.is_consistent());
}

#[test]
fn inconsistency_in_annotations_and_brokers_is_found() {
    let mut x = Property::new(DataTypeDefXsd::Int);
    x.set_id_short("x".to_string());
    let mut annotated = AnnotatedRelationshipElement::new();
    annotated.add_data_element(DataElement::Property(x.clone()));
    assert!(annotated.is_consistent());
    annotated.add_data_element(DataElement::Property(x));
    assert!(!annotated.is_consistent());

    let observed = Reference::new(
        ReferenceType::ExternalReference,
        vec![Key::new(KeyType::GlobalReference, "o".to_string())],
    )
    .unwrap();
    let mut event = BasicEventElement::new(observed, Direction::Input, StateOfEvent::On);
    event.set_message_broker(Referable::Submodel(Submodel::new("broker".to_string())));
    assert!(event.is_consistent());
    event.set_message_broker(Referable::Submodel(Submodel::new(String::new())));
    assert!(!event.is_consistent());
}

#[test]
fn ids_of_one_environment_must_not_repeat() {
    let mut environment = Environment::new();
    environment.add_submodel(Submodel::new("a".to_string()));
    environment.add_submodel(Submodel::new("b".to_string()));
    environment.add_concept_description(ConceptDescription::new("c".to_string()));
    environment.add_asset_administration_shell(AssetAdministrationShell::new(
        "d".to_string(),
        AssetInformation::new(AssetKind::Instance),
    ));
    assert!(environment.ids_distinct());
    assert!(environment.is_consistent());
    environment.add_concept_description(ConceptDescription::new("a".to_string()));
    assert!(!environment.ids_distinct());
    assert!(!environment.is_consistent());
}

#[test]
fn all_consistent_looks_at_every_element() {
    assert!(SubmodelElement::all_consistent(&vec![]));
    assert!(SubmodelElement::all_consistent(&vec![named("a"), named("a")]));
    let mut bad = Property::new(DataTypeDefXsd::Int);
    bad.add_display_name(name("en"));
    bad.add_display_name(name("en"));
    assert!(!SubmodelElement::all_consistent(&vec![named("a"), SubmodelElement::Property(bad)]));
}

#[test]
fn kinds_of_submodel_elements() {
    let property = named("p");
    let capability = unnamed();
    let entity = SubmodelElement::Entity(Entity::new());
    let annotated = SubmodelElement::AnnotatedRelationshipElement(AnnotatedRelationshipElement::new());
    assert!(property.is_of_kind(AasSubmodelElements::Property));
    assert!(property.is_of_kind(AasSubmodelElements::DataElement));
    assert!(property.is_of_kind(AasSubmodelElements::SubmodelElement));
    assert!(!property.is_of_kind(AasSubmodelElements::Range));
    assert!(!property.is_of_kind(AasSubmodelElements::Entity));
    assert!(!property.is_of_kind(AasSubmodelElements::EventElement));
    assert!(capability.is_of_kind(AasSubmodelElements::Capability));
    assert!(!capability.is_of_kind(AasSubmodelElements::DataElement));
    assert!(entity.is_of_kind(AasSubmodelElements::Entity));
    assert!(entity.is_of_kind(AasSubmodelElements::SubmodelElement));
    assert!(!entity.is_of_kind(AasSubmodelElements::SubmodelElementCollection));
    assert!(annotated.is_of_kind(AasSubmodelElements::AnnotatedRelationshipElement));
    assert!(annotated.is_of_kind(AasSubmodelElements::RelationshipElement));
    assert!(!annotated.is_of_kind(AasSubmodelElements::DataElement));
    let observed = Reference::new(
        ReferenceType::ExternalReference,
        vec![Key::new(KeyType::GlobalReference, "o".to_string())],
    )
    .unwrap();
    let event = SubmodelElement::BasicEventElement(BasicEventElement::new(
        observed,
        Direction::Input,
        StateOfEvent::On,
    ));
    assert!(event.is_of_kind(AasSubmodelElements::EventElement));
    assert!(event.is_of_kind(AasSubmodelElements::BasicEventElement));
    assert!(!event.is_of_kind(AasSubmodelElements::Operation));
}

#[test]
fn value_types_of_submodel_elements() {
    assert_eq!(named("p").value_type(), Some(DataTypeDefXsd::String));
    assert_eq!(
        SubmodelElement::Range(Range::new(DataTypeDefXsd::Int)).value_type(),
        Some(DataTypeDefXsd::Int)
    );
    assert_eq!(unnamed().value_type(), None);
    assert_eq!(SubmodelElement::MultiLanguageProperty(MultiLanguageProperty::new()).value_type(), None);
}

#[test]
fn list_takes_only_elements_of_its_kind() {
    let mut list = SubmodelElementList::new(AasSubmodelElements::Property);
    assert!(list.is_consistent());
    list.add_value(SubmodelElement::Property(Property::new(DataTypeDefXsd::Int)));
    list.add_value(SubmodelElement::Property(Property::new(DataTypeDefXsd::Double)));
    assert!(list.is_consistent());
    list.add_value(SubmodelElement::Range(Range::new(DataTypeDefXsd::Int)));
    assert!(!list.is_consistent());
    list.set_type_value_list_element(AasSubmodelElements::DataElement);
    assert!(list.is_consistent());
    list.add_value(unnamed());
    assert!(!list.is_consistent());
    list.set_type_value_list_element(AasSubmodelElements::SubmodelElement);
    assert!(list.is_consistent());
}

#[test]
fn list_takes_only_values_of_its_data_type() {
    let mut list = SubmodelElementList::new(AasSubmodelElements::DataElement);
    list.set_value_type_list_element(DataTypeDefXsd::Int);
    list.add_value(SubmodelElement::Property(Property::new(DataTypeDefXsd::Int)));
    list.add_value(SubmodelElement::Range(Range::new(DataTypeDefXsd::Int)));
    list.add_value(SubmodelElement::MultiLanguageProperty(MultiLanguageProperty::new()));
    assert!(list.is_consistent());
    list.add_value(SubmodelElement::Property(Property::new(DataTypeDefXsd::Long)));
    assert!(!list.is_consistent());
    assert!(SubmodelElement::all_fit(list.get_value(), AasSubmodelElements::DataElement, None));
    assert!(!SubmodelElement::all_fit(
        list.get_value(),
        AasSubmodelElements::DataElement,
        Some(DataTypeDefXsd::Int)
    ));
    assert!(!SubmodelElement::all_fit(list.get_value(), AasSubmodelElements::Property, None));
}
