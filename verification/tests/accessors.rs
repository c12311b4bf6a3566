use aas_model::enumerations::aas_submodel_elements::AasSubmodelElements;
use aas_model::enumerations::asset_kind::AssetKind;
use aas_model::enumerations::data_type_def_xsd::DataTypeDefXsd;
use aas_model::enumerations::direction::Direction;
use aas_model::enumerations::entity_type::EntityType;
use aas_model::enumerations::interface_enumerations::referable::Referable;
use aas_model::enumerations::interface_enumerations::submodel_element::SubmodelElement;
use aas_model::enumerations::key_type::KeyType;
use aas_model::enumerations::modelling_kind::ModellingKind;
use aas_model::enumerations::qualifier_kind::QualifierKind;
use aas_model::enumerations::reference_type::ReferenceType;
use aas_model::enumerations::state_of_event::StateOfEvent;
use aas_model::structs::administrative_information::AdministrativeInformation;
use aas_model::structs::annotated_relationship_element::AnnotatedRelationshipElement;
use aas_model::structs::asset_administration_shell::AssetAdministrationShell;
use aas_model::structs::asset_information::AssetInformation;
use aas_model::structs::basic_event_element::BasicEventElement;
use aas_model::structs::blob::Blob;
use aas_model::structs::capability::Capability;
use aas_model::structs::concept_description::ConceptDescription;
use aas_model::structs::entity::Entity;
use aas_model::structs::event_payload::EventPayload;
use aas_model::structs::extension::Extension;
use aas_model::structs::file::File;
use aas_model::structs::key::Key;
use aas_model::structs::multi_language_name_type::MultiLanguageNameType;
use aas_model::structs::multi_language_property::MultiLanguageProperty;
use aas_model::structs::multi_language_text_type::MultiLanguageTextType;
use aas_model::structs::operation_variable::OperationVariable;
use aas_model::structs::property::Property;
use aas_model::structs::qualifier::Qualifier;
use aas_model::structs::range::Range;
use aas_model::structs::reference::Reference;
use aas_model::structs::reference_element::ReferenceElement;
use aas_model::structs::resource::Resource;
use aas_model::structs::specific_asset_id::SpecificAssetId;
use aas_model::structs::submodel::Submodel;
use aas_model::structs::submodel_element_list::SubmodelElementList;
use aas_model::traits::has_data_specification::THasDataSpecification;
use aas_model::traits::has_extensions::THasExtensions;
use aas_model::traits::has_kind::THasKind;
use aas_model::traits::has_semantics::THasSemantics;
use aas_model::traits::identifiable::TIdentifiable;
use aas_model::traits::qualifiable::TQualifiable;
use aas_model::traits::referable::TReferable;
use aas_model::traits::relationship_element::TRelationshipElement;

fn external(value: &str) -> Reference {
    Reference::new(
        ReferenceType::ExternalReference,
        vec![Key::new(KeyType::GlobalReference, value.to_string())],
    )
    .unwrap()
}

fn s(text: &str) -> String {
    text.to_string()
}

#[test]
fn key_accessors() {
    let mut key = Key::new(KeyType::Submodel, s("sm"));
    assert_eq!(*key.get_key_type(), KeyType::Submodel);
    assert_eq!(key.get_value(), "sm");
    key.set_key_type(KeyType::Property);
    key.set_value(s("p"));
    assert_eq!(key, Key::new(KeyType::Property, s("p")));
    *key.get_mut_key_type() = KeyType::Blob;
    key.get_mut_value().push('!');
    assert_eq!(key, Key::new(KeyType::Blob, s("p!")));
}

#[test]
fn language_text_accessors() {
    let mut name = MultiLanguageNameType::new(s("en"), s("Name"));
    assert_eq!(name.get_language(), "en");
    assert_eq!(name.get_text(), "Name");
    name.set_language(s("de"));
    name.set_text(s("Namen"));
    name.get_mut_text().pop();
    *name.get_mut_language() = s("nl");
    assert_eq!(name, MultiLanguageNameType::new(s("nl"), s("Name")));

    let mut text = MultiLanguageTextType::new(s("en"), s("Text"));
    text.set_language(s("fr"));
    text.set_text(s("Texte"));
    assert_eq!(text.get_language(), "fr");
    assert_eq!(text.get_text(), "Texte");
    text.get_mut_language().make_ascii_uppercase();
    text.get_mut_text().clear();
    assert_eq!(text, MultiLanguageTextType::new(s("FR"), s("")));
}

#[test]
fn resource_accessors() {
    let mut resource = Resource::new(s("/a"));
    assert_eq!(resource.get_path(), "/a");
    assert_eq!(resource.get_content_type(), None);
    resource.set_path(s("/b"));
    resource.set_content_type(s("image/png"));
    assert_eq!(resource.get_path(), "/b");
    assert_eq!(resource.get_content_type(), Some(&s("image/png")));
}

#[test]
fn optional_values_are_absent_until_set() {
    let property = Property::new(DataTypeDefXsd::Int);
    assert_eq!(property.get_value(), None);
    assert_eq!(property.get_value_id(), None);
    assert_eq!(property.get_category(), None);
    assert_eq!(property.get_id_short(), None);
    assert_eq!(property.get_semantic_id(), None);
    assert!(property.get_display_name().is_empty());
    assert!(property.get_description().is_empty());
    assert!(property.get_supplemental_semantic_ids().is_empty());
    assert!(property.get_qualifiers().is_empty());
    assert!(property.get_data_specifications().is_empty());
}

#[test]
fn empty_text_is_a_value_and_not_absence() {
    let mut property = Property::new(DataTypeDefXsd::String);
    property.set_value(s(""));
    property.set_id_short(s(""));
    assert_eq!(property.get_value(), Some(&s("")));
    assert_eq!(property.get_id_short(), Some(&s("")));
    assert_ne!(property, Property::new(DataTypeDefXsd::String));
    assert_eq!(Property::decode(&property.encode()), Ok(property));
}

#[test]
fn property_accessors() {
    let mut property = Property::new(DataTypeDefXsd::Int);
    assert_eq!(*property.get_value_type(), DataTypeDefXsd::Int);
    property.set_value_type(DataTypeDefXsd::Long);
    property.set_value(s("7"));
    property.set_value_id(external("v"));
    assert_eq!(*property.get_value_type(), DataTypeDefXsd::Long);
    assert_eq!(property.get_value(), Some(&s("7")));
    assert_eq!(property.get_value_id(), Some(&external("v")));
}

#[test]
fn referable_accessors() {
    let mut capability = Capability::new();
    capability.set_category(s("c"));
    capability.set_id_short(s("i"));
    assert_eq!(capability.get_category(), Some(&s("c")));
    assert_eq!(capability.get_id_short(), Some(&s("i")));
    capability.get_mut_category().unwrap().push('2');
    capability.get_mut_id_short().unwrap().push('2');
    assert_eq!(capability.get_category(), Some(&s("c2")));
    assert_eq!(capability.get_id_short(), Some(&s("i2")));
    capability.set_display_name(vec![MultiLanguageNameType::new(s("en"), s("n"))]);
    capability.set_description(vec![MultiLanguageTextType::new(s("en"), s("d"))]);
    capability.get_mut_display_name().push(MultiLanguageNameType::new(s("de"), s("n")));
    capability.get_mut_description().clear();
    assert_eq!(capability.get_display_name().len(), 2);
    assert!(capability.get_description().is_empty());
    assert!(Capability::new().get_mut_category().is_none());
}

#[test]
fn semantics_accessors() {
    let mut qualifier = Qualifier::new(s("q"), DataTypeDefXsd::Int);
    assert_eq!(qualifier.get_semantic_id(), None);
    assert!(qualifier.get_mut_semantic_id().is_none());
    qualifier.set_semantic_id(external("a"));
    qualifier.get_mut_semantic_id().unwrap().add_key(Key::new(KeyType::FragmentReference, s("f")));
    assert_eq!(qualifier.get_semantic_id().unwrap().get_keys().len(), 2);
    qualifier.set_supplemental_semantic_ids(vec![external("b")]);
    qualifier.get_mut_supplemental_semantic_ids().push(external("c"));
    assert_eq!(qualifier.get_supplemental_semantic_ids(), &vec![external("b"), external("c")]);
}

#[test]
fn qualifier_accessors() {
    let mut qualifier = Qualifier::new(s("q"), DataTypeDefXsd::Int);
    assert_eq!(qualifier.get_kind(), None);
    assert_eq!(qualifier.get_qualifier_type(), "q");
    assert_eq!(*qualifier.get_value_type(), DataTypeDefXsd::Int);
    qualifier.set_kind(QualifierKind::ConceptQualifier);
    qualifier.set_qualifier_type(s("r"));
    qualifier.set_value_type(DataTypeDefXsd::Date);
    qualifier.set_value(s("2024-01-01"));
    qualifier.set_value_id(external("v"));
    assert_eq!(qualifier.get_kind(), Some(&QualifierKind::ConceptQualifier));
    assert_eq!(qualifier.get_qualifier_type(), "r");
    assert_eq!(*qualifier.get_value_type(), DataTypeDefXsd::Date);
    assert_eq!(qualifier.get_value(), Some(&s("2024-01-01")));
    assert_eq!(qualifier.get_value_id(), Some(&external("v")));
}

#[test]
fn extension_accessors() {
    let mut extension = Extension::new(s("e"));
    assert_eq!(extension.get_name(), "e");
    assert_eq!(extension.get_value_type(), None);
    assert_eq!(extension.get_value(), None);
    extension.set_name(s("f"));
    extension.set_value_type(DataTypeDefXsd::Int);
    extension.set_value(s("1"));
    extension.set_refers_to(vec![external("r")]);
    extension.add_refers_to(external("s"));
    *extension.get_mut_value_type().unwrap() = DataTypeDefXsd::Long;
    extension.get_mut_value().unwrap().push('0');
    extension.get_mut_name().push('!');
    extension.get_mut_refers_to().reverse();
    assert_eq!(extension.get_name(), "f!");
    assert_eq!(extension.get_value_type(), Some(&DataTypeDefXsd::Long));
    assert_eq!(extension.get_value(), Some(&s("10")));
    assert_eq!(extension.get_refers_to(), &vec![external("s"), external("r")]);
    assert_eq!(extension.remove_refers_to(0), Ok(external("s")));
}

#[test]
fn specific_asset_id_accessors() {
    let mut id = SpecificAssetId::new(s("n"), s("v"));
    assert_eq!(id.get_name(), "n");
    assert_eq!(id.get_value(), "v");
    assert_eq!(id.get_external_subject_id(), None);
    id.set_name(s("m"));
    id.set_value(s("w"));
    id.set_external_subject_id(external("x"));
    id.get_mut_name().push('1');
    id.get_mut_value().push('2');
    assert!(id.get_mut_external_subject_id().is_some());
    assert_eq!(id.get_name(), "m1");
    assert_eq!(id.get_value(), "w2");
    assert_eq!(id.get_external_subject_id(), Some(&external("x")));
}

#[test]
fn administrative_information_accessors() {
    let mut administration = AdministrativeInformation::new();
    assert_eq!(administration.get_version(), None);
    assert!(administration.get_mut_version().is_none());
    administration.set_version(s("1"));
    administration.set_revision(s("2"));
    administration.set_creator(external("c"));
    administration.set_template_id(s("t"));
    administration.get_mut_version().unwrap().push('a');
    administration.get_mut_revision().unwrap().push('b');
    administration.get_mut_template_id().unwrap().push('c');
    assert!(administration.get_mut_creator().is_some());
    assert_eq!(administration.get_version(), Some(&s("1a")));
    assert_eq!(administration.get_revision(), Some(&s("2b")));
    assert_eq!(administration.get_template_id(), Some(&s("tc")));
    assert_eq!(administration.get_creator(), Some(&external("c")));
}

#[test]
fn asset_information_accessors() {
    let mut information = AssetInformation::new(AssetKind::Type);
    assert_eq!(*information.get_asset_kind(), AssetKind::Type);
    information.set_asset_kind(AssetKind::Role);
    information.set_global_asset_id(s("g"));
    information.set_asset_type(s("t"));
    information.set_default_thumbnail(Resource::new(s("/t")));
    information.set_specific_asset_ids(vec![SpecificAssetId::new(s("n"), s("v"))]);
    assert_eq!(*information.get_asset_kind(), AssetKind::Role);
    assert_eq!(information.get_global_asset_id(), Some(&s("g")));
    assert_eq!(information.get_asset_type(), Some(&s("t")));
    assert_eq!(information.get_default_thumbnail(), Some(&Resource::new(s("/t"))));
    assert_eq!(information.get_specific_asset_ids().len(), 1);
}

#[test]
fn data_element_accessors() {
    let mut range = Range::new(DataTypeDefXsd::Int);
    range.set_value_type(DataTypeDefXsd::Short);
    range.set_min(s("0"));
    range.set_max(s("9"));
    assert_eq!(*range.get_value_type(), DataTypeDefXsd::Short);
    assert_eq!(range.get_min(), Some(&s("0")));
    assert_eq!(range.get_max(), Some(&s("9")));

    let mut blob = Blob::new(s("a/b"));
    blob.set_content_type(s("c/d"));
    blob.set_value(s("AA=="));
    assert_eq!(blob.get_content_type(), "c/d");
    assert_eq!(blob.get_value(), Some(&s("AA==")));

    let mut file = File::new(s("a/b"));
    file.set_content_type(s("c/d"));
    file.set_value(s("/f"));
    assert_eq!(file.get_content_type(), "c/d");
    assert_eq!(file.get_value(), Some(&s("/f")));

    let mut element = ReferenceElement::new();
    assert_eq!(element.get_value(), None);
    element.set_value(external("r"));
    assert_eq!(element.get_value(), Some(&external("r")));

    let mut property = MultiLanguageProperty::new();
    property.set_value(vec![MultiLanguageTextType::new(s("en"), s("v"))]);
    property.set_value_id(external("v"));
    assert_eq!(property.get_value().len(), 1);
    assert_eq!(property.get_value_id(), Some(&external("v")));
}

#[test]
fn relationship_accessors() {
    let mut element = AnnotatedRelationshipElement::new();
    assert_eq!(element.get_first(), None);
    assert_eq!(element.get_second(), None);
    assert!(element.get_mut_first().is_none());
    element.set_first(external("a"));
    element.set_second(external("b"));
    element.get_mut_second().unwrap().add_key(Key::new(KeyType::FragmentReference, s("f")));
    assert_eq!(element.get_first(), Some(&external("a")));
    assert_eq!(element.get_second().unwrap().get_keys().len(), 2);
}

#[test]
fn entity_accessors() {
    let mut entity = Entity::new();
    assert_eq!(entity.get_entity_type(), None);
    assert!(entity.get_mut_entity_type().is_none());
    entity.set_entity_type(EntityType::CoManagedEntity);
    *entity.get_mut_entity_type().unwrap() = EntityType::SelfManagedEntity;
    entity.set_global_asset_id(s("g"));
    entity.get_mut_global_asset_id().unwrap().push('1');
    entity.set_statements(vec![SubmodelElement::Capability(Capability::new())]);
    entity.set_specific_asset_ids(vec![SpecificAssetId::new(s("n"), s("v"))]);
    assert_eq!(entity.get_entity_type(), Some(&EntityType::SelfManagedEntity));
    assert_eq!(entity.get_global_asset_id(), Some(&s("g1")));
    assert_eq!(entity.get_statements().len(), 1);
    assert!(entity.remove_specific_asset_id(0).is_ok());
}

#[test]
fn operation_variable_accessors() {
    let mut variable = OperationVariable::new(SubmodelElement::Capability(Capability::new()));
    assert_eq!(variable.get_value(), &SubmodelElement::Capability(Capability::new()));
    variable.set_value(SubmodelElement::Entity(Entity::new()));
    variable.get_mut_value().set_id_short(s("v"));
    let mut expected = Entity::new();
    expected.set_id_short(s("v"));
    assert_eq!(variable.get_value(), &SubmodelElement::Entity(expected));
}

#[test]
fn basic_event_element_accessors() {
    let mut event = BasicEventElement::new(external("o"), Direction::Input, StateOfEvent::Off);
    assert_eq!(event.get_observed(), &external("o"));
    assert_eq!(*event.get_direction(), Direction::Input);
    assert_eq!(*event.get_state(), StateOfEvent::Off);
    assert_eq!(event.get_message_topic(), None);
    assert_eq!(event.get_message_broker(), None);
    assert_eq!(event.get_last_update(), None);
    event.set_observed(external("p"));
    event.set_direction(Direction::Output);
    event.set_state(StateOfEvent::On);
    event.set_message_topic(s("t"));
    event.set_message_broker(Referable::Capability(Capability::new()));
    event.set_last_update(s("u"));
    event.set_min_interval(s("min"));
    event.set_max_interval(s("max"));
    event.get_mut_observed().add_key(Key::new(KeyType::FragmentReference, s("f")));
    *event.get_mut_direction() = Direction::Input;
    *event.get_mut_state() = StateOfEvent::Off;
    event.get_mutable_message_topic().unwrap().push('1');
    event.get_mut_message_broker().unwrap().set_id_short(s("broker"));
    event.get_mut_last_update().unwrap().push('2');
    event.get_mut_min_interval().unwrap().push('3');
    event.get_mut_max_interval().unwrap().push('4');
    assert_eq!(event.get_observed().get_keys().len(), 2);
    assert_eq!(*event.get_direction(), Direction::Input);
    assert_eq!(*event.get_state(), StateOfEvent::Off);
    assert_eq!(event.get_message_topic(), Some(&s("t1")));
    assert_eq!(event.get_last_update(), Some(&s("u2")));
    assert_eq!(event.get_min_interval(), Some(&s("min3")));
    assert_eq!(event.get_max_interval(), Some(&s("max4")));
    let mut broker = Capability::new();
    broker.set_id_short(s("broker"));
    assert_eq!(event.get_message_broker(), Some(&Referable::Capability(broker)));
}

#[test]
fn submodel_element_list_accessors() {
    let mut list = SubmodelElementList::new(AasSubmodelElements::Property);
    assert_eq!(*list.get_type_value_list_element(), AasSubmodelElements::Property);
    assert_eq!(list.get_order_relevant(), None);
    list.set_order_relevant(true);
    list.set_type_value_list_element(AasSubmodelElements::Range);
    list.set_value_type_list_element(DataTypeDefXsd::Int);
    list.set_semantic_id_list_element(external("e"));
    list.set_value(vec![SubmodelElement::Range(Range::new(DataTypeDefXsd::Int))]);
    assert_eq!(list.get_order_relevant(), Some(&true));
    assert_eq!(*list.get_type_value_list_element(), AasSubmodelElements::Range);
    assert_eq!(list.get_value_type_list_element(), Some(&DataTypeDefXsd::Int));
    assert_eq!(list.get_semantic_id_list_element(), Some(&external("e")));
    assert_eq!(list.get_value().len(), 1);
}

#[test]
fn identifiable_accessors() {
    let mut submodel = Submodel::new(s("sm"));
    assert_eq!(submodel.get_id(), "sm");
    assert_eq!(submodel.get_administration(), None);
    assert_eq!(submodel.get_kind(), None);
    submodel.set_id(s("sm-2"));
    submodel.get_mut_id().push_str("-x");
    submodel.set_administration(AdministrativeInformation::new());
    submodel.get_mut_administration().unwrap().set_version(s("1"));
    submodel.set_kind(ModellingKind::Template);
    *submodel.get_kind_mut().unwrap() = ModellingKind::Instance;
    assert_eq!(submodel.get_id(), "sm-2-x");
    assert_eq!(submodel.get_administration().unwrap().get_version(), Some(&s("1")));
    assert_eq!(submodel.get_kind(), Some(&ModellingKind::Instance));
    submodel.set_submodel_elements(vec![SubmodelElement::Capability(Capability::new())]);
    submodel.get_mut_submodel_elements().clear();
    assert!(submodel.get_submodel_elements().is_empty());
}

#[test]
fn shell_accessors() {
    let mut shell = AssetAdministrationShell::new(s("aas"), AssetInformation::new(AssetKind::Instance));
    assert_eq!(shell.get_id(), "aas");
    assert_eq!(shell.get_derived_from(), None);
    assert_eq!(shell.get_asset_information(), &AssetInformation::new(AssetKind::Instance));
    shell.set_asset_information(AssetInformation::new(AssetKind::Type));
    shell.get_mut_asset_information().set_asset_type(s("t"));
    let parent = Reference::new(
        ReferenceType::ModelReference,
        vec![Key::new(KeyType::AssetAdministrationShell, s("parent"))],
    )
    .unwrap();
    shell.set_derived_from(parent.clone());
    assert!(shell.get_mut_derived_from().is_some());
    shell.set_submodels(vec![external("a")]);
    shell.add_submodel(external("b"));
    shell.get_mut_submodels().push(external("c"));
    assert_eq!(shell.get_derived_from(), Some(&parent));
    assert_eq!(shell.get_asset_information().get_asset_type(), Some(&s("t")));
    assert_eq!(shell.get_submodels().len(), 3);
    assert_eq!(shell.remove_submodel(1), Ok(external("b")));
}

#[test]
fn concept_description_accessors() {
    let mut concept = ConceptDescription::new(s("cd"));
    concept.set_is_case_ofs(vec![external("a")]);
    concept.add_is_case_of(external("b"));
    assert_eq!(concept.get_is_case_ofs(), &vec![external("a"), external("b")]);
    assert_eq!(concept.remove_is_case_of(0), Ok(external("a")));
    assert_eq!(concept.get_id(), "cd");
}

#[test]
fn event_payload_accessors() {
    let mut payload = EventPayload::new(external("source"), external("observable"), s("2024-01-01T00:00:00Z"));
    assert_eq!(payload.get_source(), &external("source"));
    assert_eq!(payload.get_observable_reference(), &external("observable"));
    assert_eq!(payload.get_time_stamp(), "2024-01-01T00:00:00Z");
    assert_eq!(payload.get_source_semantic_id(), None);
    assert_eq!(payload.get_observable_semantic_id(), None);
    assert_eq!(payload.get_topic(), None);
    assert_eq!(payload.get_subject_id(), None);
    assert!(payload.get_payload().is_empty());
    payload.set_source(external("s"));
    payload.set_source_semantic_id(external("ss"));
    payload.set_observable_reference(external("o"));
    payload.set_observable_semantic_id(external("os"));
    payload.set_topic(s("t"));
    payload.set_subject_id(external("subject"));
    payload.set_time_stamp(s("later"));
    payload.set_payload(vec![1, 2, 3]);
    assert_eq!(payload.get_source(), &external("s"));
    assert_eq!(payload.get_source_semantic_id(), Some(&external("ss")));
    assert_eq!(payload.get_observable_reference(), &external("o"));
    assert_eq!(payload.get_observable_semantic_id(), Some(&external("os")));
    assert_eq!(payload.get_topic(), Some(&s("t")));
    assert_eq!(payload.get_subject_id(), Some(&external("subject")));
    assert_eq!(payload.get_time_stamp(), "later");
    assert_eq!(payload.get_payload(), &vec![1, 2, 3]);
    assert_eq!(payload.clone(), payload);
}

#[test]
fn constructors_leave_everything_else_empty() {
    let entity = Entity::new();
    assert!(entity.get_statements().is_empty());
    assert!(entity.get_specific_asset_ids().is_empty());
    assert!(entity.get_extensions().is_empty());
    assert_eq!(entity.get_global_asset_id(), None);
    let shell = AssetAdministrationShell::new(s("aas"), AssetInformation::new(AssetKind::Instance));
    assert!(shell.get_submodels().is_empty());
    assert!(shell.get_extensions().is_empty());
    assert!(shell.get_data_specifications().is_empty());
    assert_eq!(shell.get_administration(), None);
    let information = AssetInformation::new(AssetKind::Instance);
    assert_eq!(information.get_global_asset_id(), None);
    assert_eq!(information.get_asset_type(), None);
    assert_eq!(information.get_default_thumbnail(), None);
    assert!(information.get_specific_asset_ids().is_empty());
}
