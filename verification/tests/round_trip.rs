use aas_model::enumerations::aas_submodel_elements::AasSubmodelElements;
use aas_model::enumerations::asset_kind::AssetKind;
use aas_model::enumerations::data_type_def_xsd::DataTypeDefXsd;
use aas_model::enumerations::direction::Direction;
use aas_model::enumerations::entity_type::EntityType;
use aas_model::enumerations::interface_enumerations::data_element::DataElement;
use aas_model::enumerations::interface_enumerations::referable::Referable;
use aas_model::enumerations::interface_enumerations::submodel_element::SubmodelElement;
use aas_model::enumerations::key_type::KeyType;
use aas_model::enumerations::modelling_kind::ModellingKind;
use aas_model::enumerations::qualifier_kind::QualifierKind;
use aas_model::enumerations::reference_type::ReferenceType;
use aas_model::enumerations::state_of_event::StateOfEvent;
use aas_model::structs::administrative_information::AdministrativeInformation;
use aas_model::structs::annotated_relationship_element::AnnotatedRelationshipElement;
use aas_model::structs::asset_administration_shell::AssetAdministrationShell;
use aas_model::structs::asset_information::AssetInformation;
use aas_model::structs::basic_event_element::BasicEventElement;
use aas_model::structs::blob::Blob;
use aas_model::structs::capability::Capability;
use aas_model::structs::concept_description::ConceptDescription;
use aas_model::structs::entity::Entity;
use aas_model::structs::environment::Environment;
use aas_model::structs::extension::Extension;
use aas_model::structs::file::File;
use aas_model::structs::key::Key;
use aas_model::structs::multi_language_name_type::MultiLanguageNameType;
use aas_model::structs::multi_language_property::MultiLanguageProperty;
use aas_model::structs::multi_language_text_type::MultiLanguageTextType;
use aas_model::structs::operation::Operation;
use aas_model::structs::operation_variable::OperationVariable;
use aas_model::structs::property::Property;
use aas_model::structs::qualifier::Qualifier;
use aas_model::structs::range::Range;
use aas_model::structs::reference::Reference;
use aas_model::structs::reference_element::ReferenceElement;
use aas_model::structs::relationship_element::RelationshipElement;
use aas_model::structs::resource::Resource;
use aas_model::structs::specific_asset_id::SpecificAssetId;
use aas_model::structs::submodel::Submodel;
use aas_model::structs::submodel_element_collection::SubmodelElementCollection;
use aas_model::structs::submodel_element_list::SubmodelElementList;
use aas_model::traits::has_data_specification::THasDataSpecification;
use aas_model::traits::has_extensions::THasExtensions;
use aas_model::traits::has_kind::THasKind;
use aas_model::traits::has_semantics::THasSemantics;
use aas_model::traits::identifiable::TIdentifiable;
use aas_model::traits::qualifiable::TQualifiable;
use aas_model::traits::referable::TReferable;
use aas_model::traits::relationship_element::TRelationshipElement;

fn external(value: &str) -> Reference {
    Reference::new(
        ReferenceType::ExternalReference,
        vec![Key::new(KeyType::GlobalReference, value.to_string())],
    )
    .unwrap()
}

fn model(value: &str) -> Reference {
    let mut reference = Reference::new(
        ReferenceType::ModelReference,
        vec![
            Key::new(KeyType::Submodel, value.to_string()),
            Key::new(KeyType::Property, "p".to_string()),
        ],
    )
    .unwrap();
    reference.set_referred_semantic_id(Box::new(external("referred")));
    reference
}

fn fill_referable<T: TReferable>(x: &mut T, name: &str) {
    x.set_category("PARAMETER".to_string());
    x.set_id_short(name.to_string());
    x.set_display_name(vec![
        MultiLanguageNameType::new("en".to_string(), format!("{} (en)", name)),
        MultiLanguageNameType::new("de".to_string(), format!("{} (de)", name)),
    ]);
    x.set_description(vec![MultiLanguageTextType::new("en".to_string(), "described".to_string())]);
}

fn full_qualifier() -> Qualifier {
    let mut qualifier = Qualifier::new("cardinality".to_string(), DataTypeDefXsd::NonNegativeInteger);
    qualifier.set_kind(QualifierKind::TemplateQualifier);
    qualifier.set_value("1".to_string());
    qualifier.set_value_id(external("value-id"));
    qualifier.set_semantic_id(external("qualifier-semantics"));
    qualifier.add_supplemental_semantic_id(external("qualifier-more"));
    qualifier
}

fn full_extension() -> Extension {
    let mut extension = Extension::new("vendor".to_string());
    extension.set_value_type(DataTypeDefXsd::AnyUri);
    extension.set_value("https://example.com".to_string());
    extension.add_refers_to(model("refers-to"));
    extension.set_semantic_id(external("extension-semantics"));
    extension.add_supplemental_semantic_id(external("extension-more"));
    extension
}

fn fill_semantics<T: THasSemantics>(x: &mut T) {
    x.set_semantic_id(external("semantics"));
    x.set_supplemental_semantic_ids(vec![external("more-1"), model("more-2")]);
}

fn fill_data_element<T: TReferable + THasSemantics + TQualifiable + THasDataSpecification>(
    x: &mut T,
    name: &str,
) {
    fill_referable(x, name);
    fill_semantics(x);
    x.add_qualifier(full_qualifier());
    x.add_qualifier(Qualifier::new("plain".to_string(), DataTypeDefXsd::String));
    x.add_data_specification(external("data-specification"));
}

fn fill_element<T: TReferable + THasExtensions + THasSemantics + TQualifiable + THasDataSpecification>(
    x: &mut T,
    name: &str,
) {
    fill_data_element(x, name);
    x.add_extension(full_extension());
    x.add_extension(Extension::new("bare".to_string()));
}

fn full_property() -> Property {
    let mut property = Property::new(DataTypeDefXsd::Double);
    property.set_value("23.5".to_string());
    property.set_value_id(external("value-id"));
    fill_data_element(&mut property, "Temperature");
    property
}

fn full_multi_language_property() -> MultiLanguageProperty {
    let mut property = MultiLanguageProperty::new();
    property.add_value(MultiLanguageTextType::new("en".to_string(), "yes".to_string()));
    property.add_value(MultiLanguageTextType::new("fr".to_string(), "oui".to_string()));
    property.set_value_id(external("value-id"));
    fill_data_element(&mut property, "Answer");
    property
}

fn full_range() -> Range {
    let mut range = Range::new(DataTypeDefXsd::Int);
    range.set_min("-5".to_string());
    range.set_max("5".to_string());
    fill_data_element(&mut range, "Limits");
    range
}

fn full_blob() -> Blob {
    let mut blob = Blob::new("application/octet-stream".to_string());
    blob.set_value("AQID".to_string());
    fill_data_element(&mut blob, "Firmware");
    blob
}

fn full_file() -> File {
    let mut file = File::new("application/pdf".to_string());
    file.set_value("/docs/manual.pdf".to_string());
    fill_data_element(&mut file, "Manual");
    file
}

fn full_reference_element() -> ReferenceElement {
    let mut element = ReferenceElement::new();
    element.set_value(model("target"));
    fill_data_element(&mut element, "Link");
    element
}

fn full_relationship_element() -> RelationshipElement {
    let mut element = RelationshipElement::new();
    element.set_first(model("first"));
    element.set_second(external("second"));
    fill_element(&mut element, "Relation");
    element
}

fn full_annotated_relationship_element() -> AnnotatedRelationshipElement {
    let mut element = AnnotatedRelationshipElement::new();
    element.set_first(model("first"));
    element.set_second(model("second"));
    element.add_data_element(DataElement::Property(full_property()));
    element.add_data_element(DataElement::Range(full_range()));
    element.add_data_element(DataElement::Blob(Blob::new("text/plain".to_string())));
    fill_element(&mut element, "Annotated");
    element
}

fn full_capability() -> Capability {
    let mut capability = Capability::new();
    fill_element(&mut capability, "Drilling");
    capability
}

fn full_specific_asset_id() -> SpecificAssetId {
    let mut id = SpecificAssetId::new("serial".to_string(), "0042".to_string());
    id.set_external_subject_id(external("subject"));
    fill_semantics(&mut id);
    id
}

fn full_entity() -> Entity {
    let mut entity = Entity::new();
    entity.set_entity_type(EntityType::SelfManagedEntity);
    entity.set_global_asset_id("urn:asset:1".to_string());
    entity.add_specific_asset_id(full_specific_asset_id());
    entity.add_statement(SubmodelElement::Property(full_property()));
    entity.add_statement(SubmodelElement::Capability(full_capability()));
    let mut inner = Entity::new();
    inner.add_statement(SubmodelElement::File(full_file()));
    entity.add_statement(SubmodelElement::Entity(inner));
    fill_element(&mut entity, "Robot");
    entity
}

fn full_operation() -> Operation {
    let mut operation = Operation::new();
    operation.add_input_variable(OperationVariable::new(SubmodelElement::Property(full_property())));
    operation.add_input_variable(OperationVariable::new(SubmodelElement::Range(full_range())));
    operation.add_output_variable(OperationVariable::new(SubmodelElement::Entity(full_entity())));
    operation.add_inoutput_variable(OperationVariable::new(SubmodelElement::Blob(full_blob())));
    fill_element(&mut operation, "Calibrate");
    operation
}

fn full_collection() -> SubmodelElementCollection {
    let mut collection = SubmodelElementCollection::new();
    collection.add_value(SubmodelElement::MultiLanguageProperty(full_multi_language_property()));
    collection.add_value(SubmodelElement::ReferenceElement(full_reference_element()));
    collection.add_value(SubmodelElement::Operation(full_operation()));
    fill_element(&mut collection, "Group");
    collection
}

fn full_list() -> SubmodelElementList {
    let mut list = SubmodelElementList::new(AasSubmodelElements::Property);
    list.set_order_relevant(false);
    list.set_semantic_id_list_element(external("element-semantics"));
    list.set_value_type_list_element(DataTypeDefXsd::Double);
    list.add_value(SubmodelElement::Property(full_property()));
    list.add_value(SubmodelElement::Property(Property::new(DataTypeDefXsd::Double)));
    fill_element(&mut list, "Samples");
    list
}

fn full_basic_event_element() -> BasicEventElement {
    let mut event = BasicEventElement::new(model("observed"), Direction::Output, StateOfEvent::On);
    event.set_message_topic("plant/line-1/temperature".to_string());
    let mut broker = BasicEventElement::new(external("inner"), Direction::Input, StateOfEvent::Off);
    broker.set_message_broker(Referable::Submodel(full_submodel_without_events()));
    event.set_message_broker(Referable::BasicEventElement(Box::new(broker)));
    event.set_last_update("2024-01-01T00:00:00Z".to_string());
    event.set_min_interval("PT1S".to_string());
    event.set_max_interval("PT1H".to_string());
    fill_element(&mut event, "Changed");
    event
}

fn full_administration() -> AdministrativeInformation {
    let mut administration = AdministrativeInformation::new();
    administration.set_version("1".to_string());
    administration.set_revision("2".to_string());
    administration.set_creator(external("creator"));
    administration.set_template_id("template".to_string());
    administration.add_data_specification(external("administration-specification"));
    administration
}

fn full_submodel_without_events() -> Submodel {
    let mut submodel = Submodel::new("https://example.com/sm/full".to_string());
    submodel.set_administration(full_administration());
    submodel.set_kind(ModellingKind::Instance);
    fill_element(&mut submodel, "TechnicalData");
    submodel.add_submodel_element(SubmodelElement::RelationshipElement(full_relationship_element()));
    submodel.add_submodel_element(SubmodelElement::AnnotatedRelationshipElement(
        full_annotated_relationship_element(),
    ));
    submodel.add_submodel_element(SubmodelElement::SubmodelElementList(full_list()));
    submodel.add_submodel_element(SubmodelElement::SubmodelElementCollection(full_collection()));
    submodel
}

fn full_submodel() -> Submodel {
    let mut submodel = full_submodel_without_events();
    submodel.add_submodel_element(SubmodelElement::BasicEventElement(full_basic_event_element()));
    submodel
}

fn full_asset_information() -> AssetInformation {
    let mut information = AssetInformation::new(AssetKind::Instance);
    information.set_global_asset_id("urn:asset:1".to_string());
    information.add_specific_asset_id(full_specific_asset_id());
    information.add_specific_asset_id(SpecificAssetId::new("batch".to_string(), "7".to_string()));
    information.set_asset_type("robot".to_string());
    let mut thumbnail = Resource::new("/thumb.png".to_string());
    thumbnail.set_content_type("image/png".to_string());
    information.set_default_thumbnail(thumbnail);
    information
}

fn full_shell() -> AssetAdministrationShell {
    let mut shell =
        AssetAdministrationShell::new("https://example.com/aas/1".to_string(), full_asset_information());
    shell.set_derived_from(model("parent-shell"));
    shell.add_submodel(model("https://example.com/sm/full"));
    shell.set_administration(full_administration());
    fill_referable(&mut shell, "Shell");
    shell.add_extension(full_extension());
    shell.add_data_specification(external("shell-specification"));
    shell
}

fn full_concept_description() -> ConceptDescription {
    let mut concept = ConceptDescription::new("https://example.com/cd/1".to_string());
    concept.add_is_case_of(external("iec-cdd"));
    concept.set_administration(full_administration());
    fill_referable(&mut concept, "Concept");
    concept.add_extension(full_extension());
    concept.add_data_specification(external("concept-specification"));
    concept
}

#[test]
fn key_round_trip() {
    let key = Key::new(KeyType::SubmodelElementList, "Samples".to_string());
    assert_eq!(Key::decode(&key.encode()), Ok(key));
    let empty = Key::new(KeyType::GlobalReference, String::new());
    assert_eq!(Key::decode(&empty.encode()), Ok(empty));
}

#[test]
fn language_text_round_trip() {
    let name = MultiLanguageNameType::new("en".to_string(), "Name".to_string());
    assert_eq!(MultiLanguageNameType::decode(&name.encode()), Ok(name));
    let text = MultiLanguageTextType::new("zh".to_string(), "\u{6e29}\u{5ea6}".to_string());
    assert_eq!(MultiLanguageTextType::decode(&text.encode()), Ok(text));
}

#[test]
fn resource_round_trip() {
    let bare = Resource::new("/a".to_string());
    assert_eq!(Resource::decode(&bare.encode()), Ok(bare));
    let mut full = Resource::new("/b.png".to_string());
    full.set_content_type("image/png".to_string());
    assert_eq!(Resource::decode(&full.encode()), Ok(full));
}

#[test]
fn reference_round_trip() {
    assert_eq!(Reference::decode(&external("x").encode()), Ok(external("x")));
    assert_eq!(Reference::decode(&model("y").encode()), Ok(model("y")));
    let mut deep = model("outer");
    deep.set_referred_semantic_id(Box::new(model("inner")));
    assert_eq!(Reference::decode(&deep.encode()), Ok(deep));
}

#[test]
fn qualifier_round_trip() {
    let bare = Qualifier::new("t".to_string(), DataTypeDefXsd::String);
    assert_eq!(Qualifier::decode(&bare.encode()), Ok(bare));
    assert_eq!(Qualifier::decode(&full_qualifier().encode()), Ok(full_qualifier()));
}

#[test]
fn extension_round_trip() {
    let bare = Extension::new("n".to_string());
    assert_eq!(Extension::decode(&bare.encode()), Ok(bare));
    assert_eq!(Extension::decode(&full_extension().encode()), Ok(full_extension()));
}

#[test]
fn specific_asset_id_round_trip() {
    let bare = SpecificAssetId::new("n".to_string(), "v".to_string());
    assert_eq!(SpecificAssetId::decode(&bare.encode()), Ok(bare));
    assert_eq!(SpecificAssetId::decode(&full_specific_asset_id().encode()), Ok(full_specific_asset_id()));
}

#[test]
fn administrative_information_round_trip() {
    let bare = AdministrativeInformation::new();
    assert_eq!(AdministrativeInformation::decode(&bare.encode()), Ok(bare));
    assert_eq!(AdministrativeInformation::decode(&full_administration().encode()), Ok(full_administration()));
}

#[test]
fn asset_information_round_trip() {
    let bare = AssetInformation::new(AssetKind::NotApplicable);
    assert_eq!(AssetInformation::decode(&bare.encode()), Ok(bare));
    assert_eq!(AssetInformation::decode(&full_asset_information().encode()), Ok(full_asset_information()));
}

#[test]
fn property_round_trip() {
    let bare = Property::new(DataTypeDefXsd::Boolean);
    assert_eq!(Property::decode(&bare.encode()), Ok(bare));
    assert_eq!(Property::decode(&full_property().encode()), Ok(full_property()));
}

#[test]
fn multi_language_property_round_trip() {
    let bare = MultiLanguageProperty::new();
    assert_eq!(MultiLanguageProperty::decode(&bare.encode()), Ok(bare));
    assert_eq!(
        MultiLanguageProperty::decode(&full_multi_language_property().encode()),
        Ok(full_multi_language_property())
    );
}

#[test]
fn range_blob_file_round_trip() {
    let range = Range::new(DataTypeDefXsd::Date);
    assert_eq!(Range::decode(&range.encode()), Ok(range));
    assert_eq!(Range::decode(&full_range().encode()), Ok(full_range()));
    let blob = Blob::new("text/plain".to_string());
    assert_eq!(Blob::decode(&blob.encode()), Ok(blob));
    assert_eq!(Blob::decode(&full_blob().encode()), Ok(full_blob()));
    let file = File::new("text/plain".to_string());
    assert_eq!(File::decode(&file.encode()), Ok(file));
    assert_eq!(File::decode(&full_file().encode()), Ok(full_file()));
}

#[test]
fn reference_element_round_trip() {
    let bare = ReferenceElement::new();
    assert_eq!(ReferenceElement::decode(&bare.encode()), Ok(bare));
    assert_eq!(ReferenceElement::decode(&full_reference_element().encode()), Ok(full_reference_element()));
}

#[test]
fn relationship_elements_round_trip() {
    let bare = RelationshipElement::new();
    assert_eq!(RelationshipElement::decode(&bare.encode()), Ok(bare));
    assert_eq!(
        RelationshipElement::decode(&full_relationship_element().encode()),
        Ok(full_relationship_element())
    );
    let bare = AnnotatedRelationshipElement::new();
    assert_eq!(AnnotatedRelationshipElement::decode(&bare.encode()), Ok(bare));
    assert_eq!(
        AnnotatedRelationshipElement::decode(&full_annotated_relationship_element().encode()),
        Ok(full_annotated_relationship_element())
    );
}

#[test]
fn capability_round_trip() {
    let bare = Capability::new();
    assert_eq!(Capability::decode(&bare.encode()), Ok(bare));
    assert_eq!(Capability::decode(&full_capability().encode()), Ok(full_capability()));
}

#[test]
fn entity_round_trip() {
    let bare = Entity::new();
    assert_eq!(Entity::decode(&bare.encode()), Ok(bare));
    assert_eq!(Entity::decode(&full_entity().encode()), Ok(full_entity()));
}

#[test]
fn operation_round_trip() {
    let bare = Operation::new();
    assert_eq!(Operation::decode(&bare.encode()), Ok(bare));
    assert_eq!(Operation::decode(&full_operation().encode()), Ok(full_operation()));
    let variable = OperationVariable::new(SubmodelElement::Operation(full_operation()));
    assert_eq!(OperationVariable::decode(&variable.encode()), Ok(variable));
}

#[test]
fn collection_and_list_round_trip() {
    let bare = SubmodelElementCollection::new();
    assert_eq!(SubmodelElementCollection::decode(&bare.encode()), Ok(bare));
    assert_eq!(SubmodelElementCollection::decode(&full_collection().encode()), Ok(full_collection()));
    let bare = SubmodelElementList::new(AasSubmodelElements::SubmodelElement);
    assert_eq!(SubmodelElementList::decode(&bare.encode()), Ok(bare));
    assert_eq!(SubmodelElementList::decode(&full_list().encode()), Ok(full_list()));
}

#[test]
fn basic_event_element_round_trip() {
    let bare = BasicEventElement::new(external("o"), Direction::Input, StateOfEvent::Off);
    assert_eq!(BasicEventElement::decode(&bare.encode()), Ok(bare));
    assert_eq!(
        BasicEventElement::decode(&full_basic_event_element().encode()),
        Ok(full_basic_event_element())
    );
}

#[test]
fn submodel_round_trip() {
    let bare = Submodel::new("id".to_string());
    assert_eq!(Submodel::decode(&bare.encode()), Ok(bare));
    assert_eq!(Submodel::decode(&full_submodel().encode()), Ok(full_submodel()));
}

#[test]
fn shell_and_concept_description_round_trip() {
    let bare = AssetAdministrationShell::new("id".to_string(), AssetInformation::new(AssetKind::Role));
    assert_eq!(AssetAdministrationShell::decode(&bare.encode()), Ok(bare));
    assert_eq!(AssetAdministrationShell::decode(&full_shell().encode()), Ok(full_shell()));
    let bare = ConceptDescription::new("id".to_string());
    assert_eq!(ConceptDescription::decode(&bare.encode()), Ok(bare));
    assert_eq!(
        ConceptDescription::decode(&full_concept_description().encode()),
        Ok(full_concept_description())
    );
}

#[test]
fn environment_round_trip() {
    let mut environment = Environment::new();
    environment.add_asset_administration_shell(full_shell());
    environment.add_submodel(full_submodel());
    environment.add_submodel(Submodel::new("second".to_string()));
    environment.add_concept_description(full_concept_description());
    let wire = environment.encode();
    assert_eq!(Environment::decode(&wire), Ok(environment.clone()));
    assert_eq!(Environment::decode(&wire.clone()), Ok(environment));
}

#[test]
fn copies_are_equal_to_their_originals() {
    assert_eq!(full_submodel().clone(), full_submodel());
    assert_eq!(full_shell().clone(), full_shell());
    assert_eq!(full_concept_description().clone(), full_concept_description());
    assert_eq!(full_basic_event_element().clone(), full_basic_event_element());
    assert_eq!(full_operation().clone(), full_operation());
}

#[test]
fn encoding_is_the_same_each_time() {
    assert_eq!(full_submodel().encode(), full_submodel().encode());
    assert_eq!(full_entity().encode(), full_entity().clone().encode());
}

#[test]
fn lists_and_optional_values_round_trip() {
    let references = vec![external("a"), model("b")];
    let wire = Reference::encode_list(&references);
    assert_eq!(Reference::decode_list(&wire), Ok(references));
    let elements = vec![SubmodelElement::Entity(full_entity()), SubmodelElement::Range(full_range())];
    let wire = SubmodelElement::encode_list(&elements);
    assert_eq!(SubmodelElement::decode_list(&wire), Ok(elements.clone()));
    assert_eq!(SubmodelElement::clone_list(&elements), elements);
    assert_eq!(Reference::encode_optional(&None), aas_model::wire::Wire::Null);
    assert_eq!(Reference::encode_optional(&Some(external("x"))), external("x").encode());
}
