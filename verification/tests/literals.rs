use aas_model::enumerations::aas_submodel_elements::AasSubmodelElements;
use aas_model::enumerations::asset_kind::AssetKind;
use aas_model::enumerations::data_type_def_xsd::DataTypeDefXsd;
use aas_model::enumerations::direction::Direction;
use aas_model::enumerations::entity_type::EntityType;
use aas_model::enumerations::key_type::KeyType;
use aas_model::enumerations::modelling_kind::ModellingKind;
use aas_model::enumerations::qualifier_kind::QualifierKind;
use aas_model::enumerations::reference_type::ReferenceType;
use aas_model::enumerations::state_of_event::StateOfEvent;
use aas_model::wire::{DecodeFault, Wire};

fn xsd() -> Vec<(DataTypeDefXsd, &'static str)> {
    vec![
    (DataTypeDefXsd::AnyUri, "xs:anyURI"),
    (DataTypeDefXsd::Base64Binary, "xs:base64Binary"),
    (DataTypeDefXsd::Boolean, "xs:boolean"),
    (DataTypeDefXsd::Byte, "xs:byte"),
    (DataTypeDefXsd::Date, "xs:date"),
    (DataTypeDefXsd::DateTime, "xs:dateTime"),
    (DataTypeDefXsd::Decimal, "xs:decimal"),
    (DataTypeDefXsd::Double, "xs:double"),
    (DataTypeDefXsd::Duration, "xs:duration"),
    (DataTypeDefXsd::Float, "xs:float"),
    (DataTypeDefXsd::GDay, "xs:gDay"),
    (DataTypeDefXsd::GMonth, "xs:gMonth"),
    (DataTypeDefXsd::GMonthDay, "xs:gMonthDay"),
    (DataTypeDefXsd::GYear, "xs:gYear"),
    (DataTypeDefXsd::GYearMonth, "xs:gYearMonth"),
    (DataTypeDefXsd::HexBinary, "xs:hexBinary"),
    (DataTypeDefXsd::Int, "xs:int"),
    (DataTypeDefXsd::Integer, "xs:integer"),
    (DataTypeDefXsd::Long, "xs:long"),
    (DataTypeDefXsd::NegativeInteger, "xs:negativeInteger"),
    (DataTypeDefXsd::NonNegativeInteger, "xs:nonNegativeInteger"),
    (DataTypeDefXsd::NonPositiveInteger, "xs:nonPositiveInteger"),
    (DataTypeDefXsd::PositiveInteger, "xs:positiveInteger"),
    (DataTypeDefXsd::Short, "xs:short"),
    (DataTypeDefXsd::String, "xs:string"),
    (DataTypeDefXsd::Time, "xs:time"),
    (DataTypeDefXsd::UnsignedByte, "xs:unsignedByte"),
    (DataTypeDefXsd::UnsignedInt, "xs:unsignedInt"),
    (DataTypeDefXsd::UnsignedLong, "xs:unsignedLong"),
    (DataTypeDefXsd::UnsignedShort, "xs:unsignedShort"),
    ]
}

#[test]
fn every_xsd_data_type_has_its_published_literal() {
    assert_eq!(xsd().len(), 30);
    for (value, literal) in xsd() {
        assert_eq!(value.as_str(), literal);
        assert_eq!(DataTypeDefXsd::parse(literal), Some(value));
        assert_eq!(value.encode(), Wire::Text(literal.to_string()));
        assert_eq!(DataTypeDefXsd::decode(&Wire::Text(literal.to_string())), Ok(value));
    }
}

#[test]
fn xsd_literals_are_exact() {
    assert_eq!(DataTypeDefXsd::parse("xs:anyUri"), None);
    assert_eq!(DataTypeDefXsd::parse("anyURI"), None);
    assert_eq!(DataTypeDefXsd::parse("xs:nonNegativeInteger "), None);
    assert_eq!(DataTypeDefXsd::parse("XS:INT"), None);
    assert_eq!(DataTypeDefXsd::parse(""), None);
    assert_eq!(DataTypeDefXsd::parse("xs:unsignedLon"), None);
    assert_eq!(DataTypeDefXsd::parse("xs:unsignedLongs"), None);
}

#[test]
fn direction_literals() {
    assert_eq!(Direction::Input.as_str(), "input");
    assert_eq!(Direction::Output.as_str(), "output");
    assert_eq!(Direction::parse("input"), Some(Direction::Input));
    assert_eq!(Direction::parse("output"), Some(Direction::Output));
    assert_eq!(Direction::parse("Output"), None);
    assert_eq!(Direction::Output.encode(), Wire::Text("output".to_string()));
    assert_eq!(Direction::decode(&Wire::Text("output".to_string())), Ok(Direction::Output));
}

#[test]
fn qualifier_kind_literals() {
    assert_eq!(QualifierKind::ValueQualifier.as_str(), "Value");
    assert_eq!(QualifierKind::ConceptQualifier.as_str(), "Concept");
    assert_eq!(QualifierKind::TemplateQualifier.as_str(), "Template");
    assert_eq!(QualifierKind::parse("Value"), Some(QualifierKind::ValueQualifier));
    assert_eq!(QualifierKind::parse("Concept"), Some(QualifierKind::ConceptQualifier));
    assert_eq!(QualifierKind::parse("Template"), Some(QualifierKind::TemplateQualifier));
    assert_eq!(QualifierKind::parse("ValueQualifier"), None);
    assert_eq!(
        QualifierKind::decode(&QualifierKind::TemplateQualifier.encode()),
        Ok(QualifierKind::TemplateQualifier)
    );
}

#[test]
fn state_of_event_literals() {
    assert_eq!(StateOfEvent::On.as_str(), "on");
    assert_eq!(StateOfEvent::Off.as_str(), "off");
    assert_eq!(StateOfEvent::parse("on"), Some(StateOfEvent::On));
    assert_eq!(StateOfEvent::parse("off"), Some(StateOfEvent::Off));
    assert_eq!(StateOfEvent::parse("On"), None);
    assert_eq!(StateOfEvent::decode(&StateOfEvent::On.encode()), Ok(StateOfEvent::On));
}

#[test]
fn symbolic_enumerations_use_their_names() {
    assert_eq!(ModellingKind::Template.as_str(), "Template");
    assert_eq!(ModellingKind::Instance.as_str(), "Instance");
    assert_eq!(ReferenceType::ExternalReference.as_str(), "ExternalReference");
    assert_eq!(ReferenceType::ModelReference.as_str(), "ModelReference");
    assert_eq!(EntityType::CoManagedEntity.as_str(), "CoManagedEntity");
    assert_eq!(EntityType::SelfManagedEntity.as_str(), "SelfManagedEntity");
    assert_eq!(AssetKind::Type.as_str(), "Type");
    assert_eq!(AssetKind::Instance.as_str(), "Instance");
    assert_eq!(AssetKind::Role.as_str(), "Role");
    assert_eq!(AssetKind::NotApplicable.as_str(), "NotApplicable");
    assert_eq!(KeyType::Submodel.as_str(), "Submodel");
    assert_eq!(KeyType::GlobalReference.as_str(), "GlobalReference");
    assert_eq!(AasSubmodelElements::SubmodelElementList.as_str(), "SubmodelElementList");
    assert_eq!(KeyType::parse("FragmentReference"), Some(KeyType::FragmentReference));
    assert_eq!(AasSubmodelElements::parse("Range"), Some(AasSubmodelElements::Range));
    assert_eq!(AssetKind::parse("Asset"), None);
}

#[test]
fn every_key_type_round_trips_through_its_literal() {
    let all = [
        KeyType::AnnotatedRelationshipElement,
        KeyType::AssetAdministrationShell,
        KeyType::BasicEventElement,
        KeyType::Blob,
        KeyType::Capability,
        KeyType::ConceptDescription,
        KeyType::DataElement,
        KeyType::Entity,
        KeyType::EventElement,
        KeyType::File,
        KeyType::FragmentReference,
        KeyType::GlobalReference,
        KeyType::Identifiable,
        KeyType::MultiLanguageProperty,
        KeyType::Operation,
        KeyType::Property,
        KeyType::Range,
        KeyType::Referable,
        KeyType::ReferenceElement,
        KeyType::RelationshipElement,
        KeyType::Submodel,
        KeyType::SubmodelElement,
        KeyType::SubmodelElementCollection,
        KeyType::SubmodelElementList,
    ];
    for value in all {
        assert_eq!(KeyType::parse(value.as_str()), Some(value));
        assert_eq!(KeyType::decode(&value.encode()), Ok(value));
    }
}

#[test]
fn root_kinds_are_shell_submodel_and_concept_description() {
    assert!(KeyType::AssetAdministrationShell.is_root_kind());
    assert!(KeyType::Submodel.is_root_kind());
    assert!(KeyType::ConceptDescription.is_root_kind());
    assert!(!KeyType::Property.is_root_kind());
    assert!(!KeyType::GlobalReference.is_root_kind());
    assert!(!KeyType::SubmodelElement.is_root_kind());
    assert!(!KeyType::Identifiable.is_root_kind());
}

#[test]
fn unknown_literal_is_a_decode_error() {
    let error = Direction::decode(&Wire::Text("sideways".to_string())).unwrap_err();
    assert_eq!(error.get_fault(), DecodeFault::UnknownLiteral);
    assert!(error.get_path().is_empty());
}

#[test]
fn literal_that_is_no_text_is_a_decode_error() {
    let error = StateOfEvent::decode(&Wire::Bool(true)).unwrap_err();
    assert_eq!(error.get_fault(), DecodeFault::ExpectedText);
    let error = DataTypeDefXsd::decode(&Wire::Null).unwrap_err();
    assert_eq!(error.get_fault(), DecodeFault::ExpectedText);
}

#[test]
fn optional_enumeration_encodes_absence_as_null() {
    assert_eq!(ModellingKind::encode_optional(&None), Wire::Null);
    assert_eq!(
        ModellingKind::encode_optional(&Some(ModellingKind::Instance)),
        Wire::Text("Instance".to_string())
    );
}
