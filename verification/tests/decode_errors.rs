use aas_model::enumerations::data_type_def_xsd::DataTypeDefXsd;
use aas_model::enumerations::interface_enumerations::submodel_element::SubmodelElement;
use aas_model::enumerations::key_type::KeyType;
use aas_model::structs::entity::Entity;
use aas_model::structs::environment::Environment;
use aas_model::structs::key::Key;
use aas_model::structs::property::Property;
use aas_model::structs::resource::Resource;
use aas_model::structs::submodel::Submodel;
use aas_model::structs::submodel_element_list::SubmodelElementList;
use aas_model::enumerations::aas_submodel_elements::AasSubmodelElements;
use aas_model::traits::referable::TReferable;
use aas_model::wire::{
    decode_bool, decode_text, encode_optional_bool, encode_optional_text, encode_text, find,
    find_present, same_text, DecodeError, DecodeFault, Field, PathStep, Wire,
};

fn text(s: &str) -> Wire {
    Wire::Text(s.to_string())
}

fn field(name: &str) -> PathStep {
    PathStep::Field(name.to_string())
}

fn replace(wire: &mut Wire, name: &str, value: Wire) {
    if let Wire::Record(fields) = wire {
        for f in fields.iter_mut() {
            if f.name == name {
                f.value = value;
                return;
            }
        }
        panic!("no member {}", name);
    }
    panic!("no record");
}

fn remove(wire: &mut Wire, name: &str) {
    if let Wire::Record(fields) = wire {
        fields.retain(|f| f.name != name);
    }
}

#[test]
fn record_is_expected() {
    for wire in [Wire::Null, Wire::Bool(false), text("x"), Wire::List(vec![])] {
        let error = Key::decode(&wire).unwrap_err();
        assert_eq!(error.get_fault(), DecodeFault::ExpectedRecord);
        assert!(error.get_path().is_empty());
    }
}

#[test]
fn missing_required_member_is_reported_with_its_name() {
    let mut wire = Key::new(KeyType::Submodel, "sm".to_string()).encode();
    remove(&mut wire, "value");
    let error = Key::decode(&wire).unwrap_err();
    assert_eq!(error.get_fault(), DecodeFault::MissingField);
    assert_eq!(error.get_path(), &vec![field("value")]);

    let error = Key::decode(&Wire::Record(vec![])).unwrap_err();
    assert_eq!(error.get_fault(), DecodeFault::MissingField);
    assert_eq!(error.get_path(), &vec![field("type")]);
}

#[test]
fn missing_list_is_reported() {
    let mut wire = Property::new(DataTypeDefXsd::Int).encode();
    remove(&mut wire, "qualifiers");
    let error = Property::decode(&wire).unwrap_err();
    assert_eq!(error.get_fault(), DecodeFault::MissingField);
    assert_eq!(error.get_path(), &vec![field("qualifiers")]);
}

#[test]
fn missing_optional_member_is_absence() {
    let mut property = Property::new(DataTypeDefXsd::Int);
    property.set_id_short("kept".to_string());
    let mut wire = property.encode();
    remove(&mut wire, "value");
    remove(&mut wire, "valueId");
    remove(&mut wire, "category");
    remove(&mut wire, "semanticId");
    assert_eq!(Property::decode(&wire), Ok(property));
}

#[test]
fn null_in_place_of_a_required_member_is_refused() {
    let mut wire = Key::new(KeyType::Submodel, "sm".to_string()).encode();
    replace(&mut wire, "value", Wire::Null);
    let error = Key::decode(&wire).unwrap_err();
    assert_eq!(error.get_fault(), DecodeFault::ExpectedText);
    assert_eq!(error.get_path(), &vec![field("value")]);
}

#[test]
fn list_in_place_of_an_optional_value_is_a_cardinality_mismatch() {
    let mut wire = Property::new(DataTypeDefXsd::Int).encode();
    replace(&mut wire, "idShort", Wire::List(vec![text("a")]));
    let error = Property::decode(&wire).unwrap_err();
    assert_eq!(error.get_fault(), DecodeFault::ExpectedText);
    assert_eq!(error.get_path(), &vec![field("idShort")]);
}

#[test]
fn single_value_in_place_of_a_list_is_a_cardinality_mismatch() {
    let mut wire = Property::new(DataTypeDefXsd::Int).encode();
    replace(&mut wire, "description", text("only one"));
    let error = Property::decode(&wire).unwrap_err();
    assert_eq!(error.get_fault(), DecodeFault::ExpectedList);
    assert_eq!(error.get_path(), &vec![field("description")]);
}

#[test]
fn truth_value_is_expected_for_order_relevant() {
    let mut list = SubmodelElementList::new(AasSubmodelElements::Property);
    list.set_order_relevant(true);
    let mut wire = list.encode();
    assert_eq!(wire.get("orderRelevant"), Some(&Wire::Bool(true)));
    assert_eq!(SubmodelElementList::decode(&wire), Ok(list));
    replace(&mut wire, "orderRelevant", text("true"));
    let error = SubmodelElementList::decode(&wire).unwrap_err();
    assert_eq!(error.get_fault(), DecodeFault::ExpectedBool);
    assert_eq!(error.get_path(), &vec![field("orderRelevant")]);
}

#[test]
fn unknown_literal_is_reported_with_its_member() {
    let mut wire = Property::new(DataTypeDefXsd::Int).encode();
    replace(&mut wire, "valueType", text("xs:number"));
    let error = Property::decode(&wire).unwrap_err();
    assert_eq!(error.get_fault(), DecodeFault::UnknownLiteral);
    assert_eq!(error.get_path(), &vec![field("valueType")]);
}

#[test]
fn failure_deep_in_a_document_carries_the_whole_path() {
    let mut inner = Entity::new();
    inner.add_statement(SubmodelElement::Property(Property::new(DataTypeDefXsd::Int)));
    let mut submodel = Submodel::new("sm".to_string());
    submodel.add_submodel_element(SubmodelElement::Property(Property::new(DataTypeDefXsd::Int)));
    submodel.add_submodel_element(SubmodelElement::Entity(inner));
    let mut environment = Environment::new();
    environment.add_submodel(Submodel::new("first".to_string()));
    environment.add_submodel(submodel);
    let mut wire = environment.encode();

    // environment.submodels[1].submodelElements[1].statements[0].valueType
    if let Wire::Record(top) = &mut wire {
        if let Wire::List(submodels) = &mut top[1].value {
            let elements = submodels[1].get("submodelElements").unwrap().clone();
            if let Wire::List(mut elements) = elements {
                let statements = elements[1].get("statements").unwrap().clone();
                if let Wire::List(mut statements) = statements {
                    replace(&mut statements[0], "valueType", Wire::Bool(false));
                    replace(&mut elements[1], "statements", Wire::List(statements));
                }
                replace(&mut submodels[1], "submodelElements", Wire::List(elements));
            }
        }
    }
    let error = Environment::decode(&wire).unwrap_err();
    assert_eq!(error.get_fault(), DecodeFault::ExpectedText);
    assert_eq!(
        error.get_path(),
        &vec![
            field("submodels"),
            PathStep::Index(1),
            field("submodelElements"),
            PathStep::Index(1),
            field("statements"),
            PathStep::Index(0),
            field("valueType"),
        ]
    );
}

#[test]
fn first_failing_member_in_member_order_decides() {
    let mut wire = Key::new(KeyType::Submodel, "sm".to_string()).encode();
    replace(&mut wire, "type", text("Gadget"));
    replace(&mut wire, "value", Wire::Bool(true));
    let error = Key::decode(&wire).unwrap_err();
    assert_eq!(error.get_fault(), DecodeFault::UnknownLiteral);
    assert_eq!(error.get_path(), &vec![field("type")]);
}

#[test]
fn first_failing_item_of_a_list_decides() {
    let wire = Wire::List(vec![
        Key::new(KeyType::Submodel, "sm".to_string()).encode(),
        Wire::Null,
        text("also wrong"),
    ]);
    let error = Key::decode_list(&wire).unwrap_err();
    assert_eq!(error.get_fault(), DecodeFault::ExpectedRecord);
    assert_eq!(error.get_path(), &vec![PathStep::Index(1)]);
    let error = Key::decode_list(&Wire::Record(vec![])).unwrap_err();
    assert_eq!(error.get_fault(), DecodeFault::ExpectedList);
}

#[test]
fn unknown_members_are_passed_over() {
    let resource = Resource::new("/a".to_string());
    let mut wire = resource.encode();
    if let Wire::Record(fields) = &mut wire {
        fields.insert(0, Field::new("vendorNote", text("ignored")));
        fields.push(Field::new("another", Wire::List(vec![])));
    }
    assert_eq!(Resource::decode(&wire), Ok(resource));
}

#[test]
fn first_of_two_members_of_one_name_counts() {
    let wire = Wire::Record(vec![
        Field::new("path", text("/first")),
        Field::new("path", text("/second")),
    ]);
    assert_eq!(Resource::decode(&wire), Ok(Resource::new("/first".to_string())));
}

#[test]
fn member_order_on_the_wire_does_not_matter() {
    let key = Key::new(KeyType::Property, "p".to_string());
    let wire = Wire::Record(vec![Field::new("value", text("p")), Field::new("type", text("Property"))]);
    assert_eq!(Key::decode(&wire), Ok(key));
}

#[test]
fn errors_are_built_from_the_inside_out() {
    let error = DecodeError::new(DecodeFault::ExpectedText);
    assert_eq!(error.get_fault(), DecodeFault::ExpectedText);
    assert!(error.get_path().is_empty());
    let error = error.under_field("value").under_index(3).under_field("keys");
    assert_eq!(error.get_fault(), DecodeFault::ExpectedText);
    assert_eq!(error.get_path(), &vec![field("keys"), PathStep::Index(3), field("value")]);
    assert_eq!(error.clone(), error);
    let missing = DecodeError::at(DecodeFault::MissingField, "id");
    assert_eq!(missing.get_path(), &vec![field("id")]);
}

#[test]
fn wire_helpers() {
    let record = Wire::record(vec![
        Field::new("a", Wire::Null),
        Field::new("b", Wire::text("x")),
        Field::new("a", Wire::Bool(true)),
    ]);
    let fields = record.members().unwrap();
    assert_eq!(find(fields, "a"), Some(&Wire::Null));
    assert_eq!(find(fields, "b"), Some(&text("x")));
    assert_eq!(find(fields, "c"), None);
    assert_eq!(find_present(fields, "a"), None);
    assert_eq!(find_present(fields, "b"), Some(&text("x")));
    assert_eq!(record.get("b"), Some(&text("x")));
    assert_eq!(text("x").get("b"), None);
    assert_eq!(record.items(), None);
    let list = Wire::list(vec![Wire::Null, Wire::Bool(false)]);
    assert_eq!(list.items().map(|v| v.len()), Some(2));
    assert_eq!(list.members(), None);
    assert_eq!(record.clone(), record);

    assert!(same_text("abc", "abc"));
    assert!(!same_text("abc", "abd"));
    assert!(!same_text("abc", "ab"));
    assert!(same_text("", ""));

    assert_eq!(encode_text(&"t".to_string()), text("t"));
    assert_eq!(decode_text(&text("t")), Ok("t".to_string()));
    assert_eq!(decode_text(&Wire::Null).unwrap_err().get_fault(), DecodeFault::ExpectedText);
    assert_eq!(encode_optional_text(&None), Wire::Null);
    assert_eq!(encode_optional_text(&Some("t".to_string())), text("t"));
    assert_eq!(encode_optional_bool(&None), Wire::Null);
    assert_eq!(encode_optional_bool(&Some(true)), Wire::Bool(true));
    assert_eq!(decode_bool(&Wire::Bool(false)), Ok(false));
    assert_eq!(decode_bool(&text("false")).unwrap_err().get_fault(), DecodeFault::ExpectedBool);
}
