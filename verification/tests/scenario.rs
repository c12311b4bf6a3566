use aas_model::enumerations::data_type_def_xsd::DataTypeDefXsd;
use aas_model::enumerations::interface_enumerations::submodel_element::SubmodelElement;
use aas_model::structs::environment::Environment;
use aas_model::structs::property::Property;
use aas_model::structs::submodel::Submodel;
use aas_model::traits::identifiable::TIdentifiable;
use aas_model::traits::referable::TReferable;
use aas_model::wire::Wire;

fn temperature_environment() -> Environment {
    let mut property = Property::new(DataTypeDefXsd::Double);
    property.set_id_short("Temperature".to_string());
    property.set_value("23.5".to_string());
    let mut submodel = Submodel::new("https://example.com/sm/1".to_string());
    submodel.add_submodel_element(SubmodelElement::Property(property));
    let mut environment = Environment::new();
    environment.add_submodel(submodel);
    environment
}

#[test]
fn environment_with_one_property_survives_the_wire() {
    let environment = temperature_environment();
    let wire = environment.encode();
    let decoded = Environment::decode(&wire).expect("what was encoded decodes");

    assert_eq!(decoded.get_submodels().len(), 1);
    let submodel = &decoded.get_submodels()[0];
    assert_eq!(submodel.get_id(), "https://example.com/sm/1");
    assert_eq!(submodel.get_submodel_elements().len(), 1);
    match &submodel.get_submodel_elements()[0] {
        SubmodelElement::Property(property) => {
            assert_eq!(property.get_id_short(), Some(&"Temperature".to_string()));
            assert_eq!(property.get_value(), Some(&"23.5".to_string()));
            assert_eq!(*property.get_value_type(), DataTypeDefXsd::Double);
        },
        other => panic!("expected a property, found {:?}", other),
    }
    assert_eq!(decoded, environment);
}

#[test]
fn wire_object_of_the_property_carries_type_name_and_value_type() {
    let wire = temperature_environment().encode();
    let submodels = match wire.get("submodels") {
        Some(Wire::List(items)) => items,
        other => panic!("expected the list of submodels, found {:?}", other),
    };
    assert_eq!(submodels.len(), 1);
    assert_eq!(
        submodels[0].get("id"),
        Some(&Wire::Text("https://example.com/sm/1".to_string()))
    );
    let elements = match submodels[0].get("submodelElements") {
        Some(Wire::List(items)) => items,
        other => panic!("expected the list of submodel elements, found {:?}", other),
    };
    assert_eq!(elements.len(), 1);
    assert_eq!(elements[0].get("modelType"), Some(&Wire::Text("Property".to_string())));
    assert_eq!(elements[0].get("valueType"), Some(&Wire::Text("xs:double".to_string())));
    assert_eq!(elements[0].get("idShort"), Some(&Wire::Text("Temperature".to_string())));
    assert_eq!(elements[0].get("value"), Some(&Wire::Text("23.5".to_string())));
    assert_eq!(elements[0].get("category"), Some(&Wire::Null));
}

#[test]
fn empty_environment_has_three_empty_lists_on_the_wire() {
    let wire = Environment::new().encode();
    assert_eq!(
        wire,
        Wire::Record(vec![
            aas_model::wire::Field::new("assetAdministrationShells", Wire::List(vec![])),
            aas_model::wire::Field::new("submodels", Wire::List(vec![])),
            aas_model::wire::Field::new("conceptDescriptions", Wire::List(vec![])),
        ])
    );
    assert_eq!(Environment::decode(&wire), Ok(Environment::new()));
}
