use concerto_validator_rs::error::{ExpectedKind, MetamodelFault};
use concerto_validator_rs::json::JsonKind;
use concerto_validator_rs::{ValidationError, Validator};

const MODEL: &str = r#"{
  "$class": "concerto.metamodel@1.0.0.Model",
  "namespace": "ns",
  "declarations": [
    {"$class": "concerto.metamodel@1.0.0.ConceptDeclaration", "name": "Person", "isAbstract": false, "properties": [
      {"$class": "concerto.metamodel@1.0.0.StringProperty", "name": "firstName", "isArray": false, "isOptional": false},
      {"$class": "concerto.metamodel@1.0.0.StringProperty", "name": "lastName", "isArray": false, "isOptional": false},
      {"$class": "concerto.metamodel@1.0.0.IntegerProperty", "name": "age", "isArray": false, "isOptional": true}
    ]},
    {"$class": "concerto.metamodel@1.0.0.ConceptDeclaration", "name": "Customer", "isAbstract": false, "properties": [
      {"$class": "concerto.metamodel@1.0.0.StringProperty", "name": "name", "isArray": false, "isOptional": false}
    ]},
    {"$class": "concerto.metamodel@1.0.0.ConceptDeclaration", "name": "Order", "isAbstract": false, "properties": [
      {"$class": "concerto.metamodel@1.0.0.ObjectProperty", "name": "customer", "isArray": false, "isOptional": false,
       "type": {"$class": "concerto.metamodel@1.0.0.TypeIdentifier", "name": "Customer"}},
      {"$class": "concerto.metamodel@1.0.0.ObjectProperty", "name": "lines", "isArray": true, "isOptional": true,
       "type": {"$class": "concerto.metamodel@1.0.0.TypeIdentifier", "name": "Customer"}}
    ]},
    {"$class": "concerto.metamodel@1.0.0.ConceptDeclaration", "name": "Tagged", "isAbstract": false, "properties": [
      {"$class": "concerto.metamodel@1.0.0.StringProperty", "name": "tags", "isArray": true, "isOptional": false},
      {"$class": "concerto.metamodel@1.0.0.DoubleProperty", "name": "scores", "isArray": true, "isOptional": true}
    ]},
    {"$class": "concerto.metamodel@1.0.0.ConceptDeclaration", "name": "Code", "isAbstract": false, "properties": [
      {"$class": "concerto.metamodel@1.0.0.StringProperty", "name": "code", "isArray": false, "isOptional": false,
       "validator": {"$class": "concerto.metamodel@1.0.0.StringRegexValidator", "pattern": "^[A-Z]{3}$", "flags": ""}}
    ]},
    {"$class": "concerto.metamodel@1.0.0.ConceptDeclaration", "name": "Broken", "isAbstract": false, "properties": [
      {"$class": "concerto.metamodel@1.0.0.StringProperty", "name": "text", "isArray": false, "isOptional": false,
       "validator": {"$class": "concerto.metamodel@1.0.0.StringRegexValidator", "pattern": "(", "flags": ""}}
    ]},
    {"$class": "concerto.metamodel@1.0.0.ConceptDeclaration", "name": "Employee", "isAbstract": false,
     "superType": {"$class": "concerto.metamodel@1.0.0.TypeIdentifier", "name": "Person"}, "properties": [
      {"$class": "concerto.metamodel@1.0.0.IntegerProperty", "name": "employeeId", "isArray": false, "isOptional": false},
      {"$class": "concerto.metamodel@1.0.0.BooleanProperty", "name": "age", "isArray": false, "isOptional": true}
    ]},
    {"$class": "concerto.metamodel@1.0.0.ConceptDeclaration", "name": "Manager", "isAbstract": false,
     "superType": {"$class": "concerto.metamodel@1.0.0.TypeIdentifier", "name": "Employee", "namespace": "ns"}, "properties": [
      {"$class": "concerto.metamodel@1.0.0.IntegerProperty", "name": "reports", "isArray": false, "isOptional": true}
    ]},
    {"$class": "concerto.metamodel@1.0.0.ConceptDeclaration", "name": "Orphan", "isAbstract": false,
     "superType": {"$class": "concerto.metamodel@1.0.0.TypeIdentifier", "name": "Missing"}, "properties": []},
    {"$class": "concerto.metamodel@1.0.0.ConceptDeclaration", "name": "Flags", "isAbstract": false, "properties": [
      {"$class": "concerto.metamodel@1.0.0.BooleanProperty", "name": "active", "isArray": false, "isOptional": true},
      {"$class": "concerto.metamodel@1.0.0.DoubleProperty", "name": "ratio", "isArray": false, "isOptional": true},
      {"$class": "concerto.metamodel@1.0.0.IntegerProperty", "name": "count", "isArray": false, "isOptional": true},
      {"$class": "concerto.metamodel@1.0.0.DateTimeProperty", "name": "when", "isArray": false, "isOptional": true}
    ]}
  ]
}"#;

fn validator() -> Validator {
    Validator::with_metamodel(MODEL).expect("the test metamodel compiles")
}

#[test]
fn scenario_person_valid() {
    let r = validator().validate(r#"{"$class":"ns.Person","firstName":"Ada","lastName":"Lovelace"}"#);
    assert!(r.is_ok(), "{:?}", r);
}

#[test]
fn scenario_person_missing_first_name() {
    let r = validator().validate(r#"{"$class":"ns.Person","lastName":"Lovelace"}"#);
    assert!(matches!(r, Err(ValidationError::MissingRequiredProperty { ref property }) if property == "firstName"), "{:?}", r);
}

#[test]
fn scenario_person_unknown_nickname() {
    let r = validator().validate(r#"{"$class":"ns.Person","firstName":"Ada","lastName":"Lovelace","nickname":"Ada"}"#);
    assert!(matches!(r, Err(ValidationError::UnknownProperty { ref property_name, ref class_name })
        if property_name == "nickname" && class_name == "ns.Person"), "{:?}", r);
}

#[test]
fn scenario_order_customer_as_array() {
    let v = validator();
    let ok = v.validate(r#"{"$class":"ns.Order","customer":{"$class":"ns.Customer","name":"Acme"}}"#);
    assert!(ok.is_ok(), "{:?}", ok);
    let r = v.validate(r#"{"$class":"ns.Order","customer":[{"$class":"ns.Customer","name":"Acme"}]}"#);
    assert!(matches!(r, Err(ValidationError::TypeMismatch { expected: ExpectedKind::Object, found: JsonKind::Array })), "{:?}", r);
}

#[test]
fn scenario_unknown_class() {
    let v = validator();
    for text in [
        r#"{"$class":"ns.DoesNotExist"}"#,
        r#"{"$class":"ns.DoesNotExist","firstName":"Ada","anything":[1,2,3]}"#,
    ] {
        let r = v.validate(text);
        assert!(matches!(r, Err(ValidationError::UnknownClass { ref class_name }) if class_name == "ns.DoesNotExist"), "{:?}", r);
    }
}

#[test]
fn required_property_removed_and_restored() {
    let v = validator();
    let r = v.validate(r#"{"$class":"ns.Customer"}"#);
    assert!(matches!(r, Err(ValidationError::MissingRequiredProperty { ref property }) if property == "name"), "{:?}", r);
    assert!(v.validate(r#"{"$class":"ns.Customer","name":"Acme"}"#).is_ok());
}

#[test]
fn unknown_property_added_and_removed() {
    let v = validator();
    let r = v.validate(r#"{"$class":"ns.Customer","name":"Acme","extra":true}"#);
    assert!(matches!(r, Err(ValidationError::UnknownProperty { ref property_name, .. }) if property_name == "extra"), "{:?}", r);
    assert!(v.validate(r#"{"$class":"ns.Customer","name":"Acme"}"#).is_ok());
}

#[test]
fn array_property_bare_and_wrapped() {
    let v = validator();
    let bare = v.validate(r#"{"$class":"ns.Tagged","tags":"red"}"#);
    assert!(matches!(bare, Err(ValidationError::TypeMismatch { expected: ExpectedKind::Array, found: JsonKind::String })), "{:?}", bare);
    assert!(v.validate(r#"{"$class":"ns.Tagged","tags":["red"]}"#).is_ok());
    assert!(v.validate(r#"{"$class":"ns.Tagged","tags":[]}"#).is_ok());
}

#[test]
fn array_element_failure_is_reported() {
    let r = validator().validate(r#"{"$class":"ns.Tagged","tags":["red",7,"blue"]}"#);
    assert!(matches!(r, Err(ValidationError::TypeMismatch { expected: ExpectedKind::String, found: JsonKind::Number })), "{:?}", r);
}

#[test]
fn nested_object_array_elements_are_validated() {
    let v = validator();
    let ok = v.validate(r#"{"$class":"ns.Order","customer":{"$class":"ns.Customer","name":"A"},"lines":[{"$class":"ns.Customer","name":"B"}]}"#);
    assert!(ok.is_ok(), "{:?}", ok);
    let r = v.validate(r#"{"$class":"ns.Order","customer":{"$class":"ns.Customer","name":"A"},"lines":[{"$class":"ns.Nope"}]}"#);
    assert!(matches!(r, Err(ValidationError::UnknownClass { ref class_name }) if class_name == "ns.Nope"), "{:?}", r);
}

#[test]
fn regex_matching_and_not_matching() {
    let v = validator();
    assert!(v.validate(r#"{"$class":"ns.Code","code":"ABC"}"#).is_ok());
    let r = v.validate(r#"{"$class":"ns.Code","code":"abcd"}"#);
    assert!(matches!(r, Err(ValidationError::StringValidationError { ref pattern, ref value })
        if pattern == "^[A-Z]{3}$" && value == "abcd"), "{:?}", r);
}

#[test]
fn pattern_that_does_not_compile_fails_every_value() {
    let r = validator().validate(r#"{"$class":"ns.Broken","text":"("}"#);
    assert!(matches!(r, Err(ValidationError::StringValidationError { .. })), "{:?}", r);
}

#[test]
fn supertype_properties_are_merged() {
    let v = validator();
    let ok = v.validate(r#"{"$class":"ns.Employee","firstName":"Ada","lastName":"L","employeeId":7}"#);
    assert!(ok.is_ok(), "{:?}", ok);
    let r = v.validate(r#"{"$class":"ns.Employee","firstName":"Ada","employeeId":7}"#);
    assert!(matches!(r, Err(ValidationError::MissingRequiredProperty { ref property }) if property == "lastName"), "{:?}", r);
}

#[test]
fn child_property_wins_over_parent() {
    let v = validator();
    let ok = v.validate(r#"{"$class":"ns.Employee","firstName":"Ada","lastName":"L","employeeId":7,"age":true}"#);
    assert!(ok.is_ok(), "{:?}", ok);
    let r = v.validate(r#"{"$class":"ns.Employee","firstName":"Ada","lastName":"L","employeeId":7,"age":36}"#);
    assert!(matches!(r, Err(ValidationError::TypeMismatch { expected: ExpectedKind::Boolean, found: JsonKind::Number })), "{:?}", r);
}

#[test]
fn only_one_level_of_supertype_is_resolved() {
    let v = validator();
    let r = v.validate(r#"{"$class":"ns.Manager","employeeId":7,"firstName":"Ada"}"#);
    assert!(matches!(r, Err(ValidationError::UnknownProperty { ref property_name, .. }) if property_name == "firstName"), "{:?}", r);
    assert!(v.validate(r#"{"$class":"ns.Manager","employeeId":7}"#).is_ok());
}

#[test]
fn missing_supertype_definition() {
    let r = validator().validate(r#"{"$class":"ns.Orphan"}"#);
    assert!(matches!(r, Err(ValidationError::MissingSuperTypeDefinition { ref name }) if name == "ns.Missing"), "{:?}", r);
}

#[test]
fn leaf_kinds() {
    let v = validator();
    assert!(v.validate(r#"{"$class":"ns.Flags","active":true,"ratio":2,"count":-3}"#).is_ok());
    assert!(v.validate(r#"{"$class":"ns.Flags","ratio":0.5}"#).is_ok());
    let r = v.validate(r#"{"$class":"ns.Flags","active":"yes"}"#);
    assert!(matches!(r, Err(ValidationError::TypeMismatch { expected: ExpectedKind::Boolean, found: JsonKind::String })), "{:?}", r);
    let r = v.validate(r#"{"$class":"ns.Flags","ratio":null}"#);
    assert!(matches!(r, Err(ValidationError::TypeMismatch { expected: ExpectedKind::Double, found: JsonKind::Null })), "{:?}", r);
    let r = v.validate(r#"{"$class":"ns.Flags","when":"2020-01-01"}"#);
    assert!(matches!(r, Err(ValidationError::UnsupportedPropertyKind { ref property }) if property == "when"), "{:?}", r);
}

#[test]
fn integer_range() {
    let v = validator();
    assert!(v.validate(r#"{"$class":"ns.Flags","count":9223372036854775807}"#).is_ok());
    assert!(v.validate(r#"{"$class":"ns.Flags","count":-9223372036854775808}"#).is_ok());
    let r = v.validate(r#"{"$class":"ns.Flags","count":9223372036854775808}"#);
    assert!(matches!(r, Err(ValidationError::TypeMismatch { expected: ExpectedKind::Integer, found: JsonKind::Number })), "{:?}", r);
    let r = v.validate(r#"{"$class":"ns.Flags","count":1.5}"#);
    assert!(matches!(r, Err(ValidationError::TypeMismatch { expected: ExpectedKind::Integer, found: JsonKind::Number })), "{:?}", r);
    assert!(v.validate(r#"{"$class":"ns.Flags","ratio":9223372036854775808}"#).is_ok());
}

#[test]
fn instance_shape_errors() {
    let v = validator();
    let r = v.validate("[1, 2]");
    assert!(matches!(r, Err(ValidationError::TypeMismatch { expected: ExpectedKind::Object, found: JsonKind::Array })), "{:?}", r);
    let r = v.validate(r#"{"firstName":"Ada"}"#);
    assert!(matches!(r, Err(ValidationError::MissingRequiredProperty { ref property }) if property == "$class"), "{:?}", r);
    let r = v.validate(r#"{"$class":5}"#);
    assert!(matches!(r, Err(ValidationError::TypeMismatch { expected: ExpectedKind::String, found: JsonKind::Number })), "{:?}", r);
    let r = v.validate("{\"$class\": ");
    assert!(matches!(r, Err(ValidationError::JsonError { .. })), "{:?}", r);
}

#[test]
fn unknown_key_is_found_before_missing_one() {
    let r = validator().validate(r#"{"$class":"ns.Person","zzz":1}"#);
    assert!(matches!(r, Err(ValidationError::UnknownProperty { ref property_name, .. }) if property_name == "zzz"), "{:?}", r);
}

#[test]
fn required_properties_reported_in_declaration_order() {
    let r = validator().validate(r#"{"$class":"ns.Person"}"#);
    assert!(matches!(r, Err(ValidationError::MissingRequiredProperty { ref property }) if property == "firstName"), "{:?}", r);
}

#[test]
fn metamodel_faults() {
    let r = Validator::with_metamodel(r#"{"namespace":"ns"}"#);
    assert!(matches!(r, Err(ValidationError::MetamodelError { fault: MetamodelFault::MissingDeclarations })));
    let r = Validator::with_metamodel(r#"{"declarations":[]}"#);
    assert!(matches!(r, Err(ValidationError::MetamodelError { fault: MetamodelFault::MissingNamespace })));
    let r = Validator::with_metamodel(r#"{"declarations":[{"name":"X"}],"namespace":"ns"}"#);
    assert!(matches!(r, Err(ValidationError::MetamodelError { fault: MetamodelFault::MalformedDeclaration })));
    let r = Validator::with_metamodel("not json");
    assert!(matches!(r, Err(ValidationError::JsonError { .. })));
    let r = Validator::with_metamodel(r#"{"declarations":[],"namespace":"ns"}"#);
    assert!(r.is_ok());
}

#[test]
fn later_declaration_replaces_earlier() {
    let model = r#"{"namespace":"ns","declarations":[
      {"$class":"concerto.metamodel@1.0.0.ConceptDeclaration","name":"T","isAbstract":false,"properties":[
        {"$class":"concerto.metamodel@1.0.0.StringProperty","name":"a","isArray":false,"isOptional":false}]},
      {"$class":"concerto.metamodel@1.0.0.ConceptDeclaration","name":"T","isAbstract":false,"properties":[
        {"$class":"concerto.metamodel@1.0.0.StringProperty","name":"b","isArray":false,"isOptional":false}]}
    ]}"#;
    let v = Validator::with_metamodel(model).unwrap();
    assert!(v.validate(r#"{"$class":"ns.T","b":"x"}"#).is_ok());
    let r = v.validate(r#"{"$class":"ns.T","a":"x"}"#);
    assert!(matches!(r, Err(ValidationError::UnknownProperty { ref property_name, .. }) if property_name == "a"), "{:?}", r);
}

#[test]
fn error_messages_name_their_subject() {
    let r = validator().validate(r#"{"$class":"ns.DoesNotExist"}"#).unwrap_err();
    assert_eq!(r.message(), "Unknown class: ns.DoesNotExist");
    let r = validator().validate(r#"{"$class":"ns.Tagged","tags":"red"}"#).unwrap_err();
    assert_eq!(r.message(), "Type mismatch: expected array, found string");
}
