use concerto_validator_rs::ast::ConceptDeclaration;
use concerto_validator_rs::json::{Json, JsonNumber};
use concerto_validator_rs::model_manager::ModelManager;
use concerto_validator_rs::registry::{TypeDefinition, TypeRegistry};
use concerto_validator_rs::serializer::{JsonPopulator, Serializer};
use concerto_validator_rs::{ValidationError, Validator};

fn s(text: &str) -> String {
    text.to_string()
}

fn string_property(name: &str, optional: bool) -> Json {
    Json::Object(vec![
        (s("$class"), Json::Str(s("concerto.metamodel@1.0.0.StringProperty"))),
        (s("isArray"), Json::Bool(false)),
        (s("isOptional"), Json::Bool(optional)),
        (s("name"), Json::Str(s(name))),
    ])
}

fn declaration(name: &str, props: Vec<Json>, parent: Option<&str>) -> Json {
    let mut members = vec![
        (s("$class"), Json::Str(s("concerto.metamodel@1.0.0.ConceptDeclaration"))),
        (s("isAbstract"), Json::Bool(false)),
        (s("name"), Json::Str(s(name))),
        (s("properties"), Json::Array(props)),
    ];
    if let Some(p) = parent {
        members.push((
            s("superType"),
            Json::Object(vec![
                (s("$class"), Json::Str(s("concerto.metamodel@1.0.0.TypeIdentifier"))),
                (s("name"), Json::Str(s(p))),
            ]),
        ));
    }
    Json::Object(members)
}

fn metamodel() -> Json {
    Json::Object(vec![
        (
            s("declarations"),
            Json::Array(vec![
                declaration("Base", vec![string_property("id", false)], None),
                declaration("Item", vec![string_property("label", false), string_property("note", true)], Some("Base")),
            ]),
        ),
        (s("namespace"), Json::Str(s("demo"))),
    ])
}

#[test]
fn model_manager_validates_built_values() {
    let manager = ModelManager::new(&metamodel()).unwrap();
    let item = Json::Object(vec![
        (s("$class"), Json::Str(s("demo.Item"))),
        (s("id"), Json::Str(s("1"))),
        (s("label"), Json::Str(s("x"))),
    ]);
    assert!(manager.validate_metamodel(&item).is_ok());
    let missing = Json::Object(vec![(s("$class"), Json::Str(s("demo.Item"))), (s("label"), Json::Str(s("x")))]);
    let r = manager.validate_metamodel(&missing);
    assert!(matches!(r, Err(ValidationError::MissingRequiredProperty { ref property }) if property == "id"));
    let number = Json::Number(JsonNumber::PosInt(3));
    assert!(manager.validate_metamodel(&number).is_err());
}

#[test]
fn type_definition_accessors() {
    let item = ConceptDeclaration::from_json(&declaration(
        "Item",
        vec![string_property("label", false), string_property("note", true)],
        Some("Base"),
    ))
    .unwrap();
    let def = TypeDefinition::new(item);
    assert_eq!(def.expected_properties().len(), 2);
    let required = def.required_properties();
    assert_eq!(required.len(), 1);
    assert_eq!(required[0].name, "label");
    assert!(def.expected_property(&s("note")).is_some());
    assert!(def.expected_property(&s("other")).is_none());
    assert!(def.has_supertype());
    assert_eq!(def.get_supertype().unwrap().name, "Base");
}

#[test]
fn registry_keys_are_qualified() {
    let reg = TypeRegistry::from_metamodel(&metamodel()).unwrap();
    assert_eq!(reg.len(), 2);
    assert_eq!(reg.namespace(), "demo");
    assert!(reg.get(&s("demo.Base")).is_some());
    assert!(reg.get(&s("Base")).is_none());
    assert_eq!(reg.definition_at(1).inner.name, "Item");
}

#[test]
fn serializer_returns_the_validated_value() {
    let validator = Validator::with_metamodel(r#"{"namespace":"demo","declarations":[
      {"$class":"concerto.metamodel@1.0.0.ConceptDeclaration","name":"Base","isAbstract":false,"properties":[
        {"$class":"concerto.metamodel@1.0.0.StringProperty","name":"id","isArray":false,"isOptional":false}]}]}"#)
    .unwrap();
    let serializer = Serializer::from_validator(validator);
    match serializer.from_json(r#"{"id":"7","$class":"demo.Base"}"#).unwrap() {
        Json::Object(members) => {
            assert_eq!(members.len(), 2);
            assert_eq!(members[0].0, "$class");
            assert!(matches!(&members[1].1, Json::Str(v) if v == "7"));
        }
        other => panic!("not an object: {:?}", other),
    }
    assert!(serializer.from_json(r#"{"$class":"demo.Base"}"#).is_err());
}

#[test]
fn populator_uses_the_carried_metamodel() {
    let populator = JsonPopulator::new().unwrap();
    let value = populator
        .populate(r#"{"$class":"concerto.metamodel@1.0.0.TypeIdentifier","name":"X","namespace":"y"}"#)
        .unwrap();
    assert!(matches!(value, Json::Object(ref m) if m.len() == 3));
    assert!(populator.populate(r#"{"$class":"concerto.metamodel@1.0.0.TypeIdentifier"}"#).is_err());
    assert!(Serializer::new().is_ok());
}

#[test]
fn parsed_numbers_keep_their_kind() {
    let validator = Validator::new().unwrap();
    let position = r#"{"$class":"concerto.metamodel@1.0.0.Position","line":1,"column":-2,"offset":3}"#;
    assert!(validator.validate(position).is_ok());
    let fractional = r#"{"$class":"concerto.metamodel@1.0.0.Position","line":1.25,"column":2,"offset":3}"#;
    assert!(validator.validate(fractional).is_err());
}

#[test]
fn validator_patterns_of_a_definition() {
    let code = Json::Object(vec![
        (s("$class"), Json::Str(s("concerto.metamodel@1.0.0.StringProperty"))),
        (s("isArray"), Json::Bool(false)),
        (s("isOptional"), Json::Bool(false)),
        (s("name"), Json::Str(s("code"))),
        (
            s("validator"),
            Json::Object(vec![
                (s("$class"), Json::Str(s("concerto.metamodel@1.0.0.StringRegexValidator"))),
                (s("flags"), Json::Str(s(""))),
                (s("pattern"), Json::Str(s("^[a-z]+$"))),
            ]),
        ),
    ]);
    let decl = ConceptDeclaration::from_json(&declaration("Coded", vec![string_property("id", false), code], None)).unwrap();
    let def = TypeDefinition::new(decl);
    let patterns = def.get_string_validator_patterns();
    assert_eq!(patterns.len(), 1);
    assert_eq!(patterns[0], "^[a-z]+$");
}

#[test]
fn repeated_qualified_name_is_registered_once() {
    let meta = Json::Object(vec![
        (
            s("declarations"),
            Json::Array(vec![
                declaration("Base", vec![string_property("id", false)], None),
                declaration("Other", vec![], None),
                declaration("Base", vec![string_property("key", false)], None),
            ]),
        ),
        (s("namespace"), Json::Str(s("demo"))),
    ]);
    let reg = TypeRegistry::from_metamodel(&meta).unwrap();
    assert_eq!(reg.len(), 2);
    let base = reg.get(&s("demo.Base")).unwrap();
    assert_eq!(base.inner.properties[0].name, "key");
    assert_eq!(reg.definition_at(0).inner.properties[0].name, "key");
    assert_eq!(reg.definition_at(1).inner.name, "Other");
}

#[test]
fn validate_resource_checks_a_built_value() {
    let manager = ModelManager::new(&metamodel()).unwrap();
    let base = Json::Object(vec![(s("$class"), Json::Str(s("demo.Base"))), (s("id"), Json::Str(s("1")))]);
    assert!(manager.validate_resource(&base).is_ok());
    let unknown = Json::Object(vec![(s("$class"), Json::Str(s("demo.Nothing")))]);
    assert!(matches!(manager.validate_resource(&unknown), Err(ValidationError::UnknownClass { .. })));
}
