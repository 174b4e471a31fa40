//! The Concerto metamodel document that the library validates against by
//! default: the `concerto.metamodel@1.0.0` namespace, written in its own
//! JSON AST format, so that it validates against itself.
use vstd::prelude::*;

verus! {

pub const CONCERTO_METAMODEL: &'static str = r#"{"$class": "concerto.metamodel@1.0.0.Model", "namespace": "concerto.metamodel@1.0.0", "imports": [], "declarations": [
  {"$class": "concerto.metamodel@1.0.0.ConceptDeclaration", "name": "Position", "isAbstract": false, "properties": [{"$class": "concerto.metamodel@1.0.0.IntegerProperty", "name": "line", "isArray": false, "isOptional": false}, {"$class": "concerto.metamodel@1.0.0.IntegerProperty", "name": "column", "isArray": false, "isOptional": false}, {"$class": "concerto.metamodel@1.0.0.IntegerProperty", "name": "offset", "isArray": false, "isOptional": false}]},
  {"$class": "concerto.metamodel@1.0.0.ConceptDeclaration", "name": "Range", "isAbstract": false, "properties": [{"$class": "concerto.metamodel@1.0.0.ObjectProperty", "name": "start", "isArray": false, "isOptional": false, "type": {"$class": "concerto.metamodel@1.0.0.TypeIdentifier", "name": "Position"}}, {"$class": "concerto.metamodel@1.0.0.ObjectProperty", "name": "end", "isArray": false, "isOptional": false, "type": {"$class": "concerto.metamodel@1.0.0.TypeIdentifier", "name": "Position"}}, {"$class": "concerto.metamodel@1.0.0.StringProperty", "name": "source", "isArray": false, "isOptional": true}]},
  {"$class": "concerto.metamodel@1.0.0.ConceptDeclaration", "name": "TypeIdentifier", "isAbstract": false, "properties": [{"$class": "concerto.metamodel@1.0.0.StringProperty", "name": "name", "isArray": false, "isOptional": false}, {"$class": "concerto.metamodel@1.0.0.StringProperty", "name": "namespace", "isArray": false, "isOptional": true}]},
  {"$class": "concerto.metamodel@1.0.0.ConceptDeclaration", "name": "DecoratorLiteral", "isAbstract": true, "properties": [{"$class": "concerto.metamodel@1.0.0.ObjectProperty", "name": "location", "isArray": false, "isOptional": true, "type": {"$class": "concerto.metamodel@1.0.0.TypeIdentifier", "name": "Range"}}]},
  {"$class": "concerto.metamodel@1.0.0.ConceptDeclaration", "name": "DecoratorString", "isAbstract": false, "properties": [{"$class": "concerto.metamodel@1.0.0.StringProperty", "name": "value", "isArray": false, "isOptional": false}], "superType": {"$class": "concerto.metamodel@1.0.0.TypeIdentifier", "name": "DecoratorLiteral"}},
  {"$class": "concerto.metamodel@1.0.0.ConceptDeclaration", "name": "DecoratorNumber", "isAbstract": false, "properties": [{"$class": "concerto.metamodel@1.0.0.DoubleProperty", "name": "value", "isArray": false, "isOptional": false}], "superType": {"$class": "concerto.metamodel@1.0.0.TypeIdentifier", "name": "DecoratorLiteral"}},
  {"$class": "concerto.metamodel@1.0.0.ConceptDeclaration", "name": "DecoratorBoolean", "isAbstract": false, "properties": [{"$class": "concerto.metamodel@1.0.0.BooleanProperty", "name": "value", "isArray": false, "isOptional": false}], "superType": {"$class": "concerto.metamodel@1.0.0.TypeIdentifier", "name": "DecoratorLiteral"}},
  {"$class": "concerto.metamodel@1.0.0.ConceptDeclaration", "name": "DecoratorTypeReference", "isAbstract": false, "properties": [{"$class": "concerto.metamodel@1.0.0.ObjectProperty", "name": "type", "isArray": false, "isOptional": false, "type": {"$class": "concerto.metamodel@1.0.0.TypeIdentifier", "name": "TypeIdentifier"}}, {"$class": "concerto.metamodel@1.0.0.BooleanProperty", "name": "isArray", "isArray": false, "isOptional": false}], "superType": {"$class": "concerto.metamodel@1.0.0.TypeIdentifier", "name": "DecoratorLiteral"}},
  {"$class": "concerto.metamodel@1.0.0.ConceptDeclaration", "name": "Decorator", "isAbstract": false, "properties": [{"$class": "concerto.metamodel@1.0.0.StringProperty", "name": "name", "isArray": false, "isOptional": false}, {"$class": "concerto.metamodel@1.0.0.ObjectProperty", "name": "arguments", "isArray": true, "isOptional": true, "type": {"$class": "concerto.metamodel@1.0.0.TypeIdentifier", "name": "DecoratorLiteral"}}, {"$class": "concerto.metamodel@1.0.0.ObjectProperty", "name": "location", "isArray": false, "isOptional": true, "type": {"$class": "concerto.metamodel@1.0.0.TypeIdentifier", "name": "Range"}}]},
  {"$class": "concerto.metamodel@1.0.0.ConceptDeclaration", "name": "Identified", "isAbstract": false, "properties": []},
  {"$class": "concerto.metamodel@1.0.0.ConceptDeclaration", "name": "IdentifiedBy", "isAbstract": false, "properties": [{"$class": "concerto.metamodel@1.0.0.StringProperty", "name": "name", "isArray": false, "isOptional": false}], "superType": {"$class": "concerto.metamodel@1.0.0.TypeIdentifier", "name": "Identified"}},
  {"$class": "concerto.metamodel@1.0.0.ConceptDeclaration", "name": "Declaration", "isAbstract": true, "properties": [{"$class": "concerto.metamodel@1.0.0.StringProperty", "name": "name", "isArray": false, "isOptional": false}, {"$class": "concerto.metamodel@1.0.0.ObjectProperty", "name": "decorators", "isArray": true, "isOptional": true, "type": {"$class": "concerto.metamodel@1.0.0.TypeIdentifier", "name": "Decorator"}}, {"$class": "concerto.metamodel@1.0.0.ObjectProperty", "name": "location", "isArray": false, "isOptional": true, "type": {"$class": "concerto.metamodel@1.0.0.TypeIdentifier", "name": "Range"}}]},
  {"$class": "concerto.metamodel@1.0.0.ConceptDeclaration", "name": "EnumDeclaration", "isAbstract": false, "properties": [{"$class": "concerto.metamodel@1.0.0.ObjectProperty", "name": "properties", "isArray": true, "isOptional": false, "type": {"$class": "concerto.metamodel@1.0.0.TypeIdentifier", "name": "EnumProperty"}}], "superType": {"$class": "concerto.metamodel@1.0.0.TypeIdentifier", "name": "Declaration"}},
  {"$class": "concerto.metamodel@1.0.0.ConceptDeclaration", "name": "EnumProperty", "isAbstract": false, "properties": [{"$class": "concerto.metamodel@1.0.0.StringProperty", "name": "name", "isArray": false, "isOptional": false}, {"$class": "concerto.metamodel@1.0.0.ObjectProperty", "name": "decorators", "isArray": true, "isOptional": true, "type": {"$class": "concerto.metamodel@1.0.0.TypeIdentifier", "name": "Decorator"}}, {"$class": "concerto.metamodel@1.0.0.ObjectProperty", "name": "location", "isArray": false, "isOptional": true, "type": {"$class": "concerto.metamodel@1.0.0.TypeIdentifier", "name": "Range"}}]},
  {"$class": "concerto.metamodel@1.0.0.ConceptDeclaration", "name": "ConceptDeclaration", "isAbstract": false, "properties": [{"$class": "concerto.metamodel@1.0.0.BooleanProperty", "name": "isAbstract", "isArray": false, "isOptional": false}, {"$class": "concerto.metamodel@1.0.0.ObjectProperty", "name": "identified", "isArray": false, "isOptional": true, "type": {"$class": "concerto.metamodel@1.0.0.TypeIdentifier", "name": "Identified"}}, {"$class": "concerto.metamodel@1.0.0.ObjectProperty", "name": "superType", "isArray": false, "isOptional": true, "type": {"$class": "concerto.metamodel@1.0.0.TypeIdentifier", "name": "TypeIdentifier"}}, {"$class": "concerto.metamodel@1.0.0.ObjectProperty", "name": "properties", "isArray": true, "isOptional": false, "type": {"$class": "concerto.metamodel@1.0.0.TypeIdentifier", "name": "Property"}}], "superType": {"$class": "concerto.metamodel@1.0.0.TypeIdentifier", "name": "Declaration"}},
  {"$class": "concerto.metamodel@1.0.0.ConceptDeclaration", "name": "AssetDeclaration", "isAbstract": false, "properties": [], "superType": {"$class": "concerto.metamodel@1.0.0.TypeIdentifier", "name": "ConceptDeclaration"}},
  {"$class": "concerto.metamodel@1.0.0.ConceptDeclaration", "name": "ParticipantDeclaration", "isAbstract": false, "properties": [], "superType": {"$class": "concerto.metamodel@1.0.0.TypeIdentifier", "name": "ConceptDeclaration"}},
  {"$class": "concerto.metamodel@1.0.0.ConceptDeclaration", "name": "TransactionDeclaration", "isAbstract": false, "properties": [], "superType": {"$class": "concerto.metamodel@1.0.0.TypeIdentifier", "name": "ConceptDeclaration"}},
  {"$class": "concerto.metamodel@1.0.0.ConceptDeclaration", "name": "EventDeclaration", "isAbstract": false, "properties": [], "superType": {"$class": "concerto.metamodel@1.0.0.TypeIdentifier", "name": "ConceptDeclaration"}},
  {"$class": "concerto.metamodel@1.0.0.ConceptDeclaration", "name": "Property", "isAbstract": true, "properties": [{"$class": "concerto.metamodel@1.0.0.StringProperty", "name": "name", "isArray": false, "isOptional": false}, {"$class": "concerto.metamodel@1.0.0.BooleanProperty", "name": "isArray", "isArray": false, "isOptional": false}, {"$class": "concerto.metamodel@1.0.0.BooleanProperty", "name": "isOptional", "isArray": false, "isOptional": false}, {"$class": "concerto.metamodel@1.0.0.ObjectProperty", "name": "decorators", "isArray": true, "isOptional": true, "type": {"$class": "concerto.metamodel@1.0.0.TypeIdentifier", "name": "Decorator"}}, {"$class": "concerto.metamodel@1.0.0.ObjectProperty", "name": "location", "isArray": false, "isOptional": true, "type": {"$class": "concerto.metamodel@1.0.0.TypeIdentifier", "name": "Range"}}]},
  {"$class": "concerto.metamodel@1.0.0.ConceptDeclaration", "name": "RelationshipProperty", "isAbstract": false, "properties": [{"$class": "concerto.metamodel@1.0.0.ObjectProperty", "name": "type", "isArray": false, "isOptional": false, "type": {"$class": "concerto.metamodel@1.0.0.TypeIdentifier", "name": "TypeIdentifier"}}], "superType": {"$class": "concerto.metamodel@1.0.0.TypeIdentifier", "name": "Property"}},
  {"$class": "concerto.metamodel@1.0.0.ConceptDeclaration", "name": "ObjectProperty", "isAbstract": false, "properties": [{"$class": "concerto.metamodel@1.0.0.StringProperty", "name": "defaultValue", "isArray": false, "isOptional": true}, {"$class": "concerto.metamodel@1.0.0.ObjectProperty", "name": "type", "isArray": false, "isOptional": false, "type": {"$class": "concerto.metamodel@1.0.0.TypeIdentifier", "name": "TypeIdentifier"}}], "superType": {"$class": "concerto.metamodel@1.0.0.TypeIdentifier", "name": "Property"}},
  {"$class": "concerto.metamodel@1.0.0.ConceptDeclaration", "name": "BooleanProperty", "isAbstract": false, "properties": [{"$class": "concerto.metamodel@1.0.0.BooleanProperty", "name": "defaultValue", "isArray": false, "isOptional": true}], "superType": {"$class": "concerto.metamodel@1.0.0.TypeIdentifier", "name": "Property"}},
  {"$class": "concerto.metamodel@1.0.0.ConceptDeclaration", "name": "DateTimeProperty", "isAbstract": false, "properties": [], "superType": {"$class": "concerto.metamodel@1.0.0.TypeIdentifier", "name": "Property"}},
  {"$class": "concerto.metamodel@1.0.0.ConceptDeclaration", "name": "StringProperty", "isAbstract": false, "properties": [{"$class": "concerto.metamodel@1.0.0.StringProperty", "name": "defaultValue", "isArray": false, "isOptional": true}, {"$class": "concerto.metamodel@1.0.0.ObjectProperty", "name": "validator", "isArray": false, "isOptional": true, "type": {"$class": "concerto.metamodel@1.0.0.TypeIdentifier", "name": "StringRegexValidator"}}], "superType": {"$class": "concerto.metamodel@1.0.0.TypeIdentifier", "name": "Property"}},
  {"$class": "concerto.metamodel@1.0.0.ConceptDeclaration", "name": "StringRegexValidator", "isAbstract": false, "properties": [{"$class": "concerto.metamodel@1.0.0.StringProperty", "name": "pattern", "isArray": false, "isOptional": false}, {"$class": "concerto.metamodel@1.0.0.StringProperty", "name": "flags", "isArray": false, "isOptional": false}]},
  {"$class": "concerto.metamodel@1.0.0.ConceptDeclaration", "name": "DoubleProperty", "isAbstract": false, "properties": [{"$class": "concerto.metamodel@1.0.0.DoubleProperty", "name": "defaultValue", "isArray": false, "isOptional": true}, {"$class": "concerto.metamodel@1.0.0.ObjectProperty", "name": "validator", "isArray": false, "isOptional": true, "type": {"$class": "concerto.metamodel@1.0.0.TypeIdentifier", "name": "DoubleDomainValidator"}}], "superType": {"$class": "concerto.metamodel@1.0.0.TypeIdentifier", "name": "Property"}},
  {"$class": "concerto.metamodel@1.0.0.ConceptDeclaration", "name": "DoubleDomainValidator", "isAbstract": false, "properties": [{"$class": "concerto.metamodel@1.0.0.DoubleProperty", "name": "lower", "isArray": false, "isOptional": true}, {"$class": "concerto.metamodel@1.0.0.DoubleProperty", "name": "upper", "isArray": false, "isOptional": true}]},
  {"$class": "concerto.metamodel@1.0.0.ConceptDeclaration", "name": "IntegerProperty", "isAbstract": false, "properties": [{"$class": "concerto.metamodel@1.0.0.IntegerProperty", "name": "defaultValue", "isArray": false, "isOptional": true}, {"$class": "concerto.metamodel@1.0.0.ObjectProperty", "name": "validator", "isArray": false, "isOptional": true, "type": {"$class": "concerto.metamodel@1.0.0.TypeIdentifier", "name": "IntegerDomainValidator"}}], "superType": {"$class": "concerto.metamodel@1.0.0.TypeIdentifier", "name": "Property"}},
  {"$class": "concerto.metamodel@1.0.0.ConceptDeclaration", "name": "IntegerDomainValidator", "isAbstract": false, "properties": [{"$class": "concerto.metamodel@1.0.0.IntegerProperty", "name": "lower", "isArray": false, "isOptional": true}, {"$class": "concerto.metamodel@1.0.0.IntegerProperty", "name": "upper", "isArray": false, "isOptional": true}]},
  {"$class": "concerto.metamodel@1.0.0.ConceptDeclaration", "name": "LongProperty", "isAbstract": false, "properties": [{"$class": "concerto.metamodel@1.0.0.LongProperty", "name": "defaultValue", "isArray": false, "isOptional": true}, {"$class": "concerto.metamodel@1.0.0.ObjectProperty", "name": "validator", "isArray": false, "isOptional": true, "type": {"$class": "concerto.metamodel@1.0.0.TypeIdentifier", "name": "LongDomainValidator"}}], "superType": {"$class": "concerto.metamodel@1.0.0.TypeIdentifier", "name": "Property"}},
  {"$class": "concerto.metamodel@1.0.0.ConceptDeclaration", "name": "LongDomainValidator", "isAbstract": false, "properties": [{"$class": "concerto.metamodel@1.0.0.LongProperty", "name": "lower", "isArray": false, "isOptional": true}, {"$class": "concerto.metamodel@1.0.0.LongProperty", "name": "upper", "isArray": false, "isOptional": true}]},
  {"$class": "concerto.metamodel@1.0.0.ConceptDeclaration", "name": "Import", "isAbstract": true, "properties": [{"$class": "concerto.metamodel@1.0.0.StringProperty", "name": "namespace", "isArray": false, "isOptional": false}, {"$class": "concerto.metamodel@1.0.0.StringProperty", "name": "uri", "isArray": false, "isOptional": true}]},
  {"$class": "concerto.metamodel@1.0.0.ConceptDeclaration", "name": "ImportAll", "isAbstract": false, "properties": [], "superType": {"$class": "concerto.metamodel@1.0.0.TypeIdentifier", "name": "Import"}},
  {"$class": "concerto.metamodel@1.0.0.ConceptDeclaration", "name": "ImportType", "isAbstract": false, "properties": [{"$class": "concerto.metamodel@1.0.0.StringProperty", "name": "name", "isArray": false, "isOptional": false}], "superType": {"$class": "concerto.metamodel@1.0.0.TypeIdentifier", "name": "Import"}},
  {"$class": "concerto.metamodel@1.0.0.ConceptDeclaration", "name": "ImportTypes", "isAbstract": false, "properties": [{"$class": "concerto.metamodel@1.0.0.StringProperty", "name": "types", "isArray": true, "isOptional": false}], "superType": {"$class": "concerto.metamodel@1.0.0.TypeIdentifier", "name": "Import"}},
  {"$class": "concerto.metamodel@1.0.0.ConceptDeclaration", "name": "Model", "isAbstract": false, "properties": [{"$class": "concerto.metamodel@1.0.0.StringProperty", "name": "namespace", "isArray": false, "isOptional": false}, {"$class": "concerto.metamodel@1.0.0.StringProperty", "name": "sourceUri", "isArray": false, "isOptional": true}, {"$class": "concerto.metamodel@1.0.0.StringProperty", "name": "concertoVersion", "isArray": false, "isOptional": true}, {"$class": "concerto.metamodel@1.0.0.ObjectProperty", "name": "imports", "isArray": true, "isOptional": true, "type": {"$class": "concerto.metamodel@1.0.0.TypeIdentifier", "name": "Import"}}, {"$class": "concerto.metamodel@1.0.0.ObjectProperty", "name": "declarations", "isArray": true, "isOptional": true, "type": {"$class": "concerto.metamodel@1.0.0.TypeIdentifier", "name": "Declaration"}}, {"$class": "concerto.metamodel@1.0.0.ObjectProperty", "name": "decorators", "isArray": true, "isOptional": true, "type": {"$class": "concerto.metamodel@1.0.0.TypeIdentifier", "name": "Decorator"}}]},
  {"$class": "concerto.metamodel@1.0.0.ConceptDeclaration", "name": "Models", "isAbstract": false, "properties": [{"$class": "concerto.metamodel@1.0.0.ObjectProperty", "name": "models", "isArray": true, "isOptional": false, "type": {"$class": "concerto.metamodel@1.0.0.TypeIdentifier", "name": "Model"}}]}
]}"#;

} // verus!
