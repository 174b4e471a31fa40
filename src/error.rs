//! The errors of registry construction and of validation.
use vstd::prelude::*;

use crate::json::JsonKind;

verus! {

/// What a declared property asked of a value that did not have it.
#[derive(Clone, Copy, Debug, PartialEq, Eq, Structural)]
pub enum ExpectedKind {
    Object,
    Array,
    String,
    Boolean,
    Integer,
    Double,
}

/// Why a metamodel document could not be turned into a type registry.
#[derive(Clone, Copy, Debug, PartialEq, Eq, Structural)]
pub enum MetamodelFault {
    /// No `declarations` array at the top level.
    MissingDeclarations,
    /// No `namespace` string at the top level.
    MissingNamespace,
    /// A declaration that does not have the shape of a type declaration.
    MalformedDeclaration,
}

#[derive(Debug)]
pub enum ValidationError {
    /// The instance text is not JSON.
    JsonError { message: String },
    /// The metamodel document cannot be compiled into a registry.
    MetamodelError { fault: MetamodelFault },
    /// A value of the wrong JSON kind.
    TypeMismatch { expected: ExpectedKind, found: JsonKind },
    /// A required property (or `$class`) is absent.
    MissingRequiredProperty { property: String },
    /// A `$class` that names no type of the registry.
    UnknownClass { class_name: String },
    /// A key that the resolved type does not declare.
    UnknownProperty { property_name: String, class_name: String },
    /// A string that its pattern does not match, or whose pattern did not compile.
    StringValidationError { pattern: String, value: String },
    /// A declared parent type that the registry does not hold.
    MissingSuperTypeDefinition { name: String },
    /// A property whose kind the validator does not check.
    UnsupportedPropertyKind { property: String },
}

/// The result of a fallible operation of the library.
pub type ValidationResult<T> = Result<T, ValidationError>;

/// The mathematical content of a [`ValidationError`].
pub enum Failure {
    JsonSyntax,
    Metamodel { fault: MetamodelFault },
    TypeMismatch { expected: ExpectedKind, found: JsonKind },
    MissingRequiredProperty { property: Seq<char> },
    UnknownClass { class_name: Seq<char> },
    UnknownProperty { property_name: Seq<char>, class_name: Seq<char> },
    StringValidation { pattern: Seq<char>, value: Seq<char> },
    MissingSuperType { name: Seq<char> },
    UnsupportedPropertyKind { property: Seq<char> },
}

impl View for ValidationError {
    type V = Failure;

    open spec fn view(&self) -> Failure {
        match self {
            ValidationError::JsonError { .. } => Failure::JsonSyntax,
            ValidationError::MetamodelError { fault } => Failure::Metamodel { fault: *fault },
            ValidationError::TypeMismatch { expected, found } => Failure::TypeMismatch {
                expected: *expected,
                found: *found,
            },
            ValidationError::MissingRequiredProperty { property } => {
                Failure::MissingRequiredProperty { property: property@ }
            },
            ValidationError::UnknownClass { class_name } => Failure::UnknownClass {
                class_name: class_name@,
            },
            ValidationError::UnknownProperty { property_name, class_name } => {
                Failure::UnknownProperty { property_name: property_name@, class_name: class_name@ }
            },
            ValidationError::StringValidationError { pattern, value } => {
                Failure::StringValidation { pattern: pattern@, value: value@ }
            },
            ValidationError::MissingSuperTypeDefinition { name } => Failure::MissingSuperType {
                name: name@,
            },
            ValidationError::UnsupportedPropertyKind { property } => {
                Failure::UnsupportedPropertyKind { property: property@ }
            },
        }
    }
}

/// The outcome of a validation, with its error seen through its view.
pub open spec fn outcome(r: Result<(), ValidationError>) -> Result<(), Failure> {
    match r {
        Ok(()) => Ok(()),
        Err(e) => Err(e@),
    }
}

impl ValidationError {
    /// A one-line description of the error.
    pub fn message(&self) -> (r: String) {
        let mut s = String::new();
        match self {
            ValidationError::JsonError { message } => {
                s.append("JSON parsing error: ");
                s.append(message.as_str());
            },
            ValidationError::MetamodelError { fault } => {
                s.append("Metamodel loading error: ");
                s.append(
                    match fault {
                        MetamodelFault::MissingDeclarations => "missing declarations",
                        MetamodelFault::MissingNamespace => "missing namespace",
                        MetamodelFault::MalformedDeclaration => "malformed declaration",
                    },
                );
            },
            ValidationError::TypeMismatch { expected, found } => {
                s.append("Type mismatch: expected ");
                s.append(
                    match expected {
                        ExpectedKind::Object => "object",
                        ExpectedKind::Array => "array",
                        ExpectedKind::String => "string",
                        ExpectedKind::Boolean => "boolean",
                        ExpectedKind::Integer => "integer",
                        ExpectedKind::Double => "double",
                    },
                );
                s.append(", found ");
                s.append(
                    match found {
                        JsonKind::Null => "null",
                        JsonKind::Boolean => "boolean",
                        JsonKind::Number => "number",
                        JsonKind::String => "string",
                        JsonKind::Array => "array",
                        JsonKind::Object => "object",
                    },
                );
            },
            ValidationError::MissingRequiredProperty { property } => {
                s.append("Missing required property: ");
                s.append(property.as_str());
            },
            ValidationError::UnknownClass { class_name } => {
                s.append("Unknown class: ");
                s.append(class_name.as_str());
            },
            ValidationError::UnknownProperty { property_name, class_name } => {
                s.append("Unknown property: ");
                s.append(property_name.as_str());
                s.append(" for type ");
                s.append(class_name.as_str());
            },
            ValidationError::StringValidationError { pattern, value } => {
                s.append("Invalid string property: ");
                s.append(value.as_str());
                s.append(" does not match ");
                s.append(pattern.as_str());
            },
            ValidationError::MissingSuperTypeDefinition { name } => {
                s.append("Missing super type definition: ");
                s.append(name.as_str());
            },
            ValidationError::UnsupportedPropertyKind { property } => {
                s.append("Unsupported property type: ");
                s.append(property.as_str());
            },
        }
        s
    }
}

} // verus!
