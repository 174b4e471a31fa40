//! Reading instance documents: parse, validate, and hand back the value.
use vstd::prelude::*;

use crate::error::{Failure, ValidationError};
use crate::json::{json_document, parse_document, Json};
use crate::metamodel::CONCERTO_METAMODEL;
use crate::model_manager::value_result;
use crate::registry::RegistryView;
use crate::validator::{metamodel_text_registry, Validator};

verus! {

/// Parses JSON text into a value that has been validated against a
/// registry.
pub struct Serializer {
    validator: Validator,
}

impl View for Serializer {
    type V = RegistryView;

    closed spec fn view(&self) -> RegistryView {
        self.validator@
    }
}

impl Serializer {
    /// A serializer for the Concerto metamodel that the library carries.
    pub fn new() -> (r: Result<Serializer, ValidationError>)
        ensures
            match r {
                Ok(s) => metamodel_text_registry(CONCERTO_METAMODEL@) == Ok::<RegistryView, Failure>(
                    s@,
                ),
                Err(e) => metamodel_text_registry(CONCERTO_METAMODEL@) == Err::<
                    RegistryView,
                    Failure,
                >(e@),
            },
    {
        let validator = Validator::new()?;
        Ok(Serializer { validator })
    }

    /// A serializer over a given validator.
    pub fn from_validator(validator: Validator) -> (r: Serializer)
        ensures
            r@ == validator@,
    {
        Serializer { validator }
    }

    /// Parses a JSON text and validates it, returning the value it denotes.
    pub fn from_json(&self, json: &str) -> (r: Result<Json, ValidationError>)
        ensures
            match json_document(json@) {
                None => r matches Err(e) && e@ == Failure::JsonSyntax,
                Some(v) => match value_result(self@, v) {
                    Ok(()) => r == Ok::<Json, ValidationError>(v),
                    Err(f) => r matches Err(e) && e@ == f,
                },
            },
    {
        let value = match parse_document(json) {
            Ok(v) => v,
            Err(message) => {
                return Err(ValidationError::JsonError { message });
            },
        };
        self.validator.validate_value(&value)?;
        Ok(value)
    }
}

/// Fills values from JSON text through a [`Serializer`].
pub struct JsonPopulator {
    serializer: Serializer,
}

impl View for JsonPopulator {
    type V = RegistryView;

    closed spec fn view(&self) -> RegistryView {
        self.serializer@
    }
}

impl JsonPopulator {
    /// A populator for the Concerto metamodel that the library carries.
    pub fn new() -> (r: Result<JsonPopulator, ValidationError>)
        ensures
            match r {
                Ok(p) => metamodel_text_registry(CONCERTO_METAMODEL@) == Ok::<RegistryView, Failure>(
                    p@,
                ),
                Err(e) => metamodel_text_registry(CONCERTO_METAMODEL@) == Err::<
                    RegistryView,
                    Failure,
                >(e@),
            },
    {
        let serializer = Serializer::new()?;
        Ok(JsonPopulator { serializer })
    }

    /// Parses and validates a JSON text, returning the value it denotes.
    pub fn populate(&self, json: &str) -> (r: Result<Json, ValidationError>)
        ensures
            match json_document(json@) {
                None => r matches Err(e) && e@ == Failure::JsonSyntax,
                Some(v) => match value_result(self@, v) {
                    Ok(()) => r == Ok::<Json, ValidationError>(v),
                    Err(f) => r matches Err(e) && e@ == f,
                },
            },
    {
        self.serializer.from_json(json)
    }
}

} // verus!
