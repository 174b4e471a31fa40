//! Validation of instance documents given as JSON text.
use vstd::prelude::*;

use crate::error::{outcome, MetamodelFault, ValidationError};
use crate::json::{json_document, parse_document, Json};
use crate::metamodel::CONCERTO_METAMODEL;
use crate::model_manager::{value_result, ModelManager};
use crate::registry::{metamodel_registry, RegistryView};

verus! {

/// The registry that a metamodel text compiles to, or the failure that
/// stops it.
pub open spec fn metamodel_text_registry(text: Seq<char>) -> Result<RegistryView, crate::error::Failure> {
    match json_document(text) {
        None => Err(crate::error::Failure::JsonSyntax),
        Some(m) => match metamodel_registry(m) {
            Ok(reg) => Ok(reg),
            Err(fault) => Err(crate::error::Failure::Metamodel { fault }),
        },
    }
}

/// The outcome of validating a JSON text against a registry: a text that is
/// not JSON fails before any structural check.
pub open spec fn text_result(reg: RegistryView, text: Seq<char>) -> Result<(), crate::error::Failure> {
    match json_document(text) {
        None => Err(crate::error::Failure::JsonSyntax),
        Some(j) => value_result(reg, j),
    }
}

/// Validates JSON texts against the registry of one metamodel.
pub struct Validator {
    metamodel_manager: ModelManager,
}

impl View for Validator {
    type V = RegistryView;

    closed spec fn view(&self) -> RegistryView {
        self.metamodel_manager@
    }
}

impl Validator {
    /// A validator for the Concerto metamodel that the library carries.
    pub fn new() -> (r: Result<Validator, ValidationError>)
        ensures
            match r {
                Ok(v) => metamodel_text_registry(CONCERTO_METAMODEL@) == Ok::<
                    RegistryView,
                    crate::error::Failure,
                >(v@),
                Err(e) => metamodel_text_registry(CONCERTO_METAMODEL@) == Err::<
                    RegistryView,
                    crate::error::Failure,
                >(e@),
            },
    {
        Validator::with_metamodel(CONCERTO_METAMODEL)
    }

    /// A validator for the metamodel document given as JSON text.
    pub fn with_metamodel(metamodel: &str) -> (r: Result<Validator, ValidationError>)
        ensures
            match r {
                Ok(v) => metamodel_text_registry(metamodel@) == Ok::<
                    RegistryView,
                    crate::error::Failure,
                >(v@),
                Err(e) => metamodel_text_registry(metamodel@) == Err::<
                    RegistryView,
                    crate::error::Failure,
                >(e@),
            },
    {
        let document = match parse_document(metamodel) {
            Ok(j) => j,
            Err(message) => {
                return Err(ValidationError::JsonError { message });
            },
        };
        let metamodel_manager = ModelManager::new(&document)?;
        Ok(Validator { metamodel_manager })
    }

    /// A validator over an already built model manager.
    pub fn from_manager(metamodel_manager: ModelManager) -> (r: Validator)
        ensures
            r@ == metamodel_manager@,
    {
        Validator { metamodel_manager }
    }

    /// Validates a JSON text as a resource of the registry.
    pub fn validate(&self, json_ast: &str) -> (r: Result<(), ValidationError>)
        ensures
            outcome(r) == text_result(self@, json_ast@),
    {
        match parse_document(json_ast) {
            Ok(ast) => self.metamodel_manager.validate_metamodel(&ast),
            Err(message) => Err(ValidationError::JsonError { message }),
        }
    }

    /// Validates a JSON value as a resource of the registry.
    pub fn validate_value(&self, instance: &Json) -> (r: Result<(), ValidationError>)
        ensures
            outcome(r) == value_result(self@, *instance),
    {
        self.metamodel_manager.validate_metamodel(instance)
    }
}

} // verus!
