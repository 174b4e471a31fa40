//! Validation of JSON-encoded Concerto model ASTs against a self-describing
//! metamodel.
//!
//! The metamodel document is compiled once into a type registry and a cache
//! of compiled string patterns; each instance is then checked by a
//! fail-fast, depth-first walk whose outcome is stated exactly by the spec
//! functions of [`model_manager`].
use vstd::prelude::*;

pub mod ast;
pub mod error;
pub mod json;
pub mod laws;
pub mod metamodel;
pub mod model_manager;
pub mod regex_cache;
pub mod registry;
pub mod report;
pub mod serializer;
pub mod validator;

pub use error::{ValidationError, ValidationResult};
pub use validator::Validator;

verus! {

/// Validates a Concerto model given as JSON text against the Concerto
/// metamodel.
pub fn validate_metamodel(json_ast: &str) -> (r: Result<(), ValidationError>)
    ensures
        match validator::metamodel_text_registry(metamodel::CONCERTO_METAMODEL@) {
            Ok(reg) => error::outcome(r) == validator::text_result(reg, json_ast@),
            Err(f) => error::outcome(r) == Err::<(), error::Failure>(f),
        },
{
    let validator = Validator::new()?;
    validator.validate(json_ast)
}

} // verus!
