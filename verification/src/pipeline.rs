//! From the raw document to the configuration that the tool consumes.

use vstd::prelude::*;
use crate::decode::{decoded, document_fault};
use crate::error::DecodeError;
use crate::migrate::{migrated, warnings_of, MigrationError, Warning};
use crate::model::Configuration;
use crate::schema::Schema;
use crate::value::Value;

verus! {

/// Why a document gave no configuration.
#[derive(Clone, Debug, PartialEq, Eq)]
pub enum LoadError {
    /// The document was refused.
    Decode(DecodeError),
    /// The document was accepted, and a deprecated setting in it could not
    /// be rewritten.
    Migration(MigrationError),
}

/// Decodes the document and migrates what it gives. Returns the migrated
/// configuration with the warnings of the migration, in their order; a
/// document that is refused gives the error of the decoding.
pub fn settle(document: &Value, schema: &Schema) -> (settled: Result<
    (Configuration, Vec<Warning>),
    LoadError,
>)
    ensures
        match settled {
            Ok((config, warnings)) => document_fault(schema@, document@) is None && config@
                == migrated(decoded(document@)) && warnings@ == warnings_of(decoded(document@)),
            Err(LoadError::Decode(error)) => document_fault(schema@, document@) == Some(error@),
            Err(LoadError::Migration(_)) => false,
        },
{
    let config = match Configuration::deserialize(document, schema) {
        Ok(config) => config,
        Err(error) => {
            return Err(LoadError::Decode(error));
        },
    };
    match config.into_migrated() {
        Ok(settled) => Ok(settled),
        Err(error) => Err(LoadError::Migration(error)),
    }
}

} // verus!
