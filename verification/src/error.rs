//! The errors of the binding.

use crate::marshal::NulError;
use vstd::prelude::*;
use vstd::std_specs::convert::FromSpecImpl;

verus! {

/// Why an operation on the engine failed.
#[derive(Debug, PartialEq, Eq)]
pub enum TranslatorError {
    /// A text argument holds a null byte, so it has no null-terminated form.
    StringConversion(NulError),
    /// The engine returned no translation; the text says why.
    TranslationFailed(String),
    /// The engine could not make an instance.
    TranslatorCreationFailed,
    /// A model descriptor with an empty slot was about to be loaded.
    IncompleteModel,
}

impl TranslatorError {
    /// This error is the refusal of `bytes` for the first null byte in them.
    pub open spec fn refuses(self, bytes: Seq<u8>) -> bool {
        self matches TranslatorError::StringConversion(error) && error.reports(bytes)
    }
}

impl From<NulError> for TranslatorError {
    fn from(error: NulError) -> (result: TranslatorError) {
        TranslatorError::StringConversion(error)
    }
}

impl FromSpecImpl<NulError> for TranslatorError {
    open spec fn obeys_from_spec() -> bool {
        true
    }

    open spec fn from_spec(error: NulError) -> TranslatorError {
        TranslatorError::StringConversion(error)
    }
}

} // verus!
