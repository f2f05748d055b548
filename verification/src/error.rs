//! The two fatal failures of generation.  Either one aborts the whole
//! invocation: no fragments are produced for the offending type.

use vstd::prelude::*;
use vstd::string::StringExecFns;

verus! {

/// Why generation failed for a whole type.
#[derive(Debug, PartialEq, Eq)]
pub enum GenerationError {
    /// A record or positional type carried a field count other than one.
    ArityError {
        /// The offending type's name.
        offender: String,
    },
    /// The type is neither a record, nor positional, nor a union.
    UnsupportedShapeError {
        /// The offending type's name.
        offender: String,
    },
}

/// The mathematical value of a [`GenerationError`].
pub enum ErrorModel {
    /// A record or positional type carried a field count other than one.
    ArityError {
        /// The offending type's name.
        offender: Seq<char>,
    },
    /// The type is neither a record, nor positional, nor a union.
    UnsupportedShapeError {
        /// The offending type's name.
        offender: Seq<char>,
    },
}

impl View for GenerationError {
    type V = ErrorModel;

    open spec fn view(&self) -> ErrorModel {
        match self {
            GenerationError::ArityError { offender } => ErrorModel::ArityError {
                offender: offender@,
            },
            GenerationError::UnsupportedShapeError { offender } => {
                ErrorModel::UnsupportedShapeError { offender: offender@ }
            },
        }
    }
}

impl DeepView for GenerationError {
    type V = ErrorModel;

    open spec fn deep_view(&self) -> ErrorModel {
        self.view()
    }
}

/// The descriptive text of an error: the offending type's name, then the
/// rule it violated.
pub open spec fn spec_message(e: ErrorModel) -> Seq<char> {
    match e {
        ErrorModel::ArityError { offender } => offender
            + ": conversion generation is defined for exactly one field"@,
        ErrorModel::UnsupportedShapeError { offender } => offender
            + ": conversion generation is defined for record, positional and union shapes only"@,
    }
}

impl GenerationError {
    /// The name of the offending type.
    pub fn offending_type(&self) -> (name: &String)
        ensures
            name@ == match self@ {
                ErrorModel::ArityError { offender: t } => t,
                ErrorModel::UnsupportedShapeError { offender: t } => t,
            },
    {
        match self {
            GenerationError::ArityError { offender: t } => t,
            GenerationError::UnsupportedShapeError { offender: t } => t,
        }
    }

    /// The descriptive text of the error, for the build failure shown to
    /// the user.
    pub fn message(&self) -> (text: String)
        ensures
            text@ == spec_message(self@),
    {
        match self {
            GenerationError::ArityError { offender: t } => t.clone().concat(
                ": conversion generation is defined for exactly one field",
            ),
            GenerationError::UnsupportedShapeError { offender: t } => t.clone().concat(
                ": conversion generation is defined for record, positional and union shapes only",
            ),
        }
    }
}

} // verus!
