//! Generation-time failures. An unrecognized declaration or type kind is a
//! fatal abort carrying a diagnostic that names the offending entity: a wrong
//! mapping would silently corrupt the ABI boundary, so the generator never
//! guesses.

use crate::text::cat2;
use vstd::prelude::*;
use vstd::string::StringExecFns;

verus! {

/// Why generation aborted. Every variant names what could not be mapped.
#[derive(Clone, Debug)]
pub enum GenError {
    /// A parameter whose type kind has no mapping; `kind` names it.
    UnhandledParameterType { kind: String },
    /// A pointer to a pointer to anything but `char`.
    UnhandledPointerToPointer,
    /// A pointer whose pointee has no declaration; `kind` names its kind.
    UnhandledPointerType { kind: String },
    /// A constant array of an element type with no mapping.
    UnhandledArrayElementType { kind: String },
    /// A typedef whose underlying kind has no mapping.
    UnhandledTypedefType { kind: String },
}

/// The diagnostic text of an error, naming the offending kind.
pub open spec fn spec_describe(e: GenError) -> Seq<char> {
    match e {
        GenError::UnhandledParameterType { kind } => "unhandled parameter type: "@ + kind@,
        GenError::UnhandledPointerToPointer => "unhandled pointer to pointer type"@,
        GenError::UnhandledPointerType { kind } => "unhandled pointer type: "@ + kind@,
        GenError::UnhandledArrayElementType { kind } => "unhandled constant array element type: "@
            + kind@,
        GenError::UnhandledTypedefType { kind } => "unhandled typedef type: "@ + kind@,
    }
}

impl GenError {
    /// The diagnostic to show when generation aborts.
    pub fn describe(&self) -> (r: String)
        ensures
            r@ == spec_describe(*self),
    {
        match self {
            GenError::UnhandledParameterType { kind } => cat2(
                "unhandled parameter type: ",
                kind.as_str(),
            ),
            GenError::UnhandledPointerToPointer => {
                let r = String::from_str("unhandled pointer to pointer type");
                r
            },
            GenError::UnhandledPointerType { kind } => cat2(
                "unhandled pointer type: ",
                kind.as_str(),
            ),
            GenError::UnhandledArrayElementType { kind } => cat2(
                "unhandled constant array element type: ",
                kind.as_str(),
            ),
            GenError::UnhandledTypedefType { kind } => cat2(
                "unhandled typedef type: ",
                kind.as_str(),
            ),
        }
    }
}

} // verus!
