//! Validation of the annotated function's signature.
//!
//! The attribute only accepts a function that takes exactly one argument,
//! which must be an immutable reference to a path type (a type whose path
//! ends in the identifier `Path`). Anything else is rejected with the same
//! diagnostics a caller would see from the attribute itself.

use vstd::prelude::*;

use crate::model::{FnArgShape, Function, TypeShape};

verus! {

/// Why a function declaration was rejected.
#[derive(Clone, Copy, Debug, PartialEq, Eq)]
pub enum CheckError {
    /// The first argument's type is not an immutable reference.
    NotAReference,
    /// The first argument is a reference, but not to a path type.
    WrongType,
    /// The first argument is not an ordinary `pattern: type` argument.
    UnsupportedArgument,
    /// The function does not take exactly one argument.
    WrongArgumentCount,
}

/// The diagnostic text reported for each rejection.
pub open spec fn spec_message(e: CheckError) -> Seq<char> {
    match e {
        CheckError::NotAReference => "First argument of the function must be a reference on type `std::path::Path`"@,
        CheckError::WrongType => "First argument of the function must be of type `&std::path::Path`"@,
        CheckError::UnsupportedArgument => "First argument of the function must be of type `&std::path::Path`"@,
        CheckError::WrongArgumentCount => "Function must take one argument of type `&std::path::Path`"@,
    }
}

impl CheckError {
    /// The diagnostic text for this rejection.
    pub fn message(&self) -> (m: &'static str)
        ensures
            m@ == spec_message(*self),
    {
        match self {
            CheckError::NotAReference => "First argument of the function must be a reference on type `std::path::Path`",
            CheckError::WrongType => "First argument of the function must be of type `&std::path::Path`",
            CheckError::UnsupportedArgument => "First argument of the function must be of type `&std::path::Path`",
            CheckError::WrongArgumentCount => "Function must take one argument of type `&std::path::Path`",
        }
    }
}

/// Holds when `ty` is an immutable reference, whatever it refers to.
pub open spec fn is_immutable_reference(ty: TypeShape) -> bool {
    ty matches TypeShape::Reference { mutable, .. } && !mutable
}

/// Holds when `ty` is a path type whose final segment is `Path`.
pub open spec fn refers_to_path(ty: TypeShape) -> bool {
    ty matches TypeShape::Path { last_segment } && last_segment@ == "Path"@
}

/// Holds when `ty` is an immutable reference to a path type ending in
/// `Path`: the only type the attribute accepts for the first argument.
pub open spec fn is_path_reference(ty: TypeShape) -> bool {
    ty matches TypeShape::Reference { mutable, elem } && !mutable && refers_to_path(*elem)
}

/// Which rejection, if any, checking a first-argument type yields.
pub open spec fn spec_check_type(ty: TypeShape) -> Option<CheckError> {
    if !is_immutable_reference(ty) {
        Some(CheckError::NotAReference)
    } else if !is_path_reference(ty) {
        Some(CheckError::WrongType)
    } else {
        None
    }
}

/// Checks that a type is an immutable reference to a path type ending in
/// the identifier `Path`, and says why it is not.
pub fn check_type(ty: &TypeShape) -> (r: Option<CheckError>)
    ensures
        r == spec_check_type(*ty),
        r is None <==> is_path_reference(*ty),
{
    match ty {
        TypeShape::Reference { mutable, elem } => {
            if *mutable {
                Some(CheckError::NotAReference)
            } else {
                match &**elem {
                    TypeShape::Path { last_segment } => {
                        let path_name: String = String::from_str("Path");
                        if *last_segment == path_name {
                            None
                        } else {
                            Some(CheckError::WrongType)
                        }
                    },
                    _ => Some(CheckError::WrongType),
                }
            }
        },
        _ => Some(CheckError::NotAReference),
    }
}

/// Holds when the attribute accepts the function's declaration: exactly one
/// ordinary argument whose type is an immutable reference to a path type.
pub open spec fn declaration_ok(f: Function) -> bool {
    &&& f.inputs@.len() == 1
    &&& f.inputs@[0] matches FnArgShape::Captured { ty, .. }
    &&& is_path_reference(ty)
}

/// Which rejection, if any, checking a whole declaration yields.
pub open spec fn spec_check_declaration(f: Function) -> Option<CheckError> {
    if f.inputs@.len() != 1 {
        Some(CheckError::WrongArgumentCount)
    } else {
        match f.inputs@[0] {
            FnArgShape::Captured { ty, .. } => spec_check_type(ty),
            FnArgShape::Other(_) => Some(CheckError::UnsupportedArgument),
        }
    }
}

/// Checks the declaration of the annotated function, and says why it was
/// rejected: the function must take exactly one ordinary argument of a type
/// accepted by [`check_type`].
pub fn check_function_declaration(function: &Function) -> (r: Option<CheckError>)
    ensures
        r == spec_check_declaration(*function),
        r is None <==> declaration_ok(*function),
{
    if function.inputs.len() == 1 {
        match &function.inputs[0] {
            FnArgShape::Captured { ty, .. } => check_type(ty),
            FnArgShape::Other(_) => Some(CheckError::UnsupportedArgument),
        }
    } else {
        Some(CheckError::WrongArgumentCount)
    }
}

} // verus!
