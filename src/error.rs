//! The ways in which a binding function can fail to match its descriptor.
use vstd::prelude::*;

use crate::registry::NativeType;

verus! {

/// One of the two context parameters that every binding function starts with.
#[derive(Clone, Copy, Debug, PartialEq, Eq, Structural)]
pub enum ContextParam {
    /// The first parameter, of type `JNIEnv`.
    Env,
    /// The second parameter, of type `JClass`.
    Class,
}

/// Where a native type name stands in the binding function.
#[derive(Clone, Copy, Debug, PartialEq, Eq, Structural)]
pub enum TypeSite {
    /// The parameter at this index, counted after the two context parameters.
    Param(usize),
    /// The return type.
    Return,
}

/// Why a binding function does not match its descriptor.
#[derive(Clone, Copy, Debug, PartialEq, Eq, Structural)]
pub enum ValidationError {
    /// The descriptor is not of the form `(<params>)<return>`.
    MalformedDescriptor,
    /// A native type name that the registry does not know.
    UnknownNativeType(TypeSite),
    /// The function name is not `Java_<Class>_<method>`.
    NamingConventionMismatch,
    /// A context parameter is missing or has another type.
    MissingOrWrongContextParameter(ContextParam),
    /// The descriptor and the function have different numbers of parameters
    /// (the function's counted without its context parameters).
    ParameterCountMismatch { descriptor: usize, declared: usize },
    /// The parameter at this index (after the context parameters) is not
    /// accepted by the descriptor's fragment at the same place.
    ParameterTypeMismatch { index: usize },
    /// The declared return type is not accepted by the descriptor's return
    /// fragment, which starts at character index `expected_at` of the
    /// descriptor and runs to its end.
    ReturnTypeMismatch { declared: NativeType, expected_at: usize },
}

} // verus!
