//! The native entry points, as values.

use vstd::prelude::*;

verus! {

/// One call of a native entry point of the interpreter, with its arguments
/// marshalled: addresses of locked values, terminated text, plain integers.
/// Performing it hands control to the interpreter for good.
#[derive(Clone, PartialEq, Eq, Debug)]
pub enum NativeCall {
    /// Raise this fault object now.
    Throw(usize),
    /// Raise this fault object again, in the context it was first raised in.
    Rethrow(usize),
    /// Raise a generic fault with a message.
    Error(Vec<u8>),
    /// Raise a fault of a given type with a message.
    Exception { ty: usize, message: Vec<u8> },
    /// Raise the fault for a call with fewer than `min` arguments.
    TooFewArgs { name: Vec<u8>, min: i32 },
    /// Raise the fault for a call with more than `max` arguments.
    TooManyArgs { name: Vec<u8>, max: i32 },
    /// Raise a type mismatch between an expected value and the one got.
    TypeError { name: Vec<u8>, expected: usize, got: usize },
    /// Raise a type mismatch in a named context, against an expected type.
    TypeErrorRt { name: Vec<u8>, context: Vec<u8>, ty: usize, got: usize },
    /// Raise the fault for a symbol that nothing is bound to.
    UndefinedVar(usize),
    /// Raise an out-of-bounds fault: a value and one boxed index.
    Bounds { value: usize, index: usize },
    /// Raise an out-of-bounds fault: a value and several boxed indices.
    BoundsV { value: usize, indices: Vec<usize> },
    /// Raise an out-of-bounds fault: a value and one integer index.
    BoundsInt { value: usize, index: usize },
    /// Raise an out-of-bounds fault: the values of a tuple and one integer index.
    BoundsTupleInt { values: Vec<usize>, index: usize },
    /// Raise an out-of-bounds fault: a value and several integer indices.
    BoundsInts { value: usize, indices: Vec<usize> },
    /// Raise the end-of-input fault.
    Eof,
}

/// What a [`NativeCall`] holds, as mathematical values.
pub ghost enum Call {
    Throw(usize),
    Rethrow(usize),
    Error(Seq<u8>),
    Exception { ty: usize, message: Seq<u8> },
    TooFewArgs { name: Seq<u8>, min: i32 },
    TooManyArgs { name: Seq<u8>, max: i32 },
    TypeError { name: Seq<u8>, expected: usize, got: usize },
    TypeErrorRt { name: Seq<u8>, context: Seq<u8>, ty: usize, got: usize },
    UndefinedVar(usize),
    Bounds { value: usize, index: usize },
    BoundsV { value: usize, indices: Seq<usize> },
    BoundsInt { value: usize, index: usize },
    BoundsTupleInt { values: Seq<usize>, index: usize },
    BoundsInts { value: usize, indices: Seq<usize> },
    Eof,
}

impl View for NativeCall {
    type V = Call;

    open spec fn view(&self) -> Call {
        match *self {
            NativeCall::Throw(value) => Call::Throw(value),
            NativeCall::Rethrow(value) => Call::Rethrow(value),
            NativeCall::Error(message) => Call::Error(message@),
            NativeCall::Exception { ty, message } => Call::Exception { ty, message: message@ },
            NativeCall::TooFewArgs { name, min } => Call::TooFewArgs { name: name@, min },
            NativeCall::TooManyArgs { name, max } => Call::TooManyArgs { name: name@, max },
            NativeCall::TypeError { name, expected, got } => Call::TypeError {
                name: name@,
                expected,
                got,
            },
            NativeCall::TypeErrorRt { name, context, ty, got } => Call::TypeErrorRt {
                name: name@,
                context: context@,
                ty,
                got,
            },
            NativeCall::UndefinedVar(symbol) => Call::UndefinedVar(symbol),
            NativeCall::Bounds { value, index } => Call::Bounds { value, index },
            NativeCall::BoundsV { value, indices } => Call::BoundsV { value, indices: indices@ },
            NativeCall::BoundsInt { value, index } => Call::BoundsInt { value, index },
            NativeCall::BoundsTupleInt { values, index } => Call::BoundsTupleInt {
                values: values@,
                index,
            },
            NativeCall::BoundsInts { value, indices } => Call::BoundsInts {
                value,
                indices: indices@,
            },
            NativeCall::Eof => Call::Eof,
        }
    }
}

/// A marshalling result with the call taken by its view.
pub open spec fn outcome<E>(r: Result<NativeCall, E>) -> Result<Call, E> {
    match r {
        Ok(call) => Ok(call@),
        Err(e) => Err(e),
    }
}

} // verus!
