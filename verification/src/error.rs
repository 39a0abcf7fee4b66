//! The error type of the host-side API.

use crate::api::exception::Exception;
use vstd::prelude::*;

verus! {

/// Everything that can go wrong on the host side of a native call.
#[derive(Clone, Debug, PartialEq, Eq)]
pub enum Error {
    /// A handle no longer refers to a live value of the interpreter.
    HandleError,
    /// The interpreter raised a fault that nothing handled.
    UnhandledException(Exception),
    /// A text argument holds a terminator byte; the field is the position of
    /// the first one.
    MarshalError(usize),
    /// Reading a script failed; the field is the system's message.
    IoError(String),
}

} // verus!
