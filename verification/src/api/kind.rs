//! The closed set of fault kinds.

use crate::string::str_eq;
use vstd::prelude::*;

verus! {

/// What kind of fault the interpreter raised.
#[derive(Clone, Copy, PartialEq, Eq, Structural, Debug, Hash)]
pub enum Kind {
    /// The parameters to a function call do not match a valid signature
    Argument,
    /// Attempt to access index out-of-bounds
    Bounds,
    /// Composite exception
    Composite,
    /// Divide by zero
    Divide,
    /// The argument is outside of the valid domain
    Domain,
    /// No more data is available from file or stream
    EOF,
    /// Generic error occurred
    Error,
    /// Type conversion cannot be done exactly
    Inexact,
    /// An error occurred when running a module's __init__
    Init,
    /// The process was stopped by a terminal interrupt (^C)
    Interrupt,
    /// The program reached an invalid exception
    InvalidState,
    /// Key doesn't exist in Associative- or Set-like object
    Key,
    /// An error occurred while include-ing, require-ing or using a file
    Load,
    /// Operation allocated too much memory
    OutOfMemory,
    /// Operation tried to write to read-only memory
    ReadOnlyMemory,
    /// Remote exception occurred
    Remote,
    /// Method with the required type signature doesn't exist
    Method,
    /// The result of an expression is too large
    Overflow,
    /// The expression couldn't be parsed as a valid Julia expression
    Parse,
    /// System call failed
    System,
    /// Type assertion failed
    Type,
    /// The item or field is not defined
    UndefRef,
    /// Symbol is not defined in current scope
    UndefVar,
    /// Byte array does not represent a valid unicode string
    Unicode,
    /// Unknown exception
    Unknown,
}

/// The type name under which the runtime reports a fault of kind `k`.
/// `Unknown` stands for every other name and has none of its own.
pub open spec fn known_name(k: Kind) -> Option<Seq<char>> {
    match k {
        Kind::Argument => Some("ArgumentError"@),
        Kind::Bounds => Some("BoundsError"@),
        Kind::Composite => Some("CompositeException"@),
        Kind::Divide => Some("DivideError"@),
        Kind::Domain => Some("DomainError"@),
        Kind::EOF => Some("EOFError"@),
        Kind::Error => Some("ErrorException"@),
        Kind::Inexact => Some("InexactError"@),
        Kind::Init => Some("InitError"@),
        Kind::Interrupt => Some("InterruptException"@),
        Kind::InvalidState => Some("InvalidStateException"@),
        Kind::Key => Some("KeyError"@),
        Kind::Load => Some("LoadError"@),
        Kind::OutOfMemory => Some("OutOfMemoryError"@),
        Kind::ReadOnlyMemory => Some("ReadOnlyMemoryError"@),
        Kind::Remote => Some("RemoteException"@),
        Kind::Method => Some("MethodError"@),
        Kind::Overflow => Some("OverflowError"@),
        Kind::Parse => Some("ParseError"@),
        Kind::System => Some("SystemError"@),
        Kind::Type => Some("TypeError"@),
        Kind::UndefRef => Some("UndefRefError"@),
        Kind::UndefVar => Some("UndefVarError"@),
        Kind::Unicode => Some("UnicodeError"@),
        Kind::Unknown => None,
    }
}

/// The kind of a fault whose type the runtime reports as `name`: the name is
/// matched verbatim against the known names in their fixed order, and a name
/// that matches none is `Unknown`.
pub open spec fn classify(name: Seq<char>) -> Kind {
    if name == "ArgumentError"@ {
        Kind::Argument
    } else if name == "BoundsError"@ {
        Kind::Bounds
    } else if name == "CompositeException"@ {
        Kind::Composite
    } else if name == "DivideError"@ {
        Kind::Divide
    } else if name == "DomainError"@ {
        Kind::Domain
    } else if name == "EOFError"@ {
        Kind::EOF
    } else if name == "ErrorException"@ {
        Kind::Error
    } else if name == "InexactError"@ {
        Kind::Inexact
    } else if name == "InitError"@ {
        Kind::Init
    } else if name == "InterruptException"@ {
        Kind::Interrupt
    } else if name == "InvalidStateException"@ {
        Kind::InvalidState
    } else if name == "KeyError"@ {
        Kind::Key
    } else if name == "LoadError"@ {
        Kind::Load
    } else if name == "OutOfMemoryError"@ {
        Kind::OutOfMemory
    } else if name == "ReadOnlyMemoryError"@ {
        Kind::ReadOnlyMemory
    } else if name == "RemoteException"@ {
        Kind::Remote
    } else if name == "MethodError"@ {
        Kind::Method
    } else if name == "OverflowError"@ {
        Kind::Overflow
    } else if name == "ParseError"@ {
        Kind::Parse
    } else if name == "SystemError"@ {
        Kind::System
    } else if name == "TypeError"@ {
        Kind::Type
    } else if name == "UndefRefError"@ {
        Kind::UndefRef
    } else if name == "UndefVarError"@ {
        Kind::UndefVar
    } else if name == "UnicodeError"@ {
        Kind::Unicode
    } else {
        Kind::Unknown
    }
}

/// The one-line description of a fault of kind `k`.
pub open spec fn description_of(k: Kind) -> Seq<char> {
    match k {
        Kind::Argument => "the parameters to a function call do not match a valid signature"@,
        Kind::Bounds => "attempt to access index out-of-bounds"@,
        Kind::Composite => "composite exception"@,
        Kind::Divide => "divide by zero"@,
        Kind::Domain => "the argument is outside of the valid domain"@,
        Kind::EOF => "no more data is available from file or stream"@,
        Kind::Error => "generic error occurred"@,
        Kind::Inexact => "type conversion cannot be done exactly"@,
        Kind::Init => "an error occurred when running a module's __init__ "@,
        Kind::Interrupt => "the process was stopped by a terminal interrupt (^C)"@,
        Kind::InvalidState => "the program reached an invalid exception"@,
        Kind::Key => "key doesn't exist in Associative- or Set-like object"@,
        Kind::Load => "an error occurred while include-ing, require-ing or using a file"@,
        Kind::OutOfMemory => "operation allocated too much memory"@,
        Kind::ReadOnlyMemory => "operation tried to write to read-only memory"@,
        Kind::Remote => "remote exception occurred"@,
        Kind::Method => "method with the required type signature doesn't exist"@,
        Kind::Overflow => "the result of an expression is too large"@,
        Kind::Parse => "the expression couldn't be parsed as a valid Julia expression"@,
        Kind::System => "system call failed"@,
        Kind::Type => "type assertion failed"@,
        Kind::UndefRef => "the item or field is not defined"@,
        Kind::UndefVar => "symbol is not defined in current scope"@,
        Kind::Unicode => "byte array does not represent a valid unicode string"@,
        Kind::Unknown => "unknown exception"@,
    }
}

/// What tells the known names apart: the length of a name, and its
/// characters at three places.
spec fn mark(name: Seq<char>) -> (nat, char, char, char) {
    (name.len(), name[0], name[1], name[5])
}

/// The marks of the known names. No two are the same.
proof fn marks_of_known_names()
    ensures
        mark("ArgumentError"@) == (13nat, 'A', 'r', 'e'),
        mark("BoundsError"@) == (11nat, 'B', 'o', 's'),
        mark("CompositeException"@) == (18nat, 'C', 'o', 's'),
        mark("DivideError"@) == (11nat, 'D', 'i', 'e'),
        mark("DomainError"@) == (11nat, 'D', 'o', 'n'),
        mark("EOFError"@) == (8nat, 'E', 'O', 'r'),
        mark("ErrorException"@) == (14nat, 'E', 'r', 'E'),
        mark("InexactError"@) == (12nat, 'I', 'n', 'c'),
        mark("InitError"@) == (9nat, 'I', 'n', 'r'),
        mark("InterruptException"@) == (18nat, 'I', 'n', 'r'),
        mark("InvalidStateException"@) == (21nat, 'I', 'n', 'i'),
        mark("KeyError"@) == (8nat, 'K', 'e', 'r'),
        mark("LoadError"@) == (9nat, 'L', 'o', 'r'),
        mark("OutOfMemoryError"@) == (16nat, 'O', 'u', 'M'),
        mark("ReadOnlyMemoryError"@) == (19nat, 'R', 'e', 'n'),
        mark("RemoteException"@) == (15nat, 'R', 'e', 'e'),
        mark("MethodError"@) == (11nat, 'M', 'e', 'd'),
        mark("OverflowError"@) == (13nat, 'O', 'v', 'l'),
        mark("ParseError"@) == (10nat, 'P', 'a', 'E'),
        mark("SystemError"@) == (11nat, 'S', 'y', 'm'),
        mark("TypeError"@) == (9nat, 'T', 'y', 'r'),
        mark("UndefRefError"@) == (13nat, 'U', 'n', 'R'),
        mark("UndefVarError"@) == (13nat, 'U', 'n', 'V'),
        mark("UnicodeError"@) == (12nat, 'U', 'n', 'd'),
{
    reveal_strlit("ArgumentError");
    reveal_strlit("BoundsError");
    reveal_strlit("CompositeException");
    reveal_strlit("DivideError");
    reveal_strlit("DomainError");
    reveal_strlit("EOFError");
    reveal_strlit("ErrorException");
    reveal_strlit("InexactError");
    reveal_strlit("InitError");
    reveal_strlit("InterruptException");
    reveal_strlit("InvalidStateException");
    reveal_strlit("KeyError");
    reveal_strlit("LoadError");
    reveal_strlit("OutOfMemoryError");
    reveal_strlit("ReadOnlyMemoryError");
    reveal_strlit("RemoteException");
    reveal_strlit("MethodError");
    reveal_strlit("OverflowError");
    reveal_strlit("ParseError");
    reveal_strlit("SystemError");
    reveal_strlit("TypeError");
    reveal_strlit("UndefRefError");
    reveal_strlit("UndefVarError");
    reveal_strlit("UnicodeError");
}

/// Each known name classifies as the kind it belongs to: the names are
/// pairwise different, so no earlier row of the table takes it.
pub proof fn known_name_classifies(k: Kind)
    requires
        k != Kind::Unknown,
    ensures
        known_name(k) is Some,
        classify(known_name(k).unwrap()) == k,
{
    marks_of_known_names();
}

/// A name classifies as a kind other than `Unknown` only if it is that
/// kind's own name, and as `Unknown` exactly if it is no kind's name.
pub proof fn classify_is_exact(name: Seq<char>)
    ensures
        classify(name) != Kind::Unknown ==> known_name(classify(name)) == Some(name),
        classify(name) == Kind::Unknown <==> forall|k: Kind| known_name(k) != Some(name),
{
    if classify(name) == Kind::Unknown {
        assert forall|k: Kind| known_name(k) != Some(name) by {
            if known_name(k) == Some(name) {
                assert(k != Kind::Unknown);
            }
        }
    } else {
        assert(known_name(classify(name)) == Some(name));
    }
}

/// Every kind, `Unknown` too, has a description, and none is empty.
pub proof fn description_is_nonempty(k: Kind)
    ensures
        description_of(k).len() > 0,
{
    reveal_strlit("the parameters to a function call do not match a valid signature");
    reveal_strlit("attempt to access index out-of-bounds");
    reveal_strlit("composite exception");
    reveal_strlit("divide by zero");
    reveal_strlit("the argument is outside of the valid domain");
    reveal_strlit("no more data is available from file or stream");
    reveal_strlit("generic error occurred");
    reveal_strlit("type conversion cannot be done exactly");
    reveal_strlit("an error occurred when running a module's __init__ ");
    reveal_strlit("the process was stopped by a terminal interrupt (^C)");
    reveal_strlit("the program reached an invalid exception");
    reveal_strlit("key doesn't exist in Associative- or Set-like object");
    reveal_strlit("an error occurred while include-ing, require-ing or using a file");
    reveal_strlit("operation allocated too much memory");
    reveal_strlit("operation tried to write to read-only memory");
    reveal_strlit("remote exception occurred");
    reveal_strlit("method with the required type signature doesn't exist");
    reveal_strlit("the result of an expression is too large");
    reveal_strlit("the expression couldn't be parsed as a valid Julia expression");
    reveal_strlit("system call failed");
    reveal_strlit("type assertion failed");
    reveal_strlit("the item or field is not defined");
    reveal_strlit("symbol is not defined in current scope");
    reveal_strlit("byte array does not represent a valid unicode string");
    reveal_strlit("unknown exception");
}

impl Kind {
    /// Classifies a fault by the type name that the runtime reports for it.
    pub fn from_typename(name: &str) -> (k: Kind)
        ensures
            k == classify(name@),
    {
        if str_eq(name, "ArgumentError") {
            Kind::Argument
        } else if str_eq(name, "BoundsError") {
            Kind::Bounds
        } else if str_eq(name, "CompositeException") {
            Kind::Composite
        } else if str_eq(name, "DivideError") {
            Kind::Divide
        } else if str_eq(name, "DomainError") {
            Kind::Domain
        } else if str_eq(name, "EOFError") {
            Kind::EOF
        } else if str_eq(name, "ErrorException") {
            Kind::Error
        } else if str_eq(name, "InexactError") {
            Kind::Inexact
        } else if str_eq(name, "InitError") {
            Kind::Init
        } else if str_eq(name, "InterruptException") {
            Kind::Interrupt
        } else if str_eq(name, "InvalidStateException") {
            Kind::InvalidState
        } else if str_eq(name, "KeyError") {
            Kind::Key
        } else if str_eq(name, "LoadError") {
            Kind::Load
        } else if str_eq(name, "OutOfMemoryError") {
            Kind::OutOfMemory
        } else if str_eq(name, "ReadOnlyMemoryError") {
            Kind::ReadOnlyMemory
        } else if str_eq(name, "RemoteException") {
            Kind::Remote
        } else if str_eq(name, "MethodError") {
            Kind::Method
        } else if str_eq(name, "OverflowError") {
            Kind::Overflow
        } else if str_eq(name, "ParseError") {
            Kind::Parse
        } else if str_eq(name, "SystemError") {
            Kind::System
        } else if str_eq(name, "TypeError") {
            Kind::Type
        } else if str_eq(name, "UndefRefError") {
            Kind::UndefRef
        } else if str_eq(name, "UndefVarError") {
            Kind::UndefVar
        } else if str_eq(name, "UnicodeError") {
            Kind::Unicode
        } else {
            Kind::Unknown
        }
    }

    /// The type name under which the runtime reports this kind, if it has one.
    pub fn name(self) -> (r: Option<&'static str>)
        ensures
            match r {
                Some(text) => known_name(self) == Some(text@),
                None => known_name(self) is None,
            },
    {
        match self {
            Kind::Argument => Some("ArgumentError"),
            Kind::Bounds => Some("BoundsError"),
            Kind::Composite => Some("CompositeException"),
            Kind::Divide => Some("DivideError"),
            Kind::Domain => Some("DomainError"),
            Kind::EOF => Some("EOFError"),
            Kind::Error => Some("ErrorException"),
            Kind::Inexact => Some("InexactError"),
            Kind::Init => Some("InitError"),
            Kind::Interrupt => Some("InterruptException"),
            Kind::InvalidState => Some("InvalidStateException"),
            Kind::Key => Some("KeyError"),
            Kind::Load => Some("LoadError"),
            Kind::OutOfMemory => Some("OutOfMemoryError"),
            Kind::ReadOnlyMemory => Some("ReadOnlyMemoryError"),
            Kind::Remote => Some("RemoteException"),
            Kind::Method => Some("MethodError"),
            Kind::Overflow => Some("OverflowError"),
            Kind::Parse => Some("ParseError"),
            Kind::System => Some("SystemError"),
            Kind::Type => Some("TypeError"),
            Kind::UndefRef => Some("UndefRefError"),
            Kind::UndefVar => Some("UndefVarError"),
            Kind::Unicode => Some("UnicodeError"),
            Kind::Unknown => None,
        }
    }

    /// The one-line description of this kind.
    pub fn description(self) -> (r: &'static str)
        ensures
            r@ == description_of(self),
            r@.len() > 0,
    {
        proof {
            description_is_nonempty(self);
        }
        match self {
            Kind::Argument => "the parameters to a function call do not match a valid signature",
            Kind::Bounds => "attempt to access index out-of-bounds",
            Kind::Composite => "composite exception",
            Kind::Divide => "divide by zero",
            Kind::Domain => "the argument is outside of the valid domain",
            Kind::EOF => "no more data is available from file or stream",
            Kind::Error => "generic error occurred",
            Kind::Inexact => "type conversion cannot be done exactly",
            Kind::Init => "an error occurred when running a module's __init__ ",
            Kind::Interrupt => "the process was stopped by a terminal interrupt (^C)",
            Kind::InvalidState => "the program reached an invalid exception",
            Kind::Key => "key doesn't exist in Associative- or Set-like object",
            Kind::Load => "an error occurred while include-ing, require-ing or using a file",
            Kind::OutOfMemory => "operation allocated too much memory",
            Kind::ReadOnlyMemory => "operation tried to write to read-only memory",
            Kind::Remote => "remote exception occurred",
            Kind::Method => "method with the required type signature doesn't exist",
            Kind::Overflow => "the result of an expression is too large",
            Kind::Parse => "the expression couldn't be parsed as a valid Julia expression",
            Kind::System => "system call failed",
            Kind::Type => "type assertion failed",
            Kind::UndefRef => "the item or field is not defined",
            Kind::UndefVar => "symbol is not defined in current scope",
            Kind::Unicode => "byte array does not represent a valid unicode string",
            Kind::Unknown => "unknown exception",
        }
    }
}

} // verus!
