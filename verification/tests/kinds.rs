use julia::api::{Exception, Kind, Ref};
use julia::error::Error;

const TABLE: [(&str, Kind); 24] = [
    ("ArgumentError", Kind::Argument),
    ("BoundsError", Kind::Bounds),
    ("CompositeException", Kind::Composite),
    ("DivideError", Kind::Divide),
    ("DomainError", Kind::Domain),
    ("EOFError", Kind::EOF),
    ("ErrorException", Kind::Error),
    ("InexactError", Kind::Inexact),
    ("InitError", Kind::Init),
    ("InterruptException", Kind::Interrupt),
    ("InvalidStateException", Kind::InvalidState),
    ("KeyError", Kind::Key),
    ("LoadError", Kind::Load),
    ("OutOfMemoryError", Kind::OutOfMemory),
    ("ReadOnlyMemoryError", Kind::ReadOnlyMemory),
    ("RemoteException", Kind::Remote),
    ("MethodError", Kind::Method),
    ("OverflowError", Kind::Overflow),
    ("ParseError", Kind::Parse),
    ("SystemError", Kind::System),
    ("TypeError", Kind::Type),
    ("UndefRefError", Kind::UndefRef),
    ("UndefVarError", Kind::UndefVar),
    ("UnicodeError", Kind::Unicode),
];

#[test]
fn every_known_name_gives_its_kind() {
    for (name, kind) in TABLE {
        assert_eq!(Kind::from_typename(name), kind, "{}", name);
        assert_eq!(kind.name(), Some(name));
    }
    assert_eq!(Kind::Unknown.name(), None);
}

#[test]
fn other_names_are_unknown() {
    for name in ["", "Error", "dividEerror", "divideerror", "DivideError ", " DivideError",
        "DivideErro", "DivideErrors", "Base.DivideError", "MyError", "BoundsErr\u{f6}r", "\u{0}"]
    {
        assert_eq!(Kind::from_typename(name), Kind::Unknown, "{:?}", name);
    }
}

#[test]
fn with_value_picks_the_matching_variant() {
    for (name, kind) in TABLE {
        let value = Ref::new(0x1000, name.to_string());
        let ex = Exception::with_value(value.clone()).unwrap();
        assert_eq!(ex.kind(), kind);
        assert_eq!(ex.inner_ref(), &value);
        assert_eq!(ex, Exception::new(kind, value));
    }
    let odd = Ref::new(0x2000, "StackOverflowError".to_string());
    assert_eq!(Exception::with_value(odd.clone()), Ok(Exception::Unknown(odd)));
}

#[test]
fn with_value_names_the_variants() {
    let at = |name: &str| Ref::new(8, name.to_string());
    assert!(matches!(Exception::with_value(at("DivideError")), Ok(Exception::Divide(_))));
    assert!(matches!(Exception::with_value(at("UndefVarError")), Ok(Exception::UndefVar(_))));
    assert!(matches!(Exception::with_value(at("BoundsError")), Ok(Exception::Bounds(_))));
    assert!(matches!(Exception::with_value(at("EOFError")), Ok(Exception::EOF(_))));
    assert!(matches!(Exception::with_value(at("ErrorException")), Ok(Exception::Error(_))));
    assert!(matches!(Exception::with_value(at("Nothing")), Ok(Exception::Unknown(_))));
}

#[test]
fn with_value_refuses_a_dead_handle() {
    let mut value = Ref::new(0x1000, "DivideError".to_string());
    value.invalidate();
    assert_eq!(Exception::with_value(value), Err(Error::HandleError));
}

#[test]
fn descriptions_are_the_fixed_table() {
    let table = [
        (Kind::Argument, "the parameters to a function call do not match a valid signature"),
        (Kind::Bounds, "attempt to access index out-of-bounds"),
        (Kind::Composite, "composite exception"),
        (Kind::Divide, "divide by zero"),
        (Kind::Domain, "the argument is outside of the valid domain"),
        (Kind::EOF, "no more data is available from file or stream"),
        (Kind::Error, "generic error occurred"),
        (Kind::Inexact, "type conversion cannot be done exactly"),
        (Kind::Init, "an error occurred when running a module's __init__ "),
        (Kind::Interrupt, "the process was stopped by a terminal interrupt (^C)"),
        (Kind::InvalidState, "the program reached an invalid exception"),
        (Kind::Key, "key doesn't exist in Associative- or Set-like object"),
        (Kind::Load, "an error occurred while include-ing, require-ing or using a file"),
        (Kind::OutOfMemory, "operation allocated too much memory"),
        (Kind::ReadOnlyMemory, "operation tried to write to read-only memory"),
        (Kind::Remote, "remote exception occurred"),
        (Kind::Method, "method with the required type signature doesn't exist"),
        (Kind::Overflow, "the result of an expression is too large"),
        (Kind::Parse, "the expression couldn't be parsed as a valid Julia expression"),
        (Kind::System, "system call failed"),
        (Kind::Type, "type assertion failed"),
        (Kind::UndefRef, "the item or field is not defined"),
        (Kind::UndefVar, "symbol is not defined in current scope"),
        (Kind::Unicode, "byte array does not represent a valid unicode string"),
        (Kind::Unknown, "unknown exception"),
    ];
    assert_eq!(table.len(), 25);
    for (kind, text) in table {
        assert_eq!(kind.description(), text);
        assert!(!kind.description().is_empty());
        assert_eq!(kind.description(), kind.description());
        let ex = Exception::new(kind, Ref::new(1, String::new()));
        assert_eq!(ex.description(), text);
    }
}

#[test]
fn accessors_reach_the_fault_object() {
    let value = Ref::new(0xbeef, "KeyError".to_string());
    let mut ex = Exception::with_value(value.clone()).unwrap();
    assert_eq!(ex.inner_ref(), &value);
    ex.inner_mut().invalidate();
    assert_eq!(ex.kind(), Kind::Key);
    assert!(!ex.inner_ref().is_valid());
    assert_eq!(ex.inner_ref().lock(), Err(Error::HandleError));
    let inner = ex.into_inner();
    assert!(!inner.is_valid());
}

#[test]
fn text_forms_are_the_reported_name() {
    let ex = Exception::with_value(Ref::new(3, "DomainError".to_string())).unwrap();
    assert_eq!(ex.debug_string(), Ok("DomainError".to_string()));
    assert_eq!(ex.to_string(), ex.debug_string());
    let other = Exception::with_value(Ref::new(3, "StackOverflowError".to_string())).unwrap();
    assert_eq!(other.kind(), Kind::Unknown);
    assert_eq!(other.to_string(), Ok("StackOverflowError".to_string()));
    let mut dead = ex.clone();
    dead.inner_mut().invalidate();
    assert_eq!(dead.debug_string(), Err(Error::HandleError));
    assert_eq!(dead.to_string(), Err(Error::HandleError));
}

#[test]
fn an_exception_derefs_to_its_fault_object() {
    let mut ex = Exception::with_value(Ref::new(0x77, "LoadError".to_string())).unwrap();
    assert_eq!(ex.lock(), Ok(0x77));
    assert_eq!(ex.typename(), Ok("LoadError".to_string()));
    assert!(ex.is_valid());
    ex.invalidate();
    assert!(!ex.is_valid());
    assert_eq!(ex.lock(), Err(Error::HandleError));
    assert_eq!(ex.kind(), Kind::Load);
}
