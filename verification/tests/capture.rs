use julia::api::exception::{bounds_error_int, settle};
use julia::error::Error;
use julia::api::{Exception, Kind, NativeCall, Ref, Register};

#[test]
fn fresh_register_is_clear() {
    let register = Register::new();
    assert!(!Exception::occurred(&register));
    assert_eq!(register.probe(), 0);
}

#[test]
fn occurred_round_trip() {
    let mut register = Register::new();
    assert!(!Exception::occurred(&register));
    register.fault(0x5000, "DivideError".to_string());
    assert!(Exception::occurred(&register));
    assert!(Exception::occurred(&register));
    assert_eq!(register.probe(), 0x5000);
    assert!(Exception::catch(&mut register).is_some());
    assert!(!Exception::occurred(&register));
}

#[test]
fn catch_on_clear_is_nothing_however_often() {
    let mut register = Register::new();
    for _ in 0..3 {
        assert_eq!(Exception::catch(&mut register), None);
        assert!(!Exception::occurred(&register));
    }
}

#[test]
fn catch_captures_a_fault_once() {
    let mut register = Register::new();
    register.fault(0x5000, "KeyError".to_string());
    let first = Exception::catch(&mut register);
    assert_eq!(first, Some(Exception::Key(Ref::new(0x5000, "KeyError".to_string()))));
    assert_eq!(Exception::catch(&mut register), None);
}

#[test]
fn the_latest_fault_is_the_pending_one() {
    let mut register = Register::new();
    register.fault(0x5000, "KeyError".to_string());
    register.fault(0x6000, "TypeError".to_string());
    let ex = Exception::catch(&mut register).unwrap();
    assert_eq!(ex.kind(), Kind::Type);
    assert_eq!(ex.inner_ref().lock(), Ok(0x6000));
    assert_eq!(Exception::catch(&mut register), None);
}

#[test]
fn a_null_fault_object_is_no_fault() {
    let mut register = Register::new();
    register.fault(0, "DivideError".to_string());
    assert!(!Exception::occurred(&register));
    assert_eq!(Exception::catch(&mut register), None);
}

#[test]
fn take_reads_and_clears() {
    let mut register = Register::new();
    register.fault(9, "LoadError".to_string());
    assert_eq!(register.take(), (9, "LoadError".to_string()));
    assert_eq!(register.probe(), 0);
    assert_eq!(register.take().0, 0);
}

#[test]
fn division_by_zero_is_caught_as_divide() {
    let mut register = Register::new();
    register.fault(0x1010, "DivideError".to_string());
    let ex = Exception::catch(&mut register).unwrap();
    assert_eq!(ex.kind(), Kind::Divide);
    assert_eq!(ex.description(), "divide by zero");
}

#[test]
fn unbound_name_is_caught_as_undefined_variable() {
    let mut register = Register::new();
    register.fault(0x1020, "UndefVarError".to_string());
    let ex = Exception::catch(&mut register).unwrap();
    assert!(matches!(ex, Exception::UndefVar(_)));
}

#[test]
fn index_into_empty_sequence_is_caught_as_bounds() {
    let mut register = Register::new();
    register.fault(0x1030, "BoundsError".to_string());
    let ex = Exception::catch(&mut register).unwrap();
    assert!(matches!(ex, Exception::Bounds(_)));
}

#[test]
fn raised_bounds_fault_becomes_pending() {
    let collection = Ref::new(0x2000, "Array{Int64,1}".to_string());
    let call = bounds_error_int(&collection, 5).unwrap();
    assert_eq!(call, NativeCall::BoundsInt { value: 0x2000, index: 5 });
    let mut register = Register::new();
    // The interpreter performs the call and records the fault object.
    register.fault(0x3000, "BoundsError".to_string());
    assert!(Exception::occurred(&register));
    let ex = Exception::catch(&mut register).unwrap();
    assert_eq!(ex.kind(), Kind::Bounds);
    assert!(!Exception::occurred(&register));
}

#[test]
fn settle_hands_a_pending_fault_up_once() {
    let mut register = Register::new();
    assert_eq!(settle(&mut register), Ok(()));
    register.fault(0x70, "MethodError".to_string());
    let expected = Exception::Method(Ref::new(0x70, "MethodError".to_string()));
    assert_eq!(settle(&mut register), Err(Error::UnhandledException(expected)));
    assert!(!Exception::occurred(&register));
    assert_eq!(settle(&mut register), Ok(()));
}
