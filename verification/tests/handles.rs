use julia::api::{Datatype, Ref, Symbol};
use julia::error::Error;

#[test]
fn lock_gives_the_address_of_a_live_value() {
    let value = Ref::new(0x7f00_1234, "Int64".to_string());
    assert!(value.is_valid());
    assert_eq!(value.lock(), Ok(0x7f00_1234));
    assert_eq!(value.lock(), Ok(0x7f00_1234));
    assert_eq!(value.typename(), Ok("Int64".to_string()));
}

#[test]
fn lock_fails_once_invalidated() {
    let mut value = Ref::new(0x7f00_1234, "Int64".to_string());
    value.invalidate();
    assert!(!value.is_valid());
    assert_eq!(value.lock(), Err(Error::HandleError));
    assert_eq!(value.typename(), Err(Error::HandleError));
    value.invalidate();
    assert_eq!(value.lock(), Err(Error::HandleError));
}

#[test]
fn symbols_and_datatypes_lock_their_handle() {
    let mut inner = Ref::new(40, "Symbol".to_string());
    assert_eq!(Symbol::new(inner.clone()).lock(), Ok(40));
    assert_eq!(Datatype::new(inner.clone()).lock(), Ok(40));
    inner.invalidate();
    assert_eq!(Symbol::new(inner.clone()).lock(), Err(Error::HandleError));
    assert_eq!(Datatype::new(inner).lock(), Err(Error::HandleError));
}
