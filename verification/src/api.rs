//! Handles, the exception model, the capture protocol and the raise family.

pub mod exception;
pub mod handle;
pub mod kind;
pub mod native;
pub mod pointers;
pub mod register;

pub use self::exception::Exception;
pub use self::handle::{Datatype, Ref, Symbol};
pub use self::kind::Kind;
pub use self::native::NativeCall;
pub use self::register::Register;
