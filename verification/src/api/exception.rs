//! Faults of the interpreter as host values, their capture, and the family
//! of functions that raise one.

use crate::api::handle::{Datatype, Ref, Symbol};
use crate::api::kind::{classify, description_of, Kind};
use crate::api::native::{outcome, Call, NativeCall};
use crate::api::pointers::{
    max_pointers, pointer_list, pointers_into_vec, pointers_new, pointers_push, PointerList,
};
use crate::api::register::{recorded, Fault, Register};
use crate::error::Error;
use crate::string::{into_cstring, marshalled};
use vstd::prelude::*;
use vstd::slice::slice_to_vec;

verus! {

/// A fault of the interpreter: its kind, and the handle to the fault object.
#[derive(Clone, Debug, PartialEq, Eq)]
pub enum Exception {
    /// The parameters to a function call do not match a valid signature
    Argument(Ref),
    /// Attempt to access index out-of-bounds
    Bounds(Ref),
    /// Composite exception
    Composite(Ref),
    /// Divide by zero
    Divide(Ref),
    /// The argument is outside of the valid domain
    Domain(Ref),
    /// No more data is available from file or stream
    EOF(Ref),
    /// Generic error occurred
    Error(Ref),
    /// Type conversion cannot be done exactly
    Inexact(Ref),
    /// An error occurred when running a module's __init__
    Init(Ref),
    /// The process was stopped by a terminal interrupt (^C)
    Interrupt(Ref),
    /// The program reached an invalid exception
    InvalidState(Ref),
    /// Key doesn't exist in Associative- or Set-like object
    Key(Ref),
    /// An error occurred while include-ing, require-ing or using a file
    Load(Ref),
    /// Operation allocated too much memory
    OutOfMemory(Ref),
    /// Operation tried to write to read-only memory
    ReadOnlyMemory(Ref),
    /// Remote exception occurred
    Remote(Ref),
    /// Method with the required type signature doesn't exist
    Method(Ref),
    /// The result of an expression is too large
    Overflow(Ref),
    /// The expression couldn't be parsed as a valid Julia expression
    Parse(Ref),
    /// System call failed
    System(Ref),
    /// Type assertion failed
    Type(Ref),
    /// The item or field is not defined
    UndefRef(Ref),
    /// Symbol is not defined in current scope
    UndefVar(Ref),
    /// Byte array does not represent a valid unicode string
    Unicode(Ref),
    /// Unknown exception
    Unknown(Ref),
}

/// The exception of kind `k` around the fault object `value`.
pub open spec fn exception_of(k: Kind, value: Ref) -> Exception {
    match k {
        Kind::Argument => Exception::Argument(value),
        Kind::Bounds => Exception::Bounds(value),
        Kind::Composite => Exception::Composite(value),
        Kind::Divide => Exception::Divide(value),
        Kind::Domain => Exception::Domain(value),
        Kind::EOF => Exception::EOF(value),
        Kind::Error => Exception::Error(value),
        Kind::Inexact => Exception::Inexact(value),
        Kind::Init => Exception::Init(value),
        Kind::Interrupt => Exception::Interrupt(value),
        Kind::InvalidState => Exception::InvalidState(value),
        Kind::Key => Exception::Key(value),
        Kind::Load => Exception::Load(value),
        Kind::OutOfMemory => Exception::OutOfMemory(value),
        Kind::ReadOnlyMemory => Exception::ReadOnlyMemory(value),
        Kind::Remote => Exception::Remote(value),
        Kind::Method => Exception::Method(value),
        Kind::Overflow => Exception::Overflow(value),
        Kind::Parse => Exception::Parse(value),
        Kind::System => Exception::System(value),
        Kind::Type => Exception::Type(value),
        Kind::UndefRef => Exception::UndefRef(value),
        Kind::UndefVar => Exception::UndefVar(value),
        Kind::Unicode => Exception::Unicode(value),
        Kind::Unknown => Exception::Unknown(value),
    }
}

impl Exception {
    /// The kind of this fault.
    pub open spec fn spec_kind(&self) -> Kind {
        match *self {
            Exception::Argument(_) => Kind::Argument,
            Exception::Bounds(_) => Kind::Bounds,
            Exception::Composite(_) => Kind::Composite,
            Exception::Divide(_) => Kind::Divide,
            Exception::Domain(_) => Kind::Domain,
            Exception::EOF(_) => Kind::EOF,
            Exception::Error(_) => Kind::Error,
            Exception::Inexact(_) => Kind::Inexact,
            Exception::Init(_) => Kind::Init,
            Exception::Interrupt(_) => Kind::Interrupt,
            Exception::InvalidState(_) => Kind::InvalidState,
            Exception::Key(_) => Kind::Key,
            Exception::Load(_) => Kind::Load,
            Exception::OutOfMemory(_) => Kind::OutOfMemory,
            Exception::ReadOnlyMemory(_) => Kind::ReadOnlyMemory,
            Exception::Remote(_) => Kind::Remote,
            Exception::Method(_) => Kind::Method,
            Exception::Overflow(_) => Kind::Overflow,
            Exception::Parse(_) => Kind::Parse,
            Exception::System(_) => Kind::System,
            Exception::Type(_) => Kind::Type,
            Exception::UndefRef(_) => Kind::UndefRef,
            Exception::UndefVar(_) => Kind::UndefVar,
            Exception::Unicode(_) => Kind::Unicode,
            Exception::Unknown(_) => Kind::Unknown,
        }
    }

    /// The fault object.
    pub open spec fn inner(&self) -> Ref {
        match *self {
            Exception::Argument(value) => value,
            Exception::Bounds(value) => value,
            Exception::Composite(value) => value,
            Exception::Divide(value) => value,
            Exception::Domain(value) => value,
            Exception::EOF(value) => value,
            Exception::Error(value) => value,
            Exception::Inexact(value) => value,
            Exception::Init(value) => value,
            Exception::Interrupt(value) => value,
            Exception::InvalidState(value) => value,
            Exception::Key(value) => value,
            Exception::Load(value) => value,
            Exception::OutOfMemory(value) => value,
            Exception::ReadOnlyMemory(value) => value,
            Exception::Remote(value) => value,
            Exception::Method(value) => value,
            Exception::Overflow(value) => value,
            Exception::Parse(value) => value,
            Exception::System(value) => value,
            Exception::Type(value) => value,
            Exception::UndefRef(value) => value,
            Exception::UndefVar(value) => value,
            Exception::Unicode(value) => value,
            Exception::Unknown(value) => value,
        }
    }

    /// The exception of kind `k` around the fault object `value`.
    pub fn new(k: Kind, value: Ref) -> (e: Exception)
        ensures
            e == exception_of(k, value),
            e.spec_kind() == k,
            e.inner() == value,
    {
        match k {
            Kind::Argument => Exception::Argument(value),
            Kind::Bounds => Exception::Bounds(value),
            Kind::Composite => Exception::Composite(value),
            Kind::Divide => Exception::Divide(value),
            Kind::Domain => Exception::Domain(value),
            Kind::EOF => Exception::EOF(value),
            Kind::Error => Exception::Error(value),
            Kind::Inexact => Exception::Inexact(value),
            Kind::Init => Exception::Init(value),
            Kind::Interrupt => Exception::Interrupt(value),
            Kind::InvalidState => Exception::InvalidState(value),
            Kind::Key => Exception::Key(value),
            Kind::Load => Exception::Load(value),
            Kind::OutOfMemory => Exception::OutOfMemory(value),
            Kind::ReadOnlyMemory => Exception::ReadOnlyMemory(value),
            Kind::Remote => Exception::Remote(value),
            Kind::Method => Exception::Method(value),
            Kind::Overflow => Exception::Overflow(value),
            Kind::Parse => Exception::Parse(value),
            Kind::System => Exception::System(value),
            Kind::Type => Exception::Type(value),
            Kind::UndefRef => Exception::UndefRef(value),
            Kind::UndefVar => Exception::UndefVar(value),
            Kind::Unicode => Exception::Unicode(value),
            Kind::Unknown => Exception::Unknown(value),
        }
    }

    /// The kind of this fault.
    #[verifier::when_used_as_spec(spec_kind)]
    pub fn kind(&self) -> (k: Kind)
        ensures
            k == self.spec_kind(),
    {
        match self {
            Exception::Argument(_) => Kind::Argument,
            Exception::Bounds(_) => Kind::Bounds,
            Exception::Composite(_) => Kind::Composite,
            Exception::Divide(_) => Kind::Divide,
            Exception::Domain(_) => Kind::Domain,
            Exception::EOF(_) => Kind::EOF,
            Exception::Error(_) => Kind::Error,
            Exception::Inexact(_) => Kind::Inexact,
            Exception::Init(_) => Kind::Init,
            Exception::Interrupt(_) => Kind::Interrupt,
            Exception::InvalidState(_) => Kind::InvalidState,
            Exception::Key(_) => Kind::Key,
            Exception::Load(_) => Kind::Load,
            Exception::OutOfMemory(_) => Kind::OutOfMemory,
            Exception::ReadOnlyMemory(_) => Kind::ReadOnlyMemory,
            Exception::Remote(_) => Kind::Remote,
            Exception::Method(_) => Kind::Method,
            Exception::Overflow(_) => Kind::Overflow,
            Exception::Parse(_) => Kind::Parse,
            Exception::System(_) => Kind::System,
            Exception::Type(_) => Kind::Type,
            Exception::UndefRef(_) => Kind::UndefRef,
            Exception::UndefVar(_) => Kind::UndefVar,
            Exception::Unicode(_) => Kind::Unicode,
            Exception::Unknown(_) => Kind::Unknown,
        }
    }

    /// Wraps a fault object, classified by the type name that the runtime
    /// reports for it. Fails when the handle is no longer live.
    pub fn with_value(value: Ref) -> (r: Result<Exception, Error>)
        ensures
            r == (if value.is_live() {
                Ok::<Exception, Error>(exception_of(classify(value.reported_name()), value))
            } else {
                Err::<Exception, Error>(Error::HandleError)
            }),
    {
        let k = match value.typename() {
            Ok(name) => Kind::from_typename(name.as_str()),
            Err(e) => {
                return Err(e);
            },
        };
        Ok(Exception::new(k, value))
    }

    /// Immutably borrows the inner value.
    pub fn inner_ref(&self) -> (r: &Ref)
        ensures
            *r == self.inner(),
    {
        match self {
            Exception::Argument(value) => value,
            Exception::Bounds(value) => value,
            Exception::Composite(value) => value,
            Exception::Divide(value) => value,
            Exception::Domain(value) => value,
            Exception::EOF(value) => value,
            Exception::Error(value) => value,
            Exception::Inexact(value) => value,
            Exception::Init(value) => value,
            Exception::Interrupt(value) => value,
            Exception::InvalidState(value) => value,
            Exception::Key(value) => value,
            Exception::Load(value) => value,
            Exception::OutOfMemory(value) => value,
            Exception::ReadOnlyMemory(value) => value,
            Exception::Remote(value) => value,
            Exception::Method(value) => value,
            Exception::Overflow(value) => value,
            Exception::Parse(value) => value,
            Exception::System(value) => value,
            Exception::Type(value) => value,
            Exception::UndefRef(value) => value,
            Exception::UndefVar(value) => value,
            Exception::Unicode(value) => value,
            Exception::Unknown(value) => value,
        }
    }

    /// Consumes self and returns the inner value.
    pub fn into_inner(self) -> (r: Ref)
        ensures
            r == self.inner(),
    {
        match self {
            Exception::Argument(value) => value,
            Exception::Bounds(value) => value,
            Exception::Composite(value) => value,
            Exception::Divide(value) => value,
            Exception::Domain(value) => value,
            Exception::EOF(value) => value,
            Exception::Error(value) => value,
            Exception::Inexact(value) => value,
            Exception::Init(value) => value,
            Exception::Interrupt(value) => value,
            Exception::InvalidState(value) => value,
            Exception::Key(value) => value,
            Exception::Load(value) => value,
            Exception::OutOfMemory(value) => value,
            Exception::ReadOnlyMemory(value) => value,
            Exception::Remote(value) => value,
            Exception::Method(value) => value,
            Exception::Overflow(value) => value,
            Exception::Parse(value) => value,
            Exception::System(value) => value,
            Exception::Type(value) => value,
            Exception::UndefRef(value) => value,
            Exception::UndefVar(value) => value,
            Exception::Unicode(value) => value,
            Exception::Unknown(value) => value,
        }
    }

    /// The one-line description of this fault's kind.
    pub fn description(&self) -> (r: &'static str)
        ensures
            r@ == description_of(self.spec_kind()),
            r@.len() > 0,
    {
        self.kind().description()
    }

    /// Mutably borrows the inner value. The kind stays what it was.
    pub fn inner_mut(&mut self) -> (r: &mut Ref)
        ensures
            *r == old(self).inner(),
            *final(self) == exception_of(old(self).spec_kind(), *final(r)),
    {
        match self {
            Exception::Argument(value) => value,
            Exception::Bounds(value) => value,
            Exception::Composite(value) => value,
            Exception::Divide(value) => value,
            Exception::Domain(value) => value,
            Exception::EOF(value) => value,
            Exception::Error(value) => value,
            Exception::Inexact(value) => value,
            Exception::Init(value) => value,
            Exception::Interrupt(value) => value,
            Exception::InvalidState(value) => value,
            Exception::Key(value) => value,
            Exception::Load(value) => value,
            Exception::OutOfMemory(value) => value,
            Exception::ReadOnlyMemory(value) => value,
            Exception::Remote(value) => value,
            Exception::Method(value) => value,
            Exception::Overflow(value) => value,
            Exception::Parse(value) => value,
            Exception::System(value) => value,
            Exception::Type(value) => value,
            Exception::UndefRef(value) => value,
            Exception::UndefVar(value) => value,
            Exception::Unicode(value) => value,
            Exception::Unknown(value) => value,
        }
    }

    /// The debug form: the type name that the runtime reports for the fault
    /// object. Fails when the handle is no longer live.
    pub fn debug_string(&self) -> (r: Result<String, Error>)
        ensures
            match r {
                Ok(text) => self.inner().is_live() && text@ == self.inner().reported_name(),
                Err(e) => !self.inner().is_live() && e == Error::HandleError,
            },
    {
        self.inner_ref().typename()
    }

    /// The display form, which is the debug form.
    pub fn to_string(&self) -> (r: Result<String, Error>)
        ensures
            match r {
                Ok(text) => self.inner().is_live() && text@ == self.inner().reported_name(),
                Err(e) => !self.inner().is_live() && e == Error::HandleError,
            },
    {
        self.debug_string()
    }

    /// Marshals the native call that raises this fault object now. Fails,
    /// and gives no call, when the handle is no longer live.
    pub fn throw(&self) -> (r: Result<NativeCall, Error>)
        ensures
            outcome(r) == (if self.inner().is_live() {
                Ok::<Call, Error>(Call::Throw(self.inner().addr()))
            } else {
                Err::<Call, Error>(Error::HandleError)
            }),
    {
        match self.inner_ref().lock() {
            Ok(raw) => Ok(NativeCall::Throw(raw)),
            Err(e) => Err(e),
        }
    }

    /// Marshals the native call that raises this fault object again, in the
    /// context it was first raised in. Fails, and gives no call, when the
    /// handle is no longer live.
    pub fn rethrow(&self) -> (r: Result<NativeCall, Error>)
        ensures
            outcome(r) == (if self.inner().is_live() {
                Ok::<Call, Error>(Call::Rethrow(self.inner().addr()))
            } else {
                Err::<Call, Error>(Error::HandleError)
            }),
    {
        match self.inner_ref().lock() {
            Ok(raw) => Ok(NativeCall::Rethrow(raw)),
            Err(e) => Err(e),
        }
    }

    /// Check if an exception occurred without checking its value. The
    /// register is left as it is.
    pub fn occurred(register: &Register) -> (r: bool)
        ensures
            r == register.is_pending(),
    {
        register.probe() != 0
    }

    /// Catch an exception if it occurred. Returns `None` if no exception
    /// occurred. The register is clear afterwards in either case.
    pub fn catch(register: &mut Register) -> (r: Option<Exception>)
        ensures
            final(register)@ == capture(old(register)@).0,
            hands_out(capture(old(register)@).1, r),
    {
        let (raw, name) = register.take();
        if raw == 0 {
            None
        } else {
            match Exception::with_value(Ref::new(raw, name)) {
                Ok(ex) => Some(ex),
                Err(_) => None,
            }
        }
    }
}

impl std::ops::Deref for Exception {
    type Target = Ref;

    /// The fault object, as `inner_ref` gives it.
    fn deref(&self) -> (r: &Ref)
        ensures
            *r == self.inner(),
    {
        self.inner_ref()
    }
}

impl std::ops::DerefMut for Exception {
    /// The fault object, as `inner_mut` gives it.
    fn deref_mut(&mut self) -> (r: &mut Ref)
        ensures
            *r == old(self).inner(),
            *final(self) == exception_of(old(self).spec_kind(), *final(r)),
    {
        self.inner_mut()
    }
}

/// What a capture does to a register that holds `slot`: what the register
/// holds afterwards, and the fault that is handed out with its kind. The
/// register is always left clear; a pending fault is handed out, classified
/// by its type name.
pub open spec fn capture(slot: Option<Fault>) -> (Option<Fault>, Option<(Kind, Fault)>) {
    match slot {
        None => (None, None),
        Some(fault) => (None, Some((classify(fault.name), fault))),
    }
}

/// Whether `caught` is `captured` as a host value: the fault object behind a
/// fresh, live handle, in the variant of its kind.
pub open spec fn hands_out(captured: Option<(Kind, Fault)>, caught: Option<Exception>) -> bool {
    match (captured, caught) {
        (None, None) => true,
        (Some((kind, fault)), Some(ex)) => {
            &&& ex == exception_of(kind, ex.inner())
            &&& ex.inner().addr() == fault.addr
            &&& ex.inner().reported_name() == fault.name
            &&& ex.inner().is_live()
        },
        _ => false,
    }
}

/// A register is pending exactly after a fault object that is not null was
/// recorded, and no capture leaves it pending.
pub proof fn pending_round_trip(raw: usize, name: Seq<char>)
    ensures
        recorded(raw, name) is Some <==> raw != 0,
        capture(recorded(raw, name)).0 is None,
{
}

/// A capture from a clear register finds nothing and leaves the register
/// clear, so that it can be repeated any number of times to the same effect.
pub proof fn capture_of_nothing()
    ensures
        capture(None) == (None::<Fault>, None::<(Kind, Fault)>),
        capture(capture(None).0) == capture(None),
{
}

/// A pending fault is captured as exactly one exception, of the kind that
/// its type name classifies as; the capture that follows at once finds
/// nothing: no fault is captured twice.
pub proof fn capture_is_once(slot: Option<Fault>)
    requires
        slot is Some,
    ensures
        capture(slot).1 == Some((classify(slot.unwrap().name), slot.unwrap())),
        capture(capture(slot).0).1 is None,
{
}

/// Captures what the native call just made has left in the register, before
/// any other native call is made: nothing, and the call went well, or a
/// fault, which is handed up as an unhandled exception. The register is
/// clear afterwards in either case.
pub fn settle(register: &mut Register) -> (r: Result<(), Error>)
    ensures
        final(register)@ == capture(old(register)@).0,
        match r {
            Ok(_) => old(register)@ is None,
            Err(Error::UnhandledException(ex)) => hands_out(
                capture(old(register)@).1,
                Some(ex),
            ),
            Err(_) => false,
        },
{
    match Exception::catch(register) {
        Some(ex) => Err(Error::UnhandledException(ex)),
        None => Ok(()),
    }
}

/// Whether every handle of `handles` is live.
pub open spec fn all_live(handles: Seq<Ref>) -> bool {
    forall|i: int| 0 <= i < handles.len() ==> (#[trigger] handles[i]).is_live()
}

/// The addresses of `handles`, in their order.
pub open spec fn addrs(handles: Seq<Ref>) -> Seq<usize> {
    Seq::new(handles.len(), |i: int| handles[i].addr())
}

/// Locks every handle, in order, and collects the addresses.
fn lock_all(handles: &[Ref]) -> (r: Result<PointerList, Error>)
    requires
        handles@.len() <= max_pointers(),
    ensures
        match r {
            Ok(list) => all_live(handles@) && pointer_list(list) == addrs(handles@),
            Err(e) => !all_live(handles@) && e == Error::HandleError,
        },
{
    let mut list = pointers_new();
    let n: usize = handles.len();
    let mut i: usize = 0;
    while i < n
        invariant
            n == handles@.len(),
            n <= max_pointers(),
            0 <= i <= n,
            all_live(handles@.subrange(0, i as int)),
            pointer_list(list) == addrs(handles@.subrange(0, i as int)),
        decreases n - i,
    {
        match handles[i].lock() {
            Ok(raw) => {
                pointers_push(&mut list, raw);
            },
            Err(e) => {
                return Err(e);
            },
        }
        assert(pointer_list(list) =~= addrs(handles@.subrange(0, i + 1)));
        i += 1;
    }
    assert(handles@.subrange(0, n as int) =~= handles@);
    Ok(list)
}

/// Throws a generic error: marshals the native call that raises a generic
/// fault with the message `string`.
pub fn error(string: &str) -> (r: Result<NativeCall, Error>)
    ensures
        outcome(r) == match marshalled(string@) {
            Ok(message) => Ok::<Call, Error>(Call::Error(message)),
            Err(e) => Err::<Call, Error>(e),
        },
{
    match into_cstring(string) {
        Ok(message) => Ok(NativeCall::Error(message)),
        Err(e) => Err(e),
    }
}

/// Throws a formatted generic error: as [`error`], on a message that the
/// caller has formatted.
pub fn error_format(args: String) -> (r: Result<NativeCall, Error>)
    ensures
        outcome(r) == match marshalled(args@) {
            Ok(message) => Ok::<Call, Error>(Call::Error(message)),
            Err(e) => Err::<Call, Error>(e),
        },
{
    error(args.as_str())
}

/// Throws an exception with the specified Datatype and message. The type is
/// locked first, then the message is marshalled.
pub fn exception(ty: &Datatype, string: &str) -> (r: Result<NativeCall, Error>)
    ensures
        outcome(r) == (if !ty.inner().is_live() {
            Err::<Call, Error>(Error::HandleError)
        } else {
            match marshalled(string@) {
                Ok(message) => Ok::<Call, Error>(
                    Call::Exception { ty: ty.inner().addr(), message },
                ),
                Err(e) => Err::<Call, Error>(e),
            }
        }),
{
    let ty = match ty.lock() {
        Ok(raw) => raw,
        Err(e) => {
            return Err(e);
        },
    };
    match into_cstring(string) {
        Ok(message) => Ok(NativeCall::Exception { ty, message }),
        Err(e) => Err(e),
    }
}

/// Throws an exception with the specified Datatype and a formatted message:
/// as [`exception`], on a message that the caller has formatted.
pub fn exception_format(ty: &Datatype, args: String) -> (r: Result<NativeCall, Error>)
    ensures
        outcome(r) == (if !ty.inner().is_live() {
            Err::<Call, Error>(Error::HandleError)
        } else {
            match marshalled(args@) {
                Ok(message) => Ok::<Call, Error>(
                    Call::Exception { ty: ty.inner().addr(), message },
                ),
                Err(e) => Err::<Call, Error>(e),
            }
        }),
{
    exception(ty, args.as_str())
}

/// Too few arguments exception. The native entry point counts in 32 bits:
/// `min` is cut to them.
pub fn too_few_args(fname: &str, min: usize) -> (r: Result<NativeCall, Error>)
    ensures
        outcome(r) == match marshalled(fname@) {
            Ok(name) => Ok::<Call, Error>(Call::TooFewArgs { name, min: min as i32 }),
            Err(e) => Err::<Call, Error>(e),
        },
{
    match into_cstring(fname) {
        Ok(name) => Ok(NativeCall::TooFewArgs { name, min: #[verifier::truncate] (min as i32) }),
        Err(e) => Err(e),
    }
}

/// Too many arguments exception. The native entry point counts in 32 bits:
/// `max` is cut to them.
pub fn too_many_args(fname: &str, max: usize) -> (r: Result<NativeCall, Error>)
    ensures
        outcome(r) == match marshalled(fname@) {
            Ok(name) => Ok::<Call, Error>(Call::TooManyArgs { name, max: max as i32 }),
            Err(e) => Err::<Call, Error>(e),
        },
{
    match into_cstring(fname) {
        Ok(name) => Ok(NativeCall::TooManyArgs { name, max: #[verifier::truncate] (max as i32) }),
        Err(e) => Err(e),
    }
}

/// Invalid type in an expression. The name is marshalled first, then the
/// expected value is locked, then the value got.
pub fn type_error(fname: &str, expected: &Ref, got: &Ref) -> (r: Result<NativeCall, Error>)
    ensures
        outcome(r) == match marshalled(fname@) {
            Err(e) => Err::<Call, Error>(e),
            Ok(name) => if expected.is_live() && got.is_live() {
                Ok::<Call, Error>(
                    Call::TypeError { name, expected: expected.addr(), got: got.addr() },
                )
            } else {
                Err::<Call, Error>(Error::HandleError)
            },
        },
{
    let name = match into_cstring(fname) {
        Ok(name) => name,
        Err(e) => {
            return Err(e);
        },
    };
    let expected = match expected.lock() {
        Ok(raw) => raw,
        Err(e) => {
            return Err(e);
        },
    };
    match got.lock() {
        Ok(got) => Ok(NativeCall::TypeError { name, expected, got }),
        Err(e) => Err(e),
    }
}

/// Invalid type in an expression, in a named context and against the
/// expected type itself. The name is marshalled first, then the context,
/// then the type is locked, then the value got.
pub fn type_error_rt(fname: &str, context: &str, ty: &Ref, got: &Ref) -> (r: Result<
    NativeCall,
    Error,
>)
    ensures
        outcome(r) == match marshalled(fname@) {
            Err(e) => Err::<Call, Error>(e),
            Ok(name) => match marshalled(context@) {
                Err(e) => Err::<Call, Error>(e),
                Ok(context) => if ty.is_live() && got.is_live() {
                    Ok::<Call, Error>(
                        Call::TypeErrorRt { name, context, ty: ty.addr(), got: got.addr() },
                    )
                } else {
                    Err::<Call, Error>(Error::HandleError)
                },
            },
        },
{
    let name = match into_cstring(fname) {
        Ok(name) => name,
        Err(e) => {
            return Err(e);
        },
    };
    let context = match into_cstring(context) {
        Ok(context) => context,
        Err(e) => {
            return Err(e);
        },
    };
    let ty = match ty.lock() {
        Ok(raw) => raw,
        Err(e) => {
            return Err(e);
        },
    };
    match got.lock() {
        Ok(got) => Ok(NativeCall::TypeErrorRt { name, context, ty, got }),
        Err(e) => Err(e),
    }
}

/// No value is bound to this symbol.
pub fn undefined_var_error(var: &Symbol) -> (r: Result<NativeCall, Error>)
    ensures
        outcome(r) == (if var.inner().is_live() {
            Ok::<Call, Error>(Call::UndefinedVar(var.inner().addr()))
        } else {
            Err::<Call, Error>(Error::HandleError)
        }),
{
    match var.lock() {
        Ok(raw) => Ok(NativeCall::UndefinedVar(raw)),
        Err(e) => Err(e),
    }
}

/// Index out of bound: a value and one boxed index.
pub fn bounds_error(v: &Ref, idx: &Ref) -> (r: Result<NativeCall, Error>)
    ensures
        outcome(r) == (if v.is_live() && idx.is_live() {
            Ok::<Call, Error>(Call::Bounds { value: v.addr(), index: idx.addr() })
        } else {
            Err::<Call, Error>(Error::HandleError)
        }),
{
    let value = match v.lock() {
        Ok(raw) => raw,
        Err(e) => {
            return Err(e);
        },
    };
    match idx.lock() {
        Ok(index) => Ok(NativeCall::Bounds { value, index }),
        Err(e) => Err(e),
    }
}

/// Index out of bound: a value and several boxed indices, locked in order.
pub fn bounds_error_v(v: &Ref, idxs: &[Ref]) -> (r: Result<NativeCall, Error>)
    requires
        idxs@.len() <= max_pointers(),
    ensures
        outcome(r) == (if v.is_live() && all_live(idxs@) {
            Ok::<Call, Error>(Call::BoundsV { value: v.addr(), indices: addrs(idxs@) })
        } else {
            Err::<Call, Error>(Error::HandleError)
        }),
{
    let value = match v.lock() {
        Ok(raw) => raw,
        Err(e) => {
            return Err(e);
        },
    };
    match lock_all(idxs) {
        Ok(list) => Ok(NativeCall::BoundsV { value, indices: pointers_into_vec(list) }),
        Err(e) => Err(e),
    }
}

/// Index out of bound: a value and one integer index.
pub fn bounds_error_int(v: &Ref, i: usize) -> (r: Result<NativeCall, Error>)
    ensures
        outcome(r) == (if v.is_live() {
            Ok::<Call, Error>(Call::BoundsInt { value: v.addr(), index: i })
        } else {
            Err::<Call, Error>(Error::HandleError)
        }),
{
    match v.lock() {
        Ok(value) => Ok(NativeCall::BoundsInt { value, index: i }),
        Err(e) => Err(e),
    }
}

/// Index out of bound: the values of a tuple, locked in order, and one
/// integer index.
pub fn bounds_error_tuple_int(v: &[Ref], i: usize) -> (r: Result<NativeCall, Error>)
    requires
        v@.len() <= max_pointers(),
    ensures
        outcome(r) == (if all_live(v@) {
            Ok::<Call, Error>(Call::BoundsTupleInt { values: addrs(v@), index: i })
        } else {
            Err::<Call, Error>(Error::HandleError)
        }),
{
    match lock_all(v) {
        Ok(list) => Ok(NativeCall::BoundsTupleInt { values: pointers_into_vec(list), index: i }),
        Err(e) => Err(e),
    }
}

/// Index out of bound: a value and several integer indices.
pub fn bounds_error_ints(v: &Ref, idxs: &[usize]) -> (r: Result<NativeCall, Error>)
    ensures
        outcome(r) == (if v.is_live() {
            Ok::<Call, Error>(Call::BoundsInts { value: v.addr(), indices: idxs@ })
        } else {
            Err::<Call, Error>(Error::HandleError)
        }),
{
    match v.lock() {
        Ok(value) => Ok(NativeCall::BoundsInts { value, indices: slice_to_vec(idxs) }),
        Err(e) => Err(e),
    }
}

/// Unexpected End of File. Nothing is marshalled, so nothing can fail.
pub fn eof_error() -> (r: NativeCall)
    ensures
        r@ == Call::Eof,
{
    NativeCall::Eof
}

} // verus!
