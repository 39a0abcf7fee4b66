//! Handles to values that the interpreter owns.

use crate::error::Error;
use vstd::prelude::*;

verus! {

/// A tracked reference to a value of the interpreter.
///
/// It records the address of the value, the type name that the runtime
/// reports for it, and whether the value is still live. The address leaves a
/// handle only through [`Ref::lock`].
#[derive(Clone, Debug, PartialEq, Eq)]
pub struct Ref {
    raw: usize,
    live: bool,
    typename: String,
}

impl Ref {
    /// The address of the value.
    pub closed spec fn addr(&self) -> usize {
        self.raw
    }

    /// Whether the value is still live.
    pub closed spec fn is_live(&self) -> bool {
        self.live
    }

    /// The type name that the runtime reports for the value.
    pub closed spec fn reported_name(&self) -> Seq<char> {
        self.typename@
    }

    /// Tracks the value at `raw`, whose runtime type is named `typename`.
    pub fn new(raw: usize, typename: String) -> (r: Ref)
        ensures
            r.addr() == raw,
            r.is_live(),
            r.reported_name() == typename@,
    {
        Ref { raw, live: true, typename }
    }

    /// Marks the value as gone. Every later `lock` fails.
    pub fn invalidate(&mut self)
        ensures
            !final(self).is_live(),
            final(self).addr() == old(self).addr(),
            final(self).reported_name() == old(self).reported_name(),
    {
        self.live = false;
    }

    /// Whether `lock` would succeed.
    pub fn is_valid(&self) -> (r: bool)
        ensures
            r == self.is_live(),
    {
        self.live
    }

    /// The address of the value, for the native call that follows at once.
    /// Fails, and gives no address, when the value is no longer live.
    pub fn lock(&self) -> (r: Result<usize, Error>)
        ensures
            r == (if self.is_live() {
                Ok::<usize, Error>(self.addr())
            } else {
                Err::<usize, Error>(Error::HandleError)
            }),
    {
        if self.live {
            Ok(self.raw)
        } else {
            Err(Error::HandleError)
        }
    }

    /// The type name that the runtime reports for the value, read under a lock.
    pub fn typename(&self) -> (r: Result<String, Error>)
        ensures
            match r {
                Ok(name) => self.is_live() && name@ == self.reported_name(),
                Err(e) => !self.is_live() && e == Error::HandleError,
            },
    {
        match self.lock() {
            Ok(_) => Ok(self.typename.clone()),
            Err(e) => Err(e),
        }
    }
}

/// A handle to an interned symbol of the interpreter.
#[derive(Clone, Debug, PartialEq, Eq)]
pub struct Symbol {
    inner: Ref,
}

impl Symbol {
    /// The handle inside.
    pub closed spec fn inner(&self) -> Ref {
        self.inner
    }

    pub fn new(inner: Ref) -> (r: Symbol)
        ensures
            r.inner() == inner,
    {
        Symbol { inner }
    }

    /// The address of the symbol: see [`Ref::lock`].
    pub fn lock(&self) -> (r: Result<usize, Error>)
        ensures
            r == (if self.inner().is_live() {
                Ok::<usize, Error>(self.inner().addr())
            } else {
                Err::<usize, Error>(Error::HandleError)
            }),
    {
        self.inner.lock()
    }
}

/// A handle to a type object of the interpreter.
#[derive(Clone, Debug, PartialEq, Eq)]
pub struct Datatype {
    inner: Ref,
}

impl Datatype {
    /// The handle inside.
    pub closed spec fn inner(&self) -> Ref {
        self.inner
    }

    pub fn new(inner: Ref) -> (r: Datatype)
        ensures
            r.inner() == inner,
    {
        Datatype { inner }
    }

    /// The address of the type object: see [`Ref::lock`].
    pub fn lock(&self) -> (r: Result<usize, Error>)
        ensures
            r == (if self.inner().is_live() {
                Ok::<usize, Error>(self.inner().addr())
            } else {
                Err::<usize, Error>(Error::HandleError)
            }),
    {
        self.inner.lock()
    }
}

} // verus!
