//! The interpreter's pending-fault register, as the host sees it.

use vstd::prelude::*;

verus! {

/// A fault object as the register reports it: its address, and the type name
/// that the runtime gives for it.
pub ghost struct Fault {
    pub addr: usize,
    pub name: Seq<char>,
}

/// The single slot in which the interpreter records a fault that a native
/// call raised. It is clear, or it holds a fault object. A null address is
/// no fault.
///
/// The interpreter has one such slot for the whole process, not one per
/// thread, and nothing here locks it: capturing and raising must not be
/// interleaved across threads unless the interpreter serialises them.
pub struct Register {
    raw: usize,
    typename: String,
}

/// What the register holds once the interpreter has recorded the fault
/// object at `raw`: that fault, or nothing where the address is null.
pub open spec fn recorded(raw: usize, name: Seq<char>) -> Option<Fault> {
    if raw == 0 {
        None
    } else {
        Some(Fault { addr: raw, name })
    }
}

impl View for Register {
    type V = Option<Fault>;

    closed spec fn view(&self) -> Option<Fault> {
        recorded(self.raw, self.typename@)
    }
}

impl Register {
    /// Whether a fault is pending.
    pub open spec fn is_pending(&self) -> bool {
        self@ is Some
    }

    /// A clear register: the state of a fresh interpreter.
    pub fn new() -> (r: Register)
        ensures
            r@ is None,
    {
        Register { raw: 0, typename: String::new() }
    }

    /// The interpreter's transition: a native call raised the fault object at
    /// `raw`, of the type named `typename`. The register keeps only the most
    /// recent fault.
    pub fn fault(&mut self, raw: usize, typename: String)
        ensures
            final(self)@ == recorded(raw, typename@),
    {
        self.raw = raw;
        self.typename = typename;
    }

    /// Reads the register without changing it: the address of the pending
    /// fault object, or null.
    pub fn probe(&self) -> (raw: usize)
        ensures
            match self@ {
                Some(fault) => raw == fault.addr && raw != 0,
                None => raw == 0,
            },
    {
        self.raw
    }

    /// Reads the register and clears it, in one step: the address and the
    /// type name of the fault object that was pending, or a null address.
    pub fn take(&mut self) -> (r: (usize, String))
        ensures
            final(self)@ is None,
            old(self)@ == recorded(r.0, r.1@),
    {
        let raw = self.raw;
        self.raw = 0;
        let mut name = String::new();
        std::mem::swap(&mut self.typename, &mut name);
        (raw, name)
    }
}

} // verus!
