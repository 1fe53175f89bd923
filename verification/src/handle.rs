//! The runtime's handles.
//!
//! The runtime hands out opaque pointers and takes them back; nothing here ever looks behind one.
//! A handle is the address alone, one type for each kind of pointer, and address zero is null.

use vstd::prelude::*;

verus! {

/// An environment: what every call is made in.
#[derive(Clone, Copy, Debug, PartialEq, Eq, Structural)]
pub struct Env {
    pub addr: usize,
}

/// The arguments of one call from script, as the runtime holds them.
#[derive(Clone, Copy, Debug, PartialEq, Eq, Structural)]
pub struct CallbackInfo {
    pub addr: usize,
}

/// A script value.
#[derive(Clone, Copy, Debug, PartialEq, Eq, Structural)]
pub struct Value {
    pub addr: usize,
}

/// A reference, which keeps a script value alive.
#[derive(Clone, Copy, Debug, PartialEq, Eq, Structural)]
pub struct Reference {
    pub addr: usize,
}

/// A unit of asynchronous work.
#[derive(Clone, Copy, Debug, PartialEq, Eq, Structural)]
pub struct AsyncWork {
    pub addr: usize,
}

/// The list of arguments that a script function is called with.
#[derive(Clone, Copy, Debug, PartialEq, Eq, Structural)]
pub struct Arguments {
    pub addr: usize,
}

impl Value {
    /// The null value.
    pub open spec fn spec_null() -> Value {
        Value { addr: 0 }
    }

    /// The null value.
    #[verifier::when_used_as_spec(spec_null)]
    pub fn null() -> (value: Value)
        ensures
            value == Value::spec_null(),
            value.addr == 0,
    {
        Value { addr: 0 }
    }
}

impl AsyncWork {
    /// The null work.
    pub open spec fn spec_null() -> AsyncWork {
        AsyncWork { addr: 0 }
    }

    /// The null work.
    #[verifier::when_used_as_spec(spec_null)]
    pub fn null() -> (work: AsyncWork)
        ensures
            work == AsyncWork::spec_null(),
            work.addr == 0,
    {
        AsyncWork { addr: 0 }
    }
}

impl Arguments {
    /// The null list.
    pub open spec fn spec_null() -> Arguments {
        Arguments { addr: 0 }
    }

    /// The null list.
    #[verifier::when_used_as_spec(spec_null)]
    pub fn null() -> (arguments: Arguments)
        ensures
            arguments == Arguments::spec_null(),
            arguments.addr == 0,
    {
        Arguments { addr: 0 }
    }
}

impl Reference {
    /// The null reference.
    pub open spec fn spec_null() -> Reference {
        Reference { addr: 0 }
    }

    /// The null reference.
    #[verifier::when_used_as_spec(spec_null)]
    pub fn null() -> (reference: Reference)
        ensures
            reference == Reference::spec_null(),
            reference.addr == 0,
    {
        Reference { addr: 0 }
    }

    /// Whether this is the null reference.
    pub open spec fn spec_is_null(self) -> bool {
        self.addr == 0
    }

    /// Whether this is the null reference.
    #[verifier::when_used_as_spec(spec_is_null)]
    pub fn is_null(self) -> (null: bool)
        ensures
            null == self.spec_is_null(),
            null == (self.addr == 0),
    {
        self.addr == 0
    }
}

} // verus!
