//! Opaque tokens for what lives on the native side of the boundary.
//!
//! Neither token is ever dereferenced here. Both are address-sized and are
//! equal exactly when their addresses are.

use vstd::prelude::*;

verus! {

/// The token for one channel or device object inside the native library.
///
/// The null handle stands for an object that was never created or has been
/// deleted.
#[derive(Debug, Clone, Copy, PartialEq, Eq, Hash, Structural)]
pub struct Handle {
    /// The address-sized value of the token.
    pub addr: usize,
}

impl Handle {
    /// Wraps an address as a handle.
    pub fn from_addr(addr: usize) -> (h: Handle)
        ensures
            h.addr == addr,
    {
        Handle { addr }
    }

    /// The null handle.
    pub fn null() -> (h: Handle)
        ensures
            h.addr == 0,
            h.is_null(),
    {
        Handle { addr: 0 }
    }

    /// Whether this is the null handle.
    pub open spec fn spec_is_null(self) -> bool {
        self.addr == 0
    }

    /// Whether this is the null handle.
    #[verifier::when_used_as_spec(spec_is_null)]
    pub fn is_null(self) -> (b: bool)
        ensures
            b == self.spec_is_null(),
    {
        self.addr == 0
    }
}

/// The token for one boxed callback: the context value that the native
/// library hands back to the trampoline on every event.
///
/// A context is owned by exactly one slot from its registration until its
/// release. The null context stands for "no callback".
#[derive(Debug, Clone, Copy, PartialEq, Eq, Hash, Structural)]
pub struct Context {
    /// The address-sized value of the token.
    pub addr: usize,
}

impl Context {
    /// Wraps an address as a context.
    pub fn from_addr(addr: usize) -> (c: Context)
        ensures
            c.addr == addr,
    {
        Context { addr }
    }

    /// Whether this is the null context.
    pub open spec fn spec_is_null(self) -> bool {
        self.addr == 0
    }

    /// Whether this is the null context.
    #[verifier::when_used_as_spec(spec_is_null)]
    pub fn is_null(self) -> (b: bool)
        ensures
            b == self.spec_is_null(),
    {
        self.addr == 0
    }
}

} // verus!
