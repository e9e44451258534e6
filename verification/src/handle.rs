//! Ownership-tracked handles to native objects.
//!
//! A [`Handle`] wraps one opaque native address together with an ownership
//! flag. Exactly one owning handle may exist per live native object; borrowed
//! handles are transient views that must never trigger native destruction.
//! The address is never 0: constructing a handle from the null address fails
//! explicitly instead of silently wrapping it.

use vstd::prelude::*;

verus! {

/// A wrapper around one opaque native address, tracking whether this side
/// owns the native object (and so owes it exactly one destroy call).
#[derive(Clone, Copy)]
pub struct Handle {
    addr: u64,
    owning: bool,
}

impl Handle {
    #[verifier::type_invariant]
    spec fn inv(self) -> bool {
        self.addr != 0
    }

    /// The wrapped native address.
    pub closed spec fn raw_addr(self) -> u64 {
        self.addr
    }

    /// Whether this handle owns the native object.
    pub closed spec fn is_owning(self) -> bool {
        self.owning
    }

    /// Wrap `raw` as an owning handle; fails on the null address.
    pub fn owning(raw: u64) -> (r: Option<Handle>)
        ensures
            r is Some <==> raw != 0,
            r matches Some(h) ==> h.raw_addr() == raw && h.is_owning(),
    {
        if raw == 0 {
            None
        } else {
            Some(Handle { addr: raw, owning: true })
        }
    }

    /// Wrap `raw` as a borrowed, non-owning view; fails on the null address.
    pub fn borrowed(raw: u64) -> (r: Option<Handle>)
        ensures
            r is Some <==> raw != 0,
            r matches Some(h) ==> h.raw_addr() == raw && !h.is_owning(),
    {
        if raw == 0 {
            None
        } else {
            Some(Handle { addr: raw, owning: false })
        }
    }

    /// The raw address, for handing back across the native boundary.
    pub fn raw(&self) -> (r: u64)
        ensures
            r == self.raw_addr(),
            r != 0,
    {
        proof {
            use_type_invariant(self);
        }
        self.addr
    }

    /// Whether this handle owns the native object.
    pub fn owns(&self) -> (r: bool)
        ensures
            r == self.is_owning(),
    {
        self.owning
    }
}

} // verus!
