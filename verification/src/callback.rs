//! Per-instance callback storage.
//!
//! Each resource owns one slot per event kind. Registering a callback stores
//! it in the slot (releasing whatever was registered before), and clearing
//! empties the slot, so at every moment the slot holds exactly the most
//! recently registered callback. The native-side half of a registration (the
//! function pointer and user-data address handed across the boundary) is
//! modeled by the host's registration flag for the resource, which the
//! wrappers update in the same step.

use vstd::prelude::*;

verus! {

/// Storage for one registered callback of type `T`.
pub struct CallbackStorage<T> {
    data: Option<T>,
}

impl<T> CallbackStorage<T> {
    /// The callback currently registered, if any.
    pub closed spec fn stored(self) -> Option<T> {
        self.data
    }

    /// An empty slot.
    pub fn new() -> (s: Self)
        ensures
            s.stored() is None,
    {
        CallbackStorage { data: None }
    }

    /// Register `data`, replacing (and releasing) any earlier registration.
    ///
    /// The slot afterwards holds exactly the newly registered callback, so a
    /// later invocation can never reach a replaced one.
    pub fn set(&mut self, data: T)
        ensures
            final(self).stored() == Some(data),
    {
        self.data = Some(data);
    }

    /// Release the registered callback, leaving the slot empty.
    pub fn clear(&mut self)
        ensures
            final(self).stored() is None,
    {
        self.data = None;
    }

    /// Whether a callback is registered.
    pub fn is_set(&self) -> (r: bool)
        ensures
            r == self.stored() is Some,
    {
        self.data.is_some()
    }

    /// Borrow the registered callback for an invocation.
    pub fn get(&self) -> (r: Option<&T>)
        ensures
            match r {
                Some(cb) => self.stored() == Some(*cb),
                None => self.stored() is None,
            },
    {
        self.data.as_ref()
    }
}

} // verus!
