//! Sessions storing local browsing data.

use vstd::prelude::*;
use crate::handle::Handle;
use crate::native::CallView;
use crate::native::NativeHost;
use crate::native::ObjView;

verus! {

/// A wrapper around one native session. The default session of a renderer is
/// borrowed; explicitly created sessions are owned and destroyed exactly
/// once.
pub struct Session {
    handle: Handle,
}

impl Session {
    /// The native address of this session.
    pub closed spec fn addr(self) -> u64 {
        self.handle.raw_addr()
    }

    /// Whether this wrapper owns the native session.
    pub closed spec fn is_owning(self) -> bool {
        self.handle.is_owning()
    }

    /// Wrap a raw session address; fails on null.
    pub fn from_raw(raw: u64, owned: bool) -> (r: Option<Session>)
        ensures
            r is Some <==> raw != 0,
            r matches Some(s) ==> s.addr() == raw && s.is_owning() == owned,
    {
        let handle = if owned {
            Handle::owning(raw)
        } else {
            Handle::borrowed(raw)
        };
        match handle {
            Some(handle) => Some(Session { handle }),
            None => None,
        }
    }

    /// The raw native address, for handing back across the boundary.
    pub fn raw(&self) -> (r: u64)
        ensures
            r == self.addr(),
            r != 0,
    {
        self.handle.raw()
    }

    /// Whether the session is persistent (backed to disk).
    pub fn is_persistent(&self, host: &NativeHost) -> (r: bool)
        requires
            host.obj(self.addr()) matches Some(ObjView::Session { .. }),
        ensures
            host.obj(self.addr()) matches Some(ObjView::Session { is_persistent, .. }) && r == is_persistent,
    {
        host.session_is_persistent(self.handle.raw())
    }

    /// The session's name, as UTF-8 bytes.
    pub fn name(&self, host: &NativeHost) -> (r: Vec<u8>)
        requires
            host.obj(self.addr()) matches Some(ObjView::Session { .. }),
        ensures
            host.obj(self.addr()) matches Some(ObjView::Session { name, .. }) && r@ == name,
    {
        host.session_name(self.handle.raw())
    }

    /// The unique numeric id of the session; in this model, its address.
    pub fn id(&self) -> (r: u64)
        ensures
            r == self.addr(),
    {
        self.handle.raw()
    }

    /// Tear down this wrapper; an owning session makes exactly one native
    /// destroy call, a borrowed one makes none.
    pub fn destroy(self, host: &mut NativeHost)
        ensures
            self.is_owning() ==> {
                &&& final(host).calls() == old(host).calls().push(CallView::DestroySession { addr: self.addr() })
                &&& final(host).obj(self.addr()) is None
                &&& final(host).objs_same_except(*old(host), self.addr())
            },
            !self.is_owning() ==> *final(host) == *old(host),
            final(host).allocated() == old(host).allocated(),
            final(host).create_staged_to_fail() == old(host).create_staged_to_fail(),
    {
        if self.handle.owns() {
            host.destroy_session(self.handle.raw());
        }
    }
}

} // verus!
