//! Byte buffers handed across the boundary.

use vstd::prelude::*;
use crate::handle::Handle;
use crate::native::CallView;
use crate::native::NativeHost;
use crate::native::ObjView;
use crate::ul::error::Error;

verus! {

/// A wrapper around one native byte buffer. Owned buffers are destroyed
/// exactly once; borrowed ones never trigger a destroy call.
pub struct Buffer {
    handle: Handle,
    owned: bool,
}

impl Buffer {
    /// The native address of this buffer.
    pub closed spec fn addr(self) -> u64 {
        self.handle.raw_addr()
    }

    /// Whether this wrapper owns the native buffer.
    pub closed spec fn spec_owned(self) -> bool {
        self.owned
    }

    /// Wrap a raw buffer address; fails on null.
    pub fn from_raw(raw: u64, owned: bool) -> (r: Option<Buffer>)
        ensures
            r is Some <==> raw != 0,
            r matches Some(b) ==> b.addr() == raw && b.spec_owned() == owned,
    {
        let handle = if owned {
            Handle::owning(raw)
        } else {
            Handle::borrowed(raw)
        };
        match handle {
            Some(handle) => Some(Buffer { handle, owned }),
            None => None,
        }
    }

    /// Create a buffer around the given data; the model copies it into the
    /// native allocation.
    pub fn new(host: &mut NativeHost, data: &[u8]) -> (r: Result<Buffer, Error>)
        ensures
            r is Ok <==> old(host).create_succeeds(),
            r matches Ok(b) ==> {
                &&& b.spec_owned()
                &&& b.addr() != 0
                &&& !old(host).live(b.addr())
                &&& final(host).obj(b.addr()) == Some(ObjView::Buffer { data: data@, owns_data: false })
                &&& final(host).calls() == old(host).calls().push(CallView::CreateBuffer { addr: b.addr() })
                &&& final(host).objs_same_except(*old(host), b.addr())
            },
            r is Err ==> {
                &&& r == Err::<Buffer, Error>(Error::CreationFailed("Failed to create buffer"))
                &&& final(host).objs_same(*old(host))
            },
    {
        let raw = host.create_buffer(data, false);
        match Buffer::from_raw(raw, true) {
            Some(b) => Ok(b),
            None => Err(Error::CreationFailed("Failed to create buffer")),
        }
    }

    /// Create a buffer holding a native-owned copy of the given data.
    pub fn from_copy(host: &mut NativeHost, data: &[u8]) -> (r: Result<Buffer, Error>)
        ensures
            r is Ok <==> old(host).create_succeeds(),
            r matches Ok(b) ==> {
                &&& b.spec_owned()
                &&& b.addr() != 0
                &&& final(host).obj(b.addr()) == Some(ObjView::Buffer { data: data@, owns_data: true })
                &&& final(host).calls() == old(host).calls().push(CallView::CreateBuffer { addr: b.addr() })
                &&& final(host).objs_same_except(*old(host), b.addr())
            },
            r is Err ==> {
                &&& r == Err::<Buffer, Error>(Error::CreationFailed("Failed to create buffer"))
                &&& final(host).objs_same(*old(host))
            },
    {
        let raw = host.create_buffer(data, true);
        match Buffer::from_raw(raw, true) {
            Some(b) => Ok(b),
            None => Err(Error::CreationFailed("Failed to create buffer")),
        }
    }

    /// The raw native address, for handing back across the boundary.
    pub fn raw(&self) -> (r: u64)
        ensures
            r == self.addr(),
            r != 0,
    {
        self.handle.raw()
    }

    /// A copy of the buffer's bytes.
    pub fn to_vec(&self, host: &NativeHost) -> (r: Vec<u8>)
        requires
            host.obj(self.addr()) matches Some(ObjView::Buffer { .. }),
        ensures
            host.obj(self.addr()) matches Some(ObjView::Buffer { data, .. }) && r@ == data,
    {
        host.buffer_data(self.handle.raw())
    }

    /// The buffer's size in bytes.
    pub fn size(&self, host: &NativeHost) -> (r: usize)
        requires
            host.obj(self.addr()) matches Some(ObjView::Buffer { .. }),
        ensures
            host.obj(self.addr()) matches Some(ObjView::Buffer { data, .. }) && r == data.len(),
    {
        let d = host.buffer_data(self.handle.raw());
        d.len()
    }

    /// Whether the native buffer owns its storage.
    pub fn owns_data(&self, host: &NativeHost) -> (r: bool)
        requires
            host.obj(self.addr()) matches Some(ObjView::Buffer { .. }),
        ensures
            host.obj(self.addr()) matches Some(ObjView::Buffer { owns_data, .. }) && r == owns_data,
    {
        host.buffer_owns_data(self.handle.raw())
    }

    /// Tear down this wrapper; an owned buffer makes exactly one native
    /// destroy call, a borrowed one makes none.
    pub fn destroy(self, host: &mut NativeHost)
        ensures
            self.spec_owned() ==> {
                &&& final(host).calls() == old(host).calls().push(CallView::DestroyBuffer { addr: self.addr() })
                &&& final(host).obj(self.addr()) is None
                &&& final(host).objs_same_except(*old(host), self.addr())
            },
            !self.spec_owned() ==> *final(host) == *old(host),
            final(host).allocated() == old(host).allocated(),
    {
        if self.owned {
            host.destroy_buffer(self.handle.raw());
        }
    }
}

} // verus!
