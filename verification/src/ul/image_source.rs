//! Image sources backing user-defined images.

use vstd::prelude::*;
use crate::handle::Handle;
use crate::native::CallView;
use crate::native::NativeCall;
use crate::native::NativeHost;
use crate::native::ObjView;
use crate::ul::bitmap::Bitmap;
use crate::ul::error::Error;

verus! {

/// An owning wrapper around one native image source.
pub struct ImageSource {
    handle: Handle,
}

impl ImageSource {
    /// The native address of this image source.
    pub closed spec fn addr(self) -> u64 {
        self.handle.raw_addr()
    }

    /// Create an image source backed by a bitmap.
    pub fn from_bitmap(host: &mut NativeHost, bitmap: &Bitmap) -> (r: Result<ImageSource, Error>)
        ensures
            r is Ok <==> old(host).create_succeeds(),
            r matches Ok(s) ==> {
                &&& s.addr() != 0
                &&& !old(host).live(s.addr())
                &&& final(host).obj(s.addr()) == Some(ObjView::ImageSource { bitmap: bitmap.addr() })
                &&& final(host).calls() == old(host).calls().push(CallView::ImageSourceCreate { addr: s.addr(), bitmap: bitmap.addr() })
                &&& final(host).objs_same_except(*old(host), s.addr())
            },
            r is Err ==> {
                &&& r == Err::<ImageSource, Error>(Error::CreationFailed("Failed to create image source"))
                &&& final(host).objs_same(*old(host))
            },
    {
        let raw = host.create_image_source(bitmap.raw());
        match Handle::owning(raw) {
            Some(handle) => Ok(ImageSource { handle }),
            None => Err(Error::CreationFailed("Failed to create image source")),
        }
    }

    /// The raw native address, for handing back across the boundary.
    pub fn raw(&self) -> (r: u64)
        ensures
            r == self.addr(),
            r != 0,
    {
        self.handle.raw()
    }

    /// Tell the native layer the image contents changed.
    pub fn invalidate(&self, host: &mut NativeHost)
        ensures
            final(host).calls() == old(host).calls().push(CallView::ImageSourceInvalidate { addr: self.addr() }),
            final(host).objs_same(*old(host)),
    {
        host.log_command(NativeCall::ImageSourceInvalidate { addr: self.handle.raw() });
    }

    /// Destroy the native image source; exactly one destroy call.
    pub fn destroy(self, host: &mut NativeHost)
        ensures
            final(host).calls() == old(host).calls().push(CallView::ImageSourceDestroy { addr: self.addr() }),
            final(host).obj(self.addr()) is None,
            final(host).objs_same_except(*old(host), self.addr()),
            final(host).allocated() == old(host).allocated(),
    {
        let addr = self.handle.raw();
        host.destroy_event(addr, NativeCall::ImageSourceDestroy { addr });
    }
}

} // verus!
