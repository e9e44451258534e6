//! Display monitors, handed out by the native layer and never owned here.

use vstd::prelude::*;
use crate::handle::Handle;
use crate::native::NativeHost;
use crate::native::ObjView;

verus! {

/// A borrowed view of one native display monitor. The native layer keeps
/// ownership, so dropping a `Monitor` never triggers a destroy call.
pub struct Monitor {
    handle: Handle,
}

impl Monitor {
    /// The native address of this monitor.
    pub closed spec fn addr(self) -> u64 {
        self.handle.raw_addr()
    }

    /// A monitor wrapper never owns its native object.
    pub closed spec fn wf(self) -> bool {
        !self.handle.is_owning()
    }

    /// Wrap a raw monitor address as a borrowed view; fails on null.
    pub fn from_raw(raw: u64) -> (r: Option<Monitor>)
        ensures
            r is Some <==> raw != 0,
            r matches Some(m) ==> m.addr() == raw && m.wf(),
    {
        match Handle::borrowed(raw) {
            Some(handle) => Some(Monitor { handle }),
            None => None,
        }
    }

    /// The raw native address, for handing back across the boundary.
    pub fn raw(&self) -> (r: u64)
        ensures
            r == self.addr(),
            r != 0,
    {
        self.handle.raw()
    }

    /// The monitor's width in pixels.
    pub fn width(&self, host: &NativeHost) -> (r: u32)
        requires
            host.obj(self.addr()) matches Some(ObjView::Monitor { .. }),
        ensures
            host.obj(self.addr()) matches Some(ObjView::Monitor { width, .. }) && r == width,
    {
        host.monitor_width(self.handle.raw())
    }

    /// The monitor's height in pixels.
    pub fn height(&self, host: &NativeHost) -> (r: u32)
        requires
            host.obj(self.addr()) matches Some(ObjView::Monitor { .. }),
        ensures
            host.obj(self.addr()) matches Some(ObjView::Monitor { height, .. }) && r == height,
    {
        host.monitor_height(self.handle.raw())
    }
}

} // verus!
