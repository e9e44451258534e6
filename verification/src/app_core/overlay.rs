//! Overlays displaying web content inside a portion of a window.

use vstd::prelude::*;
use crate::app_core::error::Error;
use crate::app_core::window::Window;
use crate::handle::Handle;
use crate::native::CallView;
use crate::native::NativeHost;
use crate::native::ObjView;
use crate::ul::view::View;
use crate::ul::view::ViewRef;

verus! {

/// An owning wrapper around one native overlay.
pub struct Overlay {
    handle: Handle,
}

impl Overlay {
    /// The native address of this overlay.
    pub closed spec fn addr(self) -> u64 {
        self.handle.raw_addr()
    }

    /// Create an overlay in `window`; the native layer creates the view it
    /// hosts along with it.
    ///
    /// Fails with `CreationFailed` exactly when the native layer hands back
    /// null or its address space is exhausted.
    pub fn new(host: &mut NativeHost, window: &Window, width: u32, height: u32, x: i32, y: i32) -> (r: Result<Overlay, Error>)
        requires
            (width as nat) * 4 <= u32::MAX as nat,
            (width as nat) * 4 * (height as nat) <= u32::MAX as nat,
        ensures
            r is Ok <==> !old(host).create_staged_to_fail() && old(host).allocated() + 5 <= usize::MAX as nat,
            r matches Ok(o) ==> {
                &&& o.addr() != 0
                &&& !old(host).live(o.addr())
                &&& final(host).calls() == old(host).calls().push(CallView::CreateOverlay { addr: o.addr(), window: window.addr(), width, height, x, y })
                &&& final(host).obj(o.addr()) matches Some(ObjView::Overlay { view, width: w, height: h, x: ox, y: oy, hidden, focused, .. })
                    && view != 0
                    && w == width && h == height && ox == x && oy == y
                    && !hidden && !focused
                    && (final(host).obj(view) matches Some(ObjView::View { .. }))
                &&& final(host).allocated() == old(host).allocated() + 5
            },
            r is Err ==> r == Err::<Overlay, Error>(Error::CreationFailed("Failed to create overlay")),
            old(host).allocated() + 5 > usize::MAX as nat ==> *final(host) == *old(host),
    {
        if host.slots() > usize::MAX - 5 {
            return Err(Error::CreationFailed("Failed to create overlay"));
        }
        let (overlay, _view) = host.create_overlay(window.raw(), width, height, x, y);
        match Handle::owning(overlay) {
            Some(handle) => Ok(Overlay { handle }),
            None => Err(Error::CreationFailed("Failed to create overlay")),
        }
    }

    /// Create an overlay in `window` wrapping an existing view.
    pub fn with_view(host: &mut NativeHost, window: &Window, view: &View, x: i32, y: i32) -> (r: Result<Overlay, Error>)
        requires
            old(host).obj(view.addr()) matches Some(ObjView::View { .. }),
        ensures
            r is Ok <==> old(host).create_succeeds(),
            r matches Ok(o) ==> {
                &&& o.addr() != 0
                &&& !old(host).live(o.addr())
                &&& (old(host).obj(view.addr()) matches Some(ObjView::View { width, height, .. })
                    && final(host).obj(o.addr()) == Some(ObjView::Overlay { window: window.addr(), view: view.addr(), width, height, x, y, hidden: false, focused: false })
                    && final(host).calls() == old(host).calls().push(CallView::CreateOverlay { addr: o.addr(), window: window.addr(), width, height, x, y }))
                &&& final(host).objs_same_except(*old(host), o.addr())
                &&& final(host).allocated() == old(host).allocated() + 1
            },
            r is Err ==> {
                &&& r == Err::<Overlay, Error>(Error::CreationFailed("Failed to create overlay with view"))
                &&& final(host).objs_same(*old(host))
            },
    {
        let s = host.view_state(view.raw());
        let o = host.create_overlay_with_view(window.raw(), view.raw(), s.0, s.1, x, y);
        match Handle::owning(o) {
            Some(handle) => Ok(Overlay { handle }),
            None => Err(Error::CreationFailed("Failed to create overlay with view")),
        }
    }

    /// The raw native address, for handing back across the boundary.
    pub fn raw(&self) -> (r: u64)
        ensures
            r == self.addr(),
            r != 0,
    {
        self.handle.raw()
    }

    /// The view hosted by this overlay, as a borrowed reference; fails with
    /// `NullReference` when the native layer has none.
    pub fn view(&self, host: &NativeHost) -> (r: Result<ViewRef, Error>)
        requires
            host.obj(self.addr()) matches Some(ObjView::Overlay { .. }),
        ensures
            host.obj(self.addr()) matches Some(ObjView::Overlay { view, .. }) && {
                &&& r is Ok <==> view != 0
                &&& r matches Ok(v) ==> v.addr() == view && v.wf()
                &&& r is Err ==> r == Err::<ViewRef, Error>(Error::NullReference("Failed to get view from overlay"))
            },
    {
        let s = host.overlay_state(self.handle.raw());
        match ViewRef::from_raw(s.0) {
            Some(v) => Ok(v),
            None => Err(Error::NullReference("Failed to get view from overlay")),
        }
    }

    /// The overlay's width in pixels.
    pub fn width(&self, host: &NativeHost) -> (r: u32)
        requires
            host.obj(self.addr()) matches Some(ObjView::Overlay { .. }),
        ensures
            host.obj(self.addr()) matches Some(ObjView::Overlay { width, .. }) && r == width,
    {
        let s = host.overlay_state(self.handle.raw());
        s.1
    }

    /// The overlay's height in pixels.
    pub fn height(&self, host: &NativeHost) -> (r: u32)
        requires
            host.obj(self.addr()) matches Some(ObjView::Overlay { .. }),
        ensures
            host.obj(self.addr()) matches Some(ObjView::Overlay { height, .. }) && r == height,
    {
        let s = host.overlay_state(self.handle.raw());
        s.2
    }

    /// The overlay's x position inside its window.
    pub fn x(&self, host: &NativeHost) -> (r: i32)
        requires
            host.obj(self.addr()) matches Some(ObjView::Overlay { .. }),
        ensures
            host.obj(self.addr()) matches Some(ObjView::Overlay { x, .. }) && r == x,
    {
        let s = host.overlay_state(self.handle.raw());
        s.3
    }

    /// The overlay's y position inside its window.
    pub fn y(&self, host: &NativeHost) -> (r: i32)
        requires
            host.obj(self.addr()) matches Some(ObjView::Overlay { .. }),
        ensures
            host.obj(self.addr()) matches Some(ObjView::Overlay { y, .. }) && r == y,
    {
        let s = host.overlay_state(self.handle.raw());
        s.4
    }

    /// Whether the overlay is hidden (not drawn).
    pub fn is_hidden(&self, host: &NativeHost) -> (r: bool)
        requires
            host.obj(self.addr()) matches Some(ObjView::Overlay { .. }),
        ensures
            host.obj(self.addr()) matches Some(ObjView::Overlay { hidden, .. }) && r == hidden,
    {
        let s = host.overlay_state(self.handle.raw());
        s.5
    }

    /// Whether the overlay has keyboard focus.
    pub fn has_focus(&self, host: &NativeHost) -> (r: bool)
        requires
            host.obj(self.addr()) matches Some(ObjView::Overlay { .. }),
        ensures
            host.obj(self.addr()) matches Some(ObjView::Overlay { focused, .. }) && r == focused,
    {
        let s = host.overlay_state(self.handle.raw());
        s.6
    }

    /// Move the overlay to `(x, y)` in pixels.
    pub fn move_to(&self, host: &mut NativeHost, x: i32, y: i32)
        requires
            old(host).obj(self.addr()) matches Some(ObjView::Overlay { .. }),
        ensures
            final(host).calls() == old(host).calls().push(CallView::OverlayMoveTo { addr: self.addr(), x, y }),
            final(host).obj(self.addr()) == match old(host).obj(self.addr()) {
                Some(ObjView::Overlay { window, view, width, height, x: _, y: _, hidden, focused }) =>
                    Some(ObjView::Overlay { window, view, width, height, x, y, hidden, focused }),
                other => other,
            },
            final(host).objs_same_except(*old(host), self.addr()),
    {
        host.overlay_move_to(self.handle.raw(), x, y);
    }

    /// Resize the overlay (and its view).
    pub fn resize(&self, host: &mut NativeHost, width: u32, height: u32)
        requires
            old(host).obj(self.addr()) matches Some(ObjView::Overlay { .. }),
        ensures
            final(host).calls() == old(host).calls().push(CallView::OverlayResize { addr: self.addr(), width, height }),
            final(host).obj(self.addr()) == match old(host).obj(self.addr()) {
                Some(ObjView::Overlay { window, view, width: _, height: _, x, y, hidden, focused }) =>
                    Some(ObjView::Overlay { window, view, width, height, x, y, hidden, focused }),
                other => other,
            },
            final(host).objs_same_except(*old(host), self.addr()),
    {
        host.overlay_resize(self.handle.raw(), width, height);
    }

    /// Show the overlay.
    pub fn show(&self, host: &mut NativeHost)
        requires
            old(host).obj(self.addr()) matches Some(ObjView::Overlay { .. }),
        ensures
            final(host).calls() == old(host).calls().push(CallView::OverlayShow { addr: self.addr() }),
            final(host).obj(self.addr()) matches Some(ObjView::Overlay { hidden, .. }) && !hidden,
            final(host).objs_same_except(*old(host), self.addr()),
    {
        host.overlay_set_hidden(self.handle.raw(), false);
    }

    /// Hide the overlay (it is no longer drawn). Records the same native
    /// call the dedicated hide entry point of the native API makes.
    pub fn set_hidden(&self, host: &mut NativeHost, hidden: bool)
        requires
            old(host).obj(self.addr()) matches Some(ObjView::Overlay { .. }),
        ensures
            final(host).calls() == old(host).calls().push(
                if hidden { CallView::OverlayHide { addr: self.addr() } } else { CallView::OverlayShow { addr: self.addr() } },
            ),
            final(host).obj(self.addr()) == match old(host).obj(self.addr()) {
                Some(ObjView::Overlay { window, view, width, height, x, y, hidden: _, focused }) =>
                    Some(ObjView::Overlay { window, view, width, height, x, y, hidden, focused }),
                other => other,
            },
            final(host).objs_same_except(*old(host), self.addr()),
    {
        host.overlay_set_hidden(self.handle.raw(), hidden);
    }

    /// Grant the overlay exclusive keyboard focus.
    pub fn focus(&self, host: &mut NativeHost)
        requires
            old(host).obj(self.addr()) matches Some(ObjView::Overlay { .. }),
        ensures
            final(host).calls() == old(host).calls().push(CallView::OverlayFocus { addr: self.addr() }),
            final(host).obj(self.addr()) matches Some(ObjView::Overlay { focused, .. }) && focused,
            final(host).objs_same_except(*old(host), self.addr()),
    {
        host.overlay_set_focused(self.handle.raw(), true);
    }

    /// Remove keyboard focus.
    pub fn unfocus(&self, host: &mut NativeHost)
        requires
            old(host).obj(self.addr()) matches Some(ObjView::Overlay { .. }),
        ensures
            final(host).calls() == old(host).calls().push(CallView::OverlayUnfocus { addr: self.addr() }),
            final(host).obj(self.addr()) matches Some(ObjView::Overlay { focused, .. }) && !focused,
            final(host).objs_same_except(*old(host), self.addr()),
    {
        host.overlay_set_focused(self.handle.raw(), false);
    }

    /// Destroy the native overlay; exactly one destroy call.
    pub fn destroy(self, host: &mut NativeHost)
        ensures
            final(host).calls() == old(host).calls().push(CallView::DestroyOverlay { addr: self.addr() }),
            final(host).obj(self.addr()) is None,
            final(host).objs_same_except(*old(host), self.addr()),
            final(host).allocated() == old(host).allocated(),
    {
        host.destroy_overlay(self.handle.raw());
    }
}

} // verus!
