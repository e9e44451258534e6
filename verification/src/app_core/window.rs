//! Windows, their creation flags, and their callback registrations.

use vstd::prelude::*;
use vstd::string::StringSliceAdditionalSpecFns;
use crate::app_core::error::Error;
use crate::callback::CallbackStorage;
use crate::handle::Handle;
use crate::native::CallView;
use crate::native::NativeHost;
use crate::native::ObjView;
use crate::native::contains_nul;
use crate::app_core::monitor::Monitor;

verus! {

/// The window creation flags of the native API, one bit each.
#[allow(non_camel_case_types)]
#[derive(Debug, Clone, Copy, PartialEq, Eq, Structural)]
pub enum ULWindowFlags {
    kWindowFlags_Borderless,
    kWindowFlags_Titled,
    kWindowFlags_Resizable,
    kWindowFlags_Maximizable,
    kWindowFlags_Hidden,
}

impl ULWindowFlags {
    /// The documented bit position of each flag.
    pub open spec fn spec_bits(self) -> u32 {
        match self {
            ULWindowFlags::kWindowFlags_Borderless => 1u32,
            ULWindowFlags::kWindowFlags_Titled => 2u32,
            ULWindowFlags::kWindowFlags_Resizable => 4u32,
            ULWindowFlags::kWindowFlags_Maximizable => 8u32,
            ULWindowFlags::kWindowFlags_Hidden => 16u32,
        }
    }

    /// The flag's bit, exactly as the native API documents it.
    pub fn bits(&self) -> (r: u32)
        ensures
            r == self.spec_bits(),
    {
        match self {
            ULWindowFlags::kWindowFlags_Borderless => 1,
            ULWindowFlags::kWindowFlags_Titled => 2,
            ULWindowFlags::kWindowFlags_Resizable => 4,
            ULWindowFlags::kWindowFlags_Maximizable => 8,
            ULWindowFlags::kWindowFlags_Hidden => 16,
        }
    }
}

/// A bit-OR of window creation flags, handed to the native layer unchanged.
#[derive(Debug, Clone, Copy, PartialEq, Eq, Structural)]
pub struct WindowFlags {
    bits: u32,
}

impl WindowFlags {
    /// The raw bits this value carries.
    pub closed spec fn spec_bits(self) -> u32 {
        self.bits
    }

    /// No flags set.
    pub fn empty() -> (r: Self)
        ensures
            r.spec_bits() == 0u32,
    {
        WindowFlags { bits: 0 }
    }

    /// A single flag.
    pub fn from_flag(flag: ULWindowFlags) -> (r: Self)
        ensures
            r.spec_bits() == flag.spec_bits(),
    {
        WindowFlags { bits: flag.bits() }
    }

    /// This value with `flag`'s bit OR'd in.
    pub fn with(self, flag: ULWindowFlags) -> (r: Self)
        ensures
            r.spec_bits() == self.spec_bits() | flag.spec_bits(),
    {
        WindowFlags { bits: self.bits | flag.bits() }
    }

    /// The union of two flag sets: the bitwise OR of their bits.
    pub fn union(self, other: Self) -> (r: Self)
        ensures
            r.spec_bits() == self.spec_bits() | other.spec_bits(),
    {
        WindowFlags { bits: self.bits | other.bits }
    }

    /// The raw bits, as they cross the boundary.
    pub fn bits(&self) -> (r: u32)
        ensures
            r == self.spec_bits(),
    {
        self.bits
    }

    /// Whether `flag`'s bit is set.
    pub fn contains(&self, flag: ULWindowFlags) -> (r: bool)
        ensures
            r == (self.spec_bits() & flag.spec_bits() != 0u32),
    {
        self.bits & flag.bits() != 0
    }
}

/// A temporary, non-owning view of a window, constructed inside a trampoline
/// from the raw pointer the native layer handed over. Dropping or releasing
/// it never triggers a native destroy call.
#[derive(Clone)]
pub struct WindowView {
    handle: Handle,
}

impl WindowView {
    /// The native address of the viewed window.
    pub closed spec fn addr(self) -> u64 {
        self.handle.raw_addr()
    }

    /// A view never owns the native window.
    pub closed spec fn wf(self) -> bool {
        !self.handle.is_owning()
    }

    /// Wrap a raw window address as a borrowed view; fails on null.
    pub fn from_raw(raw: u64) -> (r: Option<WindowView>)
        ensures
            r is Some <==> raw != 0,
            r matches Some(v) ==> v.addr() == raw && v.wf(),
    {
        match Handle::borrowed(raw) {
            Some(handle) => Some(WindowView { handle }),
            None => None,
        }
    }

    /// The raw native address, for handing back across the boundary.
    pub fn raw(&self) -> (r: u64)
        ensures
            r == self.addr(),
            r != 0,
    {
        self.handle.raw()
    }

    /// Give up this view. A view is non-owning, so no native call is made and
    /// the native layer is left exactly as it was.
    pub fn release(self, host: &mut NativeHost)
        ensures
            *final(host) == *old(host),
    {
    }

    /// Get window width (in pixels).
    pub fn width(&self, host: &NativeHost) -> (r: u32)
        requires
            host.obj(self.addr()) matches Some(ObjView::Window { .. }),
        ensures
            host.obj(self.addr()) matches Some(ObjView::Window { width, .. }) && r == width,
    {
        host.window_width(self.handle.raw())
    }

    /// Get window height (in pixels).
    pub fn height(&self, host: &NativeHost) -> (r: u32)
        requires
            host.obj(self.addr()) matches Some(ObjView::Window { .. }),
        ensures
            host.obj(self.addr()) matches Some(ObjView::Window { height, .. }) && r == height,
    {
        host.window_height(self.handle.raw())
    }

    /// Whether the viewed window is currently visible.
    pub fn is_visible(&self, host: &NativeHost) -> (r: bool)
        requires
            host.obj(self.addr()) matches Some(ObjView::Window { .. }),
        ensures
            host.obj(self.addr()) matches Some(ObjView::Window { visible, .. }) && r == visible,
    {
        host.window_is_visible(self.handle.raw())
    }
}

/// Receiver for window close events raised by the native layer.
pub trait CloseCallback: Send {
    /// Called with a borrowed view of the window being closed.
    fn on_close(&self, host: &mut NativeHost, window: &WindowView);
}

/// Receiver for window resize events raised by the native layer.
pub trait ResizeCallback: Send {
    /// Called with a borrowed view of the resized window and the new size in
    /// screen coordinates.
    fn on_resize(&self, host: &mut NativeHost, window: &WindowView, width: u32, height: u32);
}

/// A window for displaying content, with per-instance callback slots.
pub struct Window {
    handle: Handle,
    close_cb: CallbackStorage<Box<dyn CloseCallback>>,
    resize_cb: CallbackStorage<Box<dyn ResizeCallback>>,
}

impl Window {
    /// The native address of this window.
    pub closed spec fn addr(self) -> u64 {
        self.handle.raw_addr()
    }

    /// Whether this wrapper owns the native window.
    pub closed spec fn is_owning(self) -> bool {
        self.handle.is_owning()
    }

    /// The close callback currently registered.
    pub closed spec fn close_callback(self) -> Option<Box<dyn CloseCallback>> {
        self.close_cb.stored()
    }

    /// The resize callback currently registered.
    pub closed spec fn resize_callback(self) -> Option<Box<dyn ResizeCallback>> {
        self.resize_cb.stored()
    }

    /// Create a new window on `monitor`.
    ///
    /// The flag bits cross the boundary exactly as given; the native layer
    /// records them unchanged. Fails with `CreationFailed` exactly when the
    /// native layer hands back null.
    pub fn new(host: &mut NativeHost, monitor: &Monitor, width: u32, height: u32, fullscreen: bool, window_flags: WindowFlags) -> (r: Result<Window, Error>)
        ensures
            r is Ok <==> old(host).create_succeeds(),
            r matches Ok(w) ==> {
                &&& w.is_owning()
                &&& w.addr() != 0
                &&& !old(host).live(w.addr())
                &&& w.close_callback() is None
                &&& w.resize_callback() is None
                &&& final(host).obj(w.addr()) == Some(NativeHost::window_initial(monitor.addr(), width, height, fullscreen, window_flags.spec_bits()))
                &&& final(host).calls() == old(host).calls().push(CallView::CreateWindow {
                    addr: w.addr(),
                    monitor: monitor.addr(),
                    width,
                    height,
                    fullscreen,
                    flags: window_flags.spec_bits(),
                })
                &&& final(host).objs_same_except(*old(host), w.addr())
                &&& final(host).allocated() == old(host).allocated() + 1
            },
            r is Err ==> {
                &&& r == Err::<Window, Error>(Error::CreationFailed("Failed to create window"))
                &&& final(host).calls() == old(host).calls().push(CallView::CreateWindow {
                    addr: 0,
                    monitor: monitor.addr(),
                    width,
                    height,
                    fullscreen,
                    flags: window_flags.spec_bits(),
                })
                &&& final(host).objs_same(*old(host))
                &&& final(host).allocated() == old(host).allocated()
            },
            !final(host).create_staged_to_fail(),
    {
        let raw = host.create_window(monitor.raw(), width, height, fullscreen, window_flags.bits());
        match Handle::owning(raw) {
            Some(handle) => Ok(Window {
                handle,
                close_cb: CallbackStorage::new(),
                resize_cb: CallbackStorage::new(),
            }),
            None => Err(Error::CreationFailed("Failed to create window")),
        }
    }

    /// Wrap a raw window address as an owning wrapper; fails on null.
    pub fn from_raw(raw: u64) -> (r: Option<Window>)
        ensures
            r is Some <==> raw != 0,
            r matches Some(w) ==> {
                &&& w.addr() == raw
                &&& w.is_owning()
                &&& w.close_callback() is None
                &&& w.resize_callback() is None
            },
    {
        match Handle::owning(raw) {
            Some(handle) => Some(Window {
                handle,
                close_cb: CallbackStorage::new(),
                resize_cb: CallbackStorage::new(),
            }),
            None => None,
        }
    }

    /// The raw native address, for handing back across the boundary.
    pub fn raw(&self) -> (r: u64)
        ensures
            r == self.addr(),
            r != 0,
    {
        self.handle.raw()
    }

    /// Register `callback` for close events, replacing (and releasing) any
    /// earlier registration, then install the native registration. The slot
    /// afterwards holds exactly the given callback, so a later delivery can
    /// never reach a replaced one.
    pub fn set_close_callback(&mut self, host: &mut NativeHost, callback: Box<dyn CloseCallback>) -> (r: Result<(), Error>)
        requires
            old(host).obj(old(self).addr()) matches Some(ObjView::Window { .. }),
        ensures
            r is Ok,
            final(self).addr() == old(self).addr(),
            final(self).is_owning() == old(self).is_owning(),
            final(self).close_callback() is Some,
            final(self).resize_callback() == old(self).resize_callback(),
            final(host).calls() == old(host).calls().push(CallView::WindowSetCloseCallback { addr: old(self).addr(), installed: true }),
            final(host).obj(old(self).addr()) == match old(host).obj(old(self).addr()) {
                Some(ObjView::Window { monitor, width, height, fullscreen, flags, visible, title, x, y, close_cb: _, resize_cb }) =>
                    Some(ObjView::Window { monitor, width, height, fullscreen, flags, visible, title, x, y, close_cb: true, resize_cb }),
                other => other,
            },
            final(host).objs_same_except(*old(host), old(self).addr()),
            final(host).allocated() == old(host).allocated(),
            final(host).create_staged_to_fail() == old(host).create_staged_to_fail(),
    {
        self.close_cb.set(callback);
        let addr = self.handle.raw();
        host.window_set_close_callback(addr, true);
        Ok(())
    }

    /// Clear the close callback: uninstall the native registration, then
    /// release the stored callback.
    pub fn clear_close_callback(&mut self, host: &mut NativeHost) -> (r: Result<(), Error>)
        requires
            old(host).obj(old(self).addr()) matches Some(ObjView::Window { .. }),
        ensures
            r is Ok,
            final(self).addr() == old(self).addr(),
            final(self).is_owning() == old(self).is_owning(),
            final(self).close_callback() is None,
            final(self).resize_callback() == old(self).resize_callback(),
            final(host).calls() == old(host).calls().push(CallView::WindowSetCloseCallback { addr: old(self).addr(), installed: false }),
            final(host).obj(old(self).addr()) == match old(host).obj(old(self).addr()) {
                Some(ObjView::Window { monitor, width, height, fullscreen, flags, visible, title, x, y, close_cb: _, resize_cb }) =>
                    Some(ObjView::Window { monitor, width, height, fullscreen, flags, visible, title, x, y, close_cb: false, resize_cb }),
                other => other,
            },
            final(host).objs_same_except(*old(host), old(self).addr()),
            final(host).allocated() == old(host).allocated(),
            final(host).create_staged_to_fail() == old(host).create_staged_to_fail(),
    {
        let addr = self.handle.raw();
        host.window_set_close_callback(addr, false);
        self.close_cb.clear();
        Ok(())
    }

    /// Register `callback` for resize events, replacing (and releasing) any
    /// earlier registration, then install the native registration. The slot
    /// afterwards holds exactly the given callback, so a later delivery can
    /// never reach a replaced one.
    pub fn set_resize_callback(&mut self, host: &mut NativeHost, callback: Box<dyn ResizeCallback>) -> (r: Result<(), Error>)
        requires
            old(host).obj(old(self).addr()) matches Some(ObjView::Window { .. }),
        ensures
            r is Ok,
            final(self).addr() == old(self).addr(),
            final(self).is_owning() == old(self).is_owning(),
            final(self).resize_callback() is Some,
            final(self).close_callback() == old(self).close_callback(),
            final(host).calls() == old(host).calls().push(CallView::WindowSetResizeCallback { addr: old(self).addr(), installed: true }),
            final(host).obj(old(self).addr()) == match old(host).obj(old(self).addr()) {
                Some(ObjView::Window { monitor, width, height, fullscreen, flags, visible, title, x, y, close_cb, resize_cb: _ }) =>
                    Some(ObjView::Window { monitor, width, height, fullscreen, flags, visible, title, x, y, close_cb, resize_cb: true }),
                other => other,
            },
            final(host).objs_same_except(*old(host), old(self).addr()),
            final(host).allocated() == old(host).allocated(),
            final(host).create_staged_to_fail() == old(host).create_staged_to_fail(),
    {
        self.resize_cb.set(callback);
        let addr = self.handle.raw();
        host.window_set_resize_callback(addr, true);
        Ok(())
    }

    /// Clear the resize callback: uninstall the native registration, then
    /// release the stored callback.
    pub fn clear_resize_callback(&mut self, host: &mut NativeHost) -> (r: Result<(), Error>)
        requires
            old(host).obj(old(self).addr()) matches Some(ObjView::Window { .. }),
        ensures
            r is Ok,
            final(self).addr() == old(self).addr(),
            final(self).is_owning() == old(self).is_owning(),
            final(self).resize_callback() is None,
            final(self).close_callback() == old(self).close_callback(),
            final(host).calls() == old(host).calls().push(CallView::WindowSetResizeCallback { addr: old(self).addr(), installed: false }),
            final(host).obj(old(self).addr()) == match old(host).obj(old(self).addr()) {
                Some(ObjView::Window { monitor, width, height, fullscreen, flags, visible, title, x, y, close_cb, resize_cb: _ }) =>
                    Some(ObjView::Window { monitor, width, height, fullscreen, flags, visible, title, x, y, close_cb, resize_cb: false }),
                other => other,
            },
            final(host).objs_same_except(*old(host), old(self).addr()),
            final(host).allocated() == old(host).allocated(),
            final(host).create_staged_to_fail() == old(host).create_staged_to_fail(),
    {
        let addr = self.handle.raw();
        host.window_set_resize_callback(addr, false);
        self.resize_cb.clear();
        Ok(())
    }

    /// Deliver a native close event: the trampoline recovers the registered
    /// callback and invokes it on a borrowed view of this window.
    ///
    /// Returns whether a callback was invoked; with no registration the host
    /// is left untouched.
    pub fn raise_close(&self, host: &mut NativeHost) -> (invoked: bool)
        ensures
            invoked == self.close_callback() is Some,
            !invoked ==> *final(host) == *old(host),
    {
        match self.close_cb.get() {
            Some(cb) => {
                let raw = self.handle.raw();
                match WindowView::from_raw(raw) {
                    Some(view) => {
                        cb.on_close(host, &view);
                        true
                    },
                    None => false,
                }
            },
            None => false,
        }
    }

    /// Deliver a native resize event: the trampoline recovers the registered
    /// callback and invokes it on a borrowed view of this window with the new
    /// size.
    ///
    /// Returns whether a callback was invoked; with no registration the host
    /// is left untouched.
    pub fn raise_resize(&self, host: &mut NativeHost, width: u32, height: u32) -> (invoked: bool)
        ensures
            invoked == self.resize_callback() is Some,
            !invoked ==> *final(host) == *old(host),
    {
        match self.resize_cb.get() {
            Some(cb) => {
                let raw = self.handle.raw();
                match WindowView::from_raw(raw) {
                    Some(view) => {
                        cb.on_resize(host, &view, width, height);
                        true
                    },
                    None => false,
                }
            },
            None => false,
        }
    }

    /// Get window width (in pixels).
    pub fn width(&self, host: &NativeHost) -> (r: u32)
        requires
            host.obj(self.addr()) matches Some(ObjView::Window { .. }),
        ensures
            host.obj(self.addr()) matches Some(ObjView::Window { width, .. }) && r == width,
    {
        host.window_width(self.handle.raw())
    }

    /// Get window height (in pixels).
    pub fn height(&self, host: &NativeHost) -> (r: u32)
        requires
            host.obj(self.addr()) matches Some(ObjView::Window { .. }),
        ensures
            host.obj(self.addr()) matches Some(ObjView::Window { height, .. }) && r == height,
    {
        host.window_height(self.handle.raw())
    }

    /// Whether the window is fullscreen.
    pub fn is_fullscreen(&self, host: &NativeHost) -> (r: bool)
        requires
            host.obj(self.addr()) matches Some(ObjView::Window { .. }),
        ensures
            host.obj(self.addr()) matches Some(ObjView::Window { fullscreen, .. }) && r == fullscreen,
    {
        host.window_is_fullscreen(self.handle.raw())
    }

    /// Whether the window is currently visible (not hidden).
    pub fn is_visible(&self, host: &NativeHost) -> (r: bool)
        requires
            host.obj(self.addr()) matches Some(ObjView::Window { .. }),
        ensures
            host.obj(self.addr()) matches Some(ObjView::Window { visible, .. }) && r == visible,
    {
        host.window_is_visible(self.handle.raw())
    }

    /// The x position relative to the top-left of the monitor area.
    pub fn position_x(&self, host: &NativeHost) -> (r: i32)
        requires
            host.obj(self.addr()) matches Some(ObjView::Window { .. }),
        ensures
            host.obj(self.addr()) matches Some(ObjView::Window { x, .. }) && r == x,
    {
        host.window_position_x(self.handle.raw())
    }

    /// The y position relative to the top-left of the monitor area.
    pub fn position_y(&self, host: &NativeHost) -> (r: i32)
        requires
            host.obj(self.addr()) matches Some(ObjView::Window { .. }),
        ensures
            host.obj(self.addr()) matches Some(ObjView::Window { y, .. }) && r == y,
    {
        host.window_position_y(self.handle.raw())
    }

    /// Set the window title.
    ///
    /// A title with an embedded NUL byte cannot cross the C boundary; it is
    /// rejected with `InvalidArgument` before any native call.
    pub fn set_title(&self, host: &mut NativeHost, title: &str) -> (r: Result<(), Error>)
        requires
            old(host).obj(self.addr()) matches Some(ObjView::Window { .. }),
        ensures
            r is Ok <==> !title.spec_bytes().contains(0u8),
            r matches Err(e) ==> e == Error::InvalidArgument("Title contains null bytes"),
            r is Ok ==> {
                &&& final(host).calls() == old(host).calls().push(CallView::WindowSetTitle { addr: self.addr(), title: title.spec_bytes() })
                &&& final(host).obj(self.addr()) == match old(host).obj(self.addr()) {
                    Some(ObjView::Window { monitor, width, height, fullscreen, flags, visible, title: _, x, y, close_cb, resize_cb }) =>
                        Some(ObjView::Window { monitor, width, height, fullscreen, flags, visible, title: title.spec_bytes(), x, y, close_cb, resize_cb }),
                    other => other,
                }
                &&& final(host).objs_same_except(*old(host), self.addr())
            },
            r is Err ==> *final(host) == *old(host),
            final(host).allocated() == old(host).allocated(),
            final(host).create_staged_to_fail() == old(host).create_staged_to_fail(),
    {
        let bytes = title.as_bytes();
        if contains_nul(bytes) {
            proof {
                assert(title.spec_bytes().contains(0u8)) by {
                    let i = choose|i: int| 0 <= i < bytes@.len() && bytes@[i] == 0u8;
                    assert(title.spec_bytes()[i] == 0u8);
                }
            }
            return Err(Error::InvalidArgument("Title contains null bytes"));
        }
        proof {
            assert(!title.spec_bytes().contains(0u8)) by {
                if title.spec_bytes().contains(0u8) {
                    let i = choose|i: int| 0 <= i < title.spec_bytes().len() && title.spec_bytes()[i] == 0u8;
                    assert(bytes@[i] == 0u8);
                }
            }
        }
        host.window_set_title(self.handle.raw(), bytes);
        Ok(())
    }

    /// Move the window to `(x, y)` in screen coordinates.
    pub fn move_to(&self, host: &mut NativeHost, x: i32, y: i32)
        requires
            old(host).obj(self.addr()) matches Some(ObjView::Window { .. }),
        ensures
            final(host).calls() == old(host).calls().push(CallView::WindowMoveTo { addr: self.addr(), x, y }),
            final(host).obj(self.addr()) == match old(host).obj(self.addr()) {
                Some(ObjView::Window { monitor, width, height, fullscreen, flags, visible, title, x: _, y: _, close_cb, resize_cb }) =>
                    Some(ObjView::Window { monitor, width, height, fullscreen, flags, visible, title, x, y, close_cb, resize_cb }),
                other => other,
            },
            final(host).objs_same_except(*old(host), self.addr()),
            final(host).allocated() == old(host).allocated(),
            final(host).create_staged_to_fail() == old(host).create_staged_to_fail(),
    {
        host.window_move_to(self.handle.raw(), x, y);
    }

    /// Move the window to the center of its monitor.
    pub fn move_to_center(&self, host: &mut NativeHost)
        requires
            old(host).obj(self.addr()) matches Some(ObjView::Window { .. }),
        ensures
            final(host).calls() == old(host).calls().push(CallView::WindowMoveToCenter { addr: self.addr() }),
            final(host).obj(self.addr()) == match old(host).obj(self.addr()) {
                Some(ObjView::Window { monitor, width, height, fullscreen, flags, visible, title, x: _, y: _, close_cb, resize_cb }) =>
                    Some(ObjView::Window {
                        monitor, width, height, fullscreen, flags, visible, title,
                        x: NativeHost::centered_position(old(host).obj(monitor), width, height).0,
                        y: NativeHost::centered_position(old(host).obj(monitor), width, height).1,
                        close_cb, resize_cb,
                    }),
                other => other,
            },
            final(host).objs_same_except(*old(host), self.addr()),
            final(host).allocated() == old(host).allocated(),
            final(host).create_staged_to_fail() == old(host).create_staged_to_fail(),
    {
        host.window_move_to_center(self.handle.raw());
    }

    /// Show the window (if it was previously hidden).
    pub fn show(&self, host: &mut NativeHost)
        requires
            old(host).obj(self.addr()) matches Some(ObjView::Window { .. }),
        ensures
            final(host).calls() == old(host).calls().push(CallView::WindowShow { addr: self.addr() }),
            final(host).obj(self.addr()) == match old(host).obj(self.addr()) {
                Some(ObjView::Window { monitor, width, height, fullscreen, flags, visible: _, title, x, y, close_cb, resize_cb }) =>
                    Some(ObjView::Window { monitor, width, height, fullscreen, flags, visible: true, title, x, y, close_cb, resize_cb }),
                other => other,
            },
            final(host).objs_same_except(*old(host), self.addr()),
            final(host).allocated() == old(host).allocated(),
            final(host).create_staged_to_fail() == old(host).create_staged_to_fail(),
    {
        host.window_set_visible(self.handle.raw(), true);
    }

    /// Hide or show the window. Hiding records the same native call the
    /// dedicated hide entry point of the native API makes.
    pub fn set_visible(&self, host: &mut NativeHost, visible: bool)
        requires
            old(host).obj(self.addr()) matches Some(ObjView::Window { .. }),
        ensures
            final(host).calls() == old(host).calls().push(
                if visible { CallView::WindowShow { addr: self.addr() } } else { CallView::WindowHide { addr: self.addr() } },
            ),
            final(host).obj(self.addr()) == match old(host).obj(self.addr()) {
                Some(ObjView::Window { monitor, width, height, fullscreen, flags, visible: _, title, x, y, close_cb, resize_cb }) =>
                    Some(ObjView::Window { monitor, width, height, fullscreen, flags, visible, title, x, y, close_cb, resize_cb }),
                other => other,
            },
            final(host).objs_same_except(*old(host), self.addr()),
            final(host).allocated() == old(host).allocated(),
            final(host).create_staged_to_fail() == old(host).create_staged_to_fail(),
    {
        host.window_set_visible(self.handle.raw(), visible);
    }

    /// Close the window.
    pub fn close(&self, host: &mut NativeHost)
        requires
            old(host).obj(self.addr()) matches Some(ObjView::Window { .. }),
        ensures
            final(host).calls() == old(host).calls().push(CallView::WindowClose { addr: self.addr() }),
            final(host).obj(self.addr()) == match old(host).obj(self.addr()) {
                Some(ObjView::Window { monitor, width, height, fullscreen, flags, visible: _, title, x, y, close_cb, resize_cb }) =>
                    Some(ObjView::Window { monitor, width, height, fullscreen, flags, visible: false, title, x, y, close_cb, resize_cb }),
                other => other,
            },
            final(host).objs_same_except(*old(host), self.addr()),
            final(host).allocated() == old(host).allocated(),
            final(host).create_staged_to_fail() == old(host).create_staged_to_fail(),
    {
        host.window_close(self.handle.raw());
    }

    /// Tear down this window: uninstall both native callback registrations,
    /// release the stored callbacks, and (for an owning wrapper) make exactly
    /// one native destroy call. A borrowed view makes no destroy call.
    pub fn destroy(self, host: &mut NativeHost)
        requires
            old(host).obj(self.addr()) matches Some(ObjView::Window { .. }),
        ensures
            self.is_owning() ==> {
                &&& final(host).calls() == old(host).calls()
                    .push(CallView::WindowSetCloseCallback { addr: self.addr(), installed: false })
                    .push(CallView::WindowSetResizeCallback { addr: self.addr(), installed: false })
                    .push(CallView::DestroyWindow { addr: self.addr() })
                &&& final(host).obj(self.addr()) is None
            },
            !self.is_owning() ==> *final(host) == *old(host),
            final(host).objs_same_except(*old(host), self.addr()),
            final(host).allocated() == old(host).allocated(),
            final(host).create_staged_to_fail() == old(host).create_staged_to_fail(),
    {
        let addr = self.handle.raw();
        if self.handle.owns() {
            host.window_set_close_callback(addr, false);
            host.window_set_resize_callback(addr, false);
            host.destroy_window(addr);
        }
    }
}


/// Borrowed views are free of native effects: releasing any number of
/// them, in any order, leaves the native layer exactly as it was — no
/// destroy call is ever made for a non-owning view.
pub fn release_views(views: Vec<WindowView>, host: &mut NativeHost)
    ensures
        *final(host) == *old(host),
{
    let mut views = views;
    while views.len() > 0
        invariant
            *host == *old(host),
        decreases views@.len(),
    {
        match views.pop() {
            Some(v) => {
                v.release(host);
            },
            None => {},
        }
    }
}


} // verus!
