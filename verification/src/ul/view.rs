//! Views rendering web content, their callback registrations, and the
//! scoped JavaScript context lock.
//!
//! Each callback kind has a per-instance slot. Registering stores the boxed
//! callback and installs the native registration in the same step; a native
//! event is delivered by the matching `raise_` method, which plays the part
//! of the installed trampoline: it checks the raw arguments for null,
//! wraps them as borrowed views, and invokes the registered callback.

use vstd::prelude::*;
use vstd::string::StringSliceAdditionalSpecFns;
use vstd::view::View as _;
use crate::callback::CallbackStorage;
use crate::handle::Handle;
use crate::native::CallView;
use crate::native::NativeCall;
use crate::native::NativeHost;
use crate::native::ObjView;
use crate::native::contains_nul;
use crate::ul::error::Error;
use crate::ul::events::KeyEvent;
use crate::ul::events::MouseEvent;
use crate::ul::events::ScrollEvent;
use crate::ul::geometry::IntRect;
use crate::ul::raw::ULCursor;
use crate::ul::raw::ULMessageLevel;
use crate::ul::raw::ULMessageSource;
use crate::ul::renderer::Renderer;
use crate::ul::session::Session;
use crate::ul::string::String;
use crate::ul::surface::Surface;
use crate::ul::view_config::ViewConfig;

verus! {

/// A temporary, non-owning reference to a view, constructed inside a
/// trampoline from the raw pointer the native layer handed over. Dropping
/// or releasing it never triggers a native destroy call.
#[derive(Clone)]
pub struct ViewRef {
    handle: Handle,
}

impl ViewRef {
    /// The native address of the referenced view.
    pub closed spec fn addr(self) -> u64 {
        self.handle.raw_addr()
    }

    /// A reference never owns the native view.
    pub closed spec fn wf(self) -> bool {
        !self.handle.is_owning()
    }

    /// Wrap a raw view address as a borrowed reference; fails on null.
    pub fn from_raw(raw: u64) -> (r: Option<ViewRef>)
        ensures
            r is Some <==> raw != 0,
            r matches Some(v) ==> v.addr() == raw && v.wf(),
    {
        match Handle::borrowed(raw) {
            Some(handle) => Some(ViewRef { handle }),
            None => None,
        }
    }

    /// The raw native address, for handing back across the boundary.
    pub fn raw(&self) -> (r: u64)
        ensures
            r == self.addr(),
            r != 0,
    {
        self.handle.raw()
    }

    /// Give up this reference; non-owning, so the native layer is left
    /// exactly as it was.
    pub fn release(self, host: &mut NativeHost)
        ensures
            *final(host) == *old(host),
    {
    }

    /// The referenced view's current URL, as UTF-8 bytes.
    pub fn url(&self, host: &NativeHost) -> (r: Vec<u8>)
        requires
            host.obj(self.addr()) matches Some(ObjView::View { .. }),
        ensures
            host.obj(self.addr()) matches Some(ObjView::View { url, .. }) && r@ == url,
    {
        host.view_url(self.handle.raw())
    }

    /// The referenced view's current title, as UTF-8 bytes.
    pub fn title(&self, host: &NativeHost) -> (r: Vec<u8>)
        requires
            host.obj(self.addr()) matches Some(ObjView::View { .. }),
        ensures
            host.obj(self.addr()) matches Some(ObjView::View { title, .. }) && r@ == title,
    {
        host.view_title(self.handle.raw())
    }
}

/// Callback for when the page title changes.
pub trait ChangeTitleCallback: Send {
    /// Receives a borrowed reference to the view and the new title.
    fn on_change_title(&self, host: &mut NativeHost, view: &ViewRef, title: &String);
}

/// Callback for when the page URL changes.
pub trait ChangeURLCallback: Send {
    /// Receives a borrowed reference to the view and the new URL.
    fn on_change_url(&self, host: &mut NativeHost, view: &ViewRef, url: &String);
}

/// Callback for when the page tooltip changes.
pub trait ChangeTooltipCallback: Send {
    /// Receives a borrowed reference to the view and the new tooltip.
    fn on_change_tooltip(&self, host: &mut NativeHost, view: &ViewRef, tooltip: &String);
}

/// Callback for when the page asks for another mouse cursor.
pub trait ChangeCursorCallback: Send {
    /// Receives a borrowed reference to the view and the requested cursor.
    fn on_change_cursor(&self, host: &mut NativeHost, view: &ViewRef, cursor: ULCursor);
}

/// Callback for console messages.
pub trait AddConsoleMessageCallback: Send {
    /// Receives the message with its source, severity, and position.
    fn on_add_console_message(&self, host: &mut NativeHost, view: &ViewRef, source: ULMessageSource, level: ULMessageLevel, message: &String, line_number: u32, column_number: u32, source_id: &String);
}

/// Callback deciding whether a child view may open.
pub trait CreateChildViewCallback: Send {
    /// Returns the view to host the child page in, or `None` to block it.
    fn on_create_child_view(&self, host: &mut NativeHost, view: &ViewRef, opener_url: &String, target_url: &String, is_popup: bool, popup_rect: IntRect) -> Option<ViewRef>;
}

/// Callback deciding where an inspector view opens.
pub trait CreateInspectorViewCallback: Send {
    /// Returns the view to host the inspector in, or `None` to block it.
    fn on_create_inspector_view(&self, host: &mut NativeHost, view: &ViewRef, is_local: bool, inspected_url: &String) -> Option<ViewRef>;
}

/// Callback for when a frame begins loading.
pub trait BeginLoadingCallback: Send {
    /// Receives the loading frame and its URL.
    fn on_begin_loading(&self, host: &mut NativeHost, view: &ViewRef, frame_id: u64, is_main_frame: bool, url: &String);
}

/// Callback for when a frame finishes loading.
pub trait FinishLoadingCallback: Send {
    /// Receives the loaded frame and its URL.
    fn on_finish_loading(&self, host: &mut NativeHost, view: &ViewRef, frame_id: u64, is_main_frame: bool, url: &String);
}

/// Callback for when a frame fails to load.
pub trait FailLoadingCallback: Send {
    /// Receives the failing frame, its URL, and the error's description,
    /// domain, and code.
    fn on_fail_loading(&self, host: &mut NativeHost, view: &ViewRef, frame_id: u64, is_main_frame: bool, url: &String, description: &String, error_domain: &String, error_code: i32);
}

/// Callback for when the JavaScript window object is ready.
pub trait WindowObjectReadyCallback: Send {
    /// Receives the frame whose window object is ready.
    fn on_window_object_ready(&self, host: &mut NativeHost, view: &ViewRef, frame_id: u64, is_main_frame: bool, url: &String);
}

/// Callback for when the DOM is ready.
pub trait DOMReadyCallback: Send {
    /// Receives the frame whose DOM is ready.
    fn on_dom_ready(&self, host: &mut NativeHost, view: &ViewRef, frame_id: u64, is_main_frame: bool, url: &String);
}

/// Callback for when the session history is updated.
pub trait UpdateHistoryCallback: Send {
    /// Receives a borrowed reference to the view.
    fn on_update_history(&self, host: &mut NativeHost, view: &ViewRef);
}

/// A scoped lock over a view's JavaScript context. Releasing it makes
/// exactly one native unlock call.
pub struct LockedJSContext {
    view: u64,
    context: u64,
}

impl LockedJSContext {
    /// The address of the locked view.
    pub closed spec fn view_addr(self) -> u64 {
        self.view
    }

    /// The address of the acquired JavaScript context.
    pub closed spec fn context_addr(self) -> u64 {
        self.context
    }

    /// The raw JavaScript context, valid while the lock is held.
    pub fn raw(&self) -> (r: u64)
        ensures
            r == self.context_addr(),
    {
        self.context
    }

    /// Release the lock: exactly one native unlock call.
    pub fn unlock(self, host: &mut NativeHost)
        requires
            old(host).obj(self.view_addr()) matches Some(ObjView::View { .. }),
        ensures
            final(host).calls() == old(host).calls().push(CallView::ViewUnlockJSContext { addr: self.view_addr() }),
            final(host).obj(self.view_addr()) == match old(host).obj(self.view_addr()) {
                Some(ObjView::View { renderer, width, height, url, title, needs_paint, surface, js_ctx, js_locked: _, callbacks, focused }) =>
                    Some(ObjView::View { renderer, width, height, url, title, needs_paint, surface, js_ctx, js_locked: false, callbacks, focused }),
                other => other,
            },
            final(host).objs_same_except(*old(host), self.view_addr()),
            final(host).allocated() == old(host).allocated(),
            final(host).create_staged_to_fail() == old(host).create_staged_to_fail(),
    {
        host.view_unlock_js_context(self.view);
    }
}

/// A view rendering web content, with one callback slot per event kind.
pub struct View {
    handle: Handle,
    change_title_cb: CallbackStorage<Box<dyn ChangeTitleCallback>>,
    change_url_cb: CallbackStorage<Box<dyn ChangeURLCallback>>,
    change_tooltip_cb: CallbackStorage<Box<dyn ChangeTooltipCallback>>,
    change_cursor_cb: CallbackStorage<Box<dyn ChangeCursorCallback>>,
    add_console_message_cb: CallbackStorage<Box<dyn AddConsoleMessageCallback>>,
    create_child_view_cb: CallbackStorage<Box<dyn CreateChildViewCallback>>,
    create_inspector_view_cb: CallbackStorage<Box<dyn CreateInspectorViewCallback>>,
    begin_loading_cb: CallbackStorage<Box<dyn BeginLoadingCallback>>,
    finish_loading_cb: CallbackStorage<Box<dyn FinishLoadingCallback>>,
    fail_loading_cb: CallbackStorage<Box<dyn FailLoadingCallback>>,
    window_object_ready_cb: CallbackStorage<Box<dyn WindowObjectReadyCallback>>,
    dom_ready_cb: CallbackStorage<Box<dyn DOMReadyCallback>>,
    update_history_cb: CallbackStorage<Box<dyn UpdateHistoryCallback>>,
}

impl View {
    /// The native address of this view.
    pub closed spec fn addr(self) -> u64 {
        self.handle.raw_addr()
    }

    /// Whether this wrapper owns the native view.
    pub closed spec fn is_owning(self) -> bool {
        self.handle.is_owning()
    }

    /// Whether a title-change callback is registered.
    pub closed spec fn has_change_title_callback(self) -> bool {
        self.change_title_cb.stored() is Some
    }

    /// Whether a URL-change callback is registered.
    pub closed spec fn has_change_url_callback(self) -> bool {
        self.change_url_cb.stored() is Some
    }

    /// Whether a DOM-ready callback is registered.
    pub closed spec fn has_dom_ready_callback(self) -> bool {
        self.dom_ready_cb.stored() is Some
    }

    /// Whether an update-history callback is registered.
    pub closed spec fn has_update_history_callback(self) -> bool {
        self.update_history_cb.stored() is Some
    }

    /// Create a view. The native layer sets up its CPU surface and its
    /// JavaScript context along with it.
    ///
    /// Fails with `CreationFailed` exactly when the native layer hands back
    /// null or its address space is exhausted.
    pub fn new(host: &mut NativeHost, renderer: &Renderer, width: u32, height: u32, config: &ViewConfig, session: Option<&Session>) -> (r: Result<View, Error>)
        requires
            (width as nat) * 4 <= u32::MAX as nat,
            (width as nat) * 4 * (height as nat) <= u32::MAX as nat,
        ensures
            r is Ok <==> !old(host).create_staged_to_fail() && old(host).allocated() + 4 <= usize::MAX as nat,
            r matches Ok(v) ==> {
                &&& v.is_owning()
                &&& v.addr() != 0
                &&& !old(host).live(v.addr())
                &&& final(host).calls() == old(host).calls().push(CallView::CreateView {
                    addr: v.addr(),
                    renderer: renderer.addr(),
                    width,
                    height,
                    view_config: config.addr(),
                    session: match session {
                        Some(s) => s.addr(),
                        None => 0,
                    },
                })
                &&& final(host).obj(v.addr()) matches Some(ObjView::View { surface, js_ctx, js_locked, callbacks, url, title, .. })
                    && surface != 0
                    && js_ctx != 0
                    && !js_locked
                    && callbacks == 0u32
                    && url.len() == 0
                    && title.len() == 0
                    && (final(host).obj(surface) matches Some(ObjView::Surface { .. }))
                    && (final(host).obj(js_ctx) matches Some(ObjView::JsContext { .. }))
                &&& final(host).allocated() == old(host).allocated() + 4
            },
            r is Err ==> r == Err::<View, Error>(Error::CreationFailed("Failed to create view")),
            old(host).allocated() + 4 > usize::MAX as nat ==> *final(host) == *old(host),
    {
        if host.slots() > usize::MAX - 4 {
            return Err(Error::CreationFailed("Failed to create view"));
        }
        let session_raw = match session {
            Some(s) => s.raw(),
            None => 0,
        };
        let (view, _surface, _ctx, _god) = host.create_view(renderer.raw(), width, height, config.raw(), session_raw);
        match Handle::owning(view) {
            Some(handle) => Ok(View {
                handle,
                change_title_cb: CallbackStorage::new(),
                change_url_cb: CallbackStorage::new(),
                change_tooltip_cb: CallbackStorage::new(),
                change_cursor_cb: CallbackStorage::new(),
                add_console_message_cb: CallbackStorage::new(),
                create_child_view_cb: CallbackStorage::new(),
                create_inspector_view_cb: CallbackStorage::new(),
                begin_loading_cb: CallbackStorage::new(),
                finish_loading_cb: CallbackStorage::new(),
                fail_loading_cb: CallbackStorage::new(),
                window_object_ready_cb: CallbackStorage::new(),
                dom_ready_cb: CallbackStorage::new(),
                update_history_cb: CallbackStorage::new(),
            }),
            None => Err(Error::CreationFailed("Failed to create view")),
        }
    }

    /// The raw native address, for handing back across the boundary.
    pub fn raw(&self) -> (r: u64)
        ensures
            r == self.addr(),
            r != 0,
    {
        self.handle.raw()
    }

    /// The view's current URL, as UTF-8 bytes.
    pub fn url(&self, host: &NativeHost) -> (r: Vec<u8>)
        requires
            host.obj(self.addr()) matches Some(ObjView::View { .. }),
        ensures
            host.obj(self.addr()) matches Some(ObjView::View { url, .. }) && r@ == url,
    {
        host.view_url(self.handle.raw())
    }

    /// The view's current title, as UTF-8 bytes.
    pub fn title(&self, host: &NativeHost) -> (r: Vec<u8>)
        requires
            host.obj(self.addr()) matches Some(ObjView::View { .. }),
        ensures
            host.obj(self.addr()) matches Some(ObjView::View { title, .. }) && r@ == title,
    {
        host.view_title(self.handle.raw())
    }

    /// The view's width in pixels.
    pub fn width(&self, host: &NativeHost) -> (r: u32)
        requires
            host.obj(self.addr()) matches Some(ObjView::View { .. }),
        ensures
            host.obj(self.addr()) matches Some(ObjView::View { width, .. }) && r == width,
    {
        let s = host.view_state(self.handle.raw());
        s.0
    }

    /// The view's height in pixels.
    pub fn height(&self, host: &NativeHost) -> (r: u32)
        requires
            host.obj(self.addr()) matches Some(ObjView::View { .. }),
        ensures
            host.obj(self.addr()) matches Some(ObjView::View { height, .. }) && r == height,
    {
        let s = host.view_state(self.handle.raw());
        s.1
    }

    /// The view's CPU surface, absent when the view renders on the GPU.
    pub fn surface(&self, host: &NativeHost) -> (r: Option<Surface>)
        requires
            host.obj(self.addr()) matches Some(ObjView::View { .. }),
        ensures
            host.obj(self.addr()) matches Some(ObjView::View { surface, .. }) && {
                &&& r is Some <==> surface != 0
                &&& r matches Some(s) ==> s.addr() == surface
            },
    {
        let s = host.view_state(self.handle.raw());
        Surface::from_raw(s.2)
    }

    /// Whether the view has focus.
    pub fn has_focus(&self, host: &NativeHost) -> (r: bool)
        requires
            host.obj(self.addr()) matches Some(ObjView::View { .. }),
        ensures
            host.obj(self.addr()) matches Some(ObjView::View { focused, .. }) && r == focused,
    {
        let s = host.view_state(self.handle.raw());
        s.6
    }

    /// Whether the view wants to be repainted.
    pub fn needs_paint(&self, host: &NativeHost) -> (r: bool)
        requires
            host.obj(self.addr()) matches Some(ObjView::View { .. }),
        ensures
            host.obj(self.addr()) matches Some(ObjView::View { needs_paint, .. }) && r == needs_paint,
    {
        let s = host.view_state(self.handle.raw());
        s.7
    }

    /// Load raw HTML; the text is rejected with `InvalidArgument` when it
    /// holds an embedded NUL byte.
    pub fn load_html(&self, host: &mut NativeHost, html: &str) -> (r: Result<(), Error>)
        requires
            old(host).obj(self.addr()) matches Some(ObjView::View { .. }),
        ensures
            r is Ok <==> !html.spec_bytes().contains(0u8),
            r is Ok ==> {
                &&& final(host).calls() == old(host).calls().push(CallView::ViewLoadHtml { addr: self.addr(), html: html.spec_bytes() })
                &&& final(host).objs_same(*old(host))
            },
            r is Err ==> r == Err::<(), Error>(Error::InvalidArgument("HTML contains null bytes")) && *final(host) == *old(host),
    {
        let bytes = html.as_bytes();
        if contains_nul(bytes) {
            return Err(Error::InvalidArgument("HTML contains null bytes"));
        }
        host.view_command(NativeCall::ViewLoadHtml { addr: self.handle.raw(), html: vstd::slice::slice_to_vec(bytes) });
        Ok(())
    }

    /// Load a URL; rejected with `InvalidArgument` when it holds an
    /// embedded NUL byte, otherwise the view's URL becomes the given one.
    pub fn load_url(&self, host: &mut NativeHost, url: &str) -> (r: Result<(), Error>)
        requires
            old(host).obj(self.addr()) matches Some(ObjView::View { .. }),
        ensures
            r is Ok <==> !url.spec_bytes().contains(0u8),
            r is Ok ==> {
                &&& final(host).calls() == old(host).calls().push(CallView::ViewLoadUrl { addr: self.addr(), url: url.spec_bytes() })
                &&& final(host).obj(self.addr()) == match old(host).obj(self.addr()) {
                    Some(ObjView::View { renderer, width, height, url: _, title, needs_paint, surface, js_ctx, js_locked, callbacks, focused }) =>
                        Some(ObjView::View { renderer, width, height, url: url.spec_bytes(), title, needs_paint, surface, js_ctx, js_locked, callbacks, focused }),
                    other => other,
                }
                &&& final(host).objs_same_except(*old(host), self.addr())
            },
            r is Err ==> r == Err::<(), Error>(Error::InvalidArgument("URL contains null bytes")) && *final(host) == *old(host),
    {
        let bytes = url.as_bytes();
        if contains_nul(bytes) {
            return Err(Error::InvalidArgument("URL contains null bytes"));
        }
        host.view_load_url(self.handle.raw(), bytes);
        Ok(())
    }

    /// Resize the view.
    pub fn resize(&self, host: &mut NativeHost, width: u32, height: u32)
        requires
            old(host).obj(self.addr()) matches Some(ObjView::View { .. }),
        ensures
            final(host).calls() == old(host).calls().push(CallView::ViewResize { addr: self.addr(), width, height }),
            final(host).obj(self.addr()) == match old(host).obj(self.addr()) {
                Some(ObjView::View { renderer, width: _, height: _, url, title, needs_paint, surface, js_ctx, js_locked, callbacks, focused }) =>
                    Some(ObjView::View { renderer, width, height, url, title, needs_paint, surface, js_ctx, js_locked, callbacks, focused }),
                other => other,
            },
            final(host).objs_same_except(*old(host), self.addr()),
    {
        host.view_resize(self.handle.raw(), width, height);
    }

    /// Lock the view's JavaScript context for the duration of the returned
    /// guard. The lock is not reentrant: locking an already locked view
    /// fails with `InvalidOperation`.
    pub fn lock_js_context(&self, host: &mut NativeHost) -> (r: Result<LockedJSContext, Error>)
        requires
            old(host).obj(self.addr()) matches Some(ObjView::View { .. }),
        ensures
            old(host).obj(self.addr()) matches Some(ObjView::View { js_locked, js_ctx, .. }) && {
                &&& r is Ok <==> !js_locked
                &&& r matches Ok(g) ==> g.view_addr() == self.addr() && g.context_addr() == js_ctx
            },
            final(host).calls() == old(host).calls().push(CallView::ViewLockJSContext { addr: self.addr(), ok: r is Ok }),
            final(host).obj(self.addr()) == match old(host).obj(self.addr()) {
                Some(ObjView::View { renderer, width, height, url, title, needs_paint, surface, js_ctx, js_locked: _, callbacks, focused }) =>
                    Some(ObjView::View { renderer, width, height, url, title, needs_paint, surface, js_ctx, js_locked: true, callbacks, focused }),
                other => other,
            },
            r is Err ==> r == Err::<LockedJSContext, Error>(Error::InvalidOperation("JavaScript context is already locked")),
            final(host).objs_same_except(*old(host), self.addr()),
            final(host).allocated() == old(host).allocated(),
            final(host).create_staged_to_fail() == old(host).create_staged_to_fail(),
    {
        let (ok, ctx) = host.view_lock_js_context(self.handle.raw());
        if ok {
            Ok(LockedJSContext { view: self.handle.raw(), context: ctx })
        } else {
            Err(Error::InvalidOperation("JavaScript context is already locked"))
        }
    }

    /// Evaluate JavaScript in the view. The result string is owned by the
    /// engine and handed back as a borrowed wrapper; a script exception
    /// surfaces as `JavaScriptError` carrying the exception text.
    pub fn evaluate_script(&self, host: &mut NativeHost, js: &str) -> (r: Result<String, Error>)
        requires
            old(host).allocated() < usize::MAX as nat,
        ensures
            js.spec_bytes().contains(0u8) ==> {
                &&& r == Err::<String, Error>(Error::InvalidArgument("Script contains null bytes"))
                &&& *final(host) == *old(host)
            },
            !js.spec_bytes().contains(0u8) ==> {
                &&& final(host).calls() == old(host).calls().push(CallView::ViewEvaluateScript { addr: self.addr(), script: js.spec_bytes() })
                &&& final(host).view_eval_queue() == if old(host).view_eval_queue().len() > 0 {
                    old(host).view_eval_queue().drop_first()
                } else {
                    old(host).view_eval_queue()
                }
                &&& (r is Ok <==> (old(host).view_eval_queue().len() == 0 || old(host).view_eval_queue()[0].0))
                &&& r matches Ok(s) ==> {
                    &&& !s.spec_owned()
                    &&& s.addr() != 0
                    &&& final(host).obj(s.addr()) matches Some(ObjView::UlString { bytes })
                        && bytes == if old(host).view_eval_queue().len() > 0 { old(host).view_eval_queue()[0].1 } else { Seq::<u8>::empty() }
                    &&& final(host).objs_same_except(*old(host), s.addr())
                }
                &&& r matches Err(e) ==> {
                    &&& (e matches Error::JavaScriptError(t) && t@ == old(host).view_eval_queue()[0].1)
                    &&& final(host).objs_same(*old(host))
                }
            },
    {
        let bytes = js.as_bytes();
        if contains_nul(bytes) {
            return Err(Error::InvalidArgument("Script contains null bytes"));
        }
        let (ok, text, result) = host.view_evaluate_script(self.handle.raw(), bytes);
        if ok {
            match String::from_raw(result, false) {
                Some(s) => Ok(s),
                None => Err(Error::NullReference("Script evaluation returned null")),
            }
        } else {
            Err(Error::JavaScriptError(text))
        }
    }

    /// Mark whether the view wants to be repainted.
    pub fn set_needs_paint(&self, host: &mut NativeHost, needs_paint: bool)
        requires
            old(host).obj(self.addr()) matches Some(ObjView::View { .. }),
        ensures
            final(host).calls() == old(host).calls().push(CallView::ViewSetNeedsPaint { addr: self.addr(), needs_paint }),
            final(host).obj(self.addr()) == match old(host).obj(self.addr()) {
                Some(ObjView::View { renderer, width, height, url, title, needs_paint: _, surface, js_ctx, js_locked, callbacks, focused }) =>
                    Some(ObjView::View { renderer, width, height, url, title, needs_paint, surface, js_ctx, js_locked, callbacks, focused }),
                other => other,
            },
            final(host).objs_same_except(*old(host), self.addr()),
    {
        host.view_set_needs_paint(self.handle.raw(), needs_paint);
    }

    /// Give focus to the view.
    pub fn focus(&self, host: &mut NativeHost)
        requires
            old(host).obj(self.addr()) matches Some(ObjView::View { .. }),
        ensures
            final(host).calls() == old(host).calls().push(CallView::ViewFocus { addr: self.addr() }),
            final(host).obj(self.addr()) matches Some(ObjView::View { focused, .. }) && focused,
            final(host).objs_same_except(*old(host), self.addr()),
    {
        host.view_set_focused(self.handle.raw(), true);
    }

    /// Remove focus from the view.
    pub fn unfocus(&self, host: &mut NativeHost)
        requires
            old(host).obj(self.addr()) matches Some(ObjView::View { .. }),
        ensures
            final(host).calls() == old(host).calls().push(CallView::ViewUnfocus { addr: self.addr() }),
            final(host).obj(self.addr()) matches Some(ObjView::View { focused, .. }) && !focused,
            final(host).objs_same_except(*old(host), self.addr()),
    {
        host.view_set_focused(self.handle.raw(), false);
    }

    /// Fire a keyboard event into the view.
    pub fn fire_key_event(&self, host: &mut NativeHost, event: &KeyEvent)
        ensures
            final(host).calls() == old(host).calls().push(CallView::ViewFireKeyEvent { addr: self.addr(), event: event.addr() }),
            final(host).objs_same(*old(host)),
    {
        host.view_command(NativeCall::ViewFireKeyEvent { addr: self.handle.raw(), event: event.raw() });
    }

    /// Fire a mouse event into the view.
    pub fn fire_mouse_event(&self, host: &mut NativeHost, event: &MouseEvent)
        ensures
            final(host).calls() == old(host).calls().push(CallView::ViewFireMouseEvent { addr: self.addr(), event: event.addr() }),
            final(host).objs_same(*old(host)),
    {
        host.view_command(NativeCall::ViewFireMouseEvent { addr: self.handle.raw(), event: event.raw() });
    }

    /// Fire a scroll event into the view.
    pub fn fire_scroll_event(&self, host: &mut NativeHost, event: &ScrollEvent)
        ensures
            final(host).calls() == old(host).calls().push(CallView::ViewFireScrollEvent { addr: self.addr(), event: event.addr() }),
            final(host).objs_same(*old(host)),
    {
        host.view_command(NativeCall::ViewFireScrollEvent { addr: self.handle.raw(), event: event.raw() });
    }

    /// Navigate backwards in history.
    pub fn go_back(&self, host: &mut NativeHost)
        ensures
            final(host).calls() == old(host).calls().push(CallView::ViewGoBack { addr: self.addr() }),
            final(host).objs_same(*old(host)),
    {
        host.view_command(NativeCall::ViewGoBack { addr: self.handle.raw() });
    }

    /// Navigate forwards in history.
    pub fn go_forward(&self, host: &mut NativeHost)
        ensures
            final(host).calls() == old(host).calls().push(CallView::ViewGoForward { addr: self.addr() }),
            final(host).objs_same(*old(host)),
    {
        host.view_command(NativeCall::ViewGoForward { addr: self.handle.raw() });
    }

    /// Navigate to an offset in history.
    pub fn go_to_history_offset(&self, host: &mut NativeHost, offset: i32)
        ensures
            final(host).calls() == old(host).calls().push(CallView::ViewGoToHistoryOffset { addr: self.addr(), offset }),
            final(host).objs_same(*old(host)),
    {
        host.view_command(NativeCall::ViewGoToHistoryOffset { addr: self.handle.raw(), offset });
    }

    /// Reload the current page.
    pub fn reload(&self, host: &mut NativeHost)
        ensures
            final(host).calls() == old(host).calls().push(CallView::ViewReload { addr: self.addr() }),
            final(host).objs_same(*old(host)),
    {
        host.view_command(NativeCall::ViewReload { addr: self.handle.raw() });
    }

    /// Stop all page loads.
    pub fn stop(&self, host: &mut NativeHost)
        ensures
            final(host).calls() == old(host).calls().push(CallView::ViewStop { addr: self.addr() }),
            final(host).objs_same(*old(host)),
    {
        host.view_command(NativeCall::ViewStop { addr: self.handle.raw() });
    }

    /// Register the title-change callback (kind 0), replacing any earlier
    /// registration, then install the native registration.
    pub fn set_change_title_callback(&mut self, host: &mut NativeHost, callback: Box<dyn ChangeTitleCallback>)
        requires
            old(host).obj(old(self).addr()) matches Some(ObjView::View { .. }),
        ensures
            final(self).addr() == old(self).addr(),
            final(self).has_change_title_callback(),
            final(host).calls() == old(host).calls().push(CallView::ViewSetCallback { addr: old(self).addr(), kind: 0u32, installed: true }),
            final(host).objs_same_except(*old(host), old(self).addr()),
    {
        self.change_title_cb.set(callback);
        host.view_set_callback(self.handle.raw(), 0, true);
    }

    /// Register the URL-change callback (kind 1).
    pub fn set_change_url_callback(&mut self, host: &mut NativeHost, callback: Box<dyn ChangeURLCallback>)
        requires
            old(host).obj(old(self).addr()) matches Some(ObjView::View { .. }),
        ensures
            final(self).addr() == old(self).addr(),
            final(self).has_change_url_callback(),
            final(host).calls() == old(host).calls().push(CallView::ViewSetCallback { addr: old(self).addr(), kind: 1u32, installed: true }),
            final(host).objs_same_except(*old(host), old(self).addr()),
    {
        self.change_url_cb.set(callback);
        host.view_set_callback(self.handle.raw(), 1, true);
    }

    /// Register the tooltip-change callback (kind 2).
    pub fn set_change_tooltip_callback(&mut self, host: &mut NativeHost, callback: Box<dyn ChangeTooltipCallback>)
        requires
            old(host).obj(old(self).addr()) matches Some(ObjView::View { .. }),
        ensures
            final(self).addr() == old(self).addr(),
            final(host).calls() == old(host).calls().push(CallView::ViewSetCallback { addr: old(self).addr(), kind: 2u32, installed: true }),
            final(host).objs_same_except(*old(host), old(self).addr()),
    {
        self.change_tooltip_cb.set(callback);
        host.view_set_callback(self.handle.raw(), 2, true);
    }

    /// Register the cursor-change callback (kind 3).
    pub fn set_change_cursor_callback(&mut self, host: &mut NativeHost, callback: Box<dyn ChangeCursorCallback>)
        requires
            old(host).obj(old(self).addr()) matches Some(ObjView::View { .. }),
        ensures
            final(self).addr() == old(self).addr(),
            final(host).calls() == old(host).calls().push(CallView::ViewSetCallback { addr: old(self).addr(), kind: 3u32, installed: true }),
            final(host).objs_same_except(*old(host), old(self).addr()),
    {
        self.change_cursor_cb.set(callback);
        host.view_set_callback(self.handle.raw(), 3, true);
    }

    /// Register the console-message callback (kind 4).
    pub fn set_add_console_message_callback(&mut self, host: &mut NativeHost, callback: Box<dyn AddConsoleMessageCallback>)
        requires
            old(host).obj(old(self).addr()) matches Some(ObjView::View { .. }),
        ensures
            final(self).addr() == old(self).addr(),
            final(host).calls() == old(host).calls().push(CallView::ViewSetCallback { addr: old(self).addr(), kind: 4u32, installed: true }),
            final(host).objs_same_except(*old(host), old(self).addr()),
    {
        self.add_console_message_cb.set(callback);
        host.view_set_callback(self.handle.raw(), 4, true);
    }

    /// Register the child-view callback (kind 5).
    pub fn set_create_child_view_callback(&mut self, host: &mut NativeHost, callback: Box<dyn CreateChildViewCallback>)
        requires
            old(host).obj(old(self).addr()) matches Some(ObjView::View { .. }),
        ensures
            final(self).addr() == old(self).addr(),
            final(host).calls() == old(host).calls().push(CallView::ViewSetCallback { addr: old(self).addr(), kind: 5u32, installed: true }),
            final(host).objs_same_except(*old(host), old(self).addr()),
    {
        self.create_child_view_cb.set(callback);
        host.view_set_callback(self.handle.raw(), 5, true);
    }

    /// Register the inspector-view callback (kind 6).
    pub fn set_create_inspector_view_callback(&mut self, host: &mut NativeHost, callback: Box<dyn CreateInspectorViewCallback>)
        requires
            old(host).obj(old(self).addr()) matches Some(ObjView::View { .. }),
        ensures
            final(self).addr() == old(self).addr(),
            final(host).calls() == old(host).calls().push(CallView::ViewSetCallback { addr: old(self).addr(), kind: 6u32, installed: true }),
            final(host).objs_same_except(*old(host), old(self).addr()),
    {
        self.create_inspector_view_cb.set(callback);
        host.view_set_callback(self.handle.raw(), 6, true);
    }

    /// Register the begin-loading callback (kind 7).
    pub fn set_begin_loading_callback(&mut self, host: &mut NativeHost, callback: Box<dyn BeginLoadingCallback>)
        requires
            old(host).obj(old(self).addr()) matches Some(ObjView::View { .. }),
        ensures
            final(self).addr() == old(self).addr(),
            final(host).calls() == old(host).calls().push(CallView::ViewSetCallback { addr: old(self).addr(), kind: 7u32, installed: true }),
            final(host).objs_same_except(*old(host), old(self).addr()),
    {
        self.begin_loading_cb.set(callback);
        host.view_set_callback(self.handle.raw(), 7, true);
    }

    /// Register the finish-loading callback (kind 8).
    pub fn set_finish_loading_callback(&mut self, host: &mut NativeHost, callback: Box<dyn FinishLoadingCallback>)
        requires
            old(host).obj(old(self).addr()) matches Some(ObjView::View { .. }),
        ensures
            final(self).addr() == old(self).addr(),
            final(host).calls() == old(host).calls().push(CallView::ViewSetCallback { addr: old(self).addr(), kind: 8u32, installed: true }),
            final(host).objs_same_except(*old(host), old(self).addr()),
    {
        self.finish_loading_cb.set(callback);
        host.view_set_callback(self.handle.raw(), 8, true);
    }

    /// Register the fail-loading callback (kind 9).
    pub fn set_fail_loading_callback(&mut self, host: &mut NativeHost, callback: Box<dyn FailLoadingCallback>)
        requires
            old(host).obj(old(self).addr()) matches Some(ObjView::View { .. }),
        ensures
            final(self).addr() == old(self).addr(),
            final(host).calls() == old(host).calls().push(CallView::ViewSetCallback { addr: old(self).addr(), kind: 9u32, installed: true }),
            final(host).objs_same_except(*old(host), old(self).addr()),
    {
        self.fail_loading_cb.set(callback);
        host.view_set_callback(self.handle.raw(), 9, true);
    }

    /// Register the window-object-ready callback (kind 10).
    pub fn set_window_object_ready_callback(&mut self, host: &mut NativeHost, callback: Box<dyn WindowObjectReadyCallback>)
        requires
            old(host).obj(old(self).addr()) matches Some(ObjView::View { .. }),
        ensures
            final(self).addr() == old(self).addr(),
            final(host).calls() == old(host).calls().push(CallView::ViewSetCallback { addr: old(self).addr(), kind: 10u32, installed: true }),
            final(host).objs_same_except(*old(host), old(self).addr()),
    {
        self.window_object_ready_cb.set(callback);
        host.view_set_callback(self.handle.raw(), 10, true);
    }

    /// Register the DOM-ready callback (kind 11).
    pub fn set_dom_ready_callback(&mut self, host: &mut NativeHost, callback: Box<dyn DOMReadyCallback>)
        requires
            old(host).obj(old(self).addr()) matches Some(ObjView::View { .. }),
        ensures
            final(self).addr() == old(self).addr(),
            final(self).has_dom_ready_callback(),
            final(host).calls() == old(host).calls().push(CallView::ViewSetCallback { addr: old(self).addr(), kind: 11u32, installed: true }),
            final(host).objs_same_except(*old(host), old(self).addr()),
    {
        self.dom_ready_cb.set(callback);
        host.view_set_callback(self.handle.raw(), 11, true);
    }

    /// Register the update-history callback (kind 12).
    pub fn set_update_history_callback(&mut self, host: &mut NativeHost, callback: Box<dyn UpdateHistoryCallback>)
        requires
            old(host).obj(old(self).addr()) matches Some(ObjView::View { .. }),
        ensures
            final(self).addr() == old(self).addr(),
            final(self).has_update_history_callback(),
            final(host).calls() == old(host).calls().push(CallView::ViewSetCallback { addr: old(self).addr(), kind: 12u32, installed: true }),
            final(host).objs_same_except(*old(host), old(self).addr()),
    {
        self.update_history_cb.set(callback);
        host.view_set_callback(self.handle.raw(), 12, true);
    }

    /// Deliver a native title-change event: the trampoline checks the raw
    /// title for null, wraps view and title as borrowed values, and invokes
    /// the registered callback.
    pub fn raise_change_title(&self, host: &mut NativeHost, title_raw: u64) -> (invoked: bool)
        ensures
            invoked == (self.has_change_title_callback() && title_raw != 0),
            !invoked ==> *final(host) == *old(host),
    {
        match self.change_title_cb.get() {
            Some(cb) => {
                match (ViewRef::from_raw(self.handle.raw()), String::from_raw(title_raw, false)) {
                    (Some(view), Some(title)) => {
                        cb.on_change_title(host, &view, &title);
                        true
                    },
                    _ => false,
                }
            },
            None => false,
        }
    }

    /// Deliver a native URL-change event.
    pub fn raise_change_url(&self, host: &mut NativeHost, url_raw: u64) -> (invoked: bool)
        ensures
            invoked == (self.has_change_url_callback() && url_raw != 0),
            !invoked ==> *final(host) == *old(host),
    {
        match self.change_url_cb.get() {
            Some(cb) => {
                match (ViewRef::from_raw(self.handle.raw()), String::from_raw(url_raw, false)) {
                    (Some(view), Some(url)) => {
                        cb.on_change_url(host, &view, &url);
                        true
                    },
                    _ => false,
                }
            },
            None => false,
        }
    }

    /// Deliver a native tooltip-change event.
    pub fn raise_change_tooltip(&self, host: &mut NativeHost, tooltip_raw: u64) -> (invoked: bool)
        ensures
            !invoked ==> *final(host) == *old(host),
    {
        match self.change_tooltip_cb.get() {
            Some(cb) => {
                match (ViewRef::from_raw(self.handle.raw()), String::from_raw(tooltip_raw, false)) {
                    (Some(view), Some(tooltip)) => {
                        cb.on_change_tooltip(host, &view, &tooltip);
                        true
                    },
                    _ => false,
                }
            },
            None => false,
        }
    }

    /// Deliver a native cursor-change event.
    pub fn raise_change_cursor(&self, host: &mut NativeHost, cursor: ULCursor) -> (invoked: bool)
        ensures
            !invoked ==> *final(host) == *old(host),
    {
        match self.change_cursor_cb.get() {
            Some(cb) => {
                match ViewRef::from_raw(self.handle.raw()) {
                    Some(view) => {
                        cb.on_change_cursor(host, &view, cursor);
                        true
                    },
                    None => false,
                }
            },
            None => false,
        }
    }

    /// Deliver a native console message.
    pub fn raise_add_console_message(&self, host: &mut NativeHost, source: ULMessageSource, level: ULMessageLevel, message_raw: u64, line_number: u32, column_number: u32, source_id_raw: u64) -> (invoked: bool)
        ensures
            !invoked ==> *final(host) == *old(host),
    {
        match self.add_console_message_cb.get() {
            Some(cb) => {
                match (ViewRef::from_raw(self.handle.raw()), String::from_raw(message_raw, false), String::from_raw(source_id_raw, false)) {
                    (Some(view), Some(message), Some(source_id)) => {
                        cb.on_add_console_message(host, &view, source, level, &message, line_number, column_number, &source_id);
                        true
                    },
                    _ => false,
                }
            },
            None => false,
        }
    }

    /// Deliver a native child-view request; hands back the raw address of
    /// the view the callback chose, or 0 when blocked or unregistered.
    pub fn raise_create_child_view(&self, host: &mut NativeHost, opener_url_raw: u64, target_url_raw: u64, is_popup: bool, popup_rect: IntRect) -> (child: u64)
    {
        match self.create_child_view_cb.get() {
            Some(cb) => {
                match (ViewRef::from_raw(self.handle.raw()), String::from_raw(opener_url_raw, false), String::from_raw(target_url_raw, false)) {
                    (Some(view), Some(opener), Some(target)) => {
                        match cb.on_create_child_view(host, &view, &opener, &target, is_popup, popup_rect) {
                            Some(child) => child.raw(),
                            None => 0,
                        }
                    },
                    _ => 0,
                }
            },
            None => 0,
        }
    }

    /// Deliver a native inspector-view request; hands back the raw address
    /// of the view the callback chose, or 0 when blocked or unregistered.
    pub fn raise_create_inspector_view(&self, host: &mut NativeHost, is_local: bool, inspected_url_raw: u64) -> (inspector: u64)
    {
        match self.create_inspector_view_cb.get() {
            Some(cb) => {
                match (ViewRef::from_raw(self.handle.raw()), String::from_raw(inspected_url_raw, false)) {
                    (Some(view), Some(url)) => {
                        match cb.on_create_inspector_view(host, &view, is_local, &url) {
                            Some(v) => v.raw(),
                            None => 0,
                        }
                    },
                    _ => 0,
                }
            },
            None => 0,
        }
    }

    /// Deliver a native begin-loading event.
    pub fn raise_begin_loading(&self, host: &mut NativeHost, frame_id: u64, is_main_frame: bool, url_raw: u64) -> (invoked: bool)
        ensures
            !invoked ==> *final(host) == *old(host),
    {
        match self.begin_loading_cb.get() {
            Some(cb) => {
                match (ViewRef::from_raw(self.handle.raw()), String::from_raw(url_raw, false)) {
                    (Some(view), Some(url)) => {
                        cb.on_begin_loading(host, &view, frame_id, is_main_frame, &url);
                        true
                    },
                    _ => false,
                }
            },
            None => false,
        }
    }

    /// Deliver a native finish-loading event.
    pub fn raise_finish_loading(&self, host: &mut NativeHost, frame_id: u64, is_main_frame: bool, url_raw: u64) -> (invoked: bool)
        ensures
            !invoked ==> *final(host) == *old(host),
    {
        match self.finish_loading_cb.get() {
            Some(cb) => {
                match (ViewRef::from_raw(self.handle.raw()), String::from_raw(url_raw, false)) {
                    (Some(view), Some(url)) => {
                        cb.on_finish_loading(host, &view, frame_id, is_main_frame, &url);
                        true
                    },
                    _ => false,
                }
            },
            None => false,
        }
    }

    /// Deliver a native fail-loading event.
    pub fn raise_fail_loading(&self, host: &mut NativeHost, frame_id: u64, is_main_frame: bool, url_raw: u64, description_raw: u64, error_domain_raw: u64, error_code: i32) -> (invoked: bool)
        ensures
            !invoked ==> *final(host) == *old(host),
    {
        match self.fail_loading_cb.get() {
            Some(cb) => {
                match (ViewRef::from_raw(self.handle.raw()), String::from_raw(url_raw, false), String::from_raw(description_raw, false), String::from_raw(error_domain_raw, false)) {
                    (Some(view), Some(url), Some(description), Some(domain)) => {
                        cb.on_fail_loading(host, &view, frame_id, is_main_frame, &url, &description, &domain, error_code);
                        true
                    },
                    _ => false,
                }
            },
            None => false,
        }
    }

    /// Deliver a native window-object-ready event.
    pub fn raise_window_object_ready(&self, host: &mut NativeHost, frame_id: u64, is_main_frame: bool, url_raw: u64) -> (invoked: bool)
        ensures
            !invoked ==> *final(host) == *old(host),
    {
        match self.window_object_ready_cb.get() {
            Some(cb) => {
                match (ViewRef::from_raw(self.handle.raw()), String::from_raw(url_raw, false)) {
                    (Some(view), Some(url)) => {
                        cb.on_window_object_ready(host, &view, frame_id, is_main_frame, &url);
                        true
                    },
                    _ => false,
                }
            },
            None => false,
        }
    }

    /// Deliver a native DOM-ready event.
    pub fn raise_dom_ready(&self, host: &mut NativeHost, frame_id: u64, is_main_frame: bool, url_raw: u64) -> (invoked: bool)
        ensures
            invoked == (self.has_dom_ready_callback() && url_raw != 0),
            !invoked ==> *final(host) == *old(host),
    {
        match self.dom_ready_cb.get() {
            Some(cb) => {
                match (ViewRef::from_raw(self.handle.raw()), String::from_raw(url_raw, false)) {
                    (Some(view), Some(url)) => {
                        cb.on_dom_ready(host, &view, frame_id, is_main_frame, &url);
                        true
                    },
                    _ => false,
                }
            },
            None => false,
        }
    }

    /// Deliver a native update-history event.
    pub fn raise_update_history(&self, host: &mut NativeHost) -> (invoked: bool)
        ensures
            invoked == self.has_update_history_callback(),
            !invoked ==> *final(host) == *old(host),
    {
        match self.update_history_cb.get() {
            Some(cb) => {
                match ViewRef::from_raw(self.handle.raw()) {
                    Some(view) => {
                        cb.on_update_history(host, &view);
                        true
                    },
                    None => false,
                }
            },
            None => false,
        }
    }

    /// Tear down this view: an owning wrapper makes exactly one native
    /// destroy call (which stops all callback invocations before the stored
    /// callbacks are released); a borrowed one makes none.
    pub fn destroy(self, host: &mut NativeHost)
        ensures
            self.is_owning() ==> {
                &&& final(host).calls() == old(host).calls().push(CallView::DestroyView { addr: self.addr() })
                &&& final(host).obj(self.addr()) is None
                &&& final(host).objs_same_except(*old(host), self.addr())
            },
            !self.is_owning() ==> *final(host) == *old(host),
            final(host).allocated() == old(host).allocated(),
    {
        if self.handle.owns() {
            host.destroy_view(self.handle.raw());
        }
    }
}

} // verus!
