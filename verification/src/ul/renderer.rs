//! The renderer driving all views.

use vstd::prelude::*;
use vstd::string::StringSliceAdditionalSpecFns;
use crate::handle::Handle;
use crate::native::CallView;
use crate::native::NativeCall;
use crate::native::NativeHost;
use crate::native::ObjView;
use crate::native::contains_nul;
use crate::ul::config::Config;
use crate::ul::error::Error;
use crate::ul::session::Session;

verus! {

/// A wrapper around one native renderer. A renderer created here is owned
/// and destroyed exactly once; one handed over by the native layer (for
/// example the application's renderer) is borrowed.
pub struct Renderer {
    handle: Handle,
}

impl Renderer {
    /// The native address of this renderer.
    pub closed spec fn addr(self) -> u64 {
        self.handle.raw_addr()
    }

    /// Whether this wrapper owns the native renderer.
    pub closed spec fn is_owning(self) -> bool {
        self.handle.is_owning()
    }

    /// Create a new renderer with the given configuration. The renderer
    /// comes with its default session.
    ///
    /// Fails with `CreationFailed` exactly when the native layer hands back
    /// null or its address space is exhausted.
    pub fn new(host: &mut NativeHost, config: &Config) -> (r: Result<Renderer, Error>)
        ensures
            r is Ok <==> old(host).create_succeeds() && old(host).allocated() + 2 <= usize::MAX as nat,
            r matches Ok(ren) ==> {
                &&& ren.is_owning()
                &&& ren.addr() != 0
                &&& !old(host).live(ren.addr())
                &&& final(host).calls() == old(host).calls().push(CallView::CreateRenderer { addr: ren.addr(), config: config.addr() })
                &&& final(host).obj(ren.addr()) matches Some(ObjView::Renderer { default_session })
                    && default_session != 0
                    && default_session != ren.addr()
                    && !old(host).live(default_session)
                    && final(host).obj(default_session) == Some(ObjView::Session { renderer: ren.addr(), is_persistent: false, name: Seq::<u8>::empty() })
                    && final(host).objs_same_except2(*old(host), ren.addr(), default_session)
                &&& final(host).allocated() == old(host).allocated() + 2
            },
            r is Err ==> r == Err::<Renderer, Error>(Error::CreationFailed("Failed to create renderer")),
            r is Err && old(host).allocated() + 2 <= usize::MAX as nat ==> {
                &&& final(host).calls() == old(host).calls().push(CallView::CreateRenderer { addr: 0, config: config.addr() })
                &&& final(host).objs_same(*old(host))
                &&& final(host).allocated() == old(host).allocated()
            },
            old(host).allocated() + 2 <= usize::MAX as nat ==> !final(host).create_staged_to_fail(),
            old(host).allocated() + 2 > usize::MAX as nat ==> *final(host) == *old(host),
    {
        if host.slots() > usize::MAX - 2 {
            return Err(Error::CreationFailed("Failed to create renderer"));
        }
        let (ren, _ses) = host.create_renderer(config.raw());
        match Handle::owning(ren) {
            Some(handle) => Ok(Renderer { handle }),
            None => Err(Error::CreationFailed("Failed to create renderer")),
        }
    }

    /// Wrap a raw renderer address; fails on null.
    pub fn from_raw(raw: u64, owned: bool) -> (r: Option<Renderer>)
        ensures
            r is Some <==> raw != 0,
            r matches Some(ren) ==> ren.addr() == raw && ren.is_owning() == owned,
    {
        let handle = if owned {
            Handle::owning(raw)
        } else {
            Handle::borrowed(raw)
        };
        match handle {
            Some(handle) => Some(Renderer { handle }),
            None => None,
        }
    }

    /// The raw native address, for handing back across the boundary.
    pub fn raw(&self) -> (r: u64)
        ensures
            r == self.addr(),
            r != 0,
    {
        self.handle.raw()
    }

    /// Update timers and dispatch internal callbacks.
    pub fn update(&self, host: &mut NativeHost)
        ensures
            final(host).calls() == old(host).calls().push(CallView::RendererUpdate { addr: self.addr() }),
            final(host).objs_same(*old(host)),
            final(host).allocated() == old(host).allocated(),
            final(host).create_staged_to_fail() == old(host).create_staged_to_fail(),
    {
        host.log_command(NativeCall::RendererUpdate { addr: self.handle.raw() });
    }

    /// Render all active views.
    pub fn render(&self, host: &mut NativeHost)
        ensures
            final(host).calls() == old(host).calls().push(CallView::RendererRender { addr: self.addr() }),
            final(host).objs_same(*old(host)),
            final(host).allocated() == old(host).allocated(),
            final(host).create_staged_to_fail() == old(host).create_staged_to_fail(),
    {
        host.log_command(NativeCall::RendererRender { addr: self.handle.raw() });
    }

    /// Ask the native layer to release as much memory as possible.
    pub fn purge_memory(&self, host: &mut NativeHost)
        ensures
            final(host).calls() == old(host).calls().push(CallView::RendererPurgeMemory { addr: self.addr() }),
            final(host).objs_same(*old(host)),
            final(host).allocated() == old(host).allocated(),
            final(host).create_staged_to_fail() == old(host).create_staged_to_fail(),
    {
        host.log_command(NativeCall::RendererPurgeMemory { addr: self.handle.raw() });
    }

    /// Ask the native layer to print its memory statistics.
    pub fn log_memory_usage(&self, host: &mut NativeHost)
        ensures
            final(host).calls() == old(host).calls().push(CallView::RendererLogMemoryUsage { addr: self.addr() }),
            final(host).objs_same(*old(host)),
            final(host).allocated() == old(host).allocated(),
            final(host).create_staged_to_fail() == old(host).create_staged_to_fail(),
    {
        host.log_command(NativeCall::RendererLogMemoryUsage { addr: self.handle.raw() });
    }

    /// Notify the renderer that a display has refreshed.
    pub fn refresh_display(&self, host: &mut NativeHost, display_id: u32)
        ensures
            final(host).calls() == old(host).calls().push(CallView::RendererRefreshDisplay { addr: self.addr(), display_id }),
            final(host).objs_same(*old(host)),
            final(host).allocated() == old(host).allocated(),
            final(host).create_staged_to_fail() == old(host).create_staged_to_fail(),
    {
        host.log_command(NativeCall::RendererRefreshDisplay { addr: self.handle.raw(), display_id });
    }

    /// Create a new session to store local data in.
    ///
    /// A name with an embedded NUL byte is rejected with `InvalidArgument`
    /// before any native call; otherwise the session fails only when the
    /// native layer hands back null.
    pub fn create_session(&self, host: &mut NativeHost, is_persistent: bool, name: &str) -> (r: Result<Session, Error>)
        ensures
            r is Ok <==> !name.spec_bytes().contains(0u8) && old(host).create_succeeds(),
            name.spec_bytes().contains(0u8) ==> {
                &&& r == Err::<Session, Error>(Error::InvalidArgument("Session name contains null bytes"))
                &&& *final(host) == *old(host)
            },
            r matches Ok(s) ==> {
                &&& s.is_owning()
                &&& s.addr() != 0
                &&& !old(host).live(s.addr())
                &&& final(host).obj(s.addr()) == Some(ObjView::Session { renderer: self.addr(), is_persistent, name: name.spec_bytes() })
                &&& final(host).calls() == old(host).calls().push(CallView::CreateSession { addr: s.addr(), renderer: self.addr(), is_persistent, name: name.spec_bytes() })
                &&& final(host).objs_same_except(*old(host), s.addr())
                &&& final(host).allocated() == old(host).allocated() + 1
            },
            !name.spec_bytes().contains(0u8) && !old(host).create_succeeds() ==> {
                &&& r == Err::<Session, Error>(Error::CreationFailed("Failed to create session"))
                &&& final(host).calls() == old(host).calls().push(CallView::CreateSession { addr: 0, renderer: self.addr(), is_persistent, name: name.spec_bytes() })
                &&& final(host).objs_same(*old(host))
                &&& final(host).allocated() == old(host).allocated()
            },
    {
        let bytes = name.as_bytes();
        if contains_nul(bytes) {
            return Err(Error::InvalidArgument("Session name contains null bytes"));
        }
        let raw = host.create_session(self.handle.raw(), is_persistent, bytes);
        match Session::from_raw(raw, true) {
            Some(s) => Ok(s),
            None => Err(Error::CreationFailed("Failed to create session")),
        }
    }

    /// The renderer's default session, as a borrowed wrapper; the native
    /// layer keeps ownership.
    pub fn default_session(&self, host: &NativeHost) -> (r: Option<Session>)
        requires
            host.obj(self.addr()) matches Some(ObjView::Renderer { .. }),
        ensures
            host.obj(self.addr()) matches Some(ObjView::Renderer { default_session }) && {
                &&& r is Some <==> default_session != 0
                &&& r matches Some(s) ==> s.addr() == default_session && !s.is_owning()
            },
    {
        let ses = host.renderer_default_session(self.handle.raw());
        Session::from_raw(ses, false)
    }

    /// Tear down this wrapper; an owning renderer makes exactly one native
    /// destroy call, a borrowed one makes none.
    pub fn destroy(self, host: &mut NativeHost)
        ensures
            self.is_owning() ==> {
                &&& final(host).calls() == old(host).calls().push(CallView::DestroyRenderer { addr: self.addr() })
                &&& final(host).obj(self.addr()) is None
                &&& final(host).objs_same_except(*old(host), self.addr())
            },
            !self.is_owning() ==> *final(host) == *old(host),
            final(host).allocated() == old(host).allocated(),
            final(host).create_staged_to_fail() == old(host).create_staged_to_fail(),
    {
        if self.handle.owns() {
            host.destroy_renderer(self.handle.raw());
        }
    }
}

} // verus!
