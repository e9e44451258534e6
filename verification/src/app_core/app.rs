//! The main application object, owning the run loop and the update callback.

use vstd::prelude::*;
use crate::app_core::error::Error;
use crate::app_core::monitor::Monitor;
use crate::app_core::settings::Settings;
use crate::callback::CallbackStorage;
use crate::handle::Handle;
use crate::native::CallView;
use crate::native::NativeHost;
use crate::native::ObjView;
use crate::ul::config::Config;
use crate::ul::renderer::Renderer;

verus! {

/// Receiver for update events raised by the native run loop right before it
/// updates and renders.
pub trait UpdateCallback: Send {
    /// Called once per native update tick.
    fn on_update(&self, host: &mut NativeHost);
}

/// The main application object, created once per program. It owns the
/// native application (with its main monitor and renderer) and the update
/// callback slot.
pub struct App {
    handle: Handle,
    update_cb: CallbackStorage<Box<dyn UpdateCallback>>,
}

impl App {
    /// The native address of this application.
    pub closed spec fn addr(self) -> u64 {
        self.handle.raw_addr()
    }

    /// An application wrapper always owns its native object.
    pub closed spec fn wf(self) -> bool {
        self.handle.is_owning()
    }

    /// The update callback currently registered.
    pub closed spec fn update_callback(self) -> Option<Box<dyn UpdateCallback>> {
        self.update_cb.stored()
    }

    /// Create the application with the given settings and configuration.
    /// The native layer sets up the main monitor, the renderer, and the
    /// renderer's default session along with it.
    ///
    /// Fails with `CreationFailed` exactly when the native layer hands back
    /// null or its address space is exhausted.
    pub fn new(host: &mut NativeHost, settings: &Settings, config: &Config) -> (r: Result<App, Error>)
        ensures
            r is Ok <==> old(host).create_succeeds() && old(host).allocated() + 4 <= usize::MAX as nat,
            r matches Ok(app) ==> {
                &&& app.wf()
                &&& app.addr() != 0
                &&& !old(host).live(app.addr())
                &&& app.update_callback() is None
                &&& final(host).calls() == old(host).calls().push(CallView::CreateApp { addr: app.addr(), settings: settings.addr(), config: config.addr() })
                &&& final(host).obj(app.addr()) matches Some(ObjView::App { settings: sa, config: ca, monitor, renderer, running, update_cb })
                    && sa == settings.addr()
                    && ca == config.addr()
                    && !running
                    && !update_cb
                    && monitor != 0
                    && renderer != 0
                    && monitor != app.addr()
                    && renderer != app.addr()
                    && monitor != renderer
                    && !old(host).live(monitor)
                    && !old(host).live(renderer)
                    && final(host).obj(monitor) == Some(ObjView::Monitor { width: 0, height: 0 })
                    && (final(host).obj(renderer) matches Some(ObjView::Renderer { default_session })
                        && default_session != 0
                        && final(host).obj(default_session) == Some(ObjView::Session { renderer, is_persistent: false, name: Seq::<u8>::empty() })
                        && final(host).objs_same_except4(*old(host), app.addr(), monitor, renderer, default_session))
                &&& final(host).allocated() == old(host).allocated() + 4
            },
            r is Err ==> r == Err::<App, Error>(Error::CreationFailed("Failed to create app instance")),
            r is Err && old(host).allocated() + 4 <= usize::MAX as nat ==> {
                &&& final(host).calls() == old(host).calls().push(CallView::CreateApp { addr: 0, settings: settings.addr(), config: config.addr() })
                &&& final(host).objs_same(*old(host))
                &&& final(host).allocated() == old(host).allocated()
            },
            old(host).allocated() + 4 <= usize::MAX as nat ==> !final(host).create_staged_to_fail(),
            old(host).allocated() + 4 > usize::MAX as nat ==> *final(host) == *old(host),
    {
        if host.slots() > usize::MAX - 4 {
            return Err(Error::CreationFailed("Failed to create app instance"));
        }
        let (app, _mon, _ren, _ses) = host.create_app(settings.raw(), config.raw());
        match Handle::owning(app) {
            Some(handle) => Ok(App { handle, update_cb: CallbackStorage::new() }),
            None => Err(Error::CreationFailed("Failed to create app instance")),
        }
    }

    /// Create the application with default settings and configuration. The
    /// temporary settings and configuration objects are destroyed again once
    /// the application holds them, on the success path and on every failure
    /// path.
    pub fn with_defaults(host: &mut NativeHost) -> (r: Result<App, Error>)
        requires
            old(host).allocated() + 6 <= usize::MAX as nat,
        ensures
            r is Ok <==> old(host).create_succeeds(),
            r matches Ok(app) ==> {
                &&& app.wf()
                &&& app.addr() != 0
                &&& app.update_callback() is None
                &&& final(host).obj(app.addr()) matches Some(ObjView::App { settings: sa, config: ca, monitor, renderer, running, update_cb })
                    && !running
                    && !update_cb
                    && final(host).obj(sa) is None
                    && final(host).obj(ca) is None
                    && final(host).obj(monitor) == Some(ObjView::Monitor { width: 0, height: 0 })
                    && (final(host).obj(renderer) matches Some(ObjView::Renderer { .. }))
                    && final(host).calls() == old(host).calls()
                        .push(CallView::CreateSettings { addr: sa })
                        .push(CallView::CreateConfig { addr: ca })
                        .push(CallView::CreateApp { addr: app.addr(), settings: sa, config: ca })
                        .push(CallView::DestroySettings { addr: sa })
                        .push(CallView::DestroyConfig { addr: ca })
                &&& final(host).allocated() == old(host).allocated() + 6
            },
            r is Err ==> {
                &&& r == Err::<App, Error>(Error::CreationFailed("Failed to create settings"))
                &&& final(host).calls() == old(host).calls().push(CallView::CreateSettings { addr: 0 })
                &&& final(host).objs_same(*old(host))
            },
            !final(host).create_staged_to_fail(),
    {
        let settings = match Settings::new(host) {
            Ok(s) => s,
            Err(e) => {
                return Err(e);
            },
        };
        let config = match Config::new(host) {
            Ok(c) => c,
            Err(_) => {
                settings.destroy(host);
                return Err(Error::CreationFailed("Failed to create config"));
            },
        };
        let app = App::new(host, &settings, &config);
        let r = match app {
            Ok(a) => Ok(a),
            Err(e) => Err(e),
        };
        settings.destroy(host);
        config.destroy(host);
        match r {
            Ok(a) => Ok(a),
            Err(_) => Err(Error::CreationFailed("Failed to create app instance")),
        }
    }

    /// The raw native address, for handing back across the boundary.
    pub fn raw(&self) -> (r: u64)
        ensures
            r == self.addr(),
            r != 0,
    {
        self.handle.raw()
    }

    /// Register `callback` for update events, replacing (and releasing) any
    /// earlier registration, then install the native registration. The slot
    /// afterwards holds exactly the given callback, so a later delivery can
    /// never reach a replaced one.
    pub fn set_update_callback(&mut self, host: &mut NativeHost, callback: Box<dyn UpdateCallback>) -> (r: Result<(), Error>)
        requires
            old(host).obj(old(self).addr()) matches Some(ObjView::App { .. }),
        ensures
            r is Ok,
            final(self).addr() == old(self).addr(),
            final(self).wf() == old(self).wf(),
            final(self).update_callback() is Some,
            final(host).calls() == old(host).calls().push(CallView::AppSetUpdateCallback { addr: old(self).addr(), installed: true }),
            final(host).obj(old(self).addr()) == match old(host).obj(old(self).addr()) {
                Some(ObjView::App { settings, config, monitor, renderer, running, update_cb: _ }) =>
                    Some(ObjView::App { settings, config, monitor, renderer, running, update_cb: true }),
                other => other,
            },
            final(host).objs_same_except(*old(host), old(self).addr()),
            final(host).allocated() == old(host).allocated(),
            final(host).create_staged_to_fail() == old(host).create_staged_to_fail(),
    {
        self.update_cb.set(callback);
        let addr = self.handle.raw();
        host.app_set_update_callback(addr, true);
        Ok(())
    }

    /// Clear the update callback: uninstall the native registration, then
    /// release the stored callback.
    pub fn clear_update_callback(&mut self, host: &mut NativeHost) -> (r: Result<(), Error>)
        requires
            old(host).obj(old(self).addr()) matches Some(ObjView::App { .. }),
        ensures
            r is Ok,
            final(self).addr() == old(self).addr(),
            final(self).wf() == old(self).wf(),
            final(self).update_callback() is None,
            final(host).calls() == old(host).calls().push(CallView::AppSetUpdateCallback { addr: old(self).addr(), installed: false }),
            final(host).obj(old(self).addr()) == match old(host).obj(old(self).addr()) {
                Some(ObjView::App { settings, config, monitor, renderer, running, update_cb: _ }) =>
                    Some(ObjView::App { settings, config, monitor, renderer, running, update_cb: false }),
                other => other,
            },
            final(host).objs_same_except(*old(host), old(self).addr()),
            final(host).allocated() == old(host).allocated(),
            final(host).create_staged_to_fail() == old(host).create_staged_to_fail(),
    {
        let addr = self.handle.raw();
        host.app_set_update_callback(addr, false);
        self.update_cb.clear();
        Ok(())
    }

    /// Deliver a native update tick: the trampoline recovers the registered
    /// callback and invokes it.
    ///
    /// Returns whether a callback was invoked; with no registration the host
    /// is left untouched.
    pub fn raise_update(&self, host: &mut NativeHost) -> (invoked: bool)
        ensures
            invoked == self.update_callback() is Some,
            !invoked ==> *final(host) == *old(host),
    {
        match self.update_cb.get() {
            Some(cb) => {
                cb.on_update(host);
                true
            },
            None => false,
        }
    }

    /// Whether the application's run loop is active.
    pub fn is_running(&self, host: &NativeHost) -> (r: bool)
        requires
            host.obj(self.addr()) matches Some(ObjView::App { .. }),
        ensures
            host.obj(self.addr()) matches Some(ObjView::App { running, .. }) && r == running,
    {
        host.app_is_running(self.handle.raw())
    }

    /// The main monitor, as a borrowed wrapper; fails with `NullReference`
    /// when the native layer has none.
    pub fn main_monitor(&self, host: &NativeHost) -> (r: Result<Monitor, Error>)
        requires
            host.obj(self.addr()) matches Some(ObjView::App { .. }),
        ensures
            host.obj(self.addr()) matches Some(ObjView::App { monitor, .. }) && {
                &&& r is Ok <==> monitor != 0
                &&& r matches Ok(m) ==> m.addr() == monitor && m.wf()
                &&& r is Err ==> r == Err::<Monitor, Error>(Error::NullReference("Failed to get main monitor"))
            },
    {
        let raw = host.app_main_monitor(self.handle.raw());
        match Monitor::from_raw(raw) {
            Some(m) => Ok(m),
            None => Err(Error::NullReference("Failed to get main monitor")),
        }
    }

    /// The underlying renderer, as a borrowed wrapper; fails with
    /// `NullReference` when the native layer has none.
    pub fn renderer(&self, host: &NativeHost) -> (r: Result<Renderer, Error>)
        requires
            host.obj(self.addr()) matches Some(ObjView::App { .. }),
        ensures
            host.obj(self.addr()) matches Some(ObjView::App { renderer, .. }) && {
                &&& r is Ok <==> renderer != 0
                &&& r matches Ok(ren) ==> ren.addr() == renderer && !ren.is_owning()
                &&& r is Err ==> r == Err::<Renderer, Error>(Error::NullReference("Failed to get renderer"))
            },
    {
        let raw = host.app_renderer(self.handle.raw());
        match Renderer::from_raw(raw, false) {
            Some(ren) => Ok(ren),
            None => Err(Error::NullReference("Failed to get renderer")),
        }
    }

    /// Enter the native run loop.
    pub fn run(&self, host: &mut NativeHost)
        requires
            old(host).obj(self.addr()) matches Some(ObjView::App { .. }),
        ensures
            final(host).calls() == old(host).calls().push(CallView::AppRun { addr: self.addr() }),
            final(host).obj(self.addr()) == match old(host).obj(self.addr()) {
                Some(ObjView::App { settings, config, monitor, renderer, running: _, update_cb }) =>
                    Some(ObjView::App { settings, config, monitor, renderer, running: true, update_cb }),
                other => other,
            },
            final(host).objs_same_except(*old(host), self.addr()),
            final(host).allocated() == old(host).allocated(),
            final(host).create_staged_to_fail() == old(host).create_staged_to_fail(),
    {
        host.app_set_running(self.handle.raw(), true);
    }

    /// Quit the application.
    pub fn quit(&self, host: &mut NativeHost)
        requires
            old(host).obj(self.addr()) matches Some(ObjView::App { .. }),
        ensures
            final(host).calls() == old(host).calls().push(CallView::AppQuit { addr: self.addr() }),
            final(host).obj(self.addr()) == match old(host).obj(self.addr()) {
                Some(ObjView::App { settings, config, monitor, renderer, running: _, update_cb }) =>
                    Some(ObjView::App { settings, config, monitor, renderer, running: false, update_cb }),
                other => other,
            },
            final(host).objs_same_except(*old(host), self.addr()),
            final(host).allocated() == old(host).allocated(),
            final(host).create_staged_to_fail() == old(host).create_staged_to_fail(),
    {
        host.app_set_running(self.handle.raw(), false);
    }

    /// Tear down the application: uninstall the native update-callback
    /// registration, release the stored callback, and make exactly one
    /// native destroy call.
    pub fn destroy(self, host: &mut NativeHost)
        requires
            old(host).obj(self.addr()) matches Some(ObjView::App { .. }),
        ensures
            final(host).calls() == old(host).calls()
                .push(CallView::AppSetUpdateCallback { addr: self.addr(), installed: false })
                .push(CallView::DestroyApp { addr: self.addr() }),
            final(host).obj(self.addr()) is None,
            final(host).objs_same_except(*old(host), self.addr()),
            final(host).allocated() == old(host).allocated(),
            final(host).create_staged_to_fail() == old(host).create_staged_to_fail(),
    {
        let addr = self.handle.raw();
        host.app_set_update_callback(addr, false);
        host.destroy_app(addr);
    }
}

} // verus!
