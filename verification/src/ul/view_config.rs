//! Per-view configuration objects.

use vstd::prelude::*;
use vstd::string::StringSliceAdditionalSpecFns;
use crate::handle::Handle;
use crate::native::CallView;
use crate::native::NativeCall;
use crate::native::NativeHost;
use crate::native::ObjState;
use crate::native::ObjView;
use crate::native::contains_nul;
use crate::ul::error::Error;

verus! {

/// An owning wrapper around one native view configuration.
pub struct ViewConfig {
    handle: Handle,
}

impl ViewConfig {
    /// The native address this wrapper owns.
    pub closed spec fn addr(self) -> u64 {
        self.handle.raw_addr()
    }

    /// Create a view configuration with default values.
    pub fn new(host: &mut NativeHost) -> (r: Result<ViewConfig, Error>)
        ensures
            r is Ok <==> old(host).create_succeeds(),
            r matches Ok(c) ==> {
                &&& c.addr() != 0
                &&& !old(host).live(c.addr())
                &&& final(host).obj(c.addr()) == Some(NativeHost::view_config_defaults())
                &&& final(host).calls() == old(host).calls().push(CallView::CreateViewConfig { addr: c.addr() })
                &&& final(host).objs_same_except(*old(host), c.addr())
                &&& final(host).allocated() == old(host).allocated() + 1
            },
            r is Err ==> {
                &&& r == Err::<ViewConfig, Error>(Error::CreationFailed("Failed to create view config"))
                &&& final(host).calls() == old(host).calls().push(CallView::CreateViewConfig { addr: 0 })
                &&& final(host).objs_same(*old(host))
            },
    {
        let raw = host.create_view_config();
        match Handle::owning(raw) {
            Some(handle) => Ok(ViewConfig { handle }),
            None => Err(Error::CreationFailed("Failed to create view config")),
        }
    }

    /// The raw native address, for handing back across the boundary.
    pub fn raw(&self) -> (r: u64)
        ensures
            r == self.addr(),
            r != 0,
    {
        self.handle.raw()
    }

    /// Set the display the view belongs to.
    pub fn set_display_id(&mut self, host: &mut NativeHost, display_id: u32)
        requires
            old(host).obj(old(self).addr()) matches Some(ObjView::ViewConfig { .. }),
        ensures
            *final(self) == *old(self),
            final(host).calls() == old(host).calls().push(CallView::ViewConfigSetDisplayId { addr: old(self).addr(), display_id }),
            final(host).obj(old(self).addr()) == match old(host).obj(old(self).addr()) {
                Some(ObjView::ViewConfig { display_id: _, is_accelerated, is_transparent, initial_focus, enable_images, enable_javascript, user_agent }) =>
                    Some(ObjView::ViewConfig { display_id, is_accelerated, is_transparent, initial_focus, enable_images, enable_javascript, user_agent }),
                other => other,
            },
            final(host).objs_same_except(*old(host), old(self).addr()),
    {
        let addr = self.handle.raw();
        let s = host.view_config_state(addr);
        host.view_config_set(addr, ObjState::ViewConfig {
            display_id,
            is_accelerated: s.1,
            is_transparent: s.2,
            initial_focus: s.3,
            enable_images: s.4,
            enable_javascript: s.5,
            user_agent: s.6,
        }, NativeCall::ViewConfigSetDisplayId { addr, display_id });
    }

    /// Choose GPU or CPU rendering for the view.
    pub fn set_is_accelerated(&mut self, host: &mut NativeHost, is_accelerated: bool)
        requires
            old(host).obj(old(self).addr()) matches Some(ObjView::ViewConfig { .. }),
        ensures
            *final(self) == *old(self),
            final(host).calls() == old(host).calls().push(CallView::ViewConfigSetIsAccelerated { addr: old(self).addr(), is_accelerated }),
            final(host).obj(old(self).addr()) == match old(host).obj(old(self).addr()) {
                Some(ObjView::ViewConfig { display_id, is_accelerated: _, is_transparent, initial_focus, enable_images, enable_javascript, user_agent }) =>
                    Some(ObjView::ViewConfig { display_id, is_accelerated, is_transparent, initial_focus, enable_images, enable_javascript, user_agent }),
                other => other,
            },
            final(host).objs_same_except(*old(host), old(self).addr()),
    {
        let addr = self.handle.raw();
        let s = host.view_config_state(addr);
        host.view_config_set(addr, ObjState::ViewConfig {
            display_id: s.0,
            is_accelerated,
            is_transparent: s.2,
            initial_focus: s.3,
            enable_images: s.4,
            enable_javascript: s.5,
            user_agent: s.6,
        }, NativeCall::ViewConfigSetIsAccelerated { addr, is_accelerated });
    }

    /// Choose whether the view's background is transparent.
    pub fn set_is_transparent(&mut self, host: &mut NativeHost, is_transparent: bool)
        requires
            old(host).obj(old(self).addr()) matches Some(ObjView::ViewConfig { .. }),
        ensures
            *final(self) == *old(self),
            final(host).calls() == old(host).calls().push(CallView::ViewConfigSetIsTransparent { addr: old(self).addr(), is_transparent }),
            final(host).obj(old(self).addr()) == match old(host).obj(old(self).addr()) {
                Some(ObjView::ViewConfig { display_id, is_accelerated, is_transparent: _, initial_focus, enable_images, enable_javascript, user_agent }) =>
                    Some(ObjView::ViewConfig { display_id, is_accelerated, is_transparent, initial_focus, enable_images, enable_javascript, user_agent }),
                other => other,
            },
            final(host).objs_same_except(*old(host), old(self).addr()),
    {
        let addr = self.handle.raw();
        let s = host.view_config_state(addr);
        host.view_config_set(addr, ObjState::ViewConfig {
            display_id: s.0,
            is_accelerated: s.1,
            is_transparent,
            initial_focus: s.3,
            enable_images: s.4,
            enable_javascript: s.5,
            user_agent: s.6,
        }, NativeCall::ViewConfigSetIsTransparent { addr, is_transparent });
    }

    /// Choose whether the view starts focused.
    pub fn set_initial_focus(&mut self, host: &mut NativeHost, has_focus: bool)
        requires
            old(host).obj(old(self).addr()) matches Some(ObjView::ViewConfig { .. }),
        ensures
            *final(self) == *old(self),
            final(host).calls() == old(host).calls().push(CallView::ViewConfigSetInitialFocus { addr: old(self).addr(), has_focus }),
            final(host).obj(old(self).addr()) == match old(host).obj(old(self).addr()) {
                Some(ObjView::ViewConfig { display_id, is_accelerated, is_transparent, initial_focus: _, enable_images, enable_javascript, user_agent }) =>
                    Some(ObjView::ViewConfig { display_id, is_accelerated, is_transparent, initial_focus: has_focus, enable_images, enable_javascript, user_agent }),
                other => other,
            },
            final(host).objs_same_except(*old(host), old(self).addr()),
    {
        let addr = self.handle.raw();
        let s = host.view_config_state(addr);
        host.view_config_set(addr, ObjState::ViewConfig {
            display_id: s.0,
            is_accelerated: s.1,
            is_transparent: s.2,
            initial_focus: has_focus,
            enable_images: s.4,
            enable_javascript: s.5,
            user_agent: s.6,
        }, NativeCall::ViewConfigSetInitialFocus { addr, has_focus });
    }

    /// Choose whether images load.
    pub fn set_enable_images(&mut self, host: &mut NativeHost, enabled: bool)
        requires
            old(host).obj(old(self).addr()) matches Some(ObjView::ViewConfig { .. }),
        ensures
            *final(self) == *old(self),
            final(host).calls() == old(host).calls().push(CallView::ViewConfigSetEnableImages { addr: old(self).addr(), enabled }),
            final(host).obj(old(self).addr()) == match old(host).obj(old(self).addr()) {
                Some(ObjView::ViewConfig { display_id, is_accelerated, is_transparent, initial_focus, enable_images: _, enable_javascript, user_agent }) =>
                    Some(ObjView::ViewConfig { display_id, is_accelerated, is_transparent, initial_focus, enable_images: enabled, enable_javascript, user_agent }),
                other => other,
            },
            final(host).objs_same_except(*old(host), old(self).addr()),
    {
        let addr = self.handle.raw();
        let s = host.view_config_state(addr);
        host.view_config_set(addr, ObjState::ViewConfig {
            display_id: s.0,
            is_accelerated: s.1,
            is_transparent: s.2,
            initial_focus: s.3,
            enable_images: enabled,
            enable_javascript: s.5,
            user_agent: s.6,
        }, NativeCall::ViewConfigSetEnableImages { addr, enabled });
    }

    /// Choose whether JavaScript runs.
    pub fn set_enable_javascript(&mut self, host: &mut NativeHost, enabled: bool)
        requires
            old(host).obj(old(self).addr()) matches Some(ObjView::ViewConfig { .. }),
        ensures
            *final(self) == *old(self),
            final(host).calls() == old(host).calls().push(CallView::ViewConfigSetEnableJavaScript { addr: old(self).addr(), enabled }),
            final(host).obj(old(self).addr()) == match old(host).obj(old(self).addr()) {
                Some(ObjView::ViewConfig { display_id, is_accelerated, is_transparent, initial_focus, enable_images, enable_javascript: _, user_agent }) =>
                    Some(ObjView::ViewConfig { display_id, is_accelerated, is_transparent, initial_focus, enable_images, enable_javascript: enabled, user_agent }),
                other => other,
            },
            final(host).objs_same_except(*old(host), old(self).addr()),
    {
        let addr = self.handle.raw();
        let s = host.view_config_state(addr);
        host.view_config_set(addr, ObjState::ViewConfig {
            display_id: s.0,
            is_accelerated: s.1,
            is_transparent: s.2,
            initial_focus: s.3,
            enable_images: s.4,
            enable_javascript: enabled,
            user_agent: s.6,
        }, NativeCall::ViewConfigSetEnableJavaScript { addr, enabled });
    }

    /// Set the user-agent string; rejected with `InvalidArgument` when it
    /// holds an embedded NUL byte.
    pub fn set_user_agent(&mut self, host: &mut NativeHost, agent: &str) -> (r: Result<(), Error>)
        requires
            old(host).obj(old(self).addr()) matches Some(ObjView::ViewConfig { .. }),
        ensures
            *final(self) == *old(self),
            r is Ok <==> !agent.spec_bytes().contains(0u8),
            r is Ok ==> {
                &&& final(host).calls() == old(host).calls().push(CallView::ViewConfigSetUserAgent { addr: old(self).addr(), agent: agent.spec_bytes() })
                &&& final(host).obj(old(self).addr()) == match old(host).obj(old(self).addr()) {
                    Some(ObjView::ViewConfig { display_id, is_accelerated, is_transparent, initial_focus, enable_images, enable_javascript, user_agent: _ }) =>
                        Some(ObjView::ViewConfig { display_id, is_accelerated, is_transparent, initial_focus, enable_images, enable_javascript, user_agent: agent.spec_bytes() }),
                    other => other,
                }
                &&& final(host).objs_same_except(*old(host), old(self).addr())
            },
            r is Err ==> r == Err::<(), Error>(Error::InvalidArgument("User agent contains null bytes")) && *final(host) == *old(host),
    {
        let bytes = agent.as_bytes();
        if contains_nul(bytes) {
            return Err(Error::InvalidArgument("User agent contains null bytes"));
        }
        let addr = self.handle.raw();
        let s = host.view_config_state(addr);
        host.view_config_set(addr, ObjState::ViewConfig {
            display_id: s.0,
            is_accelerated: s.1,
            is_transparent: s.2,
            initial_focus: s.3,
            enable_images: s.4,
            enable_javascript: s.5,
            user_agent: vstd::slice::slice_to_vec(bytes),
        }, NativeCall::ViewConfigSetUserAgent { addr, agent: vstd::slice::slice_to_vec(bytes) });
        Ok(())
    }

    /// Destroy the native view configuration; exactly one destroy call.
    pub fn destroy(self, host: &mut NativeHost)
        ensures
            final(host).calls() == old(host).calls().push(CallView::DestroyViewConfig { addr: self.addr() }),
            final(host).obj(self.addr()) is None,
            final(host).objs_same_except(*old(host), self.addr()),
            final(host).allocated() == old(host).allocated(),
    {
        host.destroy_view_config(self.handle.raw());
    }
}

} // verus!
