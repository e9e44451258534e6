//! Renderer configuration objects.

use vstd::prelude::*;
use vstd::string::StringSliceAdditionalSpecFns;
use crate::handle::Handle;
use crate::native::CallView;
use crate::native::NativeHost;
use crate::native::ObjView;
use crate::native::contains_nul;
use crate::ul::error::Error;

verus! {

/// An owning wrapper around one native renderer configuration.
pub struct Config {
    handle: Handle,
}

impl Config {
    /// The native address this wrapper owns.
    pub closed spec fn addr(self) -> u64 {
        self.handle.raw_addr()
    }

    /// A config wrapper always owns its native object.
    pub closed spec fn wf(self) -> bool {
        self.handle.is_owning()
    }

    /// Create a new configuration with default values.
    ///
    /// Fails with `CreationFailed` exactly when the native layer hands back
    /// null.
    pub fn new(host: &mut NativeHost) -> (r: Result<Config, Error>)
        ensures
            r is Ok <==> old(host).create_succeeds(),
            r matches Ok(c) ==> {
                &&& c.wf()
                &&& c.addr() != 0
                &&& !old(host).live(c.addr())
                &&& final(host).obj(c.addr()) == Some(ObjView::Config { cache_path: Seq::<u8>::empty(), user_stylesheet: Seq::<u8>::empty() })
                &&& final(host).calls() == old(host).calls().push(CallView::CreateConfig { addr: c.addr() })
                &&& final(host).objs_same_except(*old(host), c.addr())
                &&& final(host).allocated() == old(host).allocated() + 1
            },
            r is Err ==> {
                &&& r == Err::<Config, Error>(Error::CreationFailed("Failed to create config"))
                &&& final(host).calls() == old(host).calls().push(CallView::CreateConfig { addr: 0 })
                &&& final(host).objs_same(*old(host))
                &&& final(host).allocated() == old(host).allocated()
            },
            !final(host).create_staged_to_fail(),
    {
        let raw = host.create_config();
        match Handle::owning(raw) {
            Some(handle) => Ok(Config { handle }),
            None => Err(Error::CreationFailed("Failed to create config")),
        }
    }

    /// The raw native address, for handing back across the boundary.
    pub fn raw(&self) -> (r: u64)
        ensures
            r == self.addr(),
            r != 0,
    {
        self.handle.raw()
    }

    /// Set the cache path for persistent session data.
    ///
    /// A path with an embedded NUL byte cannot cross the C boundary; it is
    /// rejected with `InvalidArgument` before any native call.
    pub fn set_cache_path(&mut self, host: &mut NativeHost, path: &str) -> (r: Result<(), Error>)
        requires
            old(host).obj(old(self).addr()) matches Some(ObjView::Config { .. }),
        ensures
            *final(self) == *old(self),
            r is Ok <==> !path.spec_bytes().contains(0u8),
            r matches Err(e) ==> e == Error::InvalidArgument("Path contains null bytes"),
            r is Ok ==> {
                &&& final(host).calls() == old(host).calls().push(CallView::ConfigSetCachePath { addr: old(self).addr(), path: path.spec_bytes() })
                &&& final(host).obj(old(self).addr()) == match old(host).obj(old(self).addr()) {
                    Some(ObjView::Config { cache_path: _, user_stylesheet }) => Some(ObjView::Config { cache_path: path.spec_bytes(), user_stylesheet }),
                    other => other,
                }
                &&& final(host).objs_same_except(*old(host), old(self).addr())
            },
            r is Err ==> *final(host) == *old(host),
            final(host).allocated() == old(host).allocated(),
            final(host).create_staged_to_fail() == old(host).create_staged_to_fail(),
    {
        let bytes = path.as_bytes();
        if contains_nul(bytes) {
            return Err(Error::InvalidArgument("Path contains null bytes"));
        }
        host.config_set_cache_path(self.handle.raw(), bytes);
        Ok(())
    }

    /// Set the global user-defined CSS.
    ///
    /// A stylesheet with an embedded NUL byte cannot cross the C boundary;
    /// it is rejected with `InvalidArgument` before any native call.
    pub fn set_user_stylesheet(&mut self, host: &mut NativeHost, css: &str) -> (r: Result<(), Error>)
        requires
            old(host).obj(old(self).addr()) matches Some(ObjView::Config { .. }),
        ensures
            *final(self) == *old(self),
            r is Ok <==> !css.spec_bytes().contains(0u8),
            r matches Err(e) ==> e == Error::InvalidArgument("Stylesheet contains null bytes"),
            r is Ok ==> {
                &&& final(host).calls() == old(host).calls().push(CallView::ConfigSetUserStylesheet { addr: old(self).addr(), css: css.spec_bytes() })
                &&& final(host).obj(old(self).addr()) == match old(host).obj(old(self).addr()) {
                    Some(ObjView::Config { cache_path, user_stylesheet: _ }) => Some(ObjView::Config { cache_path, user_stylesheet: css.spec_bytes() }),
                    other => other,
                }
                &&& final(host).objs_same_except(*old(host), old(self).addr())
            },
            r is Err ==> *final(host) == *old(host),
            final(host).allocated() == old(host).allocated(),
            final(host).create_staged_to_fail() == old(host).create_staged_to_fail(),
    {
        let bytes = css.as_bytes();
        if contains_nul(bytes) {
            return Err(Error::InvalidArgument("Stylesheet contains null bytes"));
        }
        host.config_set_user_stylesheet(self.handle.raw(), bytes);
        Ok(())
    }

    /// Destroy the native configuration; exactly one destroy call.
    pub fn destroy(self, host: &mut NativeHost)
        ensures
            final(host).calls() == old(host).calls().push(CallView::DestroyConfig { addr: self.addr() }),
            final(host).obj(self.addr()) is None,
            final(host).objs_same_except(*old(host), self.addr()),
            final(host).allocated() == old(host).allocated(),
            final(host).create_staged_to_fail() == old(host).create_staged_to_fail(),
    {
        host.destroy_config(self.handle.raw());
    }
}

} // verus!
