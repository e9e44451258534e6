//! Settings used to customize the application shell's runtime behavior.

use vstd::prelude::*;
use vstd::string::StringSliceAdditionalSpecFns;
use crate::app_core::error::Error;
use crate::handle::Handle;
use crate::native::CallView;
use crate::native::NativeHost;
use crate::native::ObjView;
use crate::native::contains_nul;

verus! {

/// The state a freshly created native settings object starts in.
pub open spec fn settings_defaults() -> ObjView {
    ObjView::Settings {
        developer_name: Seq::<u8>::empty(),
        app_name: Seq::<u8>::empty(),
        file_system_path: Seq::<u8>::empty(),
        load_shaders: false,
        force_cpu: false,
    }
}

/// An owning wrapper around one native settings object.
pub struct Settings {
    handle: Handle,
}

impl Settings {
    /// The native address this wrapper owns.
    pub closed spec fn addr(self) -> u64 {
        self.handle.raw_addr()
    }

    /// A settings wrapper always owns its native object.
    pub closed spec fn wf(self) -> bool {
        self.handle.is_owning()
    }

    /// Create a new settings object with default values.
    ///
    /// Fails with `CreationFailed` exactly when the native layer hands back
    /// null instead of a fresh object.
    pub fn new(host: &mut NativeHost) -> (r: Result<Settings, Error>)
        ensures
            r is Ok <==> old(host).create_succeeds(),
            r matches Ok(s) ==> {
                &&& s.wf()
                &&& s.addr() != 0
                &&& !old(host).live(s.addr())
                &&& final(host).obj(s.addr()) == Some(settings_defaults())
                &&& final(host).calls() == old(host).calls().push(CallView::CreateSettings { addr: s.addr() })
                &&& final(host).objs_same_except(*old(host), s.addr())
                &&& final(host).allocated() == old(host).allocated() + 1
            },
            r is Err ==> {
                &&& r == Err::<Settings, Error>(Error::CreationFailed("Failed to create settings"))
                &&& final(host).calls() == old(host).calls().push(CallView::CreateSettings { addr: 0 })
                &&& final(host).objs_same(*old(host))
                &&& final(host).allocated() == old(host).allocated()
            },
            !final(host).create_staged_to_fail(),
    {
        let raw = host.create_settings();
        match Handle::owning(raw) {
            Some(handle) => Ok(Settings { handle }),
            None => Err(Error::CreationFailed("Failed to create settings")),
        }
    }

    /// The raw native address, for handing back across the boundary.
    pub fn raw(&self) -> (r: u64)
        ensures
            r == self.addr(),
            r != 0,
    {
        self.handle.raw()
    }

    /// Set the developer name recorded in the native settings.
    pub fn set_developer_name(&mut self, host: &mut NativeHost, name: &str) -> (r: Result<(), Error>)
        requires
            old(host).obj(old(self).addr()) matches Some(ObjView::Settings { .. }),
        ensures
            *final(self) == *old(self),
            r is Ok <==> !name.spec_bytes().contains(0u8),
            r matches Err(e) ==> e == Error::InvalidArgument("Name contains null bytes") && *final(host) == *old(host),
            r is Ok ==> final(host).calls() == old(host).calls().push(CallView::SettingsSetDeveloperName {
                addr: old(self).addr(),
                name: name.spec_bytes(),
            }),
            r is Ok ==> final(host).obj(old(self).addr()) == match old(host).obj(old(self).addr()) {
                Some(ObjView::Settings { developer_name: _, app_name, file_system_path, load_shaders, force_cpu }) =>
                    Some(ObjView::Settings { developer_name: name.spec_bytes(), app_name, file_system_path, load_shaders, force_cpu }),
                other => other,
            },
            final(host).objs_same_except(*old(host), old(self).addr()),
            final(host).allocated() == old(host).allocated(),
            final(host).create_staged_to_fail() == old(host).create_staged_to_fail(),
    {
        let bytes = name.as_bytes();
        if contains_nul(bytes) {
            return Err(Error::InvalidArgument("Name contains null bytes"));
        }
        let addr = self.handle.raw();
        host.settings_set_developer_name(addr, bytes);
        Ok(())
    }

    /// Set the application name recorded in the native settings.
    pub fn set_app_name(&mut self, host: &mut NativeHost, name: &str) -> (r: Result<(), Error>)
        requires
            old(host).obj(old(self).addr()) matches Some(ObjView::Settings { .. }),
        ensures
            *final(self) == *old(self),
            r is Ok <==> !name.spec_bytes().contains(0u8),
            r matches Err(e) ==> e == Error::InvalidArgument("Name contains null bytes") && *final(host) == *old(host),
            r is Ok ==> final(host).calls() == old(host).calls().push(CallView::SettingsSetAppName {
                addr: old(self).addr(),
                name: name.spec_bytes(),
            }),
            r is Ok ==> final(host).obj(old(self).addr()) == match old(host).obj(old(self).addr()) {
                Some(ObjView::Settings { developer_name, app_name: _, file_system_path, load_shaders, force_cpu }) =>
                    Some(ObjView::Settings { developer_name, app_name: name.spec_bytes(), file_system_path, load_shaders, force_cpu }),
                other => other,
            },
            final(host).objs_same_except(*old(host), old(self).addr()),
            final(host).allocated() == old(host).allocated(),
            final(host).create_staged_to_fail() == old(host).create_staged_to_fail(),
    {
        let bytes = name.as_bytes();
        if contains_nul(bytes) {
            return Err(Error::InvalidArgument("Name contains null bytes"));
        }
        let addr = self.handle.raw();
        host.settings_set_app_name(addr, bytes);
        Ok(())
    }

    /// Set the root path used to resolve file URLs.
    pub fn set_file_system_path(&mut self, host: &mut NativeHost, path: &str) -> (r: Result<(), Error>)
        requires
            old(host).obj(old(self).addr()) matches Some(ObjView::Settings { .. }),
        ensures
            *final(self) == *old(self),
            r is Ok <==> !path.spec_bytes().contains(0u8),
            r matches Err(e) ==> e == Error::InvalidArgument("Path contains null bytes") && *final(host) == *old(host),
            r is Ok ==> final(host).calls() == old(host).calls().push(CallView::SettingsSetFileSystemPath {
                addr: old(self).addr(),
                path: path.spec_bytes(),
            }),
            r is Ok ==> final(host).obj(old(self).addr()) == match old(host).obj(old(self).addr()) {
                Some(ObjView::Settings { developer_name, app_name, file_system_path: _, load_shaders, force_cpu }) =>
                    Some(ObjView::Settings { developer_name, app_name, file_system_path: path.spec_bytes(), load_shaders, force_cpu }),
                other => other,
            },
            final(host).objs_same_except(*old(host), old(self).addr()),
            final(host).allocated() == old(host).allocated(),
            final(host).create_staged_to_fail() == old(host).create_staged_to_fail(),
    {
        let bytes = path.as_bytes();
        if contains_nul(bytes) {
            return Err(Error::InvalidArgument("Path contains null bytes"));
        }
        let addr = self.handle.raw();
        host.settings_set_file_system_path(addr, bytes);
        Ok(())
    }

    /// Choose whether shaders are loaded from the file system.
    pub fn set_load_shaders_from_file_system(&mut self, host: &mut NativeHost, enabled: bool)
        requires
            old(host).obj(old(self).addr()) matches Some(ObjView::Settings { .. }),
        ensures
            *final(self) == *old(self),
            final(host).calls() == old(host).calls().push(CallView::SettingsSetLoadShadersFromFileSystem {
                addr: old(self).addr(),
                enabled,
            }),
            final(host).obj(old(self).addr()) == match old(host).obj(old(self).addr()) {
                Some(ObjView::Settings { developer_name, app_name, file_system_path, load_shaders: _, force_cpu }) =>
                    Some(ObjView::Settings { developer_name, app_name, file_system_path, load_shaders: enabled, force_cpu }),
                other => other,
            },
            final(host).objs_same_except(*old(host), old(self).addr()),
            final(host).allocated() == old(host).allocated(),
            final(host).create_staged_to_fail() == old(host).create_staged_to_fail(),
    {
        let addr = self.handle.raw();
        host.settings_set_load_shaders(addr, enabled);
    }

    /// Force the native layer to always use the CPU renderer.
    pub fn set_force_cpu_renderer(&mut self, host: &mut NativeHost, force_cpu: bool)
        requires
            old(host).obj(old(self).addr()) matches Some(ObjView::Settings { .. }),
        ensures
            *final(self) == *old(self),
            final(host).calls() == old(host).calls().push(CallView::SettingsSetForceCPURenderer {
                addr: old(self).addr(),
                force_cpu,
            }),
            final(host).obj(old(self).addr()) == match old(host).obj(old(self).addr()) {
                Some(ObjView::Settings { developer_name, app_name, file_system_path, load_shaders, force_cpu: _ }) =>
                    Some(ObjView::Settings { developer_name, app_name, file_system_path, load_shaders, force_cpu }),
                other => other,
            },
            final(host).objs_same_except(*old(host), old(self).addr()),
            final(host).allocated() == old(host).allocated(),
            final(host).create_staged_to_fail() == old(host).create_staged_to_fail(),
    {
        let addr = self.handle.raw();
        host.settings_set_force_cpu(addr, force_cpu);
    }

    /// Destroy the native settings object.
    ///
    /// Consuming the wrapper guarantees exactly one destroy call per owning
    /// handle, and none after it.
    pub fn destroy(self, host: &mut NativeHost)
        ensures
            final(host).calls() == old(host).calls().push(CallView::DestroySettings { addr: self.addr() }),
            final(host).obj(self.addr()) is None,
            final(host).objs_same_except(*old(host), self.addr()),
            final(host).allocated() == old(host).allocated(),
            final(host).create_staged_to_fail() == old(host).create_staged_to_fail(),
    {
        let addr = self.handle.raw();
        host.destroy_settings(addr);
    }
}

} // verus!


