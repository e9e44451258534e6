//! Platform-wide configuration calls.

use vstd::prelude::*;
use vstd::string::StringSliceAdditionalSpecFns;
use crate::native::CallView;
use crate::native::NativeCall;
use crate::native::NativeHost;
use crate::native::contains_nul;
use crate::ul::error::Error;

verus! {

/// Entry points configuring the native platform before any renderer or
/// application exists.
pub struct Platform;

impl Platform {
    /// Use the platform's font loader.
    pub fn enable_platform_font_loader(host: &mut NativeHost)
        ensures
            final(host).calls() == old(host).calls().push(CallView::EnablePlatformFontLoader),
            final(host).objs_same(*old(host)),
    {
        host.log_command(NativeCall::EnablePlatformFontLoader);
    }

    /// Use the platform's file system rooted at `base_dir`; a path with an
    /// embedded NUL byte is rejected with `InvalidArgument` before any
    /// native call.
    pub fn enable_platform_file_system(host: &mut NativeHost, base_dir: &str) -> (r: Result<(), Error>)
        ensures
            r is Ok <==> !base_dir.spec_bytes().contains(0u8),
            r is Ok ==> {
                &&& final(host).calls() == old(host).calls().push(CallView::EnablePlatformFileSystem { base_dir: base_dir.spec_bytes() })
                &&& final(host).objs_same(*old(host))
            },
            r is Err ==> r == Err::<(), Error>(Error::InvalidArgument("Path contains null bytes")) && *final(host) == *old(host),
    {
        let bytes = base_dir.as_bytes();
        if contains_nul(bytes) {
            return Err(Error::InvalidArgument("Path contains null bytes"));
        }
        host.log_command(NativeCall::EnablePlatformFileSystem { base_dir: vstd::slice::slice_to_vec(bytes) });
        Ok(())
    }

    /// Log to a file at `log_path`; a path with an embedded NUL byte is
    /// rejected with `InvalidArgument` before any native call.
    pub fn enable_default_logger(host: &mut NativeHost, log_path: &str) -> (r: Result<(), Error>)
        ensures
            r is Ok <==> !log_path.spec_bytes().contains(0u8),
            r is Ok ==> {
                &&& final(host).calls() == old(host).calls().push(CallView::EnableDefaultLogger { log_path: log_path.spec_bytes() })
                &&& final(host).objs_same(*old(host))
            },
            r is Err ==> r == Err::<(), Error>(Error::InvalidArgument("Path contains null bytes")) && *final(host) == *old(host),
    {
        let bytes = log_path.as_bytes();
        if contains_nul(bytes) {
            return Err(Error::InvalidArgument("Path contains null bytes"));
        }
        host.log_command(NativeCall::EnableDefaultLogger { log_path: vstd::slice::slice_to_vec(bytes) });
        Ok(())
    }
}

} // verus!
