//! Script-engine strings, reference counted by the engine.

use vstd::prelude::*;
use vstd::string::StringSliceAdditionalSpecFns;
use crate::handle::Handle;
use crate::native::CallView;
use crate::native::NativeHost;
use crate::native::ObjView;
use crate::native::contains_nul;
use crate::javascript_core::exception::Error;

verus! {

/// An owning wrapper around one script-engine string, holding one
/// reference; releasing the last reference tears the string down.
pub struct String {
    handle: Handle,
}

impl String {
    /// The native address of this string.
    pub closed spec fn addr(self) -> u64 {
        self.handle.raw_addr()
    }

    /// Create a script string from UTF-8 text; text with an embedded NUL
    /// byte is rejected with `InvalidParameter` before any native call.
    pub fn new(host: &mut NativeHost, s: &str) -> (r: Result<String, Error>)
        ensures
            r is Ok <==> !s.spec_bytes().contains(0u8) && old(host).create_succeeds(),
            r matches Ok(js) ==> {
                &&& js.addr() != 0
                &&& !old(host).live(js.addr())
                &&& final(host).obj(js.addr()) == Some(ObjView::JsString { bytes: s.spec_bytes(), refcount: 1 })
                &&& final(host).calls() == old(host).calls().push(CallView::JsStringCreate { addr: js.addr() })
                &&& final(host).objs_same_except(*old(host), js.addr())
                &&& final(host).allocated() == old(host).allocated() + 1
            },
            s.spec_bytes().contains(0u8) ==> {
                &&& r == Err::<String, Error>(Error::InvalidParameter("String contains null bytes"))
                &&& *final(host) == *old(host)
            },
    {
        let bytes = s.as_bytes();
        if contains_nul(bytes) {
            return Err(Error::InvalidParameter("String contains null bytes"));
        }
        String::from_utf8_buffer(host, bytes)
    }

    /// Create a script string from a raw UTF-8 buffer, an explicit length,
    /// embedded NUL bytes included.
    pub fn from_utf8_buffer(host: &mut NativeHost, buffer: &[u8]) -> (r: Result<String, Error>)
        ensures
            r is Ok <==> old(host).create_succeeds(),
            r matches Ok(js) ==> {
                &&& js.addr() != 0
                &&& !old(host).live(js.addr())
                &&& final(host).obj(js.addr()) == Some(ObjView::JsString { bytes: buffer@, refcount: 1 })
                &&& final(host).calls() == old(host).calls().push(CallView::JsStringCreate { addr: js.addr() })
                &&& final(host).objs_same_except(*old(host), js.addr())
                &&& final(host).allocated() == old(host).allocated() + 1
            },
            r is Err ==> {
                &&& r matches Err(Error::JSError(_))
                &&& final(host).objs_same(*old(host))
            },
    {
        let raw = host.create_js_string(buffer);
        match String::from_raw(raw) {
            Some(js) => Ok(js),
            None => Err(Error::JSError(vstd::slice::slice_to_vec("Failed to create string".as_bytes()))),
        }
    }

    /// Wrap a raw string address, taking over its reference; fails on null.
    pub fn from_raw(raw: u64) -> (r: Option<String>)
        ensures
            r is Some <==> raw != 0,
            r matches Some(js) ==> js.addr() == raw,
    {
        match Handle::owning(raw) {
            Some(handle) => Some(String { handle }),
            None => None,
        }
    }

    /// The raw native address, for handing back across the boundary.
    pub fn as_raw(&self) -> (r: u64)
        ensures
            r == self.addr(),
            r != 0,
    {
        self.handle.raw()
    }

    /// The string's length in bytes.
    pub fn len(&self, host: &NativeHost) -> (r: usize)
        requires
            host.obj(self.addr()) matches Some(ObjView::JsString { .. }),
        ensures
            host.obj(self.addr()) matches Some(ObjView::JsString { bytes, .. }) && r == bytes.len(),
    {
        let b = host.js_string_bytes(self.handle.raw());
        b.len()
    }

    /// Whether the string is empty.
    pub fn is_empty(&self, host: &NativeHost) -> (r: bool)
        requires
            host.obj(self.addr()) matches Some(ObjView::JsString { .. }),
        ensures
            host.obj(self.addr()) matches Some(ObjView::JsString { bytes, .. }) && r == (bytes.len() == 0),
    {
        self.len(host) == 0
    }

    /// The string's UTF-8 contents, read back from the engine.
    pub fn to_bytes(&self, host: &NativeHost) -> (r: Vec<u8>)
        requires
            host.obj(self.addr()) matches Some(ObjView::JsString { .. }),
        ensures
            host.obj(self.addr()) matches Some(ObjView::JsString { bytes, .. }) && r@ == bytes,
    {
        host.js_string_bytes(self.handle.raw())
    }

    /// Take one more reference on the string: exactly one native retain
    /// call, handing back a second owning wrapper.
    pub fn retain(&self, host: &mut NativeHost) -> (r: String)
        requires
            old(host).obj(self.addr()) matches Some(ObjView::JsString { refcount, .. }) && refcount < u32::MAX,
        ensures
            r.addr() == self.addr(),
            final(host).calls() == old(host).calls().push(CallView::JsStringRetain { addr: self.addr() }),
            final(host).obj(self.addr()) == match old(host).obj(self.addr()) {
                Some(ObjView::JsString { bytes, refcount }) => Some(ObjView::JsString { bytes, refcount: (refcount + 1) as u32 }),
                other => other,
            },
            final(host).objs_same_except(*old(host), self.addr()),
    {
        host.js_string_retain(self.handle.raw());
        String { handle: self.handle }
    }

    /// Release this wrapper's reference: exactly one native release call;
    /// the string is torn down when it was the last reference.
    pub fn release(self, host: &mut NativeHost)
        requires
            old(host).obj(self.addr()) matches Some(ObjView::JsString { refcount, .. }) && refcount >= 1,
        ensures
            final(host).calls() == old(host).calls().push(CallView::JsStringRelease { addr: self.addr() }),
            final(host).obj(self.addr()) == match old(host).obj(self.addr()) {
                Some(ObjView::JsString { bytes, refcount }) => if refcount == 1 {
                    None
                } else {
                    Some(ObjView::JsString { bytes, refcount: (refcount - 1) as u32 })
                },
                other => other,
            },
            final(host).objs_same_except(*old(host), self.addr()),
            final(host).allocated() == old(host).allocated(),
    {
        host.js_string_release(self.handle.raw());
    }
}

} // verus!
