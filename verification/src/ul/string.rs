//! The string bridge: UTF-8 text crossing into and out of native strings.

use vstd::prelude::*;
use vstd::string::StringSliceAdditionalSpecFns;
use crate::handle::Handle;
use crate::native::CallView;
use crate::native::NativeHost;
use crate::native::ObjView;
use crate::native::contains_nul;
use crate::ul::error::Error;

verus! {

/// A wrapper around one native string. Owned strings are destroyed exactly
/// once; borrowed ones (handed over by a callback or an accessor) never
/// trigger a destroy call.
pub struct String {
    handle: Handle,
    owned: bool,
}

impl String {
    /// The native address of this string.
    pub closed spec fn addr(self) -> u64 {
        self.handle.raw_addr()
    }

    /// Whether this wrapper owns the native string.
    pub closed spec fn spec_owned(self) -> bool {
        self.owned
    }

    /// Wrap a raw string address; fails on null.
    pub fn from_raw(raw: u64, owned: bool) -> (r: Option<String>)
        ensures
            r is Some <==> raw != 0,
            r matches Some(s) ==> s.addr() == raw && s.spec_owned() == owned,
    {
        let handle = if owned {
            Handle::owning(raw)
        } else {
            Handle::borrowed(raw)
        };
        match handle {
            Some(handle) => Some(String { handle, owned }),
            None => None,
        }
    }

    /// Create a new native string from UTF-8 text.
    ///
    /// Text with an embedded NUL byte cannot cross the C boundary; it is
    /// rejected with `InvalidArgument` before any native call, never a
    /// panic or a truncation. Otherwise the native string holds exactly the
    /// text's UTF-8 bytes.
    pub fn from_str(host: &mut NativeHost, s: &str) -> (r: Result<String, Error>)
        ensures
            r is Ok <==> !s.spec_bytes().contains(0u8) && old(host).create_succeeds(),
            s.spec_bytes().contains(0u8) ==> {
                &&& r == Err::<String, Error>(Error::InvalidArgument("String contains null bytes"))
                &&& *final(host) == *old(host)
            },
            r matches Ok(ns) ==> {
                &&& ns.spec_owned()
                &&& ns.addr() != 0
                &&& !old(host).live(ns.addr())
                &&& final(host).obj(ns.addr()) == Some(ObjView::UlString { bytes: s.spec_bytes() })
                &&& final(host).calls() == old(host).calls().push(CallView::CreateString { addr: ns.addr() })
                &&& final(host).objs_same_except(*old(host), ns.addr())
                &&& final(host).allocated() == old(host).allocated() + 1
            },
            !s.spec_bytes().contains(0u8) && !old(host).create_succeeds() ==> {
                &&& r == Err::<String, Error>(Error::NullReference("Failed to create string"))
                &&& final(host).calls() == old(host).calls().push(CallView::CreateString { addr: 0 })
                &&& final(host).objs_same(*old(host))
                &&& final(host).allocated() == old(host).allocated()
            },
    {
        let bytes = s.as_bytes();
        if contains_nul(bytes) {
            return Err(Error::InvalidArgument("String contains null bytes"));
        }
        String::from_utf8(host, bytes)
    }

    /// Create a new native string from raw UTF-8 data, embedded NUL bytes
    /// included: the native constructor takes an explicit length.
    pub fn from_utf8(host: &mut NativeHost, data: &[u8]) -> (r: Result<String, Error>)
        ensures
            r is Ok <==> old(host).create_succeeds(),
            r matches Ok(ns) ==> {
                &&& ns.spec_owned()
                &&& ns.addr() != 0
                &&& !old(host).live(ns.addr())
                &&& final(host).obj(ns.addr()) == Some(ObjView::UlString { bytes: data@ })
                &&& final(host).calls() == old(host).calls().push(CallView::CreateString { addr: ns.addr() })
                &&& final(host).objs_same_except(*old(host), ns.addr())
                &&& final(host).allocated() == old(host).allocated() + 1
            },
            r is Err ==> {
                &&& r == Err::<String, Error>(Error::NullReference("Failed to create string"))
                &&& final(host).calls() == old(host).calls().push(CallView::CreateString { addr: 0 })
                &&& final(host).objs_same(*old(host))
                &&& final(host).allocated() == old(host).allocated()
            },
    {
        let raw = host.create_string(data);
        match String::from_raw(raw, true) {
            Some(ns) => Ok(ns),
            None => Err(Error::NullReference("Failed to create string")),
        }
    }

    /// Create a new empty native string.
    pub fn empty(host: &mut NativeHost) -> (r: Result<String, Error>)
        ensures
            r is Ok <==> old(host).create_succeeds(),
            r matches Ok(ns) ==> {
                &&& ns.spec_owned()
                &&& ns.addr() != 0
                &&& final(host).obj(ns.addr()) == Some(ObjView::UlString { bytes: Seq::<u8>::empty() })
                &&& final(host).calls() == old(host).calls().push(CallView::CreateString { addr: ns.addr() })
                &&& final(host).objs_same_except(*old(host), ns.addr())
            },
            r is Err ==> {
                &&& final(host).calls() == old(host).calls().push(CallView::CreateString { addr: 0 })
                &&& final(host).objs_same(*old(host))
            },
    {
        let data: [u8; 0] = [];
        let empty_slice = data.as_slice();
        proof {
            assert(empty_slice@ =~= Seq::<u8>::empty());
        }
        String::from_utf8(host, empty_slice)
    }

    /// Create a deep copy of another native string.
    pub fn from_copy(host: &mut NativeHost, other: &String) -> (r: Result<String, Error>)
        requires
            old(host).obj(other.addr()) matches Some(ObjView::UlString { .. }),
        ensures
            r is Ok <==> old(host).create_succeeds(),
            r matches Ok(ns) ==> {
                &&& ns.spec_owned()
                &&& ns.addr() != 0
                &&& ns.addr() != other.addr()
                &&& final(host).obj(ns.addr()) == old(host).obj(other.addr())
                &&& final(host).calls() == old(host).calls().push(CallView::CreateString { addr: ns.addr() })
                &&& final(host).objs_same_except(*old(host), ns.addr())
            },
            r is Err ==> {
                &&& final(host).calls() == old(host).calls().push(CallView::CreateString { addr: 0 })
                &&& final(host).objs_same(*old(host))
            },
    {
        let bytes = host.string_bytes(other.raw());
        String::from_utf8(host, bytes.as_slice())
    }

    /// The raw native address, for handing back across the boundary.
    pub fn raw(&self) -> (r: u64)
        ensures
            r == self.addr(),
            r != 0,
    {
        self.handle.raw()
    }

    /// Whether this wrapper owns the native string (and so will destroy it).
    pub fn is_owned(&self) -> (r: bool)
        ensures
            r == self.spec_owned(),
    {
        self.owned
    }

    /// The string's UTF-8 contents, read back from the native layer.
    pub fn to_bytes(&self, host: &NativeHost) -> (r: Vec<u8>)
        requires
            host.obj(self.addr()) matches Some(ObjView::UlString { .. }),
        ensures
            host.obj(self.addr()) matches Some(ObjView::UlString { bytes }) && r@ == bytes,
    {
        host.string_bytes(self.handle.raw())
    }

    /// The string's length in bytes.
    pub fn len(&self, host: &NativeHost) -> (r: usize)
        requires
            host.obj(self.addr()) matches Some(ObjView::UlString { .. }),
        ensures
            host.obj(self.addr()) matches Some(ObjView::UlString { bytes }) && r == bytes.len(),
    {
        host.string_length(self.handle.raw())
    }

    /// Whether the string is empty.
    pub fn is_empty(&self, host: &NativeHost) -> (r: bool)
        requires
            host.obj(self.addr()) matches Some(ObjView::UlString { .. }),
        ensures
            host.obj(self.addr()) matches Some(ObjView::UlString { bytes }) && r == (bytes.len() == 0),
    {
        host.string_length(self.handle.raw()) == 0
    }

    /// Assign the contents of another native string to this one.
    pub fn assign(&self, host: &mut NativeHost, other: &String) -> (r: Result<(), Error>)
        requires
            old(host).obj(self.addr()) matches Some(ObjView::UlString { .. }),
            old(host).obj(other.addr()) matches Some(ObjView::UlString { .. }),
        ensures
            r is Ok,
            old(host).obj(other.addr()) matches Some(ObjView::UlString { bytes }) && {
                &&& final(host).calls() == old(host).calls().push(CallView::StringAssign { addr: self.addr(), bytes })
                &&& final(host).obj(self.addr()) == Some(ObjView::UlString { bytes })
            },
            final(host).objs_same_except(*old(host), self.addr()),
            final(host).allocated() == old(host).allocated(),
            final(host).create_staged_to_fail() == old(host).create_staged_to_fail(),
    {
        let bytes = host.string_bytes(other.raw());
        host.string_assign(self.handle.raw(), bytes.as_slice());
        Ok(())
    }

    /// Assign UTF-8 text to this string, rejecting embedded NUL bytes with
    /// `InvalidArgument` before any native call.
    pub fn assign_str(&self, host: &mut NativeHost, s: &str) -> (r: Result<(), Error>)
        requires
            old(host).obj(self.addr()) matches Some(ObjView::UlString { .. }),
        ensures
            r is Ok <==> !s.spec_bytes().contains(0u8),
            r matches Err(e) ==> e == Error::InvalidArgument("String contains null bytes"),
            r is Ok ==> {
                &&& final(host).calls() == old(host).calls().push(CallView::StringAssign { addr: self.addr(), bytes: s.spec_bytes() })
                &&& final(host).obj(self.addr()) == Some(ObjView::UlString { bytes: s.spec_bytes() })
                &&& final(host).objs_same_except(*old(host), self.addr())
            },
            r is Err ==> *final(host) == *old(host),
            final(host).allocated() == old(host).allocated(),
            final(host).create_staged_to_fail() == old(host).create_staged_to_fail(),
    {
        let bytes = s.as_bytes();
        if contains_nul(bytes) {
            return Err(Error::InvalidArgument("String contains null bytes"));
        }
        host.string_assign(self.handle.raw(), bytes);
        Ok(())
    }

    /// Tear down this wrapper; an owned string makes exactly one native
    /// destroy call, a borrowed one makes none.
    pub fn destroy(self, host: &mut NativeHost)
        ensures
            self.spec_owned() ==> {
                &&& final(host).calls() == old(host).calls().push(CallView::DestroyString { addr: self.addr() })
                &&& final(host).obj(self.addr()) is None
                &&& final(host).objs_same_except(*old(host), self.addr())
            },
            !self.spec_owned() ==> *final(host) == *old(host),
            final(host).allocated() == old(host).allocated(),
            final(host).create_staged_to_fail() == old(host).create_staged_to_fail(),
    {
        if self.owned {
            host.destroy_string(self.handle.raw());
        }
    }
}

/// The string bridge round trip: UTF-8 text without embedded NUL bytes,
/// carried into a fresh native string and read back, is unchanged, and the
/// temporary native string is destroyed again. Text with an embedded NUL is
/// rejected and the native layer is left untouched.
pub fn host_string_round_trip(host: &mut NativeHost, s: &str) -> (r: Option<Vec<u8>>)
    ensures
        r is Some <==> !s.spec_bytes().contains(0u8) && old(host).create_succeeds(),
        r matches Some(b) ==> b@ == s.spec_bytes(),
        s.spec_bytes().contains(0u8) ==> *final(host) == *old(host),
        final(host).objs_same(*old(host)),
{
    match String::from_str(host, s) {
        Ok(ns) => {
            let bytes = ns.to_bytes(host);
            ns.destroy(host);
            Some(bytes)
        },
        Err(_) => None,
    }
}

} // verus!
