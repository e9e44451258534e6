//! Script execution contexts and context groups.

use vstd::prelude::*;
use vstd::string::StringSliceAdditionalSpecFns;
use crate::handle::Handle;
use crate::native::CallView;
use crate::native::NativeHost;
use crate::native::ObjView;
use crate::native::contains_nul;
use crate::javascript_core::exception::Error;
use crate::javascript_core::object::Object;
use crate::javascript_core::value::Value;

verus! {

/// A non-owning reference to a script execution context. It must not
/// outlive the owning global context.
#[derive(Clone, Copy)]
pub struct Context {
    addr: u64,
}

impl Context {
    /// The native address of this context.
    pub closed spec fn addr(self) -> u64 {
        self.addr
    }

    /// Wrap a raw context address; fails on null.
    pub fn from_raw(raw: u64) -> (r: Option<Context>)
        ensures
            r is Some <==> raw != 0,
            r matches Some(c) ==> c.addr() == raw,
    {
        if raw == 0 {
            None
        } else {
            Some(Context { addr: raw })
        }
    }

    /// A context reference for the given address, null allowed; used when
    /// the boundary hands a context through without a validity promise.
    pub(crate) fn of_addr(addr: u64) -> (r: Context)
        ensures
            r.addr() == addr,
    {
        Context { addr }
    }

    /// The raw native address, for handing back across the boundary.
    pub fn as_raw(&self) -> (r: u64)
        ensures
            r == self.addr(),
    {
        self.addr
    }

    /// The raw address, for wrappers building values in this context.
    pub(crate) fn raw_for_spec(&self) -> (r: u64)
        ensures
            r == self.addr(),
    {
        self.addr
    }

    /// The context's global object.
    pub fn global_object(&self, host: &NativeHost) -> (r: Option<Object>)
        requires
            host.obj(self.addr()) matches Some(ObjView::JsContext { .. }),
        ensures
            host.obj(self.addr()) matches Some(ObjView::JsContext { global_object, .. }) && {
                &&& r is Some <==> global_object != 0
                &&& r matches Some(o) ==> o.addr() == global_object && o.context_addr() == self.addr()
            },
    {
        let raw = host.js_context_global_object(self.addr);
        Object::from_raw(self, raw)
    }

    /// Evaluate script text in this context. The outcome is whatever the
    /// engine decides: a result value, or an exception converted into
    /// `JSException` with its text and best-effort location data.
    ///
    /// Script text with an embedded NUL byte is rejected with
    /// `InvalidParameter` before any native call.
    pub fn evaluate_script(&self, host: &mut NativeHost, script: &str, this_object: Option<&Object>, source_url: Option<&str>, starting_line: i32) -> (r: Result<Value, Error>)
        requires
            old(host).allocated() < usize::MAX as nat,
        ensures
            script.spec_bytes().contains(0u8) ==> {
                &&& r == Err::<Value, Error>(Error::InvalidParameter("Script contains null bytes"))
                &&& *final(host) == *old(host)
            },
            !script.spec_bytes().contains(0u8) ==> {
                &&& final(host).calls() == old(host).calls().push(CallView::JsEvaluateScript { addr: self.addr(), script: script.spec_bytes() })
                &&& final(host).js_eval_queue() == if old(host).js_eval_queue().len() > 0 {
                    old(host).js_eval_queue().drop_first()
                } else {
                    old(host).js_eval_queue()
                }
                &&& (r is Ok <==> (old(host).js_eval_queue().len() == 0
                    || (old(host).js_eval_queue()[0].0 && old(host).js_eval_queue()[0].1 != 0)))
                &&& (old(host).js_eval_queue().len() > 0 && old(host).js_eval_queue()[0].0 && old(host).js_eval_queue()[0].1 != 0 ==> (
                    r matches Ok(v) && v.addr() == old(host).js_eval_queue()[0].1 && v.context_addr() == self.addr()
                ))
                &&& (old(host).js_eval_queue().len() == 0 ==> (
                    r matches Ok(v) && v.addr() != 0 && v.context_addr() == self.addr()
                        && final(host).obj(v.addr()) == Some(ObjView::JsValue { data: crate::native::JsDataView::Undefined })
                ))
                &&& (old(host).js_eval_queue().len() > 0 && !old(host).js_eval_queue()[0].0 ==> {
                    &&& r is Err
                    &&& ({
                        let exc = old(host).js_eval_queue()[0].1;
                        exc != 0 && (old(host).obj(exc) matches Some(ObjView::JsValue { .. })) ==> (
                            r matches Err(e) && crate::javascript_core::exception::exception_error(*final(host), exc, e)
                        )
                    })
                })
            },
    {
        let bytes = script.as_bytes();
        if contains_nul(bytes) {
            return Err(Error::InvalidParameter("Script contains null bytes"));
        }
        let _ = this_object;
        let _ = source_url;
        let _ = starting_line;
        let (result, exception) = host.js_evaluate_script(self.addr, bytes);
        if exception != 0 {
            if host.js_value_exists(exception) {
                return Err(Error::from_js_exception(host, self, exception));
            }
            return Err(Error::JSError(vstd::slice::slice_to_vec("Evaluation raised an exception".as_bytes())));
        }
        match Value::from_raw(self, result) {
            Some(v) => Ok(v),
            None => Err(Error::JSError(vstd::slice::slice_to_vec("Evaluation returned null".as_bytes()))),
        }
    }

    /// The context group this context belongs to; 0 when it was created
    /// outside any group.
    pub fn group(&self, host: &NativeHost) -> (r: u64)
        requires
            host.obj(self.addr()) matches Some(ObjView::JsContext { .. }),
        ensures
            host.obj(self.addr()) matches Some(ObjView::JsContext { group, .. }) && r == group,
    {
        let s = host.js_context_state(self.addr);
        s.2
    }

    /// Check script text for valid syntax without running it. The verdict
    /// is the engine's; text with an embedded NUL byte is rejected with
    /// `InvalidParameter` before any native call.
    pub fn check_script_syntax(&self, host: &mut NativeHost, script: &str, source_url: Option<&str>, starting_line: i32) -> (r: Result<bool, Error>)
        ensures
            script.spec_bytes().contains(0u8) ==> {
                &&& r == Err::<bool, Error>(Error::InvalidParameter("Script contains null bytes"))
                &&& *final(host) == *old(host)
            },
            !script.spec_bytes().contains(0u8) ==> {
                &&& final(host).calls() == old(host).calls().push(CallView::JsCheckScriptSyntax { addr: self.addr(), script: script.spec_bytes() })
                &&& final(host).js_syntax_queue() == if old(host).js_syntax_queue().len() > 0 {
                    old(host).js_syntax_queue().drop_first()
                } else {
                    old(host).js_syntax_queue()
                }
                &&& r == Ok::<bool, Error>(if old(host).js_syntax_queue().len() > 0 {
                    old(host).js_syntax_queue()[0]
                } else {
                    true
                })
                &&& final(host).objs_same(*old(host))
            },
    {
        let bytes = script.as_bytes();
        if contains_nul(bytes) {
            return Err(Error::InvalidParameter("Script contains null bytes"));
        }
        let _ = source_url;
        let _ = starting_line;
        Ok(host.js_check_script_syntax(self.addr, bytes))
    }

    /// Ask the engine for a garbage-collection cycle.
    pub fn garbage_collect(&self, host: &mut NativeHost)
        ensures
            final(host).calls() == old(host).calls().push(CallView::JsGarbageCollect { addr: self.addr() }),
            final(host).objs_same(*old(host)),
    {
        host.js_garbage_collect(self.addr);
    }
}

/// An owning wrapper around one global script context. It holds one
/// reference; releasing the last reference tears the context down.
pub struct GlobalContext {
    handle: Handle,
}

impl GlobalContext {
    /// The native address of this context.
    pub closed spec fn addr(self) -> u64 {
        self.handle.raw_addr()
    }

    /// Create a global context with the default global object.
    pub fn new(host: &mut NativeHost) -> (r: Result<GlobalContext, Error>)
        requires
            old(host).allocated() + 2 <= usize::MAX as nat,
        ensures
            r is Ok <==> !old(host).create_staged_to_fail(),
            r matches Ok(c) ==> {
                &&& c.addr() != 0
                &&& !old(host).live(c.addr())
                &&& final(host).calls() == old(host).calls().push(CallView::JsGlobalContextCreate { addr: c.addr(), group: 0 })
                &&& final(host).obj(c.addr()) matches Some(ObjView::JsContext { group, global_object, refcount, .. })
                    && group == 0
                    && global_object != 0
                    && refcount == 1
                    && (final(host).obj(global_object) matches Some(ObjView::JsValue { data: crate::native::JsDataView::Object { .. } }))
                &&& final(host).allocated() == old(host).allocated() + 2
            },
            r is Err ==> {
                &&& r matches Err(Error::JSError(_))
                &&& final(host).calls() == old(host).calls().push(CallView::JsGlobalContextCreate { addr: 0, group: 0 })
                &&& final(host).objs_same(*old(host))
            },
    {
        let (ctx, _god) = host.create_js_global_context(0);
        match Handle::owning(ctx) {
            Some(handle) => Ok(GlobalContext { handle }),
            None => Err(Error::JSError(vstd::slice::slice_to_vec("Failed to create context".as_bytes()))),
        }
    }

    /// The raw native address, for handing back across the boundary.
    pub fn as_raw(&self) -> (r: u64)
        ensures
            r == self.addr(),
            r != 0,
    {
        self.handle.raw()
    }

    /// A non-owning reference to this context.
    pub fn context(&self) -> (r: Context)
        ensures
            r.addr() == self.addr(),
    {
        Context::of_addr(self.handle.raw())
    }

    /// The context's global object.
    pub fn global_object(&self, host: &NativeHost) -> (r: Option<Object>)
        requires
            host.obj(self.addr()) matches Some(ObjView::JsContext { .. }),
        ensures
            host.obj(self.addr()) matches Some(ObjView::JsContext { global_object, .. }) && {
                &&& r is Some <==> global_object != 0
                &&& r matches Some(o) ==> o.addr() == global_object && o.context_addr() == self.addr()
            },
    {
        self.context().global_object(host)
    }

    /// Evaluate script text in this context. The outcome equals what the
    /// context reference's evaluation gives: the same result value or the
    /// same error, with the same single recorded call.
    pub fn evaluate_script(&self, host: &mut NativeHost, script: &str, source_url: Option<&str>, starting_line: i32) -> (r: Result<Value, Error>)
        requires
            old(host).allocated() < usize::MAX as nat,
        ensures
            script.spec_bytes().contains(0u8) ==> {
                &&& r == Err::<Value, Error>(Error::InvalidParameter("Script contains null bytes"))
                &&& *final(host) == *old(host)
            },
            !script.spec_bytes().contains(0u8) ==> {
                &&& final(host).calls() == old(host).calls().push(CallView::JsEvaluateScript { addr: self.addr(), script: script.spec_bytes() })
                &&& final(host).js_eval_queue() == if old(host).js_eval_queue().len() > 0 {
                    old(host).js_eval_queue().drop_first()
                } else {
                    old(host).js_eval_queue()
                }
                &&& (r is Ok <==> (old(host).js_eval_queue().len() == 0
                    || (old(host).js_eval_queue()[0].0 && old(host).js_eval_queue()[0].1 != 0)))
                &&& (old(host).js_eval_queue().len() > 0 && old(host).js_eval_queue()[0].0 && old(host).js_eval_queue()[0].1 != 0 ==> (
                    r matches Ok(v) && v.addr() == old(host).js_eval_queue()[0].1 && v.context_addr() == self.addr()
                ))
                &&& (old(host).js_eval_queue().len() == 0 ==> (
                    r matches Ok(v) && v.addr() != 0 && v.context_addr() == self.addr()
                        && final(host).obj(v.addr()) == Some(ObjView::JsValue { data: crate::native::JsDataView::Undefined })
                ))
                &&& (old(host).js_eval_queue().len() > 0 && !old(host).js_eval_queue()[0].0 ==> {
                    &&& r is Err
                    &&& ({
                        let exc = old(host).js_eval_queue()[0].1;
                        exc != 0 && (old(host).obj(exc) matches Some(ObjView::JsValue { .. })) ==> (
                            r matches Err(e) && crate::javascript_core::exception::exception_error(*final(host), exc, e)
                        )
                    })
                })
            },
    {
        self.context().evaluate_script(host, script, None, source_url, starting_line)
    }

    /// The context's debug name, as UTF-8 bytes.
    pub fn name(&self, host: &NativeHost) -> (r: Vec<u8>)
        requires
            host.obj(self.addr()) matches Some(ObjView::JsContext { .. }),
        ensures
            host.obj(self.addr()) matches Some(ObjView::JsContext { name, .. }) && r@ == name,
    {
        let s = host.js_context_state(self.handle.raw());
        s.0
    }

    /// Set the context's debug name; text with an embedded NUL byte is
    /// rejected with `InvalidParameter` before any native call.
    pub fn set_name(&self, host: &mut NativeHost, name: &str) -> (r: Result<(), Error>)
        requires
            old(host).obj(self.addr()) matches Some(ObjView::JsContext { .. }),
        ensures
            r is Ok <==> !name.spec_bytes().contains(0u8),
            r is Ok ==> {
                &&& final(host).calls() == old(host).calls().push(CallView::JsGlobalContextSetName { addr: self.addr(), name: name.spec_bytes() })
                &&& final(host).obj(self.addr()) matches Some(ObjView::JsContext { name: n, .. }) && n == name.spec_bytes()
                &&& final(host).objs_same_except(*old(host), self.addr())
            },
            r is Err ==> r == Err::<(), Error>(Error::InvalidParameter("Name contains null bytes")) && *final(host) == *old(host),
    {
        let bytes = name.as_bytes();
        if contains_nul(bytes) {
            return Err(Error::InvalidParameter("Name contains null bytes"));
        }
        host.js_global_context_set_name(self.handle.raw(), bytes);
        Ok(())
    }

    /// Whether a debugger may inspect this context.
    pub fn is_inspectable(&self, host: &NativeHost) -> (r: bool)
        requires
            host.obj(self.addr()) matches Some(ObjView::JsContext { .. }),
        ensures
            host.obj(self.addr()) matches Some(ObjView::JsContext { inspectable, .. }) && r == inspectable,
    {
        let s = host.js_context_state(self.handle.raw());
        s.1
    }

    /// Choose whether a debugger may inspect this context.
    pub fn set_inspectable(&self, host: &mut NativeHost, inspectable: bool)
        requires
            old(host).obj(self.addr()) matches Some(ObjView::JsContext { .. }),
        ensures
            final(host).calls() == old(host).calls().push(CallView::JsGlobalContextSetInspectable { addr: self.addr(), inspectable }),
            final(host).obj(self.addr()) matches Some(ObjView::JsContext { inspectable: i, .. }) && i == inspectable,
            final(host).objs_same_except(*old(host), self.addr()),
    {
        host.js_global_context_set_inspectable(self.handle.raw(), inspectable);
    }

    /// Ask the engine for a garbage-collection cycle.
    pub fn garbage_collect(&self, host: &mut NativeHost)
        ensures
            final(host).calls() == old(host).calls().push(CallView::JsGarbageCollect { addr: self.addr() }),
            final(host).objs_same(*old(host)),
    {
        self.context().garbage_collect(host);
    }

    /// Release this wrapper's reference: exactly one native release call;
    /// the context is torn down when it was the last reference.
    pub fn release(self, host: &mut NativeHost)
        requires
            old(host).obj(self.addr()) matches Some(ObjView::JsContext { refcount, .. }) && refcount >= 1,
        ensures
            final(host).calls() == old(host).calls().push(CallView::JsGlobalContextRelease { addr: self.addr() }),
            final(host).obj(self.addr()) == match old(host).obj(self.addr()) {
                Some(ObjView::JsContext { group, global_object, name, inspectable, refcount }) => if refcount == 1 {
                    None
                } else {
                    Some(ObjView::JsContext { group, global_object, name, inspectable, refcount: (refcount - 1) as u32 })
                },
                other => other,
            },
            final(host).objs_same_except(*old(host), self.addr()),
            final(host).allocated() == old(host).allocated(),
    {
        host.js_global_context_release(self.handle.raw());
    }
}

/// An owning wrapper around one context group: contexts created in the same
/// group may exchange values. It holds one reference.
pub struct ContextGroup {
    handle: Handle,
}

impl ContextGroup {
    /// The native address of this group.
    pub closed spec fn addr(self) -> u64 {
        self.handle.raw_addr()
    }

    /// Create a context group.
    pub fn new(host: &mut NativeHost) -> (r: Result<ContextGroup, Error>)
        ensures
            r is Ok <==> old(host).create_succeeds(),
            r matches Ok(g) ==> {
                &&& g.addr() != 0
                &&& !old(host).live(g.addr())
                &&& final(host).obj(g.addr()) == Some(ObjView::JsContextGroup { refcount: 1 })
                &&& final(host).calls() == old(host).calls().push(CallView::JsContextGroupCreate { addr: g.addr() })
                &&& final(host).objs_same_except(*old(host), g.addr())
            },
            r is Err ==> {
                &&& r matches Err(Error::JSError(_))
                &&& final(host).objs_same(*old(host))
            },
    {
        let raw = host.create_js_context_group();
        match Handle::owning(raw) {
            Some(handle) => Ok(ContextGroup { handle }),
            None => Err(Error::JSError(vstd::slice::slice_to_vec("Failed to create context group".as_bytes()))),
        }
    }

    /// The raw native address, for handing back across the boundary.
    pub fn as_raw(&self) -> (r: u64)
        ensures
            r == self.addr(),
            r != 0,
    {
        self.handle.raw()
    }

    /// Take one more reference on the group: exactly one native retain
    /// call, handing back a second owning wrapper.
    pub fn retain(&self, host: &mut NativeHost) -> (r: ContextGroup)
        requires
            old(host).obj(self.addr()) matches Some(ObjView::JsContextGroup { refcount }) && refcount < u32::MAX,
        ensures
            r.addr() == self.addr(),
            final(host).calls() == old(host).calls().push(CallView::JsContextGroupRetain { addr: self.addr() }),
            final(host).obj(self.addr()) == match old(host).obj(self.addr()) {
                Some(ObjView::JsContextGroup { refcount }) => Some(ObjView::JsContextGroup { refcount: (refcount + 1) as u32 }),
                other => other,
            },
            final(host).objs_same_except(*old(host), self.addr()),
    {
        host.js_context_group_retain(self.handle.raw());
        ContextGroup { handle: self.handle }
    }

    /// Create a global context in this group.
    pub fn create_global_context(&self, host: &mut NativeHost) -> (r: Result<GlobalContext, Error>)
        requires
            old(host).allocated() + 2 <= usize::MAX as nat,
        ensures
            r is Ok <==> !old(host).create_staged_to_fail(),
            r matches Ok(c) ==> {
                &&& c.addr() != 0
                &&& !old(host).live(c.addr())
                &&& final(host).calls() == old(host).calls().push(CallView::JsGlobalContextCreate { addr: c.addr(), group: self.addr() })
                &&& final(host).obj(c.addr()) matches Some(ObjView::JsContext { group, global_object, refcount, .. })
                    && group == self.addr()
                    && global_object != 0
                    && refcount == 1
            },
            r is Err ==> r matches Err(Error::JSError(_)),
    {
        let (ctx, _god) = host.create_js_global_context(self.handle.raw());
        match Handle::owning(ctx) {
            Some(handle) => Ok(GlobalContext { handle }),
            None => Err(Error::JSError(vstd::slice::slice_to_vec("Failed to create context".as_bytes()))),
        }
    }

    /// Release this wrapper's reference: exactly one native release call;
    /// the group is torn down when it was the last reference.
    pub fn release(self, host: &mut NativeHost)
        requires
            old(host).obj(self.addr()) matches Some(ObjView::JsContextGroup { refcount }) && refcount >= 1,
        ensures
            final(host).calls() == old(host).calls().push(CallView::JsContextGroupRelease { addr: self.addr() }),
            final(host).obj(self.addr()) == match old(host).obj(self.addr()) {
                Some(ObjView::JsContextGroup { refcount }) => if refcount == 1 {
                    None
                } else {
                    Some(ObjView::JsContextGroup { refcount: (refcount - 1) as u32 })
                },
                other => other,
            },
            final(host).objs_same_except(*old(host), self.addr()),
            final(host).allocated() == old(host).allocated(),
    {
        host.js_context_group_release(self.handle.raw());
    }
}

} // verus!
