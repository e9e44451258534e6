//! Script values: the tagged payloads carried across the engine boundary.

use vstd::prelude::*;
use vstd::string::StringSliceAdditionalSpecFns;
use crate::native::JsData;
use crate::native::JsDataView;
use crate::native::NativeHost;
use crate::native::ObjView;
use crate::native::contains_nul;
use crate::native::value_kind;
use crate::native::value_num;
use crate::native::value_text;
use crate::native::value_truthy;
use crate::javascript_core::context::Context;
use crate::javascript_core::exception::Error;
use crate::javascript_core::raw::JSType;

verus! {

/// The type of a script value, as its type query reports it.
#[derive(Debug, Clone, Copy, PartialEq, Eq, Structural)]
pub enum ValueType {
    /// The unique undefined value.
    Undefined,
    /// The unique null value.
    Null,
    /// A boolean.
    Boolean,
    /// A number.
    Number,
    /// A string.
    String,
    /// An object.
    Object,
    /// A symbol.
    Symbol,
}

impl ValueType {
    /// The kind code this type tag stands for.
    pub open spec fn spec_code(self) -> u32 {
        match self {
            ValueType::Undefined => 0u32,
            ValueType::Null => 1u32,
            ValueType::Boolean => 2u32,
            ValueType::Number => 3u32,
            ValueType::String => 4u32,
            ValueType::Object => 5u32,
            ValueType::Symbol => 6u32,
        }
    }

    /// Translate the engine's type tag.
    pub fn from_ffi(ty: JSType) -> (r: ValueType)
        ensures
            r == match ty {
                JSType::kJSTypeUndefined => ValueType::Undefined,
                JSType::kJSTypeNull => ValueType::Null,
                JSType::kJSTypeBoolean => ValueType::Boolean,
                JSType::kJSTypeNumber => ValueType::Number,
                JSType::kJSTypeString => ValueType::String,
                JSType::kJSTypeObject => ValueType::Object,
                JSType::kJSTypeSymbol => ValueType::Symbol,
            },
    {
        match ty {
            JSType::kJSTypeUndefined => ValueType::Undefined,
            JSType::kJSTypeNull => ValueType::Null,
            JSType::kJSTypeBoolean => ValueType::Boolean,
            JSType::kJSTypeNumber => ValueType::Number,
            JSType::kJSTypeString => ValueType::String,
            JSType::kJSTypeObject => ValueType::Object,
            JSType::kJSTypeSymbol => ValueType::Symbol,
        }
    }

    /// Build the type tag from a kind code.
    fn from_code(code: u32) -> (r: ValueType)
        ensures
            r.spec_code() == if code <= 6 { code } else { 0u32 },
    {
        if code == 1 {
            ValueType::Null
        } else if code == 2 {
            ValueType::Boolean
        } else if code == 3 {
            ValueType::Number
        } else if code == 4 {
            ValueType::String
        } else if code == 5 {
            ValueType::Object
        } else if code == 6 {
            ValueType::Symbol
        } else {
            ValueType::Undefined
        }
    }
}

/// A borrowed wrapper around one script value. Values are garbage collected
/// by the engine, so the wrapper owns nothing; `protect` and `unprotect`
/// cross the boundary to pin a value.
#[derive(Clone, Copy)]
pub struct Value {
    ctx: u64,
    addr: u64,
}

impl Value {
    /// The native address of this value.
    pub closed spec fn addr(self) -> u64 {
        self.addr
    }

    /// The address of the context this value belongs to.
    pub closed spec fn context_addr(self) -> u64 {
        self.ctx
    }

    /// Wrap a raw value address; fails on null.
    pub fn from_raw(context: &Context, raw: u64) -> (r: Option<Value>)
        ensures
            r is Some <==> raw != 0,
            r matches Some(v) ==> v.addr() == raw && v.context_addr() == context.addr(),
    {
        if raw == 0 {
            None
        } else {
            Some(Value { ctx: context.raw_for_spec(), addr: raw })
        }
    }

    /// A value wrapper from its parts, for wrappers re-exposing an address
    /// they already hold.
    pub(crate) fn of_parts(ctx: u64, addr: u64) -> (r: Value)
        ensures
            r.addr() == addr,
            r.context_addr() == ctx,
    {
        Value { ctx, addr }
    }

    /// Wrap a raw value address known to be nonzero.
    pub(crate) fn from_raw_unchecked(context: &Context, raw: u64) -> (r: Value)
        requires
            raw != 0,
        ensures
            r.addr() == raw,
            r.context_addr() == context.addr(),
    {
        Value { ctx: context.raw_for_spec(), addr: raw }
    }

    /// The raw native address, for handing back across the boundary.
    pub fn as_raw(&self) -> (r: u64)
        ensures
            r == self.addr(),
    {
        self.addr
    }

    /// The context this value belongs to.
    pub fn context(&self) -> (r: Context)
        ensures
            r.addr() == self.context_addr(),
    {
        Context::of_addr(self.ctx)
    }

    /// Create the undefined value.
    pub fn undefined(host: &mut NativeHost, context: &Context) -> (r: Option<Value>)
        ensures
            r is Some <==> old(host).allocated() < usize::MAX as nat,
            r matches Some(v) ==> {
                &&& v.addr() != 0
                &&& v.context_addr() == context.addr()
                &&& final(host).obj(v.addr()) == Some(ObjView::JsValue { data: JsDataView::Undefined })
                &&& final(host).objs_same_except(*old(host), v.addr())
                &&& final(host).calls() == old(host).calls()
            },
    {
        let raw = host.js_value_make(JsData::Undefined);
        Value::from_raw(context, raw)
    }

    /// Create the null value.
    pub fn null(host: &mut NativeHost, context: &Context) -> (r: Option<Value>)
        ensures
            r is Some <==> old(host).allocated() < usize::MAX as nat,
            r matches Some(v) ==> {
                &&& v.addr() != 0
                &&& v.context_addr() == context.addr()
                &&& final(host).obj(v.addr()) == Some(ObjView::JsValue { data: JsDataView::Null })
                &&& final(host).objs_same_except(*old(host), v.addr())
                &&& final(host).calls() == old(host).calls()
            },
    {
        let raw = host.js_value_make(JsData::Null);
        Value::from_raw(context, raw)
    }

    /// Create a boolean value.
    pub fn boolean(host: &mut NativeHost, context: &Context, value: bool) -> (r: Option<Value>)
        ensures
            r is Some <==> old(host).allocated() < usize::MAX as nat,
            r matches Some(v) ==> {
                &&& v.addr() != 0
                &&& v.context_addr() == context.addr()
                &&& final(host).obj(v.addr()) == Some(ObjView::JsValue { data: JsDataView::Boolean { b: value } })
                &&& final(host).objs_same_except(*old(host), v.addr())
                &&& final(host).calls() == old(host).calls()
            },
    {
        let raw = host.js_value_make(JsData::Boolean { b: value });
        Value::from_raw(context, raw)
    }

    /// Create a number value; the model carries integral numbers.
    pub fn integer(host: &mut NativeHost, context: &Context, value: i64) -> (r: Option<Value>)
        ensures
            r is Some <==> old(host).allocated() < usize::MAX as nat,
            r matches Some(v) ==> {
                &&& v.addr() != 0
                &&& v.context_addr() == context.addr()
                &&& final(host).obj(v.addr()) == Some(ObjView::JsValue { data: JsDataView::Number { n: value } })
                &&& final(host).objs_same_except(*old(host), v.addr())
                &&& final(host).calls() == old(host).calls()
            },
    {
        let raw = host.js_value_make(JsData::Number { n: value });
        Value::from_raw(context, raw)
    }

    /// Create a string value; text with an embedded NUL byte is rejected
    /// with `InvalidParameter` before any native call.
    pub fn string(host: &mut NativeHost, context: &Context, value: &str) -> (r: Result<Value, Error>)
        ensures
            r is Ok <==> !value.spec_bytes().contains(0u8) && old(host).allocated() < usize::MAX as nat,
            r matches Ok(v) ==> {
                &&& v.addr() != 0
                &&& v.context_addr() == context.addr()
                &&& final(host).obj(v.addr()) == Some(ObjView::JsValue { data: JsDataView::Text { bytes: value.spec_bytes() } })
                &&& final(host).objs_same_except(*old(host), v.addr())
                &&& final(host).calls() == old(host).calls()
            },
            value.spec_bytes().contains(0u8) ==> {
                &&& r == Err::<Value, Error>(Error::InvalidParameter("String contains null bytes"))
                &&& *final(host) == *old(host)
            },
    {
        let bytes = value.as_bytes();
        if contains_nul(bytes) {
            return Err(Error::InvalidParameter("String contains null bytes"));
        }
        let raw = host.js_value_make(JsData::Text { bytes: vstd::slice::slice_to_vec(bytes) });
        match Value::from_raw(context, raw) {
            Some(v) => Ok(v),
            None => Err(Error::ConversionError("Failed to create string value")),
        }
    }

    /// The type of this value.
    pub fn get_type(&self, host: &NativeHost) -> (r: ValueType)
        requires
            host.obj(self.addr()) matches Some(ObjView::JsValue { .. }),
        ensures
            host.obj(self.addr()) matches Some(ObjView::JsValue { data }) && r.spec_code() == value_kind(data),
    {
        ValueType::from_code(host.js_value_kind(self.addr))
    }

    /// Whether this value is undefined.
    pub fn is_undefined(&self, host: &NativeHost) -> (r: bool)
        requires
            host.obj(self.addr()) matches Some(ObjView::JsValue { .. }),
        ensures
            host.obj(self.addr()) matches Some(ObjView::JsValue { data }) && r == (data is Undefined),
    {
        host.js_value_kind(self.addr) == 0
    }

    /// Whether this value is null.
    pub fn is_null(&self, host: &NativeHost) -> (r: bool)
        requires
            host.obj(self.addr()) matches Some(ObjView::JsValue { .. }),
        ensures
            host.obj(self.addr()) matches Some(ObjView::JsValue { data }) && r == (data is Null),
    {
        host.js_value_kind(self.addr) == 1
    }

    /// Whether this value is a boolean.
    pub fn is_boolean(&self, host: &NativeHost) -> (r: bool)
        requires
            host.obj(self.addr()) matches Some(ObjView::JsValue { .. }),
        ensures
            host.obj(self.addr()) matches Some(ObjView::JsValue { data }) && r == (data is Boolean),
    {
        host.js_value_kind(self.addr) == 2
    }

    /// Whether this value is a number.
    pub fn is_number(&self, host: &NativeHost) -> (r: bool)
        requires
            host.obj(self.addr()) matches Some(ObjView::JsValue { .. }),
        ensures
            host.obj(self.addr()) matches Some(ObjView::JsValue { data }) && r == (data is Number),
    {
        host.js_value_kind(self.addr) == 3
    }

    /// Whether this value is a string.
    pub fn is_string(&self, host: &NativeHost) -> (r: bool)
        requires
            host.obj(self.addr()) matches Some(ObjView::JsValue { .. }),
        ensures
            host.obj(self.addr()) matches Some(ObjView::JsValue { data }) && r == (data is Text),
    {
        host.js_value_kind(self.addr) == 4
    }

    /// Whether this value is an object.
    pub fn is_object(&self, host: &NativeHost) -> (r: bool)
        requires
            host.obj(self.addr()) matches Some(ObjView::JsValue { .. }),
        ensures
            host.obj(self.addr()) matches Some(ObjView::JsValue { data }) && r == (data is Object),
    {
        host.js_value_kind(self.addr) == 5
    }

    /// Whether this value is a symbol.
    pub fn is_symbol(&self, host: &NativeHost) -> (r: bool)
        requires
            host.obj(self.addr()) matches Some(ObjView::JsValue { .. }),
        ensures
            host.obj(self.addr()) matches Some(ObjView::JsValue { data }) && r == (data is Symbol),
    {
        host.js_value_kind(self.addr) == 6
    }

    /// Convert this value to a boolean, with the script language's
    /// truthiness rules.
    pub fn to_boolean(&self, host: &NativeHost) -> (r: bool)
        requires
            host.obj(self.addr()) matches Some(ObjView::JsValue { .. }),
        ensures
            host.obj(self.addr()) matches Some(ObjView::JsValue { data }) && r == value_truthy(data),
    {
        host.js_value_truthy(self.addr)
    }

    /// Convert this value to a number; fails with `InvalidType` on values
    /// the model gives no numeric conversion.
    pub fn to_number(&self, host: &NativeHost) -> (r: Result<i64, Error>)
        requires
            host.obj(self.addr()) matches Some(ObjView::JsValue { .. }),
        ensures
            host.obj(self.addr()) matches Some(ObjView::JsValue { data }) && (match r {
                Ok(n) => value_num(data) == Some(n),
                Err(e) => value_num(data) is None && e == Error::InvalidType("Value has no numeric conversion"),
            }),
    {
        match host.js_value_to_num(self.addr) {
            Some(n) => Ok(n),
            None => Err(Error::InvalidType("Value has no numeric conversion")),
        }
    }

    /// Convert this value to its text, as UTF-8 bytes; fails with
    /// `InvalidType` on values the model gives no string conversion.
    pub fn to_string_bytes(&self, host: &NativeHost) -> (r: Result<Vec<u8>, Error>)
        requires
            host.obj(self.addr()) matches Some(ObjView::JsValue { .. }),
        ensures
            host.obj(self.addr()) matches Some(ObjView::JsValue { data }) && (match r {
                Ok(t) => value_text(data) == Some(t@),
                Err(e) => value_text(data) is None && e == Error::InvalidType("Value has no string conversion"),
            }),
    {
        match host.js_value_to_text(self.addr) {
            Some(t) => Ok(t),
            None => Err(Error::InvalidType("Value has no string conversion")),
        }
    }

    /// Protect this value from garbage collection.
    pub fn protect(&self, host: &mut NativeHost)
        ensures
            final(host).calls() == old(host).calls().push(crate::native::CallView::JsValueProtect { addr: self.addr() }),
            final(host).objs_same(*old(host)),
    {
        host.js_value_set_protected(self.addr, true);
    }

    /// Allow garbage collection of this value again.
    pub fn unprotect(&self, host: &mut NativeHost)
        ensures
            final(host).calls() == old(host).calls().push(crate::native::CallView::JsValueUnprotect { addr: self.addr() }),
            final(host).objs_same(*old(host)),
    {
        host.js_value_set_protected(self.addr, false);
    }
}

} // verus!
