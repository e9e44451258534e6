//! Script exceptions and the errors the script-engine wrappers report.

use vstd::prelude::*;
use vstd::string::StringSliceAdditionalSpecFns;
use crate::native::JsData;
use crate::native::JsDataView;
use crate::native::JsObjData;
use crate::native::JsObjDataView;
use crate::native::NativeHost;
use crate::native::ObjView;
use crate::native::prop_lookup;
use crate::native::value_num;
use crate::native::value_text;
use crate::javascript_core::context::Context;
use crate::javascript_core::value::Value;

verus! {

/// A failure of a script-engine operation.
#[derive(Debug, Clone, PartialEq, Eq)]
pub enum Error {
    /// A script exception was thrown; carries the exception text and, best
    /// effort, its source URL, line, column, and stack trace.
    JSException {
        message: Vec<u8>,
        source_url: Option<Vec<u8>>,
        line: Option<u32>,
        column: Option<u32>,
        stack_trace: Option<Vec<u8>>,
    },
    /// A script-level failure without exception details.
    JSError(Vec<u8>),
    /// A parameter given to a wrapper was invalid.
    InvalidParameter(&'static str),
    /// A value of the wrong type was used.
    InvalidType(&'static str),
    /// A conversion between host and script values failed.
    ConversionError(&'static str),
    /// A null or undefined value was accessed.
    NullAccess(&'static str),
    /// The operation is not supported by the value it was attempted on.
    UnsupportedOperation(&'static str),
}

/// What line or column number an extracted property yields: the modeled
/// numeric conversion, clamped into the unsigned 32-bit range.
pub open spec fn clamped_u32(n: i64) -> u32 {
    if n < 0 {
        0u32
    } else if n > u32::MAX {
        u32::MAX
    } else {
        n as u32
    }
}

/// The text a property of the exception object contributes, if the property
/// is bound to a value with a modeled string conversion.
pub open spec fn exc_text_prop(host: NativeHost, obj: JsObjDataView, key: Seq<u8>) -> Option<Seq<u8>> {
    match prop_lookup(obj.props, key) {
        Some(v) => if v != 0 {
            match host.obj(v) {
                Some(ObjView::JsValue { data }) => value_text(data),
                _ => None,
            }
        } else {
            None
        },
        None => None,
    }
}

/// The number a property of the exception object contributes, if the
/// property is bound to a value with a modeled numeric conversion.
pub open spec fn exc_num_prop(host: NativeHost, obj: JsObjDataView, key: Seq<u8>) -> Option<u32> {
    match prop_lookup(obj.props, key) {
        Some(v) => if v != 0 {
            match host.obj(v) {
                Some(ObjView::JsValue { data }) => match value_num(data) {
                    Some(n) => Some(clamped_u32(n)),
                    None => None,
                },
                _ => None,
            }
        } else {
            None
        },
        None => None,
    }
}

/// Whether `e` is exactly the error the exception value at `exception`
/// extracts to: the exception's text (or the fixed fallback when the engine
/// cannot render it), and — best effort — the source URL, line, column,
/// and stack trace read from the exception object's properties.
pub open spec fn exception_error(host: NativeHost, exception: u64, e: Error) -> bool {
    match host.obj(exception) {
        Some(ObjView::JsValue { data }) => e matches Error::JSException { message, source_url, line, column, stack_trace } && {
            &&& message@ == match value_text(data) {
                Some(t) => t,
                None => "Unknown JavaScript exception".spec_bytes(),
            }
            &&& match data {
                JsDataView::Object { obj } => {
                    &&& (match source_url {
                        Some(u) => exc_text_prop(host, obj, "sourceURL".spec_bytes()) == Some(u@),
                        None => exc_text_prop(host, obj, "sourceURL".spec_bytes()) is None,
                    })
                    &&& (match line {
                        Some(n) => exc_num_prop(host, obj, "line".spec_bytes()) == Some(n),
                        None => exc_num_prop(host, obj, "line".spec_bytes()) is None,
                    })
                    &&& (match column {
                        Some(n) => exc_num_prop(host, obj, "column".spec_bytes()) == Some(n),
                        None => exc_num_prop(host, obj, "column".spec_bytes()) is None,
                    })
                    &&& (match stack_trace {
                        Some(t) => exc_text_prop(host, obj, "stack".spec_bytes()) == Some(t@),
                        None => exc_text_prop(host, obj, "stack".spec_bytes()) is None,
                    })
                },
                _ => source_url is None && line is None && column is None && stack_trace is None,
            }
        },
        _ => false,
    }
}

impl Error {
    /// Build an error from a script exception value; see
    /// [`exception_error`] for the exact relation. A property that is
    /// absent simply contributes nothing; absence is normal, not an error.
    pub fn from_js_exception(host: &NativeHost, ctx: &Context, exception: u64) -> (r: Error)
        requires
            host.obj(exception) matches Some(ObjView::JsValue { .. }),
        ensures
            exception_error(*host, exception, r),
    {
        let message = match host.js_value_to_text(exception) {
            Some(t) => t,
            None => vstd::slice::slice_to_vec("Unknown JavaScript exception".as_bytes()),
        };
        let mut source_url: Option<Vec<u8>> = None;
        let mut line: Option<u32> = None;
        let mut column: Option<u32> = None;
        let mut stack_trace: Option<Vec<u8>> = None;
        if host.js_value_kind(exception) == 5 {
            let su = host.js_object_get_prop(exception, false, "sourceURL".as_bytes());
            if su != 0 {
                if host.js_value_exists(su) {
                    source_url = host.js_value_to_text(su);
                }
            }
            let ln = host.js_object_get_prop(exception, false, "line".as_bytes());
            if ln != 0 {
                if host.js_value_exists(ln) {
                    match host.js_value_to_num(ln) {
                        Some(n) => {
                            line = Some(clamp_to_u32(n));
                        },
                        None => {},
                    }
                }
            }
            let co = host.js_object_get_prop(exception, false, "column".as_bytes());
            if co != 0 {
                if host.js_value_exists(co) {
                    match host.js_value_to_num(co) {
                        Some(n) => {
                            column = Some(clamp_to_u32(n));
                        },
                        None => {},
                    }
                }
            }
            let st = host.js_object_get_prop(exception, false, "stack".as_bytes());
            if st != 0 {
                if host.js_value_exists(st) {
                    stack_trace = host.js_value_to_text(st);
                }
            }
        }
        let _ = ctx;
        Error::JSException { message, source_url, line, column, stack_trace }
    }

    /// Render this error as a script value the engine can carry: exception
    /// and script failures become an error object exposing the text as its
    /// message; the host-side kinds become a plain string value with their
    /// description.
    pub fn to_js_error(&self, host: &mut NativeHost, ctx: &Context) -> (v: Value)
        ensures
            old(host).allocated() + 2 <= usize::MAX as nat ==> v.addr() != 0,
            v.context_addr() == ctx.addr(),
            v.addr() != 0 ==> match self {
                Error::JSException { message, .. } => final(host).obj(v.addr()) matches Some(ObjView::JsValue { data: JsDataView::Object { obj } })
                    && obj.str_repr == Some(message@)
                    && (prop_lookup(obj.props, "message".spec_bytes()) matches Some(m)
                        && m != 0
                        && final(host).obj(m) == Some(ObjView::JsValue { data: JsDataView::Text { bytes: message@ } })),
                Error::JSError(message) => final(host).obj(v.addr()) matches Some(ObjView::JsValue { data: JsDataView::Object { obj } })
                    && obj.str_repr == Some(message@)
                    && (prop_lookup(obj.props, "message".spec_bytes()) matches Some(m)
                        && m != 0
                        && final(host).obj(m) == Some(ObjView::JsValue { data: JsDataView::Text { bytes: message@ } })),
                Error::InvalidParameter(d) => final(host).obj(v.addr()) == Some(ObjView::JsValue { data: JsDataView::Text { bytes: d.spec_bytes() } }),
                Error::InvalidType(d) => final(host).obj(v.addr()) == Some(ObjView::JsValue { data: JsDataView::Text { bytes: d.spec_bytes() } }),
                Error::ConversionError(d) => final(host).obj(v.addr()) == Some(ObjView::JsValue { data: JsDataView::Text { bytes: d.spec_bytes() } }),
                Error::NullAccess(d) => final(host).obj(v.addr()) == Some(ObjView::JsValue { data: JsDataView::Text { bytes: d.spec_bytes() } }),
                Error::UnsupportedOperation(d) => final(host).obj(v.addr()) == Some(ObjView::JsValue { data: JsDataView::Text { bytes: d.spec_bytes() } }),
            },
            final(host).calls() == old(host).calls(),
            final(host).allocated() <= old(host).allocated() + 2,
            final(host).create_staged_to_fail() == old(host).create_staged_to_fail(),
    {
        match self {
            Error::JSException { message, .. } => make_error_object(host, ctx, message),
            Error::JSError(message) => make_error_object(host, ctx, message),
            Error::InvalidParameter(d) => make_text_value(host, ctx, d),
            Error::InvalidType(d) => make_text_value(host, ctx, d),
            Error::ConversionError(d) => make_text_value(host, ctx, d),
            Error::NullAccess(d) => make_text_value(host, ctx, d),
            Error::UnsupportedOperation(d) => make_text_value(host, ctx, d),
        }
    }
}

/// The modeled numeric conversion clamped into the unsigned 32-bit range.
fn clamp_to_u32(n: i64) -> (r: u32)
    ensures
        r == clamped_u32(n),
{
    if n < 0 {
        0
    } else if n > u32::MAX as i64 {
        u32::MAX
    } else {
        n as u32
    }
}

/// A fresh string value holding the given static text; the null address
/// when the address space is exhausted.
fn make_text_value(host: &mut NativeHost, ctx: &Context, text: &'static str) -> (v: Value)
    ensures
        old(host).allocated() < usize::MAX as nat ==> v.addr() != 0,
        v.context_addr() == ctx.addr(),
        v.addr() != 0 ==> final(host).obj(v.addr()) == Some(ObjView::JsValue { data: JsDataView::Text { bytes: text.spec_bytes() } }),
        final(host).objs_same_except(*old(host), v.addr()),
        final(host).calls() == old(host).calls(),
        final(host).allocated() <= old(host).allocated() + 1,
        final(host).create_staged_to_fail() == old(host).create_staged_to_fail(),
{
    let raw = host.js_value_make(JsData::Text { bytes: vstd::slice::slice_to_vec(text.as_bytes()) });
    Value::of_parts(ctx.as_raw(), raw)
}

/// A fresh error object whose message property and string rendering both
/// carry the given text; the null address when the address space is
/// exhausted.
fn make_error_object(host: &mut NativeHost, ctx: &Context, message: &Vec<u8>) -> (v: Value)
    ensures
        old(host).allocated() + 2 <= usize::MAX as nat ==> v.addr() != 0,
        v.context_addr() == ctx.addr(),
        v.addr() != 0 ==> (final(host).obj(v.addr()) matches Some(ObjView::JsValue { data: JsDataView::Object { obj } })
            && obj.str_repr == Some(message@)
            && (prop_lookup(obj.props, "message".spec_bytes()) matches Some(m)
                && m != 0
                && final(host).obj(m) == Some(ObjView::JsValue { data: JsDataView::Text { bytes: message@ } }))),
        final(host).calls() == old(host).calls(),
        final(host).allocated() <= old(host).allocated() + 2,
        final(host).create_staged_to_fail() == old(host).create_staged_to_fail(),
{
    let text = host.js_value_make(JsData::Text { bytes: vstd::slice::slice_to_vec(message.as_slice()) });
    let mut props: Vec<(Vec<u8>, u64)> = Vec::new();
    props.push((vstd::slice::slice_to_vec("message".as_bytes()), text));
    let obj = JsObjData {
        props,
        private_props: Vec::new(),
        private_data: 0,
        proxy_target: 0,
        str_repr: Some(vstd::slice::slice_to_vec(message.as_slice())),
        is_function: false,
        is_constructor: false,
        class_of: 0,
        typed_array_kind: None,
        ta_length: 0,
        ta_byte_offset: 0,
        ta_byte_length: 0,
        ta_buffer: 0,
    };
    proof {
        assert(obj@.props =~= seq![("message".spec_bytes(), text)]);
        assert(obj@.private_props =~= Seq::<(Seq<u8>, u64)>::empty());
        assert(prop_lookup(obj@.props, "message".spec_bytes()) == Some(text)) by {
            assert(obj@.props[0].0 == "message".spec_bytes());
        }
    }
    let raw = host.js_value_make(JsData::Object { obj });
    Value::of_parts(ctx.as_raw(), raw)
}

} // verus!
