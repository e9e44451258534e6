//! Typed arrays and array buffers.

use vstd::prelude::*;
use crate::native::JsData;
use crate::native::JsDataView;
use crate::native::JsObjData;
use crate::native::NativeHost;
use crate::native::ObjView;
use crate::javascript_core::context::Context;
use crate::javascript_core::exception::Error;
use crate::javascript_core::object::Object;
use crate::javascript_core::raw::JSTypedArrayType;
use crate::javascript_core::value::Value;

verus! {

/// The kind of a typed array.
#[derive(Debug, Clone, Copy, PartialEq, Eq, Structural)]
pub enum TypedArrayType {
    /// Signed 8-bit elements.
    Int8Array,
    /// Signed 16-bit elements.
    Int16Array,
    /// Signed 32-bit elements.
    Int32Array,
    /// Unsigned 8-bit elements.
    Uint8Array,
    /// Unsigned 8-bit elements, clamped on write.
    Uint8ClampedArray,
    /// Unsigned 16-bit elements.
    Uint16Array,
    /// Unsigned 32-bit elements.
    Uint32Array,
    /// 32-bit floating-point elements.
    Float32Array,
    /// 64-bit floating-point elements.
    Float64Array,
    /// Signed 64-bit big-integer elements.
    BigInt64Array,
    /// Unsigned 64-bit big-integer elements.
    BigUint64Array,
    /// A raw binary buffer.
    ArrayBuffer,
}

impl TypedArrayType {
    /// The kind code crossing the boundary, following the engine's tag
    /// order.
    pub open spec fn spec_code(self) -> u32 {
        match self {
            TypedArrayType::Int8Array => 0u32,
            TypedArrayType::Int16Array => 1u32,
            TypedArrayType::Int32Array => 2u32,
            TypedArrayType::Uint8Array => 3u32,
            TypedArrayType::Uint8ClampedArray => 4u32,
            TypedArrayType::Uint16Array => 5u32,
            TypedArrayType::Uint32Array => 6u32,
            TypedArrayType::Float32Array => 7u32,
            TypedArrayType::Float64Array => 8u32,
            TypedArrayType::ArrayBuffer => 9u32,
            TypedArrayType::BigInt64Array => 11u32,
            TypedArrayType::BigUint64Array => 12u32,
        }
    }

    /// Translate this kind to the engine's tag.
    pub fn to_ffi(&self) -> (r: JSTypedArrayType)
        ensures
            r == match self {
                TypedArrayType::Int8Array => JSTypedArrayType::kJSTypedArrayTypeInt8Array,
                TypedArrayType::Int16Array => JSTypedArrayType::kJSTypedArrayTypeInt16Array,
                TypedArrayType::Int32Array => JSTypedArrayType::kJSTypedArrayTypeInt32Array,
                TypedArrayType::Uint8Array => JSTypedArrayType::kJSTypedArrayTypeUint8Array,
                TypedArrayType::Uint8ClampedArray => JSTypedArrayType::kJSTypedArrayTypeUint8ClampedArray,
                TypedArrayType::Uint16Array => JSTypedArrayType::kJSTypedArrayTypeUint16Array,
                TypedArrayType::Uint32Array => JSTypedArrayType::kJSTypedArrayTypeUint32Array,
                TypedArrayType::Float32Array => JSTypedArrayType::kJSTypedArrayTypeFloat32Array,
                TypedArrayType::Float64Array => JSTypedArrayType::kJSTypedArrayTypeFloat64Array,
                TypedArrayType::BigInt64Array => JSTypedArrayType::kJSTypedArrayTypeBigInt64Array,
                TypedArrayType::BigUint64Array => JSTypedArrayType::kJSTypedArrayTypeBigUint64Array,
                TypedArrayType::ArrayBuffer => JSTypedArrayType::kJSTypedArrayTypeArrayBuffer,
            },
    {
        match self {
            TypedArrayType::Int8Array => JSTypedArrayType::kJSTypedArrayTypeInt8Array,
            TypedArrayType::Int16Array => JSTypedArrayType::kJSTypedArrayTypeInt16Array,
            TypedArrayType::Int32Array => JSTypedArrayType::kJSTypedArrayTypeInt32Array,
            TypedArrayType::Uint8Array => JSTypedArrayType::kJSTypedArrayTypeUint8Array,
            TypedArrayType::Uint8ClampedArray => JSTypedArrayType::kJSTypedArrayTypeUint8ClampedArray,
            TypedArrayType::Uint16Array => JSTypedArrayType::kJSTypedArrayTypeUint16Array,
            TypedArrayType::Uint32Array => JSTypedArrayType::kJSTypedArrayTypeUint32Array,
            TypedArrayType::Float32Array => JSTypedArrayType::kJSTypedArrayTypeFloat32Array,
            TypedArrayType::Float64Array => JSTypedArrayType::kJSTypedArrayTypeFloat64Array,
            TypedArrayType::BigInt64Array => JSTypedArrayType::kJSTypedArrayTypeBigInt64Array,
            TypedArrayType::BigUint64Array => JSTypedArrayType::kJSTypedArrayTypeBigUint64Array,
            TypedArrayType::ArrayBuffer => JSTypedArrayType::kJSTypedArrayTypeArrayBuffer,
        }
    }

    /// Translate the engine's tag to this kind; the none tag carries no
    /// kind.
    pub fn from_ffi(ty: JSTypedArrayType) -> (r: Option<TypedArrayType>)
        ensures
            r == match ty {
                JSTypedArrayType::kJSTypedArrayTypeInt8Array => Some(TypedArrayType::Int8Array),
                JSTypedArrayType::kJSTypedArrayTypeInt16Array => Some(TypedArrayType::Int16Array),
                JSTypedArrayType::kJSTypedArrayTypeInt32Array => Some(TypedArrayType::Int32Array),
                JSTypedArrayType::kJSTypedArrayTypeUint8Array => Some(TypedArrayType::Uint8Array),
                JSTypedArrayType::kJSTypedArrayTypeUint8ClampedArray => Some(TypedArrayType::Uint8ClampedArray),
                JSTypedArrayType::kJSTypedArrayTypeUint16Array => Some(TypedArrayType::Uint16Array),
                JSTypedArrayType::kJSTypedArrayTypeUint32Array => Some(TypedArrayType::Uint32Array),
                JSTypedArrayType::kJSTypedArrayTypeFloat32Array => Some(TypedArrayType::Float32Array),
                JSTypedArrayType::kJSTypedArrayTypeFloat64Array => Some(TypedArrayType::Float64Array),
                JSTypedArrayType::kJSTypedArrayTypeBigInt64Array => Some(TypedArrayType::BigInt64Array),
                JSTypedArrayType::kJSTypedArrayTypeBigUint64Array => Some(TypedArrayType::BigUint64Array),
                JSTypedArrayType::kJSTypedArrayTypeArrayBuffer => Some(TypedArrayType::ArrayBuffer),
                JSTypedArrayType::kJSTypedArrayTypeNone => None,
            },
    {
        match ty {
            JSTypedArrayType::kJSTypedArrayTypeInt8Array => Some(TypedArrayType::Int8Array),
            JSTypedArrayType::kJSTypedArrayTypeInt16Array => Some(TypedArrayType::Int16Array),
            JSTypedArrayType::kJSTypedArrayTypeInt32Array => Some(TypedArrayType::Int32Array),
            JSTypedArrayType::kJSTypedArrayTypeUint8Array => Some(TypedArrayType::Uint8Array),
            JSTypedArrayType::kJSTypedArrayTypeUint8ClampedArray => Some(TypedArrayType::Uint8ClampedArray),
            JSTypedArrayType::kJSTypedArrayTypeUint16Array => Some(TypedArrayType::Uint16Array),
            JSTypedArrayType::kJSTypedArrayTypeUint32Array => Some(TypedArrayType::Uint32Array),
            JSTypedArrayType::kJSTypedArrayTypeFloat32Array => Some(TypedArrayType::Float32Array),
            JSTypedArrayType::kJSTypedArrayTypeFloat64Array => Some(TypedArrayType::Float64Array),
            JSTypedArrayType::kJSTypedArrayTypeBigInt64Array => Some(TypedArrayType::BigInt64Array),
            JSTypedArrayType::kJSTypedArrayTypeBigUint64Array => Some(TypedArrayType::BigUint64Array),
            JSTypedArrayType::kJSTypedArrayTypeArrayBuffer => Some(TypedArrayType::ArrayBuffer),
            JSTypedArrayType::kJSTypedArrayTypeNone => None,
        }
    }

    /// Build the kind from its code, when the code names one.
    pub fn from_code(code: u32) -> (r: Option<TypedArrayType>)
        ensures
            r matches Some(t) ==> t.spec_code() == code,
            r is None <==> code == 10 || code > 12,
    {
        if code == 0 {
            Some(TypedArrayType::Int8Array)
        } else if code == 1 {
            Some(TypedArrayType::Int16Array)
        } else if code == 2 {
            Some(TypedArrayType::Int32Array)
        } else if code == 3 {
            Some(TypedArrayType::Uint8Array)
        } else if code == 4 {
            Some(TypedArrayType::Uint8ClampedArray)
        } else if code == 5 {
            Some(TypedArrayType::Uint16Array)
        } else if code == 6 {
            Some(TypedArrayType::Uint32Array)
        } else if code == 7 {
            Some(TypedArrayType::Float32Array)
        } else if code == 8 {
            Some(TypedArrayType::Float64Array)
        } else if code == 9 {
            Some(TypedArrayType::ArrayBuffer)
        } else if code == 11 {
            Some(TypedArrayType::BigInt64Array)
        } else if code == 12 {
            Some(TypedArrayType::BigUint64Array)
        } else {
            None
        }
    }

    /// The kind code crossing the boundary.
    pub fn code(&self) -> (r: u32)
        ensures
            r == self.spec_code(),
    {
        match self {
            TypedArrayType::Int8Array => 0,
            TypedArrayType::Int16Array => 1,
            TypedArrayType::Int32Array => 2,
            TypedArrayType::Uint8Array => 3,
            TypedArrayType::Uint8ClampedArray => 4,
            TypedArrayType::Uint16Array => 5,
            TypedArrayType::Uint32Array => 6,
            TypedArrayType::Float32Array => 7,
            TypedArrayType::Float64Array => 8,
            TypedArrayType::ArrayBuffer => 9,
            TypedArrayType::BigInt64Array => 11,
            TypedArrayType::BigUint64Array => 12,
        }
    }

    /// The element size of this kind, in bytes.
    pub open spec fn spec_element_size(self) -> nat {
        match self {
            TypedArrayType::Int8Array => 1nat,
            TypedArrayType::Uint8Array => 1nat,
            TypedArrayType::Uint8ClampedArray => 1nat,
            TypedArrayType::Int16Array => 2nat,
            TypedArrayType::Uint16Array => 2nat,
            TypedArrayType::Int32Array => 4nat,
            TypedArrayType::Uint32Array => 4nat,
            TypedArrayType::Float32Array => 4nat,
            TypedArrayType::Float64Array => 8nat,
            TypedArrayType::BigInt64Array => 8nat,
            TypedArrayType::BigUint64Array => 8nat,
            TypedArrayType::ArrayBuffer => 1nat,
        }
    }

    /// The element size of this kind, in bytes; a raw buffer counts single
    /// bytes.
    pub fn element_size(&self) -> (r: usize)
        ensures
            r == self.spec_element_size(),
    {
        match self {
            TypedArrayType::Int8Array => 1,
            TypedArrayType::Uint8Array => 1,
            TypedArrayType::Uint8ClampedArray => 1,
            TypedArrayType::Int16Array => 2,
            TypedArrayType::Uint16Array => 2,
            TypedArrayType::Int32Array => 4,
            TypedArrayType::Uint32Array => 4,
            TypedArrayType::Float32Array => 4,
            TypedArrayType::Float64Array => 8,
            TypedArrayType::BigInt64Array => 8,
            TypedArrayType::BigUint64Array => 8,
            TypedArrayType::ArrayBuffer => 1,
        }
    }
}

/// A typed array: an object viewing a contiguous region of an array buffer.
pub struct TypedArray {
    object: Object,
    ty: TypedArrayType,
}

impl TypedArray {
    /// The native address of the typed-array object.
    pub closed spec fn addr(self) -> u64 {
        self.object.addr()
    }

    /// The kind this wrapper was built with.
    pub closed spec fn spec_type(self) -> TypedArrayType {
        self.ty
    }

    /// Create a typed array with the given element count, backed by a fresh
    /// buffer of `length * element_size` zero bytes. An extent beyond the
    /// address range is rejected with `InvalidParameter`.
    pub fn new(host: &mut NativeHost, context: &Context, ty: TypedArrayType, length: usize) -> (r: Result<TypedArray, Error>)
        requires
            old(host).allocated() + 2 <= usize::MAX as nat,
        ensures
            r is Ok <==> (length as nat) * ty.spec_element_size() <= usize::MAX as nat,
            (length as nat) * ty.spec_element_size() > usize::MAX as nat ==> {
                &&& r == Err::<TypedArray, Error>(Error::InvalidParameter("Typed array too large"))
                &&& *final(host) == *old(host)
            },
            r matches Ok(ta) ==> {
                &&& ta.addr() != 0
                &&& ta.spec_type() == ty
                &&& final(host).obj(ta.addr()) matches Some(ObjView::JsValue { data: JsDataView::Object { obj } })
                    && obj.typed_array_kind == Some(ty.spec_code())
                    && obj.ta_length == length
                    && obj.ta_byte_offset == 0
                    && obj.ta_byte_length == (length as nat) * ty.spec_element_size()
                    && obj.ta_buffer != 0
                    && (final(host).obj(obj.ta_buffer) matches Some(ObjView::JsValue { data: JsDataView::Object { obj: buf } })
                        && buf.typed_array_kind == Some(9u32)
                        && buf.ta_byte_length == (length as nat) * ty.spec_element_size())
                &&& final(host).calls() == old(host).calls()
            },
    {
        let e = ty.element_size();
        if length > usize::MAX / e {
            return Err(Error::InvalidParameter("Typed array too large"));
        }
        let byte_length = length * e;
        proof {
            assert((length as nat) * ty.spec_element_size() <= usize::MAX as nat) by (nonlinear_arith)
                requires
                    length <= usize::MAX / (ty.spec_element_size() as usize),
                    1 <= ty.spec_element_size() <= 8,
            ;
        }
        let buffer_obj = JsObjData {
            props: Vec::new(),
            private_props: Vec::new(),
            private_data: 0,
            proxy_target: 0,
            str_repr: None,
            is_function: false,
            is_constructor: false,
            class_of: 0,
            typed_array_kind: Some(9),
            ta_length: byte_length,
            ta_byte_offset: 0,
            ta_byte_length: byte_length,
            ta_buffer: 0,
        };
        let buffer = host.js_value_make(JsData::Object { obj: buffer_obj });
        let ta_obj = JsObjData {
            props: Vec::new(),
            private_props: Vec::new(),
            private_data: 0,
            proxy_target: 0,
            str_repr: None,
            is_function: false,
            is_constructor: false,
            class_of: 0,
            typed_array_kind: Some(ty.code()),
            ta_length: length,
            ta_byte_offset: 0,
            ta_byte_length: byte_length,
            ta_buffer: buffer,
        };
        let raw = host.js_value_make(JsData::Object { obj: ta_obj });
        match Object::from_raw(context, raw) {
            Some(object) => Ok(TypedArray { object, ty }),
            None => Err(Error::JSError(vstd::slice::slice_to_vec("Failed to create typed array".as_bytes()))),
        }
    }

    /// Wrap an object already known to the engine as a typed array; an
    /// object of another shape is refused with `InvalidType`.
    pub fn from_object(host: &NativeHost, object: Object) -> (r: Result<TypedArray, Error>)
        requires
            host.obj(object.addr()) matches Some(ObjView::JsValue { .. }),
        ensures
            host.obj(object.addr()) matches Some(ObjView::JsValue { data }) && (match data {
                JsDataView::Object { obj } => match obj.typed_array_kind {
                    Some(k) => if k != 9 && k != 10 && k <= 12 {
                        r matches Ok(ta) && ta.addr() == object.addr() && ta.spec_type().spec_code() == k
                    } else {
                        r is Err
                    },
                    None => r is Err,
                },
                _ => r is Err,
            }),
    {
        let info = host.js_object_typed_array(object.as_raw());
        if !info.0 {
            return Err(Error::InvalidType("Object is not a typed array"));
        }
        if info.1 == 9 {
            return Err(Error::InvalidType("Object is an array buffer, not a typed array"));
        }
        match TypedArrayType::from_code(info.1) {
            Some(ty) => Ok(TypedArray { object, ty }),
            None => Err(Error::InvalidType("Object is not a typed array")),
        }
    }

    /// The underlying object.
    pub fn as_object(&self) -> (r: &Object)
        ensures
            r.addr() == self.addr(),
    {
        &self.object
    }

    /// The kind of this typed array.
    pub fn array_type(&self) -> (r: TypedArrayType)
        ensures
            r == self.spec_type(),
    {
        self.ty
    }

    /// The element count.
    pub fn length(&self, host: &NativeHost) -> (r: usize)
        requires
            host.obj(self.addr()) matches Some(ObjView::JsValue { data: JsDataView::Object { .. } }),
        ensures
            host.obj(self.addr()) matches Some(ObjView::JsValue { data: JsDataView::Object { obj } })
                && r == if obj.typed_array_kind is Some { obj.ta_length } else { 0 },
    {
        let info = host.js_object_typed_array(self.object.as_raw());
        if info.0 {
            info.2
        } else {
            0
        }
    }

    /// The extent in bytes.
    pub fn byte_length(&self, host: &NativeHost) -> (r: usize)
        requires
            host.obj(self.addr()) matches Some(ObjView::JsValue { data: JsDataView::Object { .. } }),
        ensures
            host.obj(self.addr()) matches Some(ObjView::JsValue { data: JsDataView::Object { obj } })
                && r == if obj.typed_array_kind is Some { obj.ta_byte_length } else { 0 },
    {
        let info = host.js_object_typed_array(self.object.as_raw());
        if info.0 {
            info.4
        } else {
            0
        }
    }

    /// The offset into the backing buffer, in bytes.
    pub fn byte_offset(&self, host: &NativeHost) -> (r: usize)
        requires
            host.obj(self.addr()) matches Some(ObjView::JsValue { data: JsDataView::Object { .. } }),
        ensures
            host.obj(self.addr()) matches Some(ObjView::JsValue { data: JsDataView::Object { obj } })
                && r == if obj.typed_array_kind is Some { obj.ta_byte_offset } else { 0 },
    {
        let info = host.js_object_typed_array(self.object.as_raw());
        if info.0 {
            info.3
        } else {
            0
        }
    }

    /// This typed array as a value.
    pub fn to_value(&self) -> (r: Value)
        ensures
            r.addr() == self.addr(),
    {
        self.object.to_value()
    }
}

/// An array buffer: raw binary storage for typed arrays.
pub struct ArrayBuffer {
    typed_array: TypedArray,
}

impl ArrayBuffer {
    /// The native address of the buffer object.
    pub closed spec fn addr(self) -> u64 {
        self.typed_array.addr()
    }

    /// Create an array buffer of the given extent: the raw-buffer kind of
    /// typed array, sized in single bytes, wrapped under the buffer
    /// interface.
    pub fn new(host: &mut NativeHost, context: &Context, byte_length: usize) -> (r: Result<ArrayBuffer, Error>)
        requires
            old(host).allocated() + 2 <= usize::MAX as nat,
        ensures
            r is Ok,
            r matches Ok(b) ==> {
                &&& b.addr() != 0
                &&& final(host).obj(b.addr()) matches Some(ObjView::JsValue { data: JsDataView::Object { obj } })
                    && obj.typed_array_kind == Some(9u32)
                    && obj.ta_length == byte_length
                    && obj.ta_byte_length == byte_length
                &&& final(host).calls() == old(host).calls()
            },
    {
        proof {
            assert((byte_length as nat) * TypedArrayType::ArrayBuffer.spec_element_size() == byte_length as nat);
        }
        match TypedArray::new(host, context, TypedArrayType::ArrayBuffer, byte_length) {
            Ok(typed_array) => Ok(ArrayBuffer { typed_array }),
            Err(e) => Err(e),
        }
    }

    /// Wrap an object already known to the engine as an array buffer; an
    /// object of another shape is refused with `InvalidType`.
    pub fn from_object(host: &NativeHost, object: Object) -> (r: Result<ArrayBuffer, Error>)
        requires
            host.obj(object.addr()) matches Some(ObjView::JsValue { .. }),
        ensures
            host.obj(object.addr()) matches Some(ObjView::JsValue { data }) && (match data {
                JsDataView::Object { obj } => match obj.typed_array_kind {
                    Some(k) => if k == 9 {
                        r matches Ok(b) && b.addr() == object.addr()
                    } else {
                        r is Err
                    },
                    None => r is Err,
                },
                _ => r is Err,
            }),
    {
        let info = host.js_object_typed_array(object.as_raw());
        if info.0 && info.1 == 9 {
            Ok(ArrayBuffer { typed_array: TypedArray { object, ty: TypedArrayType::ArrayBuffer } })
        } else {
            Err(Error::InvalidType("Object is not an array buffer"))
        }
    }

    /// This buffer viewed through the typed-array interface.
    pub fn as_typed_array(&self) -> (r: &TypedArray)
        ensures
            r.addr() == self.addr(),
    {
        &self.typed_array
    }

    /// The underlying object.
    pub fn as_object(&self) -> (r: &Object)
        ensures
            r.addr() == self.addr(),
    {
        self.typed_array.as_object()
    }

    /// The buffer's extent in bytes.
    pub fn byte_length(&self, host: &NativeHost) -> (r: usize)
        requires
            host.obj(self.addr()) matches Some(ObjView::JsValue { data: JsDataView::Object { .. } }),
        ensures
            host.obj(self.addr()) matches Some(ObjView::JsValue { data: JsDataView::Object { obj } })
                && r == if obj.typed_array_kind is Some { obj.ta_byte_length } else { 0 },
    {
        self.typed_array.byte_length(host)
    }

    /// This buffer as a value.
    pub fn to_value(&self) -> (r: Value)
        ensures
            r.addr() == self.addr(),
    {
        self.typed_array.to_value()
    }
}

} // verus!
