//! Script objects, classes, and the class-callback bridge.
//!
//! A [`Class`] owns the host-side callback handler that the engine's class
//! mechanism dispatches into. Each `dispatch_` method plays the part of the
//! C trampoline installed for its slot: it recovers the handler, checks the
//! raw arguments for null, wraps them, invokes the handler, and converts an
//! error result into a script exception value.

use vstd::prelude::*;
use vstd::string::StringSliceAdditionalSpecFns;
use crate::handle::Handle;
use crate::native::CallView;
use crate::native::JsData;
use crate::native::JsDataView;
use crate::native::JsObjData;
use crate::native::NativeHost;
use crate::native::ObjView;
use crate::native::bytes_eq;
use crate::native::contains_nul;
use crate::native::prop_lookup;
use crate::javascript_core::context::Context;
use crate::javascript_core::exception::Error;
use crate::javascript_core::raw::JSType;
use crate::javascript_core::value::Value;

verus! {

/// Attributes of an object property, one bit each.
#[derive(Debug, Clone, Copy, PartialEq, Eq, Structural)]
pub struct PropertyAttributes {
    bits: u32,
}

impl PropertyAttributes {
    /// The raw attribute bits.
    pub closed spec fn spec_bits(self) -> u32 {
        self.bits
    }

    /// No attributes.
    pub fn none() -> (r: Self)
        ensures
            r.spec_bits() == 0u32,
    {
        PropertyAttributes { bits: 0 }
    }

    /// The attribute bits for a property with the given flags: read-only is
    /// bit 1, hidden from enumeration bit 2, undeletable bit 3.
    pub fn new(read_only: bool, dont_enum: bool, dont_delete: bool) -> (r: Self)
        ensures
            r.spec_bits() == (if read_only { 2u32 } else { 0u32 })
                | (if dont_enum { 4u32 } else { 0u32 })
                | (if dont_delete { 8u32 } else { 0u32 }),
    {
        let a: u32 = if read_only { 2 } else { 0 };
        let b: u32 = if dont_enum { 4 } else { 0 };
        let c: u32 = if dont_delete { 8 } else { 0 };
        PropertyAttributes { bits: a | b | c }
    }

    /// The raw attribute bits, as they cross the boundary.
    pub fn as_raw(&self) -> (r: u32)
        ensures
            r == self.spec_bits(),
    {
        self.bits
    }
}

/// Attributes of a class, one bit each.
#[derive(Debug, Clone, Copy, PartialEq, Eq, Structural)]
pub struct ClassAttributes {
    bits: u32,
}

impl ClassAttributes {
    /// The raw attribute bits.
    pub closed spec fn spec_bits(self) -> u32 {
        self.bits
    }

    /// No attributes.
    pub fn none() -> (r: Self)
        ensures
            r.spec_bits() == 0u32,
    {
        ClassAttributes { bits: 0 }
    }

    /// Skip the automatic prototype chain (bit 1).
    pub fn no_automatic_prototype() -> (r: Self)
        ensures
            r.spec_bits() == 2u32,
    {
        ClassAttributes { bits: 2 }
    }

    /// The raw attribute bits, as they cross the boundary.
    pub fn as_raw(&self) -> (r: u32)
        ensures
            r == self.spec_bits(),
    {
        self.bits
    }
}

/// One static value property of a class definition: a name plus which of
/// the two accessors the handler implements.
pub struct StaticValue {
    /// The property name.
    pub name: std::string::String,
    /// Whether the handler answers reads of this property.
    pub has_getter: bool,
    /// Whether the handler accepts writes of this property.
    pub has_setter: bool,
}

/// One static function property of a class definition.
pub struct StaticFunction {
    /// The function name the handler dispatches on.
    pub name: std::string::String,
}

/// The host-side behavior of a class: one method per engine callback slot.
/// A definition chooses which slots are installed; the engine only invokes
/// installed slots.
pub trait ClassHandler: Send {
    /// Called when an instance is created.
    fn initialize(&self, host: &mut NativeHost, ctx: &Context, object: &Object);

    /// Called when an instance is collected; the object may no longer touch
    /// its context.
    fn finalize(&self, object_addr: u64);

    /// Whether the instance claims the property.
    fn has_property(&self, host: &mut NativeHost, ctx: &Context, object: &Object, name: &[u8]) -> bool;

    /// Read a property.
    fn get_property(&self, host: &mut NativeHost, ctx: &Context, object: &Object, name: &[u8]) -> Result<Value, Error>;

    /// Write a property; the result says whether the write was handled.
    fn set_property(&self, host: &mut NativeHost, ctx: &Context, object: &Object, name: &[u8], value: Value) -> Result<bool, Error>;

    /// Delete a property; the result says whether the deletion was handled.
    fn delete_property(&self, host: &mut NativeHost, ctx: &Context, object: &Object, name: &[u8]) -> Result<bool, Error>;

    /// Call the instance as a function.
    fn call_as_function(&self, host: &mut NativeHost, ctx: &Context, function: &Object, this: Option<&Object>, args: &Vec<Value>) -> Result<Value, Error>;

    /// Call the instance as a constructor.
    fn call_as_constructor(&self, host: &mut NativeHost, ctx: &Context, constructor: &Object, args: &Vec<Value>) -> Result<Object, Error>;

    /// Answer an instance-of test.
    fn has_instance(&self, host: &mut NativeHost, ctx: &Context, constructor: &Object, instance: &Value) -> Result<bool, Error>;

    /// Convert the instance to a primitive type.
    fn convert_to_type(&self, host: &mut NativeHost, ctx: &Context, object: &Object, kind: JSType) -> Result<Value, Error>;

    /// Read a static value property.
    fn static_value_getter(&self, host: &mut NativeHost, ctx: &Context, object: &Object, name: &[u8]) -> Result<Value, Error>;

    /// Write a static value property.
    fn static_value_setter(&self, host: &mut NativeHost, ctx: &Context, object: &Object, name: &[u8], value: Value) -> Result<bool, Error>;

    /// Call a static function property, dispatched by name.
    fn static_function(&self, host: &mut NativeHost, ctx: &Context, function: &Object, this: Option<&Object>, name: &[u8], args: &Vec<Value>) -> Result<Value, Error>;
}

/// A definition of a script class: its name, attributes, which callback
/// slots are installed, its static properties, and the handler carrying the
/// host-side behavior.
pub struct ClassDefinition {
    /// The class name; must not hold an embedded NUL byte.
    pub class_name: std::string::String,
    /// Class attributes.
    pub attributes: ClassAttributes,
    /// Static value properties.
    pub static_values: Vec<StaticValue>,
    /// Static function properties.
    pub static_functions: Vec<StaticFunction>,
    /// Which callback slots are installed, as flags: initialize is bit 0,
    /// finalize 1, has-property 2, get-property 3, set-property 4,
    /// delete-property 5, property-names 6, call-as-function 7,
    /// call-as-constructor 8, has-instance 9, convert-to-type 10.
    pub callback_flags: u32,
    /// The handler invoked by the installed slots.
    pub handler: Option<Box<dyn ClassHandler>>,
}

impl Default for ClassDefinition {
    /// An empty definition: no name, no attributes, no static properties,
    /// no installed slots, and no handler.
    fn default() -> (r: Self)
        ensures
            r.class_name@ == Seq::<char>::empty(),
            r.attributes.spec_bits() == 0u32,
            r.static_values@.len() == 0,
            r.static_functions@.len() == 0,
            r.callback_flags == 0u32,
            r.handler is None,
    {
        ClassDefinition {
            class_name: std::string::String::new(),
            attributes: ClassAttributes::none(),
            static_values: Vec::new(),
            static_functions: Vec::new(),
            callback_flags: 0,
            handler: None,
        }
    }
}

/// An owning wrapper around one script class, carrying the handler its
/// trampolines dispatch into.
pub struct Class {
    handle: Handle,
    handler: Option<Box<dyn ClassHandler>>,
    static_values: Vec<(Vec<u8>, bool, bool)>,
    static_functions: Vec<Vec<u8>>,
}

/// The accessor flags of the first static value registered under `name`:
/// whether it has a getter and whether it has a setter.
pub open spec fn sv_lookup(svs: Seq<(Seq<u8>, bool, bool)>, name: Seq<u8>) -> Option<(bool, bool)>
    decreases svs.len(),
{
    if svs.len() == 0 {
        None
    } else if svs[0].0 == name {
        Some((svs[0].1, svs[0].2))
    } else {
        sv_lookup(svs.drop_first(), name)
    }
}

/// Whether `name` is among the registered static function names.
pub open spec fn name_listed(names: Seq<Seq<u8>>, name: Seq<u8>) -> bool {
    exists|i: int| 0 <= i < names.len() && names[i] == name
}

/// The first registration of a name decides its lookup.
proof fn lemma_sv_lookup_found(svs: Seq<(Seq<u8>, bool, bool)>, i: int, name: Seq<u8>)
    requires
        0 <= i < svs.len(),
        svs[i].0 == name,
        forall|j: int| 0 <= j < i ==> svs[j].0 != name,
    ensures
        sv_lookup(svs, name) == Some((svs[i].1, svs[i].2)),
    decreases i,
{
    if i > 0 {
        lemma_sv_lookup_found(svs.drop_first(), i - 1, name);
    }
}

/// A name registered nowhere looks up to nothing.
proof fn lemma_sv_lookup_absent(svs: Seq<(Seq<u8>, bool, bool)>, name: Seq<u8>)
    requires
        forall|j: int| 0 <= j < svs.len() ==> svs[j].0 != name,
    ensures
        sv_lookup(svs, name) is None,
    decreases svs.len(),
{
    if svs.len() > 0 {
        lemma_sv_lookup_absent(svs.drop_first(), name);
    }
}

impl Class {
    /// The native address of this class.
    pub closed spec fn addr(self) -> u64 {
        self.handle.raw_addr()
    }

    /// Whether this class carries a handler.
    pub closed spec fn has_handler(self) -> bool {
        self.handler is Some
    }

    /// The registered static values: name, has-getter, has-setter.
    pub closed spec fn spec_static_values(self) -> Seq<(Seq<u8>, bool, bool)> {
        self.static_values@.map_values(|v: (Vec<u8>, bool, bool)| (v.0@, v.1, v.2))
    }

    /// The registered static function names.
    pub closed spec fn spec_static_functions(self) -> Seq<Seq<u8>> {
        self.static_functions@.map_values(|v: Vec<u8>| v@)
    }

    /// Register a class with the engine.
    ///
    /// A class name or static property name with an embedded NUL byte
    /// cannot cross the boundary and is rejected with `InvalidParameter`.
    /// Each static value arrives with the read-only attribute exactly when
    /// the definition gives it no setter. Fails with `JSError` when the
    /// engine hands back null.
    #[verifier::loop_isolation(false)]
    pub fn new(host: &mut NativeHost, definition: ClassDefinition) -> (r: Result<Class, Error>)
        ensures
            r is Ok <==> ({
                &&& !vstd::utf8::encode_utf8(definition.class_name@).contains(0u8)
                &&& forall|i: int| 0 <= i < definition.static_values@.len()
                    ==> !vstd::utf8::encode_utf8((#[trigger] definition.static_values@[i]).name@).contains(0u8)
                &&& forall|i: int| 0 <= i < definition.static_functions@.len()
                    ==> !vstd::utf8::encode_utf8((#[trigger] definition.static_functions@[i]).name@).contains(0u8)
                &&& old(host).create_succeeds()
            }),
            vstd::utf8::encode_utf8(definition.class_name@).contains(0u8) ==> {
                &&& r == Err::<Class, Error>(Error::InvalidParameter("Class name contains null bytes"))
                &&& *final(host) == *old(host)
            },
            (!vstd::utf8::encode_utf8(definition.class_name@).contains(0u8)
                && (exists|i: int| 0 <= i < definition.static_values@.len()
                    && vstd::utf8::encode_utf8((#[trigger] definition.static_values@[i]).name@).contains(0u8))) ==> {
                &&& r == Err::<Class, Error>(Error::InvalidParameter("Static value name contains null bytes"))
                &&& *final(host) == *old(host)
            },
            (!vstd::utf8::encode_utf8(definition.class_name@).contains(0u8)
                && (forall|i: int| 0 <= i < definition.static_values@.len()
                    ==> !vstd::utf8::encode_utf8((#[trigger] definition.static_values@[i]).name@).contains(0u8))
                && (exists|i: int| 0 <= i < definition.static_functions@.len()
                    && vstd::utf8::encode_utf8((#[trigger] definition.static_functions@[i]).name@).contains(0u8))) ==> {
                &&& r == Err::<Class, Error>(Error::InvalidParameter("Static function name contains null bytes"))
                &&& *final(host) == *old(host)
            },
            r matches Err(Error::JSError(m)) ==> {
                &&& !old(host).create_succeeds()
                &&& m@ == "Failed to create JavaScript class".spec_bytes()
                &&& final(host).calls() == old(host).calls().push(CallView::JsClassCreate { addr: 0, name: vstd::utf8::encode_utf8(definition.class_name@) })
                &&& final(host).objs_same(*old(host))
                &&& final(host).allocated() == old(host).allocated()
            },
            r matches Ok(c) ==> {
                &&& c.addr() != 0
                &&& !old(host).live(c.addr())
                &&& final(host).calls() == old(host).calls().push(CallView::JsClassCreate { addr: c.addr(), name: vstd::utf8::encode_utf8(definition.class_name@) })
                &&& final(host).obj(c.addr()) matches Some(ObjView::JsClass { name, attributes, callback_flags, static_values, static_functions, refcount })
                    && name == vstd::utf8::encode_utf8(definition.class_name@)
                    && attributes == definition.attributes.spec_bits()
                    && callback_flags == definition.callback_flags
                    && refcount == 1
                    && static_values.len() == definition.static_values@.len()
                    && (forall|i: int| 0 <= i < static_values.len() ==> {
                        &&& (#[trigger] static_values[i]).0 == vstd::utf8::encode_utf8(definition.static_values@[i].name@)
                        &&& static_values[i].1 == definition.static_values@[i].has_getter
                        &&& static_values[i].2 == definition.static_values@[i].has_setter
                        &&& static_values[i].3 == if definition.static_values@[i].has_setter { 0u32 } else { 2u32 }
                    })
                    && static_functions.len() == definition.static_functions@.len()
                    && (forall|i: int| 0 <= i < static_functions.len() ==> #[trigger] static_functions[i] == vstd::utf8::encode_utf8(definition.static_functions@[i].name@))
                &&& c.has_handler() == (definition.handler is Some)
                &&& final(host).objs_same_except(*old(host), c.addr())
            },
            vstd::utf8::encode_utf8(definition.class_name@).contains(0u8) ==> {
                &&& r == Err::<Class, Error>(Error::InvalidParameter("Class name contains null bytes"))
                &&& *final(host) == *old(host)
            },
    {
        let name_bytes = definition.class_name.as_str().as_bytes();
        if contains_nul(name_bytes) {
            return Err(Error::InvalidParameter("Class name contains null bytes"));
        }
        let mut values: Vec<(Vec<u8>, bool, bool, u32)> = Vec::new();
        let mut kept: Vec<(Vec<u8>, bool, bool)> = Vec::new();
        let n = definition.static_values.len();
        let mut k: usize = 0;
        while k < n
            invariant
                n == definition.static_values@.len(),
                k <= n,
                values@.len() == k,
                kept@.len() == k,
                forall|i: int| 0 <= i < k
                    ==> !vstd::utf8::encode_utf8((#[trigger] definition.static_values@[i]).name@).contains(0u8),
                forall|i: int| 0 <= i < k ==> {
                    &&& (#[trigger] values@[i]).0@ == vstd::utf8::encode_utf8(definition.static_values@[i].name@)
                    &&& values@[i].1 == definition.static_values@[i].has_getter
                    &&& values@[i].2 == definition.static_values@[i].has_setter
                    &&& values@[i].3 == if definition.static_values@[i].has_setter { 0u32 } else { 2u32 }
                },
                forall|i: int| 0 <= i < k ==> {
                    &&& (#[trigger] kept@[i]).0@ == vstd::utf8::encode_utf8(definition.static_values@[i].name@)
                    &&& kept@[i].1 == definition.static_values@[i].has_getter
                    &&& kept@[i].2 == definition.static_values@[i].has_setter
                },
            decreases n - k,
        {
            let sv = &definition.static_values[k];
            let sv_bytes = sv.name.as_str().as_bytes();
            if contains_nul(sv_bytes) {
                return Err(Error::InvalidParameter("Static value name contains null bytes"));
            }
            let attr: u32 = if sv.has_setter { 0 } else { 2 };
            values.push((vstd::slice::slice_to_vec(sv_bytes), sv.has_getter, sv.has_setter, attr));
            kept.push((vstd::slice::slice_to_vec(sv_bytes), sv.has_getter, sv.has_setter));
            k = k + 1;
        }
        let mut functions: Vec<Vec<u8>> = Vec::new();
        let m = definition.static_functions.len();
        let mut j: usize = 0;
        while j < m
            invariant
                m == definition.static_functions@.len(),
                j <= m,
                functions@.len() == j,
                forall|i: int| 0 <= i < j
                    ==> !vstd::utf8::encode_utf8((#[trigger] definition.static_functions@[i]).name@).contains(0u8),
                forall|i: int| 0 <= i < j ==> (#[trigger] functions@[i])@ == vstd::utf8::encode_utf8(definition.static_functions@[i].name@),
            decreases m - j,
        {
            let sf_bytes = definition.static_functions[j].name.as_str().as_bytes();
            if contains_nul(sf_bytes) {
                return Err(Error::InvalidParameter("Static function name contains null bytes"));
            }
            functions.push(vstd::slice::slice_to_vec(sf_bytes));
            j = j + 1;
        }
        let mut kept_functions: Vec<Vec<u8>> = Vec::new();
        let mut j2: usize = 0;
        while j2 < functions.len()
            invariant
                j2 <= functions@.len(),
                kept_functions@.len() == j2,
                forall|i: int| 0 <= i < j2 ==> #[trigger] kept_functions@[i]@ == functions@[i]@,
            decreases functions@.len() - j2,
        {
            kept_functions.push(vstd::slice::slice_to_vec(functions[j2].as_slice()));
            j2 = j2 + 1;
        }
        let raw = host.create_js_class(name_bytes, definition.attributes.as_raw(), definition.callback_flags, values, functions);
        match Handle::owning(raw) {
            Some(handle) => Ok(Class {
                handle,
                handler: definition.handler,
                static_values: kept,
                static_functions: kept_functions,
            }),
            None => Err(Error::JSError(vstd::slice::slice_to_vec("Failed to create JavaScript class".as_bytes()))),
        }
    }

    /// The raw native address, for handing back across the boundary.
    pub fn as_raw(&self) -> (r: u64)
        ensures
            r == self.addr(),
            r != 0,
    {
        self.handle.raw()
    }

    /// Deliver the engine's get-property upcall: recover the handler,
    /// wrap the instance, invoke, and convert an error into an exception
    /// value. Returns the result's and the exception's raw addresses; both 0
    /// when no handler is installed, as the engine then falls through.
    pub fn dispatch_get_property(&self, host: &mut NativeHost, ctx: &Context, object: u64, name: &[u8]) -> (r: (u64, u64))
        ensures
            !self.has_handler() || object == 0 ==> r == (0u64, 0u64) && *final(host) == *old(host),
    {
        match &self.handler {
            Some(h) => match Object::from_raw(ctx, object) {
                Some(obj) => match h.get_property(host, ctx, &obj, name) {
                    Ok(v) => (v.as_raw(), 0),
                    Err(e) => (0, e.to_js_error(host, ctx).as_raw()),
                },
                None => (0, 0),
            },
            None => (0, 0),
        }
    }

    /// Deliver the engine's set-property upcall; the boolean says whether
    /// the write was handled.
    pub fn dispatch_set_property(&self, host: &mut NativeHost, ctx: &Context, object: u64, name: &[u8], value: u64) -> (r: (bool, u64))
        ensures
            !self.has_handler() || object == 0 || value == 0 ==> r == (false, 0u64) && *final(host) == *old(host),
    {
        match &self.handler {
            Some(h) => match (Object::from_raw(ctx, object), Value::from_raw(ctx, value)) {
                (Some(obj), Some(v)) => match h.set_property(host, ctx, &obj, name, v) {
                    Ok(handled) => (handled, 0),
                    Err(e) => (false, e.to_js_error(host, ctx).as_raw()),
                },
                _ => (false, 0),
            },
            None => (false, 0),
        }
    }

    /// Deliver the engine's has-property upcall.
    pub fn dispatch_has_property(&self, host: &mut NativeHost, ctx: &Context, object: u64, name: &[u8]) -> (r: bool)
        ensures
            !self.has_handler() || object == 0 ==> r == false && *final(host) == *old(host),
    {
        match &self.handler {
            Some(h) => match Object::from_raw(ctx, object) {
                Some(obj) => h.has_property(host, ctx, &obj, name),
                None => false,
            },
            None => false,
        }
    }

    /// Deliver the engine's delete-property upcall.
    pub fn dispatch_delete_property(&self, host: &mut NativeHost, ctx: &Context, object: u64, name: &[u8]) -> (r: (bool, u64))
        ensures
            !self.has_handler() || object == 0 ==> r == (false, 0u64) && *final(host) == *old(host),
    {
        match &self.handler {
            Some(h) => match Object::from_raw(ctx, object) {
                Some(obj) => match h.delete_property(host, ctx, &obj, name) {
                    Ok(handled) => (handled, 0),
                    Err(e) => (false, e.to_js_error(host, ctx).as_raw()),
                },
                None => (false, 0),
            },
            None => (false, 0),
        }
    }

    /// Deliver the engine's call-as-function upcall: null arguments are
    /// refused, raw arguments are wrapped, and an error result becomes an
    /// exception value.
    pub fn dispatch_call_as_function(&self, host: &mut NativeHost, ctx: &Context, function: u64, this: u64, args: &Vec<u64>) -> (r: (u64, u64))
        requires
            forall|i: int| 0 <= i < args@.len() ==> args@[i] != 0,
        ensures
            !self.has_handler() || function == 0 ==> r == (0u64, 0u64) && *final(host) == *old(host),
    {
        match &self.handler {
            Some(h) => match Object::from_raw(ctx, function) {
                Some(func) => {
                    let this_obj = Object::from_raw(ctx, this);
                    let values = wrap_args(ctx, args);
                    match h.call_as_function(host, ctx, &func, this_obj.as_ref(), &values) {
                        Ok(v) => (v.as_raw(), 0),
                        Err(e) => (0, e.to_js_error(host, ctx).as_raw()),
                    }
                },
                None => (0, 0),
            },
            None => (0, 0),
        }
    }

    /// Deliver the engine's call-as-constructor upcall.
    pub fn dispatch_call_as_constructor(&self, host: &mut NativeHost, ctx: &Context, constructor: u64, args: &Vec<u64>) -> (r: (u64, u64))
        requires
            forall|i: int| 0 <= i < args@.len() ==> args@[i] != 0,
        ensures
            !self.has_handler() || constructor == 0 ==> r == (0u64, 0u64) && *final(host) == *old(host),
    {
        match &self.handler {
            Some(h) => match Object::from_raw(ctx, constructor) {
                Some(ctor) => {
                    let values = wrap_args(ctx, args);
                    match h.call_as_constructor(host, ctx, &ctor, &values) {
                        Ok(o) => (o.as_raw(), 0),
                        Err(e) => (0, e.to_js_error(host, ctx).as_raw()),
                    }
                },
                None => (0, 0),
            },
            None => (0, 0),
        }
    }

    /// Deliver the engine's has-instance upcall.
    pub fn dispatch_has_instance(&self, host: &mut NativeHost, ctx: &Context, constructor: u64, instance: u64) -> (r: (bool, u64))
        ensures
            !self.has_handler() || constructor == 0 || instance == 0 ==> r == (false, 0u64) && *final(host) == *old(host),
    {
        match &self.handler {
            Some(h) => match (Object::from_raw(ctx, constructor), Value::from_raw(ctx, instance)) {
                (Some(ctor), Some(inst)) => match h.has_instance(host, ctx, &ctor, &inst) {
                    Ok(b) => (b, 0),
                    Err(e) => (false, e.to_js_error(host, ctx).as_raw()),
                },
                _ => (false, 0),
            },
            None => (false, 0),
        }
    }

    /// Deliver the engine's convert-to-type upcall.
    pub fn dispatch_convert_to_type(&self, host: &mut NativeHost, ctx: &Context, object: u64, kind: JSType) -> (r: (u64, u64))
        ensures
            !self.has_handler() || object == 0 ==> r == (0u64, 0u64) && *final(host) == *old(host),
    {
        match &self.handler {
            Some(h) => match Object::from_raw(ctx, object) {
                Some(obj) => match h.convert_to_type(host, ctx, &obj, kind) {
                    Ok(v) => (v.as_raw(), 0),
                    Err(e) => (0, e.to_js_error(host, ctx).as_raw()),
                },
                None => (0, 0),
            },
            None => (0, 0),
        }
    }

    /// Deliver the engine's read of a static value: the property is looked
    /// up among the registered static values by name, and only a property
    /// registered with a getter reaches the handler — mirroring the shared
    /// trampoline the engine installs for every static value.
    #[verifier::loop_isolation(false)]
    pub fn dispatch_static_value_getter(&self, host: &mut NativeHost, ctx: &Context, object: u64, name: &[u8]) -> (r: (u64, u64))
        ensures
            !self.has_handler() || object == 0 ==> r == (0u64, 0u64) && *final(host) == *old(host),
            self.has_handler() && object != 0 ==> match sv_lookup(self.spec_static_values(), name@) {
                None => r == (0u64, 0u64) && *final(host) == *old(host),
                Some((has_getter, _)) => !has_getter ==> r == (0u64, 0u64) && *final(host) == *old(host),
            },
    {
        match &self.handler {
            Some(h) => match Object::from_raw(ctx, object) {
                Some(obj) => {
                    let ghost svs = self.spec_static_values();
                    let n = self.static_values.len();
                    let mut k: usize = 0;
                    while k < n
                        invariant
                            *host == *old(host),
                            n == svs.len(),
                            k <= n,
                            forall|j: int| 0 <= j < n ==> #[trigger] svs[j] == (self.static_values@[j].0@, self.static_values@[j].1, self.static_values@[j].2),
                            forall|j: int| 0 <= j < k ==> (#[trigger] svs[j]).0 != name@,
                        decreases n - k,
                    {
                        if bytes_eq(self.static_values[k].0.as_slice(), name) {
                            proof {
                                lemma_sv_lookup_found(svs, k as int, name@);
                            }
                            if self.static_values[k].1 {
                                return match h.static_value_getter(host, ctx, &obj, name) {
                                    Ok(v) => (v.as_raw(), 0),
                                    Err(e) => (0, e.to_js_error(host, ctx).as_raw()),
                                };
                            }
                            return (0, 0);
                        }
                        k = k + 1;
                    }
                    proof {
                        lemma_sv_lookup_absent(svs, name@);
                    }
                    (0, 0)
                },
                None => (0, 0),
            },
            None => (0, 0),
        }
    }

    /// Deliver the engine's write of a static value; only a property
    /// registered with a setter reaches the handler.
    #[verifier::loop_isolation(false)]
    pub fn dispatch_static_value_setter(&self, host: &mut NativeHost, ctx: &Context, object: u64, name: &[u8], value: u64) -> (r: (bool, u64))
        ensures
            !self.has_handler() || object == 0 || value == 0 ==> r == (false, 0u64) && *final(host) == *old(host),
            self.has_handler() && object != 0 && value != 0 ==> match sv_lookup(self.spec_static_values(), name@) {
                None => r == (false, 0u64) && *final(host) == *old(host),
                Some((_, has_setter)) => !has_setter ==> r == (false, 0u64) && *final(host) == *old(host),
            },
    {
        match &self.handler {
            Some(h) => match (Object::from_raw(ctx, object), Value::from_raw(ctx, value)) {
                (Some(obj), Some(v)) => {
                    let ghost svs = self.spec_static_values();
                    let n = self.static_values.len();
                    let mut k: usize = 0;
                    while k < n
                        invariant
                            *host == *old(host),
                            n == svs.len(),
                            k <= n,
                            forall|j: int| 0 <= j < n ==> #[trigger] svs[j] == (self.static_values@[j].0@, self.static_values@[j].1, self.static_values@[j].2),
                            forall|j: int| 0 <= j < k ==> (#[trigger] svs[j]).0 != name@,
                        decreases n - k,
                    {
                        if bytes_eq(self.static_values[k].0.as_slice(), name) {
                            proof {
                                lemma_sv_lookup_found(svs, k as int, name@);
                            }
                            if self.static_values[k].2 {
                                return match h.static_value_setter(host, ctx, &obj, name, v) {
                                    Ok(handled) => (handled, 0),
                                    Err(e) => (false, e.to_js_error(host, ctx).as_raw()),
                                };
                            }
                            return (false, 0);
                        }
                        k = k + 1;
                    }
                    proof {
                        lemma_sv_lookup_absent(svs, name@);
                    }
                    (false, 0)
                },
                _ => (false, 0),
            },
            None => (false, 0),
        }
    }

    /// Deliver the engine's call of a static function: the function is
    /// looked up among the registered static functions by name, as the
    /// shared trampoline recovers it from the function object's name; an
    /// unknown name falls through with nulls.
    #[verifier::loop_isolation(false)]
    pub fn dispatch_static_function(&self, host: &mut NativeHost, ctx: &Context, function: u64, this: u64, name: &[u8], args: &Vec<u64>) -> (r: (u64, u64))
        requires
            forall|i: int| 0 <= i < args@.len() ==> args@[i] != 0,
        ensures
            !self.has_handler() || function == 0 ==> r == (0u64, 0u64) && *final(host) == *old(host),
            self.has_handler() && function != 0 && !name_listed(self.spec_static_functions(), name@)
                ==> r == (0u64, 0u64) && *final(host) == *old(host),
    {
        match &self.handler {
            Some(h) => match Object::from_raw(ctx, function) {
                Some(func) => {
                    let this_obj = Object::from_raw(ctx, this);
                    let ghost names = self.spec_static_functions();
                    let n = self.static_functions.len();
                    let mut k: usize = 0;
                    while k < n
                        invariant
                            *host == *old(host),
                            n == names.len(),
                            k <= n,
                            forall|j: int| 0 <= j < n ==> #[trigger] names[j] == self.static_functions@[j]@,
                            forall|j: int| 0 <= j < k ==> (#[trigger] names[j]) != name@,
                        decreases n - k,
                    {
                        if bytes_eq(self.static_functions[k].as_slice(), name) {
                            proof {
                                assert(name_listed(names, name@)) by {
                                    assert(names[k as int] == name@);
                                }
                            }
                            let values = wrap_args(ctx, args);
                            return match h.static_function(host, ctx, &func, this_obj.as_ref(), name, &values) {
                                Ok(v) => (v.as_raw(), 0),
                                Err(e) => (0, e.to_js_error(host, ctx).as_raw()),
                            };
                        }
                        k = k + 1;
                    }
                    (0, 0)
                },
                None => (0, 0),
            },
            None => (0, 0),
        }
    }

    /// Release this wrapper's reference to the native class: exactly one
    /// native release call; the class is torn down when it was the last.
    pub fn release(self, host: &mut NativeHost)
        requires
            old(host).obj(self.addr()) matches Some(ObjView::JsClass { refcount, .. }) && refcount >= 1,
        ensures
            final(host).calls() == old(host).calls().push(CallView::JsClassRelease { addr: self.addr() }),
            final(host).objs_same_except(*old(host), self.addr()),
            final(host).allocated() == old(host).allocated(),
    {
        host.js_class_release(self.handle.raw());
    }
}

/// Wrap raw argument addresses as values of the given context, as a
/// trampoline does before invoking host-side behavior.
fn wrap_args(ctx: &Context, args: &Vec<u64>) -> (r: Vec<Value>)
    requires
        forall|i: int| 0 <= i < args@.len() ==> args@[i] != 0,
    ensures
        r@.len() == args@.len(),
        forall|i: int| 0 <= i < r@.len() ==> (#[trigger] r@[i]).addr() == args@[i] && r@[i].context_addr() == ctx.addr(),
{
    let mut values: Vec<Value> = Vec::new();
    let n = args.len();
    let mut k: usize = 0;
    while k < n
        invariant
            n == args@.len(),
            forall|i: int| 0 <= i < args@.len() ==> args@[i] != 0,
            k <= n,
            values@.len() == k,
            forall|i: int| 0 <= i < k ==> (#[trigger] values@[i]).addr() == args@[i] && values@[i].context_addr() == ctx.addr(),
        decreases n - k,
    {
        values.push(Value::from_raw_unchecked(ctx, args[k]));
        k = k + 1;
    }
    values
}

/// The raw addresses of a list of values, in order, as they cross the
/// boundary.
fn arg_addrs(args: &Vec<Value>) -> (r: Vec<u64>)
    ensures
        r@ == args@.map_values(|v: Value| v.addr()),
{
    let mut addrs: Vec<u64> = Vec::new();
    let n = args.len();
    let mut k: usize = 0;
    while k < n
        invariant
            n == args@.len(),
            k <= n,
            addrs@.len() == k,
            forall|i: int| 0 <= i < k ==> addrs@[i] == (#[trigger] args@[i]).addr(),
        decreases n - k,
    {
        addrs.push(args[k].as_raw());
        k = k + 1;
    }
    proof {
        assert(addrs@ =~= args@.map_values(|v: Value| v.addr()));
    }
    addrs
}

/// A borrowed wrapper around one script object. Objects are garbage
/// collected by the engine, so the wrapper owns nothing.
#[derive(Clone, Copy)]
pub struct Object {
    ctx: u64,
    addr: u64,
}

impl Object {
    /// The native address of this object.
    pub closed spec fn addr(self) -> u64 {
        self.addr
    }

    /// The address of the context this object belongs to.
    pub closed spec fn context_addr(self) -> u64 {
        self.ctx
    }

    /// Wrap a raw object address; fails on null.
    pub fn from_raw(context: &Context, raw: u64) -> (r: Option<Object>)
        ensures
            r is Some <==> raw != 0,
            r matches Some(o) ==> o.addr() == raw && o.context_addr() == context.addr(),
    {
        if raw == 0 {
            None
        } else {
            Some(Object { ctx: context.raw_for_spec(), addr: raw })
        }
    }

    /// The raw native address, for handing back across the boundary.
    pub fn as_raw(&self) -> (r: u64)
        ensures
            r == self.addr(),
    {
        self.addr
    }

    /// The context this object belongs to.
    pub fn context(&self) -> (r: Context)
        ensures
            r.addr() == self.context_addr(),
    {
        Context::of_addr(self.ctx)
    }

    /// This object as a value: the same address seen through the value
    /// interface.
    pub fn to_value(&self) -> (r: Value)
        ensures
            r.addr() == self.addr(),
            r.context_addr() == self.context_addr(),
    {
        Value::of_parts(self.ctx, self.addr)
    }

    /// Create a plain object.
    pub fn new(host: &mut NativeHost, context: &Context) -> (r: Option<Object>)
        ensures
            r is Some <==> old(host).allocated() < usize::MAX as nat,
            r matches Some(o) ==> {
                &&& o.addr() != 0
                &&& o.context_addr() == context.addr()
                &&& final(host).obj(o.addr()) == Some(ObjView::JsValue { data: JsDataView::Object { obj: crate::native::empty_js_object_view() } })
                &&& final(host).objs_same_except(*old(host), o.addr())
                &&& final(host).calls() == old(host).calls()
            },
    {
        let god = JsObjData {
            props: Vec::new(),
            private_props: Vec::new(),
            private_data: 0,
            proxy_target: 0,
            str_repr: None,
            is_function: false,
            is_constructor: false,
            class_of: 0,
            typed_array_kind: None,
            ta_length: 0,
            ta_byte_offset: 0,
            ta_byte_length: 0,
            ta_buffer: 0,
        };
        proof {
            assert(god@.props =~= Seq::<(Seq<u8>, u64)>::empty());
            assert(god@.private_props =~= Seq::<(Seq<u8>, u64)>::empty());
            assert(god@ == crate::native::empty_js_object_view());
        }
        let raw = host.js_value_make(JsData::Object { obj: god });
        Object::from_raw(context, raw)
    }

    /// Compile a function object from script source. The compilation is
    /// engine work; the model checks every text for embedded NUL bytes (as
    /// the boundary crossing requires) and hands back a fresh callable
    /// object. The source URL and starting line are carried for the
    /// engine's diagnostics only.
    #[verifier::loop_isolation(false)]
    pub fn function(host: &mut NativeHost, context: &Context, name: Option<&str>, parameters: &Vec<&str>, body: &str, source_url: Option<&str>, starting_line: i32) -> (r: Result<Object, Error>)
        ensures
            r is Ok <==> ({
                &&& !body.spec_bytes().contains(0u8)
                &&& (match name {
                    Some(n) => !n.spec_bytes().contains(0u8),
                    None => true,
                })
                &&& forall|i: int| 0 <= i < parameters@.len() ==> !(#[trigger] parameters@[i]).spec_bytes().contains(0u8)
                &&& old(host).allocated() < usize::MAX as nat
            }),
            body.spec_bytes().contains(0u8) ==> {
                &&& r == Err::<Object, Error>(Error::InvalidParameter("Function body contains null bytes"))
                &&& *final(host) == *old(host)
            },
            (!body.spec_bytes().contains(0u8)
                && (name matches Some(n) && n.spec_bytes().contains(0u8))) ==> {
                &&& r == Err::<Object, Error>(Error::InvalidParameter("Function name contains null bytes"))
                &&& *final(host) == *old(host)
            },
            (!body.spec_bytes().contains(0u8)
                && (match name {
                    Some(n) => !n.spec_bytes().contains(0u8),
                    None => true,
                })
                && (exists|i: int| 0 <= i < parameters@.len() && (#[trigger] parameters@[i]).spec_bytes().contains(0u8))) ==> {
                &&& r == Err::<Object, Error>(Error::InvalidParameter("Parameter name contains null bytes"))
                &&& *final(host) == *old(host)
            },
            r matches Ok(o) ==> {
                &&& o.addr() != 0
                &&& o.context_addr() == context.addr()
                &&& final(host).obj(o.addr()) matches Some(ObjView::JsValue { data: JsDataView::Object { obj } })
                    && obj.is_function
                    && obj.str_repr == Some(body.spec_bytes())
                &&& final(host).objs_same_except(*old(host), o.addr())
                &&& final(host).calls() == old(host).calls()
            },
    {
        if contains_nul(body.as_bytes()) {
            return Err(Error::InvalidParameter("Function body contains null bytes"));
        }
        match name {
            Some(n) => {
                if contains_nul(n.as_bytes()) {
                    return Err(Error::InvalidParameter("Function name contains null bytes"));
                }
            },
            None => {},
        }
        let mut k: usize = 0;
        while k < parameters.len()
            invariant
                k <= parameters@.len(),
                forall|i: int| 0 <= i < k ==> !(#[trigger] parameters@[i]).spec_bytes().contains(0u8),
            decreases parameters@.len() - k,
        {
            if contains_nul(parameters[k].as_bytes()) {
                return Err(Error::InvalidParameter("Parameter name contains null bytes"));
            }
            k = k + 1;
        }
        let _ = source_url;
        let _ = starting_line;
        let mut god = JsObjData {
            props: Vec::new(),
            private_props: Vec::new(),
            private_data: 0,
            proxy_target: 0,
            str_repr: None,
            is_function: true,
            is_constructor: false,
            class_of: 0,
            typed_array_kind: None,
            ta_length: 0,
            ta_byte_offset: 0,
            ta_byte_length: 0,
            ta_buffer: 0,
        };
        god.str_repr = Some(vstd::slice::slice_to_vec(body.as_bytes()));
        let raw = host.js_value_make(JsData::Object { obj: god });
        match Object::from_raw(context, raw) {
            Some(o) => Ok(o),
            None => Err(Error::JSError(vstd::slice::slice_to_vec("Failed to create function".as_bytes()))),
        }
    }

    /// Create an error object carrying `message`, with the message exposed
    /// as a property and as the object's string rendering.
    pub fn error(host: &mut NativeHost, context: &Context, message: &str) -> (r: Result<Object, Error>)
        ensures
            r is Ok <==> !message.spec_bytes().contains(0u8) && old(host).allocated() + 2 <= usize::MAX as nat,
            message.spec_bytes().contains(0u8) ==> {
                &&& r == Err::<Object, Error>(Error::InvalidParameter("Message contains null bytes"))
                &&& *final(host) == *old(host)
            },
            r matches Ok(o) ==> {
                &&& o.addr() != 0
                &&& o.context_addr() == context.addr()
                &&& final(host).obj(o.addr()) matches Some(ObjView::JsValue { data: JsDataView::Object { obj } })
                    && obj.str_repr == Some(message.spec_bytes())
                    && (prop_lookup(obj.props, "message".spec_bytes()) matches Some(m)
                        && m != 0
                        && final(host).obj(m) == Some(ObjView::JsValue { data: JsDataView::Text { bytes: message.spec_bytes() } }))
                &&& final(host).calls() == old(host).calls()
            },
    {
        let bytes = message.as_bytes();
        if contains_nul(bytes) {
            return Err(Error::InvalidParameter("Message contains null bytes"));
        }
        let text = host.js_value_make(JsData::Text { bytes: vstd::slice::slice_to_vec(bytes) });
        if text == 0 {
            return Err(Error::JSError(vstd::slice::slice_to_vec("Failed to create error".as_bytes())));
        }
        let mut props: Vec<(Vec<u8>, u64)> = Vec::new();
        props.push((vstd::slice::slice_to_vec("message".as_bytes()), text));
        let god = JsObjData {
            props,
            private_props: Vec::new(),
            private_data: 0,
            proxy_target: 0,
            str_repr: Some(vstd::slice::slice_to_vec(bytes)),
            is_function: false,
            is_constructor: false,
            class_of: 0,
            typed_array_kind: None,
            ta_length: 0,
            ta_byte_offset: 0,
            ta_byte_length: 0,
            ta_buffer: 0,
        };
        proof {
            assert(god@.props =~= seq![("message".spec_bytes(), text)]);
            assert(prop_lookup(god@.props, "message".spec_bytes()) == Some(text)) by {
                assert(god@.props[0].0 == "message".spec_bytes());
            }
        }
        let raw = host.js_value_make(JsData::Object { obj: god });
        match Object::from_raw(context, raw) {
            Some(o) => Ok(o),
            None => Err(Error::JSError(vstd::slice::slice_to_vec("Failed to create error".as_bytes()))),
        }
    }

    /// Whether the object claims the named property; a name with an
    /// embedded NUL byte claims nothing.
    pub fn has_property(&self, host: &NativeHost, name: &str) -> (r: bool)
        requires
            host.obj(self.addr()) matches Some(ObjView::JsValue { .. }),
        ensures
            host.obj(self.addr()) matches Some(ObjView::JsValue { data }) && r == (match data {
                JsDataView::Object { obj } => !name.spec_bytes().contains(0u8) && (match prop_lookup(obj.props, name.spec_bytes()) {
                    Some(v) => v != 0,
                    None => false,
                }),
                _ => false,
            }),
    {
        let bytes = name.as_bytes();
        if contains_nul(bytes) {
            return false;
        }
        host.js_object_get_prop(self.addr, false, bytes) != 0
    }

    /// Read the named property. An unbound property reads as a fresh
    /// undefined value, as the engine's property read does; a name with an
    /// embedded NUL byte is rejected with `InvalidParameter`.
    pub fn get_property(&self, host: &mut NativeHost, name: &str) -> (r: Result<Value, Error>)
        requires
            old(host).obj(self.addr()) matches Some(ObjView::JsValue { data: JsDataView::Object { .. } }),
            old(host).allocated() < usize::MAX as nat,
        ensures
            name.spec_bytes().contains(0u8) ==> r == Err::<Value, Error>(Error::InvalidParameter("Property name contains null bytes")) && *final(host) == *old(host),
            !name.spec_bytes().contains(0u8) ==> (old(host).obj(self.addr()) matches Some(ObjView::JsValue { data: JsDataView::Object { obj } }) && {
                &&& final(host).calls() == old(host).calls()
                &&& match prop_lookup(obj.props, name.spec_bytes()) {
                    Some(v) => v != 0 ==> (r matches Ok(rv) && rv.addr() == v && *final(host) == *old(host)),
                    None => r matches Ok(rv) && rv.addr() != 0
                        && final(host).obj(rv.addr()) == Some(ObjView::JsValue { data: JsDataView::Undefined })
                        && final(host).objs_same_except(*old(host), rv.addr()),
                }
            }),
    {
        let bytes = name.as_bytes();
        if contains_nul(bytes) {
            return Err(Error::InvalidParameter("Property name contains null bytes"));
        }
        let ctx = self.context();
        let v = host.js_object_get_prop(self.addr, false, bytes);
        if v != 0 {
            Ok(Value::from_raw_unchecked(&ctx, v))
        } else {
            let raw = host.js_value_make(JsData::Undefined);
            Ok(Value::from_raw_unchecked(&ctx, raw))
        }
    }

    /// Bind the named property to `value`; every other binding is left
    /// unchanged. A name with an embedded NUL byte is rejected with
    /// `InvalidParameter`.
    pub fn set_property(&self, host: &mut NativeHost, name: &str, value: &Value, attributes: PropertyAttributes) -> (r: Result<(), Error>)
        requires
            old(host).obj(self.addr()) matches Some(ObjView::JsValue { data: JsDataView::Object { .. } }),
        ensures
            r is Ok <==> !name.spec_bytes().contains(0u8),
            r is Err ==> r == Err::<(), Error>(Error::InvalidParameter("Property name contains null bytes")) && *final(host) == *old(host),
            r is Ok ==> {
                &&& final(host).calls() == old(host).calls().push(CallView::JsObjectSetProperty { addr: self.addr(), private: false, name: name.spec_bytes(), value: value.addr() })
                &&& (old(host).obj(self.addr()) matches Some(ObjView::JsValue { data: JsDataView::Object { obj } })
                    && (final(host).obj(self.addr()) matches Some(ObjView::JsValue { data: JsDataView::Object { obj: newobj } })
                        && prop_lookup(newobj.props, name.spec_bytes()) == Some(value.addr())
                        && (forall|k: Seq<u8>| k != name.spec_bytes() ==> prop_lookup(newobj.props, k) == prop_lookup(obj.props, k))
                        && newobj.private_props == obj.private_props))
                &&& final(host).objs_same_except(*old(host), self.addr())
            },
    {
        let bytes = name.as_bytes();
        if contains_nul(bytes) {
            return Err(Error::InvalidParameter("Property name contains null bytes"));
        }
        let _ = attributes;
        host.js_object_set_prop(self.addr, false, bytes, value.as_raw());
        Ok(())
    }

    /// Delete the named property: afterwards it is unbound. Returns whether
    /// the property was bound before.
    pub fn delete_property(&self, host: &mut NativeHost, name: &str) -> (r: Result<bool, Error>)
        requires
            old(host).obj(self.addr()) matches Some(ObjView::JsValue { data: JsDataView::Object { .. } }),
        ensures
            r is Ok <==> !name.spec_bytes().contains(0u8),
            r is Err ==> r == Err::<bool, Error>(Error::InvalidParameter("Property name contains null bytes")) && *final(host) == *old(host),
            r matches Ok(was_bound) ==> {
                &&& (old(host).obj(self.addr()) matches Some(ObjView::JsValue { data: JsDataView::Object { obj } })
                    && was_bound == (match prop_lookup(obj.props, name.spec_bytes()) {
                        Some(v) => v != 0,
                        None => false,
                    })
                    && (final(host).obj(self.addr()) matches Some(ObjView::JsValue { data: JsDataView::Object { obj: newobj } })
                        && prop_lookup(newobj.props, name.spec_bytes()) == Some(0u64)
                        && (forall|k: Seq<u8>| k != name.spec_bytes() ==> prop_lookup(newobj.props, k) == prop_lookup(obj.props, k))))
                &&& final(host).objs_same_except(*old(host), self.addr())
            },
    {
        let bytes = name.as_bytes();
        if contains_nul(bytes) {
            return Err(Error::InvalidParameter("Property name contains null bytes"));
        }
        let was = host.js_object_get_prop(self.addr, false, bytes) != 0;
        host.js_object_set_prop(self.addr, false, bytes, 0);
        Ok(was)
    }

    /// Read the named private property: `Some` exactly when it is bound,
    /// `None` when it is absent — never a crash on absence.
    pub fn get_private_property(&self, host: &NativeHost, name: &str) -> (r: Result<Option<Value>, Error>)
        requires
            host.obj(self.addr()) matches Some(ObjView::JsValue { data: JsDataView::Object { .. } }),
        ensures
            r is Ok <==> !name.spec_bytes().contains(0u8),
            r is Err ==> r == Err::<Option<Value>, Error>(Error::InvalidParameter("Property name contains null bytes")),
            r matches Ok(opt) ==> (host.obj(self.addr()) matches Some(ObjView::JsValue { data: JsDataView::Object { obj } }) && {
                match prop_lookup(obj.private_props, name.spec_bytes()) {
                    Some(v) => if v != 0 {
                        opt matches Some(rv) && rv.addr() == v && rv.context_addr() == self.context_addr()
                    } else {
                        opt is None
                    },
                    None => opt is None,
                }
            }),
    {
        let bytes = name.as_bytes();
        if contains_nul(bytes) {
            return Err(Error::InvalidParameter("Property name contains null bytes"));
        }
        let ctx = self.context();
        let v = host.js_object_get_prop(self.addr, true, bytes);
        if v != 0 {
            Ok(Some(Value::from_raw_unchecked(&ctx, v)))
        } else {
            Ok(None)
        }
    }

    /// Bind or clear the named private property: `Some` binds the value,
    /// `None` removes the binding. Returns whether the write was accepted.
    pub fn set_private_property(&self, host: &mut NativeHost, name: &str, value: Option<&Value>) -> (r: Result<bool, Error>)
        requires
            old(host).obj(self.addr()) matches Some(ObjView::JsValue { data: JsDataView::Object { .. } }),
        ensures
            r is Ok <==> !name.spec_bytes().contains(0u8),
            r is Err ==> r == Err::<bool, Error>(Error::InvalidParameter("Property name contains null bytes")) && *final(host) == *old(host),
            r is Ok ==> {
                &&& (final(host).obj(self.addr()) matches Some(ObjView::JsValue { data: JsDataView::Object { obj: newobj } })
                    && prop_lookup(newobj.private_props, name.spec_bytes()) == Some(match value {
                        Some(v) => v.addr(),
                        None => 0u64,
                    }))
                &&& final(host).objs_same_except(*old(host), self.addr())
            },
    {
        let bytes = name.as_bytes();
        if contains_nul(bytes) {
            return Err(Error::InvalidParameter("Property name contains null bytes"));
        }
        let raw = match value {
            Some(v) => v.as_raw(),
            None => 0,
        };
        host.js_object_set_prop(self.addr, true, bytes, raw);
        Ok(true)
    }

    /// The object's private data pointer: `Some` exactly when one was set,
    /// `None` when the slot is absent — never a crash on absence.
    pub fn get_private(&self, host: &NativeHost) -> (r: Option<u64>)
        requires
            host.obj(self.addr()) matches Some(ObjView::JsValue { .. }),
        ensures
            host.obj(self.addr()) matches Some(ObjView::JsValue { data }) && r == (match data {
                JsDataView::Object { obj } => if obj.private_data != 0 {
                    Some(obj.private_data)
                } else {
                    None::<u64>
                },
                _ => None::<u64>,
            }),
    {
        let f = host.js_object_fields(self.addr);
        if f.0 != 0 {
            Some(f.0)
        } else {
            None
        }
    }

    /// Set the object's private data pointer; accepted exactly on objects.
    pub fn set_private(&self, host: &mut NativeHost, data: u64) -> (r: bool)
        requires
            old(host).obj(self.addr()) matches Some(ObjView::JsValue { .. }),
        ensures
            old(host).obj(self.addr()) matches Some(ObjView::JsValue { data: d }) && r == (d matches JsDataView::Object { .. }),
            final(host).obj(self.addr()) == match old(host).obj(self.addr()) {
                Some(ObjView::JsValue { data: JsDataView::Object { obj } }) =>
                    Some(ObjView::JsValue { data: JsDataView::Object { obj: crate::native::JsObjDataView { private_data: data, ..obj } } }),
                other => other,
            },
            final(host).objs_same_except(*old(host), self.addr()),
            final(host).calls() == old(host).calls(),
    {
        host.js_object_set_private(self.addr, data)
    }

    /// The global context this object lives in: `Some` exactly when the
    /// engine reports one — never a crash on absence.
    pub fn get_global_context(&self) -> (r: Option<Context>)
        ensures
            r is Some <==> self.context_addr() != 0,
            r matches Some(c) ==> c.addr() == self.context_addr(),
    {
        Context::from_raw(self.ctx)
    }

    /// The object this proxy stands for: `Some` exactly when the engine
    /// reports a target, `None` when this object is no proxy — never a
    /// crash on absence.
    pub fn get_proxy_target(&self, host: &NativeHost) -> (r: Option<Object>)
        requires
            host.obj(self.addr()) matches Some(ObjView::JsValue { .. }),
        ensures
            host.obj(self.addr()) matches Some(ObjView::JsValue { data }) && (match data {
                JsDataView::Object { obj } => {
                    &&& (r is Some <==> obj.proxy_target != 0)
                    &&& (r matches Some(t) ==> t.addr() == obj.proxy_target && t.context_addr() == self.context_addr())
                },
                _ => r is None,
            }),
    {
        let f = host.js_object_fields(self.addr);
        let ctx = self.context();
        Object::from_raw(&ctx, f.1)
    }

    /// The prototype of this instance's constructor: the `constructor`
    /// property converted to an object, then that object's `prototype`
    /// property converted to an object. The first step that yields no
    /// object fails with `InvalidType`; a missing property reads as
    /// undefined, which is no object.
    pub fn get_constructor_prototype(&self, host: &NativeHost) -> (r: Result<Object, Error>)
        requires
            host.obj(self.addr()) matches Some(ObjView::JsValue { data: JsDataView::Object { .. } }),
        ensures
            host.obj(self.addr()) matches Some(ObjView::JsValue { data: JsDataView::Object { obj } }) && (match prop_lookup(obj.props, "constructor".spec_bytes()) {
                Some(c) => if c != 0 {
                    match host.obj(c) {
                        Some(ObjView::JsValue { data: JsDataView::Object { obj: cobj } }) => match prop_lookup(cobj.props, "prototype".spec_bytes()) {
                            Some(p) => if p != 0 {
                                match host.obj(p) {
                                    Some(ObjView::JsValue { data: JsDataView::Object { .. } }) => r matches Ok(o) && o.addr() == p && o.context_addr() == self.context_addr(),
                                    _ => r == Err::<Object, Error>(Error::InvalidType("Prototype is not an object")),
                                }
                            } else {
                                r == Err::<Object, Error>(Error::InvalidType("Prototype is not an object"))
                            },
                            None => r == Err::<Object, Error>(Error::InvalidType("Prototype is not an object")),
                        },
                        _ => r == Err::<Object, Error>(Error::InvalidType("Constructor is not an object")),
                    }
                } else {
                    r == Err::<Object, Error>(Error::InvalidType("Constructor is not an object"))
                },
                None => r == Err::<Object, Error>(Error::InvalidType("Constructor is not an object")),
            }),
    {
        let c = host.js_object_get_prop(self.addr, false, "constructor".as_bytes());
        if c == 0 {
            return Err(Error::InvalidType("Constructor is not an object"));
        }
        if !host.js_value_exists(c) {
            return Err(Error::InvalidType("Constructor is not an object"));
        }
        if host.js_value_kind(c) != 5 {
            return Err(Error::InvalidType("Constructor is not an object"));
        }
        let p = host.js_object_get_prop(c, false, "prototype".as_bytes());
        if p == 0 {
            return Err(Error::InvalidType("Prototype is not an object"));
        }
        if !host.js_value_exists(p) {
            return Err(Error::InvalidType("Prototype is not an object"));
        }
        if host.js_value_kind(p) != 5 {
            return Err(Error::InvalidType("Prototype is not an object"));
        }
        let ctx = self.context();
        Ok(Object::from_raw_unchecked(&ctx, p))
    }

    /// Wrap a raw object address known to be nonzero.
    pub(crate) fn from_raw_unchecked(context: &Context, raw: u64) -> (r: Object)
        requires
            raw != 0,
        ensures
            r.addr() == raw,
            r.context_addr() == context.addr(),
    {
        Object { ctx: context.raw_for_spec(), addr: raw }
    }

    /// Whether the object is callable.
    pub fn is_function(&self, host: &NativeHost) -> (r: bool)
        requires
            host.obj(self.addr()) matches Some(ObjView::JsValue { .. }),
        ensures
            host.obj(self.addr()) matches Some(ObjView::JsValue { data }) && r == (match data {
                JsDataView::Object { obj } => obj.is_function,
                _ => false,
            }),
    {
        let f = host.js_object_fields(self.addr);
        f.2
    }

    /// Whether the object can construct.
    pub fn is_constructor(&self, host: &NativeHost) -> (r: bool)
        requires
            host.obj(self.addr()) matches Some(ObjView::JsValue { .. }),
        ensures
            host.obj(self.addr()) matches Some(ObjView::JsValue { data }) && r == (match data {
                JsDataView::Object { obj } => obj.is_constructor,
                _ => false,
            }),
    {
        let f = host.js_object_fields(self.addr);
        f.3
    }

    /// Call the object as a function. A non-callable object is refused with
    /// `UnsupportedOperation` before any native call; otherwise exactly one
    /// native call crosses with this-object and the argument values in
    /// order, and the outcome is whatever the engine decides: the staged
    /// result, or an exception converted into `JSException`.
    pub fn call(&self, host: &mut NativeHost, this_object: Option<&Object>, arguments: &Vec<Value>) -> (r: Result<Value, Error>)
        requires
            old(host).obj(self.addr()) matches Some(ObjView::JsValue { .. }),
            old(host).allocated() < usize::MAX as nat,
        ensures
            old(host).obj(self.addr()) matches Some(ObjView::JsValue { data }) && (match data {
                JsDataView::Object { obj } => {
                    &&& !obj.is_function ==> r == Err::<Value, Error>(Error::UnsupportedOperation("Object is not callable")) && *final(host) == *old(host)
                    &&& obj.is_function ==> {
                        &&& (r is Ok <==> (old(host).js_call_queue().len() == 0
                            || (old(host).js_call_queue()[0].0 && old(host).js_call_queue()[0].1 != 0)))
                        &&& final(host).calls() == old(host).calls().push(CallView::JsCallFunction {
                            addr: self.addr(),
                            this: match this_object {
                                Some(t) => t.addr(),
                                None => 0,
                            },
                            args: arguments@.map_values(|v: Value| v.addr()),
                        })
                        &&& final(host).js_call_queue() == if old(host).js_call_queue().len() > 0 {
                            old(host).js_call_queue().drop_first()
                        } else {
                            old(host).js_call_queue()
                        }
                        &&& (old(host).js_call_queue().len() == 0 ==> (
                            r matches Ok(v) && v.addr() != 0
                                && final(host).obj(v.addr()) == Some(ObjView::JsValue { data: JsDataView::Undefined })
                        ))
                        &&& (old(host).js_call_queue().len() > 0 && old(host).js_call_queue()[0].0 && old(host).js_call_queue()[0].1 != 0 ==> (
                            r matches Ok(v) && v.addr() == old(host).js_call_queue()[0].1
                        ))
                        &&& (old(host).js_call_queue().len() > 0 && !old(host).js_call_queue()[0].0 ==> {
                            &&& r is Err
                            &&& ({
                                let exc = old(host).js_call_queue()[0].1;
                                exc != 0 && (old(host).obj(exc) matches Some(ObjView::JsValue { .. })) ==> (
                                    r matches Err(e) && crate::javascript_core::exception::exception_error(*final(host), exc, e)
                                )
                            })
                        })
                    }
                },
                _ => r == Err::<Value, Error>(Error::UnsupportedOperation("Object is not callable")) && *final(host) == *old(host),
            }),
    {
        let f = host.js_object_fields(self.addr);
        if !f.2 {
            return Err(Error::UnsupportedOperation("Object is not callable"));
        }
        let this_raw = match this_object {
            Some(t) => t.as_raw(),
            None => 0,
        };
        let ctx = self.context();
        let addrs = arg_addrs(arguments);
        let (result, exception) = host.js_call_function(self.addr, this_raw, addrs.as_slice());
        if exception != 0 {
            if host.js_value_exists(exception) {
                return Err(Error::from_js_exception(host, &ctx, exception));
            }
            return Err(Error::JSError(vstd::slice::slice_to_vec("Call raised an exception".as_bytes())));
        }
        match Value::from_raw(&ctx, result) {
            Some(v) => Ok(v),
            None => Err(Error::JSError(vstd::slice::slice_to_vec("Call returned null".as_bytes()))),
        }
    }

    /// Call the object as a constructor. A non-constructor is refused with
    /// `UnsupportedOperation` before any native call; otherwise exactly one
    /// native call crosses with the argument values in order.
    pub fn construct(&self, host: &mut NativeHost, arguments: &Vec<Value>) -> (r: Result<Object, Error>)
        requires
            old(host).obj(self.addr()) matches Some(ObjView::JsValue { .. }),
            old(host).allocated() < usize::MAX as nat,
        ensures
            old(host).obj(self.addr()) matches Some(ObjView::JsValue { data }) && (match data {
                JsDataView::Object { obj } => {
                    &&& !obj.is_constructor ==> r == Err::<Object, Error>(Error::UnsupportedOperation("Object is not a constructor")) && *final(host) == *old(host)
                    &&& obj.is_constructor ==> {
                        &&& (r is Ok <==> (old(host).js_call_queue().len() == 0
                            || (old(host).js_call_queue()[0].0 && old(host).js_call_queue()[0].1 != 0)))
                        &&& final(host).calls() == old(host).calls().push(CallView::JsCallConstructor {
                            addr: self.addr(),
                            args: arguments@.map_values(|v: Value| v.addr()),
                        })
                        &&& final(host).js_call_queue() == if old(host).js_call_queue().len() > 0 {
                            old(host).js_call_queue().drop_first()
                        } else {
                            old(host).js_call_queue()
                        }
                        &&& (old(host).js_call_queue().len() == 0 ==> (
                            r matches Ok(o) && o.addr() != 0
                        ))
                        &&& (old(host).js_call_queue().len() > 0 && old(host).js_call_queue()[0].0 && old(host).js_call_queue()[0].1 != 0 ==> (
                            r matches Ok(o) && o.addr() == old(host).js_call_queue()[0].1
                        ))
                        &&& (old(host).js_call_queue().len() > 0 && !old(host).js_call_queue()[0].0 ==> {
                            &&& r is Err
                            &&& ({
                                let exc = old(host).js_call_queue()[0].1;
                                exc != 0 && (old(host).obj(exc) matches Some(ObjView::JsValue { .. })) ==> (
                                    r matches Err(e) && crate::javascript_core::exception::exception_error(*final(host), exc, e)
                                )
                            })
                        })
                    }
                },
                _ => r == Err::<Object, Error>(Error::UnsupportedOperation("Object is not a constructor")) && *final(host) == *old(host),
            }),
    {
        let f = host.js_object_fields(self.addr);
        if !f.3 {
            return Err(Error::UnsupportedOperation("Object is not a constructor"));
        }
        let ctx = self.context();
        let addrs = arg_addrs(arguments);
        let (result, exception) = host.js_call_constructor(self.addr, addrs.as_slice());
        if exception != 0 {
            if host.js_value_exists(exception) {
                return Err(Error::from_js_exception(host, &ctx, exception));
            }
            return Err(Error::JSError(vstd::slice::slice_to_vec("Construction raised an exception".as_bytes())));
        }
        match Object::from_raw(&ctx, result) {
            Some(o) => Ok(o),
            None => Err(Error::JSError(vstd::slice::slice_to_vec("Construction returned null".as_bytes()))),
        }
    }
}

/// Receiver for invocations of a host-backed function object.
pub trait FunctionCallback: Send {
    /// Called when the engine invokes the function object.
    fn call(&self, host: &mut NativeHost, ctx: &Context, function: &Object, this: Option<&Object>, args: &Vec<Value>) -> Result<Value, Error>;
}

/// A function object backed by host-side behavior: the object the engine
/// sees, together with the callback its trampoline dispatches into.
pub struct NativeFunction {
    object: Object,
    callback: Box<dyn FunctionCallback>,
}

impl NativeFunction {
    /// The native address of the function object.
    pub closed spec fn addr(self) -> u64 {
        self.object.addr()
    }

    /// Create a callable function object around host-side behavior.
    pub fn with_callback(host: &mut NativeHost, context: &Context, callback: Box<dyn FunctionCallback>) -> (r: Option<NativeFunction>)
        ensures
            r is Some <==> old(host).allocated() < usize::MAX as nat,
            r matches Some(f) ==> {
                &&& f.addr() != 0
                &&& final(host).obj(f.addr()) matches Some(ObjView::JsValue { data: JsDataView::Object { obj } }) && obj.is_function
                &&& final(host).objs_same_except(*old(host), f.addr())
                &&& final(host).calls() == old(host).calls()
            },
    {
        let god = JsObjData {
            props: Vec::new(),
            private_props: Vec::new(),
            private_data: 0,
            proxy_target: 0,
            str_repr: None,
            is_function: true,
            is_constructor: false,
            class_of: 0,
            typed_array_kind: None,
            ta_length: 0,
            ta_byte_offset: 0,
            ta_byte_length: 0,
            ta_buffer: 0,
        };
        let raw = host.js_value_make(JsData::Object { obj: god });
        match Object::from_raw(context, raw) {
            Some(object) => Some(NativeFunction { object, callback }),
            None => None,
        }
    }

    /// The function object the engine sees.
    pub fn as_object(&self) -> (r: &Object)
        ensures
            r.addr() == self.addr(),
    {
        &self.object
    }

    /// Deliver the engine's invocation of this function object: raw
    /// arguments are checked for null and wrapped, the callback runs, and
    /// an error result becomes an exception value. Returns the result's and
    /// the exception's raw addresses.
    pub fn invoke(&self, host: &mut NativeHost, ctx: &Context, this: u64, args: &Vec<u64>) -> (r: (u64, u64))
        requires
            forall|i: int| 0 <= i < args@.len() ==> args@[i] != 0,
    {
        let this_obj = Object::from_raw(ctx, this);
        let values = wrap_args(ctx, args);
        match self.callback.call(host, ctx, &self.object, this_obj.as_ref(), &values) {
            Ok(v) => (v.as_raw(), 0),
            Err(e) => (0, e.to_js_error(host, ctx).as_raw()),
        }
    }
}

} // verus!
