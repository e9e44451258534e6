//! The script-engine bridge: values, objects, exceptions, classes, and
//! typed arrays against staged engine outcomes.

use std::sync::{Arc, Mutex};

use ulkit::javascript_core::{
    ArrayBuffer, Class, ClassAttributes, ClassDefinition, ClassHandler, Context, Error,
    FunctionCallback, GlobalContext, JSType, JSTypedArrayType, NativeFunction, Object,
    PropertyAttributes, StaticFunction, StaticValue, TypedArray, TypedArrayType, Value, ValueType,
};
use ulkit::native::{JsData, JsObjData, NativeCall, NativeHost};

fn plain_object_data() -> JsObjData {
    JsObjData {
        props: Vec::new(),
        private_props: Vec::new(),
        private_data: 0,
        proxy_target: 0,
        str_repr: None,
        is_function: false,
        is_constructor: false,
        class_of: 0,
        typed_array_kind: None,
        ta_length: 0,
        ta_byte_offset: 0,
        ta_byte_length: 0,
        ta_buffer: 0,
    }
}

#[test]
fn value_constructors_and_conversions() {
    let mut host = NativeHost::new();
    let gc = GlobalContext::new(&mut host).unwrap();
    let ctx = gc.context();

    let u = Value::undefined(&mut host, &ctx).unwrap();
    assert_eq!(u.get_type(&host), ValueType::Undefined);
    assert!(u.is_undefined(&host));
    assert!(!u.to_boolean(&host));

    let n = Value::null(&mut host, &ctx).unwrap();
    assert!(n.is_null(&host));
    assert_eq!(n.to_number(&host).unwrap(), 0);

    let b = Value::boolean(&mut host, &ctx, true).unwrap();
    assert!(b.is_boolean(&host));
    assert!(b.to_boolean(&host));
    assert_eq!(b.to_number(&host).unwrap(), 1);
    assert_eq!(b.to_string_bytes(&host).unwrap(), b"true".to_vec());

    let i = Value::integer(&mut host, &ctx, -42).unwrap();
    assert!(i.is_number(&host));
    assert_eq!(i.get_type(&host), ValueType::Number);
    assert_eq!(i.to_number(&host).unwrap(), -42);
    assert!(i.to_boolean(&host));
    assert_eq!(i.to_string_bytes(&host).unwrap(), b"-42".to_vec());
    let zero = Value::integer(&mut host, &ctx, 0).unwrap();
    assert_eq!(zero.to_string_bytes(&host).unwrap(), b"0".to_vec());
    let big = Value::integer(&mut host, &ctx, 90210).unwrap();
    assert_eq!(big.to_string_bytes(&host).unwrap(), b"90210".to_vec());

    let s = Value::string(&mut host, &ctx, "hi").unwrap();
    assert!(s.is_string(&host));
    assert_eq!(s.to_string_bytes(&host).unwrap(), b"hi".to_vec());
    assert!(matches!(s.to_number(&host), Err(Error::InvalidType(_))));
    let bare = Object::new(&mut host, &ctx).unwrap().to_value();
    assert!(matches!(bare.to_string_bytes(&host), Err(Error::InvalidType(_))));
    assert!(matches!(
        Value::string(&mut host, &ctx, "h\0i"),
        Err(Error::InvalidParameter(_))
    ));

    s.protect(&mut host);
    s.unprotect(&mut host);
    assert!(matches!(
        host.log().last().unwrap(),
        NativeCall::JsValueUnprotect { .. }
    ));

    gc.release(&mut host);
}

#[test]
fn evaluation_returns_the_staged_value() {
    let mut host = NativeHost::new();
    let gc = GlobalContext::new(&mut host).unwrap();
    let seven = host.stage_js_value(JsData::Number { n: 7 });
    host.stage_js_eval(true, seven);
    let v = gc.evaluate_script(&mut host, "3 + 4", None, 1).unwrap();
    assert_eq!(v.as_raw(), seven);
    assert_eq!(v.to_number(&host).unwrap(), 7);
    // without anything staged the engine yields undefined
    let u = gc.evaluate_script(&mut host, "void 0", None, 1).unwrap();
    assert!(u.is_undefined(&host));
    // a script with an embedded NUL byte never reaches the engine
    assert!(matches!(
        gc.evaluate_script(&mut host, "bad\0", None, 1),
        Err(Error::InvalidParameter(_))
    ));
    gc.release(&mut host);
}

#[test]
fn exception_metadata_is_extracted_best_effort() {
    let mut host = NativeHost::new();
    let gc = GlobalContext::new(&mut host).unwrap();

    let url = host.stage_js_value(JsData::Text { bytes: b"app.js".to_vec() });
    let line = host.stage_js_value(JsData::Number { n: 10 });
    let column = host.stage_js_value(JsData::Number { n: 4 });
    let stack = host.stage_js_value(JsData::Text { bytes: b"boom at app.js:10".to_vec() });
    let mut exc_data = plain_object_data();
    exc_data.str_repr = Some(b"Error: boom".to_vec());
    exc_data.props = vec![
        (b"sourceURL".to_vec(), url),
        (b"line".to_vec(), line),
        (b"column".to_vec(), column),
        (b"stack".to_vec(), stack),
    ];
    let exc = host.stage_js_value(JsData::Object { obj: exc_data });
    host.stage_js_eval(false, exc);

    match gc.evaluate_script(&mut host, "throw new Error('boom')", None, 1) {
        Err(Error::JSException { message, source_url, line, column, stack_trace }) => {
            assert_eq!(message, b"Error: boom".to_vec());
            assert_eq!(source_url, Some(b"app.js".to_vec()));
            assert_eq!(line, Some(10));
            assert_eq!(column, Some(4));
            assert_eq!(stack_trace, Some(b"boom at app.js:10".to_vec()));
        }
        other => panic!("expected an exception, got {:?}", other.map(|v| v.as_raw())),
    }

    // an exception without inspectable properties extracts nothing extra
    let mut bare = plain_object_data();
    bare.str_repr = Some(b"Error: plain".to_vec());
    let exc2 = host.stage_js_value(JsData::Object { obj: bare });
    host.stage_js_eval(false, exc2);
    match gc.evaluate_script(&mut host, "throw x", None, 1) {
        Err(Error::JSException { message, source_url, line, column, stack_trace }) => {
            assert_eq!(message, b"Error: plain".to_vec());
            assert!(source_url.is_none());
            assert!(line.is_none());
            assert!(column.is_none());
            assert!(stack_trace.is_none());
        }
        _ => panic!("expected an exception"),
    }
    gc.release(&mut host);
}

#[test]
fn properties_read_and_write_through_the_object_interface() {
    let mut host = NativeHost::new();
    let gc = GlobalContext::new(&mut host).unwrap();
    let ctx = gc.context();
    let obj = Object::new(&mut host, &ctx).unwrap();

    let v = Value::integer(&mut host, &ctx, 5).unwrap();
    obj.set_property(&mut host, "x", &v, PropertyAttributes::none())
        .unwrap();
    assert!(obj.has_property(&host, "x"));
    let got = obj.get_property(&mut host, "x").unwrap();
    assert_eq!(got.as_raw(), v.as_raw());

    // an unbound property reads as undefined
    let missing = obj.get_property(&mut host, "y").unwrap();
    assert!(missing.is_undefined(&host));

    // deletion reports whether the property was bound
    assert!(obj.delete_property(&mut host, "x").unwrap());
    assert!(!obj.has_property(&host, "x"));
    assert!(!obj.delete_property(&mut host, "x").unwrap());

    gc.release(&mut host);
}

#[test]
fn absent_private_data_reads_as_none() {
    let mut host = NativeHost::new();
    let gc = GlobalContext::new(&mut host).unwrap();
    let ctx = gc.context();
    let obj = Object::new(&mut host, &ctx).unwrap();

    assert!(obj.get_private_property(&host, "secret").unwrap().is_none());
    let v = Value::integer(&mut host, &ctx, 9).unwrap();
    obj.set_private_property(&mut host, "secret", Some(&v)).unwrap();
    let got = obj.get_private_property(&host, "secret").unwrap().unwrap();
    assert_eq!(got.as_raw(), v.as_raw());
    obj.set_private_property(&mut host, "secret", None).unwrap();
    assert!(obj.get_private_property(&host, "secret").unwrap().is_none());

    assert!(obj.get_private(&host).is_none());
    assert!(obj.set_private(&mut host, 1234));
    assert_eq!(obj.get_private(&host), Some(1234));

    gc.release(&mut host);
}

#[test]
fn absent_proxy_target_reads_as_none() {
    let mut host = NativeHost::new();
    let gc = GlobalContext::new(&mut host).unwrap();
    let ctx = gc.context();

    let plain = Object::new(&mut host, &ctx).unwrap();
    assert!(plain.get_proxy_target(&host).is_none());

    let target = Object::new(&mut host, &ctx).unwrap();
    let mut proxy_data = plain_object_data();
    proxy_data.proxy_target = target.as_raw();
    let proxy_raw = host.stage_js_value(JsData::Object { obj: proxy_data });
    let proxy = Object::from_raw(&ctx, proxy_raw).unwrap();
    let found = proxy.get_proxy_target(&host).unwrap();
    assert_eq!(found.as_raw(), target.as_raw());

    gc.release(&mut host);
}

#[test]
fn constructor_prototype_goes_through_the_constructor() {
    let mut host = NativeHost::new();
    let gc = GlobalContext::new(&mut host).unwrap();
    let ctx = gc.context();

    // an instance without a constructor binding fails at the first step
    let instance = Object::new(&mut host, &ctx).unwrap();
    assert!(matches!(
        instance.get_constructor_prototype(&host),
        Err(Error::InvalidType(_))
    ));

    // the chain: instance.constructor.prototype
    let ctor = Object::new(&mut host, &ctx).unwrap();
    let proto = Object::new(&mut host, &ctx).unwrap();
    ctor.set_property(&mut host, "prototype", &proto.to_value(), PropertyAttributes::none())
        .unwrap();
    instance
        .set_property(&mut host, "constructor", &ctor.to_value(), PropertyAttributes::none())
        .unwrap();
    let got = instance.get_constructor_prototype(&host).unwrap();
    assert_eq!(got.as_raw(), proto.as_raw());

    // a constructor whose prototype is no object fails at the second step
    let not_an_object = Value::integer(&mut host, &ctx, 1).unwrap();
    ctor.set_property(&mut host, "prototype", &not_an_object, PropertyAttributes::none())
        .unwrap();
    assert!(matches!(
        instance.get_constructor_prototype(&host),
        Err(Error::InvalidType(_))
    ));

    // the instance's own prototype binding is not consulted
    let own = Object::new(&mut host, &ctx).unwrap();
    let own_proto = Object::new(&mut host, &ctx).unwrap();
    own.set_property(&mut host, "prototype", &own_proto.to_value(), PropertyAttributes::none())
        .unwrap();
    assert!(matches!(
        own.get_constructor_prototype(&host),
        Err(Error::InvalidType(_))
    ));

    gc.release(&mut host);
}

#[test]
fn calling_a_non_function_is_refused_before_any_native_call() {
    let mut host = NativeHost::new();
    let gc = GlobalContext::new(&mut host).unwrap();
    let ctx = gc.context();
    let obj = Object::new(&mut host, &ctx).unwrap();
    let before = host.log_len();
    assert!(matches!(
        obj.call(&mut host, None, &Vec::new()),
        Err(Error::UnsupportedOperation(_))
    ));
    assert!(matches!(
        obj.construct(&mut host, &Vec::new()),
        Err(Error::UnsupportedOperation(_))
    ));
    assert_eq!(host.log_len(), before);
    gc.release(&mut host);
}

#[test]
fn staged_function_call_returns_its_value() {
    let mut host = NativeHost::new();
    let gc = GlobalContext::new(&mut host).unwrap();
    let ctx = gc.context();
    let mut fn_data = plain_object_data();
    fn_data.is_function = true;
    fn_data.is_constructor = true;
    let f_raw = host.stage_js_value(JsData::Object { obj: fn_data });
    let f = Object::from_raw(&ctx, f_raw).unwrap();
    assert!(f.is_function(&host));
    assert!(f.is_constructor(&host));

    let result = host.stage_js_value(JsData::Number { n: 99 });
    host.stage_js_call(true, result);
    let arg_a = Value::integer(&mut host, &ctx, 1).unwrap();
    let arg_b = Value::integer(&mut host, &ctx, 2).unwrap();
    let v = f.call(&mut host, None, &vec![arg_a, arg_b]).unwrap();
    assert_eq!(v.as_raw(), result);
    // the recorded call carries the argument values in order
    assert_eq!(
        *host.log().last().unwrap(),
        NativeCall::JsCallFunction { addr: f.as_raw(), this: 0, args: vec![arg_a.as_raw(), arg_b.as_raw()] }
    );

    // a staged exception surfaces as the extracted error
    let mut exc_data = plain_object_data();
    exc_data.str_repr = Some(b"Error: call failed".to_vec());
    let exc = host.stage_js_value(JsData::Object { obj: exc_data });
    host.stage_js_call(false, exc);
    match f.call(&mut host, None, &Vec::new()) {
        Err(Error::JSException { message, .. }) => assert_eq!(message, b"Error: call failed".to_vec()),
        _ => panic!("expected an exception"),
    }

    let made = host.stage_js_value(JsData::Object { obj: plain_object_data() });
    host.stage_js_call(true, made);
    let o = f.construct(&mut host, &Vec::new()).unwrap();
    assert_eq!(o.as_raw(), made);
    gc.release(&mut host);
}

struct RecordingHandler {
    log: Arc<Mutex<Vec<String>>>,
}

impl ClassHandler for RecordingHandler {
    fn initialize(&self, _host: &mut NativeHost, _ctx: &Context, _object: &Object) {
        self.log.lock().unwrap().push("initialize".into());
    }
    fn finalize(&self, _object_addr: u64) {
        self.log.lock().unwrap().push("finalize".into());
    }
    fn has_property(&self, _host: &mut NativeHost, _ctx: &Context, _object: &Object, name: &[u8]) -> bool {
        name == b"known"
    }
    fn get_property(&self, host: &mut NativeHost, ctx: &Context, _object: &Object, name: &[u8]) -> Result<Value, Error> {
        self.log.lock().unwrap().push(format!("get {}", String::from_utf8_lossy(name)));
        if name == b"known" {
            Ok(Value::integer(host, ctx, 31).unwrap())
        } else {
            Err(Error::NullAccess("No such property"))
        }
    }
    fn set_property(&self, _host: &mut NativeHost, _ctx: &Context, _object: &Object, _name: &[u8], _value: Value) -> Result<bool, Error> {
        Ok(true)
    }
    fn delete_property(&self, _host: &mut NativeHost, _ctx: &Context, _object: &Object, _name: &[u8]) -> Result<bool, Error> {
        Ok(false)
    }
    fn call_as_function(&self, host: &mut NativeHost, ctx: &Context, _function: &Object, _this: Option<&Object>, args: &Vec<Value>) -> Result<Value, Error> {
        Ok(Value::integer(host, ctx, args.len() as i64).unwrap())
    }
    fn call_as_constructor(&self, host: &mut NativeHost, ctx: &Context, _constructor: &Object, _args: &Vec<Value>) -> Result<Object, Error> {
        Ok(Object::new(host, ctx).unwrap())
    }
    fn has_instance(&self, _host: &mut NativeHost, _ctx: &Context, _constructor: &Object, _instance: &Value) -> Result<bool, Error> {
        Ok(true)
    }
    fn convert_to_type(&self, host: &mut NativeHost, ctx: &Context, _object: &Object, kind: JSType) -> Result<Value, Error> {
        match kind {
            JSType::kJSTypeNumber => Ok(Value::integer(host, ctx, 1).unwrap()),
            _ => Err(Error::UnsupportedOperation("No conversion")),
        }
    }
    fn static_value_getter(&self, host: &mut NativeHost, ctx: &Context, _object: &Object, name: &[u8]) -> Result<Value, Error> {
        self.log.lock().unwrap().push(format!("static get {}", String::from_utf8_lossy(name)));
        Ok(Value::integer(host, ctx, 7).unwrap())
    }
    fn static_value_setter(&self, _host: &mut NativeHost, _ctx: &Context, _object: &Object, _name: &[u8], _value: Value) -> Result<bool, Error> {
        Ok(true)
    }
    fn static_function(&self, host: &mut NativeHost, ctx: &Context, _function: &Object, _this: Option<&Object>, name: &[u8], args: &Vec<Value>) -> Result<Value, Error> {
        self.log.lock().unwrap().push(format!("call {}({})", String::from_utf8_lossy(name), args.len()));
        Ok(Value::integer(host, ctx, 1).unwrap())
    }
}

#[test]
fn class_registration_records_its_shape() {
    let mut host = NativeHost::new();
    let calls = Arc::new(Mutex::new(Vec::new()));
    let definition = ClassDefinition {
        class_name: "Point".to_string(),
        attributes: ClassAttributes::none(),
        static_values: vec![
            StaticValue { name: "x".to_string(), has_getter: true, has_setter: true },
            StaticValue { name: "frozen".to_string(), has_getter: true, has_setter: false },
        ],
        static_functions: vec![StaticFunction { name: "norm".to_string() }],
        callback_flags: 0b111,
        handler: Some(Box::new(RecordingHandler { log: calls.clone() })),
    };
    let class = Class::new(&mut host, definition).unwrap();
    assert!(matches!(
        host.log().last().unwrap(),
        NativeCall::JsClassCreate { .. }
    ));
    class.release(&mut host);
}

#[test]
fn class_name_with_nul_is_rejected() {
    let mut host = NativeHost::new();
    let definition = ClassDefinition {
        class_name: "Bad\0Name".to_string(),
        attributes: ClassAttributes::none(),
        static_values: Vec::new(),
        static_functions: Vec::new(),
        callback_flags: 0,
        handler: None,
    };
    assert!(matches!(
        Class::new(&mut host, definition),
        Err(Error::InvalidParameter(_))
    ));
}

#[test]
fn class_dispatch_reaches_the_handler_by_name() {
    let mut host = NativeHost::new();
    let gc = GlobalContext::new(&mut host).unwrap();
    let ctx = gc.context();
    let calls = Arc::new(Mutex::new(Vec::new()));
    let definition = ClassDefinition {
        class_name: "Point".to_string(),
        attributes: ClassAttributes::none(),
        static_values: vec![StaticValue { name: "x".to_string(), has_getter: true, has_setter: false }],
        static_functions: vec![StaticFunction { name: "norm".to_string() }],
        callback_flags: 0,
        handler: Some(Box::new(RecordingHandler { log: calls.clone() })),
    };
    let class = Class::new(&mut host, definition).unwrap();
    let instance = Object::new(&mut host, &ctx).unwrap();

    // instance slots
    let (r, exc) = class.dispatch_get_property(&mut host, &ctx, instance.as_raw(), b"known");
    assert_ne!(r, 0);
    assert_eq!(exc, 0);
    let (r, exc) = class.dispatch_get_property(&mut host, &ctx, instance.as_raw(), b"other");
    assert_eq!(r, 0);
    assert_ne!(exc, 0, "the handler's error became an exception value");
    assert!(class.dispatch_has_property(&mut host, &ctx, instance.as_raw(), b"known"));

    // static value getter only fires for a registered name with a getter
    let (r, _) = class.dispatch_static_value_getter(&mut host, &ctx, instance.as_raw(), b"x");
    assert_ne!(r, 0);
    let (r, _) = class.dispatch_static_value_getter(&mut host, &ctx, instance.as_raw(), b"y");
    assert_eq!(r, 0);

    // the write of a getter-only value never reaches the handler
    let v = Value::integer(&mut host, &ctx, 3).unwrap();
    let (handled, _) = class.dispatch_static_value_setter(&mut host, &ctx, instance.as_raw(), b"x", v.as_raw());
    assert!(!handled);

    // static functions dispatch by name; unknown names fall through
    let args = vec![v.as_raw()];
    let (r, exc) = class.dispatch_static_function(&mut host, &ctx, instance.as_raw(), 0, b"norm", &args);
    assert_ne!(r, 0);
    assert_eq!(exc, 0);
    let (r, _) = class.dispatch_static_function(&mut host, &ctx, instance.as_raw(), 0, b"missing", &args);
    assert_eq!(r, 0);

    assert_eq!(
        *calls.lock().unwrap(),
        vec![
            "get known".to_string(),
            "get other".to_string(),
            "static get x".to_string(),
            "call norm(1)".to_string(),
        ]
    );
    class.release(&mut host);
    gc.release(&mut host);
}

struct Doubler;

impl FunctionCallback for Doubler {
    fn call(&self, host: &mut NativeHost, ctx: &Context, _function: &Object, _this: Option<&Object>, args: &Vec<Value>) -> Result<Value, Error> {
        let n = args[0].to_number(host)?;
        Ok(Value::integer(host, ctx, n * 2).unwrap())
    }
}

#[test]
fn host_backed_function_objects_dispatch_into_their_callback() {
    let mut host = NativeHost::new();
    let gc = GlobalContext::new(&mut host).unwrap();
    let ctx = gc.context();
    let f = NativeFunction::with_callback(&mut host, &ctx, Box::new(Doubler)).unwrap();
    assert!(f.as_object().is_function(&host));

    let arg = Value::integer(&mut host, &ctx, 21).unwrap();
    let (r, exc) = f.invoke(&mut host, &ctx, 0, &vec![arg.as_raw()]);
    assert_eq!(exc, 0);
    let result = Value::from_raw(&ctx, r).unwrap();
    assert_eq!(result.to_number(&host).unwrap(), 42);

    // a non-numeric argument makes the callback's error an exception value
    let bad = Value::string(&mut host, &ctx, "nope").unwrap();
    let (r, exc) = f.invoke(&mut host, &ctx, 0, &vec![bad.as_raw()]);
    assert_eq!(r, 0);
    assert_ne!(exc, 0);
    gc.release(&mut host);
}

#[test]
fn typed_arrays_size_their_buffers_exactly() {
    let mut host = NativeHost::new();
    let gc = GlobalContext::new(&mut host).unwrap();
    let ctx = gc.context();

    let ta = TypedArray::new(&mut host, &ctx, TypedArrayType::Uint32Array, 5).unwrap();
    assert_eq!(ta.array_type(), TypedArrayType::Uint32Array);
    assert_eq!(ta.length(&host), 5);
    assert_eq!(ta.byte_length(&host), 20);
    assert_eq!(ta.byte_offset(&host), 0);

    let same = TypedArray::from_object(&host, *ta.as_object()).unwrap();
    assert_eq!(same.array_type(), TypedArrayType::Uint32Array);

    let plain = Object::new(&mut host, &ctx).unwrap();
    assert!(matches!(
        TypedArray::from_object(&host, plain),
        Err(Error::InvalidType(_))
    ));

    let buffer = ArrayBuffer::new(&mut host, &ctx, 16).unwrap();
    assert_eq!(buffer.byte_length(&host), 16);
    assert_eq!(buffer.as_typed_array().array_type(), TypedArrayType::ArrayBuffer);
    assert!(matches!(
        ArrayBuffer::from_object(&host, plain),
        Err(Error::InvalidType(_))
    ));
    let same_buffer = ArrayBuffer::from_object(&host, *buffer.as_object()).unwrap();
    assert_eq!(same_buffer.byte_length(&host), 16);

    gc.release(&mut host);
}

#[test]
fn element_sizes_follow_the_engine_exactly() {
    assert_eq!(TypedArrayType::Int8Array.element_size(), 1);
    assert_eq!(TypedArrayType::Uint8Array.element_size(), 1);
    assert_eq!(TypedArrayType::Uint8ClampedArray.element_size(), 1);
    assert_eq!(TypedArrayType::Int16Array.element_size(), 2);
    assert_eq!(TypedArrayType::Uint16Array.element_size(), 2);
    assert_eq!(TypedArrayType::Int32Array.element_size(), 4);
    assert_eq!(TypedArrayType::Uint32Array.element_size(), 4);
    assert_eq!(TypedArrayType::Float32Array.element_size(), 4);
    assert_eq!(TypedArrayType::Float64Array.element_size(), 8);
    assert_eq!(TypedArrayType::BigInt64Array.element_size(), 8);
    assert_eq!(TypedArrayType::BigUint64Array.element_size(), 8);
    assert_eq!(TypedArrayType::ArrayBuffer.element_size(), 1);
}

#[test]
fn typed_array_tags_round_trip_through_the_engine_enum() {
    for ty in [
        TypedArrayType::Int8Array,
        TypedArrayType::Int16Array,
        TypedArrayType::Int32Array,
        TypedArrayType::Uint8Array,
        TypedArrayType::Uint8ClampedArray,
        TypedArrayType::Uint16Array,
        TypedArrayType::Uint32Array,
        TypedArrayType::Float32Array,
        TypedArrayType::Float64Array,
        TypedArrayType::BigInt64Array,
        TypedArrayType::BigUint64Array,
        TypedArrayType::ArrayBuffer,
    ] {
        assert_eq!(TypedArrayType::from_ffi(ty.to_ffi()), Some(ty));
    }
    assert_eq!(
        TypedArrayType::from_ffi(JSTypedArrayType::kJSTypedArrayTypeNone),
        None
    );
}

#[test]
fn syntax_checks_return_the_staged_verdict() {
    let mut host = NativeHost::new();
    let gc = GlobalContext::new(&mut host).unwrap();
    let ctx = gc.context();
    // without anything staged the check accepts
    assert!(ctx.check_script_syntax(&mut host, "1 + 1", None, 1).unwrap());
    host.stage_js_syntax(false);
    assert!(!ctx.check_script_syntax(&mut host, "1 +", None, 1).unwrap());
    assert!(matches!(
        ctx.check_script_syntax(&mut host, "1\0+ 1", None, 1),
        Err(Error::InvalidParameter(_))
    ));
    assert_eq!(ctx.group(&host), 0);
    let obj = Object::new(&mut host, &ctx).unwrap();
    assert_eq!(obj.get_global_context().unwrap().as_raw(), ctx.as_raw());
    gc.release(&mut host);
}

#[test]
fn context_bookkeeping_works() {
    let mut host = NativeHost::new();
    let gc = GlobalContext::new(&mut host).unwrap();
    assert_eq!(gc.name(&host), Vec::<u8>::new());
    gc.set_name(&mut host, "main").unwrap();
    assert_eq!(gc.name(&host), b"main".to_vec());
    assert!(gc.set_name(&mut host, "ma\0in").is_err());
    assert!(!gc.is_inspectable(&host));
    gc.set_inspectable(&mut host, true);
    assert!(gc.is_inspectable(&host));
    gc.garbage_collect(&mut host);
    assert!(matches!(
        host.log().last().unwrap(),
        NativeCall::JsGarbageCollect { .. }
    ));
    let global = gc.global_object(&host).unwrap();
    assert_ne!(global.as_raw(), 0);
    assert_eq!(global.context().as_raw(), gc.as_raw());
    assert_eq!(global.to_value().as_raw(), global.as_raw());
    gc.release(&mut host);
}

#[test]
fn class_static_names_with_nul_are_rejected() {
    let mut host = NativeHost::new();
    let definition = ClassDefinition {
        class_name: "Fine".to_string(),
        attributes: ClassAttributes::none(),
        static_values: vec![StaticValue { name: "ba\0d".to_string(), has_getter: true, has_setter: false }],
        static_functions: Vec::new(),
        callback_flags: 0,
        handler: None,
    };
    assert!(matches!(
        Class::new(&mut host, definition),
        Err(Error::InvalidParameter(_))
    ));
    let definition = ClassDefinition {
        class_name: "Fine".to_string(),
        attributes: ClassAttributes::none(),
        static_values: Vec::new(),
        static_functions: vec![StaticFunction { name: "ba\0d".to_string() }],
        callback_flags: 0,
        handler: None,
    };
    assert!(matches!(
        Class::new(&mut host, definition),
        Err(Error::InvalidParameter(_))
    ));
}

#[test]
fn script_compiled_functions_check_their_texts() {
    let mut host = NativeHost::new();
    let gc = GlobalContext::new(&mut host).unwrap();
    let ctx = gc.context();

    let f = Object::function(&mut host, &ctx, Some("add"), &vec!["a", "b"], "return a + b;", None, 1)
        .unwrap();
    assert!(f.is_function(&host));

    assert!(matches!(
        Object::function(&mut host, &ctx, None, &Vec::new(), "bad\0body", None, 1),
        Err(Error::InvalidParameter(_))
    ));
    assert!(matches!(
        Object::function(&mut host, &ctx, Some("na\0me"), &Vec::new(), "ok", None, 1),
        Err(Error::InvalidParameter(_))
    ));
    assert!(matches!(
        Object::function(&mut host, &ctx, None, &vec!["pa\0ram"], "ok", None, 1),
        Err(Error::InvalidParameter(_))
    ));

    let e = Object::error(&mut host, &ctx, "went wrong").unwrap();
    let msg = e.get_property(&mut host, "message").unwrap();
    assert_eq!(msg.to_string_bytes(&host).unwrap(), b"went wrong".to_vec());
    assert!(matches!(
        Object::error(&mut host, &ctx, "went\0wrong"),
        Err(Error::InvalidParameter(_))
    ));

    gc.release(&mut host);
}
