//! Wrappers for the script-engine half of the native API: contexts, values,
//! objects, classes, strings, typed arrays, and script exceptions.

pub mod context;
pub mod exception;
pub mod object;
pub mod raw;
pub mod string;
pub mod typed_array;
pub mod value;

pub use context::Context;
pub use context::ContextGroup;
pub use context::GlobalContext;
pub use exception::Error;
pub use object::Class;
pub use object::ClassAttributes;
pub use object::ClassDefinition;
pub use object::ClassHandler;
pub use object::FunctionCallback;
pub use object::NativeFunction;
pub use object::Object;
pub use object::PropertyAttributes;
pub use object::StaticFunction;
pub use object::StaticValue;
pub use raw::JSType;
pub use raw::JSTypedArrayType;
pub use string::String;
pub use typed_array::ArrayBuffer;
pub use typed_array::TypedArray;
pub use typed_array::TypedArrayType;
pub use value::Value;
pub use value::ValueType;
