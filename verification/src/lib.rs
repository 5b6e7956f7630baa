//! Serialization of serde's data model into a description of Python objects.
//!
//! The library decides which Python object each item of serde's data model
//! becomes ([`PyValue`]); the application crate hands those descriptions to the
//! Python interpreter.

pub mod text;
pub mod value;
pub mod ser;
pub mod des;

pub use value::PyValue;
pub use des::{EntryCursor, IndexCursor};
pub use ser::{PyObjectSerializer, PythonDictSerializer, PythonStructSerializer, PythonVecSerializer};
pub use text::{class_expression, decimal_string, tuple_field_name};
