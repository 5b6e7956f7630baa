//! The Python objects that serialization produces, as plain values.

use vstd::prelude::*;

verus! {

/// A Python object built by the serializer, described by the calls that make
/// it.
#[derive(Debug, PartialEq)]
pub enum PyValue {
    /// Python's `None`.
    PyNone,
    /// A Python `bool`.
    Bool(bool),
    /// A Python `int` of this value.
    Int(i128),
    /// A Python `float`, given by the bits of its IEEE 754 double.
    Float(u64),
    /// A Python `str`.
    Str(String),
    /// A Python `list` of these items, in order.
    List(Vec<PyValue>),
    /// A Python `tuple` of these items, in order.
    Tuple(Vec<PyValue>),
    /// A Python `dict`, made empty and then given `d[key] = value` for each
    /// pair in order (so a later pair replaces an earlier one with an equal key).
    Dict(Vec<(PyValue, PyValue)>),
    /// The class object that `class_expression` of the name evaluates to, with
    /// `setattr(class, name, value)` done for each pair in order.
    Object(String, Vec<(String, PyValue)>),
}

/// Attribute pairs with their names taken as character sequences.
pub open spec fn attrs_view(attrs: Seq<(String, PyValue)>) -> Seq<(Seq<char>, PyValue)> {
    attrs.map_values(|p: (String, PyValue)| (p.0@, p.1))
}

} // verus!
