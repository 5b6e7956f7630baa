//! The serializer: which Python object each item of serde's data model
//! becomes, and the state of the serializers of compound items.

use vstd::prelude::*;
use crate::text::{
    capitalized_words, concat_words, shouty_words,
    lemma_tuple_field_names_distinct, push_char, shouty_snake_case, to_shouty_snake_case, tuple_field_name,
    tuple_field_name_spec,
};
use crate::value::{attrs_view, PyValue};

verus! {

/// Serializer that turns the items of serde's data model into Python objects.
pub struct PyObjectSerializer;

impl PyObjectSerializer {
    /// Creates a serializer.
    pub fn new() -> (s: Self) {
        PyObjectSerializer
    }

    /// A `bool` becomes a Python `bool`.
    pub fn serialize_bool(self, v: bool) -> (r: PyValue)
        ensures
            r == PyValue::Bool(v),
    {
        PyValue::Bool(v)
    }

    /// An `i8` becomes a Python `int` of the same value.
    pub fn serialize_i8(self, v: i8) -> (r: PyValue)
        ensures
            r == PyValue::Int(v as i128),
    {
        PyValue::Int(v as i128)
    }

    /// An `i16` becomes a Python `int` of the same value.
    pub fn serialize_i16(self, v: i16) -> (r: PyValue)
        ensures
            r == PyValue::Int(v as i128),
    {
        PyValue::Int(v as i128)
    }

    /// An `i32` becomes a Python `int` of the same value.
    pub fn serialize_i32(self, v: i32) -> (r: PyValue)
        ensures
            r == PyValue::Int(v as i128),
    {
        PyValue::Int(v as i128)
    }

    /// An `i64` becomes a Python `int` of the same value.
    pub fn serialize_i64(self, v: i64) -> (r: PyValue)
        ensures
            r == PyValue::Int(v as i128),
    {
        PyValue::Int(v as i128)
    }

    /// A `u8` becomes a Python `int` of the same value.
    pub fn serialize_u8(self, v: u8) -> (r: PyValue)
        ensures
            r == PyValue::Int(v as i128),
    {
        PyValue::Int(v as i128)
    }

    /// A `u16` becomes a Python `int` of the same value.
    pub fn serialize_u16(self, v: u16) -> (r: PyValue)
        ensures
            r == PyValue::Int(v as i128),
    {
        PyValue::Int(v as i128)
    }

    /// A `u32` becomes a Python `int` of the same value.
    pub fn serialize_u32(self, v: u32) -> (r: PyValue)
        ensures
            r == PyValue::Int(v as i128),
    {
        PyValue::Int(v as i128)
    }

    /// A `u64` becomes a Python `int` of the same value.
    pub fn serialize_u64(self, v: u64) -> (r: PyValue)
        ensures
            r == PyValue::Int(v as i128),
    {
        PyValue::Int(v as i128)
    }

    /// A floating-point number, given by the bits of its value as an `f64`,
    /// becomes a Python `float`.
    pub fn serialize_f64_bits(self, bits: u64) -> (r: PyValue)
        ensures
            r == PyValue::Float(bits),
    {
        PyValue::Float(bits)
    }

    /// A string becomes a Python `str` of the same characters.
    pub fn serialize_str(self, v: &str) -> (r: PyValue)
        ensures
            r matches PyValue::Str(s) && s@ == v@,
    {
        PyValue::Str(String::from_str(v))
    }

    /// A `char` becomes a Python `str` of that one character.
    pub fn serialize_char(self, v: char) -> (r: PyValue)
        ensures
            r matches PyValue::Str(s) && s@ == seq![v],
    {
        let mut s = String::new();
        push_char(&mut s, v);
        assert(s@ =~= seq![v]);
        self.serialize_str(s.as_str())
    }

    /// A byte string becomes a Python `list` of `int`s, one per byte.
    pub fn serialize_bytes(self, v: &[u8]) -> (r: PyValue)
        ensures
            r matches PyValue::List(items) && items@.len() == v@.len() && (forall|i: int|
                0 <= i < v@.len() ==> #[trigger] items@[i] == PyValue::Int(v@[i] as i128)),
    {
        let mut items: Vec<PyValue> = Vec::new();
        let mut k: usize = 0;
        while k < v.len()
            invariant
                k <= v@.len(),
                items@.len() == k,
                forall|i: int| 0 <= i < k ==> #[trigger] items@[i] == PyValue::Int(v@[i] as i128),
            decreases v@.len() - k,
        {
            items.push(PyValue::Int(v[k] as i128));
            k = k + 1;
        }
        PyValue::List(items)
    }

    /// `None` becomes Python's `None`.
    pub fn serialize_none(self) -> (r: PyValue)
        ensures
            r == PyValue::PyNone,
    {
        PyValue::PyNone
    }

    /// The unit value `()` becomes Python's `None`.
    pub fn serialize_unit(self) -> (r: PyValue)
        ensures
            r == PyValue::PyNone,
    {
        PyValue::PyNone
    }

    /// A unit struct becomes Python's `None`, whatever its name.
    pub fn serialize_unit_struct(self, name: &str) -> (r: PyValue)
        ensures
            r == PyValue::PyNone,
    {
        self.serialize_unit()
    }

    /// A unit variant of an enum becomes a Python `str`: the variant's name in
    /// SHOUTY_SNAKE_CASE. The enum's name and the variant's index play no part.
    pub fn serialize_unit_variant(self, name: &str, variant_index: u32, variant: &str) -> (r:
        PyValue)
        ensures
            r matches PyValue::Str(s) && s@ == shouty_snake_case(variant@),
            forall|words: Seq<Seq<char>>|
                #[trigger] concat_words(words) == variant@ && capitalized_words(words) ==> (
                r matches PyValue::Str(s) && s@ == shouty_words(words)),
    {
        let converted = to_shouty_snake_case(variant);
        self.serialize_str(converted.as_str())
    }

    /// Starts a sequence, which becomes a Python `list`. The length hint
    /// plays no part: no room is reserved from it, since a hint can be far
    /// larger than anything that can be allocated.
    pub fn serialize_seq(self, len: Option<usize>) -> (r: PythonVecSerializer)
        ensures
            r@ == Seq::<PyValue>::empty(),
    {
        PythonVecSerializer { items: Vec::new() }
    }

    /// Starts a tuple, which becomes a Python `tuple`. The length plays no
    /// part, as for [`Self::serialize_seq`].
    pub fn serialize_tuple(self, len: usize) -> (r: PythonVecSerializer)
        ensures
            r@ == Seq::<PyValue>::empty(),
    {
        PythonVecSerializer { items: Vec::new() }
    }

    /// Starts a tuple struct, which becomes a class named after it with one
    /// attribute per field: `_0`, `_1`, ...
    pub fn serialize_tuple_struct(self, name: &str, len: usize) -> (r: PythonStructSerializer)
        ensures
            r@ == StructState::started(name@),
    {
        PythonStructSerializer::new(name)
    }

    /// Starts a map, which becomes a Python `dict`.
    pub fn serialize_map(self, len: Option<usize>) -> (r: PythonDictSerializer)
        ensures
            r@ == DictState::started(),
    {
        PythonDictSerializer { entries: Vec::new(), pending_key: None }
    }

    /// Starts a struct, which becomes a class named after it with one attribute
    /// per field, named as the field.
    pub fn serialize_struct(self, name: &str, len: usize) -> (r: PythonStructSerializer)
        ensures
            r@ == StructState::started(name@),
    {
        PythonStructSerializer::new(name)
    }
}

/// Serializer for lists and tuples: collects the items in order.
pub struct PythonVecSerializer {
    items: Vec<PyValue>,
}

impl View for PythonVecSerializer {
    type V = Seq<PyValue>;

    closed spec fn view(&self) -> Seq<PyValue> {
        self.items@
    }
}

impl PythonVecSerializer {
    /// Adds the next item.
    pub fn serialize_element(&mut self, value: PyValue)
        ensures
            final(self)@ == old(self)@.push(value),
    {
        self.items.push(value);
    }

    /// Ends a sequence: a Python `list` of the items, in order.
    pub fn end(self) -> (r: PyValue)
        ensures
            r matches PyValue::List(items) && items@ == self@,
    {
        PyValue::List(self.items)
    }

    /// Ends a tuple: a Python `tuple` of the items, in order.
    pub fn end_tuple(self) -> (r: PyValue)
        ensures
            r matches PyValue::Tuple(items) && items@ == self@,
    {
        PyValue::Tuple(self.items)
    }
}

/// The state of a map being serialized: the entries so far and the key that
/// waits for its value.
#[verifier::ext_equal]
pub struct DictState {
    pub entries: Seq<(PyValue, PyValue)>,
    pub pending_key: Option<PyValue>,
}

/// The key under which a value is stored: the pending key, or Python's `None`
/// where no key is pending.
pub open spec fn key_or_none(key: Option<PyValue>) -> PyValue {
    match key {
        Some(k) => k,
        None => PyValue::PyNone,
    }
}

impl DictState {
    /// A map with no entries and no pending key.
    pub open spec fn started() -> DictState {
        DictState { entries: Seq::empty(), pending_key: None }
    }

    /// After a key: it waits for its value, in place of any key that waited.
    pub open spec fn with_key(self, key: PyValue) -> DictState {
        DictState { entries: self.entries, pending_key: Some(key) }
    }

    /// After a value that failed to serialize: the pending key is used up and
    /// nothing is stored.
    pub open spec fn with_failed_value(self) -> DictState {
        DictState { entries: self.entries, pending_key: None }
    }

    /// After a value: it is stored under the pending key, and no key waits.
    pub open spec fn with_value(self, value: PyValue) -> DictState {
        DictState {
            entries: self.entries.push((key_or_none(self.pending_key), value)),
            pending_key: None,
        }
    }
}

/// Serializer for maps: pairs each value with the key serialized before it.
pub struct PythonDictSerializer {
    entries: Vec<(PyValue, PyValue)>,
    pending_key: Option<PyValue>,
}

impl View for PythonDictSerializer {
    type V = DictState;

    closed spec fn view(&self) -> DictState {
        DictState { entries: self.entries@, pending_key: self.pending_key }
    }
}

impl PythonDictSerializer {
    /// Takes a key; it waits for the next value.
    pub fn serialize_key(&mut self, key: PyValue)
        ensures
            final(self)@ == old(self)@.with_key(key),
    {
        self.pending_key = Some(key);
    }

    /// Takes a value and stores it under the pending key.
    pub fn serialize_value(&mut self, value: PyValue)
        ensures
            final(self)@ == old(self)@.with_value(value),
    {
        let mut key = None;
        std::mem::swap(&mut key, &mut self.pending_key);
        let key = match key {
            Some(k) => k,
            None => PyValue::PyNone,
        };
        self.entries.push((key, value));
    }

    /// Records that the value for the pending key failed to serialize: the
    /// key is used up and nothing is stored.
    pub fn value_failed(&mut self)
        ensures
            final(self)@ == old(self)@.with_failed_value(),
    {
        self.pending_key = None;
    }

    /// Ends the map: a Python `dict` of the entries, in order; a key still
    /// waiting for its value is left out.
    pub fn end(self) -> (r: PyValue)
        ensures
            r matches PyValue::Dict(entries) && entries@ == self@.entries,
    {
        PyValue::Dict(self.entries)
    }
}

/// The state of a struct or tuple struct being serialized: the class's name,
/// the attributes set so far, and the index of the next tuple field.
#[verifier::ext_equal]
pub struct StructState {
    pub class_name: Seq<char>,
    pub attrs: Seq<(Seq<char>, PyValue)>,
    pub next_index: nat,
}

impl StructState {
    /// A struct of this name with no attributes set.
    pub open spec fn started(name: Seq<char>) -> StructState {
        StructState { class_name: name, attrs: Seq::empty(), next_index: 0 }
    }

    /// After a named field: the attribute of that name is set to the value.
    pub open spec fn with_field(self, key: Seq<char>, value: PyValue) -> StructState {
        StructState { attrs: self.attrs.push((key, value)), ..self }
    }

    /// After a tuple field: the attribute `_N`, N the next index, is set to
    /// the value, and the index moves on by one.
    pub open spec fn with_tuple_field(self, value: PyValue) -> StructState {
        StructState {
            attrs: self.attrs.push((tuple_field_name_spec(self.next_index), value)),
            next_index: self.next_index + 1,
            ..self
        }
    }
}

/// Serializer for structs and tuple structs: sets the fields as attributes of
/// a class named after the struct.
pub struct PythonStructSerializer {
    class_name: String,
    attrs: Vec<(String, PyValue)>,
    next_index: usize,
}

impl View for PythonStructSerializer {
    type V = StructState;

    closed spec fn view(&self) -> StructState {
        StructState {
            class_name: self.class_name@,
            attrs: attrs_view(self.attrs@),
            next_index: self.next_index as nat,
        }
    }
}

impl PythonStructSerializer {
    fn new(name: &str) -> (r: Self)
        ensures
            r@ == StructState::started(name@),
    {
        let r = PythonStructSerializer {
            class_name: String::from_str(name),
            attrs: Vec::new(),
            next_index: 0,
        };
        assert(attrs_view(r.attrs@) =~= Seq::empty());
        r
    }

    /// The index that the next tuple field gets.
    pub fn next_index(&self) -> (r: usize)
        ensures
            r == self@.next_index,
    {
        self.next_index
    }

    /// Sets the attribute named `key` to `value` (a field of a struct).
    pub fn serialize_field(&mut self, key: &str, value: PyValue)
        ensures
            final(self)@ == old(self)@.with_field(key@, value),
    {
        let ghost before = self.attrs@;
        let name = String::from_str(key);
        self.attrs.push((name, value));
        assert(attrs_view(self.attrs@) =~= attrs_view(before).push((key@, value)));
    }

    /// Sets the attribute `_N`, N the next index, to `value` (a field of a
    /// tuple struct), and moves the index on.
    pub fn serialize_tuple_field(&mut self, value: PyValue)
        requires
            old(self)@.next_index < usize::MAX,
        ensures
            final(self)@ == old(self)@.with_tuple_field(value),
    {
        let ghost before = self.attrs@;
        let name = tuple_field_name(self.next_index);
        let ghost name_view = name@;
        self.attrs.push((name, value));
        self.next_index = self.next_index + 1;
        assert(attrs_view(self.attrs@) =~= attrs_view(before).push((name_view, value)));
    }

    /// Ends the struct: the class with its attributes set in order.
    pub fn end(self) -> (r: PyValue)
        ensures
            r matches PyValue::Object(name, attrs) && name@ == self@.class_name && attrs_view(
                attrs@,
            ) == self@.attrs,
    {
        PyValue::Object(self.class_name, self.attrs)
    }
}


/// A map after `pairs` were serialized in order, each key right before its
/// value, starting from state `s`.
pub open spec fn dict_after_entries(s: DictState, pairs: Seq<(PyValue, PyValue)>) -> DictState
    decreases pairs.len(),
{
    if pairs.len() == 0 {
        s
    } else {
        dict_after_entries(s, pairs.drop_last()).with_key(pairs.last().0).with_value(
            pairs.last().1,
        )
    }
}

/// Serializing a map entry by entry, each key right before its value, gives a
/// dict whose entries are exactly those pairs, in the order serialized.
pub proof fn lemma_dict_entries_in_order(pairs: Seq<(PyValue, PyValue)>)
    ensures
        dict_after_entries(DictState::started(), pairs) == (DictState {
            entries: pairs,
            pending_key: None,
        }),
    decreases pairs.len(),
{
    if pairs.len() > 0 {
        lemma_dict_entries_in_order(pairs.drop_last());
        assert(pairs.drop_last().push(pairs.last()) =~= pairs);
    } else {
        assert(pairs =~= Seq::empty());
    }
}

/// When a second key comes before any value, it takes the place of the first,
/// which is lost.
pub proof fn lemma_dict_second_key_replaces_first(s: DictState, k1: PyValue, k2: PyValue)
    ensures
        s.with_key(k1).with_key(k2) == s.with_key(k2),
{
}

/// A value that comes with no key waiting is stored under Python's `None`.
pub proof fn lemma_dict_value_without_key(s: DictState, v: PyValue)
    requires
        s.pending_key is None,
    ensures
        s.with_value(v).entries == s.entries.push((PyValue::PyNone, v)),
        s.with_value(v).pending_key is None,
{
}

/// A key whose value fails to serialize is used up: no entry is stored and
/// no key waits, so the next value does not go under it.
pub proof fn lemma_dict_failed_value_uses_up_key(s: DictState, k: PyValue, v: PyValue)
    ensures
        s.with_key(k).with_failed_value().entries == s.entries,
        s.with_key(k).with_failed_value().pending_key is None,
        s.with_key(k).with_failed_value().with_value(v).entries == s.entries.push(
            (PyValue::PyNone, v),
        ),
{
}

/// The items of a list or tuple after `values` were serialized in order,
/// starting from `items`.
pub open spec fn seq_after_elements(items: Seq<PyValue>, values: Seq<PyValue>) -> Seq<PyValue>
    decreases values.len(),
{
    if values.len() == 0 {
        items
    } else {
        seq_after_elements(items, values.drop_last()).push(values.last())
    }
}

/// Serializing the elements of a sequence or tuple one by one, whatever the
/// length hint it was started with, leaves exactly those items, in the order
/// serialized; `end` then gives a list of them, and `end_tuple` a tuple.
pub proof fn lemma_seq_items_in_order(values: Seq<PyValue>)
    ensures
        seq_after_elements(Seq::empty(), values) == values,
    decreases values.len(),
{
    if values.len() > 0 {
        lemma_seq_items_in_order(values.drop_last());
        assert(values.drop_last().push(values.last()) =~= values);
    } else {
        assert(values =~= Seq::empty());
    }
}

/// A struct after the tuple fields `values` were serialized in order,
/// starting from state `s`.
pub open spec fn struct_after_tuple_fields(s: StructState, values: Seq<PyValue>) -> StructState
    decreases values.len(),
{
    if values.len() == 0 {
        s
    } else {
        struct_after_tuple_fields(s, values.drop_last()).with_tuple_field(values.last())
    }
}

/// A struct after the named fields `fields` were serialized in order,
/// starting from state `s`.
pub open spec fn struct_after_fields(s: StructState, fields: Seq<(Seq<char>, PyValue)>) -> StructState
    decreases fields.len(),
{
    if fields.len() == 0 {
        s
    } else {
        struct_after_fields(s, fields.drop_last()).with_field(fields.last().0, fields.last().1)
    }
}

/// The fields of a tuple struct become the attributes `_0`, `_1`, ... in
/// order: field `i` sets attribute `_i`, no two fields share an attribute, and
/// the class keeps the struct's name.
pub proof fn lemma_tuple_fields_by_position(name: Seq<char>, values: Seq<PyValue>)
    ensures
        ({
            let s = struct_after_tuple_fields(StructState::started(name), values);
            &&& s.class_name == name
            &&& s.next_index == values.len()
            &&& s.attrs.len() == values.len()
            &&& forall|i: int|
                0 <= i < values.len() ==> #[trigger] s.attrs[i] == (
                    tuple_field_name_spec(i as nat),
                    values[i],
                )
            &&& forall|i: int, j: int|
                0 <= i < values.len() && 0 <= j < values.len() && i != j ==> #[trigger] s.attrs[i].0
                    != #[trigger] s.attrs[j].0
        }),
    decreases values.len(),
{
    let s = struct_after_tuple_fields(StructState::started(name), values);
    if values.len() > 0 {
        lemma_tuple_fields_by_position(name, values.drop_last());
        let p = struct_after_tuple_fields(StructState::started(name), values.drop_last());
        assert forall|i: int| 0 <= i < values.len() implies #[trigger] s.attrs[i] == (
            tuple_field_name_spec(i as nat),
            values[i],
        ) by {
            if i < values.len() - 1 {
                assert(s.attrs[i] == p.attrs[i]);
                assert(values.drop_last()[i] == values[i]);
            }
        }
    }
    assert forall|i: int, j: int|
        0 <= i < values.len() && 0 <= j < values.len() && i != j implies #[trigger] s.attrs[i].0
        != #[trigger] s.attrs[j].0 by {
        assert(s.attrs[i] == (tuple_field_name_spec(i as nat), values[i]));
        assert(s.attrs[j] == (tuple_field_name_spec(j as nat), values[j]));
        lemma_tuple_field_names_distinct(i as nat, j as nat);
    }
}

/// The fields of a struct become its class's attributes, named as the fields,
/// in the order serialized; the class keeps the struct's name.
pub proof fn lemma_struct_fields_in_order(name: Seq<char>, fields: Seq<(Seq<char>, PyValue)>)
    ensures
        struct_after_fields(StructState::started(name), fields) == (StructState {
            class_name: name,
            attrs: fields,
            next_index: 0,
        }),
    decreases fields.len(),
{
    if fields.len() > 0 {
        lemma_struct_fields_in_order(name, fields.drop_last());
        assert(fields.drop_last().push(fields.last()) =~= fields);
    } else {
        assert(fields =~= Seq::empty());
    }
}

} // verus!
