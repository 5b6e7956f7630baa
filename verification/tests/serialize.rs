use serde_python::{
    class_expression, decimal_string, tuple_field_name, EntryCursor, IndexCursor, PyObjectSerializer,
    PyValue,
};

fn ser() -> PyObjectSerializer {
    PyObjectSerializer::new()
}

fn s(text: &str) -> PyValue {
    PyValue::Str(text.to_string())
}

fn attr(name: &str, value: PyValue) -> (String, PyValue) {
    (name.to_string(), value)
}

// The calls that `#[derive(Serialize)]` makes for `enum E { One, Two }`.
fn serialize_e(two: bool) -> PyValue {
    if two {
        ser().serialize_unit_variant("E", 1, "Two")
    } else {
        ser().serialize_unit_variant("E", 0, "One")
    }
}

// The calls that `#[derive(Serialize)]` makes for `struct C(u8, u8)`.
fn serialize_c(a: u8, b: u8) -> PyValue {
    let mut st = ser().serialize_tuple_struct("C", 2);
    st.serialize_tuple_field(ser().serialize_u8(a));
    st.serialize_tuple_field(ser().serialize_u8(b));
    st.end()
}

// The calls that `#[derive(Serialize)]` makes for struct `A`.
fn serialize_a(
    foo: &str,
    bar: u64,
    baz_two: bool,
    boop_two: bool,
    chaz: (u8, u8),
    to_be: bool,
) -> PyValue {
    let mut st = ser().serialize_struct("A", 7);
    st.serialize_field("foo", ser().serialize_str(foo));
    st.serialize_field("bar", ser().serialize_u64(bar));
    st.serialize_field("baz", serialize_e(baz_two));
    st.serialize_field("boop", serialize_e(boop_two));
    st.serialize_field("chaz", serialize_c(chaz.0, chaz.1));
    st.serialize_field("to_be", ser().serialize_bool(to_be));
    st.serialize_field("unit", ser().serialize_unit());
    st.end()
}

#[test]
fn serialize() {
    let expected = PyValue::Object(
        "A".to_string(),
        vec![
            attr("foo", s("whee")),
            attr("bar", PyValue::Int(1337)),
            attr("baz", s("TWO")),
            attr("boop", s("ONE")),
            attr(
                "chaz",
                PyValue::Object(
                    "C".to_string(),
                    vec![attr("_0", PyValue::Int(7)), attr("_1", PyValue::Int(12))],
                ),
            ),
            attr("to_be", PyValue::Bool(true)),
            attr("unit", PyValue::PyNone),
        ],
    );
    // The value and its clone give the same object.
    let first = serialize_a("whee", 1337, true, false, (7, 12), true);
    let second = serialize_a("whee", 1337, true, false, (7, 12), true);
    assert_eq!(first, expected);
    assert_eq!(second, expected);
}

#[test]
fn integers_keep_their_value() {
    assert_eq!(ser().serialize_i8(-128), PyValue::Int(-128));
    assert_eq!(ser().serialize_i16(-300), PyValue::Int(-300));
    assert_eq!(ser().serialize_i32(i32::MIN), PyValue::Int(i32::MIN as i128));
    assert_eq!(ser().serialize_i64(i64::MIN), PyValue::Int(i64::MIN as i128));
    assert_eq!(ser().serialize_u16(65535), PyValue::Int(65535));
    assert_eq!(ser().serialize_u32(u32::MAX), PyValue::Int(u32::MAX as i128));
    assert_eq!(ser().serialize_u64(u64::MAX), PyValue::Int(u64::MAX as i128));
}

#[test]
fn floats_keep_their_bits() {
    let bits = 1.5f64.to_bits();
    assert_eq!(ser().serialize_f64_bits(bits), PyValue::Float(bits));
}

#[test]
fn char_becomes_one_character_str() {
    assert_eq!(ser().serialize_char('x'), s("x"));
    assert_eq!(ser().serialize_char('é'), s("é"));
    assert_eq!(ser().serialize_str(""), s(""));
}

#[test]
fn bytes_become_a_list_of_ints() {
    assert_eq!(
        ser().serialize_bytes(&[0, 7, 255]),
        PyValue::List(vec![PyValue::Int(0), PyValue::Int(7), PyValue::Int(255)])
    );
    assert_eq!(ser().serialize_bytes(&[]), PyValue::List(vec![]));
}

#[test]
fn none_unit_and_unit_struct_are_python_none() {
    // `Some(())` serializes as `()` does, so it cannot be told from `None`.
    assert_eq!(ser().serialize_none(), PyValue::PyNone);
    assert_eq!(ser().serialize_unit(), PyValue::PyNone);
    assert_eq!(ser().serialize_unit_struct("Marker"), PyValue::PyNone);
}

#[test]
fn unit_variants_become_shouty_snake_case_strings() {
    assert_eq!(ser().serialize_unit_variant("E", 0, "CamelCase"), s("CAMEL_CASE"));
    assert_eq!(ser().serialize_unit_variant("E", 3, "XMLHttpRequest"), s("XML_HTTP_REQUEST"));
    assert_eq!(ser().serialize_unit_variant("Other", 9, "snake_case"), s("SNAKE_CASE"));
}

#[test]
fn sequences_become_lists_and_tuples_become_tuples() {
    let mut seq = ser().serialize_seq(Some(2));
    seq.serialize_element(PyValue::Int(1));
    seq.serialize_element(s("two"));
    assert_eq!(seq.end(), PyValue::List(vec![PyValue::Int(1), s("two")]));

    let empty = ser().serialize_seq(None);
    assert_eq!(empty.end(), PyValue::List(vec![]));

    let mut tup = ser().serialize_tuple(2);
    tup.serialize_element(PyValue::Bool(false));
    tup.serialize_element(PyValue::PyNone);
    assert_eq!(tup.end_tuple(), PyValue::Tuple(vec![PyValue::Bool(false), PyValue::PyNone]));
}

#[test]
fn map_entries_keep_their_order() {
    let mut map = ser().serialize_map(Some(2));
    map.serialize_key(s("b"));
    map.serialize_value(PyValue::Int(2));
    map.serialize_key(s("a"));
    map.serialize_value(PyValue::Int(1));
    assert_eq!(
        map.end(),
        PyValue::Dict(vec![(s("b"), PyValue::Int(2)), (s("a"), PyValue::Int(1))])
    );
}

#[test]
fn map_value_without_key_goes_under_none() {
    let mut map = ser().serialize_map(None);
    map.serialize_value(PyValue::Int(5));
    assert_eq!(map.end(), PyValue::Dict(vec![(PyValue::PyNone, PyValue::Int(5))]));
}

#[test]
fn map_second_key_replaces_first_and_dangling_key_is_dropped() {
    let mut map = ser().serialize_map(None);
    map.serialize_key(s("lost"));
    map.serialize_key(s("kept"));
    map.serialize_value(PyValue::Int(1));
    map.serialize_key(s("dangling"));
    assert_eq!(map.end(), PyValue::Dict(vec![(s("kept"), PyValue::Int(1))]));
}

#[test]
fn tuple_struct_fields_are_numbered() {
    let mut st = ser().serialize_tuple_struct("Many", 12);
    for i in 0..12u8 {
        assert_eq!(st.next_index(), i as usize);
        st.serialize_tuple_field(PyValue::Int(i as i128));
    }
    let names: Vec<String> = (0..12).map(|i| format!("_{}", i)).collect();
    let expected = PyValue::Object(
        "Many".to_string(),
        names.into_iter().zip((0..12).map(PyValue::Int)).collect(),
    );
    assert_eq!(st.end(), expected);
}

#[test]
fn struct_field_set_twice_appears_twice_in_order() {
    let mut st = ser().serialize_struct("S", 2);
    st.serialize_field("x", PyValue::Int(1));
    st.serialize_field("x", PyValue::Int(2));
    assert_eq!(
        st.end(),
        PyValue::Object(
            "S".to_string(),
            vec![attr("x", PyValue::Int(1)), attr("x", PyValue::Int(2))]
        )
    );
}

#[test]
fn decimal_strings() {
    assert_eq!(decimal_string(0), "0");
    assert_eq!(decimal_string(7), "7");
    assert_eq!(decimal_string(10), "10");
    assert_eq!(decimal_string(1337), "1337");
    assert_eq!(decimal_string(usize::MAX), usize::MAX.to_string());
}

#[test]
fn tuple_field_names() {
    assert_eq!(tuple_field_name(0), "_0");
    assert_eq!(tuple_field_name(12), "_12");
    assert_eq!(tuple_field_name(100), "_100");
}

#[test]
fn class_expressions() {
    assert_eq!(class_expression("A"), "locals().get(\"A\", type(\"A\",(),{}))");
    assert_eq!(class_expression(""), "locals().get(\"\", type(\"\",(),{}))");
}

#[test]
fn cursor_walks_to_the_end() {
    let mut cursor = IndexCursor::new();
    assert_eq!(cursor.position(), 0);
    assert_eq!(cursor.current(2), Some(0));
    assert_eq!(cursor.current_attribute(2), Some("_0".to_string()));
    cursor.advance();
    assert_eq!(cursor.current(2), Some(1));
    assert_eq!(cursor.current_attribute(2), Some("_1".to_string()));
    cursor.advance();
    assert_eq!(cursor.current(2), None);
    assert_eq!(cursor.current_attribute(2), None);
    assert_eq!(cursor.position(), 2);
}

#[test]
fn cursor_reads_back_what_the_serializer_wrote() {
    let mut st = ser().serialize_tuple_struct("C", 3);
    for v in [10u8, 20, 30] {
        st.serialize_tuple_field(ser().serialize_u8(v));
    }
    let value = st.end();
    let attrs = match value {
        PyValue::Object(_, attrs) => attrs,
        other => panic!("not an object: {:?}", other),
    };
    let mut cursor = IndexCursor::new();
    let mut read = Vec::new();
    while let Some(name) = cursor.current_attribute(attrs.len()) {
        let found = attrs.iter().find(|(n, _)| *n == name).map(|(_, v)| v);
        read.push(found.expect("attribute written"));
        cursor.advance();
    }
    assert_eq!(read, vec![&PyValue::Int(10), &PyValue::Int(20), &PyValue::Int(30)]);
}

#[test]
fn map_failed_value_uses_up_its_key() {
    let mut map = ser().serialize_map(None);
    map.serialize_key(s("broken"));
    map.value_failed();
    map.serialize_value(PyValue::Int(3));
    assert_eq!(map.end(), PyValue::Dict(vec![(PyValue::PyNone, PyValue::Int(3))]));
}

#[test]
fn sequence_length_hint_plays_no_part() {
    let mut huge = ser().serialize_seq(Some(usize::MAX));
    huge.serialize_element(PyValue::Int(1));
    assert_eq!(huge.end(), PyValue::List(vec![PyValue::Int(1)]));
    let mut tup = ser().serialize_tuple(usize::MAX);
    tup.serialize_element(PyValue::Int(2));
    assert_eq!(tup.end_tuple(), PyValue::Tuple(vec![PyValue::Int(2)]));
}

#[test]
fn entry_cursor_reads_value_of_key_entry() {
    let mut cursor = EntryCursor::new();
    assert_eq!(cursor.next_value(), None);
    assert_eq!(cursor.next_key(2), Some(0));
    assert_eq!(cursor.next_value(), Some(0));
    assert_eq!(cursor.next_value(), None);
    assert_eq!(cursor.next_key(2), Some(1));
    assert_eq!(cursor.next_value(), Some(1));
    assert_eq!(cursor.next_key(2), None);
    assert_eq!(cursor.next_value(), None);
    assert_eq!(cursor.next_key(2), None);
}

#[test]
fn entry_cursor_repeated_key_moves_on() {
    let mut cursor = EntryCursor::new();
    assert_eq!(cursor.next_key(2), Some(0));
    assert_eq!(cursor.next_key(2), Some(1));
    assert_eq!(cursor.next_value(), Some(1));
    assert_eq!(cursor.next_key(2), None);

    let mut last = EntryCursor::new();
    assert_eq!(last.next_key(1), Some(0));
    assert_eq!(last.next_key(1), None);
    assert_eq!(last.next_key(1), None);
    assert_eq!(last.next_value(), None);
}
