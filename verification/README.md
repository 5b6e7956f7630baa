# serde_python

Serializes serde-enabled values into Python objects.

- `src/` is the verified library. It decides which Python object each item of
  serde's data model becomes and describes it as a `PyValue`:
  - `text.rs`: decimal numbers, the tuple-struct attribute names `_0`, `_1`, ...,
    the Python expression that yields a struct's class, and enum variant names in
    SHOUTY_SNAKE_CASE (through heck);
  - `value.rs`: `PyValue`, the description of a Python object;
  - `ser.rs`: the serializer and the state of the list, dict and struct
    serializers, with the laws that relate their steps;
  - `des.rs`: the position of a reader that walks a Python sequence, tuple-struct
    attributes, or dict entries (key, then the value of the same entry).
- `app/` implements serde's traits on top of the library and builds the
  described objects in the Python interpreter with rust-cpython.
- `tests/` runs the library on concrete values.

Simple enums serialize to strings; newtype, tuple and struct variants are not
supported and panic.
