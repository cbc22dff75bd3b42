use ctypes::error::{CtypesError, TagDeclarationError, ValueTypeErrorKind, SIMPLE_TYPE_CHARS};
use ctypes::host::{HostInt, HostValue};
use ctypes::primitive::{
    default_value, parse_type_tag, set_primitive, PySimpleType, SimpleTag, TypeAttribute,
};

fn host_int(v: i64) -> HostValue {
    let mut m = v.unsigned_abs();
    let mut magnitude = Vec::new();
    while m > 0 {
        magnitude.push((m % 256) as u8);
        m /= 256;
    }
    HostValue::Int(HostInt { negative: v < 0, magnitude })
}

fn int_value(v: &HostValue) -> Option<i128> {
    match v {
        HostValue::Int(i) => {
            let mut m: i128 = 0;
            for b in i.magnitude.iter().rev() {
                m = m * 256 + *b as i128;
            }
            Some(if i.negative { -m } else { m })
        }
        _ => None,
    }
}

fn container(tag: &str) -> PySimpleType {
    let mut p = PySimpleType::tp_new(&TypeAttribute::Str(tag.to_string()), false).unwrap();
    p.init(None).unwrap();
    p
}

fn bytes(b: &[u8]) -> HostValue {
    HostValue::Bytes(b.to_vec())
}

fn text(s: &str) -> HostValue {
    HostValue::Str(s.to_string())
}

fn value_error(r: Result<(), CtypesError>) -> (ValueTypeErrorKind, String) {
    match r {
        Err(CtypesError::ValueTypeError(e)) => (e.kind, e.message()),
        other => panic!("expected a value error, got {:?}", other),
    }
}

#[test]
fn defaults_for_every_tag() {
    for c in SIMPLE_TYPE_CHARS.chars() {
        let p = container(&c.to_string());
        let v = p.value();
        match c {
            'c' | 'u' => assert!(matches!(v, HostValue::Bytes(ref b) if b == &vec![0u8])),
            'b' | 'B' | 'h' | 'H' | 'i' | 'I' | 'l' | 'L' | 'q' | 'Q' => {
                assert_eq!(int_value(&v), Some(0))
            }
            'f' | 'd' | 'g' => assert!(matches!(v, HostValue::Float(b) if b == 0.0f64.to_bits())),
            '?' => assert!(matches!(v, HostValue::Bool(false))),
            _ => assert!(matches!(v, HostValue::Null)),
        }
    }
}

#[test]
fn pointer_default_is_null() {
    assert!(matches!(default_value(SimpleTag::Pointer), HostValue::Null));
}

#[test]
fn rejected_value_leaves_container_unchanged() {
    let mut p = container("i");
    p.set_value(host_int(7)).unwrap();
    let (k, m) = value_error(p.set_value(text("x")));
    assert_eq!(k, ValueTypeErrorKind::IntegerRequired);
    assert_eq!(m, "an integer is required (got type str)");
    assert_eq!(int_value(&p.value()), Some(7));
}

#[test]
fn rejection_messages_name_the_class() {
    let cases: Vec<(&str, HostValue, &str)> = vec![
        ("c", text("a"), "one character bytes, bytearray or integer expected"),
        ("u", text("ab"), "one character unicode string expected"),
        ("u", host_int(1), "unicode string expected instead of int instance"),
        ("d", host_int(1), "must be real number, not int"),
        ("B", HostValue::Float(1.5f64.to_bits()), "int expected instead of float"),
        ("z", text("a"), "bytes or integer address expected instead of str instance"),
        ("Z", bytes(b"a"), "unicode string or integer address expected instead of bytes instance"),
        ("q", HostValue::Other("list".to_string()), "an integer is required (got type list)"),
        ("i", HostValue::Bool(true), "an integer is required (got type bool)"),
    ];
    for (tag, v, msg) in cases {
        let mut p = container(tag);
        let (_, m) = value_error(p.set_value(v));
        assert_eq!(m, msg);
    }
    match set_primitive(SimpleTag::Pointer, &text("a")) {
        Err(e) => assert_eq!(e.message(), "cannot be converted to pointer"),
        Ok(_) => panic!("a string is no pointer"),
    }
}

#[test]
fn round_trip_keeps_accepted_values() {
    let mut p = container("u");
    p.set_value(text("é")).unwrap();
    assert!(matches!(p.value(), HostValue::Str(ref s) if s == "é"));
    let mut p = container("z");
    p.set_value(bytes(b"hello")).unwrap();
    assert!(matches!(p.value(), HostValue::Bytes(ref b) if b == b"hello"));
    let mut p = container("Z");
    p.set_value(text("wide")).unwrap();
    assert!(matches!(p.value(), HostValue::Str(ref s) if s == "wide"));
    let mut p = container("d");
    p.set_value(HostValue::Float(2.5f64.to_bits())).unwrap();
    assert!(matches!(p.value(), HostValue::Float(b) if b == 2.5f64.to_bits()));
    let mut p = container("Q");
    p.set_value(host_int(-123456789)).unwrap();
    assert_eq!(int_value(&p.value()), Some(-123456789));
}

#[test]
fn unsigned_byte_truncation_settles() {
    let mut p = container("B");
    p.set_value(host_int(-1)).unwrap();
    assert_eq!(int_value(&p.value()), Some(255));
    let again = p.value();
    p.set_value(again).unwrap();
    assert_eq!(int_value(&p.value()), Some(255));
    p.set_value(host_int(512)).unwrap();
    assert_eq!(int_value(&p.value()), Some(0));
}

#[test]
fn bool_tag_stores_truth() {
    let mut p = container("?");
    p.set_value(host_int(5)).unwrap();
    assert!(matches!(p.value(), HostValue::Bool(true)));
    p.set_value(bytes(b"")).unwrap();
    assert!(matches!(p.value(), HostValue::Bool(false)));
    p.set_value(HostValue::Float((-0.0f64).to_bits())).unwrap();
    assert!(matches!(p.value(), HostValue::Bool(false)));
}

#[test]
fn char_tag_accepts_one_byte_or_small_int() {
    let mut p = container("c");
    assert!(p.set_value(bytes(b"a")).is_ok());
    assert!(p.set_value(HostValue::ByteArray(vec![b'b'])).is_ok());
    assert!(p.set_value(host_int(0)).is_ok());
    assert!(p.set_value(host_int(255)).is_ok());
    assert_eq!(int_value(&p.value()), Some(255));
    assert!(p.set_value(bytes(b"ab")).is_err());
    assert!(p.set_value(host_int(256)).is_err());
    assert!(p.set_value(host_int(-1)).is_err());
    assert_eq!(int_value(&p.value()), Some(255));
}

#[test]
fn unsigned_byte_wraps_300_to_44() {
    let mut p = container("B");
    p.set_value(host_int(300)).unwrap();
    assert_eq!(int_value(&p.value()), Some(44));
    let (k, m) = value_error(p.set_value(text("300")));
    assert_eq!(k, ValueTypeErrorKind::IntExpected);
    assert_eq!(m, "int expected instead of str");
    assert_eq!(int_value(&p.value()), Some(44));
}

#[test]
fn tag_declaration_errors() {
    let e = PySimpleType::tp_new(&TypeAttribute::Str("x".to_string()), false).unwrap_err();
    match e {
        CtypesError::TagDeclarationError(t) => {
            assert_eq!(t, TagDeclarationError::NotInAlphabet);
            assert_eq!(
                t.message(),
                "class must define a '_type_' attribute which must be\na single character string containing one of cbBhHiIlLdfguzZqQ?."
            );
        }
        other => panic!("unexpected {:?}", other),
    }
    let e = PySimpleType::tp_new(&TypeAttribute::Str("ab".to_string()), false).unwrap_err();
    match e {
        CtypesError::TagDeclarationError(t) => {
            assert_eq!(t, TagDeclarationError::WrongLength);
            assert!(t.message().contains("length 1"));
        }
        other => panic!("unexpected {:?}", other),
    }
    let e = PySimpleType::tp_new(&TypeAttribute::Missing, false).unwrap_err();
    match e {
        CtypesError::TagDeclarationError(t) => {
            assert_eq!(t, TagDeclarationError::Missing);
            assert_eq!(t.message(), "class must define a '_type_' attribute");
        }
        other => panic!("unexpected {:?}", other),
    }
    assert!(matches!(
        PySimpleType::tp_new(&TypeAttribute::NotString, false),
        Err(CtypesError::TagDeclarationError(TagDeclarationError::NotString))
    ));
    assert_eq!(parse_type_tag("P"), Err(TagDeclarationError::NotInAlphabet));
    assert_eq!(parse_type_tag(""), Err(TagDeclarationError::WrongLength));
    assert_eq!(parse_type_tag("?"), Ok(SimpleTag::Bool));
}

#[test]
fn abstract_base_refuses_explicit_value() {
    let attr = TypeAttribute::Str("i".to_string());
    let mut p = PySimpleType::tp_new(&attr, true).unwrap();
    assert!(p.is_abstract());
    assert!(matches!(p.init(Some(host_int(3))), Err(CtypesError::AbstractInstantiationError)));
    assert_eq!(int_value(&p.value()), Some(0));
    let mut q = PySimpleType::tp_new(&attr, true).unwrap();
    q.init(None).unwrap();
    assert_eq!(int_value(&q.value()), Some(0));
    let mut s = PySimpleType::tp_new(&attr, false).unwrap();
    s.init(Some(host_int(3))).unwrap();
    assert_eq!(int_value(&s.value()), Some(3));
    assert_eq!(s.tag(), SimpleTag::LowerI);
}

#[test]
fn repr_and_debug_text() {
    let p = container("h");
    assert_eq!(p.repr("c_short", "0"), "c_short(0)");
    assert_eq!(
        p.debug_text("0"),
        "PySimpleType {\n            _type_: h,\n            value: 0,\n        }"
    );
    assert_eq!(int_value(&p.ctypes_from_outparam()), Some(0));
    assert_eq!(int_value(&PySimpleType::from_param(host_int(9))), Some(9));
}
