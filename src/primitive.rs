//! The primitive marshaling engine and the tagged simple-value container.

use vstd::prelude::*;
use vstd::string::*;

use crate::error::{CtypesError, TagDeclarationError, ValueTypeError, ValueTypeErrorKind};
use crate::host::{kind_name, truth_of, HostData, HostInt, HostValue};

verus! {

/// A primitive C-compatible kind, named by its one-character tag.
#[derive(PartialEq, Eq, Structural, Clone, Copy, Debug)]
pub enum SimpleTag {
    /// `c`: a single byte character.
    C,
    /// `b`: signed char.
    LowerB,
    /// `B`: unsigned char.
    UpperB,
    /// `h`: signed short.
    LowerH,
    /// `H`: unsigned short.
    UpperH,
    /// `i`: signed int.
    LowerI,
    /// `I`: unsigned int.
    UpperI,
    /// `l`: signed long.
    LowerL,
    /// `L`: unsigned long.
    UpperL,
    /// `d`: double.
    D,
    /// `f`: float.
    F,
    /// `g`: long double.
    G,
    /// `u`: a single wide character.
    U,
    /// `z`: a char pointer.
    LowerZ,
    /// `Z`: a wide char pointer.
    UpperZ,
    /// `q`: signed long long.
    LowerQ,
    /// `Q`: unsigned long long.
    UpperQ,
    /// `?`: bool.
    Bool,
    /// `P`: an untyped pointer; also the rule for any other tag character.
    Pointer,
}

/// The character that names a tag.
pub open spec fn tag_char(t: SimpleTag) -> char {
    match t {
        SimpleTag::C => 'c',
        SimpleTag::LowerB => 'b',
        SimpleTag::UpperB => 'B',
        SimpleTag::LowerH => 'h',
        SimpleTag::UpperH => 'H',
        SimpleTag::LowerI => 'i',
        SimpleTag::UpperI => 'I',
        SimpleTag::LowerL => 'l',
        SimpleTag::UpperL => 'L',
        SimpleTag::D => 'd',
        SimpleTag::F => 'f',
        SimpleTag::G => 'g',
        SimpleTag::U => 'u',
        SimpleTag::LowerZ => 'z',
        SimpleTag::UpperZ => 'Z',
        SimpleTag::LowerQ => 'q',
        SimpleTag::UpperQ => 'Q',
        SimpleTag::Bool => '?',
        SimpleTag::Pointer => 'P',
    }
}

/// The tag that a character of the alphabet `cbBhHiIlLdfguzZqQ?` names;
/// `None` for any other character.
pub open spec fn tag_of_char(c: char) -> Option<SimpleTag> {
    match c {
        'c' => Some(SimpleTag::C),
        'b' => Some(SimpleTag::LowerB),
        'B' => Some(SimpleTag::UpperB),
        'h' => Some(SimpleTag::LowerH),
        'H' => Some(SimpleTag::UpperH),
        'i' => Some(SimpleTag::LowerI),
        'I' => Some(SimpleTag::UpperI),
        'l' => Some(SimpleTag::LowerL),
        'L' => Some(SimpleTag::UpperL),
        'd' => Some(SimpleTag::D),
        'f' => Some(SimpleTag::F),
        'g' => Some(SimpleTag::G),
        'u' => Some(SimpleTag::U),
        'z' => Some(SimpleTag::LowerZ),
        'Z' => Some(SimpleTag::UpperZ),
        'q' => Some(SimpleTag::LowerQ),
        'Q' => Some(SimpleTag::UpperQ),
        '?' => Some(SimpleTag::Bool),
        _ => None,
    }
}

impl SimpleTag {
    /// The tag that an alphabet character names.
    pub fn from_char(c: char) -> (r: Option<SimpleTag>)
        ensures
            r == tag_of_char(c),
    {
        match c {
            'c' => Some(SimpleTag::C),
            'b' => Some(SimpleTag::LowerB),
            'B' => Some(SimpleTag::UpperB),
            'h' => Some(SimpleTag::LowerH),
            'H' => Some(SimpleTag::UpperH),
            'i' => Some(SimpleTag::LowerI),
            'I' => Some(SimpleTag::UpperI),
            'l' => Some(SimpleTag::LowerL),
            'L' => Some(SimpleTag::UpperL),
            'd' => Some(SimpleTag::D),
            'f' => Some(SimpleTag::F),
            'g' => Some(SimpleTag::G),
            'u' => Some(SimpleTag::U),
            'z' => Some(SimpleTag::LowerZ),
            'Z' => Some(SimpleTag::UpperZ),
            'q' => Some(SimpleTag::LowerQ),
            'Q' => Some(SimpleTag::UpperQ),
            '?' => Some(SimpleTag::Bool),
            _ => None,
        }
    }

    /// The tag's character as a one-character string.
    pub fn as_str(&self) -> (r: &'static str)
        ensures
            r@ == seq![tag_char(*self)],
    {
        match self {
            SimpleTag::C => {
                proof { reveal_strlit("c"); }
                "c"
            },
            SimpleTag::LowerB => {
                proof { reveal_strlit("b"); }
                "b"
            },
            SimpleTag::UpperB => {
                proof { reveal_strlit("B"); }
                "B"
            },
            SimpleTag::LowerH => {
                proof { reveal_strlit("h"); }
                "h"
            },
            SimpleTag::UpperH => {
                proof { reveal_strlit("H"); }
                "H"
            },
            SimpleTag::LowerI => {
                proof { reveal_strlit("i"); }
                "i"
            },
            SimpleTag::UpperI => {
                proof { reveal_strlit("I"); }
                "I"
            },
            SimpleTag::LowerL => {
                proof { reveal_strlit("l"); }
                "l"
            },
            SimpleTag::UpperL => {
                proof { reveal_strlit("L"); }
                "L"
            },
            SimpleTag::D => {
                proof { reveal_strlit("d"); }
                "d"
            },
            SimpleTag::F => {
                proof { reveal_strlit("f"); }
                "f"
            },
            SimpleTag::G => {
                proof { reveal_strlit("g"); }
                "g"
            },
            SimpleTag::U => {
                proof { reveal_strlit("u"); }
                "u"
            },
            SimpleTag::LowerZ => {
                proof { reveal_strlit("z"); }
                "z"
            },
            SimpleTag::UpperZ => {
                proof { reveal_strlit("Z"); }
                "Z"
            },
            SimpleTag::LowerQ => {
                proof { reveal_strlit("q"); }
                "q"
            },
            SimpleTag::UpperQ => {
                proof { reveal_strlit("Q"); }
                "Q"
            },
            SimpleTag::Bool => {
                proof { reveal_strlit("?"); }
                "?"
            },
            SimpleTag::Pointer => {
                proof { reveal_strlit("P"); }
                "P"
            },
        }
    }
}

/// Whether `t` is one of the integer tags other than `B`.
pub open spec fn is_integer_tag(t: SimpleTag) -> bool {
    t == SimpleTag::LowerB || t == SimpleTag::LowerH || t == SimpleTag::UpperH || t
        == SimpleTag::LowerI || t == SimpleTag::UpperI || t == SimpleTag::LowerL || t
        == SimpleTag::UpperL || t == SimpleTag::LowerQ || t == SimpleTag::UpperQ
}

/// Whether `t` is one of the floating tags.
pub open spec fn is_float_tag(t: SimpleTag) -> bool {
    t == SimpleTag::D || t == SimpleTag::F || t == SimpleTag::G
}

/// Whether a value of the model `d` is of a kind that tag `t` takes.
pub open spec fn accepts(t: SimpleTag, d: HostData) -> bool {
    match t {
        SimpleTag::C => match d {
            HostData::Bytes(b) => b.len() == 1,
            HostData::ByteArray(b) => b.len() == 1,
            HostData::Int(i) => 0 <= i <= 255,
            _ => false,
        },
        SimpleTag::U => match d {
            HostData::Str(s) => s.len() == 1,
            _ => false,
        },
        SimpleTag::D | SimpleTag::F | SimpleTag::G => d is Float,
        SimpleTag::Bool => true,
        SimpleTag::LowerZ => d is Int || d is Bytes,
        SimpleTag::UpperZ => d is Str,
        SimpleTag::Pointer => d is Int || d is Null,
        _ => d is Int,
    }
}

/// The rule of tag `t` that a rejected value of the model `d` broke.
pub open spec fn rejection(t: SimpleTag, d: HostData) -> ValueTypeErrorKind {
    match t {
        SimpleTag::C => ValueTypeErrorKind::OneCharBytes,
        SimpleTag::U => if d is Str {
            ValueTypeErrorKind::OneCharUnicode
        } else {
            ValueTypeErrorKind::UnicodeExpected
        },
        SimpleTag::D | SimpleTag::F | SimpleTag::G => ValueTypeErrorKind::RealNumber,
        SimpleTag::UpperB => ValueTypeErrorKind::IntExpected,
        SimpleTag::LowerZ => ValueTypeErrorKind::BytesOrAddress,
        SimpleTag::UpperZ => ValueTypeErrorKind::UnicodeOrAddress,
        SimpleTag::Pointer | SimpleTag::Bool => ValueTypeErrorKind::NotPointer,
        _ => ValueTypeErrorKind::IntegerRequired,
    }
}

/// What writing a value of the model `d` under tag `t` stores: `B` reduces an
/// integer modulo 256, `?` stores the value's truth, every other tag stores
/// an accepted value unchanged. A rejected value gives the broken rule and the
/// value's class name.
pub open spec fn coerce_spec(t: SimpleTag, d: HostData) -> Result<
    HostData,
    (ValueTypeErrorKind, Seq<char>),
> {
    if !accepts(t, d) {
        Err((rejection(t, d), kind_name(d)))
    } else if t == SimpleTag::Bool {
        Ok(HostData::Bool(truth_of(d)))
    } else if t == SimpleTag::UpperB {
        Ok(HostData::Int(d->Int_0 % 256))
    } else {
        Ok(d)
    }
}

/// The value a container of tag `t` holds when built with no explicit value.
pub open spec fn default_of(t: SimpleTag) -> HostData {
    match t {
        SimpleTag::C | SimpleTag::U => HostData::Bytes(seq![0u8]),
        SimpleTag::D | SimpleTag::F | SimpleTag::G => HostData::Float(0),
        SimpleTag::Bool => HostData::Bool(false),
        SimpleTag::LowerZ | SimpleTag::UpperZ | SimpleTag::Pointer => HostData::Null,
        _ => HostData::Int(0),
    }
}

/// The model of a marshaling result.
pub open spec fn result_view(r: Result<HostValue, ValueTypeError>) -> Result<
    HostData,
    (ValueTypeErrorKind, Seq<char>),
> {
    match r {
        Ok(v) => Ok(v@),
        Err(e) => Err(e@),
    }
}

/// The rejection of `value` under tag `t`.
fn reject(t: SimpleTag, value: &HostValue) -> (r: ValueTypeError)
    ensures
        r@ == (rejection(t, value@), kind_name(value@)),
{
    let kind = match t {
        SimpleTag::C => ValueTypeErrorKind::OneCharBytes,
        SimpleTag::U => match value {
            HostValue::Str(_) => ValueTypeErrorKind::OneCharUnicode,
            _ => ValueTypeErrorKind::UnicodeExpected,
        },
        SimpleTag::D | SimpleTag::F | SimpleTag::G => ValueTypeErrorKind::RealNumber,
        SimpleTag::UpperB => ValueTypeErrorKind::IntExpected,
        SimpleTag::LowerZ => ValueTypeErrorKind::BytesOrAddress,
        SimpleTag::UpperZ => ValueTypeErrorKind::UnicodeOrAddress,
        SimpleTag::Pointer | SimpleTag::Bool => ValueTypeErrorKind::NotPointer,
        _ => ValueTypeErrorKind::IntegerRequired,
    };
    ValueTypeError { kind, got: value.kind_name() }
}

/// Validates `value` against the rules of tag `t` and gives the value to
/// store, or the rule it broke.
pub fn set_primitive(t: SimpleTag, value: &HostValue) -> (r: Result<HostValue, ValueTypeError>)
    ensures
        result_view(r) == coerce_spec(t, value@),
{
    match t {
        SimpleTag::C => {
            let ok = match value {
                HostValue::Bytes(b) => b.len() == 1,
                HostValue::ByteArray(b) => b.len() == 1,
                HostValue::Int(i) => i.in_byte_range(),
                _ => false,
            };
            if ok {
                Ok(value.copy_value())
            } else {
                Err(reject(t, value))
            }
        },
        SimpleTag::U => {
            let ok = match value {
                HostValue::Str(s) => s.unicode_len() == 1,
                _ => false,
            };
            if ok {
                Ok(value.copy_value())
            } else {
                Err(reject(t, value))
            }
        },
        SimpleTag::D | SimpleTag::F | SimpleTag::G => match value {
            HostValue::Float(bits) => Ok(HostValue::Float(*bits)),
            _ => Err(reject(t, value)),
        },
        SimpleTag::Bool => Ok(HostValue::Bool(value.truth())),
        SimpleTag::UpperB => match value {
            HostValue::Int(i) => Ok(HostValue::Int(HostInt::from_u8(i.wrap_to_u8()))),
            _ => Err(reject(t, value)),
        },
        SimpleTag::LowerZ => match value {
            HostValue::Int(_) | HostValue::Bytes(_) => Ok(value.copy_value()),
            _ => Err(reject(t, value)),
        },
        SimpleTag::UpperZ => match value {
            HostValue::Str(_) => Ok(value.copy_value()),
            _ => Err(reject(t, value)),
        },
        SimpleTag::Pointer => match value {
            HostValue::Int(_) | HostValue::Null => Ok(value.copy_value()),
            _ => Err(reject(t, value)),
        },
        _ => match value {
            HostValue::Int(_) => Ok(value.copy_value()),
            _ => Err(reject(t, value)),
        },
    }
}

/// The value a container of tag `t` holds when built with no explicit value.
pub fn default_value(t: SimpleTag) -> (r: HostValue)
    ensures
        r@ == default_of(t),
{
    match t {
        SimpleTag::C | SimpleTag::U => {
            let b = vec![0u8];
            assert(b@ =~= seq![0u8]);
            HostValue::Bytes(b)
        },
        SimpleTag::D | SimpleTag::F | SimpleTag::G => HostValue::Float(0),
        SimpleTag::Bool => HostValue::Bool(false),
        SimpleTag::LowerZ | SimpleTag::UpperZ | SimpleTag::Pointer => HostValue::Null,
        _ => HostValue::Int(HostInt::zero()),
    }
}

/// The `_type_` attribute of a declaring class, as the host reports it.
#[derive(Debug)]
pub enum TypeAttribute {
    /// The class has no `_type_` attribute.
    Missing,
    /// The attribute holds a value that is not a string.
    NotString,
    /// The attribute holds this string.
    Str(String),
}

/// The tag that a `_type_` string declares, or why it declares none.
pub open spec fn parse_tag_spec(s: Seq<char>) -> Result<SimpleTag, TagDeclarationError> {
    if s.len() != 1 {
        Err(TagDeclarationError::WrongLength)
    } else {
        match tag_of_char(s[0]) {
            Some(t) => Ok(t),
            None => Err(TagDeclarationError::NotInAlphabet),
        }
    }
}

/// The tag that a `_type_` attribute declares, or why it declares none.
pub open spec fn declared_tag(a: TypeAttribute) -> Result<SimpleTag, TagDeclarationError> {
    match a {
        TypeAttribute::Missing => Err(TagDeclarationError::Missing),
        TypeAttribute::NotString => Err(TagDeclarationError::NotString),
        TypeAttribute::Str(s) => parse_tag_spec(s@),
    }
}

/// Reads the tag out of a `_type_` string.
pub fn parse_type_tag(s: &str) -> (r: Result<SimpleTag, TagDeclarationError>)
    ensures
        r == parse_tag_spec(s@),
{
    if s.unicode_len() != 1 {
        Err(TagDeclarationError::WrongLength)
    } else {
        match SimpleTag::from_char(s.get_char(0)) {
            Some(t) => Ok(t),
            None => Err(TagDeclarationError::NotInAlphabet),
        }
    }
}

/// Whether `d` may be held by a container of tag `t`: the tag's default, or
/// a value that writing under `t` keeps as it is.
pub open spec fn holdable(t: SimpleTag, d: HostData) -> bool {
    d == default_of(t) || coerce_spec(t, d) == Ok::<HostData, (ValueTypeErrorKind, Seq<char>)>(d)
}

/// The model of a simple-value container.
pub struct SimpleState {
    pub tag: SimpleTag,
    pub value: HostData,
    pub is_abstract: bool,
}

/// A tagged scalar box: its tag is fixed when it is built, and every value
/// written to it passes the tag's rules first.
#[derive(Debug)]
pub struct PySimpleType {
    tag: SimpleTag,
    value: HostValue,
    is_abstract: bool,
}

impl View for PySimpleType {
    type V = SimpleState;

    closed spec fn view(&self) -> SimpleState {
        SimpleState { tag: self.tag, value: self.value@, is_abstract: self.is_abstract }
    }
}

impl PySimpleType {
    /// The container's invariant: it holds a value its tag allows.
    pub open spec fn wf(&self) -> bool {
        holdable(self@.tag, self@.value)
    }

    /// Builds a container for a class whose `_type_` attribute is `type_attr`;
    /// `is_abstract` tells whether that class is the abstract base itself.
    /// The new container holds its tag's default.
    pub fn tp_new(type_attr: &TypeAttribute, is_abstract: bool) -> (r: Result<
        PySimpleType,
        CtypesError,
    >)
        ensures
            match declared_tag(*type_attr) {
                Ok(t) => r matches Ok(p) && p.wf() && p@ == (SimpleState {
                    tag: t,
                    value: default_of(t),
                    is_abstract,
                }),
                Err(e) => r == Err::<PySimpleType, CtypesError>(
                    CtypesError::TagDeclarationError(e),
                ),
            },
    {
        let tag = match type_attr {
            TypeAttribute::Missing => {
                return Err(CtypesError::TagDeclarationError(TagDeclarationError::Missing));
            },
            TypeAttribute::NotString => {
                return Err(CtypesError::TagDeclarationError(TagDeclarationError::NotString));
            },
            TypeAttribute::Str(s) => match parse_type_tag(s.as_str()) {
                Ok(t) => t,
                Err(e) => {
                    return Err(CtypesError::TagDeclarationError(e));
                },
            },
        };
        Ok(PySimpleType { tag, value: default_value(tag), is_abstract })
    }

    /// Initialises the container: with no value it holds its tag's default;
    /// an explicit value is refused on the abstract base and otherwise
    /// written as `set_value` writes it. On an error the container is left
    /// as it was.
    pub fn init(&mut self, value: Option<HostValue>) -> (r: Result<(), CtypesError>)
        requires
            old(self).wf(),
        ensures
            final(self).wf(),
            final(self)@.tag == old(self)@.tag,
            final(self)@.is_abstract == old(self)@.is_abstract,
            match value {
                None => r is Ok && final(self)@.value == default_of(old(self)@.tag),
                Some(v) => if old(self)@.is_abstract {
                    r == Err::<(), CtypesError>(CtypesError::AbstractInstantiationError)
                        && final(self)@ == old(self)@
                } else {
                    match coerce_spec(old(self)@.tag, v@) {
                        Ok(c) => r is Ok && final(self)@.value == c,
                        Err(e) => r matches Err(CtypesError::ValueTypeError(x)) && x@ == e
                            && final(self)@ == old(self)@,
                    }
                },
            },
    {
        match value {
            Some(v) => {
                if self.is_abstract {
                    Err(CtypesError::AbstractInstantiationError)
                } else {
                    self.set_value(v)
                }
            },
            None => {
                self.value = default_value(self.tag);
                Ok(())
            },
        }
    }

    /// The stored value.
    pub fn value(&self) -> (r: HostValue)
        ensures
            r@ == self@.value,
    {
        self.value.copy_value()
    }

    /// Writes `value` through the tag's rules; on an error the stored value
    /// is left as it was.
    pub fn set_value(&mut self, value: HostValue) -> (r: Result<(), CtypesError>)
        requires
            old(self).wf(),
        ensures
            final(self).wf(),
            final(self)@.tag == old(self)@.tag,
            final(self)@.is_abstract == old(self)@.is_abstract,
            match coerce_spec(old(self)@.tag, value@) {
                Ok(c) => r is Ok && final(self)@.value == c,
                Err(e) => r matches Err(CtypesError::ValueTypeError(x)) && x@ == e && final(self)@
                    == old(self)@,
            },
    {
        match set_primitive(self.tag, &value) {
            Ok(content) => {
                proof {
                    lemma_coerce_settles(self.tag, value@);
                }
                self.value = content;
                Ok(())
            },
            Err(e) => Err(CtypesError::ValueTypeError(e)),
        }
    }

    /// The tag fixed at construction.
    pub fn tag(&self) -> (r: SimpleTag)
        ensures
            r == self@.tag,
    {
        self.tag
    }

    /// Whether the container belongs to the abstract base itself.
    pub fn is_abstract(&self) -> (r: bool)
        ensures
            r == self@.is_abstract,
    {
        self.is_abstract
    }

    /// The hook for converting an out-parameter back to a host value: the
    /// stored value, unchanged.
    pub fn ctypes_from_outparam(&self) -> (r: HostValue)
        ensures
            r@ == self@.value,
    {
        self.value.copy_value()
    }

    /// The class-level hook for converting an argument: the value, unchanged.
    pub fn from_param(value: HostValue) -> (r: HostValue)
        ensures
            r@ == value@,
    {
        value
    }

    /// The text form `{class_name}({value_text})`, where `value_text` is the
    /// host's text of the stored value.
    pub fn repr(&self, class_name: &str, value_text: &str) -> (r: String)
        ensures
            r@ == class_name@ + "("@ + value_text@ + ")"@,
    {
        let mut r = String::from_str(class_name);
        r.append("(");
        r.append(value_text);
        r.append(")");
        r
    }

    /// The debugging text that names the tag and, through the host's text of
    /// the stored value, the value.
    pub fn debug_text(&self, value_text: &str) -> (r: String)
        ensures
            r@ == "PySimpleType {\n            _type_: "@ + seq![tag_char(self@.tag)]
                + ",\n            value: "@ + value_text@ + ",\n        }"@,
    {
        let mut r = String::from_str("PySimpleType {\n            _type_: ");
        r.append(self.tag.as_str());
        r.append(",\n            value: ");
        r.append(value_text);
        r.append(",\n        }");
        r
    }
}

/// Writing settles: what writing a value stores is kept unchanged when it is
/// written again under the same tag.
pub proof fn lemma_coerce_settles(t: SimpleTag, d: HostData)
    requires
        coerce_spec(t, d) is Ok,
    ensures
        coerce_spec(t, coerce_spec(t, d)->Ok_0) == coerce_spec(t, d),
{
}

/// Round trip: a value that tag `t` accepts is stored as written, except
/// that `B` stores the integer modulo 256 and `?` stores the value's truth;
/// writing the stored value again stores the same value.
pub proof fn lemma_round_trip(t: SimpleTag, d: HostData)
    requires
        accepts(t, d),
    ensures
        coerce_spec(t, d) is Ok,
        t != SimpleTag::UpperB && t != SimpleTag::Bool ==> coerce_spec(t, d) == Ok::<
            HostData,
            (ValueTypeErrorKind, Seq<char>),
        >(d),
        t == SimpleTag::UpperB ==> coerce_spec(t, d) == Ok::<
            HostData,
            (ValueTypeErrorKind, Seq<char>),
        >(HostData::Int(d->Int_0 % 256)),
        t == SimpleTag::Bool ==> coerce_spec(t, d) == Ok::<
            HostData,
            (ValueTypeErrorKind, Seq<char>),
        >(HostData::Bool(truth_of(d))),
        coerce_spec(t, coerce_spec(t, d)->Ok_0) == coerce_spec(t, d),
{
}

/// A value outside the kinds a tag accepts is rejected, with the rule it
/// broke and its class name.
pub proof fn lemma_rejects_outside_kind(t: SimpleTag, d: HostData)
    requires
        !accepts(t, d),
    ensures
        coerce_spec(t, d) == Err::<HostData, (ValueTypeErrorKind, Seq<char>)>(
            (rejection(t, d), kind_name(d)),
        ),
{
}

/// Exactly the characters of `cbBhHiIlLdfguzZqQ?` declare a tag.
pub proof fn lemma_alphabet(c: char)
    ensures
        tag_of_char(c) is Some <==> crate::error::SIMPLE_TYPE_CHARS@.contains(c),
{
    reveal_strlit("cbBhHiIlLdfguzZqQ?");
    let a = crate::error::SIMPLE_TYPE_CHARS@;
    assert(a =~= seq!['c', 'b', 'B', 'h', 'H', 'i', 'I', 'l', 'L', 'd', 'f', 'g', 'u', 'z', 'Z', 'q', 'Q', '?']);
    if tag_of_char(c) is Some {
        if c == 'c' {
            assert(a[0] == c);
        } else if c == 'b' {
            assert(a[1] == c);
        } else if c == 'B' {
            assert(a[2] == c);
        } else if c == 'h' {
            assert(a[3] == c);
        } else if c == 'H' {
            assert(a[4] == c);
        } else if c == 'i' {
            assert(a[5] == c);
        } else if c == 'I' {
            assert(a[6] == c);
        } else if c == 'l' {
            assert(a[7] == c);
        } else if c == 'L' {
            assert(a[8] == c);
        } else if c == 'd' {
            assert(a[9] == c);
        } else if c == 'f' {
            assert(a[10] == c);
        } else if c == 'g' {
            assert(a[11] == c);
        } else if c == 'u' {
            assert(a[12] == c);
        } else if c == 'z' {
            assert(a[13] == c);
        } else if c == 'Z' {
            assert(a[14] == c);
        } else if c == 'q' {
            assert(a[15] == c);
        } else if c == 'Q' {
            assert(a[16] == c);
        } else if c == '?' {
            assert(a[17] == c);
        }
    }
    if a.contains(c) {
        let i = choose|i: int| 0 <= i < a.len() && a[i] == c;
        assert(tag_of_char(a[i]) is Some);
    }
}

} // verus!
