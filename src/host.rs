//! Host-language values as the marshaling layer sees them.

use vstd::prelude::*;
use vstd::string::*;

verus! {

/// Magnitude of a little-endian base-256 digit sequence.
pub open spec fn magnitude_of(s: Seq<u8>) -> nat
    decreases s.len(),
{
    if s.len() == 0 {
        0
    } else {
        s[0] as nat + 256 * magnitude_of(s.subrange(1, s.len() as int))
    }
}

/// An arbitrary-precision host integer in sign-magnitude form; the magnitude
/// is little-endian in base 256. Leading zero digits and a negative zero are
/// allowed and denote the same number as their canonical form.
#[derive(Debug)]
pub struct HostInt {
    pub negative: bool,
    pub magnitude: Vec<u8>,
}

impl View for HostInt {
    type V = int;

    open spec fn view(&self) -> int {
        if self.negative {
            -(magnitude_of(self.magnitude@) as int)
        } else {
            magnitude_of(self.magnitude@) as int
        }
    }
}

/// A magnitude is zero exactly when every digit is zero.
pub proof fn lemma_magnitude_zero(s: Seq<u8>)
    ensures
        (magnitude_of(s) == 0) <==> (forall|j: int| 0 <= j < s.len() ==> s[j] == 0),
    decreases s.len(),
{
    if s.len() > 0 {
        let t = s.subrange(1, s.len() as int);
        lemma_magnitude_zero(t);
        if magnitude_of(s) == 0 {
            assert forall|j: int| 0 <= j < s.len() implies s[j] == 0 by {
                if j > 0 {
                    assert(s[j] == t[j - 1]);
                }
            }
        }
        if forall|j: int| 0 <= j < s.len() ==> s[j] == 0 {
            assert forall|j: int| 0 <= j < t.len() implies t[j] == 0 by {
                assert(t[j] == s[j + 1]);
            }
        }
    }
}

/// The lowest digit fixes the magnitude modulo 256.
pub proof fn lemma_magnitude_low_byte(s: Seq<u8>)
    ensures
        magnitude_of(s) % 256 == (if s.len() == 0 { 0 } else { s[0] as nat }),
{
    if s.len() > 0 {
        let a = s[0] as int;
        let b = magnitude_of(s.subrange(1, s.len() as int)) as int;
        assert((a + 256 * b) % 256 == a) by (nonlinear_arith)
            requires 0 <= a < 256, 0 <= b;
    }
}

/// Whether every digit of `s` from index `from` on is zero.
fn digits_zero_from(s: &Vec<u8>, from: usize) -> (r: bool)
    ensures
        r == (forall|j: int| from <= j < s@.len() ==> s@[j] == 0),
{
    let mut i: usize = from;
    while i < s.len()
        invariant
            from <= i,
            forall|j: int| from <= j < i && j < s@.len() ==> s@[j] == 0,
        decreases s.len() - i,
    {
        if s[i] != 0 {
            assert(s@[i as int] != 0);
            return false;
        }
        i = i + 1;
    }
    true
}

impl HostInt {
    /// The integer zero.
    pub fn zero() -> (r: HostInt)
        ensures
            r@ == 0,
    {
        HostInt { negative: false, magnitude: Vec::new() }
    }

    /// Builds a non-negative integer from a byte.
    pub fn from_u8(b: u8) -> (r: HostInt)
        ensures
            r@ == b as int,
    {
        let r = HostInt { negative: false, magnitude: vec![b] };
        proof {
            let s = r.magnitude@;
            assert(s.subrange(1, 1) =~= Seq::<u8>::empty());
            assert(magnitude_of(Seq::<u8>::empty()) == 0);
        }
        r
    }

    /// Whether the value lies in `0..=255`.
    pub fn in_byte_range(&self) -> (r: bool)
        ensures
            r == (0 <= self@ <= 255),
    {
        let s = Ghost(self.magnitude@);
        proof {
            lemma_magnitude_zero(s@);
            if s@.len() > 0 {
                let t = s@.subrange(1, s@.len() as int);
                lemma_magnitude_zero(t);
                assert((forall|j: int| 1 <= j < s@.len() ==> s@[j] == 0) <==> (forall|j: int|
                    0 <= j < t.len() ==> t[j] == 0)) by {
                    if forall|j: int| 1 <= j < s@.len() ==> s@[j] == 0 {
                        assert forall|j: int| 0 <= j < t.len() implies t[j] == 0 by {
                            assert(t[j] == s@[j + 1]);
                        }
                    }
                    if forall|j: int| 0 <= j < t.len() ==> t[j] == 0 {
                        assert forall|j: int| 1 <= j < s@.len() implies s@[j] == 0 by {
                            assert(s@[j] == t[j - 1]);
                        }
                    }
                }
            }
        }
        if self.negative {
            digits_zero_from(&self.magnitude, 0)
        } else {
            digits_zero_from(&self.magnitude, 1)
        }
    }

    /// The value reduced modulo 256 into `0..=255`, as a C unsigned byte
    /// takes it.
    pub fn wrap_to_u8(&self) -> (r: u8)
        ensures
            r as int == self@ % 256,
    {
        proof {
            lemma_magnitude_low_byte(self.magnitude@);
        }
        let low: u8 = if self.magnitude.len() == 0 {
            0
        } else {
            self.magnitude[0]
        };
        if !self.negative || low == 0 {
            proof {
                let m = magnitude_of(self.magnitude@) as int;
                assert((-m) % 256 == 0 || !self.negative) by (nonlinear_arith)
                    requires m % 256 == 0 || !self.negative, m >= 0;
            }
            low
        } else {
            proof {
                let m = magnitude_of(self.magnitude@) as int;
                let l = low as int;
                assert((-m) % 256 == 256 - l) by (nonlinear_arith)
                    requires m % 256 == l, 0 < l < 256, m >= 0;
            }
            (256 - low as u16) as u8
        }
    }

    /// A copy of this integer with the same value.
    pub fn copy_int(&self) -> (r: HostInt)
        ensures
            r@ == self@,
    {
        let magnitude = self.magnitude.clone();
        proof {
            assert(magnitude@ =~= self.magnitude@);
        }
        HostInt { negative: self.negative, magnitude }
    }
}

/// The mathematical model of a host value: integers by their value, byte and
/// text content by their sequences.
pub enum HostData {
    Null,
    Bool(bool),
    Int(int),
    Float(u64),
    Bytes(Seq<u8>),
    ByteArray(Seq<u8>),
    Str(Seq<char>),
    Other(Seq<char>),
}

/// A host-language value handed to the marshaling layer. A float is carried
/// by the bit pattern of its IEEE 754 double; a value of any other class is
/// carried by its class name alone.
#[derive(Debug)]
pub enum HostValue {
    Null,
    Bool(bool),
    Int(HostInt),
    Float(u64),
    Bytes(Vec<u8>),
    ByteArray(Vec<u8>),
    Str(String),
    Other(String),
}

impl View for HostValue {
    type V = HostData;

    open spec fn view(&self) -> HostData {
        match self {
            HostValue::Null => HostData::Null,
            HostValue::Bool(b) => HostData::Bool(*b),
            HostValue::Int(i) => HostData::Int(i@),
            HostValue::Float(bits) => HostData::Float(*bits),
            HostValue::Bytes(b) => HostData::Bytes(b@),
            HostValue::ByteArray(b) => HostData::ByteArray(b@),
            HostValue::Str(s) => HostData::Str(s@),
            HostValue::Other(name) => HostData::Other(name@),
        }
    }
}

/// The class name of a host value, as error messages print it.
pub open spec fn kind_name(d: HostData) -> Seq<char> {
    match d {
        HostData::Null => "NoneType"@,
        HostData::Bool(_) => "bool"@,
        HostData::Int(_) => "int"@,
        HostData::Float(_) => "float"@,
        HostData::Bytes(_) => "bytes"@,
        HostData::ByteArray(_) => "bytearray"@,
        HostData::Str(_) => "str"@,
        HostData::Other(name) => name,
    }
}

/// Truth value of a host value: zero, empty content, `None` and `False` are
/// false; any other value is true. A float is false only for positive and
/// negative zero.
pub open spec fn truth_of(d: HostData) -> bool {
    match d {
        HostData::Null => false,
        HostData::Bool(b) => b,
        HostData::Int(i) => i != 0,
        HostData::Float(bits) => bits != 0 && bits != 0x8000_0000_0000_0000u64,
        HostData::Bytes(b) => b.len() > 0,
        HostData::ByteArray(b) => b.len() > 0,
        HostData::Str(s) => s.len() > 0,
        HostData::Other(_) => true,
    }
}

impl HostValue {
    /// A copy of this value with the same model.
    pub fn copy_value(&self) -> (r: HostValue)
        ensures
            r@ == self@,
    {
        match self {
            HostValue::Null => HostValue::Null,
            HostValue::Bool(b) => HostValue::Bool(*b),
            HostValue::Int(i) => HostValue::Int(i.copy_int()),
            HostValue::Float(bits) => HostValue::Float(*bits),
            HostValue::Bytes(b) => {
                let c = b.clone();
                assert(c@ =~= b@);
                HostValue::Bytes(c)
            },
            HostValue::ByteArray(b) => {
                let c = b.clone();
                assert(c@ =~= b@);
                HostValue::ByteArray(c)
            },
            HostValue::Str(s) => HostValue::Str(s.clone()),
            HostValue::Other(name) => HostValue::Other(name.clone()),
        }
    }

    /// The class name of this value.
    pub fn kind_name(&self) -> (r: String)
        ensures
            r@ == kind_name(self@),
    {
        match self {
            HostValue::Null => String::from_str("NoneType"),
            HostValue::Bool(_) => String::from_str("bool"),
            HostValue::Int(_) => String::from_str("int"),
            HostValue::Float(_) => String::from_str("float"),
            HostValue::Bytes(_) => String::from_str("bytes"),
            HostValue::ByteArray(_) => String::from_str("bytearray"),
            HostValue::Str(_) => String::from_str("str"),
            HostValue::Other(name) => name.clone(),
        }
    }

    /// Truth value of this host value.
    pub fn truth(&self) -> (r: bool)
        ensures
            r == truth_of(self@),
    {
        match self {
            HostValue::Null => false,
            HostValue::Bool(b) => *b,
            HostValue::Int(i) => {
                proof {
                    lemma_magnitude_zero(i.magnitude@);
                }
                !digits_zero_from(&i.magnitude, 0)
            },
            HostValue::Float(bits) => *bits != 0 && *bits != 0x8000_0000_0000_0000u64,
            HostValue::Bytes(b) => b.len() > 0,
            HostValue::ByteArray(b) => b.len() > 0,
            HostValue::Str(s) => s.unicode_len() > 0,
            HostValue::Other(_) => true,
        }
    }
}

} // verus!
