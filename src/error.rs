//! Error kinds reported by the marshaling and resolution layers.

use vstd::prelude::*;
use vstd::string::*;

verus! {

/// Which rule of its tag a value failed.
#[derive(PartialEq, Eq, Structural, Clone, Copy, Debug)]
pub enum ValueTypeErrorKind {
    OneCharBytes,
    OneCharUnicode,
    UnicodeExpected,
    IntegerRequired,
    RealNumber,
    IntExpected,
    BytesOrAddress,
    UnicodeOrAddress,
    NotPointer,
}

/// A value that is not of a kind its tag accepts; `got` is the class name
/// of the rejected value.
#[derive(Debug)]
pub struct ValueTypeError {
    pub kind: ValueTypeErrorKind,
    pub got: String,
}

impl View for ValueTypeError {
    type V = (ValueTypeErrorKind, Seq<char>);

    open spec fn view(&self) -> (ValueTypeErrorKind, Seq<char>) {
        (self.kind, self.got@)
    }
}

/// The text of a value error of kind `k` for a value of class `got`.
pub open spec fn value_type_message(k: ValueTypeErrorKind, got: Seq<char>) -> Seq<char> {
    match k {
        ValueTypeErrorKind::OneCharBytes => "one character bytes, bytearray or integer expected"@,
        ValueTypeErrorKind::OneCharUnicode => "one character unicode string expected"@,
        ValueTypeErrorKind::UnicodeExpected => "unicode string expected instead of "@ + got
            + " instance"@,
        ValueTypeErrorKind::IntegerRequired => "an integer is required (got type "@ + got + ")"@,
        ValueTypeErrorKind::RealNumber => "must be real number, not "@ + got,
        ValueTypeErrorKind::IntExpected => "int expected instead of "@ + got,
        ValueTypeErrorKind::BytesOrAddress => "bytes or integer address expected instead of "@
            + got + " instance"@,
        ValueTypeErrorKind::UnicodeOrAddress =>
            "unicode string or integer address expected instead of "@ + got + " instance"@,
        ValueTypeErrorKind::NotPointer => "cannot be converted to pointer"@,
    }
}

/// `prefix`, then `middle`, then `suffix`.
fn joined(prefix: &str, middle: &String, suffix: &str) -> (r: String)
    ensures
        r@ == prefix@ + middle@ + suffix@,
{
    let mut r = String::from_str(prefix);
    r.append(middle.as_str());
    r.append(suffix);
    r
}

impl ValueTypeError {
    /// The error's message text.
    pub fn message(&self) -> (r: String)
        ensures
            r@ == value_type_message(self.kind, self.got@),
    {
        let got = &self.got;
        match self.kind {
            ValueTypeErrorKind::OneCharBytes => String::from_str(
                "one character bytes, bytearray or integer expected",
            ),
            ValueTypeErrorKind::OneCharUnicode => String::from_str(
                "one character unicode string expected",
            ),
            ValueTypeErrorKind::UnicodeExpected => joined(
                "unicode string expected instead of ",
                got,
                " instance",
            ),
            ValueTypeErrorKind::IntegerRequired => joined(
                "an integer is required (got type ",
                got,
                ")",
            ),
            ValueTypeErrorKind::RealNumber => {
                let r = joined("must be real number, not ", got, "");
                assert(r@ =~= "must be real number, not "@ + got@) by {
                    reveal_strlit("");
                }
                r
            },
            ValueTypeErrorKind::IntExpected => {
                let r = joined("int expected instead of ", got, "");
                assert(r@ =~= "int expected instead of "@ + got@) by {
                    reveal_strlit("");
                }
                r
            },
            ValueTypeErrorKind::BytesOrAddress => joined(
                "bytes or integer address expected instead of ",
                got,
                " instance",
            ),
            ValueTypeErrorKind::UnicodeOrAddress => joined(
                "unicode string or integer address expected instead of ",
                got,
                " instance",
            ),
            ValueTypeErrorKind::NotPointer => String::from_str("cannot be converted to pointer"),
        }
    }
}

/// How a declared `_type_` attribute is malformed.
#[derive(PartialEq, Eq, Structural, Clone, Copy, Debug)]
pub enum TagDeclarationError {
    /// The attribute is absent.
    Missing,
    /// The attribute is not a string.
    NotString,
    /// The attribute is a string, but not of exactly one character.
    WrongLength,
    /// The attribute is one character outside the tag alphabet.
    NotInAlphabet,
}

/// The tag alphabet, in the order error messages list it.
pub const SIMPLE_TYPE_CHARS: &'static str = "cbBhHiIlLdfguzZqQ?";

/// The text of a tag declaration error.
pub open spec fn tag_declaration_message(e: TagDeclarationError) -> Seq<char> {
    match e {
        TagDeclarationError::Missing => "class must define a '_type_' attribute"@,
        TagDeclarationError::NotString => "class must define a '_type_' string attribute"@,
        TagDeclarationError::WrongLength =>
            "class must define a '_type_' attribute which must be a string of length 1"@,
        TagDeclarationError::NotInAlphabet =>
            "class must define a '_type_' attribute which must be\na single character string containing one of "@
            + SIMPLE_TYPE_CHARS@ + "."@,
    }
}

impl TagDeclarationError {
    /// The error's message text.
    pub fn message(&self) -> (r: String)
        ensures
            r@ == tag_declaration_message(*self),
    {
        match self {
            TagDeclarationError::Missing => String::from_str(
                "class must define a '_type_' attribute",
            ),
            TagDeclarationError::NotString => String::from_str(
                "class must define a '_type_' string attribute",
            ),
            TagDeclarationError::WrongLength => String::from_str(
                "class must define a '_type_' attribute which must be a string of length 1",
            ),
            TagDeclarationError::NotInAlphabet => {
                let mut r = String::from_str(
                    "class must define a '_type_' attribute which must be\na single character string containing one of ",
                );
                r.append(SIMPLE_TYPE_CHARS);
                r.append(".");
                r
            },
        }
    }
}

/// Every failure of this library.
#[derive(Debug)]
pub enum CtypesError {
    /// A shared library could not be opened.
    LoadError { path: String, diagnostic: String },
    /// Symbol resolution was asked of an object that is not a library handle.
    InvalidHandleError,
    /// A library handle does not export the named symbol.
    SymbolNotFoundError { symbol: String, library: String },
    /// A declared `_type_` attribute is missing or malformed.
    TagDeclarationError(TagDeclarationError),
    /// A value is not of a kind its tag accepts.
    ValueTypeError(ValueTypeError),
    /// An explicit value was given to an instance of the abstract base.
    AbstractInstantiationError,
    /// A conversion hook that has no implementation yet was invoked.
    NotImplementedError,
}

} // verus!
