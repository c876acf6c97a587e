//! The value part of an attribute, and conversions to and from the literal
//! kinds.

use vstd::prelude::*;
use vstd::slice::slice_to_vec;

use crate::ast::BoolLit;
use crate::ast::ByteStrLit;
use crate::ast::CharLit;
use crate::ast::FloatLit;
use crate::ast::IntLit;
use crate::ast::Lit;
use crate::ast::LitValue;
use crate::ast::StrLit;
use crate::ast::TypeExpr;
use crate::error::Error;

verus! {

/// Value for an attribute or an attribute argument: for `#[attr = value]`
/// and `#[attr(arg = value)]` this is the `value` part.  It is either a
/// single literal, a single type name, or nothing.
#[derive(Debug, PartialEq, Eq)]
pub enum ArgValue {
    /// The value is a literal.
    Literal(Lit),
    /// The value is a type name.
    Type(TypeExpr),
    /// No value is given.
    Absent,
}

/// The value an [`ArgValue`] denotes, for use in contracts.
pub enum ArgValueData {
    /// A literal, by the value it denotes.
    Literal(LitValue),
    /// A type name, by its source text.
    Type(Seq<char>),
    /// No value.
    Absent,
}

impl View for ArgValue {
    type V = ArgValueData;

    open spec fn view(&self) -> ArgValueData {
        match *self {
            ArgValue::Literal(lit) => ArgValueData::Literal(lit@),
            ArgValue::Type(ty) => ArgValueData::Type(ty@),
            ArgValue::Absent => ArgValueData::Absent,
        }
    }
}

impl Clone for ArgValue {
    /// A cloned value denotes the same literal, type or nothing.
    fn clone(&self) -> (r: Self)
        ensures
            r@ == self@,
    {
        match self {
            ArgValue::Literal(lit) => ArgValue::Literal(lit.clone()),
            ArgValue::Type(ty) => ArgValue::Type(ty.clone()),
            ArgValue::Absent => ArgValue::Absent,
        }
    }
}

/// The kinds a literal can have.
#[derive(Debug, PartialEq, Eq, Clone, Copy, Structural)]
pub enum LitClass {
    /// A string literal.
    Str,
    /// A byte-string literal.
    ByteStr,
    /// A boolean literal.
    Bool,
    /// A character literal.
    Char,
    /// An integer literal.
    Int,
    /// A floating-point literal.
    Float,
}

/// The class of a value: which kind of literal it is, or a type name.
#[derive(Debug, PartialEq, Eq, Clone, Copy, Structural)]
pub enum ValueClass {
    /// A literal, of the given kind.
    Literal(LitClass),
    /// A type name.
    Type,
}

/// The kind of a literal.
pub open spec fn lit_class_spec(l: Lit) -> LitClass {
    match l {
        Lit::Str(_) => LitClass::Str,
        Lit::ByteStr(_) => LitClass::ByteStr,
        Lit::Bool(_) => LitClass::Bool,
        Lit::Char(_) => LitClass::Char,
        Lit::Int(_) => LitClass::Int,
        Lit::Float(_) => LitClass::Float,
    }
}

/// The class of a value, if it holds one.
pub open spec fn value_class_spec(v: ArgValue) -> Option<ValueClass> {
    match v {
        ArgValue::Literal(lit) => Some(ValueClass::Literal(lit_class_spec(lit))),
        ArgValue::Type(_) => Some(ValueClass::Type),
        ArgValue::Absent => None,
    }
}

impl ArgValue {
    /// Whether no value is given.
    pub open spec fn is_none_spec(&self) -> bool {
        *self matches ArgValue::Absent
    }

    /// Returns the literal for a [`ArgValue::Literal`] value or fails with
    /// [`Error::ArgValueMustBeLiteral`] otherwise.
    pub fn literal_value(&self) -> (r: Result<Lit, Error>)
        ensures
            (match *self {
                ArgValue::Literal(lit) => r matches Ok(l) && l@ == lit@,
                _ => r == Err::<Lit, Error>(Error::ArgValueMustBeLiteral),
            }),
    {
        match self {
            ArgValue::Literal(lit) => Ok(lit.clone()),
            _ => Err(Error::ArgValueMustBeLiteral),
        }
    }

    /// Returns the type name for a [`ArgValue::Type`] value or fails with
    /// [`Error::ArgValueMustBeType`] otherwise.
    pub fn type_value(&self) -> (r: Result<TypeExpr, Error>)
        ensures
            (match *self {
                ArgValue::Type(ty) => r matches Ok(t) && t@ == ty@,
                _ => r == Err::<TypeExpr, Error>(Error::ArgValueMustBeType),
            }),
    {
        match self {
            ArgValue::Type(ty) => Ok(ty.clone()),
            _ => Err(Error::ArgValueMustBeType),
        }
    }

    /// Tests whether the self is set to [`ArgValue::Absent`].
    pub fn is_none(&self) -> (r: bool)
        ensures
            r == self.is_none_spec(),
    {
        match self {
            ArgValue::Absent => true,
            _ => false,
        }
    }

    /// Tests whether the self is not set to [`ArgValue::Absent`].
    pub fn is_some(&self) -> (r: bool)
        ensures
            r == !self.is_none_spec(),
    {
        match self {
            ArgValue::Absent => false,
            _ => true,
        }
    }

    /// Returns the [`ValueClass`] for the current value, if any.
    pub fn value_class(&self) -> (r: Option<ValueClass>)
        ensures
            r == value_class_spec(*self),
    {
        match self {
            ArgValue::Literal(lit) => match lit {
                Lit::Str(_) => Some(ValueClass::Literal(LitClass::Str)),
                Lit::ByteStr(_) => Some(ValueClass::Literal(LitClass::ByteStr)),
                Lit::Bool(_) => Some(ValueClass::Literal(LitClass::Bool)),
                Lit::Char(_) => Some(ValueClass::Literal(LitClass::Char)),
                Lit::Int(_) => Some(ValueClass::Literal(LitClass::Int)),
                Lit::Float(_) => Some(ValueClass::Literal(LitClass::Float)),
            },
            ArgValue::Type(_) => Some(ValueClass::Type),
            ArgValue::Absent => None,
        }
    }

    /// Wraps a borrowed string as a string-literal value.
    pub fn from_str_value(val: &str) -> (r: ArgValue)
        ensures
            r matches ArgValue::Literal(Lit::Str(s)) && s@ == val@,
    {
        ArgValue::Literal(Lit::Str(StrLit { value: val.to_owned() }))
    }

    /// Wraps an owned string as a string-literal value.
    pub fn from_string(val: String) -> (r: ArgValue)
        ensures
            r == (ArgValue::Literal(Lit::Str(StrLit { value: val }))),
    {
        ArgValue::Literal(Lit::Str(StrLit { value: val }))
    }

    /// Wraps borrowed bytes as a byte-string-literal value.
    pub fn from_bytes(val: &[u8]) -> (r: ArgValue)
        ensures
            r matches ArgValue::Literal(Lit::ByteStr(b)) && b@ == val@,
    {
        ArgValue::Literal(Lit::ByteStr(ByteStrLit { value: slice_to_vec(val) }))
    }

    /// Wraps owned bytes as a byte-string-literal value.
    pub fn from_byte_vec(val: Vec<u8>) -> (r: ArgValue)
        ensures
            r == (ArgValue::Literal(Lit::ByteStr(ByteStrLit { value: val }))),
    {
        ArgValue::Literal(Lit::ByteStr(ByteStrLit { value: val }))
    }

    /// Wraps a character as a character-literal value.
    pub fn from_char(val: char) -> (r: ArgValue)
        ensures
            r == (ArgValue::Literal(Lit::Char(CharLit { value: val }))),
    {
        ArgValue::Literal(Lit::Char(CharLit { value: val }))
    }

    /// Wraps an unsigned size as an integer-literal value.
    pub fn from_usize(val: usize) -> (r: ArgValue)
        ensures
            r == (ArgValue::Literal(
                Lit::Int(IntLit { negative: false, magnitude: val as u128 }),
            )),
    {
        ArgValue::Literal(Lit::Int(IntLit { negative: false, magnitude: val as u128 }))
    }

    /// Wraps a signed size as an integer-literal value.
    pub fn from_isize(val: isize) -> (r: ArgValue)
        ensures
            r matches ArgValue::Literal(Lit::Int(i)) && i.value_spec() == val as int && i.negative
                == (val < 0),
    {
        if val < 0 {
            let magnitude: u128 = (-(val as i128)) as u128;
            ArgValue::Literal(Lit::Int(IntLit { negative: true, magnitude: magnitude }))
        } else {
            ArgValue::Literal(Lit::Int(IntLit { negative: false, magnitude: val as u128 }))
        }
    }

    /// Wraps an optional string literal, mapping `None` to no value.
    pub fn from_opt_str_lit(val: Option<StrLit>) -> (r: ArgValue)
        ensures
            r == (match val {
                Some(s) => ArgValue::Literal(Lit::Str(s)),
                Option::None => ArgValue::Absent,
            }),
    {
        match val {
            Some(s) => ArgValue::Literal(Lit::Str(s)),
            Option::None => ArgValue::Absent,
        }
    }

    /// Wraps an optional byte-string literal, mapping `None` to no value.
    pub fn from_opt_byte_str_lit(val: Option<ByteStrLit>) -> (r: ArgValue)
        ensures
            r == (match val {
                Some(b) => ArgValue::Literal(Lit::ByteStr(b)),
                Option::None => ArgValue::Absent,
            }),
    {
        match val {
            Some(b) => ArgValue::Literal(Lit::ByteStr(b)),
            Option::None => ArgValue::Absent,
        }
    }

    /// Wraps an optional boolean literal, mapping `None` to no value.
    pub fn from_opt_bool_lit(val: Option<BoolLit>) -> (r: ArgValue)
        ensures
            r == (match val {
                Some(b) => ArgValue::Literal(Lit::Bool(b)),
                Option::None => ArgValue::Absent,
            }),
    {
        match val {
            Some(b) => ArgValue::Literal(Lit::Bool(b)),
            Option::None => ArgValue::Absent,
        }
    }

    /// Wraps an optional character literal, mapping `None` to no value.
    pub fn from_opt_char_lit(val: Option<CharLit>) -> (r: ArgValue)
        ensures
            r == (match val {
                Some(c) => ArgValue::Literal(Lit::Char(c)),
                Option::None => ArgValue::Absent,
            }),
    {
        match val {
            Some(c) => ArgValue::Literal(Lit::Char(c)),
            Option::None => ArgValue::Absent,
        }
    }

    /// Wraps an optional integer literal, mapping `None` to no value.
    pub fn from_opt_int_lit(val: Option<IntLit>) -> (r: ArgValue)
        ensures
            r == (match val {
                Some(i) => ArgValue::Literal(Lit::Int(i)),
                Option::None => ArgValue::Absent,
            }),
    {
        match val {
            Some(i) => ArgValue::Literal(Lit::Int(i)),
            Option::None => ArgValue::Absent,
        }
    }

    /// Wraps an optional float literal, mapping `None` to no value.
    pub fn from_opt_float_lit(val: Option<FloatLit>) -> (r: ArgValue)
        ensures
            r == (match val {
                Some(f) => ArgValue::Literal(Lit::Float(f)),
                Option::None => ArgValue::Absent,
            }),
    {
        match val {
            Some(f) => ArgValue::Literal(Lit::Float(f)),
            Option::None => ArgValue::Absent,
        }
    }

    /// Extracts the string a string-literal value denotes.
    pub fn try_into_string(self) -> (r: Result<String, Error>)
        ensures
            (match self {
                ArgValue::Literal(Lit::Str(s)) => r == Ok::<String, Error>(s.value),
                _ => r == Err::<String, Error>(Error::ArgValueMustBeLiteral),
            }),
    {
        match self {
            ArgValue::Literal(Lit::Str(s)) => Ok(s.value),
            _ => Err(Error::ArgValueMustBeLiteral),
        }
    }

    /// Extracts the bytes a byte-string-literal value denotes.
    pub fn try_into_byte_vec(self) -> (r: Result<Vec<u8>, Error>)
        ensures
            (match self {
                ArgValue::Literal(Lit::ByteStr(b)) => r == Ok::<Vec<u8>, Error>(b.value),
                _ => r == Err::<Vec<u8>, Error>(Error::ArgValueMustBeLiteral),
            }),
    {
        match self {
            ArgValue::Literal(Lit::ByteStr(b)) => Ok(b.value),
            _ => Err(Error::ArgValueMustBeLiteral),
        }
    }

    /// Extracts the value of a boolean-literal value.
    pub fn try_into_bool(self) -> (r: Result<bool, Error>)
        ensures
            (match self {
                ArgValue::Literal(Lit::Bool(b)) => r == Ok::<bool, Error>(b.value),
                _ => r == Err::<bool, Error>(Error::ArgValueMustBeLiteral),
            }),
    {
        match self {
            ArgValue::Literal(Lit::Bool(b)) => Ok(b.value),
            _ => Err(Error::ArgValueMustBeLiteral),
        }
    }

    /// Extracts the character a character-literal value denotes.
    pub fn try_into_char(self) -> (r: Result<char, Error>)
        ensures
            (match self {
                ArgValue::Literal(Lit::Char(c)) => r == Ok::<char, Error>(c.value),
                _ => r == Err::<char, Error>(Error::ArgValueMustBeLiteral),
            }),
    {
        match self {
            ArgValue::Literal(Lit::Char(c)) => Ok(c.value),
            _ => Err(Error::ArgValueMustBeLiteral),
        }
    }

    /// Extracts a string literal.
    pub fn try_into_str_lit(self) -> (r: Result<StrLit, Error>)
        ensures
            (match self {
                ArgValue::Literal(Lit::Str(s)) => r == Ok::<StrLit, Error>(s),
                _ => r == Err::<StrLit, Error>(Error::ArgValueMustBeLiteral),
            }),
    {
        match self {
            ArgValue::Literal(Lit::Str(s)) => Ok(s),
            _ => Err(Error::ArgValueMustBeLiteral),
        }
    }

    /// Extracts a byte-string literal.
    pub fn try_into_byte_str_lit(self) -> (r: Result<ByteStrLit, Error>)
        ensures
            (match self {
                ArgValue::Literal(Lit::ByteStr(b)) => r == Ok::<ByteStrLit, Error>(b),
                _ => r == Err::<ByteStrLit, Error>(Error::ArgValueMustBeLiteral),
            }),
    {
        match self {
            ArgValue::Literal(Lit::ByteStr(b)) => Ok(b),
            _ => Err(Error::ArgValueMustBeLiteral),
        }
    }

    /// Extracts a boolean literal.
    pub fn try_into_bool_lit(self) -> (r: Result<BoolLit, Error>)
        ensures
            (match self {
                ArgValue::Literal(Lit::Bool(b)) => r == Ok::<BoolLit, Error>(b),
                _ => r == Err::<BoolLit, Error>(Error::ArgValueMustBeLiteral),
            }),
    {
        match self {
            ArgValue::Literal(Lit::Bool(b)) => Ok(b),
            _ => Err(Error::ArgValueMustBeLiteral),
        }
    }

    /// Extracts a character literal.
    pub fn try_into_char_lit(self) -> (r: Result<CharLit, Error>)
        ensures
            (match self {
                ArgValue::Literal(Lit::Char(c)) => r == Ok::<CharLit, Error>(c),
                _ => r == Err::<CharLit, Error>(Error::ArgValueMustBeLiteral),
            }),
    {
        match self {
            ArgValue::Literal(Lit::Char(c)) => Ok(c),
            _ => Err(Error::ArgValueMustBeLiteral),
        }
    }

    /// Extracts an integer literal.
    pub fn try_into_int_lit(self) -> (r: Result<IntLit, Error>)
        ensures
            (match self {
                ArgValue::Literal(Lit::Int(i)) => r == Ok::<IntLit, Error>(i),
                _ => r == Err::<IntLit, Error>(Error::ArgValueMustBeLiteral),
            }),
    {
        match self {
            ArgValue::Literal(Lit::Int(i)) => Ok(i),
            _ => Err(Error::ArgValueMustBeLiteral),
        }
    }

    /// Extracts a float literal.
    pub fn try_into_float_lit(self) -> (r: Result<FloatLit, Error>)
        ensures
            (match self {
                ArgValue::Literal(Lit::Float(f)) => r == Ok::<FloatLit, Error>(f),
                _ => r == Err::<FloatLit, Error>(Error::ArgValueMustBeLiteral),
            }),
    {
        match self {
            ArgValue::Literal(Lit::Float(f)) => Ok(f),
            _ => Err(Error::ArgValueMustBeLiteral),
        }
    }

    /// Extracts an optional string literal; no value maps to `None`.
    pub fn try_into_opt_str_lit(self) -> (r: Result<Option<StrLit>, Error>)
        ensures
            (match self {
                ArgValue::Literal(Lit::Str(s)) => r == Ok::<Option<StrLit>, Error>(Some(s)),
                ArgValue::Absent => r == Ok::<Option<StrLit>, Error>(None),
                _ => r == Err::<Option<StrLit>, Error>(Error::ArgValueMustBeLiteral),
            }),
    {
        match self {
            ArgValue::Literal(Lit::Str(s)) => Ok(Some(s)),
            ArgValue::Absent => Ok(None),
            _ => Err(Error::ArgValueMustBeLiteral),
        }
    }

    /// Extracts an optional byte-string literal; no value maps to `None`.
    pub fn try_into_opt_byte_str_lit(self) -> (r: Result<Option<ByteStrLit>, Error>)
        ensures
            (match self {
                ArgValue::Literal(Lit::ByteStr(b)) => r == Ok::<Option<ByteStrLit>, Error>(Some(b)),
                ArgValue::Absent => r == Ok::<Option<ByteStrLit>, Error>(None),
                _ => r == Err::<Option<ByteStrLit>, Error>(Error::ArgValueMustBeLiteral),
            }),
    {
        match self {
            ArgValue::Literal(Lit::ByteStr(b)) => Ok(Some(b)),
            ArgValue::Absent => Ok(None),
            _ => Err(Error::ArgValueMustBeLiteral),
        }
    }

    /// Extracts an optional boolean literal; no value maps to `None`.
    pub fn try_into_opt_bool_lit(self) -> (r: Result<Option<BoolLit>, Error>)
        ensures
            (match self {
                ArgValue::Literal(Lit::Bool(b)) => r == Ok::<Option<BoolLit>, Error>(Some(b)),
                ArgValue::Absent => r == Ok::<Option<BoolLit>, Error>(None),
                _ => r == Err::<Option<BoolLit>, Error>(Error::ArgValueMustBeLiteral),
            }),
    {
        match self {
            ArgValue::Literal(Lit::Bool(b)) => Ok(Some(b)),
            ArgValue::Absent => Ok(None),
            _ => Err(Error::ArgValueMustBeLiteral),
        }
    }

    /// Extracts an optional character literal; no value maps to `None`.
    pub fn try_into_opt_char_lit(self) -> (r: Result<Option<CharLit>, Error>)
        ensures
            (match self {
                ArgValue::Literal(Lit::Char(c)) => r == Ok::<Option<CharLit>, Error>(Some(c)),
                ArgValue::Absent => r == Ok::<Option<CharLit>, Error>(None),
                _ => r == Err::<Option<CharLit>, Error>(Error::ArgValueMustBeLiteral),
            }),
    {
        match self {
            ArgValue::Literal(Lit::Char(c)) => Ok(Some(c)),
            ArgValue::Absent => Ok(None),
            _ => Err(Error::ArgValueMustBeLiteral),
        }
    }

    /// Extracts an optional integer literal; no value maps to `None`.
    pub fn try_into_opt_int_lit(self) -> (r: Result<Option<IntLit>, Error>)
        ensures
            (match self {
                ArgValue::Literal(Lit::Int(i)) => r == Ok::<Option<IntLit>, Error>(Some(i)),
                ArgValue::Absent => r == Ok::<Option<IntLit>, Error>(None),
                _ => r == Err::<Option<IntLit>, Error>(Error::ArgValueMustBeLiteral),
            }),
    {
        match self {
            ArgValue::Literal(Lit::Int(i)) => Ok(Some(i)),
            ArgValue::Absent => Ok(None),
            _ => Err(Error::ArgValueMustBeLiteral),
        }
    }

    /// Extracts an optional float literal; no value maps to `None`.
    pub fn try_into_opt_float_lit(self) -> (r: Result<Option<FloatLit>, Error>)
        ensures
            (match self {
                ArgValue::Literal(Lit::Float(f)) => r == Ok::<Option<FloatLit>, Error>(Some(f)),
                ArgValue::Absent => r == Ok::<Option<FloatLit>, Error>(None),
                _ => r == Err::<Option<FloatLit>, Error>(Error::ArgValueMustBeLiteral),
            }),
    {
        match self {
            ArgValue::Literal(Lit::Float(f)) => Ok(Some(f)),
            ArgValue::Absent => Ok(None),
            _ => Err(Error::ArgValueMustBeLiteral),
        }
    }
}

} // verus!
