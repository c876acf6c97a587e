//! Plain-value model of the attribute syntax tree.
//!
//! Attribute arguments are made of paths, literals and nested lists of the
//! two; the types here hold exactly the parts of that grammar the rest of the
//! crate inspects, as plain values.  Literals are kept in cooked form: a
//! string literal by the string it denotes, a byte-string literal by its
//! bytes, an integer literal by sign and magnitude, and a float literal by
//! its token text.  Source spans are not represented.

use vstd::prelude::*;
use vstd::slice::slice_to_vec;

verus! {

/// A path as written at the head of an attribute, such as `serde` or
/// `foo::bar`, modelled as the list of its segment identifiers.
#[derive(Debug, PartialEq, Eq)]
pub struct Path {
    /// The identifiers of the path's segments, in order.
    pub segments: Vec<String>,
}

impl Path {
    /// Whether this path is exactly the single identifier `ident`.
    pub open spec fn is_ident_spec(&self, ident: Seq<char>) -> bool {
        self.segments@.len() == 1 && self.segments@[0]@ == ident
    }

    /// The single identifier this path consists of, if it is one.
    pub open spec fn ident_spec(&self) -> Option<String> {
        if self.segments@.len() == 1 {
            Some(self.segments@[0])
        } else {
            None
        }
    }

    /// Tests whether this path is exactly the single identifier `ident`.
    pub fn is_ident(&self, ident: &str) -> (r: bool)
        ensures
            r == self.is_ident_spec(ident@),
    {
        if self.segments.len() == 1 {
            let wanted: String = ident.to_owned();
            self.segments[0] == wanted
        } else {
            false
        }
    }

    /// Extracts the single identifier this path consists of, if it is one.
    pub fn into_ident(self) -> (r: Option<String>)
        ensures
            r == self.ident_spec(),
    {
        let mut segments = self.segments;
        if segments.len() == 1 {
            segments.pop()
        } else {
            None
        }
    }
}

/// A string literal, held as the string it denotes.
#[derive(Debug, PartialEq, Eq)]
pub struct StrLit {
    /// The cooked value, with escape sequences resolved.
    pub value: String,
}

/// A byte-string literal, held as the bytes it denotes.
#[derive(Debug, PartialEq, Eq)]
pub struct ByteStrLit {
    /// The cooked bytes, with escape sequences resolved.
    pub value: Vec<u8>,
}

/// A boolean literal, `true` or `false`.
#[derive(Debug, PartialEq, Eq, Clone, Copy, Structural)]
pub struct BoolLit {
    /// The value of the literal.
    pub value: bool,
}

/// A character literal, held as the character it denotes.
#[derive(Debug, PartialEq, Eq, Clone, Copy, Structural)]
pub struct CharLit {
    /// The cooked value, with an escape sequence resolved.
    pub value: char,
}

/// An integer literal, held as a sign and a magnitude.
#[derive(Debug, PartialEq, Eq, Clone, Copy, Structural)]
pub struct IntLit {
    /// Whether the literal's token carries a leading minus sign.
    pub negative: bool,
    /// The magnitude of the literal.
    pub magnitude: u128,
}

impl IntLit {
    /// The signed value this literal denotes.
    pub open spec fn value_spec(&self) -> int {
        if self.negative {
            -(self.magnitude as int)
        } else {
            self.magnitude as int
        }
    }
}

/// A floating-point literal, held as its token text, such as `2.5` or
/// `1e3`.  Keeping the token keeps the literal exact.
#[derive(Debug, PartialEq, Eq)]
pub struct FloatLit {
    /// The digits of the token, without a sign.
    pub repr: String,
}

/// A literal of any kind, in cooked form.
#[derive(Debug, PartialEq, Eq)]
pub enum Lit {
    /// A string literal such as `"abc"`.
    Str(StrLit),
    /// A byte-string literal such as `b"abc"`.
    ByteStr(ByteStrLit),
    /// A boolean literal, `true` or `false`.
    Bool(BoolLit),
    /// A character literal such as `'a'`.
    Char(CharLit),
    /// An integer literal such as `42`.
    Int(IntLit),
    /// A floating-point literal such as `2.5`.
    Float(FloatLit),
}

/// A type expression, held as its source text, such as `Vec<u8>`.  The crate
/// only carries type expressions through; it never looks inside one.
#[derive(Debug, PartialEq, Eq)]
pub struct TypeExpr {
    /// The source text of the type.
    pub code: String,
}

/// The value of a literal of any kind, for use in contracts.
pub enum LitValue {
    /// The characters a string literal denotes.
    Str(Seq<char>),
    /// The bytes a byte-string literal denotes.
    ByteStr(Seq<u8>),
    /// The value of a boolean literal.
    Bool(bool),
    /// The character a character literal denotes.
    Char(char),
    /// The sign and magnitude of an integer literal.
    Int(IntLit),
    /// The token text of a floating-point literal.
    Float(Seq<char>),
}

impl View for StrLit {
    type V = Seq<char>;

    open spec fn view(&self) -> Seq<char> {
        self.value@
    }
}

impl View for ByteStrLit {
    type V = Seq<u8>;

    open spec fn view(&self) -> Seq<u8> {
        self.value@
    }
}

impl View for FloatLit {
    type V = Seq<char>;

    open spec fn view(&self) -> Seq<char> {
        self.repr@
    }
}

impl View for TypeExpr {
    type V = Seq<char>;

    open spec fn view(&self) -> Seq<char> {
        self.code@
    }
}

impl View for Lit {
    type V = LitValue;

    open spec fn view(&self) -> LitValue {
        match *self {
            Lit::Str(s) => LitValue::Str(s@),
            Lit::ByteStr(b) => LitValue::ByteStr(b@),
            Lit::Bool(b) => LitValue::Bool(b.value),
            Lit::Char(c) => LitValue::Char(c.value),
            Lit::Int(i) => LitValue::Int(i),
            Lit::Float(f) => LitValue::Float(f@),
        }
    }
}

impl Clone for StrLit {
    /// A cloned string literal denotes the same string.
    fn clone(&self) -> (r: Self)
        ensures
            r == *self,
    {
        StrLit { value: self.value.clone() }
    }
}

impl Clone for ByteStrLit {
    /// A cloned byte-string literal denotes the same bytes.
    fn clone(&self) -> (r: Self)
        ensures
            r@ == self@,
    {
        ByteStrLit { value: slice_to_vec(self.value.as_slice()) }
    }
}

impl Clone for FloatLit {
    /// A cloned float literal keeps its token text.
    fn clone(&self) -> (r: Self)
        ensures
            r == *self,
    {
        FloatLit { repr: self.repr.clone() }
    }
}

impl Clone for TypeExpr {
    /// A cloned type expression keeps its source text.
    fn clone(&self) -> (r: Self)
        ensures
            r == *self,
    {
        TypeExpr { code: self.code.clone() }
    }
}

impl Clone for Lit {
    /// A cloned literal denotes the same value.
    fn clone(&self) -> (r: Self)
        ensures
            r@ == self@,
    {
        match self {
            Lit::Str(s) => Lit::Str(s.clone()),
            Lit::ByteStr(b) => Lit::ByteStr(b.clone()),
            Lit::Bool(b) => Lit::Bool(*b),
            Lit::Char(c) => Lit::Char(*c),
            Lit::Int(i) => Lit::Int(*i),
            Lit::Float(f) => Lit::Float(f.clone()),
        }
    }
}

/// The shape an attribute's arguments take: a bare path `#[attr]`, a
/// parenthesized list `#[attr(...)]`, or a single value `#[attr = value]`.
#[derive(Debug, PartialEq, Eq)]
pub enum Meta {
    /// A bare path with no arguments, as in `#[attr]`.
    Path(Path),
    /// A path followed by a parenthesized argument list, as in
    /// `#[attr(a, b = "c")]`.
    List(MetaList),
    /// A path bound to a single value, as in `#[attr = "value"]`.
    NameValue(MetaNameValue),
}

/// A path followed by a parenthesized list of nested arguments.
#[derive(Debug, PartialEq, Eq)]
pub struct MetaList {
    /// The path at the head of the list.
    pub path: Path,
    /// The arguments between the parentheses, in order.
    pub nested: Vec<NestedMeta>,
}

/// A `name = value` pair inside an attribute.
#[derive(Debug, PartialEq, Eq)]
pub struct MetaNameValue {
    /// The name to the left of the `=`.
    pub path: Path,
    /// The literal to the right of the `=`.
    pub lit: Lit,
}

/// One argument inside a parenthesized attribute list: either a further
/// attribute shape or a bare literal.
#[derive(Debug, PartialEq, Eq)]
pub enum NestedMeta {
    /// A structured argument, such as the `skip` in `#[serde(skip)]`.
    Meta(Meta),
    /// A bare literal argument, such as the `"abc"` in `#[attr("abc")]`.
    Lit(Lit),
}

/// An attribute attached to a declaration: its path, and the outcome of
/// parsing its argument tokens into a [`Meta`].  `meta` is `None` when the
/// tokens do not parse as one of the three attribute shapes.
#[derive(Debug, PartialEq, Eq)]
pub struct Attribute {
    /// The path at the head of the attribute.
    pub path: Path,
    /// The parsed arguments, or `None` when they do not parse.
    pub meta: Option<Meta>,
}

/// The part of a parsed declaration that attribute matching inspects: its
/// attributes, in order.
#[derive(Debug, PartialEq, Eq)]
pub struct DeriveInput {
    /// The declaration's attributes, outermost first.
    pub attrs: Vec<Attribute>,
}

} // verus!
