//! Errors reported while matching attributes and reading argument values.

use vstd::prelude::*;
use vstd::string::StringExecFns;

verus! {

/// The ways an attribute can deviate from the shape a macro expects.
#[derive(Debug, PartialEq, Eq, Clone, Copy, Structural)]
pub enum Violation {
    /// The attribute is a bare path, as in `#[attr]`, where arguments were
    /// expected.
    UnexpectedPathArgument,
    /// The attribute uses the list form `name(value)` where the value form
    /// `name=value` was expected.
    NameValueFormRequired,
    /// The attribute uses the value form `name=value` where the list form
    /// was expected.
    UnexpectedNameValueArgument,
    /// The attribute's argument tokens do not parse as any attribute shape.
    WrongFormat,
    /// An argument list that must hold one argument holds none.
    AbsentArgument,
    /// The single argument is a structured shape other than the expected
    /// one.
    UnexpectedAttributeType,
    /// The single argument is a bare literal where an identifier or a
    /// `name = value` pair was expected.
    UnexpectedLiteral,
    /// An argument list that must hold one argument holds several.
    MultipleIdentifiers,
}

/// The message text naming a [`Violation`].
pub open spec fn violation_text_spec(v: Violation) -> Seq<char> {
    match v {
        Violation::UnexpectedPathArgument => "unexpected path argument"@,
        Violation::NameValueFormRequired => "must have form `name=value`, not `name(value)`"@,
        Violation::UnexpectedNameValueArgument => "unexpected name=value argument"@,
        Violation::WrongFormat => "wrong format"@,
        Violation::AbsentArgument => "unexpected absence of argument"@,
        Violation::UnexpectedAttributeType => "unexpected attribute type"@,
        Violation::UnexpectedLiteral => "unexpected literal for type identifier is met"@,
        Violation::MultipleIdentifiers => "unexpected multiple type identifiers"@,
    }
}

impl Violation {
    /// The message text naming this violation.
    pub fn text(&self) -> (r: &'static str)
        ensures
            r@ == violation_text_spec(*self),
    {
        match self {
            Violation::UnexpectedPathArgument => "unexpected path argument",
            Violation::NameValueFormRequired => "must have form `name=value`, not `name(value)`",
            Violation::UnexpectedNameValueArgument => "unexpected name=value argument",
            Violation::WrongFormat => "wrong format",
            Violation::AbsentArgument => "unexpected absence of argument",
            Violation::UnexpectedAttributeType => "unexpected attribute type",
            Violation::UnexpectedLiteral => "unexpected literal for type identifier is met",
            Violation::MultipleIdentifiers => "unexpected multiple type identifiers",
        }
    }
}

/// A descriptive error for an attribute that does not match the shape a
/// macro expects: which rule was broken, and the canonical example the
/// caller gave for the expected shape.
#[derive(Debug, PartialEq, Eq)]
pub struct AttrError {
    /// The canonical form of the attribute, quoted in the message.
    pub example: String,
    /// The rule the attribute broke.
    pub violation: Violation,
}

/// The full message text of an [`AttrError`].
pub open spec fn attr_error_message_spec(e: AttrError) -> Seq<char> {
    "Attribute macro canonical form `"@ + e.example@ + "` violation: "@
        + violation_text_spec(e.violation)
}

impl AttrError {
    /// Renders the error as its descriptive message.
    pub fn message(&self) -> (r: String)
        ensures
            r@ == attr_error_message_spec(*self),
    {
        let mut s: String = "Attribute macro canonical form `".to_owned();
        s.append(self.example.as_str());
        s.append("` violation: ");
        s.append(self.violation.text());
        s
    }
}

/// Errors reported when an [`ArgValue`](crate::ArgValue) holds a different
/// kind of value than the caller asked for.
#[derive(Debug, PartialEq, Eq, Clone, Copy, Structural)]
pub enum Error {
    /// The value was required to be a literal, and is not.
    ArgValueMustBeLiteral,
    /// The value was required to be a type, and is not.
    ArgValueMustBeType,
}

} // verus!
