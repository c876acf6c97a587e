//! Helpers for authoring attribute and derive macros.
//!
//! The crate works on a plain-value model of the attribute grammar: a
//! [`Path`] is a sequence of identifier segments, a [`Lit`] is one of the
//! literal kinds with its cooked value, a [`Meta`] is the shape an attribute
//! takes (`#[attr]`, `#[attr(...)]` or `#[attr = value]`), and an
//! [`Attribute`] pairs a path with the outcome of parsing its argument
//! tokens.  Matching a declaration's attributes against an expected shape is
//! done by the `attr_*` functions; the `value` part of a matched attribute is
//! wrapped in the [`ArgValue`] union with conversions to and from the literal
//! kinds.

mod ast;
mod attr;
mod error;
mod value;

pub use ast::Attribute;
pub use ast::BoolLit;
pub use ast::ByteStrLit;
pub use ast::CharLit;
pub use ast::DeriveInput;
pub use ast::FloatLit;
pub use ast::IntLit;
pub use ast::Lit;
pub use ast::LitValue;
pub use ast::Meta;
pub use ast::MetaList;
pub use ast::MetaNameValue;
pub use ast::NestedMeta;
pub use ast::Path;
pub use ast::StrLit;
pub use ast::TypeExpr;

pub use attr::attr_list;
pub use attr::attr_named_value;
pub use attr::attr_nested_one_arg;
pub use attr::attr_nested_one_named_value;
pub use attr::classify_list;
pub use attr::classify_named_value;
pub use attr::classify_one_arg;
pub use attr::classify_one_named_value;
pub use attr::first_named;
pub use attr::first_named_from;

pub use error::attr_error_message_spec;
pub use error::violation_text_spec;
pub use error::AttrError;
pub use error::Error;
pub use error::Violation;

pub use value::lit_class_spec;
pub use value::value_class_spec;
pub use value::ArgValue;
pub use value::ArgValueData;
pub use value::LitClass;
pub use value::ValueClass;
