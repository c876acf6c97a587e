//! Matching a declaration's attributes against the shapes a macro expects.
//!
//! Each function scans for an attribute by name, or inspects an attribute's
//! argument list, and either hands back the matched piece or reports a
//! descriptive [`AttrError`].

use vstd::prelude::*;

use crate::ast::Attribute;
use crate::ast::DeriveInput;
use crate::ast::Lit;
use crate::ast::Meta;
use crate::ast::MetaNameValue;
use crate::ast::NestedMeta;
use crate::error::AttrError;
use crate::error::Violation;

verus! {

/// The first attribute in `attrs`, at index `i` or later, whose path is the
/// single identifier `ident`.
pub open spec fn first_named_from(attrs: Seq<Attribute>, ident: Seq<char>, i: int) -> Option<
    Attribute,
>
    decreases attrs.len() - i,
{
    if i < 0 || i >= attrs.len() {
        None
    } else if attrs[i].path.is_ident_spec(ident) {
        Some(attrs[i])
    } else {
        first_named_from(attrs, ident, i + 1)
    }
}

/// The first attribute in `attrs` whose path is the single identifier
/// `ident`.
pub open spec fn first_named(attrs: Seq<Attribute>, ident: Seq<char>) -> Option<Attribute> {
    first_named_from(attrs, ident, 0)
}

/// What [`attr_named_value`] owes for a matched attribute whose parse
/// outcome is `m`: the literal of its `name = value` form, or the rule any
/// other shape breaks.
pub open spec fn classify_named_value(m: Option<Meta>) -> Result<Lit, Violation> {
    match m {
        Option::None => Err(Violation::WrongFormat),
        Some(Meta::Path(_)) => Err(Violation::UnexpectedPathArgument),
        Some(Meta::List(_)) => Err(Violation::NameValueFormRequired),
        Some(Meta::NameValue(nv)) => Ok(nv.lit),
    }
}

/// What [`attr_list`] owes for a matched attribute whose parse outcome is
/// `m`: the arguments of its list form, or the rule any other shape breaks.
pub open spec fn classify_list(m: Option<Meta>) -> Result<Vec<NestedMeta>, Violation> {
    match m {
        Option::None => Err(Violation::WrongFormat),
        Some(Meta::Path(_)) => Err(Violation::UnexpectedPathArgument),
        Some(Meta::List(l)) => Ok(l.nested),
        Some(Meta::NameValue(_)) => Err(Violation::UnexpectedNameValueArgument),
    }
}

/// What [`attr_nested_one_arg`] owes for an argument list: the identifier of
/// its single path argument, or the rule the list breaks.
pub open spec fn classify_one_arg(args: Seq<NestedMeta>) -> Result<Option<String>, Violation> {
    if args.len() == 0 {
        Err(Violation::AbsentArgument)
    } else if args.len() == 1 {
        match args[0] {
            NestedMeta::Meta(Meta::Path(p)) => Ok(p.ident_spec()),
            NestedMeta::Meta(_) => Err(Violation::UnexpectedAttributeType),
            NestedMeta::Lit(_) => Err(Violation::UnexpectedLiteral),
        }
    } else {
        Err(Violation::MultipleIdentifiers)
    }
}

/// What [`attr_nested_one_named_value`] owes for an argument list: its
/// single `name = value` argument, or the rule the list breaks.
pub open spec fn classify_one_named_value(args: Seq<NestedMeta>) -> Result<
    MetaNameValue,
    Violation,
> {
    if args.len() == 0 {
        Err(Violation::AbsentArgument)
    } else if args.len() == 1 {
        match args[0] {
            NestedMeta::Meta(Meta::NameValue(nv)) => Ok(nv),
            NestedMeta::Meta(_) => Err(Violation::UnexpectedAttributeType),
            NestedMeta::Lit(_) => Err(Violation::UnexpectedLiteral),
        }
    } else {
        Err(Violation::MultipleIdentifiers)
    }
}

/// Builds the error for a broken rule, quoting the caller's canonical
/// example.
fn violation_error(example: &str, violation: Violation) -> (r: AttrError)
    ensures
        r.violation == violation,
        r.example@ == example@,
{
    AttrError { example: example.to_owned(), violation: violation }
}

/// Finds the attribute named `ident` on a declaration and extracts the
/// literal of its `#[ident = value]` form.
///
/// Returns `Ok(None)` when no attribute is named `ident`, `Ok(Some(lit))`
/// when the first such attribute has the form `#[ident = lit]`, and a
/// descriptive error quoting `example` when it has any other shape.
pub fn attr_named_value(input: DeriveInput, ident: &str, example: &str) -> (r: Result<
    Option<Lit>,
    AttrError,
>)
    ensures
        (match first_named(input.attrs@, ident@) {
            Option::None => r == Ok::<Option<Lit>, AttrError>(None),
            Some(a) => match classify_named_value(a.meta) {
                Ok(lit) => r == Ok::<Option<Lit>, AttrError>(Some(lit)),
                Err(v) => r matches Err(e) && e.violation == v && e.example@ == example@,
            },
        }),
{
    let mut attrs = input.attrs;
    let ghost orig: Seq<Attribute> = attrs@;
    let mut i: usize = 0;
    loop
        invariant
            i <= attrs.len(),
            attrs@ == orig,
            orig == input.attrs@,
            first_named(orig, ident@) == first_named_from(orig, ident@, i as int),
        decreases attrs.len() - i,
    {
        if i == attrs.len() {
            return Ok(None);
        }
        if attrs[i].path.is_ident(ident) {
            let a = attrs.remove(i);
            proof {
                assert(first_named(orig, ident@) == Some(a));
            }
            match a.meta {
                Option::None => {
                    return Err(violation_error(example, Violation::WrongFormat));
                },
                Some(Meta::Path(_)) => {
                    return Err(violation_error(example, Violation::UnexpectedPathArgument));
                },
                Some(Meta::List(_)) => {
                    return Err(violation_error(example, Violation::NameValueFormRequired));
                },
                Some(Meta::NameValue(nv)) => {
                    return Ok(Some(nv.lit));
                },
            }
        }
        i = i + 1;
    }
}

/// Finds the attribute named `ident` among `attrs` and extracts the
/// arguments of its `#[ident(...)]` list form.
///
/// Returns `Ok(None)` when no attribute is named `ident`, `Ok(Some(args))`
/// when the first such attribute has the form `#[ident(args)]`, and a
/// descriptive error quoting `example` when it has any other shape.
pub fn attr_list(attrs: Vec<Attribute>, ident: &str, example: &str) -> (r: Result<
    Option<Vec<NestedMeta>>,
    AttrError,
>)
    ensures
        (match first_named(attrs@, ident@) {
            Option::None => r == Ok::<Option<Vec<NestedMeta>>, AttrError>(None),
            Some(a) => match classify_list(a.meta) {
                Ok(args) => r == Ok::<Option<Vec<NestedMeta>>, AttrError>(Some(args)),
                Err(v) => r matches Err(e) && e.violation == v && e.example@ == example@,
            },
        }),
{
    let mut scan = attrs;
    let ghost orig: Seq<Attribute> = scan@;
    let mut i: usize = 0;
    loop
        invariant
            i <= scan.len(),
            scan@ == orig,
            orig == attrs@,
            first_named(orig, ident@) == first_named_from(orig, ident@, i as int),
        decreases scan.len() - i,
    {
        if i == scan.len() {
            return Ok(None);
        }
        if scan[i].path.is_ident(ident) {
            let a = scan.remove(i);
            proof {
                assert(first_named(orig, ident@) == Some(a));
            }
            match a.meta {
                Option::None => {
                    return Err(violation_error(example, Violation::WrongFormat));
                },
                Some(Meta::Path(_)) => {
                    return Err(violation_error(example, Violation::UnexpectedPathArgument));
                },
                Some(Meta::List(l)) => {
                    return Ok(Some(l.nested));
                },
                Some(Meta::NameValue(_)) => {
                    return Err(violation_error(example, Violation::UnexpectedNameValueArgument));
                },
            }
        }
        i = i + 1;
    }
}

/// Reads the argument list of an attribute that must carry exactly one
/// argument, a type identifier, as in `#[attr(TypeName)]`.
///
/// Returns `Ok(Some(ident))` when the single argument is a one-segment
/// path, `Ok(None)` when it is a longer path, and a descriptive error
/// quoting `example` for an empty list, a longer list, a literal argument,
/// or another argument shape.
#[allow(unused_variables)]
pub fn attr_nested_one_arg(list: Vec<NestedMeta>, attr_name: &str, example: &str) -> (r: Result<
    Option<String>,
    AttrError,
>)
    ensures
        (match classify_one_arg(list@) {
            Ok(v) => r == Ok::<Option<String>, AttrError>(v),
            Err(vio) => r matches Err(e) && e.violation == vio && e.example@ == example@,
        }),
{
    let mut list = list;
    if list.len() == 0 {
        Err(violation_error(example, Violation::AbsentArgument))
    } else if list.len() == 1 {
        let first = list.remove(0);
        match first {
            NestedMeta::Meta(Meta::Path(p)) => Ok(p.into_ident()),
            NestedMeta::Meta(_) => Err(violation_error(example, Violation::UnexpectedAttributeType)),
            NestedMeta::Lit(_) => Err(violation_error(example, Violation::UnexpectedLiteral)),
        }
    } else {
        Err(violation_error(example, Violation::MultipleIdentifiers))
    }
}

/// Reads the argument list of an attribute that must carry exactly one
/// argument, a `name = value` pair, as in `#[attr(name = "value")]`.
///
/// Returns the pair when the single argument has that form, and a
/// descriptive error quoting `example` for an empty list, a longer list, a
/// literal argument, or another argument shape.
#[allow(unused_variables)]
pub fn attr_nested_one_named_value(list: Vec<NestedMeta>, attr_name: &str, example: &str) -> (r:
    Result<MetaNameValue, AttrError>)
    ensures
        (match classify_one_named_value(list@) {
            Ok(nv) => r == Ok::<MetaNameValue, AttrError>(nv),
            Err(vio) => r matches Err(e) && e.violation == vio && e.example@ == example@,
        }),
{
    let mut list = list;
    if list.len() == 0 {
        Err(violation_error(example, Violation::AbsentArgument))
    } else if list.len() == 1 {
        let first = list.remove(0);
        match first {
            NestedMeta::Meta(Meta::NameValue(nv)) => Ok(nv),
            NestedMeta::Meta(_) => Err(violation_error(example, Violation::UnexpectedAttributeType)),
            NestedMeta::Lit(_) => Err(violation_error(example, Violation::UnexpectedLiteral)),
        }
    } else {
        Err(violation_error(example, Violation::MultipleIdentifiers))
    }
}

} // verus!
