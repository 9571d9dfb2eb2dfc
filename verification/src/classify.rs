//! The type classifier: decides whether a declared field type is a bare value
//! type, an optional-value wrapper, or a homogeneous-collection wrapper.
//! Classification is total and infallible; any shape that is not a recognized
//! single-segment wrapper with exactly one type argument counts as plain, and
//! only one layer of wrapping is ever considered.

use vstd::prelude::*;
use crate::model::TypeExpr;

verus! {

/// The classification of a declared field type. The wrapped inner type, where
/// one exists, is the type's single generic argument (`inner_of`).
#[derive(Debug, PartialEq, Eq, Clone, Copy)]
pub enum Classification {
    Plain,
    Optional,
    Collection,
}

/// The path name recognized as the optional-value wrapper.
pub open spec fn optional_wrapper_name() -> Seq<char> {
    "Option"@
}

/// The path name recognized as the homogeneous-collection wrapper.
pub open spec fn collection_wrapper_name() -> Seq<char> {
    "Vec"@
}

/// A single-segment path type named `name` carrying exactly one generic type
/// argument: the only shape recognized as a wrapper.
pub open spec fn is_unary_wrapper(ty: TypeExpr, name: Seq<char>) -> bool {
    &&& ty is Path
    &&& ty->Path_segments@.len() == 1
    &&& ty->Path_segments@[0]@ == name
    &&& ty->Path_args@.len() == 1
}

/// What `classify` returns: the outermost recognized wrapper decides, and
/// everything else is plain.
pub open spec fn spec_classify(ty: TypeExpr) -> Classification {
    if is_unary_wrapper(ty, optional_wrapper_name()) {
        Classification::Optional
    } else if is_unary_wrapper(ty, collection_wrapper_name()) {
        Classification::Collection
    } else {
        Classification::Plain
    }
}

/// The wrapped inner type of a recognized wrapper: its single type argument.
pub open spec fn inner_of(ty: TypeExpr) -> TypeExpr
    recommends
        ty is Path,
        ty->Path_args@.len() == 1,
{
    ty->Path_args@[0]
}

/// Borrow the wrapped inner type of a recognized wrapper; a plain type has
/// none.
pub fn wrapped_inner(ty: &TypeExpr) -> (r: Option<&TypeExpr>)
    ensures
        (match r {
            Some(inner) => !(spec_classify(*ty) is Plain) && *inner == inner_of(*ty),
            None => spec_classify(*ty) is Plain,
        }),
{
    match classify(ty) {
        Classification::Plain => None,
        _ => match ty {
            TypeExpr::Path { segments: _, args } => Some(&args[0]),
            TypeExpr::Other { .. } => unreached(),
        },
    }
}

/// Whether the identifier `s` spells exactly `lit`.
pub(crate) fn ident_is(s: &String, lit: &str) -> (b: bool)
    ensures
        b == (s@ == lit@),
{
    let other: String = lit.to_owned();
    *s == other
}

/// Inspect a type expression's head: a single-segment path named like a
/// recognized wrapper and carrying exactly one generic type argument is that
/// wrapper; every other shape is a plain value type.
pub fn classify(ty: &TypeExpr) -> (c: Classification)
    ensures
        c == spec_classify(*ty),
{
    match ty {
        TypeExpr::Path { segments, args } => {
            if segments.len() == 1 && args.len() == 1 {
                if ident_is(&segments[0], "Option") {
                    Classification::Optional
                } else if ident_is(&segments[0], "Vec") {
                    Classification::Collection
                } else {
                    Classification::Plain
                }
            } else {
                Classification::Plain
            }
        },
        TypeExpr::Other { .. } => Classification::Plain,
    }
}

} // verus!
