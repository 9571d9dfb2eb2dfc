//! The structural description of one record declaration, as the host parser
//! hands it over: a declaration name, a body shape, and for named-field
//! bodies an ordered list of fields, each with a type expression and an
//! ordered list of attached metadata annotations.

use vstd::prelude::*;

verus! {

/// A declared type, reduced to what the generation pass inspects: a path type
/// keeps its segment identifiers and the angle-bracketed type arguments of
/// its final segment; every other shape of type expression is carried only as
/// its source text, which is enough to reproduce it in the output.
#[derive(Debug, PartialEq, Eq)]
pub enum TypeExpr {
    Path { segments: Vec<String>, args: Vec<TypeExpr> },
    Other { text: String },
}

/// The value of a key/value metadata entry: only string literals are
/// meaningful to the generation pass, everything else is kept as a marker.
#[derive(Debug, PartialEq, Eq)]
pub enum LitValue {
    StrLit(String),
    OtherLit,
}

/// One entry inside a grouped metadata annotation.
#[derive(Debug, PartialEq, Eq)]
pub enum MetaEntry {
    KeyValue { key: String, value: LitValue },
    OtherEntry,
}

/// The body of a metadata annotation: either the recognized
/// grouped-arguments-list shape, or anything else.
#[derive(Debug, PartialEq, Eq)]
pub enum MetaBody {
    Grouped(Vec<MetaEntry>),
    Ungrouped,
}

/// One metadata annotation attached to a field: its keyword and its body.
#[derive(Debug, PartialEq, Eq)]
pub struct FieldMeta {
    pub keyword: String,
    pub body: MetaBody,
}

/// One named field of a record declaration.
#[derive(Debug, PartialEq, Eq)]
pub struct FieldDecl {
    pub name: String,
    pub ty: TypeExpr,
    pub attrs: Vec<FieldMeta>,
}

/// The body shape of a declaration. Only flat named-field records are
/// supported by the generation pass; the other shapes are kept apart so that
/// each is rejected with its own report.
#[derive(Debug, PartialEq, Eq)]
pub enum DeclBody {
    NamedFields(Vec<FieldDecl>),
    UnnamedFields,
    UnitShape,
    TaggedUnion,
    UntaggedUnion,
}

/// One record declaration: its name and its body shape.
#[derive(Debug, PartialEq, Eq)]
pub struct Declaration {
    pub name: String,
    pub body: DeclBody,
}

} // verus!
