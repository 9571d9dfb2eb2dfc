//! The field metadata parser: decides whether a field opts into append mode
//! and under which method name. Resolution is total; four input shapes are
//! told apart. No annotation under the recognized keyword means no append
//! mode; the first key/value entry with a string-literal value supplies the
//! append-method name, and later entries are ignored; a recognized annotation
//! that supplies no such entry (wrong body shape, or a value that is not a
//! string literal) degrades that one field to a diagnostic stub without
//! aborting generation for the rest of the declaration.

use vstd::prelude::*;
use crate::model::{FieldMeta, MetaBody, MetaEntry, LitValue};
use crate::classify::ident_is;

verus! {

/// How a field's metadata resolved: no append request, an append setter under
/// the given method name, or a malformed request that degrades the field's
/// setter to a diagnostic stub.
#[derive(Debug, PartialEq, Eq)]
pub enum MetaResolution {
    Unannotated,
    AppendAs(String),
    Malformed,
}

/// The annotation keyword recognized by the generation pass.
pub open spec fn builder_keyword() -> Seq<char> {
    "builder"@
}

/// Whether an annotation carries the recognized keyword.
pub open spec fn recognized(a: FieldMeta) -> bool {
    a.keyword@ == builder_keyword()
}

/// The append-method name one entry supplies: the value of a key/value pair,
/// when that value is a string literal.
pub open spec fn entry_name(e: MetaEntry) -> Option<String> {
    match e {
        MetaEntry::KeyValue { key: _, value: LitValue::StrLit(n) } => Some(n),
        _ => None,
    }
}

/// The first append-method name found among the entries of one grouped
/// annotation body, scanning in order.
pub open spec fn first_name_in_entries(entries: Seq<MetaEntry>) -> Option<String>
    decreases entries.len(),
{
    if entries.len() == 0 {
        None
    } else {
        match entry_name(entries[0]) {
            Some(n) => Some(n),
            None => first_name_in_entries(entries.drop_first()),
        }
    }
}

/// The append-method name one annotation supplies: only a recognized keyword
/// with a grouped body can supply one.
pub open spec fn attr_name(a: FieldMeta) -> Option<String> {
    if recognized(a) {
        match a.body {
            MetaBody::Grouped(entries) => first_name_in_entries(entries@),
            MetaBody::Ungrouped => None,
        }
    } else {
        None
    }
}

/// The first append-method name supplied by any annotation, in order: the
/// first valid annotation wins and later ones are ignored.
pub open spec fn first_name_in_attrs(attrs: Seq<FieldMeta>) -> Option<String>
    decreases attrs.len(),
{
    if attrs.len() == 0 {
        None
    } else {
        match attr_name(attrs[0]) {
            Some(n) => Some(n),
            None => first_name_in_attrs(attrs.drop_first()),
        }
    }
}

/// Whether any annotation carries the recognized keyword at all.
pub open spec fn any_recognized(attrs: Seq<FieldMeta>) -> bool {
    exists|j: int| 0 <= j < attrs.len() && recognized(#[trigger] attrs[j])
}

/// What `resolve_metadata` returns: the first valid append request wins;
/// a recognized annotation without a valid request is malformed; no
/// recognized annotation means the field is unannotated.
pub open spec fn spec_resolve_metadata(attrs: Seq<FieldMeta>) -> MetaResolution {
    match first_name_in_attrs(attrs) {
        Some(n) => MetaResolution::AppendAs(n),
        None => if any_recognized(attrs) {
            MetaResolution::Malformed
        } else {
            MetaResolution::Unannotated
        },
    }
}

/// Scan one grouped body for the first key/value entry whose value is a
/// string literal.
fn find_name_in_entries(entries: &Vec<MetaEntry>) -> (r: Option<String>)
    ensures
        r == first_name_in_entries(entries@),
{
    let mut k: usize = 0;
    proof {
        assert(entries@.skip(0) =~= entries@);
    }
    while k < entries.len()
        invariant
            k <= entries@.len(),
            first_name_in_entries(entries@.skip(k as int)) == first_name_in_entries(entries@),
        decreases entries@.len() - k,
    {
        proof {
            assert(entries@.skip(k as int)[0] == entries@[k as int]);
            assert(entries@.skip(k as int).drop_first() =~= entries@.skip(k as int + 1));
        }
        match &entries[k] {
            MetaEntry::KeyValue { key: _, value: LitValue::StrLit(n) } => {
                return Some(n.clone());
            },
            _ => {},
        }
        k = k + 1;
    }
    proof {
        assert(entries@.skip(entries@.len() as int) =~= Seq::<MetaEntry>::empty());
    }
    None
}

/// Resolve a field's metadata: scan the annotations in order, let the first
/// valid append request win, and fall back to a malformed or unannotated
/// resolution.
pub fn resolve_metadata(attrs: &Vec<FieldMeta>) -> (r: MetaResolution)
    ensures
        r == spec_resolve_metadata(attrs@),
{
    let mut saw_recognized: bool = false;
    let mut i: usize = 0;
    proof {
        assert(attrs@.skip(0) =~= attrs@);
    }
    while i < attrs.len()
        invariant
            i <= attrs@.len(),
            first_name_in_attrs(attrs@.skip(i as int)) == first_name_in_attrs(attrs@),
            saw_recognized == (exists|j: int| 0 <= j < i && recognized(#[trigger] attrs@[j])),
        decreases attrs@.len() - i,
    {
        proof {
            assert(attrs@.skip(i as int)[0] == attrs@[i as int]);
            assert(attrs@.skip(i as int).drop_first() =~= attrs@.skip(i as int + 1));
        }
        let a = &attrs[i];
        if ident_is(&a.keyword, "builder") {
            saw_recognized = true;
            match &a.body {
                MetaBody::Grouped(entries) => {
                    match find_name_in_entries(entries) {
                        Some(n) => {
                            return MetaResolution::AppendAs(n);
                        },
                        None => {},
                    }
                },
                MetaBody::Ungrouped => {},
            }
        }
        i = i + 1;
        proof {
            if saw_recognized {
                assert(exists|j: int| 0 <= j < i && recognized(#[trigger] attrs@[j]));
            }
        }
    }
    proof {
        assert(attrs@.skip(attrs@.len() as int) =~= Seq::<FieldMeta>::empty());
    }
    if saw_recognized {
        MetaResolution::Malformed
    } else {
        MetaResolution::Unannotated
    }
}

} // verus!
