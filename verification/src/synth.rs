//! The three synthesizers: the builder's storage layout, its setter
//! operations, and its assembly plan. Each is total over the field list and
//! order-preserving: one slot, one primary setter and one assembly
//! participation per source field, in declaration order. Slot shapes and
//! setter parameter types are described relative to the field's declared
//! type, so the description stays exact without copying type expressions.

use vstd::prelude::*;
use crate::model::FieldDecl;
use crate::classify::{Classification, spec_classify, classify};
use crate::metadata::{MetaResolution, spec_resolve_metadata, resolve_metadata};

verus! {

/// The storage shape of one slot, relative to the field's declared type.
#[derive(Debug, PartialEq, Eq, Clone, Copy)]
pub enum SlotShape {
    /// The declared type wrapped once in the optional wrapper.
    OptionalWrapped,
    /// The declared type itself, which already expresses absence or emptiness.
    AsDeclared,
}

/// The initial content the companion factory gives a slot.
#[derive(Debug, PartialEq, Eq, Clone, Copy)]
pub enum SlotInit {
    /// The absent optional value.
    StartAbsent,
    /// The zero-element collection.
    StartEmpty,
}

/// One slot of the builder's storage layout.
#[derive(Debug, PartialEq, Eq)]
pub struct SlotDecl {
    pub field_name: String,
    pub shape: SlotShape,
    pub init: SlotInit,
}

/// The type of a setter's one parameter, relative to its field's declared type.
#[derive(Debug, PartialEq, Eq, Clone, Copy)]
pub enum ParamType {
    /// The declared type itself.
    DeclaredType,
    /// The declared type's single wrapped inner type (`inner_of`).
    InnerType,
}

/// What one setter does to its field's slot.
#[derive(Debug, PartialEq, Eq, Clone, Copy)]
pub enum SetterEffect {
    /// Overwrite the slot with the given value, marked present.
    Replace,
    /// Overwrite a collection slot with the given collection wholesale.
    ReplaceWhole,
    /// Append the given element, initializing an unset slot to one element.
    Append,
    /// Leave the state alone and signal the fixed diagnostic message.
    Stub,
}

/// One synthesized mutator operation.
#[derive(Debug, PartialEq, Eq)]
pub struct SetterOp {
    pub field_index: usize,
    pub method_name: String,
    pub param: ParamType,
    pub effect: SetterEffect,
}

/// How one field participates in the terminal assembly step.
#[derive(Debug, PartialEq, Eq, Clone, Copy)]
pub enum AssemblyRole {
    /// An unset slot is a missing-field failure naming the field.
    Required,
    /// The slot's current value is taken as-is; absence is a valid value.
    TakeOptional,
    /// The slot's current value is taken; an unset slot counts as empty.
    DefaultToEmpty,
}

/// One field's assembly participation.
#[derive(Debug, PartialEq, Eq)]
pub struct AssemblyPart {
    pub field_name: String,
    pub role: AssemblyRole,
}

/// The slot a field gets: plain fields are wrapped in an optional holder,
/// optional and collection fields are stored as declared, and collection
/// slots start empty rather than absent.
pub open spec fn spec_slot_decl(f: FieldDecl) -> SlotDecl {
    match spec_classify(f.ty) {
        Classification::Plain => SlotDecl {
            field_name: f.name,
            shape: SlotShape::OptionalWrapped,
            init: SlotInit::StartAbsent,
        },
        Classification::Optional => SlotDecl {
            field_name: f.name,
            shape: SlotShape::AsDeclared,
            init: SlotInit::StartAbsent,
        },
        Classification::Collection => SlotDecl {
            field_name: f.name,
            shape: SlotShape::AsDeclared,
            init: SlotInit::StartEmpty,
        },
    }
}

/// The one primary setter a field gets. A valid append request on a
/// collection field yields the append setter under the requested name; an
/// append request on a non-collection field, like malformed metadata, yields
/// a diagnostic stub under the field's own name; otherwise the field gets a
/// replace setter under its own name: whole-value for plain fields, the
/// wrapped inner value for optional fields, and the whole collection for
/// collection fields.
pub open spec fn spec_setter_op(i: int, f: FieldDecl) -> SetterOp {
    match spec_resolve_metadata(f.attrs@) {
        MetaResolution::AppendAs(n) => {
            if spec_classify(f.ty) is Collection {
                SetterOp {
                    field_index: i as usize,
                    method_name: n,
                    param: ParamType::InnerType,
                    effect: SetterEffect::Append,
                }
            } else {
                SetterOp {
                    field_index: i as usize,
                    method_name: f.name,
                    param: ParamType::DeclaredType,
                    effect: SetterEffect::Stub,
                }
            }
        },
        MetaResolution::Malformed => SetterOp {
            field_index: i as usize,
            method_name: f.name,
            param: ParamType::DeclaredType,
            effect: SetterEffect::Stub,
        },
        MetaResolution::Unannotated => match spec_classify(f.ty) {
            Classification::Plain => SetterOp {
                field_index: i as usize,
                method_name: f.name,
                param: ParamType::DeclaredType,
                effect: SetterEffect::Replace,
            },
            Classification::Optional => SetterOp {
                field_index: i as usize,
                method_name: f.name,
                param: ParamType::InnerType,
                effect: SetterEffect::Replace,
            },
            Classification::Collection => SetterOp {
                field_index: i as usize,
                method_name: f.name,
                param: ParamType::DeclaredType,
                effect: SetterEffect::ReplaceWhole,
            },
        },
    }
}

/// The assembly participation a field gets, from its classification alone.
pub open spec fn spec_assembly_part(f: FieldDecl) -> AssemblyPart {
    match spec_classify(f.ty) {
        Classification::Plain => AssemblyPart { field_name: f.name, role: AssemblyRole::Required },
        Classification::Optional => AssemblyPart {
            field_name: f.name,
            role: AssemblyRole::TakeOptional,
        },
        Classification::Collection => AssemblyPart {
            field_name: f.name,
            role: AssemblyRole::DefaultToEmpty,
        },
    }
}

/// Produce the builder's storage layout, one slot per field in order.
pub fn synthesize_shape(fields: &Vec<FieldDecl>) -> (r: Vec<SlotDecl>)
    ensures
        r@.len() == fields@.len(),
        forall|i: int| 0 <= i < fields@.len() ==> r@[i] == spec_slot_decl(fields@[i]),
{
    let mut out: Vec<SlotDecl> = Vec::new();
    let mut i: usize = 0;
    while i < fields.len()
        invariant
            i <= fields@.len(),
            out@.len() == i,
            forall|j: int| 0 <= j < i ==> out@[j] == spec_slot_decl(fields@[j]),
        decreases fields@.len() - i,
    {
        let f = &fields[i];
        let decl = match classify(&f.ty) {
            Classification::Plain => SlotDecl {
                field_name: f.name.clone(),
                shape: SlotShape::OptionalWrapped,
                init: SlotInit::StartAbsent,
            },
            Classification::Optional => SlotDecl {
                field_name: f.name.clone(),
                shape: SlotShape::AsDeclared,
                init: SlotInit::StartAbsent,
            },
            Classification::Collection => SlotDecl {
                field_name: f.name.clone(),
                shape: SlotShape::AsDeclared,
                init: SlotInit::StartEmpty,
            },
        };
        out.push(decl);
        i = i + 1;
    }
    out
}

/// Produce the setter operations, one primary setter per field in order.
pub fn synthesize_setters(fields: &Vec<FieldDecl>) -> (r: Vec<SetterOp>)
    ensures
        r@.len() == fields@.len(),
        forall|i: int| 0 <= i < fields@.len() ==> r@[i] == spec_setter_op(i, fields@[i]),
{
    let mut out: Vec<SetterOp> = Vec::new();
    let mut i: usize = 0;
    while i < fields.len()
        invariant
            i <= fields@.len(),
            out@.len() == i,
            forall|j: int| 0 <= j < i ==> out@[j] == spec_setter_op(j, fields@[j]),
        decreases fields@.len() - i,
    {
        let f = &fields[i];
        let c = classify(&f.ty);
        let op = match resolve_metadata(&f.attrs) {
            MetaResolution::AppendAs(n) => {
                if matches!(c, Classification::Collection) {
                    SetterOp {
                        field_index: i,
                        method_name: n,
                        param: ParamType::InnerType,
                        effect: SetterEffect::Append,
                    }
                } else {
                    SetterOp {
                        field_index: i,
                        method_name: f.name.clone(),
                        param: ParamType::DeclaredType,
                        effect: SetterEffect::Stub,
                    }
                }
            },
            MetaResolution::Malformed => SetterOp {
                field_index: i,
                method_name: f.name.clone(),
                param: ParamType::DeclaredType,
                effect: SetterEffect::Stub,
            },
            MetaResolution::Unannotated => match c {
                Classification::Plain => SetterOp {
                    field_index: i,
                    method_name: f.name.clone(),
                    param: ParamType::DeclaredType,
                    effect: SetterEffect::Replace,
                },
                Classification::Optional => SetterOp {
                    field_index: i,
                    method_name: f.name.clone(),
                    param: ParamType::InnerType,
                    effect: SetterEffect::Replace,
                },
                Classification::Collection => SetterOp {
                    field_index: i,
                    method_name: f.name.clone(),
                    param: ParamType::DeclaredType,
                    effect: SetterEffect::ReplaceWhole,
                },
            },
        };
        out.push(op);
        i = i + 1;
    }
    out
}

/// Produce the assembly plan, one participation per field in order.
pub fn synthesize_assembly(fields: &Vec<FieldDecl>) -> (r: Vec<AssemblyPart>)
    ensures
        r@.len() == fields@.len(),
        forall|i: int| 0 <= i < fields@.len() ==> r@[i] == spec_assembly_part(fields@[i]),
{
    let mut out: Vec<AssemblyPart> = Vec::new();
    let mut i: usize = 0;
    while i < fields.len()
        invariant
            i <= fields@.len(),
            out@.len() == i,
            forall|j: int| 0 <= j < i ==> out@[j] == spec_assembly_part(fields@[j]),
        decreases fields@.len() - i,
    {
        let f = &fields[i];
        let part = match classify(&f.ty) {
            Classification::Plain => AssemblyPart {
                field_name: f.name.clone(),
                role: AssemblyRole::Required,
            },
            Classification::Optional => AssemblyPart {
                field_name: f.name.clone(),
                role: AssemblyRole::TakeOptional,
            },
            Classification::Collection => AssemblyPart {
                field_name: f.name.clone(),
                role: AssemblyRole::DefaultToEmpty,
            },
        };
        out.push(part);
        i = i + 1;
    }
    out
}

} // verus!
