//! The driver: runs the synthesizers against one declaration and combines
//! their outputs into the generated unit. Generation succeeds exactly for
//! flat named-field record declarations; every other shape is an
//! unsupported-declaration fault with no partial output.

use vstd::prelude::*;
use crate::error::BuilderError;
use crate::model::{DeclBody, Declaration, FieldDecl};
use crate::synth::{
    AssemblyPart, SetterOp, SlotDecl, spec_assembly_part, spec_setter_op, spec_slot_decl,
    synthesize_assembly, synthesize_setters, synthesize_shape,
};

verus! {

/// The generated unit: the companion type's name, the declaration's fields as
/// given (slot shapes and setter parameter types are read relative to them),
/// the storage layout, the setter operations, and the assembly plan. The
/// factory entry point on the originating type is implied: it returns a
/// companion whose slots hold their declared initial content.
#[derive(Debug)]
pub struct GeneratedUnit {
    pub record_name: String,
    pub companion_name: String,
    pub fields: Vec<FieldDecl>,
    pub slots: Vec<SlotDecl>,
    pub setters: Vec<SetterOp>,
    pub assembly: Vec<AssemblyPart>,
}

/// The suffix that turns the record's name into the companion type's name.
pub open spec fn companion_suffix() -> Seq<char> {
    "Builder"@
}

/// The report for a declaration that is not a record at all.
pub open spec fn unsupported_shape_report() -> Seq<char> {
    "Not implemented for type."@
}

/// The report for a record whose fields are not named.
pub open spec fn unsupported_fields_report() -> Seq<char> {
    "Not implemented for field type."@
}

/// What generation promises of a unit made for `name` and `fields`: the
/// fields are kept as given, and every field has exactly one slot, one
/// primary setter and one assembly participation, each in declaration order
/// and each as the synthesizers define them.
pub open spec fn unit_for(u: GeneratedUnit, name: String, fields: Seq<FieldDecl>) -> bool {
    &&& u.record_name == name
    &&& u.companion_name@ == name@ + companion_suffix()
    &&& u.fields@ == fields
    &&& u.slots@.len() == fields.len()
    &&& forall|i: int| 0 <= i < fields.len() ==> u.slots@[i] == spec_slot_decl(fields[i])
    &&& u.setters@.len() == fields.len()
    &&& forall|i: int| 0 <= i < fields.len() ==> u.setters@[i] == spec_setter_op(i, fields[i])
    &&& u.assembly@.len() == fields.len()
    &&& forall|i: int| 0 <= i < fields.len() ==> u.assembly@[i] == spec_assembly_part(fields[i])
}

/// Generate the companion unit for one declaration. Exactly the flat
/// named-field record shape succeeds; unnamed-field and unit records, tagged
/// unions and untagged unions are unsupported-declaration faults, each under
/// its fixed report, and produce no output.
pub fn generate(decl: Declaration) -> (r: Result<GeneratedUnit, BuilderError>)
    ensures
        (match decl.body {
            DeclBody::NamedFields(fields) => r matches Ok(u) && unit_for(u, decl.name, fields@),
            DeclBody::UnnamedFields | DeclBody::UnitShape => r matches Err(e) && e.details@
                == unsupported_fields_report(),
            DeclBody::TaggedUnion | DeclBody::UntaggedUnion => r matches Err(e) && e.details@
                == unsupported_shape_report(),
        }),
{
    let Declaration { name, body } = decl;
    match body {
        DeclBody::NamedFields(fields) => {
            let slots = synthesize_shape(&fields);
            let setters = synthesize_setters(&fields);
            let assembly = synthesize_assembly(&fields);
            let mut companion_name = name.clone();
            companion_name.append("Builder");
            Ok(
                GeneratedUnit {
                    record_name: name,
                    companion_name,
                    fields,
                    slots,
                    setters,
                    assembly,
                },
            )
        },
        DeclBody::UnnamedFields | DeclBody::UnitShape => Err(
            BuilderError::new("Not implemented for field type."),
        ),
        DeclBody::TaggedUnion | DeclBody::UntaggedUnion => Err(
            BuilderError::new("Not implemented for type."),
        ),
    }
}

} // verus!
