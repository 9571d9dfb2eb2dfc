//! The promised behaviour of every synthesized builder, proved once over the
//! spec-level state: a plain field left unset fails assembly naming exactly
//! that field; a filled plain field resolves to the last value set; an
//! optional field left unset resolves to absence, never to a failure; append
//! calls collect exactly the appended elements in order, none of them being a
//! failure; and the terminal assembly step is a pure function of the builder
//! state, so repeating it without an intervening setter call repeats its
//! result.

use vstd::prelude::*;
use crate::classify::spec_classify;
use crate::error::MissingFieldError;
use crate::generate::{GeneratedUnit, unit_for};
use crate::metadata::spec_resolve_metadata;
use crate::model::FieldDecl;
use crate::runtime::{
    FieldValueView, RecordValue, SlotView, Value, assemble_post, spec_apply_effect,
    spec_assemble_fields, spec_init_slot, spec_resolve_slot,
};
use crate::synth::{AssemblyPart, AssemblyRole, SetterEffect, spec_assembly_part, spec_slot_decl};

verus! {

/// The assembly plan a field list gets, in declaration order.
pub open spec fn parts_of(fields: Seq<FieldDecl>) -> Seq<AssemblyPart> {
    Seq::new(fields.len(), |i: int| spec_assembly_part(fields[i]))
}

/// The assembly plan of a generated unit is exactly the plan of its fields.
pub proof fn lemma_unit_assembly_plan(u: GeneratedUnit, name: String, fields: Seq<FieldDecl>)
    requires
        unit_for(u, name, fields),
    ensures
        u.assembly@ == parts_of(fields),
{
    assert(u.assembly@ =~= parts_of(fields));
}

/// A fresh builder for a generated unit: every collection field's slot starts
/// as the empty collection, and every other field's slot starts unset.
pub proof fn lemma_fresh_builder_slots(
    u: GeneratedUnit,
    name: String,
    fields: Seq<FieldDecl>,
    slots: Seq<SlotView>,
)
    requires
        unit_for(u, name, fields),
        slots.len() == u.slots@.len(),
        forall|i: int| 0 <= i < u.slots@.len() ==> slots[i] == spec_init_slot(u.slots@[i].init),
    ensures
        slots.len() == fields.len(),
        forall|i: int|
            0 <= i < fields.len() && spec_classify((#[trigger] fields[i]).ty) is Collection
                ==> slots[i] == SlotView::ItemList(Seq::<Value>::empty()),
        forall|i: int|
            0 <= i < fields.len() && !(spec_classify((#[trigger] fields[i]).ty) is Collection)
                ==> slots[i] is Vacant,
{
    assert forall|i: int| 0 <= i < fields.len() implies slots[i] == spec_init_slot(
        spec_slot_decl(#[trigger] fields[i]).init,
    ) by {
        assert(u.slots@[i] == spec_slot_decl(fields[i]));
    }
}

/// With every required slot occupied, assembly succeeds and resolves each
/// field from its own slot and role.
pub proof fn lemma_assembly_succeeds(parts: Seq<AssemblyPart>, slots: Seq<SlotView>)
    requires
        parts.len() == slots.len(),
        forall|j: int|
            0 <= j < parts.len() && (#[trigger] parts[j].role) is Required ==> slots[j]
                is Occupied,
    ensures
        spec_assemble_fields(parts, slots) matches Ok(fs) && fs.len() == parts.len() && (forall|
            j: int,
        |
            0 <= j < parts.len() ==> Some(fs[j]) == #[trigger] spec_resolve_slot(
                parts[j].role,
                slots[j],
            )),
    decreases parts.len(),
{
    if parts.len() == 0 {
    } else {
        let head = spec_resolve_slot(parts[0].role, slots[0]);
        match parts[0].role {
            AssemblyRole::Required => {
                assert(slots[0] is Occupied);
                assert(head is Some);
            },
            AssemblyRole::TakeOptional => {
                assert(head is Some);
            },
            AssemblyRole::DefaultToEmpty => {
                assert(head is Some);
            },
        }
        lemma_assembly_succeeds(parts.drop_first(), slots.drop_first());
        let tail = spec_assemble_fields(parts.drop_first(), slots.drop_first())->Ok_0;
        let fs = seq![head->0] + tail;
        assert(spec_assemble_fields(parts, slots) == Ok::<Seq<FieldValueView>, String>(fs));
        assert forall|j: int| 0 <= j < parts.len() implies Some(fs[j])
            == #[trigger] spec_resolve_slot(parts[j].role, slots[j]) by {
            if j == 0 {
                assert(fs[0] == head->0);
            } else {
                assert(parts.drop_first()[j - 1] == parts[j]);
                assert(slots.drop_first()[j - 1] == slots[j]);
                assert(fs[j] == tail[j - 1]);
            }
        }
    }
}

/// An unoccupied required slot fails assembly with that field's name, when
/// every required slot before it is occupied.
pub proof fn lemma_assembly_first_missing(parts: Seq<AssemblyPart>, slots: Seq<SlotView>, i: int)
    requires
        parts.len() == slots.len(),
        0 <= i < parts.len(),
        parts[i].role is Required,
        !(slots[i] is Occupied),
        forall|j: int|
            0 <= j < i && (#[trigger] parts[j].role) is Required ==> slots[j] is Occupied,
    ensures
        spec_assemble_fields(parts, slots) == Result::<Seq<FieldValueView>, String>::Err(
            parts[i].field_name,
        ),
    decreases i,
{
    if i == 0 {
    } else {
        assert(parts[0].role is Required ==> slots[0] is Occupied);
        lemma_assembly_first_missing(parts.drop_first(), slots.drop_first(), i - 1);
    }
}

/// Omitting a plain field's setter makes assembly fail naming exactly that
/// field, when every other plain field's slot was filled.
pub proof fn lemma_missing_plain_field_fails(fields: Seq<FieldDecl>, slots: Seq<SlotView>, i: int)
    requires
        slots.len() == fields.len(),
        0 <= i < fields.len(),
        spec_classify(fields[i].ty) is Plain,
        !(slots[i] is Occupied),
        forall|j: int|
            0 <= j < fields.len() && j != i && spec_classify(
                (#[trigger] fields[j]).ty,
            ) is Plain ==> slots[j] is Occupied,
    ensures
        spec_assemble_fields(parts_of(fields), slots) == Result::<Seq<FieldValueView>, String>::Err(
            fields[i].name,
        ),
{
    let parts = parts_of(fields);
    assert forall|j: int| 0 <= j < i && (#[trigger] parts[j].role) is Required implies slots[j]
        is Occupied by {
        assert(spec_classify(fields[j].ty) is Plain);
    }
    assert(parts[i].role is Required);
    assert(parts[i].field_name == fields[i].name);
    lemma_assembly_first_missing(parts, slots, i);
}

/// With every plain field's slot filled, assembly succeeds and a plain
/// field's value in the record is exactly the value its slot holds, which is
/// the last value its setter stored.
pub proof fn lemma_plain_field_takes_set_value(
    fields: Seq<FieldDecl>,
    slots: Seq<SlotView>,
    i: int,
    v: Value,
)
    requires
        slots.len() == fields.len(),
        0 <= i < fields.len(),
        spec_classify(fields[i].ty) is Plain,
        slots[i] == SlotView::Occupied(v),
        forall|j: int|
            0 <= j < fields.len() && spec_classify((#[trigger] fields[j]).ty) is Plain ==> slots[j]
                is Occupied,
    ensures
        spec_assemble_fields(parts_of(fields), slots) matches Ok(fs) && fs.len() == fields.len()
            && fs[i] == FieldValueView::Single(v),
{
    let parts = parts_of(fields);
    assert forall|j: int| 0 <= j < parts.len() && (#[trigger] parts[j].role)
        is Required implies slots[j] is Occupied by {
        assert(spec_classify(fields[j].ty) is Plain);
    }
    lemma_assembly_succeeds(parts, slots);
    assert(spec_resolve_slot(parts[i].role, slots[i]) == Some(FieldValueView::Single(v)));
}

/// Omitting an optional field's setter never fails assembly: with every plain
/// field's slot filled, assembly succeeds and the optional field resolves to
/// absence.
pub proof fn lemma_optional_field_defaults_to_absent(
    fields: Seq<FieldDecl>,
    slots: Seq<SlotView>,
    i: int,
)
    requires
        slots.len() == fields.len(),
        0 <= i < fields.len(),
        spec_classify(fields[i].ty) is Optional,
        slots[i] is Vacant,
        forall|j: int|
            0 <= j < fields.len() && spec_classify((#[trigger] fields[j]).ty) is Plain ==> slots[j]
                is Occupied,
    ensures
        spec_assemble_fields(parts_of(fields), slots) matches Ok(fs) && fs.len() == fields.len()
            && fs[i] == FieldValueView::Unfilled,
{
    let parts = parts_of(fields);
    assert forall|j: int| 0 <= j < parts.len() && (#[trigger] parts[j].role)
        is Required implies slots[j] is Occupied by {
        assert(spec_classify(fields[j].ty) is Plain);
    }
    lemma_assembly_succeeds(parts, slots);
    assert(spec_resolve_slot(parts[i].role, slots[i]) == Some(FieldValueView::Unfilled));
}

/// The slot states reached from `slots` by appending the values of `vs` to
/// slot `i`, one setter call at a time, in order.
pub open spec fn slots_after_appends(slots: Seq<SlotView>, i: int, vs: Seq<Value>) -> Seq<SlotView>
    decreases vs.len(),
{
    if vs.len() == 0 {
        slots
    } else {
        slots_after_appends(
            slots.update(i, spec_apply_effect(slots[i], SetterEffect::Append, vs[0])),
            i,
            vs.drop_first(),
        )
    }
}

/// Appending to a collection slot only extends that slot, by exactly the
/// appended values in order.
pub proof fn lemma_appends_accumulate(
    slots: Seq<SlotView>,
    i: int,
    vs: Seq<Value>,
    l: Seq<Value>,
)
    requires
        0 <= i < slots.len(),
        slots[i] == SlotView::ItemList(l),
    ensures
        slots_after_appends(slots, i, vs) == slots.update(i, SlotView::ItemList(l + vs)),
    decreases vs.len(),
{
    if vs.len() == 0 {
        assert(l + vs =~= l);
        assert(slots.update(i, SlotView::ItemList(l + vs)) =~= slots);
    } else {
        let grown = l.push(vs[0]);
        let s1 = slots.update(i, SlotView::ItemList(grown));
        lemma_appends_accumulate(s1, i, vs.drop_first(), grown);
        assert(grown + vs.drop_first() =~= l + vs);
        assert(s1.update(i, SlotView::ItemList(grown + vs.drop_first())) =~= slots.update(
            i,
            SlotView::ItemList(l + vs),
        ));
    }
}

/// Calling a collection field's append setter once per value of `vs` and then
/// assembling yields a record whose field holds exactly `vs`, in order; an
/// empty `vs` yields the empty collection, not a failure.
pub proof fn lemma_append_calls_collect(
    fields: Seq<FieldDecl>,
    slots0: Seq<SlotView>,
    i: int,
    vs: Seq<Value>,
)
    requires
        slots0.len() == fields.len(),
        0 <= i < fields.len(),
        spec_resolve_metadata(fields[i].attrs@) is AppendAs,
        spec_classify(fields[i].ty) is Collection,
        slots0[i] == SlotView::ItemList(Seq::<Value>::empty()),
        forall|j: int|
            0 <= j < fields.len() && spec_classify((#[trigger] fields[j]).ty) is Plain ==> slots0[j]
                is Occupied,
    ensures
        spec_assemble_fields(parts_of(fields), slots_after_appends(slots0, i, vs)) matches Ok(fs)
            && fs.len() == fields.len() && fs[i] == FieldValueView::Many(vs),
{
    lemma_appends_accumulate(slots0, i, vs, Seq::<Value>::empty());
    assert(Seq::<Value>::empty() + vs =~= vs);
    let slots1 = slots0.update(i, SlotView::ItemList(vs));
    let parts = parts_of(fields);
    assert forall|j: int| 0 <= j < parts.len() && (#[trigger] parts[j].role)
        is Required implies slots1[j] is Occupied by {
        assert(spec_classify(fields[j].ty) is Plain);
        assert(j != i);
        assert(slots1[j] == slots0[j]);
    }
    assert(slots_after_appends(slots0, i, vs) == slots1);
    lemma_assembly_succeeds(parts, slots1);
    assert(spec_resolve_slot(parts[i].role, slots1[i]) == Some(FieldValueView::Many(vs)));
}

/// The terminal assembly step is a pure function of the builder state: any
/// two results it can return for the same unit and unchanged state carry
/// identical content, whether both succeed or both fail.
pub proof fn lemma_assembly_idempotent(
    unit: GeneratedUnit,
    slots: Seq<SlotView>,
    r1: Result<RecordValue, MissingFieldError>,
    r2: Result<RecordValue, MissingFieldError>,
)
    requires
        assemble_post(unit, slots, r1),
        assemble_post(unit, slots, r2),
    ensures
        r1 is Ok <==> r2 is Ok,
        r1 is Ok && r2 is Ok ==> r1->Ok_0.name == r2->Ok_0.name && r1->Ok_0@ == r2->Ok_0@,
        r1 is Err && r2 is Err ==> r1->Err_0.field_name == r2->Err_0.field_name,
{
}

} // verus!
