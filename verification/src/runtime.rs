//! The run-time behaviour of a synthesized builder, defined over an explicit
//! builder state: the factory that yields the empty companion instance, the
//! setter operations (replace, append, or diagnostic stub), and the terminal
//! validate-and-assemble step. The state is one slot per field, in field
//! order; setters are addressed by their position in the generated unit.

use vstd::prelude::*;
use crate::error::MissingFieldError;
use crate::generate::GeneratedUnit;
use crate::synth::{AssemblyRole, SetterEffect, SlotInit};

verus! {

/// A run-time field value handed to a setter or found in an assembled record.
#[derive(Debug, PartialEq, Eq)]
pub enum Value {
    StrVal(String),
    IntVal(i64),
}

impl Value {
    /// An equal copy, spelled out so that the equality is known.
    pub fn duplicate(&self) -> (r: Value)
        ensures
            r == *self,
    {
        match self {
            Value::StrVal(s) => Value::StrVal(s.clone()),
            Value::IntVal(n) => Value::IntVal(*n),
        }
    }
}

/// One slot's run-time content: unset, holding one value, or holding the
/// elements of a collection field.
#[derive(Debug, PartialEq, Eq)]
pub enum SlotState {
    Vacant,
    Occupied(Value),
    ItemList(Vec<Value>),
}

/// One slot's content as contracts see it.
pub enum SlotView {
    Vacant,
    Occupied(Value),
    ItemList(Seq<Value>),
}

impl View for SlotState {
    type V = SlotView;

    open spec fn view(&self) -> SlotView {
        match self {
            SlotState::Vacant => SlotView::Vacant,
            SlotState::Occupied(v) => SlotView::Occupied(*v),
            SlotState::ItemList(l) => SlotView::ItemList(l@),
        }
    }
}

/// The builder's run-time state: one slot per field, in field order.
#[derive(Debug, PartialEq, Eq)]
pub struct BuilderState {
    pub slots: Vec<SlotState>,
}

impl View for BuilderState {
    type V = Seq<SlotView>;

    open spec fn view(&self) -> Seq<SlotView> {
        Seq::new(self.slots@.len(), |i: int| self.slots@[i]@)
    }
}

/// One resolved field of an assembled record: an optional field left absent,
/// a single value, or a collection field's elements.
#[derive(Debug, PartialEq, Eq)]
pub enum FieldValue {
    Unfilled,
    Single(Value),
    Many(Vec<Value>),
}

/// One resolved field as contracts see it.
pub enum FieldValueView {
    Unfilled,
    Single(Value),
    Many(Seq<Value>),
}

impl View for FieldValue {
    type V = FieldValueView;

    open spec fn view(&self) -> FieldValueView {
        match self {
            FieldValue::Unfilled => FieldValueView::Unfilled,
            FieldValue::Single(v) => FieldValueView::Single(*v),
            FieldValue::Many(l) => FieldValueView::Many(l@),
        }
    }
}

/// The resolved fields of a list, as contracts see them.
pub open spec fn field_views(s: Seq<FieldValue>) -> Seq<FieldValueView> {
    Seq::new(s.len(), |i: int| s[i]@)
}

/// An assembled record: the record's name and one resolved value per field,
/// in field order.
#[derive(Debug, PartialEq, Eq)]
pub struct RecordValue {
    pub name: String,
    pub fields: Vec<FieldValue>,
}

impl View for RecordValue {
    type V = Seq<FieldValueView>;

    open spec fn view(&self) -> Seq<FieldValueView> {
        field_views(self.fields@)
    }
}

/// The initial content a slot's declaration asks for.
pub open spec fn spec_init_slot(init: SlotInit) -> SlotView {
    match init {
        SlotInit::StartAbsent => SlotView::Vacant,
        SlotInit::StartEmpty => SlotView::ItemList(Seq::empty()),
    }
}

/// The factory entry point: an empty companion instance, every slot at the
/// initial content its declaration asks for.
pub fn new_builder(unit: &GeneratedUnit) -> (b: BuilderState)
    ensures
        b@.len() == unit.slots@.len(),
        forall|i: int| 0 <= i < unit.slots@.len() ==> b@[i] == spec_init_slot(unit.slots@[i].init),
{
    let mut slots: Vec<SlotState> = Vec::new();
    let mut i: usize = 0;
    while i < unit.slots.len()
        invariant
            i <= unit.slots@.len(),
            slots@.len() == i,
            forall|j: int| 0 <= j < i ==> slots@[j]@ == spec_init_slot(unit.slots@[j].init),
        decreases unit.slots@.len() - i,
    {
        match unit.slots[i].init {
            SlotInit::StartAbsent => slots.push(SlotState::Vacant),
            SlotInit::StartEmpty => slots.push(SlotState::ItemList(Vec::new())),
        }
        i = i + 1;
    }
    BuilderState { slots }
}

/// What a single-value setter effect does to its field's slot: replace
/// overwrites with the value marked present, append adds one element (an
/// unset slot becomes a one-element collection), and a stub changes nothing.
/// The whole-collection effect takes a collection, not a single value, and
/// has its own operation, so here it changes nothing.
pub open spec fn spec_apply_effect(s: SlotView, eff: SetterEffect, v: Value) -> SlotView
    recommends
        !(eff is ReplaceWhole),
{
    match eff {
        SetterEffect::Replace => SlotView::Occupied(v),
        SetterEffect::ReplaceWhole => s,
        SetterEffect::Append => match s {
            SlotView::ItemList(l) => SlotView::ItemList(l.push(v)),
            _ => SlotView::ItemList(seq![v]),
        },
        SetterEffect::Stub => s,
    }
}

/// The fixed diagnostic a stub setter signals in place of mutating the state.
pub open spec fn stub_report() -> Seq<char> {
    "malformed builder metadata"@
}

/// The outcome of one setter call: either the mutation happened, or the
/// setter is a stub and signalled its fixed diagnostic.
#[derive(Debug, PartialEq, Eq)]
pub enum SetterOutcome {
    Applied,
    StubDiagnostic(String),
}

/// Run single-value setter `setter` of `unit` with the argument `value`:
/// exactly the setter's own field changes, by the setter's effect; a stub
/// leaves the whole state unchanged and signals the fixed diagnostic instead.
/// A whole-collection setter takes a collection and is run by
/// `apply_collection_setter`.
pub fn apply_setter(
    unit: &GeneratedUnit,
    state: &mut BuilderState,
    setter: usize,
    value: Value,
) -> (r: SetterOutcome)
    requires
        setter < unit.setters@.len(),
        unit.setters@[setter as int].field_index < old(state)@.len(),
        !(unit.setters@[setter as int].effect is ReplaceWhole),
    ensures
        ({
            let op = unit.setters@[setter as int];
            let fi = op.field_index as int;
            &&& final(state)@ == old(state)@.update(
                fi,
                spec_apply_effect(old(state)@[fi], op.effect, value),
            )
            &&& (op.effect is Stub ==> final(state)@ == old(state)@)
            &&& (r is StubDiagnostic <==> op.effect is Stub)
            &&& (r matches SetterOutcome::StubDiagnostic(m) ==> m@ == stub_report())
        }),
{
    let op = &unit.setters[setter];
    let fi = op.field_index;
    match op.effect {
        SetterEffect::Replace => {
            state.slots.set(fi, SlotState::Occupied(value));
            proof {
                assert(state@ =~= old(state)@.update(
                    fi as int,
                    spec_apply_effect(old(state)@[fi as int], op.effect, value),
                ));
            }
            SetterOutcome::Applied
        },
        SetterEffect::Append => {
            let mut taken = SlotState::Vacant;
            state.slots.set_and_swap(fi, &mut taken);
            let refilled = match taken {
                SlotState::ItemList(mut l) => {
                    l.push(value);
                    SlotState::ItemList(l)
                },
                _ => {
                    let mut l: Vec<Value> = Vec::new();
                    l.push(value);
                    proof {
                        assert(l@ =~= seq![value]);
                    }
                    SlotState::ItemList(l)
                },
            };
            state.slots.set(fi, refilled);
            proof {
                assert(state@ =~= old(state)@.update(
                    fi as int,
                    spec_apply_effect(old(state)@[fi as int], op.effect, value),
                ));
            }
            SetterOutcome::Applied
        },
        SetterEffect::ReplaceWhole => unreached(),
        SetterEffect::Stub => {
            proof {
                assert(state@ =~= old(state)@.update(
                    fi as int,
                    spec_apply_effect(old(state)@[fi as int], op.effect, value),
                ));
                assert(state@ =~= old(state)@);
            }
            SetterOutcome::StubDiagnostic("malformed builder metadata".to_owned())
        },
    }
}

/// Run whole-collection setter `setter` of `unit` with the collection
/// `values`: the setter's own slot, and nothing else, is overwritten with the
/// given elements wholesale.
pub fn apply_collection_setter(
    unit: &GeneratedUnit,
    state: &mut BuilderState,
    setter: usize,
    values: Vec<Value>,
)
    requires
        setter < unit.setters@.len(),
        unit.setters@[setter as int].field_index < old(state)@.len(),
        unit.setters@[setter as int].effect is ReplaceWhole,
    ensures
        final(state)@ == old(state)@.update(
            unit.setters@[setter as int].field_index as int,
            SlotView::ItemList(values@),
        ),
{
    let op = &unit.setters[setter];
    let fi = op.field_index;
    state.slots.set(fi, SlotState::ItemList(values));
    proof {
        assert(state@ =~= old(state)@.update(fi as int, SlotView::ItemList(values@)));
    }
}

/// How one slot resolves under one assembly role: a required slot must be
/// occupied or the field is missing; an optional slot resolves to its value
/// or to absence; a collection slot resolves to its elements, an unset slot
/// counting as empty.
pub open spec fn spec_resolve_slot(role: AssemblyRole, s: SlotView) -> Option<FieldValueView> {
    match role {
        AssemblyRole::Required => match s {
            SlotView::Occupied(v) => Some(FieldValueView::Single(v)),
            _ => None,
        },
        AssemblyRole::TakeOptional => match s {
            SlotView::Occupied(v) => Some(FieldValueView::Single(v)),
            _ => Some(FieldValueView::Unfilled),
        },
        AssemblyRole::DefaultToEmpty => match s {
            SlotView::ItemList(l) => Some(FieldValueView::Many(l)),
            _ => Some(FieldValueView::Many(Seq::empty())),
        },
    }
}

/// Assembly over the parts and slots in declaration order: the first missing
/// required field fails the whole step with that field's name, before any
/// partial record is formed.
pub open spec fn spec_assemble_fields(parts: Seq<crate::synth::AssemblyPart>, slots: Seq<SlotView>) -> Result<
    Seq<FieldValueView>,
    String,
>
    decreases parts.len(),
{
    if parts.len() == 0 {
        Ok(Seq::empty())
    } else {
        match spec_resolve_slot(parts[0].role, slots[0]) {
            None => Err(parts[0].field_name),
            Some(fv) => match spec_assemble_fields(parts.drop_first(), slots.drop_first()) {
                Ok(tail) => Ok(seq![fv] + tail),
                Err(n) => Err(n),
            },
        }
    }
}

/// What `assemble` returns for a given unit and state: success carries the
/// record's name and the resolved fields, failure names the missing field.
pub open spec fn assemble_post(
    unit: GeneratedUnit,
    slots: Seq<SlotView>,
    r: Result<RecordValue, MissingFieldError>,
) -> bool {
    match spec_assemble_fields(unit.assembly@, slots) {
        Ok(fs) => r matches Ok(rec) && rec.name == unit.record_name && rec@ == fs,
        Err(n) => r matches Err(e) && e.field_name == n,
    }
}

/// An equal copy of a value list.
fn duplicate_values(l: &Vec<Value>) -> (r: Vec<Value>)
    ensures
        r@ == l@,
{
    let mut out: Vec<Value> = Vec::new();
    let mut i: usize = 0;
    while i < l.len()
        invariant
            i <= l@.len(),
            out@ == l@.subrange(0, i as int),
        decreases l@.len() - i,
    {
        out.push(l[i].duplicate());
        assert(out@ =~= l@.subrange(0, i + 1 as int));
        i = i + 1;
    }
    proof {
        assert(l@.subrange(0, l@.len() as int) =~= l@);
    }
    out
}

/// Resolve the fields from position `i` on, in order.
fn assemble_from(unit: &GeneratedUnit, state: &BuilderState, i: usize) -> (r: Result<
    Vec<FieldValue>,
    MissingFieldError,
>)
    requires
        state@.len() == unit.assembly@.len(),
        i <= unit.assembly@.len(),
    ensures
        (match spec_assemble_fields(unit.assembly@.skip(i as int), state@.skip(i as int)) {
            Ok(fs) => r matches Ok(vs) && field_views(vs@) == fs,
            Err(n) => r matches Err(e) && e.field_name == n,
        }),
    decreases unit.assembly@.len() - i,
{
    if i == unit.assembly.len() {
        proof {
            assert(unit.assembly@.skip(i as int) =~= Seq::<crate::synth::AssemblyPart>::empty());
            assert(field_views(Seq::<FieldValue>::empty()) =~= Seq::<FieldValueView>::empty());
        }
        Ok(Vec::new())
    } else {
        proof {
            assert(unit.assembly@.skip(i as int)[0] == unit.assembly@[i as int]);
            assert(state@.skip(i as int)[0] == state@[i as int]);
            assert(unit.assembly@.skip(i as int).drop_first() =~= unit.assembly@.skip(i as int + 1));
            assert(state@.skip(i as int).drop_first() =~= state@.skip(i as int + 1));
        }
        let part = &unit.assembly[i];
        let slot = &state.slots[i];
        let resolved: Option<FieldValue> = match part.role {
            AssemblyRole::Required => match slot {
                SlotState::Occupied(v) => Some(FieldValue::Single(v.duplicate())),
                _ => None,
            },
            AssemblyRole::TakeOptional => match slot {
                SlotState::Occupied(v) => Some(FieldValue::Single(v.duplicate())),
                _ => Some(FieldValue::Unfilled),
            },
            AssemblyRole::DefaultToEmpty => match slot {
                SlotState::ItemList(l) => Some(FieldValue::Many(duplicate_values(l))),
                _ => Some(FieldValue::Many(Vec::new())),
            },
        };
        match resolved {
            None => Err(MissingFieldError { field_name: part.field_name.clone() }),
            Some(fv) => {
                proof {
                    assert(Some(fv@) == spec_resolve_slot(part.role, state@[i as int]));
                }
                match assemble_from(unit, state, i + 1) {
                    Ok(mut tail) => {
                        let ghost tail_views = field_views(tail@);
                        tail.insert(0, fv);
                        proof {
                            assert(field_views(tail@) =~= seq![fv@] + tail_views);
                        }
                        Ok(tail)
                    },
                    Err(e) => Err(e),
                }
            },
        }
    }
}

/// The terminal assembly step: validate every required field and form the
/// record, or report the first missing field, leaving the builder unchanged
/// either way.
pub fn assemble(unit: &GeneratedUnit, state: &BuilderState) -> (r: Result<
    RecordValue,
    MissingFieldError,
>)
    requires
        state@.len() == unit.assembly@.len(),
    ensures
        assemble_post(*unit, state@, r),
{
    proof {
        assert(unit.assembly@.skip(0) =~= unit.assembly@);
        assert(state@.skip(0) =~= state@);
    }
    match assemble_from(unit, state, 0) {
        Ok(fields) => Ok(RecordValue { name: unit.record_name.clone(), fields }),
        Err(e) => Err(e),
    }
}

} // verus!
