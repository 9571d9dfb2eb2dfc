use builder::classify::{Classification, classify, wrapped_inner};
use builder::generate::generate;
use builder::metadata::{MetaResolution, resolve_metadata};
use builder::model::{
    DeclBody, Declaration, FieldDecl, FieldMeta, LitValue, MetaBody, MetaEntry, TypeExpr,
};
use builder::synth::{AssemblyRole, ParamType, SetterEffect, SlotInit, SlotShape};

fn named_ty(name: &str, args: Vec<TypeExpr>) -> TypeExpr {
    TypeExpr::Path { segments: vec![name.to_string()], args }
}

fn bare_ty(name: &str) -> TypeExpr {
    named_ty(name, vec![])
}

fn field(name: &str, ty: TypeExpr) -> FieldDecl {
    FieldDecl { name: name.to_string(), ty, attrs: vec![] }
}

fn grouped_attr(keyword: &str, entries: Vec<MetaEntry>) -> FieldMeta {
    FieldMeta { keyword: keyword.to_string(), body: MetaBody::Grouped(entries) }
}

fn key_value(key: &str, value: LitValue) -> MetaEntry {
    MetaEntry::KeyValue { key: key.to_string(), value }
}

fn record(name: &str, fields: Vec<FieldDecl>) -> Declaration {
    Declaration { name: name.to_string(), body: DeclBody::NamedFields(fields) }
}

#[test]
fn classify_bare_path_is_plain() {
    assert_eq!(classify(&bare_ty("String")), Classification::Plain);
}

#[test]
fn classify_recognizes_optional_wrapper() {
    let ty = named_ty("Option", vec![bare_ty("i64")]);
    assert_eq!(classify(&ty), Classification::Optional);
}

#[test]
fn classify_recognizes_collection_wrapper() {
    let ty = named_ty("Vec", vec![bare_ty("String")]);
    assert_eq!(classify(&ty), Classification::Collection);
}

#[test]
fn classify_wrapper_without_arguments_is_plain() {
    assert_eq!(classify(&bare_ty("Option")), Classification::Plain);
}

#[test]
fn classify_wrapper_with_two_arguments_is_plain() {
    let ty = named_ty("Option", vec![bare_ty("u8"), bare_ty("u16")]);
    assert_eq!(classify(&ty), Classification::Plain);
}

#[test]
fn classify_multi_segment_path_is_plain() {
    let ty = TypeExpr::Path {
        segments: vec!["std".to_string(), "option".to_string(), "Option".to_string()],
        args: vec![bare_ty("i64")],
    };
    assert_eq!(classify(&ty), Classification::Plain);
}

#[test]
fn classify_non_path_type_is_plain() {
    let ty = TypeExpr::Other { text: "&'static str".to_string() };
    assert_eq!(classify(&ty), Classification::Plain);
}

#[test]
fn classify_unwraps_only_one_layer() {
    let ty = named_ty("Option", vec![named_ty("Vec", vec![bare_ty("u8")])]);
    assert_eq!(classify(&ty), Classification::Optional);
}

#[test]
fn wrapped_inner_extracts_the_single_argument() {
    let ty = named_ty("Vec", vec![bare_ty("String")]);
    assert_eq!(wrapped_inner(&ty), Some(&bare_ty("String")));
    assert_eq!(wrapped_inner(&bare_ty("String")), None);
    assert_eq!(wrapped_inner(&TypeExpr::Other { text: "[u8; 4]".to_string() }), None);
}

#[test]
fn resolve_no_metadata_is_unannotated() {
    assert_eq!(resolve_metadata(&vec![]), MetaResolution::Unannotated);
}

#[test]
fn resolve_unrecognized_keyword_is_unannotated() {
    let attrs = vec![grouped_attr("serde", vec![key_value(
        "rename",
        LitValue::StrLit("x".to_string()),
    )])];
    assert_eq!(resolve_metadata(&attrs), MetaResolution::Unannotated);
}

#[test]
fn resolve_ungrouped_body_is_malformed() {
    let attrs = vec![FieldMeta { keyword: "builder".to_string(), body: MetaBody::Ungrouped }];
    assert_eq!(resolve_metadata(&attrs), MetaResolution::Malformed);
}

#[test]
fn resolve_non_string_value_is_malformed() {
    let attrs = vec![grouped_attr("builder", vec![key_value("each", LitValue::OtherLit)])];
    assert_eq!(resolve_metadata(&attrs), MetaResolution::Malformed);
}

#[test]
fn resolve_entries_without_pairs_is_malformed() {
    let attrs = vec![grouped_attr("builder", vec![MetaEntry::OtherEntry])];
    assert_eq!(resolve_metadata(&attrs), MetaResolution::Malformed);
}

#[test]
fn resolve_string_value_requests_append() {
    let attrs = vec![grouped_attr("builder", vec![key_value(
        "each",
        LitValue::StrLit("tag".to_string()),
    )])];
    assert_eq!(resolve_metadata(&attrs), MetaResolution::AppendAs("tag".to_string()));
}

#[test]
fn resolve_first_valid_entry_wins() {
    let attrs = vec![grouped_attr("builder", vec![
        MetaEntry::OtherEntry,
        key_value("each", LitValue::OtherLit),
        key_value("each", LitValue::StrLit("first".to_string())),
        key_value("each", LitValue::StrLit("second".to_string())),
    ])];
    assert_eq!(resolve_metadata(&attrs), MetaResolution::AppendAs("first".to_string()));
}

#[test]
fn resolve_later_attribute_can_supply_the_name() {
    let attrs = vec![
        grouped_attr("doc", vec![]),
        grouped_attr("builder", vec![key_value("each", LitValue::StrLit("tag".to_string()))]),
    ];
    assert_eq!(resolve_metadata(&attrs), MetaResolution::AppendAs("tag".to_string()));
}

#[test]
fn generation_yields_one_of_each_per_field() {
    let decl = record("Command", vec![
        field("program", bare_ty("String")),
        field("level", named_ty("Option", vec![bare_ty("i64")])),
        field("args", named_ty("Vec", vec![bare_ty("String")])),
    ]);
    let unit = generate(decl).unwrap();
    assert_eq!(unit.record_name, "Command");
    assert_eq!(unit.companion_name, "CommandBuilder");
    assert_eq!(unit.fields.len(), 3);
    assert_eq!(unit.slots.len(), 3);
    assert_eq!(unit.setters.len(), 3);
    assert_eq!(unit.assembly.len(), 3);
    for (i, name) in ["program", "level", "args"].iter().enumerate() {
        assert_eq!(unit.slots[i].field_name, *name);
        assert_eq!(unit.setters[i].method_name, *name);
        assert_eq!(unit.setters[i].field_index, i);
        assert_eq!(unit.assembly[i].field_name, *name);
    }
    assert_eq!(unit.slots[0].shape, SlotShape::OptionalWrapped);
    assert_eq!(unit.slots[1].shape, SlotShape::AsDeclared);
    assert_eq!(unit.slots[2].shape, SlotShape::AsDeclared);
    assert_eq!(unit.slots[0].init, SlotInit::StartAbsent);
    assert_eq!(unit.slots[1].init, SlotInit::StartAbsent);
    assert_eq!(unit.slots[2].init, SlotInit::StartEmpty);
    assert_eq!(unit.assembly[0].role, AssemblyRole::Required);
    assert_eq!(unit.assembly[1].role, AssemblyRole::TakeOptional);
    assert_eq!(unit.assembly[2].role, AssemblyRole::DefaultToEmpty);
    assert_eq!(unit.setters[0].param, ParamType::DeclaredType);
    assert_eq!(unit.setters[0].effect, SetterEffect::Replace);
    assert_eq!(unit.setters[1].param, ParamType::InnerType);
    assert_eq!(unit.setters[1].effect, SetterEffect::Replace);
    assert_eq!(unit.setters[2].param, ParamType::DeclaredType);
    assert_eq!(unit.setters[2].effect, SetterEffect::ReplaceWhole);
}

#[test]
fn generation_renames_append_setter() {
    let mut f = field("tags", named_ty("Vec", vec![bare_ty("String")]));
    f.attrs = vec![grouped_attr("builder", vec![key_value(
        "each",
        LitValue::StrLit("tag".to_string()),
    )])];
    let unit = generate(record("Order", vec![f])).unwrap();
    assert_eq!(unit.setters[0].method_name, "tag");
    assert_eq!(unit.setters[0].param, ParamType::InnerType);
    assert_eq!(unit.setters[0].effect, SetterEffect::Append);
    assert_eq!(unit.assembly[0].role, AssemblyRole::DefaultToEmpty);
}

#[test]
fn generation_stubs_malformed_metadata() {
    let mut f = field("tags", named_ty("Vec", vec![bare_ty("String")]));
    f.attrs = vec![grouped_attr("builder", vec![key_value("each", LitValue::OtherLit)])];
    let unit = generate(record("Order", vec![f])).unwrap();
    assert_eq!(unit.setters[0].method_name, "tags");
    assert_eq!(unit.setters[0].param, ParamType::DeclaredType);
    assert_eq!(unit.setters[0].effect, SetterEffect::Stub);
}

#[test]
fn generation_stubs_append_request_on_non_collection() {
    let mut f = field("qty", bare_ty("i64"));
    f.attrs = vec![grouped_attr("builder", vec![key_value(
        "each",
        LitValue::StrLit("item".to_string()),
    )])];
    let unit = generate(record("Order", vec![f])).unwrap();
    assert_eq!(unit.setters[0].method_name, "qty");
    assert_eq!(unit.setters[0].effect, SetterEffect::Stub);
}

#[test]
fn generation_accepts_empty_field_list() {
    let unit = generate(record("Unit", vec![])).unwrap();
    assert_eq!(unit.slots.len(), 0);
    assert_eq!(unit.setters.len(), 0);
    assert_eq!(unit.assembly.len(), 0);
}

#[test]
fn generation_rejects_tagged_union() {
    let decl = Declaration { name: "Either".to_string(), body: DeclBody::TaggedUnion };
    let err = generate(decl).unwrap_err();
    assert_eq!(err.message(), "Not implemented for type.");
}

#[test]
fn generation_rejects_untagged_union() {
    let decl = Declaration { name: "Raw".to_string(), body: DeclBody::UntaggedUnion };
    let err = generate(decl).unwrap_err();
    assert_eq!(err.message(), "Not implemented for type.");
}

#[test]
fn generation_rejects_unnamed_fields() {
    let decl = Declaration { name: "Pair".to_string(), body: DeclBody::UnnamedFields };
    let err = generate(decl).unwrap_err();
    assert_eq!(err.message(), "Not implemented for field type.");
}

#[test]
fn generation_rejects_unit_declaration() {
    let decl = Declaration { name: "Nothing".to_string(), body: DeclBody::UnitShape };
    let err = generate(decl).unwrap_err();
    assert_eq!(err.message(), "Not implemented for field type.");
}
