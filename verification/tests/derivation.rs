//! The engine's structural output: classifier decisions, naming, shadow
//! type synthesis, derive collection, error taxonomy, and shape refusals.

use optifier::classify::is_option_type;
use optifier::engine::{collect_partial_derives, derive_partial};
use optifier::model::{
    ArgStyle, AttrInput, FieldInput, ShapeError, TypeData, TypeExpr, TypeInput, TypeShape,
};
use optifier::names::{error_case_name, error_type_name, missing_message, shadow_type_name};

fn path_ty(text: &str, last: &str, args: ArgStyle) -> TypeExpr {
    TypeExpr {
        text: text.to_string(),
        shape: TypeShape::Path { last_ident: last.to_string(), last_args: args },
    }
}

fn named_field(name: &str, vis: &str, ty: TypeExpr) -> FieldInput {
    FieldInput { name: Some(name.to_string()), vis: vis.to_string(), ty }
}

fn record(name: &str, fields: Vec<FieldInput>) -> TypeInput {
    TypeInput {
        name: name.to_string(),
        vis: "pub".to_string(),
        generics: String::new(),
        where_clause: None,
        attrs: vec![],
        data: TypeData::NamedRecord(fields),
    }
}

fn scenario_a_input() -> TypeInput {
    record(
        "Foo",
        vec![
            named_field("id", "", path_ty("i64", "i64", ArgStyle::NoArgs)),
            named_field("name", "", path_ty("String", "String", ArgStyle::NoArgs)),
            named_field("note", "", path_ty("Option<String>", "Option", ArgStyle::AngleArgs)),
        ],
    )
}

#[test]
fn classifier_accepts_only_angle_bracketed_option() {
    assert!(is_option_type(&path_ty("Option<u8>", "Option", ArgStyle::AngleArgs)));
    assert!(is_option_type(&path_ty(
        "::std::option::Option<u8>",
        "Option",
        ArgStyle::AngleArgs
    )));
    // A bare `Option` without arguments is not an application.
    assert!(!is_option_type(&path_ty("Option", "Option", ArgStyle::NoArgs)));
    // Case-sensitive: only the exact identifier counts.
    assert!(!is_option_type(&path_ty("option<u8>", "option", ArgStyle::AngleArgs)));
    // An alias that expands to an Option is still classified required.
    assert!(!is_option_type(&path_ty("MaybeText", "MaybeText", ArgStyle::NoArgs)));
    // Non-path types are never optional-shaped.
    assert!(!is_option_type(&TypeExpr {
        text: "(u8, u8)".to_string(),
        shape: TypeShape::Other,
    }));
    // Parenthesized arguments do not count as an Option application.
    assert!(!is_option_type(&path_ty("Option(u8)", "Option", ArgStyle::ParenArgs)));
}

#[test]
fn naming_conventions() {
    assert_eq!(shadow_type_name(&"Foo".to_string()), "FooPartial");
    assert_eq!(error_type_name(&"Foo".to_string()), "FooPartialError");
    assert_eq!(error_case_name(&"user_id".to_string()), "UserIdMissing");
    assert_eq!(error_case_name(&"a".to_string()), "AMissing");
    assert_eq!(missing_message(&"user_id".to_string()), "Field `user_id` is missing");
}

#[test]
fn shadow_type_mirrors_fields_in_order() {
    let g = derive_partial(&scenario_a_input()).unwrap();
    assert_eq!(g.shadow.name, "FooPartial");
    assert_eq!(g.shadow.vis, "pub");
    assert_eq!(g.shadow.fields.len(), 3);
    let names: Vec<&str> = g.shadow.fields.iter().map(|f| f.name.as_str()).collect();
    assert_eq!(names, vec!["id", "name", "note"]);
    assert_eq!(g.shadow.fields[0].ty.text, "::std::option::Option<i64>");
    assert_eq!(g.shadow.fields[1].ty.text, "::std::option::Option<String>");
    // Already optional: byte-for-byte identical, no double wrapping.
    assert_eq!(g.shadow.fields[2].ty.text, "Option<String>");
}

#[test]
fn field_visibilities_are_preserved() {
    let mut input = scenario_a_input();
    if let TypeData::NamedRecord(fields) = &mut input.data {
        fields[0].vis = "pub".to_string();
        fields[2].vis = "pub(crate)".to_string();
    }
    let g = derive_partial(&input).unwrap();
    assert_eq!(g.shadow.fields[0].vis, "pub");
    assert_eq!(g.shadow.fields[1].vis, "");
    assert_eq!(g.shadow.fields[2].vis, "pub(crate)");
}

#[test]
fn generics_and_where_clause_copied_verbatim() {
    let mut input = scenario_a_input();
    input.generics = "<'a, T: Clone>".to_string();
    input.where_clause = Some("where T: Send".to_string());
    let g = derive_partial(&input).unwrap();
    assert_eq!(g.shadow.generics, "<'a, T: Clone>");
    assert_eq!(g.shadow.where_clause.as_deref(), Some("where T: Send"));
    assert_eq!(g.merge.generics, "<'a, T: Clone>");
    assert_eq!(g.merge.where_clause.as_deref(), Some("where T: Send"));
    assert_eq!(g.reconstruction.generics, "<'a, T: Clone>");
    assert_eq!(g.reconstruction.where_clause.as_deref(), Some("where T: Send"));
}

#[test]
fn derive_requests_pass_through_in_order_with_duplicates() {
    let mut input = scenario_a_input();
    input.attrs = vec![
        AttrInput { name: "serde".to_string(), args: vec!["skip".to_string()] },
        AttrInput {
            name: "partial_derive".to_string(),
            args: vec!["Debug".to_string(), "Clone".to_string()],
        },
        AttrInput { name: "partial_derive".to_string(), args: vec!["Debug".to_string()] },
    ];
    let collected = collect_partial_derives(&input);
    assert_eq!(collected, vec!["Debug", "Clone", "Debug"]);
    let g = derive_partial(&input).unwrap();
    assert_eq!(g.shadow.derives, vec!["Debug", "Clone", "Debug"]);
}

#[test]
fn no_marker_attribute_yields_no_derives() {
    let g = derive_partial(&scenario_a_input()).unwrap();
    assert!(g.shadow.derives.is_empty());
}

#[test]
fn merge_impl_covers_every_field() {
    let g = derive_partial(&scenario_a_input()).unwrap();
    assert_eq!(g.merge.shadow_name, "FooPartial");
    assert_eq!(g.merge.field_names, vec!["id", "name", "note"]);
}

#[test]
fn taxonomy_has_one_case_per_required_field() {
    let g = derive_partial(&scenario_a_input()).unwrap();
    assert_eq!(g.reconstruction.original_name, "Foo");
    assert_eq!(g.reconstruction.shadow_name, "FooPartial");
    assert_eq!(g.reconstruction.taxonomy.name, "FooPartialError");
    let cases = &g.reconstruction.taxonomy.cases;
    assert_eq!(cases.len(), 2);
    assert_eq!(cases[0].name, "IdMissing");
    assert_eq!(cases[0].field_name, "id");
    assert_eq!(cases[0].message, "Field `id` is missing");
    assert_eq!(cases[1].name, "NameMissing");
    assert_eq!(cases[1].field_name, "name");
    assert_eq!(cases[1].message, "Field `name` is missing");
}

#[test]
fn all_optional_type_yields_empty_taxonomy() {
    let input = record(
        "Prefs",
        vec![
            named_field("a", "", path_ty("Option<u8>", "Option", ArgStyle::AngleArgs)),
            named_field("b", "", path_ty("Option<String>", "Option", ArgStyle::AngleArgs)),
        ],
    );
    let g = derive_partial(&input).unwrap();
    assert_eq!(g.reconstruction.taxonomy.cases.len(), 0);
}

#[test]
fn pascal_case_in_taxonomy_tracks_field_spelling() {
    let input = record(
        "Job",
        vec![
            named_field("retry_count", "", path_ty("u32", "u32", ArgStyle::NoArgs)),
            named_field("maxDelay", "", path_ty("u32", "u32", ArgStyle::NoArgs)),
        ],
    );
    let g = derive_partial(&input).unwrap();
    let cases = &g.reconstruction.taxonomy.cases;
    assert_eq!(cases[0].name, "RetryCountMissing");
    assert_eq!(cases[1].name, "MaxDelayMissing");
}

#[test]
fn sum_type_is_refused() {
    let mut input = scenario_a_input();
    input.data = TypeData::SumType;
    assert_eq!(derive_partial(&input).unwrap_err(), ShapeError::NotAStruct);
    input.data = TypeData::UntaggedUnion;
    assert_eq!(derive_partial(&input).unwrap_err(), ShapeError::NotAStruct);
}

#[test]
fn records_without_named_fields_are_refused() {
    let mut input = scenario_a_input();
    input.data = TypeData::PositionalRecord;
    assert_eq!(derive_partial(&input).unwrap_err(), ShapeError::UnnamedFields);
    input.data = TypeData::UnitRecord;
    assert_eq!(derive_partial(&input).unwrap_err(), ShapeError::UnnamedFields);
}

#[test]
fn empty_field_list_is_refused() {
    let input = record("Empty", vec![]);
    assert_eq!(derive_partial(&input).unwrap_err(), ShapeError::NoFields);
}

#[test]
fn anonymous_field_is_refused() {
    let mut input = scenario_a_input();
    if let TypeData::NamedRecord(fields) = &mut input.data {
        fields[1].name = None;
    }
    assert_eq!(derive_partial(&input).unwrap_err(), ShapeError::AnonymousField);
}
