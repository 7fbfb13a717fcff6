use blogpatch::compiler::{compile, decode_value, CompileError, CompileMode, CompileOutcome};
use blogpatch::document::{presence_of, PatchDocument};
use blogpatch::schema::FieldKind;
use blogpatch::tables::{category_schema, post_schema};
use blogpatch::values::{DecodeErrorKind, FieldValue, RawValue};

const PATCH_SEP: &str = ",\n        ";

fn doc_of(entries: Vec<(&str, RawValue)>) -> PatchDocument {
    let mut doc = PatchDocument::new();
    for (name, value) in entries {
        doc.push(name.to_string(), value);
    }
    doc
}

fn compiled(r: Result<CompileOutcome, CompileError>) -> blogpatch::compiler::CompiledMutation {
    match r {
        Ok(CompileOutcome::Compiled(m)) => m,
        other => panic!("expected a compiled mutation, got {:?}", other),
    }
}

fn fragment_texts(m: &blogpatch::compiler::CompiledMutation) -> Vec<String> {
    m.fragments()
}

fn param_names(m: &blogpatch::compiler::CompiledMutation) -> Vec<String> {
    m.items.iter().map(|it| it.param.name.clone()).collect()
}

#[test]
fn patch_title_only_compiles_one_fragment_plus_identifier() {
    let schema = post_schema();
    let doc = doc_of(vec![("title", RawValue::Str("New title".to_string()))]);
    let presence = presence_of(&doc);
    let m = compiled(compile(CompileMode::Patch { target: 7 }, &schema, &doc, &presence));
    let frags = fragment_texts(&m);
    assert_eq!(
        frags,
        vec![".id = <uuid>$id".to_string(), "title := <optional str>$title".to_string()]
    );
    assert_eq!(param_names(&m), vec!["id".to_string(), "title".to_string()]);
    assert_eq!(m.items[1].param.value, FieldValue::Str("New title".to_string()));
    assert_eq!(m.items[0].param.value, FieldValue::Uuid(7));
    let clause = m.set_clause(PATCH_SEP);
    assert_eq!(clause, ".id = <uuid>$id,\n        title := <optional str>$title");
}

#[test]
fn patch_body_expands_html_and_excerpt_in_order() {
    let schema = post_schema();
    let doc = doc_of(vec![("body", RawValue::Str("hello".to_string()))]);
    let presence = presence_of(&doc);
    let m = compiled(compile(CompileMode::Patch { target: 1 }, &schema, &doc, &presence));
    assert_eq!(
        fragment_texts(&m),
        vec![
            ".id = <uuid>$id".to_string(),
            "body := <optional str>$body".to_string(),
            "html := <optional str>$html".to_string(),
            "excerpt := <optional str>$excerpt".to_string(),
        ]
    );
    assert_eq!(m.items[2].param.value, FieldValue::Str("<p>hello</p>".to_string()));
    assert_eq!(m.items[3].param.value, FieldValue::Str("hello".to_string()));
}

#[test]
fn create_missing_slug_fails_with_missing_required_field() {
    let schema = post_schema();
    let doc = doc_of(vec![("title", RawValue::Str("A title".to_string()))]);
    let presence = presence_of(&doc);
    let r = compile(CompileMode::Create, &schema, &doc, &presence);
    assert_eq!(r, Err(CompileError::MissingRequiredField("slug".to_string())));
}

#[test]
fn empty_patch_short_circuits_to_empty() {
    let schema = post_schema();
    let doc = doc_of(vec![]);
    let presence = presence_of(&doc);
    let r = compile(CompileMode::Patch { target: 3 }, &schema, &doc, &presence);
    assert_eq!(r, Ok(CompileOutcome::Empty));
    let cat = category_schema();
    let r2 = compile(CompileMode::Patch { target: 3 }, &cat, &doc, &presence);
    assert_eq!(r2, Ok(CompileOutcome::Empty));
}

#[test]
fn empty_create_fails_on_first_required_field() {
    let schema = post_schema();
    let doc = doc_of(vec![]);
    let presence = presence_of(&doc);
    let r = compile(CompileMode::Create, &schema, &doc, &presence);
    assert_eq!(r, Err(CompileError::MissingRequiredField("title".to_string())));
}

#[test]
fn compiling_the_same_patch_twice_is_byte_identical() {
    let schema = post_schema();
    let doc = doc_of(vec![
        ("title", RawValue::Str("T".to_string())),
        ("body", RawValue::Str("B".to_string())),
    ]);
    let presence = presence_of(&doc);
    let m1 = compiled(compile(CompileMode::Patch { target: 9 }, &schema, &doc, &presence));
    let m2 = compiled(compile(CompileMode::Patch { target: 9 }, &schema, &doc, &presence));
    assert_eq!(m1, m2);
    assert_eq!(m1.set_clause(PATCH_SEP), m2.set_clause(PATCH_SEP));
}

#[test]
fn absent_fields_never_appear_in_patch_output() {
    let schema = post_schema();
    let doc = doc_of(vec![("title", RawValue::Str("T".to_string()))]);
    let presence = presence_of(&doc);
    let m = compiled(compile(CompileMode::Patch { target: 2 }, &schema, &doc, &presence));
    for forbidden in ["slug", "is_published", "format", "body", "html", "excerpt", "categories"] {
        assert!(param_names(&m).iter().all(|n| n != forbidden));
        assert!(fragment_texts(&m).iter().all(|f| !f.contains(forbidden)));
    }
}

#[test]
fn absent_body_emits_no_derived_fields() {
    let schema = post_schema();
    let doc = doc_of(vec![("slug", RawValue::Str("s".to_string()))]);
    let presence = presence_of(&doc);
    let m = compiled(compile(CompileMode::Patch { target: 2 }, &schema, &doc, &presence));
    assert!(param_names(&m).iter().all(|n| n != "html" && n != "excerpt"));
}

#[test]
fn create_round_trip_binds_exactly_the_expected_names() {
    let schema = post_schema();
    let doc = doc_of(vec![
        ("title", RawValue::Str("T".to_string())),
        ("slug", RawValue::Str("t".to_string())),
        ("body", RawValue::Str("text".to_string())),
    ]);
    let presence = presence_of(&doc);
    let m = compiled(compile(CompileMode::Create, &schema, &doc, &presence));
    assert_eq!(
        param_names(&m),
        vec![
            "title".to_string(),
            "slug".to_string(),
            "body".to_string(),
            "html".to_string(),
            "excerpt".to_string(),
        ]
    );
    assert_eq!(
        fragment_texts(&m)[0..2],
        ["title := <str>$title".to_string(), "slug := <str>$slug".to_string()]
    );
}

#[test]
fn patch_null_scalar_binds_an_absent_value_but_keeps_the_fragment() {
    let schema = post_schema();
    let doc = doc_of(vec![("body", RawValue::Null)]);
    let presence = presence_of(&doc);
    let m = compiled(compile(CompileMode::Patch { target: 4 }, &schema, &doc, &presence));
    assert_eq!(m.items[1].param.name, "body");
    assert_eq!(m.items[1].param.value, FieldValue::Absent);
    // the derived fields fall back to the empty-string source
    assert_eq!(m.items[2].param.value, FieldValue::Str("<p></p>".to_string()));
    assert_eq!(m.items[3].param.value, FieldValue::Str(String::new()));
}

#[test]
fn patch_null_categories_is_skipped_entirely() {
    let schema = post_schema();
    let doc = doc_of(vec![("categories", RawValue::Null)]);
    let presence = presence_of(&doc);
    let m = compiled(compile(CompileMode::Patch { target: 4 }, &schema, &doc, &presence));
    assert_eq!(param_names(&m), vec!["id".to_string()]);
}

#[test]
fn patch_categories_compiles_a_sub_selection_fragment() {
    let schema = post_schema();
    let id_text = "67e55044-10b1-426f-9247-bb680e5fe0c8";
    let doc = doc_of(vec![(
        "categories",
        RawValue::StrList(vec![id_text.to_string()]),
    )]);
    let presence = presence_of(&doc);
    let m = compiled(compile(CompileMode::Patch { target: 4 }, &schema, &doc, &presence));
    assert_eq!(
        fragment_texts(&m)[1],
        "categories := (SELECT BlogCategory FILTER .id IN array_unpack(<array<uuid>>$categories))"
    );
    let expected = uuid::Uuid::parse_str(id_text).unwrap().as_u128();
    assert_eq!(m.items[1].param.value, FieldValue::UuidList(vec![expected]));
    assert!(m.items[1].param.is_link);
}

#[test]
fn invalid_category_identifier_fails_the_compile() {
    let schema = post_schema();
    let doc = doc_of(vec![(
        "categories",
        RawValue::StrList(vec!["not-an-identifier".to_string()]),
    )]);
    let presence = presence_of(&doc);
    let r = compile(CompileMode::Patch { target: 4 }, &schema, &doc, &presence);
    assert_eq!(
        r,
        Err(CompileError::InvalidFieldValue(
            "categories".to_string(),
            DecodeErrorKind::InvalidIdentifier
        ))
    );
}

#[test]
fn create_null_title_is_rejected() {
    let schema = post_schema();
    let doc = doc_of(vec![
        ("title", RawValue::Null),
        ("slug", RawValue::Str("s".to_string())),
    ]);
    let presence = presence_of(&doc);
    let r = compile(CompileMode::Create, &schema, &doc, &presence);
    assert_eq!(
        r,
        Err(CompileError::InvalidFieldValue(
            "title".to_string(),
            DecodeErrorKind::UnexpectedNull
        ))
    );
}

#[test]
fn unknown_fields_are_ignored_by_the_schema_pass() {
    let schema = post_schema();
    let doc = doc_of(vec![("something_else", RawValue::Bool(true))]);
    let presence = presence_of(&doc);
    let m = compiled(compile(CompileMode::Patch { target: 4 }, &schema, &doc, &presence));
    assert_eq!(param_names(&m), vec!["id".to_string()]);
}

#[test]
fn decode_rules_accept_and_reject_the_right_shapes() {
    assert_eq!(
        decode_value(FieldKind::Text, &RawValue::Bool(true)),
        Err(DecodeErrorKind::ExpectedString)
    );
    assert_eq!(
        decode_value(FieldKind::Flag, &RawValue::Str("yes".to_string())),
        Err(DecodeErrorKind::ExpectedBool)
    );
    assert_eq!(
        decode_value(FieldKind::Flag, &RawValue::Bool(false)),
        Ok(FieldValue::Bool(false))
    );
    assert_eq!(
        decode_value(FieldKind::Format, &RawValue::Str("Rst".to_string())),
        Ok(FieldValue::Enum("Rst".to_string()))
    );
    assert_eq!(
        decode_value(FieldKind::Format, &RawValue::Str("Tex".to_string())),
        Err(DecodeErrorKind::UnknownFormat)
    );
    assert_eq!(
        decode_value(FieldKind::Format, &RawValue::Bool(true)),
        Err(DecodeErrorKind::ExpectedString)
    );
    assert_eq!(decode_value(FieldKind::Text, &RawValue::Null), Ok(FieldValue::Absent));
    assert_eq!(
        decode_value(FieldKind::LinkList, &RawValue::Other),
        Err(DecodeErrorKind::ExpectedStringList)
    );
}

#[test]
fn patch_format_binds_the_enum_name() {
    let schema = post_schema();
    let doc = doc_of(vec![("format", RawValue::Str("Md".to_string()))]);
    let presence = presence_of(&doc);
    let m = compiled(compile(CompileMode::Patch { target: 5 }, &schema, &doc, &presence));
    assert_eq!(fragment_texts(&m)[1], "format := <optional DocFormat>$format");
    assert_eq!(m.items[1].param.value, FieldValue::Enum("Md".to_string()));
}

#[test]
fn category_patch_uses_its_own_schema() {
    let schema = category_schema();
    let doc = doc_of(vec![("slug", RawValue::Str("tech".to_string()))]);
    let presence = presence_of(&doc);
    let m = compiled(compile(CompileMode::Patch { target: 6 }, &schema, &doc, &presence));
    assert_eq!(
        fragment_texts(&m),
        vec![".id = <uuid>$id".to_string(), "slug := <optional str>$slug".to_string()]
    );
}

#[test]
fn long_bodies_are_excerpted_to_the_character_budget() {
    let schema = post_schema();
    let long_body: String = std::iter::repeat('x').take(250).collect();
    let doc = doc_of(vec![("body", RawValue::Str(long_body.clone()))]);
    let presence = presence_of(&doc);
    let m = compiled(compile(CompileMode::Patch { target: 8 }, &schema, &doc, &presence));
    match &m.items[3].param.value {
        FieldValue::Str(s) => {
            assert_eq!(s.chars().count(), 200);
            assert_eq!(s.as_str(), &long_body[0..200]);
        }
        other => panic!("expected a string excerpt, got {:?}", other),
    }
}
