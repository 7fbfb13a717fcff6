use blogpatch::edge::{create_shape_element, make_edge_object};
use blogpatch::entities::{BlogCategoryPatchData, BlogPostCreateData, BlogPostPatchData};
use blogpatch::errors::{ApiErrorDetail, ApiErrorShape};
use blogpatch::listing::ObjectListResponse;
use blogpatch::models::{DetailedBlogPost, RawBlogPost};
use blogpatch::paging::PaginationLinks;
use blogpatch::values::{Cardinality, DocFormat, RawValue};
use edgedb_protocol::value::Value;

fn names_of(v: Vec<&str>) -> Vec<String> {
    v.into_iter().map(|s| s.to_string()).collect()
}

#[test]
fn patch_data_set_clause_emits_only_submitted_fields() {
    let data = BlogPostPatchData {
        title: Some("New title".to_string()),
        slug: None,
        is_published: None,
        format: None,
        body: None,
        categories: None,
    };
    let clause = data.gen_set_clause(&names_of(vec!["title"]));
    assert_eq!(clause, "title := <optional str>$title");
}

#[test]
fn patch_data_expands_body_with_its_derived_fields() {
    let data = BlogPostPatchData {
        title: None,
        slug: None,
        is_published: None,
        format: None,
        body: Some("hello".to_string()),
        categories: None,
    };
    let clause = data.gen_set_clause(&names_of(vec!["body"]));
    assert_eq!(
        clause,
        "body := <optional str>$body,\n        html := <optional str>$html,\n        excerpt := <optional str>$excerpt"
    );
}

#[test]
fn create_data_always_emits_the_mandatory_fields() {
    let data = BlogPostCreateData::new("A title".to_string(), "a-title".to_string());
    let clause = data.gen_set_clause(&names_of(vec!["title", "slug"]));
    assert_eq!(clause, "title := <str>$title,\n            slug := <str>$slug");
}

#[test]
fn create_data_emits_submitted_optional_fields_after_the_mandatory_ones() {
    let mut data = BlogPostCreateData::new("T".to_string(), "t".to_string());
    data.is_published = Some(true);
    let clause = data.gen_set_clause(&names_of(vec!["title", "slug", "is_published"]));
    assert_eq!(
        clause,
        "title := <str>$title,\n            slug := <str>$slug,\n            is_published := <optional bool>$is_published"
    );
}

#[test]
fn category_patch_data_uses_the_category_schema() {
    let data = BlogCategoryPatchData { title: Some("Tech".to_string()), slug: None };
    let clause = data.gen_set_clause(&names_of(vec!["title"]));
    assert_eq!(clause, "title := <optional str>$title");
}

#[test]
fn patch_arguments_start_with_the_identifier() {
    let data = BlogPostPatchData {
        title: Some("T".to_string()),
        slug: None,
        is_published: None,
        format: Some(DocFormat::Rst),
        body: None,
        categories: None,
    };
    let m = data.compile_args(42, &names_of(vec!["title", "format"]));
    let names: Vec<String> = m.items.iter().map(|it| it.param.name.clone()).collect();
    assert_eq!(names, names_of(vec!["id", "title", "format"]));
    assert_eq!(m.items[0].fragment, ".id = <uuid>$id");
    assert_eq!(
        m.items[2].param.value,
        blogpatch::values::FieldValue::Enum("Rst".to_string())
    );
}

#[test]
fn the_driver_object_is_shaped_one_element_per_parameter() {
    let data = BlogPostPatchData {
        title: Some("T".to_string()),
        slug: None,
        is_published: Some(false),
        format: None,
        body: None,
        categories: None,
    };
    let value = data.make_edgedb_object(42, &names_of(vec!["title", "is_published"]));
    match value {
        Value::Object { shape, fields } => {
            let elements = &shape.elements;
            assert_eq!(elements.len(), 3);
            assert_eq!(elements[0].name, "id");
            assert_eq!(
                elements[0].cardinality,
                Some(edgedb_protocol::common::Cardinality::One)
            );
            assert_eq!(elements[1].name, "title");
            assert_eq!(
                elements[1].cardinality,
                Some(edgedb_protocol::common::Cardinality::AtMostOne)
            );
            assert_eq!(elements[2].name, "is_published");
            assert!(elements.iter().all(|e| !e.flag_link && !e.flag_implicit));
            assert_eq!(fields.len(), 3);
            assert_eq!(fields[0], Some(Value::Uuid(uuid::Uuid::from_u128(42))));
            assert_eq!(fields[1], Some(Value::Str("T".to_string())));
            assert_eq!(fields[2], Some(Value::Bool(false)));
        }
        other => panic!("expected an object value, got {:?}", other),
    }
}

#[test]
fn a_null_scalar_binds_no_driver_value() {
    let data = BlogPostPatchData {
        title: None,
        slug: None,
        is_published: None,
        format: None,
        body: None,
        categories: None,
    };
    let value = data.make_edgedb_object(1, &names_of(vec!["body"]));
    match value {
        Value::Object { shape, fields } => {
            let names: Vec<&str> =
                shape.elements.iter().map(|e| e.name.as_str()).collect();
            assert_eq!(names, vec!["id", "body", "html", "excerpt"]);
            assert_eq!(fields[1], None);
            assert_eq!(fields[2], Some(Value::Str("<p></p>".to_string())));
            assert_eq!(fields[3], Some(Value::Str("".to_string())));
        }
        other => panic!("expected an object value, got {:?}", other),
    }
}

#[test]
fn category_identifiers_bind_as_a_uuid_array() {
    let id_text = "67e55044-10b1-426f-9247-bb680e5fe0c8";
    let parsed = uuid::Uuid::parse_str(id_text).unwrap();
    let data = BlogPostCreateData {
        title: "T".to_string(),
        slug: "t".to_string(),
        is_published: None,
        format: None,
        body: None,
        categories: Some(vec![parsed.as_u128()]),
    };
    let value = data.make_edgedb_object(&names_of(vec!["title", "slug", "categories"]));
    match value {
        Value::Object { shape, fields } => {
            let names: Vec<&str> =
                shape.elements.iter().map(|e| e.name.as_str()).collect();
            assert_eq!(names, vec!["title", "slug", "categories"]);
            assert_eq!(
                shape.elements[2].cardinality,
                Some(edgedb_protocol::common::Cardinality::One)
            );
            assert_eq!(fields[2], Some(Value::Array(vec![Value::Uuid(parsed)])));
        }
        other => panic!("expected an object value, got {:?}", other),
    }
}

#[test]
fn unsubmitted_categories_never_bind_even_when_the_struct_carries_them() {
    let data = BlogPostCreateData {
        title: "T".to_string(),
        slug: "t".to_string(),
        is_published: None,
        format: None,
        body: None,
        categories: Some(vec![7]),
    };
    // "categories" is absent from the submitted names, so neither the SET
    // clause nor the argument object may mention it.
    let submitted = names_of(vec!["title", "slug"]);
    let clause = data.gen_set_clause(&submitted);
    assert_eq!(clause, "title := <str>$title,\n            slug := <str>$slug");
    let m = data.compile_args(&submitted);
    assert!(m.items.iter().all(|it| it.param.name != "categories"));
    match data.make_edgedb_object(&submitted) {
        Value::Object { shape, .. } => {
            assert!(shape.elements.iter().all(|e| e.name != "categories"));
        }
        other => panic!("expected an object value, got {:?}", other),
    }
}

#[test]
fn submitted_null_categories_are_skipped_in_a_create() {
    let data = BlogPostCreateData {
        title: "T".to_string(),
        slug: "t".to_string(),
        is_published: None,
        format: None,
        body: None,
        categories: None,
    };
    let submitted = names_of(vec!["title", "slug", "categories"]);
    let clause = data.gen_set_clause(&submitted);
    assert_eq!(clause, "title := <str>$title,\n            slug := <str>$slug");
}

#[test]
fn shape_elements_carry_the_requested_name_and_cardinality() {
    let e = create_shape_element("title", Cardinality::AtLeastOne);
    assert_eq!(e.name, "title");
    assert_eq!(e.cardinality, Some(edgedb_protocol::common::Cardinality::AtLeastOne));
    assert!(!e.flag_link && !e.flag_link_property && !e.flag_implicit);
}

#[test]
fn an_empty_compiled_mutation_yields_an_empty_object() {
    let m = blogpatch::compiler::CompiledMutation { items: Vec::new() };
    match make_edge_object(&m) {
        Value::Object { shape, fields } => {
            assert_eq!(shape.elements.len(), 0);
            assert_eq!(fields.len(), 0);
        }
        other => panic!("expected an object value, got {:?}", other),
    }
}

#[test]
fn list_response_builders_set_their_fields() {
    let r: ObjectListResponse<u32> = ObjectListResponse::new(vec![1, 2, 3]);
    assert_eq!(r.count, 3);
    assert_eq!(r.objects, vec![1, 2, 3]);
    assert!(r.links.prev.is_none() && r.links.next.is_none());
    let r = r.with_count(40);
    assert_eq!(r.count, 40);
    let r = r.with_next_url("/posts?page=2".to_string());
    assert_eq!(r.links.next.as_deref(), Some("/posts?page=2"));
    let r = r.with_prev_url("/posts?page=1".to_string());
    assert_eq!(r.links.prev.as_deref(), Some("/posts?page=1"));
    assert_eq!(r.links.next.as_deref(), Some("/posts?page=2"));
    let r = r.with_pagination_links(PaginationLinks { prev: None, next: None });
    assert!(r.links.prev.is_none() && r.links.next.is_none());
    let d: ObjectListResponse<u32> = Default::default();
    assert_eq!(d.count, 0);
    assert!(d.objects.is_empty());
}

#[test]
fn error_shapes_build_from_plain_messages_and_field_maps() {
    let e = ApiErrorShape::from("boom".to_string());
    match e.detail {
        ApiErrorDetail::Text(s) => assert_eq!(s, "boom"),
        other => panic!("expected a plain message, got {:?}", other),
    }
    assert!(e.origin.is_none());
    let mut fields = std::collections::HashMap::new();
    fields.insert("slug".to_string(), "required".to_string());
    let e = ApiErrorShape::from(fields.clone());
    match e.detail {
        ApiErrorDetail::FieldMap(m) => assert_eq!(m, fields),
        other => panic!("expected a field map, got {:?}", other),
    }
    let d: ApiErrorShape = Default::default();
    match d.detail {
        ApiErrorDetail::Text(s) => assert_eq!(s, ""),
        other => panic!("expected an empty message, got {:?}", other),
    }
}

#[test]
fn document_formats_read_and_write_their_wire_names() {
    assert_eq!(DocFormat::of_name("Md"), Some(DocFormat::Md));
    assert_eq!(DocFormat::of_name("Rst"), Some(DocFormat::Rst));
    assert_eq!(DocFormat::of_name("md"), None);
    assert_eq!(DocFormat::Md.name(), "Md");
    assert_eq!(DocFormat::from_raw(&RawValue::Str("Rst".to_string())), DocFormat::Rst);
    assert_eq!(DocFormat::from_raw(&RawValue::Str("Tex".to_string())), DocFormat::Md);
    assert_eq!(DocFormat::from_raw(&RawValue::Bool(true)), DocFormat::Md);
}

#[test]
fn blank_posts_carry_the_given_creation_time() {
    let p = RawBlogPost::empty_at(1_234_567);
    assert_eq!(p.created_at, 1_234_567);
    assert_eq!(p.is_published, Some(false));
    assert!(p.title.is_empty() && p.slug.is_empty() && p.categories.is_empty());
    let d = DetailedBlogPost::empty_at(99);
    assert_eq!(d.created_at, 99);
    assert_eq!(d.format, DocFormat::Md);
    assert!(d.body.is_none() && d.html.is_none() && d.excerpt.is_none());
}

#[test]
fn type_cast_tables_match_the_field_kinds() {
    assert_eq!(RawBlogPost::type_cast_for_field("title"), "str");
    assert_eq!(RawBlogPost::type_cast_for_field("is_published"), "bool");
    assert_eq!(RawBlogPost::type_cast_for_field("published_at"), "optional datetime");
    assert_eq!(RawBlogPost::type_cast_for_field("anything"), "json");
    assert_eq!(DetailedBlogPost::type_cast_for_field("format"), "DocFormat");
    assert_eq!(DetailedBlogPost::type_cast_for_field("is_published"), "bool");
    assert_eq!(DetailedBlogPost::type_cast_for_field("og_image"), "str");
}
