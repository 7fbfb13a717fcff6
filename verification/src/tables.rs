//! The concrete field descriptor tables of the two entity types: posts and
//! categories.

use vstd::prelude::*;
use crate::values::Cardinality;
use crate::derives::DeriveKind;
use crate::schema::{DescModel, DeriveModel, DeriveRule, EntitySchema, FieldDescriptor, FieldKind,
    distinct_names, field_names, schema_wf};

verus! {

/// The post schema's field table: title and slug are required; the body
/// carries two derived fields (the rendered output and the excerpt); the
/// categories are a relationship to the category entity.
pub open spec fn post_schema_model() -> Seq<DescModel> {
    seq![
        DescModel {
            name: "title"@,
            kind: FieldKind::Text,
            base_annotation: "str"@,
            cardinality: Cardinality::One,
            is_link: false,
            link_target: Seq::empty(),
            derives: Seq::empty(),
        },
        DescModel {
            name: "slug"@,
            kind: FieldKind::Text,
            base_annotation: "str"@,
            cardinality: Cardinality::One,
            is_link: false,
            link_target: Seq::empty(),
            derives: Seq::empty(),
        },
        DescModel {
            name: "is_published"@,
            kind: FieldKind::Flag,
            base_annotation: "bool"@,
            cardinality: Cardinality::AtMostOne,
            is_link: false,
            link_target: Seq::empty(),
            derives: Seq::empty(),
        },
        DescModel {
            name: "format"@,
            kind: FieldKind::Format,
            base_annotation: "DocFormat"@,
            cardinality: Cardinality::AtMostOne,
            is_link: false,
            link_target: Seq::empty(),
            derives: Seq::empty(),
        },
        DescModel {
            name: "body"@,
            kind: FieldKind::Text,
            base_annotation: "str"@,
            cardinality: Cardinality::AtMostOne,
            is_link: false,
            link_target: Seq::empty(),
            derives: seq![
                DeriveModel {
                    name: "html"@,
                    base_annotation: "str"@,
                    kind: DeriveKind::RenderedHtml,
                },
                DeriveModel {
                    name: "excerpt"@,
                    base_annotation: "str"@,
                    kind: DeriveKind::Excerpt,
                },
            ],
        },
        DescModel {
            name: "categories"@,
            kind: FieldKind::LinkList,
            base_annotation: "array<uuid>"@,
            cardinality: Cardinality::AtLeastOne,
            is_link: true,
            link_target: "BlogCategory"@,
            derives: Seq::empty(),
        },
    ]
}

/// The category schema's field table.
pub open spec fn category_schema_model() -> Seq<DescModel> {
    seq![
        DescModel {
            name: "title"@,
            kind: FieldKind::Text,
            base_annotation: "str"@,
            cardinality: Cardinality::One,
            is_link: false,
            link_target: Seq::empty(),
            derives: Seq::empty(),
        },
        DescModel {
            name: "slug"@,
            kind: FieldKind::Text,
            base_annotation: "str"@,
            cardinality: Cardinality::One,
            is_link: false,
            link_target: Seq::empty(),
            derives: Seq::empty(),
        },
    ]
}

pub(crate) proof fn reveal_table_names()
    ensures
        "title"@ != "slug"@ && "title"@ != "is_published"@ && "title"@ != "format"@ && "title"@
            != "body"@ && "title"@ != "html"@ && "title"@ != "excerpt"@ && "title"@
            != "categories"@ && "title"@ != "id"@,
        "slug"@ != "is_published"@ && "slug"@ != "format"@ && "slug"@ != "body"@ && "slug"@
            != "html"@ && "slug"@ != "excerpt"@ && "slug"@ != "categories"@ && "slug"@ != "id"@,
        "is_published"@ != "format"@ && "is_published"@ != "body"@ && "is_published"@ != "html"@
            && "is_published"@ != "excerpt"@ && "is_published"@ != "categories"@
            && "is_published"@ != "id"@,
        "format"@ != "body"@ && "format"@ != "html"@ && "format"@ != "excerpt"@ && "format"@
            != "categories"@ && "format"@ != "id"@,
        "body"@ != "html"@ && "body"@ != "excerpt"@ && "body"@ != "categories"@ && "body"@
            != "id"@,
        "html"@ != "excerpt"@ && "html"@ != "categories"@ && "html"@ != "id"@,
        "excerpt"@ != "categories"@ && "excerpt"@ != "id"@,
        "categories"@ != "id"@,
{
    reveal_strlit("title");
    reveal_strlit("slug");
    reveal_strlit("is_published");
    reveal_strlit("format");
    reveal_strlit("body");
    reveal_strlit("html");
    reveal_strlit("excerpt");
    reveal_strlit("categories");
    reveal_strlit("id");
    assert("title"@.len() == 5);
    assert("slug"@.len() == 4);
    assert("is_published"@.len() == 12);
    assert("format"@.len() == 6);
    assert("body"@.len() == 4);
    assert("html"@.len() == 4);
    assert("excerpt"@.len() == 7);
    assert("categories"@.len() == 10);
    assert("id"@.len() == 2);
    assert("slug"@[0] != "body"@[0]);
    assert("slug"@[0] != "html"@[0]);
    assert("body"@[0] != "html"@[0]);
}

/// The name lists of the post schema's fields, spelled out.
proof fn lemma_post_field_names()
    ensures
        field_names(post_schema_model()[0]) =~= seq!["title"@],
        field_names(post_schema_model()[1]) =~= seq!["slug"@],
        field_names(post_schema_model()[2]) =~= seq!["is_published"@],
        field_names(post_schema_model()[3]) =~= seq!["format"@],
        field_names(post_schema_model()[4]) =~= seq!["body"@, "html"@, "excerpt"@],
        field_names(post_schema_model()[5]) =~= seq!["categories"@],
{
}

/// The post schema is well formed: its wire names are pairwise distinct
/// and none is the reserved identifier name.
pub proof fn lemma_post_schema_wf()
    ensures
        schema_wf(post_schema_model()),
{
    let s = post_schema_model();
    reveal_table_names();
    lemma_post_field_names();
    let all = seq![
        seq!["title"@],
        seq!["slug"@],
        seq!["is_published"@],
        seq!["format"@],
        seq!["body"@, "html"@, "excerpt"@],
        seq!["categories"@],
    ];
    assert forall|j: int| 0 <= j < s.len() implies !(#[trigger] field_names(s[j])).contains(
        "id"@,
    ) && distinct_names(field_names(s[j])) by {
        assert(field_names(s[j]) =~= all[j]);
    }
    assert forall|i: int, j: int, x: Seq<char>|
        0 <= i < s.len() && 0 <= j < s.len() && i != j && #[trigger] field_names(s[i]).contains(
            x,
        ) implies !(#[trigger] field_names(s[j]).contains(x)) by {
        assert(field_names(s[i]) =~= all[i]);
        assert(field_names(s[j]) =~= all[j]);
        let ki = choose|ki: int|
            0 <= ki < field_names(s[i]).len() && field_names(s[i])[ki] == x;
        assert(all[i][ki] == x);
    }
}

/// The category schema is well formed.
pub proof fn lemma_category_schema_wf()
    ensures
        schema_wf(category_schema_model()),
{
    let s = category_schema_model();
    reveal_table_names();
    assert forall|j: int| 0 <= j < s.len() implies !(#[trigger] field_names(s[j])).contains(
        "id"@,
    ) && distinct_names(field_names(s[j])) by {
        assert(field_names(s[0]) =~= seq!["title"@]);
        assert(field_names(s[1]) =~= seq!["slug"@]);
    }
    assert forall|i: int, j: int, x: Seq<char>|
        0 <= i < s.len() && 0 <= j < s.len() && i != j && #[trigger] field_names(s[i]).contains(
            x,
        ) implies !(#[trigger] field_names(s[j]).contains(x)) by {
        assert(field_names(s[0]) =~= seq!["title"@]);
        assert(field_names(s[1]) =~= seq!["slug"@]);
    }
}

fn scalar_field(name: &str, kind: FieldKind, base: &str, cardinality: Cardinality) -> (r:
    FieldDescriptor)
    ensures
        r@ =~= (DescModel {
            name: name@,
            kind,
            base_annotation: base@,
            cardinality,
            is_link: false,
            link_target: Seq::empty(),
            derives: Seq::empty(),
        }),
{
    let r = FieldDescriptor {
        name: String::from_str(name),
        kind,
        base_annotation: String::from_str(base),
        cardinality,
        is_link: false,
        link_target: String::new(),
        derives: Vec::new(),
    };
    proof {
        assert(r@.derives =~= Seq::<DeriveModel>::empty());
    }
    r
}

/// Build the post schema's descriptor table.
pub fn post_schema() -> (s: EntitySchema)
    ensures
        s@ == post_schema_model(),
        schema_wf(s@),
{
    let mut fields: Vec<FieldDescriptor> = Vec::new();
    fields.push(scalar_field("title", FieldKind::Text, "str", Cardinality::One));
    fields.push(scalar_field("slug", FieldKind::Text, "str", Cardinality::One));
    fields.push(scalar_field("is_published", FieldKind::Flag, "bool", Cardinality::AtMostOne));
    fields.push(scalar_field("format", FieldKind::Format, "DocFormat", Cardinality::AtMostOne));
    let mut body_derives: Vec<DeriveRule> = Vec::new();
    body_derives.push(DeriveRule {
        name: String::from_str("html"),
        base_annotation: String::from_str("str"),
        kind: DeriveKind::RenderedHtml,
    });
    body_derives.push(DeriveRule {
        name: String::from_str("excerpt"),
        base_annotation: String::from_str("str"),
        kind: DeriveKind::Excerpt,
    });
    let body = FieldDescriptor {
        name: String::from_str("body"),
        kind: FieldKind::Text,
        base_annotation: String::from_str("str"),
        cardinality: Cardinality::AtMostOne,
        is_link: false,
        link_target: String::new(),
        derives: body_derives,
    };
    proof {
        assert(body@.derives =~= post_schema_model()[4].derives);
        assert(body@ =~= post_schema_model()[4]);
    }
    fields.push(body);
    let categories = FieldDescriptor {
        name: String::from_str("categories"),
        kind: FieldKind::LinkList,
        base_annotation: String::from_str("array<uuid>"),
        cardinality: Cardinality::AtLeastOne,
        is_link: true,
        link_target: String::from_str("BlogCategory"),
        derives: Vec::new(),
    };
    proof {
        assert(categories@ =~= post_schema_model()[5]);
    }
    fields.push(categories);
    let s = EntitySchema { fields };
    proof {
        assert(s@ =~= post_schema_model());
        lemma_post_schema_wf();
    }
    s
}

/// Build the category schema's descriptor table.
pub fn category_schema() -> (s: EntitySchema)
    ensures
        s@ == category_schema_model(),
        schema_wf(s@),
{
    let mut fields: Vec<FieldDescriptor> = Vec::new();
    fields.push(scalar_field("title", FieldKind::Text, "str", Cardinality::One));
    fields.push(scalar_field("slug", FieldKind::Text, "str", Cardinality::One));
    let s = EntitySchema { fields };
    proof {
        assert(s@ =~= category_schema_model());
        lemma_category_schema_wf();
    }
    s
}

} // verus!
