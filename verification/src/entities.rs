//! The per-entity payload types: typed create/patch data for posts and
//! categories. They are thin fronts over the generic compiler — each one
//! turns its typed fields into per-field slots and lets the descriptor
//! table drive the emission, so no per-entity fragment logic exists.

use vstd::prelude::*;
use crate::values::{Cardinality, DocFormat, FieldValue, ValueModel};
use crate::compiler::{BoundParam, CompileMode, CompiledMutation, ItemModel, MutationItem,
    assign_fragment, derive_item, derive_items, emit_field, emit_slots_spec, emit_slots_into,
    field_item, id_item, item_fragments, push_id_item};
use crate::derives::{derive_source_text, excerpt_of, html_of};
use crate::document::contains_name;
use crate::tables::{category_schema, category_schema_model, post_schema, post_schema_model};
use crate::text::join_with;
use crate::edge::make_edge_object;
use edgedb_protocol::value::Value;

verus! {

/// The separator between a patch's fragments in the statement text.
pub open spec fn patch_separator() -> Seq<char> {
    ",\n        "@
}

/// The separator between a create's fragments in the statement text.
pub open spec fn create_separator() -> Seq<char> {
    ",\n            "@
}

/// The slot of an optional text field: a missing value is an explicit null.
pub open spec fn text_slot(o: Option<String>) -> ValueModel {
    match o {
        Some(s) => ValueModel::Str(s@),
        None => ValueModel::Absent,
    }
}

/// The slot of an optional boolean field.
pub open spec fn flag_slot(o: Option<bool>) -> ValueModel {
    match o {
        Some(b) => ValueModel::Bool(b),
        None => ValueModel::Absent,
    }
}

/// The slot of an optional format field.
pub open spec fn format_slot(o: Option<DocFormat>) -> ValueModel {
    match o {
        Some(f) => ValueModel::Enum(f.name_spec()),
        None => ValueModel::Absent,
    }
}

/// The slot of an optional identifier-list field.
pub open spec fn links_slot(o: Option<Vec<u128>>) -> ValueModel {
    match o {
        Some(cs) => ValueModel::UuidList(cs@),
        None => ValueModel::Absent,
    }
}

fn text_field(o: &Option<String>) -> (r: FieldValue)
    ensures
        r@ == text_slot(*o),
{
    match o {
        Some(s) => FieldValue::Str(s.clone()),
        None => FieldValue::Absent,
    }
}

fn flag_field(o: &Option<bool>) -> (r: FieldValue)
    ensures
        r@ == flag_slot(*o),
{
    match o {
        Some(b) => FieldValue::Bool(*b),
        None => FieldValue::Absent,
    }
}

fn format_field(o: &Option<DocFormat>) -> (r: FieldValue)
    ensures
        r@ == format_slot(*o),
{
    match o {
        Some(f) => FieldValue::Enum(String::from_str(f.name())),
        None => FieldValue::Absent,
    }
}

fn copy_ids(v: &Vec<u128>) -> (r: Vec<u128>)
    ensures
        r@ == v@,
{
    let mut r: Vec<u128> = Vec::new();
    let mut i: usize = 0;
    while i < v.len()
        invariant
            i <= v.len(),
            r@ =~= v@.take(i as int),
        decreases v.len() - i,
    {
        r.push(v[i]);
        proof {
            assert(r@ =~= v@.take(i + 1));
        }
        i = i + 1;
    }
    proof {
        assert(v@.take(v.len() as int) =~= v@);
    }
    r
}

fn links_field(o: &Option<Vec<u128>>) -> (r: FieldValue)
    ensures
        r@ == links_slot(*o),
{
    match o {
        Some(cs) => FieldValue::UuidList(copy_ids(cs)),
        None => FieldValue::Absent,
    }
}

/// A partial update of a post: every field optional, with a supplied null
/// kept apart from an absent field by the accompanying presence set.
#[derive(Debug)]
pub struct BlogPostPatchData {
    pub title: Option<String>,
    pub slug: Option<String>,
    pub is_published: Option<bool>,
    pub format: Option<DocFormat>,
    pub body: Option<String>,
    pub categories: Option<Vec<u128>>,
}

impl BlogPostPatchData {
    /// The per-field slots of this patch: one entry per post field, filled
    /// exactly for the names the caller submitted.
    pub open spec fn slots(self, submitted: Seq<Seq<char>>) -> Seq<Option<ValueModel>> {
        seq![
            if submitted.contains("title"@) {
                Some(text_slot(self.title))
            } else {
                None
            },
            if submitted.contains("slug"@) {
                Some(text_slot(self.slug))
            } else {
                None
            },
            if submitted.contains("is_published"@) {
                Some(flag_slot(self.is_published))
            } else {
                None
            },
            if submitted.contains("format"@) {
                Some(format_slot(self.format))
            } else {
                None
            },
            if submitted.contains("body"@) {
                Some(text_slot(self.body))
            } else {
                None
            },
            if submitted.contains("categories"@) {
                Some(links_slot(self.categories))
            } else {
                None
            },
        ]
    }

    /// The pairs this patch emits, in schema order. Emission never reads a
    /// patch's target identifier, so the mode carries a placeholder.
    pub open spec fn items(self, submitted: Seq<Seq<char>>) -> Seq<ItemModel> {
        emit_slots_spec(
            CompileMode::Patch { target: 0 },
            post_schema_model(),
            self.slots(submitted),
        )
    }

    fn build_slots(&self, submitted: &Vec<String>) -> (r: Vec<Option<FieldValue>>)
        ensures
            r.deep_view() =~= (*self).slots(submitted.deep_view()),
    {
        let mut r: Vec<Option<FieldValue>> = Vec::new();
        if contains_name(submitted, "title") {
            r.push(Some(text_field(&self.title)));
        } else {
            r.push(None);
        }
        if contains_name(submitted, "slug") {
            r.push(Some(text_field(&self.slug)));
        } else {
            r.push(None);
        }
        if contains_name(submitted, "is_published") {
            r.push(Some(flag_field(&self.is_published)));
        } else {
            r.push(None);
        }
        if contains_name(submitted, "format") {
            r.push(Some(format_field(&self.format)));
        } else {
            r.push(None);
        }
        if contains_name(submitted, "body") {
            r.push(Some(text_field(&self.body)));
        } else {
            r.push(None);
        }
        if contains_name(submitted, "categories") {
            r.push(Some(links_field(&self.categories)));
        } else {
            r.push(None);
        }
        proof {
            let target = (*self).slots(submitted.deep_view());
            assert forall|k: int| 0 <= k < r.deep_view().len() implies r.deep_view()[k]
                == target[k] by {
                assert(r.deep_view()[k] == r@[k].deep_view());
            }
            assert(r.deep_view() =~= target);
        }
        r
    }

    /// Generate the SET-clause text for exactly the fields the caller
    /// submitted, in schema order, derived fields expanded in place.
    pub fn gen_set_clause(&self, submitted_fields: &Vec<String>) -> (r: String)
        ensures
            r@ == join_with(
                item_fragments((*self).items(submitted_fields.deep_view())),
                patch_separator(),
            ),
    {
        let schema = post_schema();
        let slots = self.build_slots(submitted_fields);
        let mut items: Vec<MutationItem> = Vec::new();
        emit_slots_into(&mut items, CompileMode::Patch { target: 0 }, &schema, slots);
        let m = CompiledMutation { items };
        m.set_clause(",\n        ")
    }

    /// The compiled argument list of this patch: the target's
    /// identifier-equality pair first, then each submitted field's pairs.
    pub fn compile_args(&self, post_id: u128, submitted_fields: &Vec<String>) -> (m:
        CompiledMutation)
        ensures
            m@ =~= seq![id_item(post_id)] + (*self).items(submitted_fields.deep_view()),
    {
        let schema = post_schema();
        let slots = self.build_slots(submitted_fields);
        let mut items: Vec<MutationItem> = Vec::new();
        push_id_item(&mut items, post_id);
        emit_slots_into(&mut items, CompileMode::Patch { target: 0 }, &schema, slots);
        CompiledMutation { items }
    }

    /// The driver's named-argument object for this patch.
    pub fn make_edgedb_object(&self, post_id: u128, submitted_fields: &Vec<String>) -> Value {
        let m = self.compile_args(post_id, submitted_fields);
        make_edge_object(&m)
    }
}

/// A patch that supplies exactly the body field expands atomically: it
/// emits the body pair and then, immediately after it and in declared
/// order, the rendered-output pair and the excerpt pair, both derived
/// deterministically from the supplied text — and nothing else. Through
/// `compile_args`, which prepends the identifier pair, the bound names are
/// therefore exactly `id`, `body`, `html`, `excerpt`, in that order.
pub proof fn lemma_patch_body_expansion(data: BlogPostPatchData, b: String)
    requires
        data.body == Some(b),
    ensures
        ({
            let items = data.items(seq!["body"@]);
            &&& items.len() == 3
            &&& items[0].fragment == assign_fragment("body"@, "optional str"@)
            &&& items[0].param.name == "body"@
            &&& items[0].param.value == ValueModel::Str(b@)
            &&& items[1].fragment == assign_fragment("html"@, "optional str"@)
            &&& items[1].param.name == "html"@
            &&& items[1].param.value == ValueModel::Str(html_of(b@))
            &&& items[2].fragment == assign_fragment("excerpt"@, "optional str"@)
            &&& items[2].param.name == "excerpt"@
            &&& items[2].param.value == ValueModel::Str(excerpt_of(b@))
        }),
{
    crate::tables::reveal_table_names();
    reveal_strlit("optional ");
    reveal_strlit("optional str");
    reveal_strlit("str");
    assert("optional str"@ =~= "optional "@ + "str"@);
    let m = CompileMode::Patch { target: 0 };
    let submitted = seq!["body"@];
    assert(submitted[0] == "body"@);
    assert(submitted.contains("body"@)) by {
        assert(submitted[0] == "body"@);
    }
    assert forall|x: Seq<char>| x != "body"@ implies !submitted.contains(x) by {
        assert forall|i: int| 0 <= i < submitted.len() implies submitted[i] != x by {
            assert(submitted[i] == "body"@);
        }
    }
    assert(!submitted.contains("title"@));
    assert(!submitted.contains("slug"@));
    assert(!submitted.contains("is_published"@));
    assert(!submitted.contains("format"@));
    assert(!submitted.contains("categories"@));
    let slots = data.slots(submitted);
    assert(slots =~= seq![
        None,
        None,
        None,
        None,
        Some(ValueModel::Str(b@)),
        None::<ValueModel>,
    ]);
    let s = post_schema_model();
    let body_desc = s[4];
    let body_seg = emit_field(m, body_desc, ValueModel::Str(b@));

    // Peel the six fields off the emission pass: only the body slot is
    // filled, so only its segment survives.
    let s5 = s.drop_last();
    let l5 = slots.drop_last();
    assert(emit_slots_spec(m, s, slots) =~= emit_slots_spec(m, s5, l5));
    let s4 = s5.drop_last();
    let l4 = l5.drop_last();
    assert(l5.last() == Some(ValueModel::Str(b@)));
    assert(s5.last() == body_desc);
    assert(emit_slots_spec(m, s5, l5) =~= emit_slots_spec(m, s4, l4) + body_seg);
    let s3 = s4.drop_last();
    let l3 = l4.drop_last();
    assert(l4.last() is None);
    assert(emit_slots_spec(m, s4, l4) =~= emit_slots_spec(m, s3, l3));
    let s2 = s3.drop_last();
    let l2 = l3.drop_last();
    assert(l3.last() is None);
    assert(emit_slots_spec(m, s3, l3) =~= emit_slots_spec(m, s2, l2));
    let s1 = s2.drop_last();
    let l1 = l2.drop_last();
    assert(l2.last() is None);
    assert(emit_slots_spec(m, s2, l2) =~= emit_slots_spec(m, s1, l1));
    assert(l1.last() is None);
    assert(emit_slots_spec(m, s1, l1) =~= emit_slots_spec(m, s1.drop_last(), l1.drop_last()));
    assert(s1.drop_last().len() == 0);
    assert(data.items(submitted) =~= body_seg);

    // The body segment itself: the field pair, then the two derived pairs.
    let src = derive_source_text(ValueModel::Str(b@));
    assert(src == b@);
    assert(body_seg =~= seq![field_item(m, body_desc, ValueModel::Str(b@))] + derive_items(
        body_desc.derives,
        src,
    ));
    assert(body_seg.len() == 3);
    assert(body_seg[0] == field_item(m, body_desc, ValueModel::Str(b@)));
    assert(body_seg[1] == derive_item(body_desc.derives[0], src));
    assert(body_seg[2] == derive_item(body_desc.derives[1], src));
    assert(body_seg[0].fragment == assign_fragment("body"@, "optional "@ + "str"@));
    assert(body_seg[1].fragment == assign_fragment("html"@, "optional "@ + "str"@));
    assert(body_seg[2].fragment == assign_fragment("excerpt"@, "optional "@ + "str"@));
}

/// A partial update of a category.
#[derive(Debug)]
pub struct BlogCategoryPatchData {
    pub title: Option<String>,
    pub slug: Option<String>,
}

impl BlogCategoryPatchData {
    /// The per-field slots of this patch.
    pub open spec fn slots(self, submitted: Seq<Seq<char>>) -> Seq<Option<ValueModel>> {
        seq![
            if submitted.contains("title"@) {
                Some(text_slot(self.title))
            } else {
                None
            },
            if submitted.contains("slug"@) {
                Some(text_slot(self.slug))
            } else {
                None
            },
        ]
    }

    /// The pairs this patch emits, in schema order.
    pub open spec fn items(self, submitted: Seq<Seq<char>>) -> Seq<ItemModel> {
        emit_slots_spec(
            CompileMode::Patch { target: 0 },
            category_schema_model(),
            self.slots(submitted),
        )
    }

    /// Generate the SET-clause text for exactly the fields the caller
    /// submitted.
    pub fn gen_set_clause(&self, submitted_fields: &Vec<String>) -> (r: String)
        ensures
            r@ == join_with(
                item_fragments((*self).items(submitted_fields.deep_view())),
                patch_separator(),
            ),
    {
        let schema = category_schema();
        let mut slots: Vec<Option<FieldValue>> = Vec::new();
        if contains_name(submitted_fields, "title") {
            slots.push(Some(text_field(&self.title)));
        } else {
            slots.push(None);
        }
        if contains_name(submitted_fields, "slug") {
            slots.push(Some(text_field(&self.slug)));
        } else {
            slots.push(None);
        }
        proof {
            let target = (*self).slots(submitted_fields.deep_view());
            assert forall|k: int| 0 <= k < slots.deep_view().len() implies slots.deep_view()[k]
                == target[k] by {
                assert(slots.deep_view()[k] == slots@[k].deep_view());
            }
            assert(slots.deep_view() =~= target);
        }
        let mut items: Vec<MutationItem> = Vec::new();
        emit_slots_into(&mut items, CompileMode::Patch { target: 0 }, &schema, slots);
        let m = CompiledMutation { items };
        m.set_clause(",\n        ")
    }
}

/// The payload creating a post: title and slug are mandatory, everything
/// else optional.
#[derive(Debug)]
pub struct BlogPostCreateData {
    pub title: String,
    pub slug: String,
    pub is_published: Option<bool>,
    pub format: Option<DocFormat>,
    pub body: Option<String>,
    pub categories: Option<Vec<u128>>,
}

impl BlogPostCreateData {
    pub fn new(title: String, slug: String) -> (r: BlogPostCreateData)
        ensures
            r.title == title,
            r.slug == slug,
            r.is_published is None,
            r.format is None,
            r.body is None,
            r.categories is None,
    {
        BlogPostCreateData {
            title,
            slug,
            is_published: None,
            format: None,
            body: None,
            categories: None,
        }
    }

    /// The per-field slots of this create: the mandatory fields always
    /// bind; every optional field — the categories included — binds only
    /// when the caller submitted its name, so a name absent from the
    /// payload never reaches the emission pass. (A submitted-but-null
    /// categories list is dropped there, like any null relationship.)
    pub open spec fn slots(self, submitted: Seq<Seq<char>>) -> Seq<Option<ValueModel>> {
        seq![
            Some(ValueModel::Str(self.title@)),
            Some(ValueModel::Str(self.slug@)),
            if submitted.contains("is_published"@) {
                Some(flag_slot(self.is_published))
            } else {
                None
            },
            if submitted.contains("format"@) {
                Some(format_slot(self.format))
            } else {
                None
            },
            if submitted.contains("body"@) {
                Some(text_slot(self.body))
            } else {
                None
            },
            if submitted.contains("categories"@) {
                Some(links_slot(self.categories))
            } else {
                None
            },
        ]
    }

    /// The pairs this create emits, in schema order.
    pub open spec fn items(self, submitted: Seq<Seq<char>>) -> Seq<ItemModel> {
        emit_slots_spec(CompileMode::Create, post_schema_model(), self.slots(submitted))
    }

    fn build_slots(&self, submitted: &Vec<String>) -> (r: Vec<Option<FieldValue>>)
        ensures
            r.deep_view() =~= (*self).slots(submitted.deep_view()),
    {
        let mut r: Vec<Option<FieldValue>> = Vec::new();
        r.push(Some(FieldValue::Str(self.title.clone())));
        r.push(Some(FieldValue::Str(self.slug.clone())));
        if contains_name(submitted, "is_published") {
            r.push(Some(flag_field(&self.is_published)));
        } else {
            r.push(None);
        }
        if contains_name(submitted, "format") {
            r.push(Some(format_field(&self.format)));
        } else {
            r.push(None);
        }
        if contains_name(submitted, "body") {
            r.push(Some(text_field(&self.body)));
        } else {
            r.push(None);
        }
        if contains_name(submitted, "categories") {
            r.push(Some(links_field(&self.categories)));
        } else {
            r.push(None);
        }
        proof {
            let target = (*self).slots(submitted.deep_view());
            assert forall|k: int| 0 <= k < r.deep_view().len() implies r.deep_view()[k]
                == target[k] by {
                assert(r.deep_view()[k] == r@[k].deep_view());
            }
            assert(r.deep_view() =~= target);
        }
        r
    }

    /// Generate the SET-clause text of this create: the mandatory fields,
    /// the submitted optional fields, and the derived fields in place.
    pub fn gen_set_clause(&self, submitted_fields: &Vec<String>) -> (r: String)
        ensures
            r@ == join_with(
                item_fragments((*self).items(submitted_fields.deep_view())),
                create_separator(),
            ),
    {
        let schema = post_schema();
        let slots = self.build_slots(submitted_fields);
        let mut items: Vec<MutationItem> = Vec::new();
        emit_slots_into(&mut items, CompileMode::Create, &schema, slots);
        let m = CompiledMutation { items };
        m.set_clause(",\n            ")
    }

    /// The compiled argument list of this create.
    pub fn compile_args(&self, submitted_fields: &Vec<String>) -> (m: CompiledMutation)
        ensures
            m@ =~= (*self).items(submitted_fields.deep_view()),
    {
        let schema = post_schema();
        let slots = self.build_slots(submitted_fields);
        let mut items: Vec<MutationItem> = Vec::new();
        emit_slots_into(&mut items, CompileMode::Create, &schema, slots);
        CompiledMutation { items }
    }

    /// The driver's named-argument object for this create.
    pub fn make_edgedb_object(&self, submitted_fields: &Vec<String>) -> Value {
        let m = self.compile_args(submitted_fields);
        make_edge_object(&m)
    }
}

} // verus!
