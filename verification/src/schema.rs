//! The field descriptor table: static, per-entity metadata driving the
//! mutation compiler. Each descriptor gives a field's wire name, decode
//! rule, database type annotation, cardinality, link-ness and derived
//! fields; an entity schema is the ordered list of its descriptors.

use vstd::prelude::*;
use crate::values::Cardinality;
use crate::derives::DeriveKind;

verus! {

/// The decode rule of a field: which raw shapes it accepts and what decoded
/// value they become.
#[derive(Clone, Copy, Debug, PartialEq, Eq, Structural)]
pub enum FieldKind {
    /// A text field: accepts a string or null.
    Text,
    /// A boolean field: accepts a boolean or null.
    Flag,
    /// A document format: accepts one of the known format names, or null.
    Format,
    /// A set of linked identifiers: accepts a list of identifier strings, or
    /// null.
    LinkList,
}

/// One derived field: its wire name, its base database type annotation, and
/// the rule computing its value from the source field's value.
#[derive(Debug, Clone)]
pub struct DeriveRule {
    pub name: String,
    pub base_annotation: String,
    pub kind: DeriveKind,
}

/// The mathematical shape of a `DeriveRule`.
#[verifier::ext_equal]
pub ghost struct DeriveModel {
    pub name: Seq<char>,
    pub base_annotation: Seq<char>,
    pub kind: DeriveKind,
}

impl View for DeriveRule {
    type V = DeriveModel;

    open spec fn view(&self) -> DeriveModel {
        DeriveModel { name: self.name@, base_annotation: self.base_annotation@, kind: self.kind }
    }
}

impl DeepView for DeriveRule {
    type V = DeriveModel;

    open spec fn deep_view(&self) -> DeriveModel {
        self.view()
    }
}

/// Static metadata describing one entity attribute: wire name, decode rule,
/// base database type annotation (without any `optional` prefix), its
/// cardinality, whether it is a relationship resolved by a sub-query, the
/// linked entity's type name (empty for non-links), and its derived fields.
#[derive(Debug, Clone)]
pub struct FieldDescriptor {
    pub name: String,
    pub kind: FieldKind,
    pub base_annotation: String,
    pub cardinality: Cardinality,
    pub is_link: bool,
    pub link_target: String,
    pub derives: Vec<DeriveRule>,
}

/// The mathematical shape of a `FieldDescriptor`.
#[verifier::ext_equal]
pub ghost struct DescModel {
    pub name: Seq<char>,
    pub kind: FieldKind,
    pub base_annotation: Seq<char>,
    pub cardinality: Cardinality,
    pub is_link: bool,
    pub link_target: Seq<char>,
    pub derives: Seq<DeriveModel>,
}

impl View for FieldDescriptor {
    type V = DescModel;

    open spec fn view(&self) -> DescModel {
        DescModel {
            name: self.name@,
            kind: self.kind,
            base_annotation: self.base_annotation@,
            cardinality: self.cardinality,
            is_link: self.is_link,
            link_target: self.link_target@,
            derives: self.derives.deep_view(),
        }
    }
}

impl DeepView for FieldDescriptor {
    type V = DescModel;

    open spec fn deep_view(&self) -> DescModel {
        self.view()
    }
}

/// A field is required exactly when its cardinality demands one value.
pub open spec fn is_required(d: DescModel) -> bool {
    d.cardinality is One
}

/// One entity's schema: the ordered list of its field descriptors.
#[derive(Debug, Clone)]
pub struct EntitySchema {
    pub fields: Vec<FieldDescriptor>,
}

impl View for EntitySchema {
    type V = Seq<DescModel>;

    open spec fn view(&self) -> Seq<DescModel> {
        self.fields.deep_view()
    }
}

/// The wire names a field contributes to a compiled mutation: its own,
/// then its derived fields' names in declared order.
pub open spec fn field_names(d: DescModel) -> Seq<Seq<char>> {
    seq![d.name] + d.derives.map(|i: int, dr: DeriveModel| dr.name)
}

pub open spec fn distinct_names(ns: Seq<Seq<char>>) -> bool {
    forall|i: int, j: int| 0 <= i < j < ns.len() ==> ns[i] != ns[j]
}

/// A well-formed schema: every wire name (field or derived) occurs exactly
/// once across the whole schema, and none collides with the reserved
/// identifier parameter name.
pub open spec fn schema_wf(s: Seq<DescModel>) -> bool {
    &&& forall|j: int|
        0 <= j < s.len() ==> !(#[trigger] field_names(s[j])).contains("id"@)
    &&& forall|j: int| 0 <= j < s.len() ==> distinct_names(#[trigger] field_names(s[j]))
    &&& forall|i: int, j: int, x: Seq<char>|
        #![trigger field_names(s[i]).contains(x), field_names(s[j]).contains(x)]
        0 <= i < s.len() && 0 <= j < s.len() && i != j && field_names(s[i]).contains(x)
            ==> !field_names(s[j]).contains(x)
}

} // verus!
