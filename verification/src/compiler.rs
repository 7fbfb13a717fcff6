//! The mutation compiler: a single deterministic pass over an entity
//! schema's field descriptors that turns a caller's patch document into an
//! ordered sequence of assignment-fragment / typed-parameter pairs, with
//! derived fields expanded atomically after their source field.

use vstd::prelude::*;
use crate::values::{Cardinality, DocFormat, DecodeErrorKind, FieldValue, RawValue, RawModel,
    ValueModel};
use crate::schema::{DescModel, DeriveModel, EntitySchema, FieldDescriptor, FieldKind, is_required};
use crate::derives::{apply_derive, apply_derive_spec, derive_source_text};
use crate::document::{DocModel, PatchDocument, doc_has, doc_keys, doc_value, doc_wf};
use crate::document::contains_name;
use crate::edge::{parse_uuid, parsed_uuid};
use crate::text::{join_with, join_strings};

verus! {

/// Whether the mutation creates a fresh entity or patches an existing one;
/// a patch carries the target entity's identifier.
#[derive(Clone, Copy, Debug, PartialEq, Eq, Structural)]
pub enum CompileMode {
    Create,
    Patch { target: u128 },
}

/// One typed parameter binding: the wire name, the cardinality and link-ness
/// the driver validates at the protocol level, and the decoded value.
#[derive(Debug, Clone, PartialEq, Eq)]
pub struct BoundParam {
    pub name: String,
    pub cardinality: Cardinality,
    pub is_link: bool,
    pub value: FieldValue,
}

/// The mathematical shape of a `BoundParam`.
#[verifier::ext_equal]
pub ghost struct ParamModel {
    pub name: Seq<char>,
    pub cardinality: Cardinality,
    pub is_link: bool,
    pub value: ValueModel,
}

impl View for BoundParam {
    type V = ParamModel;

    open spec fn view(&self) -> ParamModel {
        ParamModel {
            name: self.name@,
            cardinality: self.cardinality,
            is_link: self.is_link,
            value: self.value@,
        }
    }
}

/// One compiled pair: the fragment text and its bound parameter.
#[derive(Debug, Clone, PartialEq, Eq)]
pub struct MutationItem {
    pub fragment: String,
    pub param: BoundParam,
}

/// The mathematical shape of a `MutationItem`.
#[verifier::ext_equal]
pub ghost struct ItemModel {
    pub fragment: Seq<char>,
    pub param: ParamModel,
}

impl View for MutationItem {
    type V = ItemModel;

    open spec fn view(&self) -> ItemModel {
        ItemModel { fragment: self.fragment@, param: self.param@ }
    }
}

impl DeepView for MutationItem {
    type V = ItemModel;

    open spec fn deep_view(&self) -> ItemModel {
        self.view()
    }
}

/// A compiled mutation: the ordered sequence of fragment/parameter pairs,
/// constructed fresh per request and handed to the query executor.
#[derive(Debug, Clone, PartialEq, Eq)]
pub struct CompiledMutation {
    pub items: Vec<MutationItem>,
}

impl View for CompiledMutation {
    type V = Seq<ItemModel>;

    open spec fn view(&self) -> Seq<ItemModel> {
        self.items.deep_view()
    }
}

/// Why a compile failed. Both conditions are detected before any statement
/// is built, so a failing compile never reaches the database.
#[derive(Debug, Clone, PartialEq, Eq)]
pub enum CompileError {
    /// A create payload omits a mandatory field.
    MissingRequiredField(String),
    /// A supplied value fails to decode into its field's declared type.
    InvalidFieldValue(String, DecodeErrorKind),
}

/// The mathematical shape of a `CompileError`.
#[verifier::ext_equal]
pub ghost enum ErrModel {
    MissingRequiredField(Seq<char>),
    InvalidFieldValue(Seq<char>, DecodeErrorKind),
}

impl View for CompileError {
    type V = ErrModel;

    open spec fn view(&self) -> ErrModel {
        match self {
            CompileError::MissingRequiredField(n) => ErrModel::MissingRequiredField(n@),
            CompileError::InvalidFieldValue(n, k) => ErrModel::InvalidFieldValue(n@, *k),
        }
    }
}

/// What a compile yields on success: `Empty` is a control-flow signal — an
/// empty patch means "no statement, read the current state back" — while
/// `Compiled` carries the fragment/parameter pairs.
#[derive(Debug, Clone, PartialEq, Eq)]
pub enum CompileOutcome {
    Empty,
    Compiled(CompiledMutation),
}

impl View for CompileOutcome {
    type V = Option<Seq<ItemModel>>;

    open spec fn view(&self) -> Option<Seq<ItemModel>> {
        match self {
            CompileOutcome::Empty => None,
            CompileOutcome::Compiled(m) => Some(m@),
        }
    }
}

/// The model of a full compile result.
pub open spec fn result_model(r: Result<CompileOutcome, CompileError>) -> Result<
    Option<Seq<ItemModel>>,
    ErrModel,
> {
    match r {
        Ok(o) => Ok(o@),
        Err(e) => Err(e@),
    }
}

/// The model of a decode result.
pub open spec fn decode_model(r: Result<FieldValue, DecodeErrorKind>) -> Result<
    ValueModel,
    DecodeErrorKind,
> {
    match r {
        Ok(v) => Ok(v@),
        Err(k) => Err(k),
    }
}

// ---------------------------------------------------------------------------
// The compiler's specification.
// ---------------------------------------------------------------------------

/// The identifiers a list of raw strings denotes, if every element is a
/// well-formed identifier.
pub open spec fn decode_uuid_seq(ss: Seq<Seq<char>>) -> Option<Seq<u128>>
    decreases ss.len(),
{
    if ss.len() == 0 {
        Some(Seq::empty())
    } else {
        match (decode_uuid_seq(ss.drop_last()), parsed_uuid(ss.last())) {
            (Some(us), Some(u)) => Some(us.push(u)),
            _ => None,
        }
    }
}

/// The decode rules: which raw shapes each field kind accepts and the
/// decoded value they become. A supplied null decodes to `Absent` (except
/// for formats, where a null is also `Absent` but an unknown name is an
/// error).
pub open spec fn decode_spec(kind: FieldKind, v: RawModel) -> Result<ValueModel, DecodeErrorKind> {
    match kind {
        FieldKind::Text => match v {
            RawModel::Str(s) => Ok(ValueModel::Str(s)),
            RawModel::Null => Ok(ValueModel::Absent),
            _ => Err(DecodeErrorKind::ExpectedString),
        },
        FieldKind::Flag => match v {
            RawModel::Bool(b) => Ok(ValueModel::Bool(b)),
            RawModel::Null => Ok(ValueModel::Absent),
            _ => Err(DecodeErrorKind::ExpectedBool),
        },
        FieldKind::Format => match v {
            RawModel::Str(s) => match DocFormat::of_name_spec(s) {
                Some(f) => Ok(ValueModel::Enum(f.name_spec())),
                None => Err(DecodeErrorKind::UnknownFormat),
            },
            RawModel::Null => Ok(ValueModel::Absent),
            _ => Err(DecodeErrorKind::ExpectedString),
        },
        FieldKind::LinkList => match v {
            RawModel::StrList(ss) => match decode_uuid_seq(ss) {
                Some(us) => Ok(ValueModel::UuidList(us)),
                None => Err(DecodeErrorKind::InvalidIdentifier),
            },
            RawModel::Null => Ok(ValueModel::Absent),
            _ => Err(DecodeErrorKind::ExpectedStringList),
        },
    }
}

/// The type annotation a field's fragment carries. Every field of a patch
/// is optional; in a create, only non-required fields are. A relationship's
/// annotation is used as given, inside its sub-selection.
pub open spec fn annotation_of(mode: CompileMode, d: DescModel) -> Seq<char> {
    if d.is_link {
        d.base_annotation
    } else if mode is Create && is_required(d) {
        d.base_annotation
    } else {
        "optional "@ + d.base_annotation
    }
}

/// A derived field's annotation: derived fields are never required.
pub open spec fn derive_annotation(dr: DeriveModel) -> Seq<char> {
    "optional "@ + dr.base_annotation
}

/// The assignment fragment of a scalar field.
pub open spec fn assign_fragment(name: Seq<char>, ann: Seq<char>) -> Seq<char> {
    name + " := <"@ + ann + ">$"@ + name
}

/// The sub-selection fragment of a relationship field: it filters the
/// target type by the identifier set bound under the field's name, and
/// never embeds the value itself.
pub open spec fn link_fragment(name: Seq<char>, target: Seq<char>, ann: Seq<char>) -> Seq<char> {
    name + " := (SELECT "@ + target + " FILTER .id IN array_unpack(<"@ + ann + ">$"@ + name
        + "))"@
}

/// The identifier-equality fragment prepended to every patch.
pub open spec fn id_fragment() -> Seq<char> {
    ".id = <uuid>$id"@
}

/// The cardinality under which a field's parameter is bound: a relationship
/// binds its whole identifier array as one value; a required field of a
/// create binds exactly one value; everything else binds at most one.
pub open spec fn param_cardinality(mode: CompileMode, d: DescModel) -> Cardinality {
    if d.is_link {
        Cardinality::One
    } else if mode is Create && is_required(d) {
        Cardinality::One
    } else {
        Cardinality::AtMostOne
    }
}

/// The pair emitted for one derived field.
pub open spec fn derive_item(dr: DeriveModel, source: Seq<char>) -> ItemModel {
    ItemModel {
        fragment: assign_fragment(dr.name, derive_annotation(dr)),
        param: ParamModel {
            name: dr.name,
            cardinality: Cardinality::AtMostOne,
            is_link: false,
            value: ValueModel::Str(apply_derive_spec(dr.kind, source)),
        },
    }
}

/// The pairs emitted for a field's derived fields, in declared order.
pub open spec fn derive_items(drs: Seq<DeriveModel>, source: Seq<char>) -> Seq<ItemModel> {
    drs.map(|i: int, dr: DeriveModel| derive_item(dr, source))
}

/// The pair emitted for the field itself.
pub open spec fn field_item(mode: CompileMode, d: DescModel, v: ValueModel) -> ItemModel {
    ItemModel {
        fragment: if d.is_link {
            link_fragment(d.name, d.link_target, annotation_of(mode, d))
        } else {
            assign_fragment(d.name, annotation_of(mode, d))
        },
        param: ParamModel {
            name: d.name,
            cardinality: param_cardinality(mode, d),
            is_link: d.is_link,
            value: v,
        },
    }
}

/// Everything one decoded field emits: its own pair, then its derived
/// fields' pairs — all together or not at all. A relationship supplied as
/// an explicit null emits nothing.
pub open spec fn emit_field(mode: CompileMode, d: DescModel, v: ValueModel) -> Seq<ItemModel> {
    if d.is_link && v is Absent {
        Seq::empty()
    } else {
        seq![field_item(mode, d, v)] + derive_items(d.derives, derive_source_text(v))
    }
}

/// What the compiler decides for one field: skip it (`None`), emit from a
/// decoded value (`Some`), or fail the whole compile.
pub open spec fn field_slot(mode: CompileMode, d: DescModel, doc: DocModel) -> Result<
    Option<ValueModel>,
    ErrModel,
> {
    if !doc_has(doc, d.name) {
        if mode is Create && is_required(d) {
            Err(ErrModel::MissingRequiredField(d.name))
        } else {
            Ok(None)
        }
    } else {
        match decode_spec(d.kind, doc_value(doc, d.name)) {
            Err(k) => Err(ErrModel::InvalidFieldValue(d.name, k)),
            Ok(v) => {
                if mode is Create && is_required(d) && v is Absent {
                    Err(ErrModel::InvalidFieldValue(d.name, DecodeErrorKind::UnexpectedNull))
                } else {
                    Ok(Some(v))
                }
            },
        }
    }
}

/// The pairs the whole schema emits, in schema declaration order; the first
/// failing field fails the compile.
pub open spec fn compile_fields(mode: CompileMode, s: Seq<DescModel>, doc: DocModel) -> Result<
    Seq<ItemModel>,
    ErrModel,
>
    decreases s.len(),
{
    if s.len() == 0 {
        Ok(Seq::empty())
    } else {
        match compile_fields(mode, s.drop_last(), doc) {
            Err(e) => Err(e),
            Ok(items) => match field_slot(mode, s.last(), doc) {
                Err(e) => Err(e),
                Ok(None) => Ok(items),
                Ok(Some(v)) => Ok(items + emit_field(mode, s.last(), v)),
            },
        }
    }
}

/// The identifier-equality pair of a patch.
pub open spec fn id_item(target: u128) -> ItemModel {
    ItemModel {
        fragment: id_fragment(),
        param: ParamModel {
            name: "id"@,
            cardinality: Cardinality::One,
            is_link: false,
            value: ValueModel::Uuid(target),
        },
    }
}

/// The compiler's full specification: an empty patch short-circuits to the
/// empty outcome; otherwise the schema is compiled in declaration order,
/// and a patch is prefixed with its identifier-equality pair.
pub open spec fn compile_spec(mode: CompileMode, s: Seq<DescModel>, doc: DocModel) -> Result<
    Option<Seq<ItemModel>>,
    ErrModel,
> {
    match mode {
        CompileMode::Patch { target } => {
            if doc.len() == 0 {
                Ok(None)
            } else {
                match compile_fields(mode, s, doc) {
                    Err(e) => Err(e),
                    Ok(items) => Ok(Some(seq![id_item(target)] + items)),
                }
            }
        },
        CompileMode::Create => match compile_fields(mode, s, doc) {
            Err(e) => Err(e),
            Ok(items) => Ok(Some(items)),
        },
    }
}

// ---------------------------------------------------------------------------
// Helper lemmas.
// ---------------------------------------------------------------------------

/// Once a prefix of the schema fails, the whole schema fails the same way.
pub proof fn lemma_compile_fields_err_persists(
    mode: CompileMode,
    s: Seq<DescModel>,
    doc: DocModel,
    n: int,
)
    requires
        0 <= n <= s.len(),
        compile_fields(mode, s.take(n), doc) is Err,
    ensures
        compile_fields(mode, s, doc) == compile_fields(mode, s.take(n), doc),
    decreases s.len() - n,
{
    if n < s.len() {
        assert(s.take(n + 1).drop_last() =~= s.take(n));
        assert(s.take(n + 1).last() == s[n]);
        lemma_compile_fields_err_persists(mode, s, doc, n + 1);
    } else {
        assert(s.take(n) =~= s);
    }
}

/// Once one element of an identifier list fails to parse, the whole list
/// fails.
pub proof fn lemma_uuid_seq_none_persists(ss: Seq<Seq<char>>, n: int)
    requires
        0 <= n <= ss.len(),
        decode_uuid_seq(ss.take(n)) is None,
    ensures
        decode_uuid_seq(ss) is None,
    decreases ss.len() - n,
{
    if n < ss.len() {
        assert(ss.take(n + 1).drop_last() =~= ss.take(n));
        lemma_uuid_seq_none_persists(ss, n + 1);
    } else {
        assert(ss.take(n) =~= ss);
    }
}

/// A name occurs among a document's keys exactly when the document has it.
pub proof fn lemma_keys_contains(d: DocModel, name: Seq<char>)
    ensures
        doc_keys(d).contains(name) == doc_has(d, name),
{
    if doc_has(d, name) {
        let j = choose|j: int| 0 <= j < d.len() && d[j].0 == name;
        assert(doc_keys(d)[j] == name);
    }
    if doc_keys(d).contains(name) {
        let j = choose|j: int| 0 <= j < doc_keys(d).len() && doc_keys(d)[j] == name;
        assert(d[j].0 == name);
    }
}

// ---------------------------------------------------------------------------
// The executable compiler.
// ---------------------------------------------------------------------------

fn build_assign_fragment(name: &str, ann: &str) -> (r: String)
    ensures
        r@ == assign_fragment(name@, ann@),
{
    let r = String::from_str(name).concat(" := <").concat(ann).concat(">$").concat(name);
    proof {
        assert(r@ =~= assign_fragment(name@, ann@));
    }
    r
}

fn build_link_fragment(name: &str, target: &str, ann: &str) -> (r: String)
    ensures
        r@ == link_fragment(name@, target@, ann@),
{
    let r = String::from_str(name)
        .concat(" := (SELECT ")
        .concat(target)
        .concat(" FILTER .id IN array_unpack(<")
        .concat(ann)
        .concat(">$")
        .concat(name)
        .concat("))");
    proof {
        assert(r@ =~= link_fragment(name@, target@, ann@));
    }
    r
}

fn build_annotation(mode: CompileMode, f: &FieldDescriptor) -> (r: String)
    ensures
        r@ == annotation_of(mode, f@),
{
    let required = f.cardinality == Cardinality::One;
    let is_create = match mode {
        CompileMode::Create => true,
        CompileMode::Patch { .. } => false,
    };
    if f.is_link || (is_create && required) {
        f.base_annotation.clone()
    } else {
        String::from_str("optional ").concat(f.base_annotation.as_str())
    }
}

fn bound_cardinality(mode: CompileMode, f: &FieldDescriptor) -> (r: Cardinality)
    ensures
        r == param_cardinality(mode, f@),
{
    let required = f.cardinality == Cardinality::One;
    let is_create = match mode {
        CompileMode::Create => true,
        CompileMode::Patch { .. } => false,
    };
    if f.is_link || (is_create && required) {
        Cardinality::One
    } else {
        Cardinality::AtMostOne
    }
}

/// Decode the raw identifier strings of a relationship field.
fn decode_uuid_vec(ss: &Vec<String>) -> (r: Result<Vec<u128>, DecodeErrorKind>)
    ensures
        match r {
            Ok(us) => decode_uuid_seq(ss.deep_view()) == Some(us@),
            Err(k) => decode_uuid_seq(ss.deep_view()) is None && k
                == DecodeErrorKind::InvalidIdentifier,
        },
{
    let mut us: Vec<u128> = Vec::new();
    let mut i: usize = 0;
    while i < ss.len()
        invariant
            i <= ss.len(),
            ss.deep_view().len() == ss.len(),
            decode_uuid_seq(ss.deep_view().take(i as int)) == Some(us@),
        decreases ss.len() - i,
    {
        proof {
            assert(ss.deep_view()[i as int] == ss@[i as int]@);
            assert(ss.deep_view().take(i + 1).drop_last() =~= ss.deep_view().take(i as int));
            assert(ss.deep_view().take(i + 1).last() == ss.deep_view()[i as int]);
        }
        match parse_uuid(ss[i].as_str()) {
            Some(u) => {
                us.push(u);
            },
            None => {
                proof {
                    lemma_uuid_seq_none_persists(ss.deep_view(), i + 1);
                }
                return Err(DecodeErrorKind::InvalidIdentifier);
            },
        }
        i = i + 1;
    }
    proof {
        assert(ss.deep_view().take(ss.len() as int) =~= ss.deep_view());
    }
    Ok(us)
}

/// Decode one supplied raw value under a field's decode rule. A key whose
/// value fails to decode is still "present"; the failure is reported as a
/// distinct validation error, never as absence.
pub fn decode_value(kind: FieldKind, v: &RawValue) -> (r: Result<FieldValue, DecodeErrorKind>)
    ensures
        decode_model(r) == decode_spec(kind, v@),
{
    match kind {
        FieldKind::Text => match v {
            RawValue::Str(s) => Ok(FieldValue::Str(s.clone())),
            RawValue::Null => Ok(FieldValue::Absent),
            _ => Err(DecodeErrorKind::ExpectedString),
        },
        FieldKind::Flag => match v {
            RawValue::Bool(b) => Ok(FieldValue::Bool(*b)),
            RawValue::Null => Ok(FieldValue::Absent),
            _ => Err(DecodeErrorKind::ExpectedBool),
        },
        FieldKind::Format => match v {
            RawValue::Str(s) => match DocFormat::of_name(s.as_str()) {
                Some(f) => Ok(FieldValue::Enum(String::from_str(f.name()))),
                None => Err(DecodeErrorKind::UnknownFormat),
            },
            RawValue::Null => Ok(FieldValue::Absent),
            _ => Err(DecodeErrorKind::ExpectedString),
        },
        FieldKind::LinkList => match v {
            RawValue::StrList(ss) => match decode_uuid_vec(ss) {
                Ok(us) => Ok(FieldValue::UuidList(us)),
                Err(k) => Err(k),
            },
            RawValue::Null => Ok(FieldValue::Absent),
            _ => Err(DecodeErrorKind::ExpectedStringList),
        },
    }
}

/// Append everything one decoded field emits: its own pair, then its
/// derived pairs in declared order, immediately after it.
pub fn emit_into(items: &mut Vec<MutationItem>, mode: CompileMode, f: &FieldDescriptor,
    v: FieldValue)
    ensures
        final(items).deep_view() =~= old(items).deep_view() + emit_field(mode, f@, v@),
{
    let ghost v_model = v@;
    let ghost base = items.deep_view();
    let skip_link = f.is_link && match v {
        FieldValue::Absent => true,
        _ => false,
    };
    if skip_link {
        proof {
            assert(items.deep_view() =~= base + emit_field(mode, f@, v_model));
        }
        return;
    }
    let ghost derive_src = derive_source_text(v_model);

    // Compute the derived values first, while the source value is still at
    // hand; the expansion is total, so this can never fail.
    let mut derived: Vec<String> = Vec::new();
    let mut j: usize = 0;
    while j < f.derives.len()
        invariant
            j <= f.derives.len(),
            f@.derives.len() == f.derives.len(),
            derived@.len() == j,
            forall|k: int| 0 <= k < j ==> derived@[k]@ == apply_derive_spec(
                #[trigger] f@.derives[k].kind,
                derive_src,
            ),
            derive_src == derive_source_text(v@),
            v@ == v_model,
        decreases f.derives.len() - j,
    {
        proof {
            assert(f@.derives[j as int] == f.derives@[j as int]@);
        }
        let dv = apply_derive(f.derives[j].kind, &v);
        derived.push(dv);
        j = j + 1;
    }

    let ann = build_annotation(mode, f);
    let fragment = if f.is_link {
        build_link_fragment(f.name.as_str(), f.link_target.as_str(), ann.as_str())
    } else {
        build_assign_fragment(f.name.as_str(), ann.as_str())
    };
    let cardinality = bound_cardinality(mode, f);
    let item = MutationItem {
        fragment,
        param: BoundParam { name: f.name.clone(), cardinality, is_link: f.is_link, value: v },
    };
    proof {
        assert(item@ == field_item(mode, f@, v_model));
    }
    let ghost items_before = items@;
    items.push(item);
    proof {
        crate::seqs::lemma_deep_push(items_before, items@.last());
        assert(items.deep_view() =~= crate::seqs::deep(items@));
        assert(crate::seqs::deep(items_before) =~= base);
        assert(items.deep_view() =~= base + seq![field_item(mode, f@, v_model)]);
    }
    let mut k: usize = 0;
    while k < derived.len()
        invariant
            k <= derived.len(),
            derived@.len() == f.derives.len(),
            f@.derives.len() == f.derives.len(),
            forall|n: int| 0 <= n < derived@.len() ==> derived@[n]@ == apply_derive_spec(
                #[trigger] f@.derives[n].kind,
                derive_src,
            ),
            items.deep_view() =~= base + seq![field_item(mode, f@, v_model)] + derive_items(
                f@.derives.take(k as int),
                derive_src,
            ),
        decreases derived.len() - k,
    {
        let dr = &f.derives[k];
        proof {
            assert(f@.derives[k as int] == f.derives@[k as int]@);
        }
        let d_ann = String::from_str("optional ").concat(dr.base_annotation.as_str());
        let frag = build_assign_fragment(dr.name.as_str(), d_ann.as_str());
        let d_item = MutationItem {
            fragment: frag,
            param: BoundParam {
                name: dr.name.clone(),
                cardinality: Cardinality::AtMostOne,
                is_link: false,
                value: FieldValue::Str(derived[k].clone()),
            },
        };
        proof {
            assert(d_item@ == derive_item(f@.derives[k as int], derive_src));
        }
        let ghost before_k = items@;
        items.push(d_item);
        proof {
            crate::seqs::lemma_deep_push(before_k, items@.last());
            assert(items.deep_view() =~= crate::seqs::deep(items@));
            assert(derive_items(f@.derives.take(k + 1), derive_src) =~= derive_items(
                f@.derives.take(k as int),
                derive_src,
            ).push(derive_item(f@.derives[k as int], derive_src)));
            assert(items.deep_view() =~= base + seq![field_item(mode, f@, v_model)]
                + derive_items(f@.derives.take(k + 1), derive_src));
        }
        k = k + 1;
    }
    proof {
        assert(f@.derives.take(f@.derives.len() as int) =~= f@.derives);
        assert(items.deep_view() =~= base + emit_field(mode, f@, v_model));
    }
}

/// What a schema emits from per-field decoded slots: for each field in
/// order, nothing when its slot is empty, its pairs otherwise.
pub open spec fn emit_slots_spec(mode: CompileMode, s: Seq<DescModel>,
    slots: Seq<Option<ValueModel>>) -> Seq<ItemModel>
    decreases s.len(),
{
    if s.len() == 0 {
        Seq::empty()
    } else {
        emit_slots_spec(mode, s.drop_last(), slots.drop_last()) + match slots.last() {
            Some(v) => emit_field(mode, s.last(), v),
            None => Seq::empty(),
        }
    }
}

/// Append what a whole schema emits from per-field decoded slots.
pub fn emit_slots_into(items: &mut Vec<MutationItem>, mode: CompileMode, schema: &EntitySchema,
    slots: Vec<Option<FieldValue>>)
    requires
        slots.deep_view().len() == schema@.len(),
    ensures
        final(items).deep_view() =~= old(items).deep_view() + emit_slots_spec(
            mode,
            schema@,
            slots.deep_view(),
        ),
{
    let ghost base = items.deep_view();
    let ghost all_slots = slots.deep_view();
    let mut rest = slots;
    let mut i: usize = 0;
    while i < schema.fields.len()
        invariant
            i <= schema.fields.len(),
            schema@.len() == schema.fields.len(),
            schema@ == schema.fields.deep_view(),
            all_slots.len() == schema@.len(),
            rest.deep_view() =~= all_slots.skip(i as int),
            items.deep_view() =~= base + emit_slots_spec(
                mode,
                schema@.take(i as int),
                all_slots.take(i as int),
            ),
        decreases schema.fields.len() - i,
    {
        proof {
            assert(schema@[i as int] == schema.fields@[i as int]@);
            assert(schema@.take(i + 1).drop_last() =~= schema@.take(i as int));
            assert(schema@.take(i + 1).last() == schema@[i as int]);
            assert(all_slots.take(i + 1).drop_last() =~= all_slots.take(i as int));
            assert(all_slots.take(i + 1).last() == all_slots[i as int]);
            assert(all_slots.skip(i as int).len() == all_slots.len() - i);
            assert(rest.deep_view().len() == rest@.len());
            assert(rest@.len() == all_slots.len() - i);
            assert(rest.deep_view()[0] == all_slots[i as int]);
            assert(rest.deep_view()[0] == rest@[0].deep_view());
        }
        let ghost rest_before = rest@;
        let slot = rest.remove(0);
        proof {
            assert(slot.deep_view() == all_slots[i as int]);
            assert forall|k: int| 0 <= k < rest.deep_view().len() implies rest.deep_view()[k]
                == all_slots.skip(i + 1)[k] by {
                assert(rest.deep_view()[k] == rest@[k].deep_view());
                assert(rest@[k] == rest_before[k + 1]);
                assert(rest_before[k + 1].deep_view() == all_slots.skip(i as int)[k + 1]);
            }
            assert(rest.deep_view() =~= all_slots.skip(i + 1));
        }
        match slot {
            Some(v) => {
                emit_into(items, mode, &schema.fields[i], v);
            },
            None => {},
        }
        proof {
            assert(items.deep_view() =~= base + emit_slots_spec(
                mode,
                schema@.take(i + 1),
                all_slots.take(i + 1),
            ));
        }
        i = i + 1;
    }
    proof {
        assert(schema@.take(schema@.len() as int) =~= schema@);
        assert(all_slots.take(schema@.len() as int) =~= all_slots);
    }
}

/// Append the identifier-equality pair that makes a patch self-contained.
pub fn push_id_item(items: &mut Vec<MutationItem>, target: u128)
    ensures
        final(items).deep_view() =~= old(items).deep_view() + seq![id_item(target)],
{
    let ghost base = items.deep_view();
    let item = MutationItem {
        fragment: String::from_str(".id = <uuid>$id"),
        param: BoundParam {
            name: String::from_str("id"),
            cardinality: Cardinality::One,
            is_link: false,
            value: FieldValue::Uuid(target),
        },
    };
    proof {
        assert(item@ == id_item(target));
    }
    let ghost b = items@;
    items.push(item);
    proof {
        crate::seqs::lemma_deep_push(b, items@.last());
        assert(items.deep_view() =~= crate::seqs::deep(items@));
        assert(crate::seqs::deep(b) =~= base);
        assert(items.deep_view() =~= base + seq![id_item(target)]);
    }
}

/// Compile a create or patch of an entity against its schema.
///
/// `presence` is the presence set: the names the caller's payload actually
/// contained, computed once by the presence tracker from the same document.
/// Only those names influence the result; a name absent from the payload is
/// never emitted, not even with a default substituted.
pub fn compile(
    mode: CompileMode,
    schema: &EntitySchema,
    doc: &PatchDocument,
    presence: &Vec<String>,
) -> (r: Result<CompileOutcome, CompileError>)
    requires
        doc_wf(doc@),
        presence.deep_view() == doc_keys(doc@),
    ensures
        result_model(r) == compile_spec(mode, schema@, doc@),
{
    let is_patch = match mode {
        CompileMode::Patch { .. } => true,
        CompileMode::Create => false,
    };
    if is_patch && presence.len() == 0 {
        proof {
            assert(presence.deep_view().len() == 0);
            assert(doc_keys(doc@).len() == doc@.len());
        }
        return Ok(CompileOutcome::Empty);
    }
    proof {
        assert(presence.deep_view().len() == presence@.len());
        assert(doc_keys(doc@).len() == doc@.len());
    }

    let mut items: Vec<MutationItem> = Vec::new();
    match mode {
        CompileMode::Patch { target } => {
            let item = MutationItem {
                fragment: String::from_str(".id = <uuid>$id"),
                param: BoundParam {
                    name: String::from_str("id"),
                    cardinality: Cardinality::One,
                    is_link: false,
                    value: FieldValue::Uuid(target),
                },
            };
            proof {
                assert(item@ == id_item(target));
            }
            let ghost b = items@;
            items.push(item);
            proof {
                crate::seqs::lemma_deep_push(b, items@.last());
                assert(items.deep_view() =~= seq![id_item(target)]);
            }
        },
        CompileMode::Create => {},
    }
    let ghost prefix = items.deep_view();
    let ghost pl = prefix.len() as int;
    proof {
        assert(schema@.take(0) =~= Seq::<DescModel>::empty());
        assert(items.deep_view().skip(pl) =~= Seq::<ItemModel>::empty());
        assert(items.deep_view().take(pl) =~= prefix);
    }
    let mut i: usize = 0;
    while i < schema.fields.len()
        invariant
            i <= schema.fields.len(),
            schema@.len() == schema.fields.len(),
            schema@ == schema.fields.deep_view(),
            doc_wf(doc@),
            presence.deep_view() == doc_keys(doc@),
            0 <= pl <= items.deep_view().len(),
            pl == prefix.len(),
            items.deep_view().take(pl) == prefix,
            compile_fields(mode, schema@.take(i as int), doc@) == Ok::<_, ErrModel>(
                items.deep_view().skip(pl),
            ),
        decreases schema.fields.len() - i,
    {
        let f = &schema.fields[i];
        proof {
            assert(schema@[i as int] == schema.fields@[i as int]@);
            assert(schema@.take(i + 1).drop_last() =~= schema@.take(i as int));
            assert(schema@.take(i + 1).last() == schema@[i as int]);
        }
        let present = contains_name(presence, f.name.as_str());
        proof {
            lemma_keys_contains(doc@, f@.name);
        }
        let is_create = match mode {
            CompileMode::Create => true,
            CompileMode::Patch { .. } => false,
        };
        let required = f.cardinality == Cardinality::One;
        if !present {
            if is_create && required {
                proof {
                    assert(compile_fields(mode, schema@.take(i + 1), doc@) is Err);
                    lemma_compile_fields_err_persists(mode, schema@, doc@, i + 1);
                }
                return Err(CompileError::MissingRequiredField(f.name.clone()));
            }
            proof {
                assert(field_slot(mode, schema@[i as int], doc@) == Ok::<_, ErrModel>(
                    None::<ValueModel>,
                ));
            }
        } else {
            let raw = match doc.get(f.name.as_str()) {
                Some(rv) => rv,
                None => {
                    proof {
                        assert(false);
                    }
                    return Err(CompileError::MissingRequiredField(f.name.clone()));
                },
            };
            match decode_value(f.kind, raw) {
                Err(k) => {
                    proof {
                        assert(field_slot(mode, schema@[i as int], doc@) == Err::<
                            Option<ValueModel>,
                            _,
                        >(ErrModel::InvalidFieldValue(f@.name, k)));
                        assert(compile_fields(mode, schema@.take(i + 1), doc@) is Err);
                        lemma_compile_fields_err_persists(mode, schema@, doc@, i + 1);
                    }
                    return Err(CompileError::InvalidFieldValue(f.name.clone(), k));
                },
                Ok(v) => {
                    let is_absent = match &v {
                        FieldValue::Absent => true,
                        _ => false,
                    };
                    if is_create && required && is_absent {
                        proof {
                            assert(field_slot(mode, schema@[i as int], doc@) == Err::<
                                Option<ValueModel>,
                                _,
                            >(ErrModel::InvalidFieldValue(
                                f@.name,
                                DecodeErrorKind::UnexpectedNull,
                            )));
                            assert(compile_fields(mode, schema@.take(i + 1), doc@) is Err);
                            lemma_compile_fields_err_persists(mode, schema@, doc@, i + 1);
                        }
                        return Err(CompileError::InvalidFieldValue(
                            f.name.clone(),
                            DecodeErrorKind::UnexpectedNull,
                        ));
                    }
                    let ghost vm = v@;
                    let ghost before = items.deep_view();
                    proof {
                        assert(field_slot(mode, schema@[i as int], doc@) == Ok::<_, ErrModel>(
                            Some(vm),
                        ));
                    }
                    emit_into(&mut items, mode, f, v);
                    proof {
                        assert(items.deep_view().skip(pl) =~= before.skip(pl) + emit_field(
                            mode,
                            schema@[i as int],
                            vm,
                        ));
                        assert(items.deep_view().take(pl) =~= before.take(pl));
                    }
                },
            }
        }
        i = i + 1;
    }
    proof {
        assert(schema@.take(schema@.len() as int) =~= schema@);
    }
    let m = CompiledMutation { items };
    proof {
        assert(m@ =~= m@.take(pl) + m@.skip(pl));
        match mode {
            CompileMode::Patch { target } => {
                assert(m@.take(pl) =~= seq![id_item(target)]);
            },
            CompileMode::Create => {
                assert(m@.take(pl) =~= Seq::<ItemModel>::empty());
                assert(m@ =~= m@.skip(pl));
            },
        }
    }
    Ok(CompileOutcome::Compiled(m))
}

/// The fragment texts of a compiled mutation, in emission order.
pub open spec fn item_fragments(items: Seq<ItemModel>) -> Seq<Seq<char>> {
    items.map(|i: int, it: ItemModel| it.fragment)
}

/// The parameter models of a compiled mutation, in emission order.
pub open spec fn item_params(items: Seq<ItemModel>) -> Seq<ParamModel> {
    items.map(|i: int, it: ItemModel| it.param)
}

impl CompiledMutation {
    /// The fragment texts, in emission order.
    pub fn fragments(&self) -> (r: Vec<String>)
        ensures
            r.deep_view() == item_fragments(self@),
    {
        let mut r: Vec<String> = Vec::new();
        let mut i: usize = 0;
        while i < self.items.len()
            invariant
                i <= self.items.len(),
                self@.len() == self.items.len(),
                r.deep_view() =~= item_fragments(self@).take(i as int),
            decreases self.items.len() - i,
        {
            let ghost before = r@;
            r.push(self.items[i].fragment.clone());
            proof {
                crate::seqs::lemma_deep_push(before, r@.last());
                assert(crate::seqs::deep(before) =~= item_fragments(self@).take(i as int));
                assert(r@.last()@ == self@[i as int].fragment);
                assert(item_fragments(self@).take(i + 1) =~= item_fragments(self@).take(
                    i as int,
                ).push(self@[i as int].fragment));
                assert(r.deep_view() =~= item_fragments(self@).take(i + 1));
            }
            i = i + 1;
        }
        proof {
            assert(item_fragments(self@).take(self.items@.len() as int) =~= item_fragments(
                self@,
            ));
        }
        r
    }

    /// The fragments joined with a caller-specified separator; the
    /// separator shapes the statement text only and carries no meaning.
    pub fn set_clause(&self, sep: &str) -> (r: String)
        ensures
            r@ == join_with(item_fragments(self@), sep@),
    {
        let frags = self.fragments();
        join_strings(&frags, sep)
    }
}

} // verus!
