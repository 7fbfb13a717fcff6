//! The general properties of the mutation compiler, proved once and for
//! all against its specification: presence-exactness, the empty-patch
//! short-circuit, atomic derived-field expansion, the create round-trip on
//! bound parameter names, and determinism.

use vstd::prelude::*;
use crate::values::ValueModel;
use crate::schema::{DescModel, field_names, schema_wf};
use crate::derives::derive_source_text;
use crate::document::{DocModel, doc_has};
use crate::compiler::{CompileMode, CompileError, CompileOutcome, ErrModel, ItemModel,
    compile_fields, compile_spec, derive_item, derive_items, emit_field, field_item, field_slot,
    id_item, result_model};

verus! {

/// The items of a successful field compilation (the empty sequence
/// otherwise).
pub open spec fn ok_items(r: Result<Seq<ItemModel>, ErrModel>) -> Seq<ItemModel> {
    match r {
        Ok(items) => items,
        Err(_) => Seq::empty(),
    }
}

/// A parameter name is accounted for when some field the caller actually
/// supplied owns it — as its own wire name or as one of its derived names.
pub open spec fn expected_param(s: Seq<DescModel>, doc: DocModel, x: Seq<char>) -> bool {
    exists|j: int|
        0 <= j < s.len() && doc_has(doc, (#[trigger] s[j]).name) && field_names(s[j]).contains(x)
}

/// Every parameter a schema pass emits belongs to a field the caller
/// supplied.
pub proof fn lemma_emitted_names(mode: CompileMode, s: Seq<DescModel>, doc: DocModel,
    items: Seq<ItemModel>)
    requires
        compile_fields(mode, s, doc) == Ok::<_, ErrModel>(items),
    ensures
        forall|k: int| 0 <= k < items.len() ==> expected_param(s, doc, (#[trigger] items[k]).param.name),
    decreases s.len(),
{
    if s.len() == 0 {
    } else {
        let sp = s.drop_last();
        let d = s.last();
        let prev = ok_items(compile_fields(mode, sp, doc));
        assert(compile_fields(mode, sp, doc) == Ok::<_, ErrModel>(prev));
        lemma_emitted_names(mode, sp, doc, prev);
        assert forall|k: int| 0 <= k < items.len() implies expected_param(
            s,
            doc,
            (#[trigger] items[k]).param.name,
        ) by {
            if k < prev.len() {
                assert(expected_param(sp, doc, prev[k].param.name));
                let j = choose|j: int|
                    0 <= j < sp.len() && doc_has(doc, (#[trigger] sp[j]).name) && field_names(
                        sp[j],
                    ).contains(prev[k].param.name);
                assert(s[j] == sp[j]);
                assert(items[k] == prev[k]);
            } else {
                // the item belongs to the last field's segment
                let v = match field_slot(mode, d, doc) {
                    Ok(Some(v)) => v,
                    _ => arbitrary(),
                };
                assert(field_slot(mode, d, doc) == Ok::<_, ErrModel>(Some(v)));
                assert(doc_has(doc, d.name));
                assert(items == prev + emit_field(mode, d, v));
                let k0 = k - prev.len();
                assert(items[k] == emit_field(mode, d, v)[k0]);
                if k0 == 0 {
                    assert(emit_field(mode, d, v)[0] == field_item(mode, d, v));
                    assert(field_names(d)[0] == d.name);
                    assert(field_names(d).contains(d.name));
                } else {
                    assert(emit_field(mode, d, v)[k0] == derive_items(
                        d.derives,
                        derive_source_text(v),
                    )[k0 - 1]);
                    assert(items[k].param.name == d.derives[k0 - 1].name);
                    assert(field_names(d)[k0] == d.derives[k0 - 1].name);
                    assert(field_names(d).contains(d.derives[k0 - 1].name));
                }
                assert(s[s.len() - 1] == d);
            }
        }
    }
}

/// A successful schema pass found no field in error.
pub proof fn lemma_fields_ok_slot(mode: CompileMode, s: Seq<DescModel>, doc: DocModel, j: int)
    requires
        compile_fields(mode, s, doc) is Ok,
        0 <= j < s.len(),
    ensures
        field_slot(mode, s[j], doc) is Ok,
    decreases s.len(),
{
    let sp = s.drop_last();
    if j < s.len() - 1 {
        assert(compile_fields(mode, sp, doc) is Ok);
        lemma_fields_ok_slot(mode, sp, doc, j);
        assert(sp[j] == s[j]);
    }
}

/// Where a field's pairs stand in the compiled output: the field's own pair
/// at `p`, its derived pairs immediately after it, in declared order.
pub open spec fn has_block_at(items: Seq<ItemModel>, p: int, mode: CompileMode, d: DescModel,
    v: ValueModel) -> bool {
    &&& 0 <= p
    &&& p + 1 + d.derives.len() <= items.len()
    &&& items[p] == field_item(mode, d, v)
    &&& forall|m: int|
        0 <= m < d.derives.len() ==> items[p + 1 + m] == derive_item(
            #[trigger] d.derives[m],
            derive_source_text(v),
        )
}

/// Atomic expansion: a field that is emitted carries its derived fields
/// with it, immediately following it, in declared order.
pub proof fn lemma_atomic_expansion(mode: CompileMode, s: Seq<DescModel>, doc: DocModel,
    items: Seq<ItemModel>, fi: int, v: ValueModel)
    requires
        compile_fields(mode, s, doc) == Ok::<_, ErrModel>(items),
        0 <= fi < s.len(),
        field_slot(mode, s[fi], doc) == Ok::<_, ErrModel>(Some(v)),
        !(s[fi].is_link && v is Absent),
    ensures
        exists|p: int| has_block_at(items, p, mode, s[fi], v),
    decreases s.len(),
{
    let sp = s.drop_last();
    let d = s.last();
    let prev = ok_items(compile_fields(mode, sp, doc));
    assert(compile_fields(mode, sp, doc) == Ok::<_, ErrModel>(prev));
    if fi == s.len() - 1 {
        assert(items == prev + emit_field(mode, d, v));
        let p = prev.len() as int;
        assert(items[p] == emit_field(mode, d, v)[0]);
        assert forall|m: int| 0 <= m < d.derives.len() implies items[p + 1 + m] == derive_item(
            #[trigger] d.derives[m],
            derive_source_text(v),
        ) by {
            assert(items[p + 1 + m] == emit_field(mode, d, v)[1 + m]);
            assert(emit_field(mode, d, v)[1 + m] == derive_items(
                d.derives,
                derive_source_text(v),
            )[m]);
        }
        assert(has_block_at(items, p, mode, s[fi], v));
    } else {
        assert(sp[fi] == s[fi]);
        lemma_atomic_expansion(mode, sp, doc, prev, fi, v);
        let p = choose|p: int| has_block_at(prev, p, mode, sp[fi], v);
        match field_slot(mode, d, doc) {
            Ok(Some(w)) => {
                assert(items == prev + emit_field(mode, d, w));
                assert forall|m: int|
                    0 <= m < s[fi].derives.len() implies items[p + 1 + m] == derive_item(
                    #[trigger] s[fi].derives[m],
                    derive_source_text(v),
                ) by {
                    assert(items[p + 1 + m] == prev[p + 1 + m]);
                }
                assert(items[p] == prev[p]);
                assert(has_block_at(items, p, mode, s[fi], v));
            },
            Ok(None) => {
                assert(items == prev);
                assert(has_block_at(items, p, mode, s[fi], v));
            },
            Err(_) => {
                assert(false);
            },
        }
    }
}

/// Presence-exactness: no wire name belonging to a field the caller did not
/// supply — neither the field's own name nor any of its derived names —
/// ever appears among the compiled parameters (and hence none of its
/// fragments is emitted, since fragments pair with parameters one to one).
pub proof fn lemma_presence_exactness(mode: CompileMode, s: Seq<DescModel>, doc: DocModel,
    items: Seq<ItemModel>, fi: int, x: Seq<char>)
    requires
        schema_wf(s),
        compile_spec(mode, s, doc) == Ok::<_, ErrModel>(Some(items)),
        0 <= fi < s.len(),
        !doc_has(doc, s[fi].name),
        field_names(s[fi]).contains(x),
    ensures
        forall|k: int| 0 <= k < items.len() ==> (#[trigger] items[k]).param.name != x,
{
    let fitems = ok_items(compile_fields(mode, s, doc));
    assert(compile_fields(mode, s, doc) == Ok::<_, ErrModel>(fitems));
    lemma_emitted_names(mode, s, doc, fitems);
    assert forall|k: int| 0 <= k < fitems.len() implies (#[trigger] fitems[k]).param.name
        != x by {
        let name = fitems[k].param.name;
        if name == x {
            let j = choose|j: int|
                0 <= j < s.len() && doc_has(doc, (#[trigger] s[j]).name) && field_names(
                    s[j],
                ).contains(name);
            assert(j != fi);
            assert(!field_names(s[j]).contains(x));
        }
    }
    match mode {
        CompileMode::Patch { target } => {
            assert(items == seq![id_item(target)] + fitems);
            assert forall|k: int| 0 <= k < items.len() implies (#[trigger] items[k]).param.name
                != x by {
                if k == 0 {
                    assert(items[0] == id_item(target));
                    assert(!field_names(s[fi]).contains("id"@));
                } else {
                    assert(items[k] == fitems[k - 1]);
                }
            }
        },
        CompileMode::Create => {
            assert(items == fitems);
        },
    }
}

/// An empty patch always compiles to the empty outcome, for any schema:
/// no statement is built and nothing is bound.
pub proof fn lemma_empty_patch(target: u128, s: Seq<DescModel>, doc: DocModel)
    requires
        doc.len() == 0,
    ensures
        compile_spec(CompileMode::Patch { target }, s, doc) == Ok::<
            Option<Seq<ItemModel>>,
            ErrModel,
        >(None),
{
}

/// A successful create found every required field present.
pub proof fn lemma_create_required_present(s: Seq<DescModel>, doc: DocModel, j: int)
    requires
        compile_spec(CompileMode::Create, s, doc) is Ok,
        0 <= j < s.len(),
        crate::schema::is_required(s[j]),
    ensures
        doc_has(doc, s[j].name),
{
    lemma_fields_ok_slot(CompileMode::Create, s, doc, j);
}

/// Round trip for a successful create: a name is bound exactly when some
/// supplied field owns it — its own wire name or a derived name. Since
/// success forces every required field to be present, the bound names are
/// exactly the required names, the present optional names, and their
/// derived names — no more, no less. A relationship supplied as an
/// explicit null is excluded by hypothesis: it is skipped by design.
pub proof fn lemma_create_round_trip(s: Seq<DescModel>, doc: DocModel, items: Seq<ItemModel>,
    x: Seq<char>)
    requires
        schema_wf(s),
        compile_spec(CompileMode::Create, s, doc) == Ok::<_, ErrModel>(Some(items)),
        forall|j: int|
            0 <= j < s.len() && (#[trigger] s[j]).is_link && doc_has(doc, s[j].name)
                ==> field_slot(CompileMode::Create, s[j], doc) != Ok::<_, ErrModel>(
                Some(ValueModel::Absent),
            ),
    ensures
        (exists|k: int| 0 <= k < items.len() && (#[trigger] items[k]).param.name == x)
            <==> expected_param(s, doc, x),
{
    let mode = CompileMode::Create;
    assert(compile_fields(mode, s, doc) == Ok::<_, ErrModel>(items));
    lemma_emitted_names(mode, s, doc, items);
    if exists|k: int| 0 <= k < items.len() && (#[trigger] items[k]).param.name == x {
        let k = choose|k: int| 0 <= k < items.len() && (#[trigger] items[k]).param.name == x;
        assert(expected_param(s, doc, items[k].param.name));
    }
    if expected_param(s, doc, x) {
        let j = choose|j: int|
            0 <= j < s.len() && doc_has(doc, (#[trigger] s[j]).name) && field_names(
                s[j],
            ).contains(x);
        lemma_fields_ok_slot(mode, s, doc, j);
        let v = match field_slot(mode, s[j], doc) {
            Ok(Some(v)) => v,
            _ => arbitrary(),
        };
        assert(field_slot(mode, s[j], doc) == Ok::<_, ErrModel>(Some(v)));
        assert(!(s[j].is_link && v is Absent));
        lemma_atomic_expansion(mode, s, doc, items, j, v);
        let p = choose|p: int| has_block_at(items, p, mode, s[j], v);
        let ni = choose|ni: int| 0 <= ni < field_names(s[j]).len() && field_names(s[j])[ni] == x;
        if ni == 0 {
            assert(items[p].param.name == x);
        } else {
            assert(field_names(s[j])[ni] == s[j].derives[ni - 1].name);
            assert(items[p + ni] == derive_item(s[j].derives[ni - 1], derive_source_text(v)));
            assert(items[p + ni].param.name == x);
        }
    }
}

/// A compiled patch is self-contained: its first pair is always the target
/// entity's identifier-equality pair; a create never carries one.
pub proof fn lemma_patch_self_contained(target: u128, s: Seq<DescModel>, doc: DocModel,
    items: Seq<ItemModel>)
    requires
        compile_spec(CompileMode::Patch { target }, s, doc) == Ok::<_, ErrModel>(Some(items)),
    ensures
        items.len() >= 1,
        items[0] == id_item(target),
{
}

proof fn lemma_schema_wf_drop_last(s: Seq<DescModel>)
    requires
        schema_wf(s),
        s.len() > 0,
    ensures
        schema_wf(s.drop_last()),
{
    let sp = s.drop_last();
    assert forall|j: int| 0 <= j < sp.len() implies !(#[trigger] field_names(sp[j])).contains(
        "id"@,
    ) by {
        assert(sp[j] == s[j]);
    }
    assert forall|j: int| 0 <= j < sp.len() implies crate::schema::distinct_names(
        #[trigger] field_names(sp[j]),
    ) by {
        assert(sp[j] == s[j]);
    }
    assert forall|i: int, j: int, x: Seq<char>|
        #![trigger field_names(sp[i]).contains(x), field_names(sp[j]).contains(x)]
        0 <= i < sp.len() && 0 <= j < sp.len() && i != j && field_names(sp[i]).contains(
            x,
        ) implies !field_names(sp[j]).contains(x) by {
        assert(sp[i] == s[i]);
        assert(sp[j] == s[j]);
        assert(field_names(s[i]).contains(x) ==> !field_names(s[j]).contains(x));
    }
}

proof fn lemma_fields_param_names_unique(mode: CompileMode, s: Seq<DescModel>, doc: DocModel,
    items: Seq<ItemModel>)
    requires
        schema_wf(s),
        compile_fields(mode, s, doc) == Ok::<_, ErrModel>(items),
    ensures
        forall|k1: int, k2: int|
            0 <= k1 < k2 < items.len() ==> (#[trigger] items[k1]).param.name != (
            #[trigger] items[k2]).param.name,
    decreases s.len(),
{
    if s.len() == 0 {
    } else {
        let sp = s.drop_last();
        let d = s.last();
        let prev = ok_items(compile_fields(mode, sp, doc));
        assert(compile_fields(mode, sp, doc) == Ok::<_, ErrModel>(prev));
        lemma_schema_wf_drop_last(s);
        lemma_fields_param_names_unique(mode, sp, doc, prev);
        lemma_emitted_names(mode, sp, doc, prev);
        match field_slot(mode, d, doc) {
            Ok(Some(v)) => {
                assert(items == prev + emit_field(mode, d, v));
                let seg = emit_field(mode, d, v);
                assert forall|k0: int| 0 <= k0 < seg.len() implies (#[trigger] seg[k0]).param.name
                    == field_names(d)[k0] by {
                    if k0 == 0 {
                        assert(seg[0] == field_item(mode, d, v));
                    } else {
                        assert(seg[k0] == derive_items(d.derives, derive_source_text(v))[k0 - 1]);
                    }
                }
                assert(seg.len() <= field_names(d).len());
                assert forall|k1: int, k2: int|
                    0 <= k1 < k2 < items.len() implies (#[trigger] items[k1]).param.name != (
                    #[trigger] items[k2]).param.name by {
                    if k2 < prev.len() {
                        assert(items[k1] == prev[k1] && items[k2] == prev[k2]);
                    } else if k1 >= prev.len() {
                        // both in the last field's block: its names are distinct
                        let a = k1 - prev.len();
                        let b = k2 - prev.len();
                        assert(items[k1] == seg[a] && items[k2] == seg[b]);
                        assert(seg[a].param.name == field_names(d)[a]);
                        assert(seg[b].param.name == field_names(d)[b]);
                        assert(crate::schema::distinct_names(field_names(s[s.len() - 1])));
                    } else {
                        // one name belongs to an earlier field, one to the last
                        let b = k2 - prev.len();
                        assert(items[k1] == prev[k1] && items[k2] == seg[b]);
                        assert(expected_param(sp, doc, prev[k1].param.name));
                        let j = choose|j: int|
                            0 <= j < sp.len() && doc_has(doc, (#[trigger] sp[j]).name)
                                && field_names(sp[j]).contains(prev[k1].param.name);
                        assert(sp[j] == s[j]);
                        assert(seg[b].param.name == field_names(d)[b]);
                        assert(field_names(s[s.len() - 1]).contains(seg[b].param.name));
                        assert(j != s.len() - 1);
                        assert(!field_names(s[s.len() - 1]).contains(prev[k1].param.name));
                    }
                }
            },
            Ok(None) => {
                assert(items == prev);
            },
            Err(_) => {
                assert(false);
            },
        }
    }
}

/// Within one compiled mutation every parameter name is bound exactly
/// once, so each fragment's `$name` reference resolves to one value.
pub proof fn lemma_param_names_unique(mode: CompileMode, s: Seq<DescModel>, doc: DocModel,
    items: Seq<ItemModel>)
    requires
        schema_wf(s),
        compile_spec(mode, s, doc) == Ok::<_, ErrModel>(Some(items)),
    ensures
        forall|k1: int, k2: int|
            0 <= k1 < k2 < items.len() ==> (#[trigger] items[k1]).param.name != (
            #[trigger] items[k2]).param.name,
{
    let fitems = ok_items(compile_fields(mode, s, doc));
    assert(compile_fields(mode, s, doc) == Ok::<_, ErrModel>(fitems));
    lemma_fields_param_names_unique(mode, s, doc, fitems);
    lemma_emitted_names(mode, s, doc, fitems);
    match mode {
        CompileMode::Patch { target } => {
            assert(items == seq![id_item(target)] + fitems);
            assert forall|k1: int, k2: int|
                0 <= k1 < k2 < items.len() implies (#[trigger] items[k1]).param.name != (
                #[trigger] items[k2]).param.name by {
                if k1 == 0 {
                    assert(items[0] == id_item(target));
                    assert(items[k2] == fitems[k2 - 1]);
                    assert(expected_param(s, doc, fitems[k2 - 1].param.name));
                    let j = choose|j: int|
                        0 <= j < s.len() && doc_has(doc, (#[trigger] s[j]).name) && field_names(
                            s[j],
                        ).contains(fitems[k2 - 1].param.name);
                    assert(!field_names(s[j]).contains("id"@));
                } else {
                    assert(items[k1] == fitems[k1 - 1] && items[k2] == fitems[k2 - 1]);
                }
            }
        },
        CompileMode::Create => {
            assert(items == fitems);
        },
    }
}

/// Idempotence: the compiler's result is a function of its inputs alone, so
/// compiling the same document twice yields identical fragment sequences
/// and identical parameter bindings, character for character.
pub proof fn lemma_compile_deterministic(mode: CompileMode, s: Seq<DescModel>, doc: DocModel,
    r1: Result<CompileOutcome, CompileError>, r2: Result<CompileOutcome, CompileError>)
    requires
        result_model(r1) == compile_spec(mode, s, doc),
        result_model(r2) == compile_spec(mode, s, doc),
    ensures
        result_model(r1) == result_model(r2),
{
}

} // verus!
