//! The derived-field expander: deterministic, total rules that compute a
//! dependent field's value from its source field's decoded value. A
//! malformed or absent source derives from the empty string — expansion is a
//! best-effort convenience, never a validation gate.

use vstd::prelude::*;
use crate::values::{FieldValue, ValueModel};

verus! {

/// The rule by which a derived field's value is computed from its source.
#[derive(Clone, Copy, Debug, PartialEq, Eq, Structural)]
pub enum DeriveKind {
    RenderedHtml,
    Excerpt,
}

/// Character budget of a generated excerpt.
pub const EXCERPT_CHAR_LIMIT: usize = 200;

/// The rendered form of a body: the source text emitted as one paragraph.
pub open spec fn html_of(s: Seq<char>) -> Seq<char> {
    "<p>"@ + s + "</p>"@
}

/// The excerpt of a body: its first `EXCERPT_CHAR_LIMIT` characters.
pub open spec fn excerpt_of(s: Seq<char>) -> Seq<char> {
    if s.len() <= EXCERPT_CHAR_LIMIT {
        s
    } else {
        s.take(EXCERPT_CHAR_LIMIT as int)
    }
}

/// The text a derive rule reads from the decoded source value: the string
/// itself for a textual value, the empty string for anything else.
pub open spec fn derive_source_text(v: ValueModel) -> Seq<char> {
    match v {
        ValueModel::Str(s) => s,
        _ => Seq::empty(),
    }
}

pub open spec fn apply_derive_spec(kind: DeriveKind, source: Seq<char>) -> Seq<char> {
    match kind {
        DeriveKind::RenderedHtml => html_of(source),
        DeriveKind::Excerpt => excerpt_of(source),
    }
}

pub fn render_html(source: &str) -> (r: String)
    ensures
        r@ == html_of(source@),
{
    String::from_str("<p>").concat(source).concat("</p>")
}

pub fn make_excerpt(source: &str) -> (r: String)
    ensures
        r@ == excerpt_of(source@),
{
    let len = source.unicode_len();
    if len <= EXCERPT_CHAR_LIMIT {
        String::from_str(source)
    } else {
        let cut = source.substring_char(0, EXCERPT_CHAR_LIMIT);
        proof {
            assert(cut@ =~= source@.take(EXCERPT_CHAR_LIMIT as int));
        }
        String::from_str(cut)
    }
}

/// Apply a derive rule to a decoded source value.
pub fn apply_derive(kind: DeriveKind, source: &FieldValue) -> (r: String)
    ensures
        r@ == apply_derive_spec(kind, derive_source_text(source@)),
{
    proof {
        reveal_strlit("");
        assert(""@ =~= Seq::<char>::empty());
    }
    match source {
        FieldValue::Str(s) => match kind {
            DeriveKind::RenderedHtml => render_html(s.as_str()),
            DeriveKind::Excerpt => make_excerpt(s.as_str()),
        },
        _ => match kind {
            DeriveKind::RenderedHtml => render_html(""),
            DeriveKind::Excerpt => make_excerpt(""),
        },
    }
}

} // verus!
