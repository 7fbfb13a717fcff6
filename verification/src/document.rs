//! The patch document — the caller's create/patch payload as a mapping from
//! field name to raw value — and the presence tracker, which computes the
//! set of names the caller actually supplied (a null value still counts as
//! supplied).

use vstd::prelude::*;
use crate::values::{RawValue, RawModel};
use crate::text::str_eq;

verus! {

/// The mathematical shape of a patch document: its entries in order.
pub type DocModel = Seq<(Seq<char>, RawModel)>;

/// A create/patch payload, as literally supplied by the caller: field names
/// paired with the raw values, in the order the decoded object yields them.
#[derive(Debug, Clone)]
pub struct PatchDocument {
    pub entries: Vec<(String, RawValue)>,
}

impl View for PatchDocument {
    type V = DocModel;

    open spec fn view(&self) -> DocModel {
        self.entries.deep_view()
    }
}

/// The field names of a document, in order.
pub open spec fn doc_keys(d: DocModel) -> Seq<Seq<char>> {
    d.map(|i: int, e: (Seq<char>, RawModel)| e.0)
}

/// Whether the caller supplied the named field at all.
pub open spec fn doc_has(d: DocModel, name: Seq<char>) -> bool {
    exists|j: int| 0 <= j < d.len() && d[j].0 == name
}

/// A well-formed document names each field at most once.
pub open spec fn doc_wf(d: DocModel) -> bool {
    forall|i: int, j: int| 0 <= i < j < d.len() ==> d[i].0 != d[j].0
}

/// The raw value of the first entry with the given name.
pub open spec fn doc_value(d: DocModel, name: Seq<char>) -> RawModel
    decreases d.len(),
{
    if d.len() == 0 {
        RawModel::Null
    } else if d[0].0 == name {
        d[0].1
    } else {
        doc_value(d.drop_first(), name)
    }
}

pub proof fn lemma_doc_value_at(d: DocModel, name: Seq<char>, i: int)
    requires
        0 <= i < d.len(),
        d[i].0 == name,
        forall|k: int| 0 <= k < i ==> d[k].0 != name,
    ensures
        doc_has(d, name),
        doc_value(d, name) == d[i].1,
    decreases i,
{
    if i > 0 {
        lemma_doc_value_at(d.drop_first(), name, i - 1);
    }
}

impl PatchDocument {
    pub fn new() -> (r: PatchDocument)
        ensures
            r@ == Seq::<(Seq<char>, RawModel)>::empty(),
    {
        let r = PatchDocument { entries: Vec::new() };
        proof {
            assert(r@ =~= Seq::<(Seq<char>, RawModel)>::empty());
        }
        r
    }

    /// Append one supplied field.
    pub fn push(&mut self, name: String, value: RawValue)
        ensures
            final(self)@ == old(self)@.push((name@, value@)),
    {
        let ghost before = self@;
        self.entries.push((name, value));
        proof {
            assert(self@ =~= before.push((self.entries@.last().0@, self.entries@.last().1@)));
        }
    }

    /// Look up the raw value supplied for a field name.
    pub fn get<'a>(&'a self, name: &str) -> (r: Option<&'a RawValue>)
        ensures
            match r {
                Some(v) => doc_has(self@, name@) && v@ == doc_value(self@, name@),
                None => !doc_has(self@, name@),
            },
    {
        let mut i: usize = 0;
        while i < self.entries.len()
            invariant
                i <= self.entries.len(),
                self@.len() == self.entries.len(),
                forall|k: int| 0 <= k < i ==> self@[k].0 != name@,
            decreases self.entries.len() - i,
        {
            proof {
                assert(self@[i as int] == (self.entries@[i as int].0@, self.entries@[i as int].1@));
            }
            if str_eq(self.entries[i].0.as_str(), name) {
                proof {
                    lemma_doc_value_at(self@, name@, i as int);
                }
                return Some(&self.entries[i].1);
            }
            i = i + 1;
        }
        None
    }
}

/// The presence tracker: the names the caller's payload actually contained,
/// in payload order, independent of whether their values later decode.
pub fn presence_of(doc: &PatchDocument) -> (r: Vec<String>)
    ensures
        r.deep_view() == doc_keys(doc@),
{
    let mut r: Vec<String> = Vec::new();
    let mut i: usize = 0;
    while i < doc.entries.len()
        invariant
            i <= doc.entries.len(),
            doc@.len() == doc.entries.len(),
            r.deep_view() =~= doc_keys(doc@).take(i as int),
        decreases doc.entries.len() - i,
    {
        let ghost prev_seq = r@;
        let ghost prev_deep = r.deep_view();
        let key = doc.entries[i].0.clone();
        proof {
            assert(key == doc.entries@[i as int].0);
        }
        r.push(key);
        proof {
            assert(r@ == prev_seq.push(doc.entries@[i as int].0));
            assert(prev_deep.len() == prev_seq.len());
            assert(doc_keys(doc@).len() == doc@.len());
            assert(prev_seq.len() == i);
            assert forall|k: int| 0 <= k < r.deep_view().len() implies r.deep_view()[k]
                == doc_keys(doc@).take(i + 1)[k] by {
                assert(r.deep_view()[k] == r@[k]@);
                if k < i {
                    assert(r@[k] == prev_seq[k]);
                    assert(prev_deep[k] == prev_seq[k]@);
                    assert(prev_deep[k] == doc_keys(doc@).take(i as int)[k]);
                } else {
                    assert(r@[k] == doc.entries@[i as int].0);
                }
            }
            assert(r.deep_view() =~= doc_keys(doc@).take(i + 1));
        }
        i = i + 1;
    }
    proof {
        assert(doc_keys(doc@).take(doc.entries.len() as int) =~= doc_keys(doc@));
    }
    r
}

/// Membership of a name in a list of names.
pub fn contains_name(names: &Vec<String>, name: &str) -> (r: bool)
    ensures
        r == names.deep_view().contains(name@),
{
    let mut i: usize = 0;
    while i < names.len()
        invariant
            i <= names.len(),
            forall|k: int| 0 <= k < i ==> names.deep_view()[k] != name@,
        decreases names.len() - i,
    {
        if str_eq(names[i].as_str(), name) {
            proof {
                assert(names.deep_view()[i as int] == name@);
            }
            return true;
        }
        i = i + 1;
    }
    proof {
        assert(forall|k: int| 0 <= k < names.deep_view().len() ==> names.deep_view()[k] != name@);
    }
    false
}

} // verus!
