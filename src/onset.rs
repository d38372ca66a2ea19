use vstd::prelude::*;
use vstd::string::{StrSliceExecFns, StringExecFns};

use crate::curie::OntologyClass;

verus! {

/// The fixed vocabulary of onset categories, as `(id, label)` pairs.
pub open spec fn onset_table() -> Seq<(Seq<char>, Seq<char>)> {
    seq![
        ("HP:0030674"@, "Antenatal onset"@),
        ("HP:0011460"@, "Embryonal onset"@),
        ("HP:0011461"@, "Fetal onset"@),
        ("HP:0034199"@, "Late first trimester onset"@),
        ("HP:0034198"@, "Second trimester onset"@),
        ("HP:0034197"@, "Third trimester onset"@),
        ("HP:0003577"@, "Congenital onset"@),
        ("HP:0003623"@, "Neonatal onset"@),
        ("HP:0003593"@, "Infantile onset"@),
        ("HP:0011463"@, "Childhood onset"@),
        ("HP:0003621"@, "Juvenile onset"@),
        ("HP:0003581"@, "Adult onset"@),
        ("HP:0011462"@, "Young adult onset"@),
        ("HP:0025708"@, "Early young adult onset"@),
        ("HP:0025709"@, "Intermediate young adult onset"@),
        ("HP:0025710"@, "Late young adult onset"@),
        ("HP:0003596"@, "Middle age onset"@),
        ("HP:0003584"@, "Late onset"@),
    ]
}

/// The first entry of the vocabulary, from index `i` on, whose label is
/// exactly `label`.
pub open spec fn onset_lookup_from(label: Seq<char>, i: nat) -> Option<(Seq<char>, Seq<char>)>
    decreases onset_table().len() - i,
{
    if i >= onset_table().len() {
        None
    } else if onset_table()[i as int].1 == label {
        Some(onset_table()[i as int])
    } else {
        onset_lookup_from(label, i + 1)
    }
}

/// The vocabulary entry whose label is exactly `label`, if any.
pub open spec fn onset_lookup(label: Seq<char>) -> Option<(Seq<char>, Seq<char>)> {
    onset_lookup_from(label, 0)
}

fn onset_entries() -> (v: Vec<(&'static str, &'static str)>)
    ensures
        v@.len() == onset_table().len(),
        forall|i: int| 0 <= i < v@.len() ==> (#[trigger] v@[i].0@, v@[i].1@) == onset_table()[i],
{
    let v = vec![
        ("HP:0030674", "Antenatal onset"),
        ("HP:0011460", "Embryonal onset"),
        ("HP:0011461", "Fetal onset"),
        ("HP:0034199", "Late first trimester onset"),
        ("HP:0034198", "Second trimester onset"),
        ("HP:0034197", "Third trimester onset"),
        ("HP:0003577", "Congenital onset"),
        ("HP:0003623", "Neonatal onset"),
        ("HP:0003593", "Infantile onset"),
        ("HP:0011463", "Childhood onset"),
        ("HP:0003621", "Juvenile onset"),
        ("HP:0003581", "Adult onset"),
        ("HP:0011462", "Young adult onset"),
        ("HP:0025708", "Early young adult onset"),
        ("HP:0025709", "Intermediate young adult onset"),
        ("HP:0025710", "Late young adult onset"),
        ("HP:0003596", "Middle age onset"),
        ("HP:0003584", "Late onset"),
    ];
    v
}

/// Whether two strings hold the same characters.
pub fn same_text(a: &str, b: &str) -> (r: bool)
    ensures
        r == (a@ == b@),
{
    let n = a.unicode_len();
    if n != b.unicode_len() {
        return false;
    }
    let mut i: usize = 0;
    while i < n
        invariant
            n == a@.len(),
            n == b@.len(),
            0 <= i <= n,
            forall|k: int| 0 <= k < i ==> a@[k] == b@[k],
        decreases n - i,
    {
        if a.get_char(i) != b.get_char(i) {
            return false;
        }
        i = i + 1;
    }
    assert(a@ =~= b@);
    true
}

/// The onset category whose label is exactly `label` (case-sensitive), as
/// a copy of the vocabulary entry.
pub fn get_onset_by_label(label: &str) -> (r: Option<OntologyClass>)
    ensures
        match r {
            None => onset_lookup(label@) is None,
            Some(c) => onset_lookup(label@) == Some(c@),
        },
{
    let entries = onset_entries();
    let mut i: usize = 0;
    while i < entries.len()
        invariant
            entries@.len() == onset_table().len(),
            forall|k: int|
                0 <= k < entries@.len() ==> (#[trigger] entries@[k].0@, entries@[k].1@)
                    == onset_table()[k],
            0 <= i <= entries@.len(),
            onset_lookup(label@) == onset_lookup_from(label@, i as nat),
        decreases entries.len() - i,
    {
        let (id, name) = entries[i];
        assert((entries@[i as int].0@, entries@[i as int].1@) == onset_table()[i as int]);
        if same_text(name, label) {
            return Some(OntologyClass { id: String::from_str(id), label: String::from_str(name) });
        }
        i = i + 1;
    }
    None
}

} // verus!
