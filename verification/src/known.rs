//! The known-type classifier: a single pass over the path summaries that
//! recognizes the closed set of foundational types by exact canonical
//! path, builds the known-type table, and locates the identifier of the
//! marker serialization capability.

use vstd::prelude::*;
use crate::model::{Id, PathEntry};

verus! {

/// The closed set of recognized foundational semantics.
#[derive(Debug, Clone, Copy, PartialEq, Eq, Structural)]
pub enum Known {
    /// The marker serialization capability.
    SerdeSerialize,
    /// The foundational string type.
    StdString,
    /// The foundational optional-wrapper type.
    OptionWrapper,
}

/// One entry of the known-type table.
#[derive(Debug, Clone, Copy, PartialEq, Eq, Structural)]
pub struct KnownEntry {
    pub id: Id,
    pub known: Known,
}

/// The known-type table: identifier to recognized semantic, built once by
/// the classifier and read-only thereafter.
#[derive(Debug, Clone, PartialEq)]
pub struct KnownTable {
    pub entries: Vec<KnownEntry>,
}

/// Exact equality of a path with three given segments.
pub open spec fn path_is(p: Seq<String>, a: Seq<char>, b: Seq<char>, c: Seq<char>) -> bool {
    p.len() == 3 && p[0]@ == a && p[1]@ == b && p[2]@ == c
}

/// The fixed set of recognized path patterns. Matching is by full path
/// equality; the patterns are disjoint by construction.
pub open spec fn spec_match_known(path: Seq<String>) -> Option<Known> {
    if path_is(path, "serde"@, "ser"@, "Serialize"@) {
        Some(Known::SerdeSerialize)
    } else if path_is(path, "alloc"@, "string"@, "String"@) {
        Some(Known::StdString)
    } else if path_is(path, "core"@, "option"@, "Option"@) {
        Some(Known::OptionWrapper)
    } else {
        None
    }
}

/// The known-type table produced by scanning the path entries in order:
/// one entry per recognized summary, in scan order.
pub open spec fn spec_classify_table(paths: Seq<PathEntry>) -> Seq<KnownEntry>
    decreases paths.len(),
{
    if paths.len() == 0 {
        Seq::empty()
    } else {
        spec_classify_table(paths.drop_last()) + (match spec_match_known(
            paths.last().summary.path@,
        ) {
            Some(k) => seq![KnownEntry { id: paths.last().id, known: k }],
            None => Seq::empty(),
        })
    }
}

/// The identifier of the marker capability: the first path entry whose
/// path matches the capability pattern, absent when none does.
pub open spec fn spec_capability_id(paths: Seq<PathEntry>) -> Option<Id>
    decreases paths.len(),
{
    if paths.len() == 0 {
        None
    } else if spec_capability_id(paths.drop_last()) is Some {
        spec_capability_id(paths.drop_last())
    } else if spec_match_known(paths.last().summary.path@) == Some(Known::SerdeSerialize) {
        Some(paths.last().id)
    } else {
        None
    }
}

/// First table entry carrying the given identifier, if any.
pub open spec fn spec_known_lookup(entries: Seq<KnownEntry>, id: Id) -> Option<Known>
    decreases entries.len(),
{
    if entries.len() == 0 {
        None
    } else if entries[0].id == id {
        Some(entries[0].known)
    } else {
        spec_known_lookup(entries.drop_first(), id)
    }
}

/// Equality of a string with a literal pattern segment.
fn string_is(s: &String, lit: &str) -> (r: bool)
    ensures
        r == (s@ == lit@),
{
    let owned: String = lit.to_owned();
    *s == owned
}

/// Exact comparison of a path against three pattern segments.
fn path_matches(path: &Vec<String>, a: &str, b: &str, c: &str) -> (r: bool)
    ensures
        r == path_is(path@, a@, b@, c@),
{
    if path.len() != 3 {
        return false;
    }
    string_is(&path[0], a) && string_is(&path[1], b) && string_is(&path[2], c)
}

/// Classifies one path against the fixed patterns.
fn match_known(path: &Vec<String>) -> (r: Option<Known>)
    ensures
        r == spec_match_known(path@),
{
    if path_matches(path, "serde", "ser", "Serialize") {
        Some(Known::SerdeSerialize)
    } else if path_matches(path, "alloc", "string", "String") {
        Some(Known::StdString)
    } else if path_matches(path, "core", "option", "Option") {
        Some(Known::OptionWrapper)
    } else {
        None
    }
}

/// The classifier pass: builds the known-type table from the path
/// summaries and locates the marker capability's identifier. When the
/// capability is absent the run will produce no output, not an error.
pub fn classify_known(paths: &Vec<PathEntry>) -> (r: (KnownTable, Option<Id>))
    ensures
        r.0.entries@ == spec_classify_table(paths@),
        r.1 == spec_capability_id(paths@),
{
    let mut entries: Vec<KnownEntry> = Vec::new();
    let mut ser_id: Option<Id> = None;
    let mut i: usize = 0;
    proof {
        assert(paths@.take(0) =~= Seq::<PathEntry>::empty());
        assert(entries@ =~= spec_classify_table(paths@.take(0)));
    }
    while i < paths.len()
        invariant
            0 <= i <= paths@.len(),
            entries@ == spec_classify_table(paths@.take(i as int)),
            ser_id == spec_capability_id(paths@.take(i as int)),
        decreases paths@.len() - i,
    {
        proof {
            assert(paths@.take(i as int + 1).drop_last() =~= paths@.take(i as int));
            assert(paths@.take(i as int + 1).last() == paths@[i as int]);
        }
        let entry = &paths[i];
        let m = match_known(&entry.summary.path);
        match m {
            Some(k) => {
                entries.push(KnownEntry { id: entry.id, known: k });
                match k {
                    Known::SerdeSerialize => {
                        if ser_id.is_none() {
                            ser_id = Some(entry.id);
                        }
                    },
                    Known::StdString => {},
                    Known::OptionWrapper => {},
                }
            },
            None => {},
        }
        proof {
            assert(entries@ =~= spec_classify_table(paths@.take(i as int + 1)));
        }
        i = i + 1;
    }
    proof {
        assert(paths@.take(paths@.len() as int) =~= paths@);
    }
    (KnownTable { entries }, ser_id)
}

impl KnownTable {
    /// Exact lookup of a recognized semantic by identifier.
    pub fn get(&self, id: Id) -> (r: Option<Known>)
        ensures
            r == spec_known_lookup(self.entries@, id),
    {
        let mut i: usize = 0;
        proof {
            assert(self.entries@.skip(0) =~= self.entries@);
        }
        while i < self.entries.len()
            invariant
                0 <= i <= self.entries@.len(),
                spec_known_lookup(self.entries@, id) == spec_known_lookup(
                    self.entries@.skip(i as int),
                    id,
                ),
            decreases self.entries@.len() - i,
        {
            if self.entries[i].id == id {
                proof {
                    assert(self.entries@.skip(i as int)[0] == self.entries@[i as int]);
                }
                return Some(self.entries[i].known);
            }
            proof {
                assert(self.entries@.skip(i as int).drop_first() =~= self.entries@.skip(
                    i as int + 1,
                ));
            }
            i = i + 1;
        }
        proof {
            assert(self.entries@.skip(self.entries@.len() as int).len() == 0);
        }
        None
    }
}

} // verus!
