//! The input side of the translation: the item graph, the flat
//! identifier-addressed store of documented entities (structs, traits,
//! implementations, fields) and the path-summary table that accompanies it.
//! Everything here is a read-only snapshot for the duration of a run.

use vstd::prelude::*;

verus! {

/// Identifier of a documented item in the item graph.
pub type Id = u32;

/// Coarse kind tag carried by a path summary.
#[derive(Debug, Clone, Copy, PartialEq, Eq, Structural)]
pub enum SummaryKind {
    Struct,
    Trait,
    Enum,
    Other,
}

/// Canonical module path of an item, as ordered name segments, plus its
/// coarse kind.
#[derive(Debug, Clone, PartialEq)]
pub struct PathSummary {
    pub path: Vec<String>,
    pub kind: SummaryKind,
}

/// One entry of the path-summary table.
#[derive(Debug, Clone, PartialEq)]
pub struct PathEntry {
    pub id: Id,
    pub summary: PathSummary,
}

/// The type standing in a generic-argument position. Only a primitive is
/// ever mapped; every other shape is kept only as "something else".
#[derive(Debug, Clone, PartialEq)]
pub enum ArgType {
    Primitive(String),
    Other,
}

/// One generic argument of a resolved-path reference.
#[derive(Debug, Clone, PartialEq)]
pub enum GenericArg {
    Lifetime,
    Type(ArgType),
    Const,
    Infer,
}

/// The generic arguments attached to a resolved-path reference.
#[derive(Debug, Clone, PartialEq)]
pub enum GenericArgs {
    AngleBracketed(Vec<GenericArg>),
    Parenthesized,
}

/// A reference to another documented item by identifier, together with the
/// generic arguments it was written with (absent when the source carried
/// none at all).
#[derive(Debug, Clone, PartialEq)]
pub struct PathRef {
    pub id: Id,
    pub args: Option<GenericArgs>,
}

/// The declared type of a struct field or of an implementation target.
#[derive(Debug, Clone, PartialEq)]
pub enum FieldType {
    Primitive(String),
    ResolvedPath(PathRef),
    Other,
}

/// The field layout of a struct item. Plain structs carry the identifiers
/// of their field items in declaration order.
#[derive(Debug, Clone, PartialEq)]
pub enum StructKind {
    Unit,
    Tuple,
    Plain { fields: Vec<Id> },
}

/// An implementation record: the trait implemented (absent for inherent
/// impls) and the type it is implemented for.
#[derive(Debug, Clone, PartialEq)]
pub struct ImplData {
    pub trait_id: Option<Id>,
    pub for_type: FieldType,
}

/// The kind-specific payload of an item. Most kinds carry nothing the
/// translation reads; they are still listed as distinct variants so that
/// every consumer handles each shape explicitly.
#[derive(Debug, Clone, PartialEq)]
pub enum ItemPayload {
    Module,
    Struct(StructKind),
    StructField(FieldType),
    Enum,
    Variant,
    Function,
    Trait,
    Impl(ImplData),
    Other,
}

/// A documented item: its identifier, its name where it has one, and its
/// kind-specific payload.
#[derive(Debug, Clone, PartialEq)]
pub struct Item {
    pub id: Id,
    pub name: Option<String>,
    pub payload: ItemPayload,
}

/// The item graph: the identifier-addressed item store plus the
/// path-summary table.
#[derive(Debug, Clone, PartialEq)]
pub struct ItemGraph {
    pub items: Vec<Item>,
    pub paths: Vec<PathEntry>,
}

/// The input contract on the item graph: an identifier appears at most
/// once in the item store and at most once in the path table.
pub open spec fn wf_graph(g: ItemGraph) -> bool {
    (forall|i: int, j: int| 0 <= i < j < g.items@.len() ==> g.items@[i].id != g.items@[j].id)
        && (forall|i: int, j: int|
        0 <= i < j < g.paths@.len() ==> g.paths@[i].id != g.paths@[j].id)
}

/// First item of the store carrying the given identifier, if any.
pub open spec fn spec_lookup_item(items: Seq<Item>, id: Id) -> Option<Item>
    decreases items.len(),
{
    if items.len() == 0 {
        None
    } else if items[0].id == id {
        Some(items[0])
    } else {
        spec_lookup_item(items.drop_first(), id)
    }
}

/// First path summary of the table carrying the given identifier, if any.
pub open spec fn spec_lookup_path(paths: Seq<PathEntry>, id: Id) -> Option<PathSummary>
    decreases paths.len(),
{
    if paths.len() == 0 {
        None
    } else if paths[0].id == id {
        Some(paths[0].summary)
    } else {
        spec_lookup_path(paths.drop_first(), id)
    }
}

/// Exact lookup of an item by identifier.
pub fn lookup_item(items: &Vec<Item>, id: Id) -> (r: Option<&Item>)
    ensures
        match r {
            Some(it) => spec_lookup_item(items@, id) == Some(*it),
            None => spec_lookup_item(items@, id) is None,
        },
{
    let mut i: usize = 0;
    proof {
        assert(items@.skip(0) =~= items@);
    }
    while i < items.len()
        invariant
            0 <= i <= items@.len(),
            spec_lookup_item(items@, id) == spec_lookup_item(items@.skip(i as int), id),
        decreases items@.len() - i,
    {
        if items[i].id == id {
            proof {
                assert(items@.skip(i as int)[0] == items@[i as int]);
            }
            return Some(&items[i]);
        }
        proof {
            assert(items@.skip(i as int).drop_first() =~= items@.skip(i as int + 1));
        }
        i = i + 1;
    }
    proof {
        assert(items@.skip(items@.len() as int).len() == 0);
    }
    None
}

/// Exact lookup of a path summary by identifier.
pub fn lookup_path(paths: &Vec<PathEntry>, id: Id) -> (r: Option<&PathSummary>)
    ensures
        match r {
            Some(s) => spec_lookup_path(paths@, id) == Some(*s),
            None => spec_lookup_path(paths@, id) is None,
        },
{
    let mut i: usize = 0;
    proof {
        assert(paths@.skip(0) =~= paths@);
    }
    while i < paths.len()
        invariant
            0 <= i <= paths@.len(),
            spec_lookup_path(paths@, id) == spec_lookup_path(paths@.skip(i as int), id),
        decreases paths@.len() - i,
    {
        if paths[i].id == id {
            proof {
                assert(paths@.skip(i as int)[0] == paths@[i as int]);
            }
            return Some(&paths[i].summary);
        }
        proof {
            assert(paths@.skip(i as int).drop_first() =~= paths@.skip(i as int + 1));
        }
        i = i + 1;
    }
    proof {
        assert(paths@.skip(paths@.len() as int).len() == 0);
    }
    None
}

} // verus!
