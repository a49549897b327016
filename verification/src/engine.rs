//! The capability-implementation scanner and the whole two-pass run:
//! classify the path summaries, then walk every item, select the
//! implementations of the marker capability whose target is a
//! resolved-path reference, resolve each target and map it. When the
//! capability is not found the run produces no output, not an error.

use vstd::prelude::*;
use crate::error::Error;
use crate::known::{KnownEntry, classify_known, spec_capability_id, spec_classify_table};
use crate::mapper::{gen_for, spec_gen_for};
use crate::model::{FieldType, Id, Item, ItemGraph, ItemPayload, lookup_item, spec_lookup_item};
use crate::schema::{Output, SpecObject, SpecOutput};

verus! {

/// What scanning one item adds to the output: an implementation of the
/// marker capability for a resolved-path target maps that target; every
/// other item (another impl, another target shape, any other kind) adds
/// nothing. A capability implementation whose target identifier does not
/// resolve breaks the graph's consistency contract.
pub open spec fn spec_scan_step(it: Item, g: ItemGraph, ser_id: Id, known: Seq<KnownEntry>) -> Result<
    (Seq<SpecObject>, Seq<Seq<char>>),
    Error,
> {
    match it.payload {
        ItemPayload::Impl(d) => if d.trait_id == Some(ser_id) {
            match d.for_type {
                FieldType::ResolvedPath(pr) => match spec_lookup_item(g.items@, pr.id) {
                    None => Err(Error::MissingItem { id: pr.id }),
                    Some(target) => spec_gen_for(target, g, known),
                },
                _ => Ok((Seq::<SpecObject>::empty(), Seq::<Seq<char>>::empty())),
            }
        } else {
            Ok((Seq::<SpecObject>::empty(), Seq::<Seq<char>>::empty()))
        },
        _ => Ok((Seq::<SpecObject>::empty(), Seq::<Seq<char>>::empty())),
    }
}

/// The scanner pass over a prefix of the item store: the emitted schemas
/// and skip records of every selected implementation, in scan order,
/// stopping at the first failure.
pub open spec fn spec_scan(items: Seq<Item>, g: ItemGraph, ser_id: Id, known: Seq<KnownEntry>) -> Result<
    (Seq<SpecObject>, Seq<Seq<char>>),
    Error,
>
    decreases items.len(),
{
    if items.len() == 0 {
        Ok((Seq::<SpecObject>::empty(), Seq::<Seq<char>>::empty()))
    } else {
        match spec_scan(items.drop_last(), g, ser_id, known) {
            Err(e) => Err(e),
            Ok(acc) => match spec_scan_step(items.last(), g, ser_id, known) {
                Err(e) => Err(e),
                Ok(c) => Ok((acc.0 + c.0, acc.1 + c.1)),
            },
        }
    }
}

/// A failure met at some item stops the whole scan: the result over the
/// full item store is the failure over the prefix that met it.
proof fn lemma_scan_err_persists(
    items: Seq<Item>,
    g: ItemGraph,
    ser_id: Id,
    known: Seq<KnownEntry>,
    k: int,
)
    requires
        0 <= k <= items.len(),
        spec_scan(items.take(k), g, ser_id, known) is Err,
    ensures
        spec_scan(items, g, ser_id, known) == spec_scan(items.take(k), g, ser_id, known),
    decreases items.len() - k,
{
    if k == items.len() {
        assert(items.take(k) =~= items);
    } else {
        assert(items.take(k + 1).drop_last() =~= items.take(k));
        lemma_scan_err_persists(items, g, ser_id, known, k + 1);
    }
}

/// The whole run as a mathematical function of the item graph. Absent
/// capability: empty output. Otherwise: the scanner's result over the
/// full item store, against the classifier's table.
pub open spec fn spec_run(g: ItemGraph) -> Result<SpecOutput, Error> {
    match spec_capability_id(g.paths@) {
        None => Ok(
            SpecOutput { types: Seq::<SpecObject>::empty(), skipped: Seq::<Seq<char>>::empty() },
        ),
        Some(ser) => match spec_scan(g.items@, g, ser, spec_classify_table(g.paths@)) {
            Err(e) => Err(e),
            Ok(c) => Ok(SpecOutput { types: c.0, skipped: c.1 }),
        },
    }
}

/// View of a run's result.
pub open spec fn run_res(r: Result<Output, Error>) -> Result<SpecOutput, Error> {
    match r {
        Ok(o) => Ok(o@),
        Err(e) => Err(e),
    }
}

/// Runs both passes over the item graph and collects the output.
pub fn run(g: &ItemGraph) -> (r: Result<Output, Error>)
    ensures
        run_res(r) == spec_run(*g),
{
    let (known, ser_opt) = classify_known(&g.paths);
    let mut out = Output::empty();
    let ser = match ser_opt {
        Some(s) => s,
        None => {
            return Ok(out);
        },
    };
    let mut i: usize = 0;
    proof {
        assert(g.items@.take(0) =~= Seq::<Item>::empty());
    }
    while i < g.items.len()
        invariant
            0 <= i <= g.items@.len(),
            known.entries@ == spec_classify_table(g.paths@),
            Some(ser) == spec_capability_id(g.paths@),
            spec_scan(g.items@.take(i as int), *g, ser, known.entries@) == Ok::<
                (Seq<SpecObject>, Seq<Seq<char>>),
                Error,
            >((out@.types, out@.skipped)),
        decreases g.items@.len() - i,
    {
        proof {
            assert(g.items@.take(i as int + 1).drop_last() =~= g.items@.take(i as int));
            assert(g.items@.take(i as int + 1).last() == g.items@[i as int]);
        }
        let it = &g.items[i];
        match &it.payload {
            ItemPayload::Impl(d) => {
                let is_capability_impl = match &d.trait_id {
                    Some(t) => *t == ser,
                    None => false,
                };
                if is_capability_impl {
                    match &d.for_type {
                        FieldType::ResolvedPath(pr) => {
                            let target = match lookup_item(&g.items, pr.id) {
                                Some(target) => target,
                                None => {
                                    proof {
                                        lemma_scan_err_persists(
                                            g.items@,
                                            *g,
                                            ser,
                                            known.entries@,
                                            i as int + 1,
                                        );
                                    }
                                    return Err(Error::MissingItem { id: pr.id });
                                },
                            };
                            match gen_for(target, g, &known, &mut out) {
                                Ok(u) => {},
                                Err(e) => {
                                    proof {
                                        lemma_scan_err_persists(
                                            g.items@,
                                            *g,
                                            ser,
                                            known.entries@,
                                            i as int + 1,
                                        );
                                    }
                                    return Err(e);
                                },
                            }
                        },
                        FieldType::Primitive(_) => {},
                        FieldType::Other => {},
                    }
                }
            },
            _ => {},
        }
        proof {
            assert(spec_scan(g.items@.take(i as int + 1), *g, ser, known.entries@) == Ok::<
                (Seq<SpecObject>, Seq<Seq<char>>),
                Error,
            >((out@.types, out@.skipped)));
        }
        i = i + 1;
    }
    proof {
        assert(g.items@.take(g.items@.len() as int) =~= g.items@);
        assert(out@ =~= (SpecOutput { types: out@.types, skipped: out@.skipped }));
    }
    Ok(out)
}

} // verus!
