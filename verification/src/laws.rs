//! General properties of the translation, stated over the same spec
//! functions the executable contracts use, and proved once and for all.

use vstd::prelude::*;
use crate::engine::{spec_run, spec_scan, spec_scan_step};
use crate::error::Error;
use crate::known::{Known, KnownEntry, spec_capability_id, spec_classify_table, spec_known_lookup};
use crate::mapper::{spec_fields, spec_gen_for};
use crate::model::{
    FieldType, GenericArgs, Id, Item, ItemGraph, ItemPayload, PathEntry, PathRef, StructKind,
    spec_lookup_item, wf_graph,
};
use crate::resolve::{
    ArgScan, spec_field_name, spec_handle_struct_field, spec_resolve_field, spec_scan_args,
};
use crate::schema::{SpecField, SpecObject, SpecOutput, SpecStructField, SpecValue};

verus! {

/// Running the two passes twice over the same unmodified item graph
/// yields identical output: any two results the engine's contract admits
/// for one graph are equal.
pub proof fn lemma_run_idempotent(
    g: ItemGraph,
    r1: Result<SpecOutput, Error>,
    r2: Result<SpecOutput, Error>,
)
    requires
        r1 == spec_run(g),
        r2 == spec_run(g),
    ensures
        r1 == r2,
{
}

/// When the marker capability is absent from the path summaries, the run
/// produces no output and records nothing, and this is not an error.
pub proof fn lemma_no_capability_no_output(g: ItemGraph)
    requires
        spec_capability_id(g.paths@) is None,
    ensures
        spec_run(g) == Ok::<SpecOutput, Error>(
            SpecOutput { types: Seq::<SpecObject>::empty(), skipped: Seq::<Seq<char>>::empty() },
        ),
{
}

/// A field whose declared type is the marker capability itself is dropped
/// entirely by the resolver, so it is never present in any emitted schema.
pub proof fn lemma_capability_field_dropped(
    known: Seq<KnownEntry>,
    g: ItemGraph,
    item: Item,
    rp: PathRef,
)
    requires
        item.name is Some,
        spec_known_lookup(known, rp.id) == Some(Known::SerdeSerialize),
    ensures
        spec_handle_struct_field(known, g, item, rp) == Ok::<Option<SpecField>, Error>(None),
{
}

/// A struct implementing the marker capability but carrying no supported
/// fields (a unit or tuple layout, or a plain layout all of whose fields
/// resolve to nothing) yields no object schema; the skip is recorded
/// under the struct's name, and is not a failure.
pub proof fn lemma_empty_struct_not_emitted(item: Item, g: ItemGraph, known: Seq<KnownEntry>)
    requires
        item.name is Some,
        item.payload matches ItemPayload::Struct(sk) && match sk {
            StructKind::Unit => true,
            StructKind::Tuple => true,
            StructKind::Plain { fields } => spec_fields(fields@, g, known) == Ok::<
                Seq<SpecField>,
                Error,
            >(Seq::<SpecField>::empty()),
        },
    ensures
        spec_gen_for(item, g, known) == Ok::<(Seq<SpecObject>, Seq<Seq<char>>), Error>(
            (Seq::<SpecObject>::empty(), seq![item.name->Some_0@]),
        ),
{
}

/// One declared field whose item resolves, is named, and is typed either
/// as the supported 8-bit unsigned primitive or as the foundational
/// string type.
pub open spec fn plain_scalar_field(fid: Id, g: ItemGraph, known: Seq<KnownEntry>) -> bool {
    spec_lookup_item(g.items@, fid) matches Some(fit) && (fit.name is Some && (
    fit.payload matches ItemPayload::StructField(ft) && ((ft matches FieldType::Primitive(p) && p@
        == "u8"@) || (ft matches FieldType::ResolvedPath(rp) && spec_known_lookup(known, rp.id)
        == Some(Known::StdString)))))
}

/// The schema kind a string-typed or 8-bit-unsigned-typed field is owed:
/// a number for the primitive, a string for the foundational string type.
pub open spec fn scalar_kind(fid: Id, g: ItemGraph) -> SpecValue {
    if spec_lookup_item(g.items@, fid)->Some_0.payload matches ItemPayload::StructField(
        FieldType::Primitive(p),
    ) {
        SpecValue::VNumber
    } else {
        SpecValue::VString
    }
}

/// A string-typed or 8-bit-unsigned-typed field resolves to exactly one
/// descriptor, marked required, under the field item's own name, with the
/// declared type's schema kind.
pub proof fn lemma_scalar_field_required(fid: Id, g: ItemGraph, known: Seq<KnownEntry>)
    requires
        plain_scalar_field(fid, g, known),
    ensures
        spec_resolve_field(fid, g, known) is Ok,
        spec_resolve_field(fid, g, known)->Ok_0 is Some,
        spec_resolve_field(fid, g, known)->Ok_0->Some_0.required == true,
        spec_resolve_field(fid, g, known)->Ok_0->Some_0.field.name == spec_lookup_item(
            g.items@,
            fid,
        )->Some_0.name->Some_0@,
        spec_resolve_field(fid, g, known)->Ok_0->Some_0.field.value == scalar_kind(fid, g),
{
}

/// One declared field whose item resolves, is named, and is typed as the
/// foundational optional wrapper around the supported 8-bit unsigned
/// primitive.
pub open spec fn optional_u8_field(fid: Id, g: ItemGraph, known: Seq<KnownEntry>) -> bool {
    spec_lookup_item(g.items@, fid) matches Some(fit) && (fit.name is Some && (
    fit.payload matches ItemPayload::StructField(FieldType::ResolvedPath(rp)) && (
    spec_known_lookup(known, rp.id) == Some(Known::OptionWrapper) && (
    rp.args matches Some(GenericArgs::AngleBracketed(args)) && spec_scan_args(args@)
        == ArgScan::FoundPrim("u8"@)))))
}

/// A field of the optional wrapper around a supported primitive resolves
/// to a descriptor marked optional, carrying the wrapped primitive's
/// schema kind, under the field item's own name.
pub proof fn lemma_optional_wrapper_field(fid: Id, g: ItemGraph, known: Seq<KnownEntry>)
    requires
        optional_u8_field(fid, g, known),
    ensures
        spec_resolve_field(fid, g, known) == Ok::<Option<SpecField>, Error>(
            Some(
                SpecField {
                    required: false,
                    field: SpecStructField {
                        name: spec_lookup_item(g.items@, fid)->Some_0.name->Some_0@,
                        value: SpecValue::VNumber,
                    },
                },
            ),
        ),
{
}

/// Every identifier in the classifier's table is the identifier of some
/// path entry.
proof fn lemma_table_ids_from_paths(paths: Seq<PathEntry>, k: int)
    requires
        0 <= k < spec_classify_table(paths).len(),
    ensures
        exists|i: int|
            0 <= i < paths.len() && #[trigger] paths[i].id == spec_classify_table(paths)[k].id,
    decreases paths.len(),
{
    if paths.len() == 0 {
        assert(false);
    } else {
        let prefix = paths.drop_last();
        let t = spec_classify_table(prefix);
        if k < t.len() {
            lemma_table_ids_from_paths(prefix, k);
            let i = choose|i: int| 0 <= i < prefix.len() && prefix[i].id == t[k].id;
            assert(paths[i] == prefix[i]);
            assert(spec_classify_table(paths)[k] == t[k]);
        } else {
            assert(spec_classify_table(paths)[k].id == paths[paths.len() - 1].id);
        }
    }
}

/// Over a path table with unique identifiers the classifier's entries
/// carry unique identifiers too.
proof fn lemma_table_unique_ids(paths: Seq<PathEntry>, k1: int, k2: int)
    requires
        forall|i: int, j: int| 0 <= i < j < paths.len() ==> paths[i].id != paths[j].id,
        0 <= k1 < k2 < spec_classify_table(paths).len(),
    ensures
        spec_classify_table(paths)[k1].id != spec_classify_table(paths)[k2].id,
    decreases paths.len(),
{
    let prefix = paths.drop_last();
    let t = spec_classify_table(prefix);
    if k2 < t.len() {
        lemma_table_unique_ids(prefix, k1, k2);
        assert(spec_classify_table(paths)[k1] == t[k1]);
        assert(spec_classify_table(paths)[k2] == t[k2]);
    } else {
        lemma_table_ids_from_paths(prefix, k1);
        let i = choose|i: int| 0 <= i < prefix.len() && prefix[i].id == t[k1].id;
        assert(paths[i] == prefix[i]);
        assert(spec_classify_table(paths)[k1] == t[k1]);
        assert(spec_classify_table(paths)[k2].id == paths[paths.len() - 1].id);
    }
}

/// The known-type table's invariant: built over a well-formed item graph,
/// an identifier appears in it at most once, so lookups are exact.
pub proof fn lemma_known_table_unique(g: ItemGraph, k1: int, k2: int)
    requires
        wf_graph(g),
        0 <= k1 < k2 < spec_classify_table(g.paths@).len(),
    ensures
        spec_classify_table(g.paths@)[k1].id != spec_classify_table(g.paths@)[k2].id,
{
    lemma_table_unique_ids(g.paths@, k1, k2);
}

/// The declared field identifiers of a plain-layout struct item.
pub open spec fn struct_field_ids(item: Item) -> Seq<Id> {
    match item.payload {
        ItemPayload::Struct(StructKind::Plain { fields }) => fields@,
        _ => Seq::empty(),
    }
}

/// Over a list of string-typed or 8-bit-unsigned-typed fields, resolution
/// succeeds with exactly one descriptor per field, in order, each
/// required, each under its field item's name.
proof fn lemma_fields_all_scalar(field_ids: Seq<Id>, g: ItemGraph, known: Seq<KnownEntry>)
    requires
        forall|i: int|
            0 <= i < field_ids.len() ==> #[trigger] plain_scalar_field(field_ids[i], g, known),
    ensures
        spec_fields(field_ids, g, known) is Ok,
        spec_fields(field_ids, g, known)->Ok_0.len() == field_ids.len(),
        forall|i: int|
            0 <= i < field_ids.len() ==> (#[trigger] spec_fields(field_ids, g, known)->Ok_0[i]).required
                == true && spec_fields(field_ids, g, known)->Ok_0[i].field.name == spec_lookup_item(
                g.items@,
                field_ids[i],
            )->Some_0.name->Some_0@ && spec_fields(field_ids, g, known)->Ok_0[i].field.value
                == scalar_kind(field_ids[i], g),
    decreases field_ids.len(),
{
    if field_ids.len() == 0 {
    } else {
        let prefix = field_ids.drop_last();
        assert(forall|i: int| 0 <= i < prefix.len() ==> prefix[i] == field_ids[i]);
        lemma_fields_all_scalar(prefix, g, known);
        lemma_scalar_field_required(field_ids.last(), g, known);
        let fs = spec_fields(prefix, g, known)->Ok_0;
        let f = spec_resolve_field(field_ids.last(), g, known)->Ok_0->Some_0;
        assert(spec_fields(field_ids, g, known)->Ok_0 == fs + seq![f]);
        assert(forall|i: int| 0 <= i < prefix.len() ==> (fs + seq![f])[i] == fs[i]);
        assert((fs + seq![f])[field_ids.len() - 1] == f);
    }
}

/// For a struct with only plain named fields, each of the foundational
/// string type or the supported 8-bit unsigned primitive, the produced
/// object schema has exactly one descriptor per declared field, in
/// declaration order, each marked required.
pub proof fn lemma_flat_struct_schema(item: Item, g: ItemGraph, known: Seq<KnownEntry>)
    requires
        item.name is Some,
        item.payload matches ItemPayload::Struct(StructKind::Plain { .. }),
        struct_field_ids(item).len() > 0,
        forall|i: int|
            0 <= i < struct_field_ids(item).len() ==> #[trigger] plain_scalar_field(
                struct_field_ids(item)[i],
                g,
                known,
            ),
    ensures
        spec_gen_for(item, g, known) is Ok,
        spec_gen_for(item, g, known)->Ok_0.0.len() == 1,
        spec_gen_for(item, g, known)->Ok_0.1.len() == 0,
        spec_gen_for(item, g, known)->Ok_0.0[0].name == item.name->Some_0@,
        spec_gen_for(item, g, known)->Ok_0.0[0].fields.len() == struct_field_ids(item).len(),
        forall|i: int|
            0 <= i < struct_field_ids(item).len() ==> (#[trigger] spec_gen_for(
                item,
                g,
                known,
            )->Ok_0.0[0].fields[i]).required == true && spec_gen_for(
                item,
                g,
                known,
            )->Ok_0.0[0].fields[i].field.name == spec_lookup_item(
                g.items@,
                struct_field_ids(item)[i],
            )->Some_0.name->Some_0@ && spec_gen_for(item, g, known)->Ok_0.0[0].fields[i].field.value
                == scalar_kind(struct_field_ids(item)[i], g),
{
    lemma_fields_all_scalar(struct_field_ids(item), g, known);
}

/// An implementation item of the marker capability whose resolved target
/// bears the given name.
pub open spec fn capability_impl_emitting(it: Item, g: ItemGraph, ser: Id, name: Seq<char>) -> bool {
    it.payload matches ItemPayload::Impl(d) && (d.trait_id == Some(ser) && (
    d.for_type matches FieldType::ResolvedPath(pr) && (spec_lookup_item(g.items@, pr.id) matches Some(
        target,
    ) && (target.name matches Some(n) && n@ == name))))
}

/// Mapping one item emits at most one schema, and it is named after the
/// item itself.
proof fn lemma_gen_for_emits_own_name(item: Item, g: ItemGraph, known: Seq<KnownEntry>)
    requires
        spec_gen_for(item, g, known) is Ok,
    ensures
        spec_gen_for(item, g, known)->Ok_0.0.len() <= 1,
        spec_gen_for(item, g, known)->Ok_0.0.len() == 1 ==> (item.name matches Some(n)
            && spec_gen_for(item, g, known)->Ok_0.0[0].name == n@),
{
}

/// Every schema a successful scan emits is justified by a capability
/// implementation among the scanned items, targeting a struct that bears
/// the schema's name.
proof fn lemma_scan_objects_justified(
    items: Seq<Item>,
    g: ItemGraph,
    ser: Id,
    known: Seq<KnownEntry>,
    k: int,
)
    requires
        spec_scan(items, g, ser, known) is Ok,
        0 <= k < spec_scan(items, g, ser, known)->Ok_0.0.len(),
    ensures
        exists|j: int|
            0 <= j < items.len() && capability_impl_emitting(
                #[trigger] items[j],
                g,
                ser,
                spec_scan(items, g, ser, known)->Ok_0.0[k].name,
            ),
    decreases items.len(),
{
    let objs = spec_scan(items, g, ser, known)->Ok_0.0;
    if items.len() == 0 {
        assert(false);
    } else {
        let prefix = items.drop_last();
        let acc = spec_scan(prefix, g, ser, known)->Ok_0;
        let c = spec_scan_step(items.last(), g, ser, known)->Ok_0;
        assert(objs == acc.0 + c.0);
        if k < acc.0.len() {
            lemma_scan_objects_justified(prefix, g, ser, known, k);
            let j = choose|j: int|
                0 <= j < prefix.len() && capability_impl_emitting(
                    prefix[j],
                    g,
                    ser,
                    spec_scan(prefix, g, ser, known)->Ok_0.0[k].name,
                );
            assert(items[j] == prefix[j]);
            assert((acc.0 + c.0)[k] == acc.0[k]);
            assert(capability_impl_emitting(items[j], g, ser, objs[k].name));
        } else {
            assert((acc.0 + c.0)[k] == c.0[k - acc.0.len()]);
            let last = items.last();
            match last.payload {
                ItemPayload::Impl(d) => {
                    if d.trait_id == Some(ser) {
                        match d.for_type {
                            FieldType::ResolvedPath(pr) => {
                                let target = spec_lookup_item(g.items@, pr.id)->Some_0;
                                lemma_gen_for_emits_own_name(target, g, known);
                                assert(capability_impl_emitting(last, g, ser, objs[k].name));
                                assert(items[items.len() - 1] == last);
                            },
                            FieldType::Primitive(_) => {
                                assert(false);
                            },
                            FieldType::Other => {
                                assert(false);
                            },
                        }
                    } else {
                        assert(false);
                    }
                },
                _ => {
                    assert(false);
                },
            }
        }
    }
}

/// For all structs not implementing the marker capability, no object
/// schema is emitted regardless of field shapes: every schema in a
/// successful run's output is justified by an implementation item of the
/// located capability whose resolved target bears the schema's name.
pub proof fn lemma_schema_needs_capability_impl(g: ItemGraph, out: SpecOutput, k: int)
    requires
        spec_run(g) == Ok::<SpecOutput, Error>(out),
        0 <= k < out.types.len(),
    ensures
        spec_capability_id(g.paths@) is Some,
        exists|j: int|
            0 <= j < g.items@.len() && capability_impl_emitting(
                #[trigger] g.items@[j],
                g,
                spec_capability_id(g.paths@)->Some_0,
                out.types[k].name,
            ),
{
    let ser = spec_capability_id(g.paths@)->Some_0;
    lemma_scan_objects_justified(g.items@, g, ser, spec_classify_table(g.paths@), k);
}

} // verus!
