//! The struct mapper: turns one resolved implementer of the marker
//! capability into zero or one object schema. Only plain (named) field
//! layouts yield fields; unit and tuple layouts are an accepted gap. A
//! struct whose fields all decline is skipped, and the skip is recorded
//! non-fatally in the output.

use vstd::prelude::*;
use crate::error::Error;
use crate::known::{KnownEntry, KnownTable};
use crate::model::{Id, Item, ItemGraph, ItemPayload, StructKind};
use crate::resolve::{resolve_field, field_name_for_item, spec_field_name, spec_resolve_field};
use crate::schema::{Field, Output, Outputs, SpecField, SpecObject, ZodObject};

verus! {

/// View of a sequence of classified fields.
pub open spec fn fields_view(fs: Seq<Field>) -> Seq<SpecField> {
    fs.map_values(|f: Field| f@)
}

/// The descriptors a plain struct's declared fields produce, in
/// declaration order: resolved fields accumulate, declined fields are
/// omitted, and the first failure stops the mapping.
pub open spec fn spec_fields(field_ids: Seq<Id>, g: ItemGraph, known: Seq<KnownEntry>) -> Result<
    Seq<SpecField>,
    Error,
>
    decreases field_ids.len(),
{
    if field_ids.len() == 0 {
        Ok(Seq::empty())
    } else {
        match spec_fields(field_ids.drop_last(), g, known) {
            Err(e) => Err(e),
            Ok(fs) => match spec_resolve_field(field_ids.last(), g, known) {
                Err(e) => Err(e),
                Ok(None) => Ok(fs),
                Ok(Some(f)) => Ok(fs + seq![f]),
            },
        }
    }
}

/// A failure met at some field stops the whole mapping: the result over
/// the full declaration list is the failure over the prefix that met it.
proof fn lemma_fields_err_persists(
    field_ids: Seq<Id>,
    g: ItemGraph,
    known: Seq<KnownEntry>,
    k: int,
)
    requires
        0 <= k <= field_ids.len(),
        spec_fields(field_ids.take(k), g, known) is Err,
    ensures
        spec_fields(field_ids, g, known) == spec_fields(field_ids.take(k), g, known),
    decreases field_ids.len() - k,
{
    if k == field_ids.len() {
        assert(field_ids.take(k) =~= field_ids);
    } else {
        assert(field_ids.take(k + 1).drop_last() =~= field_ids.take(k));
        lemma_fields_err_persists(field_ids, g, known, k + 1);
    }
}

/// What mapping one item adds to the output: the emitted object schemas
/// and the recorded skips. A non-struct item adds nothing; a struct with
/// no mappable fields adds one skip record; a struct with at least one
/// resolved field adds exactly one object schema named after it.
pub open spec fn spec_gen_for(item: Item, g: ItemGraph, known: Seq<KnownEntry>) -> Result<
    (Seq<SpecObject>, Seq<Seq<char>>),
    Error,
> {
    match item.payload {
        ItemPayload::Struct(sk) => match spec_field_name(item) {
            Err(e) => Err(e),
            Ok(name) => {
                let fields_res = match sk {
                    StructKind::Unit => Ok(Seq::<SpecField>::empty()),
                    StructKind::Tuple => Ok(Seq::<SpecField>::empty()),
                    StructKind::Plain { fields } => spec_fields(fields@, g, known),
                };
                match fields_res {
                    Err(e) => Err(e),
                    Ok(fs) => if fs.len() == 0 {
                        Ok((Seq::<SpecObject>::empty(), seq![name]))
                    } else {
                        Ok((seq![SpecObject { name, fields: fs }], Seq::<Seq<char>>::empty()))
                    },
                }
            },
        },
        _ => Ok((Seq::<SpecObject>::empty(), Seq::<Seq<char>>::empty())),
    }
}

/// Maps one item and appends what it produces to the output. On failure
/// the output is left untouched.
pub fn gen_for(item: &Item, data: &ItemGraph, known: &KnownTable, out: &mut Output) -> (r: Result<
    (),
    Error,
>)
    ensures
        match (r, spec_gen_for(*item, *data, known.entries@)) {
            (Ok(u), Ok(added)) => {
                &&& final(out)@.types == old(out)@.types + added.0
                &&& final(out)@.skipped == old(out)@.skipped + added.1
            },
            (Err(e), Err(se)) => e == se && *final(out) == *old(out),
            _ => false,
        },
{
    match &item.payload {
        ItemPayload::Struct(sk) => {
            let name = match field_name_for_item(item) {
                Ok(n) => n,
                Err(e) => {
                    return Err(e);
                },
            };
            let mut zod_fields: Vec<Field> = Vec::new();
            match sk {
                StructKind::Unit => {},
                StructKind::Tuple => {},
                StructKind::Plain { fields } => {
                    let mut i: usize = 0;
                    proof {
                        assert(fields@.take(0) =~= Seq::<Id>::empty());
                        assert(fields_view(zod_fields@) =~= Seq::<SpecField>::empty());
                    }
                    while i < fields.len()
                        invariant
                            0 <= i <= fields@.len(),
                            item.payload == ItemPayload::Struct(
                                StructKind::Plain { fields: *fields },
                            ),
                            spec_field_name(*item) == Ok::<Seq<char>, Error>(name@),
                            spec_fields(fields@.take(i as int), *data, known.entries@) == Ok::<
                                Seq<SpecField>,
                                Error,
                            >(fields_view(zod_fields@)),
                            *out == *old(out),
                        decreases fields@.len() - i,
                    {
                        proof {
                            assert(fields@.take(i as int + 1).drop_last() =~= fields@.take(
                                i as int,
                            ));
                            assert(fields@.take(i as int + 1).last() == fields@[i as int]);
                        }
                        let fid = fields[i];
                        match resolve_field(fid, data, known) {
                            Ok(Some(f)) => {
                                let ghost prev = zod_fields@;
                                zod_fields.push(f);
                                proof {
                                    assert(fields_view(zod_fields@) =~= fields_view(prev) + seq![
                                        f@,
                                    ]);
                                }
                            },
                            Ok(None) => {},
                            Err(e) => {
                                proof {
                                    assert(spec_fields(
                                        fields@.take(i as int + 1),
                                        *data,
                                        known.entries@,
                                    ) == Err::<Seq<SpecField>, Error>(e));
                                    lemma_fields_err_persists(
                                        fields@,
                                        *data,
                                        known.entries@,
                                        i as int + 1,
                                    );
                                }
                                return Err(e);
                            },
                        }
                        i = i + 1;
                    }
                    proof {
                        assert(fields@.take(fields@.len() as int) =~= fields@);
                    }
                },
            }
            if zod_fields.len() != 0 {
                let obj = ZodObject { name, fields: zod_fields };
                let ghost prev_types = out.types@;
                out.types.push(Outputs::ZodObject(obj));
                proof {
                    assert(out@.types =~= prev_types.map_values(|o: Outputs| o@) + seq![
                        SpecObject { name: name@, fields: fields_view(zod_fields@) },
                    ]);
                    assert(out@.skipped =~= old(out)@.skipped + Seq::<Seq<char>>::empty());
                }
                Ok(())
            } else {
                let ghost prev_skipped = out.skipped@;
                out.skipped.push(name);
                proof {
                    assert(out@.skipped =~= prev_skipped.map_values(|s: String| s@) + seq![name@]);
                    assert(out@.types =~= old(out)@.types + Seq::<SpecObject>::empty());
                    assert(fields_view(zod_fields@).len() == 0);
                }
                Ok(())
            }
        },
        ItemPayload::Module
        | ItemPayload::StructField(_)
        | ItemPayload::Enum
        | ItemPayload::Variant
        | ItemPayload::Function
        | ItemPayload::Trait
        | ItemPayload::Impl(_)
        | ItemPayload::Other => {
            proof {
                assert(old(out)@.types + Seq::<SpecObject>::empty() =~= old(out)@.types);
                assert(old(out)@.skipped + Seq::<Seq<char>>::empty() =~= old(out)@.skipped);
            }
            Ok(())
        },
    }
}

} // verus!
