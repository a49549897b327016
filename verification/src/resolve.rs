//! The field resolver: given a field's item and the known-type table,
//! decides the field's schema value kind. Primitives go through the
//! primitive mapping; resolved-path references are first looked up in the
//! known-type table (capability, string, optional wrapper) and then, as
//! fallback, in the path-summary table, where a struct becomes a forward
//! reference by short name. A field the resolver declines to classify is
//! omitted, not an error; unsupported shapes are reported as such.

use vstd::prelude::*;
use crate::error::Error;
use crate::known::{Known, KnownEntry, KnownTable, spec_known_lookup};
use crate::model::{
    ArgType, FieldType, GenericArg, GenericArgs, Id, Item, ItemGraph, ItemPayload, PathRef,
    PathSummary, SummaryKind, lookup_item, lookup_path, spec_lookup_item, spec_lookup_path,
};
use crate::schema::{Field, SpecField, SpecStructField, SpecValue, StructField, Value};

verus! {

/// View of a value-kind result.
pub open spec fn value_res(r: Result<Value, Error>) -> Result<SpecValue, Error> {
    match r {
        Ok(v) => Ok(v@),
        Err(e) => Err(e),
    }
}

/// View of a field result.
pub open spec fn field_res(r: Result<Field, Error>) -> Result<SpecField, Error> {
    match r {
        Ok(f) => Ok(f@),
        Err(e) => Err(e),
    }
}

/// View of an optional field.
pub open spec fn opt_field(r: Option<Field>) -> Option<SpecField> {
    match r {
        Some(f) => Some(f@),
        None => None,
    }
}

/// View of a declined-or-classified field result.
pub open spec fn field_opt_res(r: Result<Option<Field>, Error>) -> Result<
    Option<SpecField>,
    Error,
> {
    match r {
        Ok(f) => Ok(opt_field(f)),
        Err(e) => Err(e),
    }
}

/// View of a name result.
pub open spec fn string_res(r: Result<String, Error>) -> Result<Seq<char>, Error> {
    match r {
        Ok(s) => Ok(s@),
        Err(e) => Err(e),
    }
}

/// The primitive mapping: only the 8-bit unsigned integer is supported,
/// and it maps to the numeric schema kind.
pub open spec fn spec_prim_to_zod(prim: Seq<char>) -> Result<SpecValue, Error> {
    if prim == "u8"@ {
        Ok(SpecValue::VNumber)
    } else {
        Err(Error::UnsupportedPrimitive)
    }
}

/// The name an item must carry to take part in the mapping.
pub open spec fn spec_field_name(item: Item) -> Result<Seq<char>, Error> {
    match item.name {
        Some(n) => Ok(n@),
        None => Err(Error::MissingName { id: item.id }),
    }
}

/// A field of the foundational string type: required, string kind.
pub open spec fn spec_handle_string(field_name: Seq<char>) -> Option<SpecField> {
    Some(
        SpecField {
            required: true,
            field: SpecStructField { name: field_name, value: SpecValue::VString },
        },
    )
}

/// A forward reference: a summary of coarse kind struct yields a required
/// field referring to the struct's short name (its last path segment).
pub open spec fn spec_handle_ident(field_name: Seq<char>, summary: PathSummary) -> Result<
    SpecField,
    Error,
> {
    match summary.kind {
        SummaryKind::Struct => if summary.path@.len() == 0 {
            Err(Error::EmptyPath)
        } else {
            Ok(
                SpecField {
                    required: true,
                    field: SpecStructField {
                        name: field_name,
                        value: SpecValue::VIdent { ident: summary.path@.last()@ },
                    },
                },
            )
        },
        _ => Err(Error::UnsupportedSummaryKind),
    }
}

/// What a front-to-back scan of generic arguments meets first: a
/// primitive type argument, some other type argument, or no type
/// argument at all.
#[verifier::ext_equal]
pub enum ArgScan {
    FoundPrim(Seq<char>),
    FoundOther,
    NothingFound,
}

/// The first type argument in a generic-argument list; lifetimes, const
/// arguments and inferred arguments are passed over.
pub open spec fn spec_scan_args(args: Seq<GenericArg>) -> ArgScan
    decreases args.len(),
{
    if args.len() == 0 {
        ArgScan::NothingFound
    } else {
        match args[0] {
            GenericArg::Type(ArgType::Primitive(p)) => ArgScan::FoundPrim(p@),
            GenericArg::Type(ArgType::Other) => ArgScan::FoundOther,
            _ => spec_scan_args(args.drop_first()),
        }
    }
}

/// A field of the foundational optional wrapper: its first type argument,
/// when a supported primitive, yields an optional field of that kind. A
/// non-primitive type argument is an unsupported shape; a wrapper with no
/// type argument, or with parenthesized arguments, is declined. Missing
/// arguments altogether break the graph's consistency contract.
pub open spec fn spec_handle_option(item: Item, rp: PathRef) -> Result<Option<SpecField>, Error> {
    match rp.args {
        None => Err(Error::MissingGenericArgs { id: rp.id }),
        Some(GenericArgs::Parenthesized) => Ok(None),
        Some(GenericArgs::AngleBracketed(args)) => match spec_scan_args(args@) {
            ArgScan::FoundPrim(p) => match spec_prim_to_zod(p) {
                Err(e) => Err(e),
                Ok(v) => match spec_field_name(item) {
                    Err(e) => Err(e),
                    Ok(n) => Ok(
                        Some(
                            SpecField {
                                required: false,
                                field: SpecStructField { name: n, value: v },
                            },
                        ),
                    ),
                },
            },
            ArgScan::FoundOther => Err(Error::UnsupportedGenericArg),
            ArgScan::NothingFound => Ok(None),
        },
    }
}

/// A field whose declared type is a resolved-path reference: the
/// known-type table decides first (a capability-typed field is dropped
/// entirely; the foundational types get their special handling); an
/// unrecognized reference falls back to the path-summary table, and one
/// found nowhere is declined.
pub open spec fn spec_handle_struct_field(
    known: Seq<KnownEntry>,
    g: ItemGraph,
    item: Item,
    rp: PathRef,
) -> Result<Option<SpecField>, Error> {
    match spec_field_name(item) {
        Err(e) => Err(e),
        Ok(fname) => match spec_known_lookup(known, rp.id) {
            Some(Known::SerdeSerialize) => Ok(None),
            Some(Known::StdString) => Ok(spec_handle_string(fname)),
            Some(Known::OptionWrapper) => spec_handle_option(item, rp),
            None => match spec_lookup_path(g.paths@, rp.id) {
                Some(summary) => match spec_handle_ident(fname, summary) {
                    Ok(f) => Ok(Some(f)),
                    Err(e) => Err(e),
                },
                None => Ok(None),
            },
        },
    }
}

/// The whole resolver for one declared field, starting from its
/// identifier: the field's item is looked up in the item store and its
/// declared type classified.
pub open spec fn spec_resolve_field(field_id: Id, g: ItemGraph, known: Seq<KnownEntry>) -> Result<
    Option<SpecField>,
    Error,
> {
    match spec_lookup_item(g.items@, field_id) {
        None => Err(Error::MissingItem { id: field_id }),
        Some(field_item) => match field_item.payload {
            ItemPayload::StructField(FieldType::Primitive(p)) => match spec_prim_to_zod(p@) {
                Err(e) => Err(e),
                Ok(v) => match spec_field_name(field_item) {
                    Err(e) => Err(e),
                    Ok(n) => Ok(
                        Some(
                            SpecField {
                                required: true,
                                field: SpecStructField { name: n, value: v },
                            },
                        ),
                    ),
                },
            },
            ItemPayload::StructField(FieldType::ResolvedPath(rp)) => spec_handle_struct_field(
                known,
                g,
                field_item,
                rp,
            ),
            _ => Err(Error::UnsupportedFieldShape),
        },
    }
}

/// Equality of two borrowed strings.
fn str_eq(a: &str, b: &str) -> (r: bool)
    ensures
        r == (a@ == b@),
{
    let aa: String = a.to_owned();
    let bb: String = b.to_owned();
    aa == bb
}

/// Maps a primitive type name to its schema value kind. Only the 8-bit
/// unsigned integer is supported; any other primitive is reported as an
/// unsupported shape rather than silently dropped.
pub fn rust_prim_to_zod(prim: &str) -> (r: Result<Value, Error>)
    ensures
        value_res(r) == spec_prim_to_zod(prim@),
{
    if str_eq(prim, "u8") {
        Ok(Value::ZodNumber)
    } else {
        Err(Error::UnsupportedPrimitive)
    }
}

/// The name of an item taking part in the mapping; an anonymous item
/// breaks the graph's consistency contract.
pub fn field_name_for_item(item: &Item) -> (r: Result<String, Error>)
    ensures
        string_res(r) == spec_field_name(*item),
{
    match &item.name {
        Some(n) => Ok(n.clone()),
        None => Err(Error::MissingName { id: item.id }),
    }
}

/// A field of the foundational string type becomes a required field of
/// string kind.
pub fn handle_string(field_name: &String) -> (r: Option<Field>)
    ensures
        opt_field(r) == spec_handle_string(field_name@),
{
    Some(Field::required(StructField::new(field_name.as_str(), Value::ZodString)))
}

/// A reference that fell back to the path-summary table: a struct summary
/// becomes a required forward reference named by its short name.
pub fn handle_ident(field_name: &String, summary: &PathSummary) -> (r: Result<Field, Error>)
    ensures
        field_res(r) == spec_handle_ident(field_name@, *summary),
{
    match summary.kind {
        SummaryKind::Struct => {
            if summary.path.len() == 0 {
                Err(Error::EmptyPath)
            } else {
                let last: &String = &summary.path[summary.path.len() - 1];
                Ok(
                    Field::required(
                        StructField::new(
                            field_name.as_str(),
                            Value::ZodIdent { ident: last.clone() },
                        ),
                    ),
                )
            }
        },
        _ => Err(Error::UnsupportedSummaryKind),
    }
}

/// A field of the foundational optional wrapper: scans its generic
/// arguments for the first type argument and maps it when it is a
/// supported primitive.
pub fn handle_option(item: &Item, rp: &PathRef) -> (r: Result<Option<Field>, Error>)
    ensures
        field_opt_res(r) == spec_handle_option(*item, *rp),
{
    match &rp.args {
        None => Err(Error::MissingGenericArgs { id: rp.id }),
        Some(GenericArgs::Parenthesized) => Ok(None),
        Some(GenericArgs::AngleBracketed(args)) => {
            let mut i: usize = 0;
            proof {
                assert(rp.args == Some(GenericArgs::AngleBracketed(*args)));
                assert(args@.skip(0) =~= args@);
            }
            while i < args.len()
                invariant
                    0 <= i <= args@.len(),
                    rp.args == Some(GenericArgs::AngleBracketed(*args)),
                    spec_scan_args(args@) == spec_scan_args(args@.skip(i as int)),
                decreases args@.len() - i,
            {
                proof {
                    assert(args@.skip(i as int)[0] == args@[i as int]);
                }
                match &args[i] {
                    GenericArg::Type(ArgType::Primitive(p)) => {
                        proof {
                            assert(spec_scan_args(args@.skip(i as int)) == ArgScan::FoundPrim(p@));
                        }
                        let v = match rust_prim_to_zod(p.as_str()) {
                            Ok(v) => v,
                            Err(e) => {
                                return Err(e);
                            },
                        };
                        let name = match field_name_for_item(item) {
                            Ok(n) => n,
                            Err(e) => {
                                return Err(e);
                            },
                        };
                        return Ok(Some(Field::optional(StructField { name, value: v })));
                    },
                    GenericArg::Type(ArgType::Other) => {
                        proof {
                            assert(spec_scan_args(args@.skip(i as int)) == ArgScan::FoundOther);
                        }
                        return Err(Error::UnsupportedGenericArg);
                    },
                    _ => {},
                }
                proof {
                    assert(args@.skip(i as int).drop_first() =~= args@.skip(i as int + 1));
                }
                i = i + 1;
            }
            proof {
                assert(args@.skip(args@.len() as int).len() == 0);
            }
            Ok(None)
        },
    }
}

/// A field whose declared type is a resolved-path reference, classified
/// through the known-type table with the path-summary table as fallback.
pub fn handle_struct_field(
    known: &KnownTable,
    data: &ItemGraph,
    item: &Item,
    rp: &PathRef,
) -> (r: Result<Option<Field>, Error>)
    ensures
        field_opt_res(r) == spec_handle_struct_field(known.entries@, *data, *item, *rp),
{
    let field_name = match field_name_for_item(item) {
        Ok(n) => n,
        Err(e) => {
            return Err(e);
        },
    };
    match known.get(rp.id) {
        Some(Known::SerdeSerialize) => Ok(None),
        Some(Known::StdString) => Ok(handle_string(&field_name)),
        Some(Known::OptionWrapper) => handle_option(item, rp),
        None => match lookup_path(&data.paths, rp.id) {
            Some(summary) => match handle_ident(&field_name, summary) {
                Ok(f) => Ok(Some(f)),
                Err(e) => Err(e),
            },
            None => Ok(None),
        },
    }
}

/// The resolver for one declared field, from its identifier: looks the
/// field's item up in the item store and classifies its declared type.
pub fn resolve_field(field_id: Id, data: &ItemGraph, known: &KnownTable) -> (r: Result<
    Option<Field>,
    Error,
>)
    ensures
        field_opt_res(r) == spec_resolve_field(field_id, *data, known.entries@),
{
    let field_item = match lookup_item(&data.items, field_id) {
        Some(it) => it,
        None => {
            return Err(Error::MissingItem { id: field_id });
        },
    };
    match &field_item.payload {
        ItemPayload::StructField(FieldType::Primitive(p)) => {
            let v = match rust_prim_to_zod(p.as_str()) {
                Ok(v) => v,
                Err(e) => {
                    return Err(e);
                },
            };
            let name = match field_name_for_item(field_item) {
                Ok(n) => n,
                Err(e) => {
                    return Err(e);
                },
            };
            Ok(Some(Field::required(StructField::new(name.as_str(), v))))
        },
        ItemPayload::StructField(FieldType::ResolvedPath(rp)) => handle_struct_field(
            known,
            data,
            field_item,
            rp,
        ),
        _ => Err(Error::UnsupportedFieldShape),
    }
}

} // verus!
