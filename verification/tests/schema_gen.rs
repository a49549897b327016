use zodgen::engine::run;
use zodgen::error::Error;
use zodgen::known::{classify_known, Known, KnownEntry};
use zodgen::model::{
    ArgType, FieldType, GenericArg, GenericArgs, Id, ImplData, Item, ItemGraph, ItemPayload,
    PathEntry, PathRef, PathSummary, StructKind, SummaryKind,
};
use zodgen::resolve::rust_prim_to_zod;
use zodgen::schema::{Field, Output, Outputs, StructField, Value, ZodObject};

fn seg(parts: &[&str]) -> Vec<String> {
    parts.iter().map(|p| p.to_string()).collect()
}

fn foundation_paths() -> Vec<PathEntry> {
    vec![
        PathEntry {
            id: 1,
            summary: PathSummary { path: seg(&["serde", "ser", "Serialize"]), kind: SummaryKind::Trait },
        },
        PathEntry {
            id: 2,
            summary: PathSummary { path: seg(&["alloc", "string", "String"]), kind: SummaryKind::Struct },
        },
        PathEntry {
            id: 3,
            summary: PathSummary { path: seg(&["core", "option", "Option"]), kind: SummaryKind::Enum },
        },
    ]
}

fn named_item(id: Id, name: &str, payload: ItemPayload) -> Item {
    Item { id, name: Some(name.to_string()), payload }
}

fn capability_impl(id: Id, target: Id) -> Item {
    Item {
        id,
        name: None,
        payload: ItemPayload::Impl(ImplData {
            trait_id: Some(1),
            for_type: FieldType::ResolvedPath(PathRef { id: target, args: None }),
        }),
    }
}

fn plain_ref(id: Id) -> FieldType {
    FieldType::ResolvedPath(PathRef { id, args: None })
}

fn option_of(arg: GenericArg) -> FieldType {
    FieldType::ResolvedPath(PathRef {
        id: 3,
        args: Some(GenericArgs::AngleBracketed(vec![arg])),
    })
}

#[test]
fn classifier_finds_foundations() {
    let paths = foundation_paths();
    let (table, ser) = classify_known(&paths);
    assert_eq!(ser, Some(1));
    assert_eq!(
        table.entries,
        vec![
            KnownEntry { id: 1, known: Known::SerdeSerialize },
            KnownEntry { id: 2, known: Known::StdString },
            KnownEntry { id: 3, known: Known::OptionWrapper },
        ]
    );
}

#[test]
fn classifier_ignores_unrecognized_paths() {
    let paths = vec![PathEntry {
        id: 7,
        summary: PathSummary { path: seg(&["docs", "User"]), kind: SummaryKind::Struct },
    }];
    let (table, ser) = classify_known(&paths);
    assert_eq!(ser, None);
    assert!(table.entries.is_empty());
}

#[test]
fn user_struct_maps_to_object_schema() {
    let g = ItemGraph {
        items: vec![
            named_item(10, "User", ItemPayload::Struct(StructKind::Plain { fields: vec![11, 12, 13] })),
            named_item(11, "id", ItemPayload::StructField(FieldType::Primitive("u8".to_string()))),
            named_item(12, "name", ItemPayload::StructField(plain_ref(2))),
            named_item(
                13,
                "nickname",
                ItemPayload::StructField(option_of(GenericArg::Type(ArgType::Primitive(
                    "u8".to_string(),
                )))),
            ),
            capability_impl(20, 10),
        ],
        paths: foundation_paths(),
    };
    let out = run(&g).unwrap();
    assert!(out.skipped.is_empty());
    assert_eq!(
        out.types,
        vec![Outputs::ZodObject(ZodObject {
            name: "User".to_string(),
            fields: vec![
                Field::Required { field: StructField { name: "id".to_string(), value: Value::ZodNumber } },
                Field::Required { field: StructField { name: "name".to_string(), value: Value::ZodString } },
                Field::Optional { field: StructField { name: "nickname".to_string(), value: Value::ZodNumber } },
            ],
        })]
    );
}

#[test]
fn empty_struct_is_skipped_not_fatal() {
    let g = ItemGraph {
        items: vec![
            named_item(10, "Empty", ItemPayload::Struct(StructKind::Plain { fields: vec![] })),
            capability_impl(20, 10),
        ],
        paths: foundation_paths(),
    };
    let out = run(&g).unwrap();
    assert!(out.types.is_empty());
    assert_eq!(out.skipped, vec!["Empty".to_string()]);
}

#[test]
fn reference_to_other_struct_becomes_ident() {
    let mut paths = foundation_paths();
    paths.push(PathEntry {
        id: 40,
        summary: PathSummary { path: seg(&["docs", "Address"]), kind: SummaryKind::Struct },
    });
    let g = ItemGraph {
        items: vec![
            named_item(10, "User", ItemPayload::Struct(StructKind::Plain { fields: vec![11] })),
            named_item(11, "address", ItemPayload::StructField(plain_ref(40))),
            capability_impl(20, 10),
        ],
        paths,
    };
    let out = run(&g).unwrap();
    assert_eq!(
        out.types,
        vec![Outputs::ZodObject(ZodObject {
            name: "User".to_string(),
            fields: vec![Field::Required {
                field: StructField {
                    name: "address".to_string(),
                    value: Value::ZodIdent { ident: "Address".to_string() },
                },
            }],
        })]
    );
}

#[test]
fn struct_without_capability_impl_is_not_emitted() {
    let g = ItemGraph {
        items: vec![
            named_item(10, "User", ItemPayload::Struct(StructKind::Plain { fields: vec![11] })),
            named_item(11, "id", ItemPayload::StructField(FieldType::Primitive("u8".to_string()))),
        ],
        paths: foundation_paths(),
    };
    let out = run(&g).unwrap();
    assert!(out.types.is_empty());
    assert!(out.skipped.is_empty());
}

#[test]
fn impl_of_other_trait_is_not_emitted() {
    let g = ItemGraph {
        items: vec![
            named_item(10, "User", ItemPayload::Struct(StructKind::Plain { fields: vec![11] })),
            named_item(11, "id", ItemPayload::StructField(FieldType::Primitive("u8".to_string()))),
            Item {
                id: 20,
                name: None,
                payload: ItemPayload::Impl(ImplData {
                    trait_id: Some(2),
                    for_type: FieldType::ResolvedPath(PathRef { id: 10, args: None }),
                }),
            },
        ],
        paths: foundation_paths(),
    };
    let out = run(&g).unwrap();
    assert!(out.types.is_empty());
    assert!(out.skipped.is_empty());
}

#[test]
fn capability_typed_field_is_dropped() {
    let g = ItemGraph {
        items: vec![
            named_item(10, "Wrapper", ItemPayload::Struct(StructKind::Plain { fields: vec![11] })),
            named_item(11, "inner", ItemPayload::StructField(plain_ref(1))),
            capability_impl(20, 10),
        ],
        paths: foundation_paths(),
    };
    let out = run(&g).unwrap();
    assert!(out.types.is_empty());
    assert_eq!(out.skipped, vec!["Wrapper".to_string()]);
}

#[test]
fn missing_capability_means_empty_output() {
    let g = ItemGraph {
        items: vec![
            named_item(10, "User", ItemPayload::Struct(StructKind::Plain { fields: vec![11] })),
            named_item(11, "id", ItemPayload::StructField(FieldType::Primitive("u8".to_string()))),
            capability_impl(20, 10),
        ],
        paths: vec![],
    };
    let out = run(&g).unwrap();
    assert!(out.types.is_empty());
    assert!(out.skipped.is_empty());
}

#[test]
fn running_twice_yields_identical_output() {
    let g = ItemGraph {
        items: vec![
            named_item(10, "User", ItemPayload::Struct(StructKind::Plain { fields: vec![11, 12] })),
            named_item(11, "id", ItemPayload::StructField(FieldType::Primitive("u8".to_string()))),
            named_item(12, "name", ItemPayload::StructField(plain_ref(2))),
            named_item(30, "Empty", ItemPayload::Struct(StructKind::Unit)),
            capability_impl(20, 10),
            capability_impl(21, 30),
        ],
        paths: foundation_paths(),
    };
    let first: Output = run(&g).unwrap();
    let second: Output = run(&g).unwrap();
    assert_eq!(first, second);
}

#[test]
fn unit_struct_is_skipped() {
    let g = ItemGraph {
        items: vec![
            named_item(10, "Marker", ItemPayload::Struct(StructKind::Unit)),
            capability_impl(20, 10),
        ],
        paths: foundation_paths(),
    };
    let out = run(&g).unwrap();
    assert!(out.types.is_empty());
    assert_eq!(out.skipped, vec!["Marker".to_string()]);
}

#[test]
fn tuple_struct_is_skipped() {
    let g = ItemGraph {
        items: vec![
            named_item(10, "Pair", ItemPayload::Struct(StructKind::Tuple)),
            capability_impl(20, 10),
        ],
        paths: foundation_paths(),
    };
    let out = run(&g).unwrap();
    assert!(out.types.is_empty());
    assert_eq!(out.skipped, vec!["Pair".to_string()]);
}

#[test]
fn non_struct_target_is_silently_ignored() {
    let g = ItemGraph {
        items: vec![named_item(10, "Color", ItemPayload::Enum), capability_impl(20, 10)],
        paths: foundation_paths(),
    };
    let out = run(&g).unwrap();
    assert!(out.types.is_empty());
    assert!(out.skipped.is_empty());
}

#[test]
fn primitive_impl_target_is_silently_skipped() {
    let g = ItemGraph {
        items: vec![Item {
            id: 20,
            name: None,
            payload: ItemPayload::Impl(ImplData {
                trait_id: Some(1),
                for_type: FieldType::Primitive("u8".to_string()),
            }),
        }],
        paths: foundation_paths(),
    };
    let out = run(&g).unwrap();
    assert!(out.types.is_empty());
    assert!(out.skipped.is_empty());
}

#[test]
fn unsupported_primitive_is_reported() {
    let g = ItemGraph {
        items: vec![
            named_item(10, "User", ItemPayload::Struct(StructKind::Plain { fields: vec![11] })),
            named_item(11, "id", ItemPayload::StructField(FieldType::Primitive("u16".to_string()))),
            capability_impl(20, 10),
        ],
        paths: foundation_paths(),
    };
    let err = run(&g).unwrap_err();
    assert_eq!(err, Error::UnsupportedPrimitive);
    assert!(!err.is_inconsistency());
}

#[test]
fn unresolved_impl_target_is_an_inconsistency() {
    let g = ItemGraph {
        items: vec![capability_impl(20, 99)],
        paths: foundation_paths(),
    };
    let err = run(&g).unwrap_err();
    assert_eq!(err, Error::MissingItem { id: 99 });
    assert!(err.is_inconsistency());
}

#[test]
fn unresolved_field_item_is_an_inconsistency() {
    let g = ItemGraph {
        items: vec![
            named_item(10, "User", ItemPayload::Struct(StructKind::Plain { fields: vec![55] })),
            capability_impl(20, 10),
        ],
        paths: foundation_paths(),
    };
    assert_eq!(run(&g).unwrap_err(), Error::MissingItem { id: 55 });
}

#[test]
fn anonymous_field_is_an_inconsistency() {
    let g = ItemGraph {
        items: vec![
            named_item(10, "User", ItemPayload::Struct(StructKind::Plain { fields: vec![11] })),
            Item {
                id: 11,
                name: None,
                payload: ItemPayload::StructField(FieldType::Primitive("u8".to_string())),
            },
            capability_impl(20, 10),
        ],
        paths: foundation_paths(),
    };
    assert_eq!(run(&g).unwrap_err(), Error::MissingName { id: 11 });
}

#[test]
fn option_of_non_primitive_is_reported() {
    let g = ItemGraph {
        items: vec![
            named_item(10, "User", ItemPayload::Struct(StructKind::Plain { fields: vec![11] })),
            named_item(
                11,
                "extra",
                ItemPayload::StructField(option_of(GenericArg::Type(ArgType::Other))),
            ),
            capability_impl(20, 10),
        ],
        paths: foundation_paths(),
    };
    assert_eq!(run(&g).unwrap_err(), Error::UnsupportedGenericArg);
}

#[test]
fn option_without_args_is_an_inconsistency() {
    let g = ItemGraph {
        items: vec![
            named_item(10, "User", ItemPayload::Struct(StructKind::Plain { fields: vec![11] })),
            named_item(11, "extra", ItemPayload::StructField(plain_ref(3))),
            capability_impl(20, 10),
        ],
        paths: foundation_paths(),
    };
    assert_eq!(run(&g).unwrap_err(), Error::MissingGenericArgs { id: 3 });
}

#[test]
fn option_skips_lifetimes_before_the_primitive() {
    let g = ItemGraph {
        items: vec![
            named_item(10, "User", ItemPayload::Struct(StructKind::Plain { fields: vec![11] })),
            named_item(
                11,
                "age",
                ItemPayload::StructField(FieldType::ResolvedPath(PathRef {
                    id: 3,
                    args: Some(GenericArgs::AngleBracketed(vec![
                        GenericArg::Lifetime,
                        GenericArg::Type(ArgType::Primitive("u8".to_string())),
                    ])),
                })),
            ),
            capability_impl(20, 10),
        ],
        paths: foundation_paths(),
    };
    let out = run(&g).unwrap();
    assert_eq!(
        out.types,
        vec![Outputs::ZodObject(ZodObject {
            name: "User".to_string(),
            fields: vec![Field::Optional {
                field: StructField { name: "age".to_string(), value: Value::ZodNumber },
            }],
        })]
    );
}

#[test]
fn option_with_no_type_argument_declines_the_field() {
    let g = ItemGraph {
        items: vec![
            named_item(10, "User", ItemPayload::Struct(StructKind::Plain { fields: vec![11] })),
            named_item(
                11,
                "extra",
                ItemPayload::StructField(option_of(GenericArg::Lifetime)),
            ),
            capability_impl(20, 10),
        ],
        paths: foundation_paths(),
    };
    let out = run(&g).unwrap();
    assert!(out.types.is_empty());
    assert_eq!(out.skipped, vec!["User".to_string()]);
}

#[test]
fn reference_to_non_struct_summary_is_reported() {
    let mut paths = foundation_paths();
    paths.push(PathEntry {
        id: 40,
        summary: PathSummary { path: seg(&["docs", "Shape"]), kind: SummaryKind::Trait },
    });
    let g = ItemGraph {
        items: vec![
            named_item(10, "User", ItemPayload::Struct(StructKind::Plain { fields: vec![11] })),
            named_item(11, "shape", ItemPayload::StructField(plain_ref(40))),
            capability_impl(20, 10),
        ],
        paths,
    };
    assert_eq!(run(&g).unwrap_err(), Error::UnsupportedSummaryKind);
}

#[test]
fn unknown_reference_declines_the_field() {
    let g = ItemGraph {
        items: vec![
            named_item(10, "User", ItemPayload::Struct(StructKind::Plain { fields: vec![11, 12] })),
            named_item(11, "mystery", ItemPayload::StructField(plain_ref(77))),
            named_item(12, "name", ItemPayload::StructField(plain_ref(2))),
            capability_impl(20, 10),
        ],
        paths: foundation_paths(),
    };
    let out = run(&g).unwrap();
    assert_eq!(
        out.types,
        vec![Outputs::ZodObject(ZodObject {
            name: "User".to_string(),
            fields: vec![Field::Required {
                field: StructField { name: "name".to_string(), value: Value::ZodString },
            }],
        })]
    );
}

#[test]
fn prim_mapping_supports_only_u8() {
    assert_eq!(rust_prim_to_zod("u8").unwrap(), Value::ZodNumber);
    assert_eq!(rust_prim_to_zod("i32").unwrap_err(), Error::UnsupportedPrimitive);
    assert_eq!(rust_prim_to_zod("").unwrap_err(), Error::UnsupportedPrimitive);
}

#[test]
fn field_constructors_wrap_descriptors() {
    let f = StructField::new("id", Value::ZodNumber);
    assert_eq!(f, StructField { name: "id".to_string(), value: Value::ZodNumber });
    let required = Field::required(StructField::new("a", Value::ZodString));
    assert_eq!(
        required,
        Field::Required { field: StructField { name: "a".to_string(), value: Value::ZodString } }
    );
    let optional = Field::optional(StructField::new("b", Value::ZodNumber));
    assert_eq!(
        optional,
        Field::Optional { field: StructField { name: "b".to_string(), value: Value::ZodNumber } }
    );
}

#[test]
fn output_preserves_emission_order() {
    let g = ItemGraph {
        items: vec![
            named_item(10, "A", ItemPayload::Struct(StructKind::Plain { fields: vec![11] })),
            named_item(11, "x", ItemPayload::StructField(FieldType::Primitive("u8".to_string()))),
            capability_impl(20, 10),
            named_item(30, "B", ItemPayload::Struct(StructKind::Plain { fields: vec![31] })),
            named_item(31, "y", ItemPayload::StructField(plain_ref(2))),
            capability_impl(21, 30),
        ],
        paths: foundation_paths(),
    };
    let out = run(&g).unwrap();
    let names: Vec<String> = out
        .types
        .iter()
        .map(|t| match t {
            Outputs::ZodObject(o) => o.name.clone(),
        })
        .collect();
    assert_eq!(names, vec!["A".to_string(), "B".to_string()]);
}
