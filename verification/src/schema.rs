//! The emitted side of the translation: schema value kinds, field
//! descriptors, object schemas, and the collected output of a run.

use vstd::prelude::*;

verus! {

/// Mathematical picture of a schema value kind.
#[verifier::ext_equal]
pub enum SpecValue {
    VString,
    VNumber,
    VIdent { ident: Seq<char> },
}

/// The schema value kind a field carries in an emitted object schema:
/// a string, a number, or a forward reference to another schema by name.
#[derive(Debug, Clone, PartialEq)]
pub enum Value {
    ZodString,
    ZodNumber,
    ZodIdent { ident: String },
}

impl View for Value {
    type V = SpecValue;

    open spec fn view(&self) -> SpecValue {
        match self {
            Value::ZodString => SpecValue::VString,
            Value::ZodNumber => SpecValue::VNumber,
            Value::ZodIdent { ident } => SpecValue::VIdent { ident: ident@ },
        }
    }
}

/// Mathematical picture of a named field descriptor.
#[verifier::ext_equal]
pub struct SpecStructField {
    pub name: Seq<char>,
    pub value: SpecValue,
}

/// A resolved struct field: its name and its schema value kind.
#[derive(Debug, Clone, PartialEq)]
pub struct StructField {
    pub name: String,
    pub value: Value,
}

impl View for StructField {
    type V = SpecStructField;

    open spec fn view(&self) -> SpecStructField {
        SpecStructField { name: self.name@, value: self.value@ }
    }
}

impl StructField {
    /// Builds a field descriptor, taking ownership of a copy of the name.
    pub fn new(name: &str, value: Value) -> (r: Self)
        ensures
            r@ == (SpecStructField { name: name@, value: value@ }),
    {
        Self { name: name.to_owned(), value }
    }
}

/// Mathematical picture of a field descriptor together with its
/// required/optional classification.
#[verifier::ext_equal]
pub struct SpecField {
    pub required: bool,
    pub field: SpecStructField,
}

/// A field descriptor classified as required or optional.
#[derive(Debug, Clone, PartialEq)]
pub enum Field {
    Required { field: StructField },
    Optional { field: StructField },
}

impl View for Field {
    type V = SpecField;

    open spec fn view(&self) -> SpecField {
        match self {
            Field::Required { field } => SpecField { required: true, field: field@ },
            Field::Optional { field } => SpecField { required: false, field: field@ },
        }
    }
}

impl Field {
    /// Wraps a descriptor as a required field.
    pub fn required(field: StructField) -> (r: Self)
        ensures
            r@ == (SpecField { required: true, field: field@ }),
    {
        Self::Required { field }
    }

    /// Wraps a descriptor as an optional field.
    pub fn optional(field: StructField) -> (r: Self)
        ensures
            r@ == (SpecField { required: false, field: field@ }),
    {
        Self::Optional { field }
    }
}

/// Mathematical picture of one emitted object schema.
#[verifier::ext_equal]
pub struct SpecObject {
    pub name: Seq<char>,
    pub fields: Seq<SpecField>,
}

/// An object schema: named after the originating struct, holding its
/// resolved fields in declaration order.
#[derive(Debug, Clone, PartialEq)]
pub struct ZodObject {
    pub name: String,
    pub fields: Vec<Field>,
}

impl View for ZodObject {
    type V = SpecObject;

    open spec fn view(&self) -> SpecObject {
        SpecObject { name: self.name@, fields: self.fields@.map_values(|f: Field| f@) }
    }
}

/// One emitted schema definition; object schemas are the only kind produced.
#[derive(Debug, Clone, PartialEq)]
pub enum Outputs {
    ZodObject(ZodObject),
}

impl View for Outputs {
    type V = SpecObject;

    open spec fn view(&self) -> SpecObject {
        match self {
            Outputs::ZodObject(o) => o@,
        }
    }
}

/// Mathematical picture of a whole run's output.
#[verifier::ext_equal]
pub struct SpecOutput {
    pub types: Seq<SpecObject>,
    pub skipped: Seq<Seq<char>>,
}

/// The collected output of one run: the emitted schema definitions in
/// emission order, plus the names of structs that were skipped for having
/// no mappable fields (recorded non-fatally, so a caller can report them).
#[derive(Debug, Clone, PartialEq)]
pub struct Output {
    pub types: Vec<Outputs>,
    pub skipped: Vec<String>,
}

impl View for Output {
    type V = SpecOutput;

    open spec fn view(&self) -> SpecOutput {
        SpecOutput {
            types: self.types@.map_values(|o: Outputs| o@),
            skipped: self.skipped@.map_values(|s: String| s@),
        }
    }
}

impl Output {
    /// An output with nothing emitted and nothing skipped.
    pub fn empty() -> (r: Self)
        ensures
            r@ == (SpecOutput { types: Seq::<SpecObject>::empty(), skipped: Seq::<Seq<char>>::empty() }),
    {
        let r = Output { types: Vec::new(), skipped: Vec::new() };
        proof {
            assert(r@.types =~= Seq::<SpecObject>::empty());
            assert(r@.skipped =~= Seq::<Seq<char>>::empty());
            assert(r@ =~= (SpecOutput { types: Seq::<SpecObject>::empty(), skipped: Seq::<Seq<char>>::empty() }));
        }
        r
    }
}

} // verus!
