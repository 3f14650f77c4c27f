//! What the emitted code does when it runs, as executable code with
//! contracts: a builder that is driven by a schema, the record that it
//! builds, and the structured rendering of that record.

use vstd::prelude::*;
use vstd::string::StringExecFns;
use crate::schema::{RecordSchema, SchemaModel};

verus! {

/// A value that a field can hold.
#[derive(Debug, PartialEq, Eq)]
pub enum Value {
    Int(i64),
    Text(String),
    Bool(bool),
}

impl Clone for Value {
    fn clone(&self) -> (r: Self)
        ensures
            r == *self,
    {
        match self {
            Value::Int(i) => Value::Int(*i),
            Value::Text(s) => Value::Text(s.clone()),
            Value::Bool(b) => Value::Bool(*b),
        }
    }
}

/// The value of a field in a finished record.
#[derive(Debug, PartialEq, Eq)]
pub enum FieldValue {
    /// The value of a required field.
    Required(Value),
    /// The value of an optional field: present or absent.
    Optional(Option<Value>),
}

impl Clone for FieldValue {
    fn clone(&self) -> (r: Self)
        ensures
            r == *self,
    {
        match self {
            FieldValue::Required(v) => FieldValue::Required(v.clone()),
            FieldValue::Optional(Some(v)) => FieldValue::Optional(Some(v.clone())),
            FieldValue::Optional(None) => FieldValue::Optional(None),
        }
    }
}

/// `build` found the slot of a required field absent.
#[derive(Debug, PartialEq, Eq)]
pub struct MissingField {
    /// The name of the field.
    pub field: String,
}

/// The message that the emitted `build` fails with for a field: the words
/// `the value of `, the field's name, and `was not set`, with nothing put
/// between the name and the words that follow it.
pub open spec fn missing_field_message(field: Seq<char>) -> Seq<char> {
    "the value of "@ + field + "was not set"@
}

impl MissingField {
    /// The message that the emitted `build` fails with.
    pub fn message(&self) -> (r: String)
        ensures
            r@ == missing_field_message(self.field@),
    {
        let mut out = String::from_str("the value of ");
        out.append(self.field.as_str());
        out.append("was not set");
        out
    }
}

/// The slots of a builder on which no setter was called: all absent.
pub open spec fn fresh_slots(s: SchemaModel) -> Seq<Option<Value>> {
    Seq::new(s.fields.len(), |i: int| None)
}

/// The slots after the setter called `name` was given `value`: the slot of
/// the first field of that name is present with the value, the others are
/// as before.
pub open spec fn set_slot(
    s: SchemaModel,
    slots: Seq<Option<Value>>,
    name: Seq<char>,
    value: Value,
) -> Seq<Option<Value>> {
    Seq::new(
        slots.len(),
        |i: int|
            if s.is_first_named(name, i) {
                Some(value)
            } else {
                slots[i]
            },
    )
}

/// Whether field `i` is required and its slot is absent.
pub open spec fn is_missing(s: SchemaModel, slots: Seq<Option<Value>>, i: int) -> bool {
    0 <= i < s.fields.len() && !s.fields[i].is_optional && slots[i] is None
}

/// Whether field `i` is the first, in declaration order, that is required
/// and whose slot is absent.
pub open spec fn is_first_missing(s: SchemaModel, slots: Seq<Option<Value>>, i: int) -> bool {
    is_missing(s, slots, i) && forall|j: int| 0 <= j < i ==> !is_missing(s, slots, j)
}

/// Whether the slot of every required field is present.
pub open spec fn complete(s: SchemaModel, slots: Seq<Option<Value>>) -> bool {
    forall|i: int| !is_missing(s, slots, i)
}

/// What a slot gives to the record: an optional field takes the slot as it
/// is, a required one takes the value in it.
pub open spec fn field_value(optional: bool, slot: Option<Value>) -> FieldValue {
    if optional {
        FieldValue::Optional(slot)
    } else {
        FieldValue::Required(slot->0)
    }
}

/// The values of the record that complete slots give, in declaration order.
pub open spec fn built_values(s: SchemaModel, slots: Seq<Option<Value>>) -> Seq<FieldValue> {
    Seq::new(s.fields.len(), |i: int| field_value(s.fields[i].is_optional, slots[i]))
}

/// What `build` gives for the slots: the record's values where every
/// required slot is present, and else the name of the first required field
/// whose slot is absent.
pub open spec fn build_outcome(s: SchemaModel, slots: Seq<Option<Value>>) -> Result<
    Seq<FieldValue>,
    Seq<char>,
> {
    if complete(s, slots) {
        Ok(built_values(s, slots))
    } else {
        Err(s.fields[choose|i: int| is_first_missing(s, slots, i)].name)
    }
}

/// Whether `values` fit the schema: one per field, required where the
/// field is required and optional where it is optional.
pub open spec fn values_fit(s: SchemaModel, values: Seq<FieldValue>) -> bool {
    &&& values.len() == s.fields.len()
    &&& forall|i: int|
        0 <= i < values.len() ==> ((#[trigger] values[i]) is Optional
            <==> s.fields[i].is_optional)
}

/// A finished record: one value per field of its schema, in declaration
/// order.
#[derive(Debug, PartialEq, Eq)]
pub struct Record<'a> {
    schema: &'a RecordSchema,
    values: Vec<FieldValue>,
}

impl<'a> View for Record<'a> {
    type V = Seq<FieldValue>;

    closed spec fn view(&self) -> Seq<FieldValue> {
        self.values@
    }
}

/// One entry of a structured rendering: a field's name and its value.
#[derive(Debug, PartialEq, Eq)]
pub struct RenderedField {
    pub name: String,
    pub value: FieldValue,
}

/// The structured rendering of a record: the name of its type, then its
/// fields by name.
#[derive(Debug, PartialEq, Eq)]
pub struct Rendering {
    pub name: String,
    pub fields: Vec<RenderedField>,
}

impl<'a> Record<'a> {
    #[verifier::type_invariant]
    spec fn inv(self) -> bool {
        values_fit(self.schema@, self.values@)
    }

    /// The schema of the record's type.
    pub closed spec fn schema(self) -> RecordSchema {
        *self.schema
    }

    /// Makes a record from its values, given in declaration order.
    ///
    /// Succeeds exactly where the values fit the schema.
    pub fn new(schema: &'a RecordSchema, values: Vec<FieldValue>) -> (r: Option<Record<'a>>)
        ensures
            r is Some <==> values_fit(schema@, values@),
            r matches Some(rec) ==> rec@ == values@ && rec.schema() == *schema,
    {
        let n = schema.len();
        if values.len() != n {
            return None;
        }
        let mut i: usize = 0;
        while i < n
            invariant
                i <= n,
                n == schema@.fields.len(),
                n == values@.len(),
                forall|j: int|
                    0 <= j < i ==> ((#[trigger] values@[j]) is Optional
                        <==> schema@.fields[j].is_optional),
            decreases n - i,
        {
            let optional = match &values[i] {
                FieldValue::Optional(_) => true,
                FieldValue::Required(_) => false,
            };
            if optional != schema.field_at(i).is_optional() {
                return None;
            }
            i += 1;
        }
        Some(Record { schema, values })
    }

    /// The values, in declaration order.
    pub fn values(&self) -> (r: &Vec<FieldValue>)
        ensures
            r@ == self@,
            values_fit(self.schema()@, self@),
    {
        proof {
            use_type_invariant(self);
        }
        &self.values
    }

    /// The value of the first field called `name`, where there is one.
    pub fn get(&self, name: &str) -> (r: Option<&FieldValue>)
        ensures
            r is Some <==> self.schema()@.has_field(name@),
            r matches Some(v) ==> forall|i: int|
                self.schema()@.is_first_named(name@, i) ==> *v == self@[i],
    {
        proof {
            use_type_invariant(self);
        }
        match self.schema.position(name) {
            Some(i) => Some(&self.values[i]),
            None => None,
        }
    }

    /// Renders the record: the name of its type, then every field's name
    /// paired with its current value, in declaration order. The values are
    /// handed on as they are, whatever they hold.
    pub fn render(&self) -> (r: Rendering)
        ensures
            r.name@ == self.schema()@.name,
            r.fields@.len() == self@.len(),
            forall|i: int|
                0 <= i < self@.len() ==> (#[trigger] r.fields@[i]).name@
                    == self.schema()@.fields[i].name && r.fields@[i].value == self@[i],
    {
        proof {
            use_type_invariant(self);
        }
        let n = self.values.len();
        let mut fields: Vec<RenderedField> = Vec::new();
        let mut i: usize = 0;
        while i < n
            invariant
                i <= n,
                n == self.values@.len(),
                n == self.schema@.fields.len(),
                fields@.len() == i,
                forall|j: int|
                    0 <= j < i ==> (#[trigger] fields@[j]).name@ == self.schema@.fields[j].name
                        && fields@[j].value == self.values@[j],
            decreases n - i,
        {
            fields.push(
                RenderedField {
                    name: self.schema.field_at(i).name().clone(),
                    value: self.values[i].clone(),
                },
            );
            i += 1;
        }
        Rendering { name: self.schema.name().clone(), fields }
    }
}

/// A builder for the records of a schema: one slot per field, each absent
/// or present with a value.
#[derive(Debug, PartialEq, Eq)]
pub struct Builder<'a> {
    schema: &'a RecordSchema,
    slots: Vec<Option<Value>>,
}

impl<'a> View for Builder<'a> {
    type V = Seq<Option<Value>>;

    closed spec fn view(&self) -> Seq<Option<Value>> {
        self.slots@
    }
}

impl<'a> Builder<'a> {
    #[verifier::type_invariant]
    spec fn inv(self) -> bool {
        self.slots@.len() == self.schema@.fields.len()
    }

    /// The schema that the builder works from.
    pub closed spec fn schema(self) -> RecordSchema {
        *self.schema
    }

    /// A builder in its default state: every slot absent.
    pub fn new(schema: &'a RecordSchema) -> (r: Builder<'a>)
        ensures
            r.schema() == *schema,
            r@ == fresh_slots(schema@),
    {
        let n = schema.len();
        let mut slots: Vec<Option<Value>> = Vec::new();
        let mut i: usize = 0;
        while i < n
            invariant
                i <= n,
                slots@.len() == i,
                forall|j: int| 0 <= j < i ==> (#[trigger] slots@[j]) is None,
            decreases n - i,
        {
            slots.push(None);
            i += 1;
        }
        Builder { schema, slots }
    }

    /// The setter of the field called `name`: marks the slot present with
    /// `value` and hands the same builder back, so that calls can be chained
    /// in any order. A name that no field has changes nothing.
    pub fn set(&mut self, name: &str, value: Value) -> (r: &mut Self)
        ensures
            r.schema() == old(self).schema(),
            r@ == set_slot(old(self).schema()@, old(self)@, name@, value),
            *final(self) == *final(r),
    {
        proof {
            use_type_invariant(&*self);
        }
        match self.schema.position(name) {
            Some(i) => {
                self.slots[i] = Some(value);
            },
            None => {},
        }
        self
    }

    /// Produces the record from the slots, or fails on the first required
    /// field, in declaration order, whose slot is absent. The builder is
    /// left as it was and can be used further.
    pub fn build(&self) -> (r: Result<Record<'a>, MissingField>)
        ensures
            r matches Ok(rec) ==> rec.schema() == self.schema() && build_outcome(
                self.schema()@,
                self@,
            ) == Ok::<Seq<FieldValue>, Seq<char>>(rec@),
            r matches Err(e) ==> build_outcome(self.schema()@, self@) == Err::<
                Seq<FieldValue>,
                Seq<char>,
            >(e.field@),
    {
        proof {
            use_type_invariant(self);
        }
        let n = self.slots.len();
        let mut values: Vec<FieldValue> = Vec::new();
        let mut i: usize = 0;
        while i < n
            invariant
                i <= n,
                n == self.slots@.len(),
                n == self.schema@.fields.len(),
                values@.len() == i,
                forall|j: int| 0 <= j < i ==> !is_missing(self.schema@, self.slots@, j),
                forall|j: int|
                    0 <= j < i ==> (#[trigger] values@[j]) == field_value(
                        self.schema@.fields[j].is_optional,
                        self.slots@[j],
                    ),
            decreases n - i,
        {
            let field = self.schema.field_at(i);
            if field.is_optional() {
                values.push(FieldValue::Optional(self.slots[i].clone()));
            } else {
                match &self.slots[i] {
                    Some(v) => {
                        values.push(FieldValue::Required(v.clone()));
                    },
                    None => {
                        proof {
                            lemma_first_missing(self.schema@, self.slots@, i as int);
                        }
                        return Err(MissingField { field: field.name().clone() });
                    },
                }
            }
            i += 1;
        }
        proof {
            assert(values@ =~= built_values(self.schema@, self.slots@));
        }
        Ok(Record { schema: self.schema, values })
    }
}

/// The first missing field is the one that `build_outcome` names.
pub proof fn lemma_first_missing(s: SchemaModel, slots: Seq<Option<Value>>, i: int)
    requires
        is_first_missing(s, slots, i),
    ensures
        build_outcome(s, slots) == Err::<Seq<FieldValue>, Seq<char>>(s.fields[i].name),
{
    // Of two fields that are both the first missing one, neither can come
    // before the other.
    let k = choose|k: int| is_first_missing(s, slots, k);
    assert(k == i) by {
        if k < i {
            assert(!is_missing(s, slots, k));
        } else if i < k {
            assert(!is_missing(s, slots, i));
        }
    }
}

} // verus!
