//! Record declarations, field classification and record schemas.

use vstd::prelude::*;
use vstd::string::StringExecFns;
use crate::types::TypeExpr;

verus! {

/// One named field as it is declared: its name and the type written on it.
#[derive(Debug, PartialEq, Eq)]
pub struct FieldDecl {
    pub name: String,
    pub ty: TypeExpr,
}

/// The body of a declared type.
#[derive(Debug, PartialEq, Eq)]
pub enum RecordBody {
    /// A record with named fields, in declaration order.
    Named(Vec<FieldDecl>),
    /// Any other shape: positional fields, no fields at all, an enumeration.
    Other,
}

/// A declared type, as a front end hands it over.
#[derive(Debug, PartialEq, Eq)]
pub struct RecordDecl {
    pub name: String,
    pub body: RecordBody,
}

/// The declaration cannot be classified, so nothing is generated for it.
#[derive(Debug, PartialEq, Eq)]
pub struct UnsupportedTypeShape {
    /// The name of the first field whose type is not supported; `None` where
    /// the declared type has no named fields.
    pub field: Option<String>,
}

/// What a field descriptor stands for.
pub struct FieldModel {
    pub name: Seq<char>,
    pub declared_type: TypeExpr,
    pub is_optional: bool,
}

impl FieldModel {
    /// The classification agrees with the declared type.
    pub open spec fn wf(self) -> bool {
        &&& self.declared_type.supported()
        &&& self.is_optional == self.declared_type.wraps_optional()
    }

    /// The type inside the optional wrapper; present iff the field is optional.
    pub open spec fn inner_type(self) -> Option<TypeExpr> {
        if self.is_optional {
            self.declared_type.first_type_arg()
        } else {
            None
        }
    }

    /// The type of the value that the field holds once it is set: the inner
    /// type of an optional field, the declared type of a required one.
    pub open spec fn value_type(self) -> TypeExpr {
        match self.inner_type() {
            Some(t) => t,
            None => self.declared_type,
        }
    }
}

/// The descriptor that classification gives to a declared field.
pub open spec fn classified(field: FieldDecl) -> FieldModel {
    FieldModel {
        name: field.name@,
        declared_type: field.ty,
        is_optional: field.ty.wraps_optional(),
    }
}

/// A classified field: its name, its declared type and whether it is optional.
#[derive(Debug, PartialEq, Eq)]
pub struct FieldDescriptor {
    name: String,
    declared_type: TypeExpr,
    is_optional: bool,
}

impl View for FieldDescriptor {
    type V = FieldModel;

    closed spec fn view(&self) -> FieldModel {
        FieldModel {
            name: self.name@,
            declared_type: self.declared_type,
            is_optional: self.is_optional,
        }
    }
}

impl FieldDescriptor {
    #[verifier::type_invariant]
    spec fn inv(self) -> bool {
        self@.wf()
    }

    /// The field's name.
    pub fn name(&self) -> (r: &String)
        ensures
            r@ == self@.name,
    {
        &self.name
    }

    /// The type written on the field.
    pub fn declared_type(&self) -> (r: &TypeExpr)
        ensures
            *r == self@.declared_type,
    {
        &self.declared_type
    }

    /// Whether the field is optional.
    pub fn is_optional(&self) -> (r: bool)
        ensures
            r == self@.is_optional,
            self@.wf(),
    {
        proof {
            use_type_invariant(self);
        }
        self.is_optional
    }

    /// The type inside the optional wrapper; present iff the field is optional.
    pub fn inner_type(&self) -> (r: Option<&TypeExpr>)
        ensures
            r is Some <==> self@.is_optional,
            r matches Some(t) ==> self@.inner_type() == Some(*t),
            self@.wf(),
    {
        proof {
            use_type_invariant(self);
        }
        if self.is_optional {
            match self.declared_type.outermost_segment() {
                Some(seg) => seg.first_type_argument(),
                None => None,
            }
        } else {
            None
        }
    }

    /// The type of the value that the field holds once it is set.
    pub fn value_type(&self) -> (r: &TypeExpr)
        ensures
            *r == self@.value_type(),
            self@.wf(),
    {
        match self.inner_type() {
            Some(t) => t,
            None => &self.declared_type,
        }
    }
}

/// Classifies one declared field.
///
/// Succeeds exactly on a supported type. The field is optional iff the
/// outermost segment of its type is named like the optional wrapper; the
/// wrapper is unwrapped one level only. A failure names the field.
pub fn classify(field: FieldDecl) -> (r: Result<FieldDescriptor, UnsupportedTypeShape>)
    ensures
        r is Ok <==> field.ty.supported(),
        r matches Ok(fd) ==> fd@ == classified(field) && fd@.wf(),
        r matches Err(e) ==> e.field matches Some(n) && n@ == field.name@,
{
    let verdict = match field.ty.outermost_segment() {
        Some(seg) => {
            if seg.is_optional_wrapper() {
                if seg.first_type_argument().is_some() {
                    Some(true)
                } else {
                    None
                }
            } else {
                Some(false)
            }
        },
        None => None,
    };
    match verdict {
        Some(is_optional) => Ok(
            FieldDescriptor { name: field.name, declared_type: field.ty, is_optional },
        ),
        None => Err(UnsupportedTypeShape { field: Some(field.name) }),
    }
}

/// What a record schema stands for: the type's name and its classified
/// fields in declaration order.
pub struct SchemaModel {
    pub name: Seq<char>,
    pub fields: Seq<FieldModel>,
}

impl SchemaModel {
    /// Every field's classification agrees with its declared type.
    pub open spec fn wf(self) -> bool {
        forall|i: int| 0 <= i < self.fields.len() ==> (#[trigger] self.fields[i]).wf()
    }

    /// No two fields share a name.
    pub open spec fn names_unique(self) -> bool {
        forall|i: int, j: int|
            0 <= i < j < self.fields.len() ==> self.fields[i].name != self.fields[j].name
    }

    /// Whether some field is called `name`.
    pub open spec fn has_field(self, name: Seq<char>) -> bool {
        exists|i: int| 0 <= i < self.fields.len() && self.fields[i].name == name
    }

    /// Whether field `i` is the first field called `name`.
    pub open spec fn is_first_named(self, name: Seq<char>, i: int) -> bool {
        &&& 0 <= i < self.fields.len()
        &&& self.fields[i].name == name
        &&& forall|j: int| 0 <= j < i ==> self.fields[j].name != name
    }
}

impl RecordDecl {
    /// Whether the declaration can be classified: it has named fields, and
    /// the type of each is supported.
    pub open spec fn classifiable(self) -> bool {
        self.body matches RecordBody::Named(fields) && forall|i: int|
            0 <= i < fields@.len() ==> (#[trigger] fields@[i]).ty.supported()
    }

    /// The schema that classification gives to a declaration with named
    /// fields: the same name, and the fields classified one by one, in order.
    pub open spec fn schema(self) -> SchemaModel
        recommends
            self.body is Named,
    {
        SchemaModel {
            name: self.name@,
            fields: Seq::new(
                self.body->Named_0@.len(),
                |i: int| classified(self.body->Named_0@[i]),
            ),
        }
    }
}

/// Whether `fields[k]` is the first field whose type is not supported.
pub open spec fn is_first_unsupported(fields: Seq<FieldDecl>, k: int) -> bool {
    &&& 0 <= k < fields.len()
    &&& !fields[k].ty.supported()
    &&& forall|j: int| 0 <= j < k ==> (#[trigger] fields[j]).ty.supported()
}

/// Whether `e` is the error that a declaration which cannot be classified
/// is refused with: it carries no field where the declaration has no named
/// fields, and else the name of the first field whose type is not supported.
pub open spec fn refuses(decl: RecordDecl, e: UnsupportedTypeShape) -> bool {
    match decl.body {
        RecordBody::Other => e.field is None,
        RecordBody::Named(fields) => e.field matches Some(n) && exists|k: int|
            is_first_unsupported(fields@, k) && n@ == fields@[k].name@,
    }
}

/// The classified description of a record type.
#[derive(Debug, PartialEq, Eq)]
pub struct RecordSchema {
    name: String,
    fields: Vec<FieldDescriptor>,
}

impl View for RecordSchema {
    type V = SchemaModel;

    closed spec fn view(&self) -> SchemaModel {
        SchemaModel {
            name: self.name@,
            fields: Seq::new(self.fields@.len(), |i: int| self.fields@[i]@),
        }
    }
}

impl RecordSchema {
    #[verifier::type_invariant]
    spec fn inv(self) -> bool {
        self@.wf()
    }

    /// Classifies every field of a declaration, in declaration order.
    ///
    /// Succeeds exactly on a classifiable declaration. Otherwise nothing is
    /// produced, and the error says where classification stopped.
    #[verifier::loop_isolation(false)]
    pub fn from_decl(decl: RecordDecl) -> (r: Result<RecordSchema, UnsupportedTypeShape>)
        ensures
            r is Ok <==> decl.classifiable(),
            r matches Ok(s) ==> s@ == decl.schema() && s@.wf(),
            r matches Err(e) ==> refuses(decl, e),
    {
        let RecordDecl { name, body } = decl;
        match body {
            RecordBody::Other => Err(UnsupportedTypeShape { field: None }),
            RecordBody::Named(decls) => {
                let mut fields: Vec<FieldDescriptor> = Vec::new();
                for field in it: decls
                    invariant
                        it.seq() == decls@,
                        fields@.len() == it.index(),
                        forall|j: int|
                            0 <= j < it.index() ==> (#[trigger] decls@[j]).ty.supported(),
                        forall|j: int|
                            0 <= j < it.index() ==> (#[trigger] fields@[j])@ == classified(
                                decls@[j],
                            ),
                {
                    match classify(field) {
                        Ok(fd) => {
                            fields.push(fd);
                        },
                        Err(e) => {
                            proof {
                                assert(is_first_unsupported(decls@, it.index() as int));
                            }
                            return Err(e);
                        },
                    }
                }
                let schema = RecordSchema { name, fields };
                proof {
                    assert(schema@.fields =~= decl.schema().fields);
                }
                Ok(schema)
            },
        }
    }

    /// The name of the record type.
    pub fn name(&self) -> (r: &String)
        ensures
            r@ == self@.name,
    {
        &self.name
    }

    /// The number of fields.
    pub fn len(&self) -> (r: usize)
        ensures
            r == self@.fields.len(),
    {
        self.fields.len()
    }

    /// Whether no two fields share a name.
    pub fn has_unique_names(&self) -> (r: bool)
        ensures
            r == self@.names_unique(),
    {
        let n = self.fields.len();
        let mut j: usize = 0;
        while j < n
            invariant
                j <= n,
                n == self@.fields.len(),
                forall|a: int, b: int|
                    0 <= a < b < j ==> self@.fields[a].name != self@.fields[b].name,
            decreases n - j,
        {
            let mut i: usize = 0;
            while i < j
                invariant
                    i <= j,
                    j < n,
                    n == self@.fields.len(),
                    forall|a: int| 0 <= a < i ==> self@.fields[a].name != self@.fields[j as int].name,
                decreases j - i,
            {
                if self.fields[i].name == self.fields[j].name {
                    proof {
                        assert(self@.fields[i as int].name == self@.fields[j as int].name);
                    }
                    return false;
                }
                i += 1;
            }
            j += 1;
        }
        true
    }

    /// The position of the first field called `name`, where there is one.
    pub fn position(&self, name: &str) -> (r: Option<usize>)
        ensures
            r is Some <==> self@.has_field(name@),
            r matches Some(i) ==> self@.is_first_named(name@, i as int),
    {
        let key = String::from_str(name);
        let n = self.fields.len();
        let mut i: usize = 0;
        while i < n
            invariant
                i <= n,
                n == self@.fields.len(),
                key@ == name@,
                forall|j: int| 0 <= j < i ==> self@.fields[j].name != name@,
            decreases n - i,
        {
            if self.fields[i].name == key {
                proof {
                    assert(self@.is_first_named(name@, i as int));
                }
                return Some(i);
            }
            i += 1;
        }
        None
    }

    /// The fields, in declaration order.
    pub fn fields(&self) -> (r: &Vec<FieldDescriptor>)
        ensures
            r@.len() == self@.fields.len(),
            forall|i: int| 0 <= i < r@.len() ==> (#[trigger] r@[i])@ == self@.fields[i],
            self@.wf(),
    {
        proof {
            use_type_invariant(self);
        }
        &self.fields
    }

    /// The field at position `i` of the declaration order.
    pub(crate) fn field_at(&self, i: usize) -> (r: &FieldDescriptor)
        requires
            i < self@.fields.len(),
        ensures
            r@ == self@.fields[i as int],
            r@.wf(),
    {
        proof {
            use_type_invariant(self);
        }
        &self.fields[i]
    }
}

} // verus!
