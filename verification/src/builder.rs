//! The builder generator: a companion type that collects field values one
//! by one and checks the required ones before it produces the record.

use vstd::prelude::*;
use vstd::string::StringExecFns;
use crate::artifact::GeneratedArtifact;
use crate::runtime::missing_field_message;
use crate::schema::{
    refuses, FieldDescriptor, FieldModel, RecordDecl, RecordSchema, SchemaModel,
    UnsupportedTypeShape,
};
use crate::text::concat;

verus! {

/// The name of the builder type: the record's name followed by `Builder`.
pub open spec fn builder_name(record: Seq<char>) -> Seq<char> {
    record + "Builder"@
}

/// The type of the builder's slot for a field. A required field gets the
/// optional wrapper around its declared type; an optional field keeps its
/// declared type, so nothing is wrapped twice.
pub open spec fn slot_type(f: FieldModel) -> Seq<char> {
    if f.is_optional {
        f.declared_type.text()
    } else {
        "Option<"@ + f.declared_type.text() + ">"@
    }
}

/// The declaration of the builder's slot for a field.
pub open spec fn slot_line(f: FieldModel) -> Seq<char> {
    "    "@ + f.name + ": "@ + slot_type(f) + ",\n"@
}

/// The setter of a field: named like the field, it takes the field's value
/// type, marks the slot present and hands the builder back.
pub open spec fn setter_text(f: FieldModel) -> Seq<char> {
    "    pub fn "@ + f.name + "(&mut self, "@ + f.name + ": "@ + f.value_type().text()
        + ") -> &mut Self {\n        self."@ + f.name + " = Some("@ + f.name
        + ");\n        self\n    }\n"@
}

/// The line of `build` that fills a field of the record. An optional field
/// is copied as it is; a required one must be present, else `build` fails
/// with the message that names the field.
pub open spec fn build_line(f: FieldModel) -> Seq<char> {
    if f.is_optional {
        "            "@ + f.name + ": self."@ + f.name + ".clone(),\n"@
    } else {
        "            "@ + f.name + ": self."@ + f.name + ".clone().ok_or(\""@
            + missing_field_message(f.name) + "\")?,\n"@
    }
}

/// The slot declarations of all fields, in declaration order.
pub open spec fn slot_lines(fields: Seq<FieldModel>) -> Seq<Seq<char>> {
    Seq::new(fields.len(), |i: int| slot_line(fields[i]))
}

/// The setters of all fields, in declaration order.
pub open spec fn setter_texts(fields: Seq<FieldModel>) -> Seq<Seq<char>> {
    Seq::new(fields.len(), |i: int| setter_text(fields[i]))
}

/// The lines of `build` for all fields, in declaration order.
pub open spec fn build_lines(fields: Seq<FieldModel>) -> Seq<Seq<char>> {
    Seq::new(fields.len(), |i: int| build_line(fields[i]))
}

/// The builder type with one slot per field. All slots start absent.
pub open spec fn struct_text(s: SchemaModel) -> Seq<char> {
    "#[derive(Default)]\npub struct "@ + builder_name(s.name) + " {\n"@ + concat(
        slot_lines(s.fields),
    ) + "}\n"@
}

/// The `build` operation.
pub open spec fn build_text(s: SchemaModel) -> Seq<char> {
    "    pub fn build(&self) -> Result<"@ + s.name
        + ", Box<dyn std::error::Error>> {\n        Ok("@ + s.name + " {\n"@ + concat(
        build_lines(s.fields),
    ) + "        })\n    }\n"@
}

/// The methods of the builder: the setters, then `build`.
pub open spec fn methods_text(s: SchemaModel) -> Seq<char> {
    "impl "@ + builder_name(s.name) + " {\n"@ + concat(setter_texts(s.fields)) + build_text(s)
        + "}\n"@
}

/// The factory method on the record type.
pub open spec fn factory_text(s: SchemaModel) -> Seq<char> {
    "impl "@ + s.name + " {\n    pub fn builder() -> "@ + builder_name(s.name)
        + " {\n        "@ + builder_name(s.name) + "::default()\n    }\n}\n"@
}

/// The whole builder fragment.
pub open spec fn builder_text(s: SchemaModel) -> Seq<char> {
    struct_text(s) + "\n"@ + methods_text(s) + "\n"@ + factory_text(s)
}

fn write_slot_line(f: &FieldDescriptor, out: &mut String)
    ensures
        final(out)@ == old(out)@ + slot_line(f@),
{
    out.append("    ");
    out.append(f.name().as_str());
    out.append(": ");
    if f.is_optional() {
        f.declared_type().write_to(out);
    } else {
        out.append("Option<");
        f.declared_type().write_to(out);
        out.append(">");
    }
    out.append(",\n");
}

fn write_setter(f: &FieldDescriptor, out: &mut String)
    ensures
        final(out)@ == old(out)@ + setter_text(f@),
{
    let name = f.name().as_str();
    out.append("    pub fn ");
    out.append(name);
    out.append("(&mut self, ");
    out.append(name);
    out.append(": ");
    f.value_type().write_to(out);
    out.append(") -> &mut Self {\n        self.");
    out.append(name);
    out.append(" = Some(");
    out.append(name);
    out.append(");\n        self\n    }\n");
}

fn write_build_line(f: &FieldDescriptor, out: &mut String)
    ensures
        final(out)@ == old(out)@ + build_line(f@),
{
    let name = f.name().as_str();
    out.append("            ");
    out.append(name);
    out.append(": self.");
    out.append(name);
    if f.is_optional() {
        out.append(".clone(),\n");
    } else {
        out.append(".clone().ok_or(\"");
        out.append("the value of ");
        out.append(name);
        out.append("was not set");
        out.append("\")?,\n");
    }
}

fn write_builder_name(schema: &RecordSchema, out: &mut String)
    ensures
        final(out)@ == old(out)@ + builder_name(schema@.name),
{
    out.append(schema.name().as_str());
    out.append("Builder");
}

fn write_struct(schema: &RecordSchema, out: &mut String)
    ensures
        final(out)@ == old(out)@ + struct_text(schema@),
{
    out.append("#[derive(Default)]\npub struct ");
    write_builder_name(schema, out);
    out.append(" {\n");
    let ghost start = out@;
    let ghost lines = slot_lines(schema@.fields);
    let n = schema.len();
    let mut i: usize = 0;
    while i < n
        invariant
            i <= n,
            n == schema@.fields.len(),
            lines == slot_lines(schema@.fields),
            out@ == start + concat(lines.take(i as int)),
        decreases n - i,
    {
        write_slot_line(schema.field_at(i), out);
        proof {
            assert(lines.take(i + 1).drop_last() =~= lines.take(i as int));
        }
        i += 1;
    }
    out.append("}\n");
    proof {
        assert(lines.take(n as int) =~= lines);
    }
}

fn write_methods(schema: &RecordSchema, out: &mut String)
    ensures
        final(out)@ == old(out)@ + methods_text(schema@),
{
    out.append("impl ");
    write_builder_name(schema, out);
    out.append(" {\n");
    let ghost start = out@;
    let ghost setters = setter_texts(schema@.fields);
    let n = schema.len();
    let mut i: usize = 0;
    while i < n
        invariant
            i <= n,
            n == schema@.fields.len(),
            setters == setter_texts(schema@.fields),
            out@ == start + concat(setters.take(i as int)),
        decreases n - i,
    {
        write_setter(schema.field_at(i), out);
        proof {
            assert(setters.take(i + 1).drop_last() =~= setters.take(i as int));
        }
        i += 1;
    }
    proof {
        assert(setters.take(n as int) =~= setters);
    }
    let name = schema.name().as_str();
    out.append("    pub fn build(&self) -> Result<");
    out.append(name);
    out.append(", Box<dyn std::error::Error>> {\n        Ok(");
    out.append(name);
    out.append(" {\n");
    let ghost middle = out@;
    let ghost lines = build_lines(schema@.fields);
    let mut j: usize = 0;
    while j < n
        invariant
            j <= n,
            n == schema@.fields.len(),
            lines == build_lines(schema@.fields),
            out@ == middle + concat(lines.take(j as int)),
        decreases n - j,
    {
        write_build_line(schema.field_at(j), out);
        proof {
            assert(lines.take(j + 1).drop_last() =~= lines.take(j as int));
        }
        j += 1;
    }
    out.append("        })\n    }\n");
    out.append("}\n");
    proof {
        assert(lines.take(n as int) =~= lines);
    }
}

fn write_factory(schema: &RecordSchema, out: &mut String)
    ensures
        final(out)@ == old(out)@ + factory_text(schema@),
{
    out.append("impl ");
    out.append(schema.name().as_str());
    out.append(" {\n    pub fn builder() -> ");
    write_builder_name(schema, out);
    out.append(" {\n        ");
    write_builder_name(schema, out);
    out.append("::default()\n    }\n}\n");
}

/// Emits the builder of a record type: the builder type with one slot per
/// field, one setter per field, the `build` operation, and the factory
/// method on the record type. Fields keep their declaration order
/// throughout.
pub fn generate_builder(schema: &RecordSchema) -> (r: GeneratedArtifact)
    ensures
        r@ == builder_text(schema@),
{
    let mut out = String::new();
    write_struct(schema, &mut out);
    out.append("\n");
    write_methods(schema, &mut out);
    out.append("\n");
    write_factory(schema, &mut out);
    GeneratedArtifact::new(out)
}

/// Classifies a declaration and emits its builder.
///
/// Succeeds exactly on a classifiable declaration. Otherwise nothing is
/// emitted, and the error says where classification stopped.
pub fn derive(decl: RecordDecl) -> (r: Result<GeneratedArtifact, UnsupportedTypeShape>)
    ensures
        r is Ok <==> decl.classifiable(),
        r matches Ok(a) ==> a@ == builder_text(decl.schema()),
        r matches Err(e) ==> refuses(decl, e),
{
    match RecordSchema::from_decl(decl) {
        Ok(schema) => Ok(generate_builder(&schema)),
        Err(e) => Err(e),
    }
}

} // verus!
