//! The formatter generator: a `Debug` implementation that shows the fields
//! of a record by name, in declaration order.

use vstd::prelude::*;
use vstd::string::StringExecFns;
use crate::artifact::GeneratedArtifact;
use crate::schema::{
    refuses, FieldDescriptor, FieldModel, RecordDecl, RecordSchema, SchemaModel,
    UnsupportedTypeShape,
};
use crate::text::concat;

verus! {

/// The call that shows one field: its name paired with its current value.
/// The value is handed to its own `Debug` implementation, whatever its type.
pub open spec fn field_line(f: FieldModel) -> Seq<char> {
    "            .field(\""@ + f.name + "\", &self."@ + f.name + ")\n"@
}

/// The calls that show the fields, in declaration order.
pub open spec fn field_lines(fields: Seq<FieldModel>) -> Seq<Seq<char>> {
    Seq::new(fields.len(), |i: int| field_line(fields[i]))
}

/// The whole formatter fragment: the record's own name first, then the
/// fields in declaration order.
pub open spec fn debug_text(s: SchemaModel) -> Seq<char> {
    "impl std::fmt::Debug for "@ + s.name
        + " {\n    fn fmt(&self, f: &mut std::fmt::Formatter<'_>) -> std::fmt::Result {\n        f.debug_struct(\""@
        + s.name + "\")\n"@ + concat(field_lines(s.fields))
        + "            .finish()\n    }\n}\n"@
}

fn write_field_line(f: &FieldDescriptor, out: &mut String)
    ensures
        final(out)@ == old(out)@ + field_line(f@),
{
    let name = f.name().as_str();
    out.append("            .field(\"");
    out.append(name);
    out.append("\", &self.");
    out.append(name);
    out.append(")\n");
}

/// Emits the `Debug` implementation of a record type.
pub fn generate_debug(schema: &RecordSchema) -> (r: GeneratedArtifact)
    ensures
        r@ == debug_text(schema@),
{
    let name = schema.name().as_str();
    let mut out = String::new();
    out.append("impl std::fmt::Debug for ");
    out.append(name);
    out.append(
        " {\n    fn fmt(&self, f: &mut std::fmt::Formatter<'_>) -> std::fmt::Result {\n        f.debug_struct(\"",
    );
    out.append(name);
    out.append("\")\n");
    let ghost start = out@;
    let ghost lines = field_lines(schema@.fields);
    let n = schema.len();
    let mut i: usize = 0;
    while i < n
        invariant
            i <= n,
            n == schema@.fields.len(),
            lines == field_lines(schema@.fields),
            out@ == start + concat(lines.take(i as int)),
        decreases n - i,
    {
        write_field_line(schema.field_at(i), &mut out);
        proof {
            assert(lines.take(i + 1).drop_last() =~= lines.take(i as int));
        }
        i += 1;
    }
    out.append("            .finish()\n    }\n}\n");
    proof {
        assert(lines.take(n as int) =~= lines);
    }
    GeneratedArtifact::new(out)
}

/// Classifies a declaration and emits its `Debug` implementation.
///
/// Succeeds exactly on a classifiable declaration. Otherwise nothing is
/// emitted, and the error says where classification stopped.
pub fn derive(decl: RecordDecl) -> (r: Result<GeneratedArtifact, UnsupportedTypeShape>)
    ensures
        r is Ok <==> decl.classifiable(),
        r matches Ok(a) ==> a@ == debug_text(decl.schema()),
        r matches Err(e) ==> refuses(decl, e),
{
    match RecordSchema::from_decl(decl) {
        Ok(schema) => Ok(generate_debug(&schema)),
        Err(e) => Err(e),
    }
}

} // verus!
