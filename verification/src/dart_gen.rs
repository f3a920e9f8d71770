//! The managed-language generator: declaration stubs, implementation
//! forwarders and per-struct data classes whose decoders read the transport
//! envelope in declared field order. The streams stay separate so the
//! assembler can merge them into one file or split declarations from the
//! implementation.

use vstd::prelude::*;

use crate::ir::{IrField, IrFunc, IrStruct, IrType, IrTypePrimitive};
use crate::text::{dec_rep, joined, views_of, join_strings, usize_to_string};
use crate::ty_struct::{spec_intodart_field, spec_wire_field_decl, spec_wire_struct_fields};

verus! {

/// The managed-side spelling of a shape: every scalar is an int except
/// booleans, an optional is nullable, a list is a typed list, and the
/// pointer and direct-return wrappers are invisible.
pub open spec fn spec_dart_type(t: IrType) -> Seq<char>
    decreases t,
{
    match t {
        IrType::Primitive(p) => if p is Bool {
            "bool"@
        } else {
            "int"@
        },
        IrType::Delegate(i) => spec_dart_type(*i),
        IrType::StructRef(n) => n.name@,
        IrType::EnumRef(n) => n.name@,
        IrType::Boxed(i) => spec_dart_type(*i),
        IrType::Optional(i) => spec_dart_type(*i) + "?"@,
        IrType::List(e) => "List<"@ + spec_dart_type(*e) + ">"@,
        IrType::SyncReturn(i) => spec_dart_type(*i),
    }
}

/// The managed-side spelling of a shape.
pub fn dart_type(t: &IrType) -> (r: String)
    ensures
        r@ == spec_dart_type(*t),
    decreases *t,
{
    match t {
        IrType::Primitive(p) => if matches!(p, IrTypePrimitive::Bool) {
            String::from_str("bool")
        } else {
            String::from_str("int")
        },
        IrType::Delegate(i) => dart_type(i),
        IrType::StructRef(n) => n.name.clone(),
        IrType::EnumRef(n) => n.name.clone(),
        IrType::Boxed(i) => dart_type(i),
        IrType::Optional(i) => dart_type(i).concat("?"),
        IrType::List(e) => String::from_str("List<").concat(dart_type(e).as_str()).concat(">"),
        IrType::SyncReturn(i) => dart_type(i),
    }
}

/// One field declaration of a data class.
pub open spec fn spec_dart_field_decl(f: IrField) -> Seq<char> {
    "final "@ + spec_dart_type(f.ty) + " "@ + f.name@ + ";"@
}

/// The data class's field declarations, in declared field order.
pub open spec fn spec_dart_field_decls(s: IrStruct) -> Seq<Seq<char>> {
    s.fields@.map_values(|f: IrField| spec_dart_field_decl(f))
}

/// The decoder's read of the envelope slot `i` for one field.
pub open spec fn spec_dart_decode_read(f: IrField, i: nat) -> Seq<char> {
    "raw["@ + dec_rep(i) + "] as "@ + spec_dart_type(f.ty)
}

/// The decoder's reads, one per field, in declared field order: the field
/// declared at position `i` is read from envelope slot `i`.
pub open spec fn spec_dart_decode_reads(s: IrStruct) -> Seq<Seq<char>> {
    Seq::new(s.fields@.len(), |i: int| spec_dart_decode_read(s.fields@[i], i as nat))
}

/// The whole data class for one struct: the field declarations, then a
/// decoder that reads the transport envelope slot by slot in declared
/// field order.
pub open spec fn spec_dart_class(s: IrStruct) -> Seq<char> {
    "class "@ + s.name@ + " {\n  "@ + joined(spec_dart_field_decls(s), "\n  "@)
        + "\n  factory "@ + s.name@ + ".decode(List<dynamic> raw) => "@ + s.name@ + "("@ + joined(
        spec_dart_decode_reads(s),
        ", "@,
    ) + ");\n}\n"@
}

/// The declaration stub of one function: direct-return functions return
/// their value, every other function returns a future.
pub open spec fn spec_dart_decl(f: IrFunc) -> Seq<char> {
    (if f.sync {
        spec_dart_type(f.output)
    } else {
        "Future<"@ + spec_dart_type(f.output) + ">"@
    }) + " "@ + f.name@ + "("@ + joined(
        f.params@.map_values(|p: IrField| spec_dart_type(p.ty) + " "@ + p.name@),
        ", "@,
    ) + ");"@
}

/// The unmarshaling of one received envelope expression into the shape the
/// declaration promises: a struct decodes through its data class's decoder,
/// the invisible wrappers unwrap, everything else is a checked cast.
pub open spec fn spec_dart_decode_expr(t: IrType, e: Seq<char>) -> Seq<char>
    decreases t,
{
    match t {
        IrType::StructRef(n) => n.name@ + ".decode("@ + e + ")"@,
        IrType::Delegate(i) => spec_dart_decode_expr(*i, e),
        IrType::Boxed(i) => spec_dart_decode_expr(*i, e),
        IrType::SyncReturn(i) => spec_dart_decode_expr(*i, e),
        _ => e + " as "@ + spec_dart_type(t),
    }
}

/// The unmarshaling of one received envelope expression.
pub fn dart_decode_expr(t: &IrType, e: &str) -> (r: String)
    ensures
        r@ == spec_dart_decode_expr(*t, e@),
    decreases *t,
{
    match t {
        IrType::StructRef(n) => {
            let mut out = n.name.clone();
            out.append(".decode(");
            out.append(e);
            out.append(")");
            out
        },
        IrType::Delegate(i) => dart_decode_expr(i, e),
        IrType::Boxed(i) => dart_decode_expr(i, e),
        IrType::SyncReturn(i) => dart_decode_expr(i, e),
        _ => {
            let mut out = String::from_str(e);
            out.append(" as ");
            out.append(dart_type(t).as_str());
            out
        },
    }
}

/// The marshaling of one argument into wire form before the call.
pub open spec fn spec_dart_marshal_arg(p: IrField) -> Seq<char> {
    "_api2wire("@ + p.name@ + ")"@
}

/// The call into the wire entry point, every argument marshaled.
pub open spec fn spec_dart_wire_call(f: IrFunc) -> Seq<char> {
    "wire_"@ + f.name@ + "("@ + joined(
        f.params@.map_values(|p: IrField| spec_dart_marshal_arg(p)),
        ", "@,
    ) + ")"@
}

/// The implementation of one function: the same signature as its stub, a
/// body that marshals every argument into wire form, calls the wire entry
/// point, and unmarshals the result — directly for a direct-return
/// function, from the posted envelope otherwise.
pub open spec fn spec_dart_impl(f: IrFunc) -> Seq<char> {
    (if f.sync {
        spec_dart_type(f.output)
    } else {
        "Future<"@ + spec_dart_type(f.output) + ">"@
    }) + " "@ + f.name@ + "("@ + joined(
        f.params@.map_values(|p: IrField| spec_dart_type(p.ty) + " "@ + p.name@),
        ", "@,
    ) + (if f.sync {
        ") => "@ + spec_dart_decode_expr(f.output, spec_dart_wire_call(f)) + ";"@
    } else {
        ") => "@ + spec_dart_wire_call(f) + ".then((raw) => "@ + spec_dart_decode_expr(
            f.output,
            "raw"@,
        ) + ");"@
    })
}

/// Emit the data class for one struct.
pub fn generate_dart_class(s: &IrStruct) -> (r: String)
    ensures
        r@ == spec_dart_class(*s),
{
    let n = s.fields.len();
    let mut decls: Vec<String> = Vec::new();
    let mut reads: Vec<String> = Vec::new();
    let mut i: usize = 0;
    while i < n
        invariant
            n == s.fields@.len(),
            i <= n,
            decls@.len() == i,
            reads@.len() == i,
            forall|k: int| 0 <= k < i ==> decls@[k]@ == spec_dart_field_decl(s.fields@[k]),
            forall|k: int|
                0 <= k < i ==> reads@[k]@ == spec_dart_decode_read(s.fields@[k], k as nat),
        decreases n - i,
    {
        let f = &s.fields[i];
        let mut d = String::from_str("final ");
        d.append(dart_type(&f.ty).as_str());
        d.append(" ");
        d.append(f.name.as_str());
        d.append(";");
        decls.push(d);
        let mut rd = String::from_str("raw[");
        rd.append(usize_to_string(i).as_str());
        rd.append("] as ");
        rd.append(dart_type(&f.ty).as_str());
        reads.push(rd);
        i = i + 1;
    }
    proof {
        assert(views_of(decls@) =~~= spec_dart_field_decls(*s));
        assert(views_of(reads@) =~~= spec_dart_decode_reads(*s));
    }
    let decls_str = join_strings(&decls, "\n  ");
    let reads_str = join_strings(&reads, ", ");
    let mut out = String::from_str("class ");
    out.append(s.name.as_str());
    out.append(" {\n  ");
    out.append(decls_str.as_str());
    out.append("\n  factory ");
    out.append(s.name.as_str());
    out.append(".decode(List<dynamic> raw) => ");
    out.append(s.name.as_str());
    out.append("(");
    out.append(reads_str.as_str());
    out.append(");\n}\n");
    out
}

/// Build the parameter list text of a function.
fn dart_params(f: &IrFunc) -> (r: String)
    ensures
        r@ == joined(
            f.params@.map_values(|p: IrField| spec_dart_type(p.ty) + " "@ + p.name@),
            ", "@,
        ),
{
    let n = f.params.len();
    let mut frags: Vec<String> = Vec::new();
    let mut i: usize = 0;
    while i < n
        invariant
            n == f.params@.len(),
            i <= n,
            frags@.len() == i,
            forall|k: int|
                0 <= k < i ==> frags@[k]@ == spec_dart_type(f.params@[k].ty) + " "@
                    + f.params@[k].name@,
        decreases n - i,
    {
        let p = &f.params[i];
        let mut piece = dart_type(&p.ty);
        piece.append(" ");
        piece.append(p.name.as_str());
        frags.push(piece);
        i = i + 1;
    }
    proof {
        assert(views_of(frags@) =~~= f.params@.map_values(
            |p: IrField| spec_dart_type(p.ty) + " "@ + p.name@,
        ));
    }
    join_strings(&frags, ", ")
}

/// Emit the declaration stub of one function.
pub fn generate_dart_decl(f: &IrFunc) -> (r: String)
    ensures
        r@ == spec_dart_decl(*f),
{
    let params = dart_params(f);
    let mut out = if f.sync {
        dart_type(&f.output)
    } else {
        let mut t = String::from_str("Future<");
        t.append(dart_type(&f.output).as_str());
        t.append(">");
        t
    };
    out.append(" ");
    out.append(f.name.as_str());
    out.append("(");
    out.append(params.as_str());
    out.append(");");
    out
}

/// Emit the implementation of one function: marshal the arguments, call
/// the wire entry point, unmarshal the result.
pub fn generate_dart_impl(f: &IrFunc) -> (r: String)
    ensures
        r@ == spec_dart_impl(*f),
{
    let params = dart_params(f);
    let n = f.params.len();
    let mut args: Vec<String> = Vec::new();
    let mut i: usize = 0;
    while i < n
        invariant
            n == f.params@.len(),
            i <= n,
            args@.len() == i,
            forall|k: int| 0 <= k < i ==> args@[k]@ == spec_dart_marshal_arg(f.params@[k]),
        decreases n - i,
    {
        let mut piece = String::from_str("_api2wire(");
        piece.append(f.params[i].name.as_str());
        piece.append(")");
        args.push(piece);
        i = i + 1;
    }
    proof {
        assert(views_of(args@) =~~= f.params@.map_values(|p: IrField| spec_dart_marshal_arg(p)));
    }
    let args_str = join_strings(&args, ", ");
    let mut call = String::from_str("wire_");
    call.append(f.name.as_str());
    call.append("(");
    call.append(args_str.as_str());
    call.append(")");
    let mut out = if f.sync {
        dart_type(&f.output)
    } else {
        let mut t = String::from_str("Future<");
        t.append(dart_type(&f.output).as_str());
        t.append(">");
        t
    };
    out.append(" ");
    out.append(f.name.as_str());
    out.append("(");
    out.append(params.as_str());
    if f.sync {
        out.append(") => ");
        out.append(dart_decode_expr(&f.output, call.as_str()).as_str());
        out.append(";");
    } else {
        out.append(") => ");
        out.append(call.as_str());
        out.append(".then((raw) => ");
        out.append(dart_decode_expr(&f.output, "raw").as_str());
        out.append(");");
    }
    out
}

/// Field-order invariant: for every struct, the wire struct's declarations,
/// the native transport serialization, the data class's declarations and
/// the data class's decoder all walk the same fields in the same declared
/// order — the fragment at position `i` of every stream speaks of the field
/// declared at position `i`, and the decoder reads envelope slot `i` for
/// it. All four streams have exactly one fragment per declared field.
pub proof fn lemma_field_order(s: IrStruct, i: int)
    requires
        0 <= i < s.fields@.len(),
    ensures
        spec_wire_struct_fields(s).len() == s.fields@.len(),
        spec_wire_struct_fields(s)[i] == spec_wire_field_decl(s.fields@[i]),
        s.fields@.map_values(|f: IrField| spec_intodart_field(f)).len() == s.fields@.len(),
        s.fields@.map_values(|f: IrField| spec_intodart_field(f))[i] == spec_intodart_field(
            s.fields@[i],
        ),
        spec_dart_field_decls(s).len() == s.fields@.len(),
        spec_dart_field_decls(s)[i] == spec_dart_field_decl(s.fields@[i]),
        spec_dart_decode_reads(s).len() == s.fields@.len(),
        spec_dart_decode_reads(s)[i] == spec_dart_decode_read(s.fields@[i], i as nat),
        spec_wire_field_decl(s.fields@[i]).take(s.fields@[i].name@.len() as int) == s.fields@[
            i
        ].name@,
{
    assert(spec_wire_field_decl(s.fields@[i]).take(s.fields@[i].name@.len() as int) =~= s.fields@[
        i
    ].name@);
}

/// One managed-language output stream: its imports, its part directives,
/// its body. Streams concatenate section by section, so the assembler can
/// merge the prelude, the declarations, the implementation and the wire
/// content into one file, or split them over two, without re-deciding what
/// any stream holds.
pub struct DartBasicCode {
    pub import: String,
    pub part: String,
    pub body: String,
}

impl DartBasicCode {
    /// The empty stream.
    pub fn new() -> (r: DartBasicCode)
        ensures
            r.import@.len() == 0,
            r.part@.len() == 0,
            r.body@.len() == 0,
    {
        DartBasicCode { import: String::new(), part: String::new(), body: String::new() }
    }

    /// Concatenate two streams section by section, in order.
    pub fn concat_with(&self, other: &DartBasicCode) -> (r: DartBasicCode)
        ensures
            r.import@ == self.import@ + other.import@,
            r.part@ == self.part@ + other.part@,
            r.body@ == self.body@ + other.body@,
    {
        DartBasicCode {
            import: self.import.clone().concat(other.import.as_str()),
            part: self.part.clone().concat(other.part.as_str()),
            body: self.body.clone().concat(other.body.as_str()),
        }
    }

    /// The stream as one text: imports, then part directives, then the
    /// body, each section ending with a newline.
    pub fn to_text(&self) -> (r: String)
        ensures
            r@ == self.import@ + "\n"@ + self.part@ + "\n"@ + self.body@,
    {
        let mut out = self.import.clone();
        out.append("\n");
        out.append(self.part.as_str());
        out.append("\n");
        out.append(self.body.as_str());
        out
    }
}

} // verus!
