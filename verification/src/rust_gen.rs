//! The native-side generator: exported boundary functions and, per struct,
//! the wire struct declaration, all derived from the per-type registry. It
//! tracks every exported entry-point name for the later header sanity check.

use vstd::prelude::*;

use crate::ir::{IrField, IrFunc, IrStruct};
use crate::registry::{spec_wire_modifier, spec_wire_type, rust_wire_modifier, rust_wire_type};
use crate::text::{joined, views_of, join_strings};

verus! {

/// Collects the names of every exported boundary function the native
/// generator emits; the output assembler later checks each against the
/// merged binder output.
pub struct ExportFuncCollector {
    pub names: Vec<String>,
}

impl ExportFuncCollector {
    /// An empty collector.
    pub fn new() -> (r: ExportFuncCollector)
        ensures
            r.names@.len() == 0,
    {
        ExportFuncCollector { names: Vec::new() }
    }
}

/// The exported name of a function's boundary entry point.
pub open spec fn spec_wire_func_name(f: IrFunc) -> Seq<char> {
    "wire_"@ + f.name@
}

/// One parameter of the boundary entry point: name, indirection modifier,
/// wire type.
pub open spec fn spec_param_decl(p: IrField) -> Seq<char> {
    p.name@ + ": "@ + spec_wire_modifier(p.ty) + spec_wire_type(p.ty)
}

/// The conversion of one received wire argument to its native value.
pub open spec fn spec_arg_convert(p: IrField) -> Seq<char> {
    p.name@ + ".wire2api()"@
}

/// The boundary entry point of one function. A direct-return function
/// returns the converted result straight from the call; every other
/// function posts it through the transport envelope and returns nothing.
pub open spec fn spec_wire_func(f: IrFunc) -> Seq<char> {
    if f.sync {
        "#[no_mangle]\npub fn wire_"@ + f.name@ + "("@ + joined(
            f.params@.map_values(|p: IrField| spec_param_decl(p)),
            ", "@,
        ) + ") -> support::WireSyncReturnStruct {\n    support::wire_sync_result("@ + f.name@
            + "("@ + joined(f.params@.map_values(|p: IrField| spec_arg_convert(p)), ", "@)
            + "))\n}\n"@
    } else {
        "#[no_mangle]\npub fn wire_"@ + f.name@ + "(port_: i64"@ + (if f.params@.len() > 0 {
            ", "@ + joined(f.params@.map_values(|p: IrField| spec_param_decl(p)), ", "@)
        } else {
            Seq::<char>::empty()
        }) + ") {\n    support::post(port_, "@ + f.name@ + "("@ + joined(
            f.params@.map_values(|p: IrField| spec_arg_convert(p)),
            ", "@,
        ) + "))\n}\n"@
    }
}

/// The wire struct declaration for one struct: its fields in declared
/// order, as the registry's struct entry lists them.
pub open spec fn spec_wire_struct_decl(s: IrStruct) -> Seq<char> {
    "#[repr(C)]\npub struct wire_"@ + s.name@ + " {\n    "@ + joined(
        crate::ty_struct::spec_wire_struct_fields(s),
        ",\n    "@,
    ) + ",\n}\n"@
}

/// Build the parameter declarations of a function, in order.
fn param_decls(f: &IrFunc) -> (r: Vec<String>)
    ensures
        views_of(r@) == f.params@.map_values(|p: IrField| spec_param_decl(p)),
{
    let n = f.params.len();
    let mut frags: Vec<String> = Vec::new();
    let mut i: usize = 0;
    while i < n
        invariant
            n == f.params@.len(),
            i <= n,
            frags@.len() == i,
            forall|k: int| 0 <= k < i ==> frags@[k]@ == spec_param_decl(f.params@[k]),
        decreases n - i,
    {
        let p = &f.params[i];
        let mut piece = p.name.clone();
        piece.append(": ");
        piece.append(rust_wire_modifier(&p.ty));
        piece.append(rust_wire_type(&p.ty).as_str());
        frags.push(piece);
        i = i + 1;
    }
    proof {
        assert(views_of(frags@) =~~= f.params@.map_values(|p: IrField| spec_param_decl(p)));
    }
    frags
}

/// Build the argument conversions of a function, in order.
fn arg_converts(f: &IrFunc) -> (r: Vec<String>)
    ensures
        views_of(r@) == f.params@.map_values(|p: IrField| spec_arg_convert(p)),
{
    let n = f.params.len();
    let mut frags: Vec<String> = Vec::new();
    let mut i: usize = 0;
    while i < n
        invariant
            n == f.params@.len(),
            i <= n,
            frags@.len() == i,
            forall|k: int| 0 <= k < i ==> frags@[k]@ == spec_arg_convert(f.params@[k]),
        decreases n - i,
    {
        let p = &f.params[i];
        let mut piece = p.name.clone();
        piece.append(".wire2api()");
        frags.push(piece);
        i = i + 1;
    }
    proof {
        assert(views_of(frags@) =~~= f.params@.map_values(|p: IrField| spec_arg_convert(p)));
    }
    frags
}

/// Emit the boundary entry point of one function and record its exported
/// name. Direct-return functions return the result expression straight from
/// the call and never go through the transport-post path; every other
/// function posts the result and returns nothing.
pub fn generate_wire_func(f: &IrFunc, collector: &mut ExportFuncCollector) -> (r: String)
    ensures
        r@ == spec_wire_func(*f),
        final(collector).names@.len() == old(collector).names@.len() + 1,
        forall|k: int|
            0 <= k < old(collector).names@.len() ==> final(collector).names@[k] == old(
                collector,
            ).names@[k],
        final(collector).names@.last()@ == spec_wire_func_name(*f),
{
    let mut exported = String::from_str("wire_");
    exported.append(f.name.as_str());
    let decls = param_decls(f);
    let decls_str = join_strings(&decls, ", ");
    let args = arg_converts(f);
    let args_str = join_strings(&args, ", ");
    let mut out = String::from_str("#[no_mangle]\npub fn wire_");
    out.append(f.name.as_str());
    if f.sync {
        out.append("(");
        out.append(decls_str.as_str());
        out.append(") -> support::WireSyncReturnStruct {\n    support::wire_sync_result(");
        out.append(f.name.as_str());
        out.append("(");
        out.append(args_str.as_str());
        out.append("))\n}\n");
    } else {
        out.append("(port_: i64");
        if f.params.len() > 0 {
            out.append(", ");
            out.append(decls_str.as_str());
        }
        out.append(") {\n    support::post(port_, ");
        out.append(f.name.as_str());
        out.append("(");
        out.append(args_str.as_str());
        out.append("))\n}\n");
    }
    collector.names.push(exported);
    out
}

/// Emit the wire struct declaration for one struct.
pub fn generate_wire_struct(
    gen: &crate::ty_struct::TypeStructRefGenerator<'_>,
) -> (r: String)
    requires
        gen.resolved(),
    ensures
        r@ == spec_wire_struct_decl(gen.referenced()),
{
    let fields = match gen.wire_struct_fields() {
        Some(v) => v,
        None => {
            proof {
                assert(false);
            }
            return String::new();
        },
    };
    let body = join_strings(&fields, ",\n    ");
    let mut out = String::from_str("#[repr(C)]\npub struct wire_");
    let name = match gen.ir_file.get_struct(gen.ir.name.as_str()) {
        Some(s) => &s.name,
        None => {
            proof {
                assert(false);
            }
            return String::new();
        },
    };
    out.append(name.as_str());
    out.append(" {\n    ");
    out.append(body.as_str());
    out.append(",\n}\n");
    out
}

/// The native text of one struct: its wire struct, its safe-defaults
/// constructor, its transport serialization.
pub open spec fn spec_struct_section(s: IrStruct) -> Seq<char> {
    spec_wire_struct_decl(s) + crate::ty_struct::spec_new_with_nullptr(s)
        + crate::ty_struct::spec_impl_intodart(s)
}

/// The whole generated native file: every struct's section in emission
/// order, then every function's boundary entry point, each block separated
/// by one newline.
pub open spec fn spec_generate_rust(file: crate::ir::IrFile) -> Seq<char> {
    joined(file.structs@.map_values(|s: IrStruct| spec_struct_section(s)), "
"@) + "
"@ + joined(
        file.funcs@.map_values(|f: IrFunc| spec_wire_func(f)),
        "
"@,
    )
}

/// Generate the whole native side from a canonical file: wire structs,
/// safe-defaults constructors and transport serialization for every
/// declared struct, then one boundary entry point per function, whose
/// exported names the collector records in order.
pub fn generate_rust(file: &crate::ir::IrFile) -> (r: (String, ExportFuncCollector))
    requires
        crate::ir::wf(*file),
    ensures
        r.0@ == spec_generate_rust(*file),
        views_of(r.1.names@) == file.funcs@.map_values(|f: IrFunc| spec_wire_func_name(f)),
{
    let ns = file.structs.len();
    let mut sections: Vec<String> = Vec::new();
    let mut i: usize = 0;
    while i < ns
        invariant
            crate::ir::wf(*file),
            ns == file.structs@.len(),
            i <= ns,
            sections@.len() == i,
            forall|k: int|
                0 <= k < i ==> sections@[k]@ == spec_struct_section(file.structs@[k]),
        decreases ns - i,
    {
        let s = &file.structs[i];
        proof {
            assert(crate::ir::has_struct(*file, file.structs@[i as int].name@));
            let j = choose|j: int|
                0 <= j < file.structs@.len() && file.structs@[j].name@ == s.name@;
            assert(j == i as int);
        }
        let gen = crate::ty_struct::TypeStructRefGenerator {
            ir: crate::ir::IrTypeStructRef { name: s.name.clone() },
            ir_file: file,
        };
        let mut section = generate_wire_struct(&gen);
        let mut unused = ExportFuncCollector::new();
        section.append(gen.new_with_nullptr(&mut unused).as_str());
        section.append(gen.impl_intodart().as_str());
        sections.push(section);
        i = i + 1;
    }
    proof {
        assert(views_of(sections@) =~~= file.structs@.map_values(
            |s: IrStruct| spec_struct_section(s),
        ));
    }
    let structs_text = join_strings(&sections, "
");
    let nf = file.funcs.len();
    let mut collector = ExportFuncCollector::new();
    let mut func_texts: Vec<String> = Vec::new();
    let mut i: usize = 0;
    while i < nf
        invariant
            nf == file.funcs@.len(),
            i <= nf,
            func_texts@.len() == i,
            collector.names@.len() == i,
            forall|k: int| 0 <= k < i ==> func_texts@[k]@ == spec_wire_func(file.funcs@[k]),
            forall|k: int|
                0 <= k < i ==> collector.names@[k]@ == spec_wire_func_name(file.funcs@[k]),
        decreases nf - i,
    {
        let t = generate_wire_func(&file.funcs[i], &mut collector);
        func_texts.push(t);
        i = i + 1;
    }
    proof {
        assert(views_of(func_texts@) =~~= file.funcs@.map_values(|f: IrFunc| spec_wire_func(f)));
        assert(views_of(collector.names@) =~~= file.funcs@.map_values(
            |f: IrFunc| spec_wire_func_name(f),
        ));
    }
    let funcs_text = join_strings(&func_texts, "
");
    let mut code = structs_text;
    code.append("
");
    code.append(funcs_text.as_str());
    (code, collector)
}

/// The full list the header check runs over: the generated exported names,
/// then the fixed support entry points the binder also needs visible.
pub fn effective_func_names(generated: &Vec<String>, extra: &Vec<String>) -> (r: Vec<String>)
    ensures
        r@.len() == generated@.len() + extra@.len(),
        forall|k: int| 0 <= k < generated@.len() ==> r@[k] == generated@[k],
        forall|k: int|
            0 <= k < extra@.len() ==> r@[generated@.len() + k] == extra@[k],
{
    let mut out: Vec<String> = Vec::new();
    let mut i: usize = 0;
    while i < generated.len()
        invariant
            i <= generated@.len(),
            out@.len() == i,
            forall|k: int| 0 <= k < i ==> out@[k] == generated@[k],
        decreases generated@.len() - i,
    {
        out.push(generated[i].clone());
        i = i + 1;
    }
    let mut j: usize = 0;
    while j < extra.len()
        invariant
            j <= extra@.len(),
            out@.len() == generated@.len() + j,
            forall|k: int| 0 <= k < generated@.len() ==> out@[k] == generated@[k],
            forall|k: int| 0 <= k < j ==> out@[generated@.len() + k] == extra@[k],
        decreases extra@.len() - j,
    {
        out.push(extra[j].clone());
        j = j + 1;
    }
    out
}

} // verus!
