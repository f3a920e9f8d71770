//! The registry entry for struct references: the wire struct's field
//! declarations, the wire-to-native conversion body, the transport
//! serialization impl, the safe-defaults constructor, and the import the
//! generated code needs. Every piece iterates the declared fields in their
//! declared order.

use vstd::prelude::*;

use crate::ir::{IrField, IrFile, IrStruct, IrTypeStructRef, has_struct, struct_named, wf};
use crate::registry::{spec_wire_modifier, spec_wire_type, spec_zero_expr, rust_wire_modifier,
    rust_wire_type, zero_expr};
use crate::rust_gen::ExportFuncCollector;
use crate::text::{joined, views_of, join_strings};

verus! {

/// The opening bracket of this struct's construction expression.
pub open spec fn spec_left_bracket(s: IrStruct) -> Seq<char> {
    if s.is_fields_named {
        "{"@
    } else {
        "("@
    }
}

/// The closing bracket of this struct's construction expression.
pub open spec fn spec_right_bracket(s: IrStruct) -> Seq<char> {
    if s.is_fields_named {
        "}"@
    } else {
        ")"@
    }
}

/// One field's part of the wire-to-native conversion: a field label when the
/// struct is built with named fields, none when positional, then the
/// conversion of the received wire field.
pub open spec fn spec_wire2api_field(f: IrField, named: bool) -> Seq<char> {
    (if named {
        f.name@ + ": "@
    } else {
        Seq::<char>::empty()
    }) + "self."@ + f.name@ + ".wire2api()"@
}

/// The whole wire-to-native conversion body: construct the native struct,
/// converting every field, in declared field order.
pub open spec fn spec_wire2api_body(s: IrStruct) -> Seq<char> {
    s.name@ + spec_left_bracket(s) + joined(
        s.fields@.map_values(|f: IrField| spec_wire2api_field(f, s.is_fields_named)),
        ","@,
    ) + spec_right_bracket(s)
}

/// One wire struct field declaration: name, indirection modifier, wire type.
pub open spec fn spec_wire_field_decl(f: IrField) -> Seq<char> {
    f.name@ + ": "@ + spec_wire_modifier(f.ty) + spec_wire_type(f.ty)
}

/// The wire struct's field declarations, in declared field order.
pub open spec fn spec_wire_struct_fields(s: IrStruct) -> Seq<Seq<char>> {
    s.fields@.map_values(|f: IrField| spec_wire_field_decl(f))
}

/// One field's part of the transport serialization, in declared order.
pub open spec fn spec_intodart_field(f: IrField) -> Seq<char> {
    "self."@ + f.name@ + ".into_dart()"@
}

/// The transport-serialization impl for this struct: every field serialized
/// into the envelope, in declared field order.
pub open spec fn spec_impl_intodart(s: IrStruct) -> Seq<char> {
    "impl support::IntoDart for "@ + s.name@
        + " {\n    fn into_dart(self) -> support::DartCObject {\n        vec![\n"@ + joined(
        s.fields@.map_values(|f: IrField| spec_intodart_field(f)),
        ",\n"@,
    ) + "\n        ].into_dart()\n    }\n}\nimpl support::IntoDartExceptPrimitive for "@ + s.name@
        + " {}\n"@
}

/// One field of the safe-defaults constructor: null for indirections, the
/// default value otherwise.
pub open spec fn spec_nullptr_field(f: IrField) -> Seq<char> {
    f.name@ + ": "@ + spec_zero_expr(f.ty) + ","@
}

/// The safe-defaults constructor impl for this struct's wire form.
pub open spec fn spec_new_with_nullptr(s: IrStruct) -> Seq<char> {
    "impl NewWithNullPtr for wire_"@ + s.name@
        + " {\n    fn new_with_null_ptr() -> Self {\n        Self {\n"@ + joined(
        s.fields@.map_values(|f: IrField| spec_nullptr_field(f)),
        "\n"@,
    ) + "\n        }\n    }\n}\n"@
}

/// The import the generated code needs to see this struct's definition.
pub open spec fn spec_import(s: IrStruct) -> Seq<char>
    recommends
        s.path is Some,
{
    "use "@ + joined(views_of(s.path->Some_0@), "::"@) + ";"@
}

/// The registry entry for one struct reference, read against the file the
/// reference was declared in.
pub struct TypeStructRefGenerator<'a> {
    pub ir: IrTypeStructRef,
    pub ir_file: &'a IrFile,
}

impl<'a> TypeStructRefGenerator<'a> {
    /// The referenced declaration. The reference was resolved by the
    /// transformer, so it is present and, names being unique, unambiguous.
    pub open spec fn referenced(&self) -> IrStruct {
        struct_named(*self.ir_file, self.ir.name@)
    }

    /// Whether this entry may be read: the file is well formed and the
    /// reference resolves.
    pub open spec fn resolved(&self) -> bool {
        wf(*self.ir_file) && has_struct(*self.ir_file, self.ir.name@)
    }

    /// The wire-to-native conversion body: build the native struct by
    /// converting each wire field, in declared field order.
    pub fn wire2api_body(&self) -> (r: Option<String>)
        requires
            self.resolved(),
        ensures
            r matches Some(b) && b@ == spec_wire2api_body(self.referenced()),
    {
        let api_struct = match self.ir_file.get_struct(self.ir.name.as_str()) {
            Some(s) => s,
            None => {
                proof {
                    assert(false);
                }
                return None;
            },
        };
        let named = api_struct.is_fields_named;
        let n = api_struct.fields.len();
        let mut frags: Vec<String> = Vec::new();
        let mut i: usize = 0;
        while i < n
            invariant
                n == api_struct.fields@.len(),
                i <= n,
                frags@.len() == i,
                named == api_struct.is_fields_named,
                forall|k: int|
                    0 <= k < i ==> frags@[k]@ == spec_wire2api_field(
                        api_struct.fields@[k],
                        named,
                    ),
            decreases n - i,
        {
            let f = &api_struct.fields[i];
            let mut piece = if named {
                f.name.clone().concat(": ")
            } else {
                String::new()
            };
            piece.append("self.");
            piece.append(f.name.as_str());
            piece.append(".wire2api()");
            frags.push(piece);
            i = i + 1;
        }
        proof {
            assert(views_of(frags@) =~~= api_struct.fields@.map_values(
                |f: IrField| spec_wire2api_field(f, named),
            ));
        }
        let fields_str = join_strings(&frags, ",");
        let mut body = api_struct.name.clone();
        body.append(if named {
            "{"
        } else {
            "("
        });
        body.append(fields_str.as_str());
        body.append(if named {
            "}"
        } else {
            ")"
        });
        Some(body)
    }

    /// The wire struct's field declarations: name, indirection modifier and
    /// wire type per field, in declared field order.
    pub fn wire_struct_fields(&self) -> (r: Option<Vec<String>>)
        requires
            self.resolved(),
        ensures
            r matches Some(v) && views_of(v@) == spec_wire_struct_fields(self.referenced()),
    {
        let s = match self.ir_file.get_struct(self.ir.name.as_str()) {
            Some(s) => s,
            None => {
                proof {
                    assert(false);
                }
                return None;
            },
        };
        let n = s.fields.len();
        let mut frags: Vec<String> = Vec::new();
        let mut i: usize = 0;
        while i < n
            invariant
                n == s.fields@.len(),
                i <= n,
                frags@.len() == i,
                forall|k: int| 0 <= k < i ==> frags@[k]@ == spec_wire_field_decl(s.fields@[k]),
            decreases n - i,
        {
            let f = &s.fields[i];
            let mut piece = f.name.clone();
            piece.append(": ");
            piece.append(rust_wire_modifier(&f.ty));
            piece.append(rust_wire_type(&f.ty).as_str());
            frags.push(piece);
            i = i + 1;
        }
        proof {
            assert(views_of(frags@) =~~= spec_wire_struct_fields(*s));
        }
        Some(frags)
    }

    /// The transport-serialization impl: each field enters the envelope in
    /// declared field order.
    pub fn impl_intodart(&self) -> (r: String)
        requires
            self.resolved(),
        ensures
            r@ == spec_impl_intodart(self.referenced()),
    {
        let src = match self.ir_file.get_struct(self.ir.name.as_str()) {
            Some(s) => s,
            None => {
                proof {
                    assert(false);
                }
                return String::new();
            },
        };
        let n = src.fields.len();
        let mut frags: Vec<String> = Vec::new();
        let mut i: usize = 0;
        while i < n
            invariant
                n == src.fields@.len(),
                i <= n,
                frags@.len() == i,
                forall|k: int| 0 <= k < i ==> frags@[k]@ == spec_intodart_field(src.fields@[k]),
            decreases n - i,
        {
            let f = &src.fields[i];
            let mut piece = String::from_str("self.");
            piece.append(f.name.as_str());
            piece.append(".into_dart()");
            frags.push(piece);
            i = i + 1;
        }
        proof {
            assert(views_of(frags@) =~~= src.fields@.map_values(|f: IrField| spec_intodart_field(f)));
        }
        let body = join_strings(&frags, ",\n");
        let mut out = String::from_str("impl support::IntoDart for ");
        out.append(src.name.as_str());
        out.append(" {\n    fn into_dart(self) -> support::DartCObject {\n        vec![\n");
        out.append(body.as_str());
        out.append("\n        ].into_dart()\n    }\n}\nimpl support::IntoDartExceptPrimitive for ");
        out.append(src.name.as_str());
        out.append(" {}\n");
        out
    }

    /// The safe-defaults constructor for the wire struct: null for every
    /// indirection field, the default value otherwise. Leaves the collector
    /// unchanged: this impl exports no entry point.
    pub fn new_with_nullptr(&self, collector: &mut ExportFuncCollector) -> (r: String)
        requires
            self.resolved(),
        ensures
            r@ == spec_new_with_nullptr(self.referenced()),
            final(collector).names@ == old(collector).names@,
    {
        let src = match self.ir_file.get_struct(self.ir.name.as_str()) {
            Some(s) => s,
            None => {
                proof {
                    assert(false);
                }
                return String::new();
            },
        };
        let n = src.fields.len();
        let mut frags: Vec<String> = Vec::new();
        let mut i: usize = 0;
        while i < n
            invariant
                n == src.fields@.len(),
                i <= n,
                frags@.len() == i,
                forall|k: int| 0 <= k < i ==> frags@[k]@ == spec_nullptr_field(src.fields@[k]),
            decreases n - i,
        {
            let f = &src.fields[i];
            let mut piece = f.name.clone();
            piece.append(": ");
            piece.append(zero_expr(&f.ty));
            piece.append(",");
            frags.push(piece);
            i = i + 1;
        }
        proof {
            assert(views_of(frags@) =~~= src.fields@.map_values(|f: IrField| spec_nullptr_field(f)));
        }
        let body = join_strings(&frags, "\n");
        let mut out = String::from_str("impl NewWithNullPtr for wire_");
        out.append(src.name.as_str());
        out.append(" {\n    fn new_with_null_ptr() -> Self {\n        Self {\n");
        out.append(body.as_str());
        out.append("\n        }\n    }\n}\n");
        out
    }

    /// The import that generated code referencing this struct needs, when
    /// the declaration lives in a source module.
    pub fn imports(&self) -> (r: Option<String>)
        requires
            self.resolved(),
        ensures
            match self.referenced().path {
                Some(_) => r matches Some(t) && t@ == spec_import(self.referenced()),
                None => r is None,
            },
    {
        let api_struct = match self.ir_file.get_struct(self.ir.name.as_str()) {
            Some(s) => s,
            None => {
                proof {
                    assert(false);
                }
                return None;
            },
        };
        match &api_struct.path {
            Some(path) => {
                let joined_path = join_strings(path, "::");
                let mut out = String::from_str("use ");
                out.append(joined_path.as_str());
                out.append(";");
                Some(out)
            },
            None => None,
        }
    }
}

} // verus!
