//! The per-type generator registry: for each type shape, the wire-level type
//! name, the indirection modifier, the native-API type name, and the safe
//! zero/sentinel constructor expression. Every generator derives a type's
//! representation from here and nowhere else, so the three outputs agree by
//! construction.

use vstd::prelude::*;

use crate::ir::{IrType, IrTypePrimitive, ty_eq};

verus! {

/// The native-side spelling of a scalar kind.
pub open spec fn spec_primitive_rust(p: IrTypePrimitive) -> Seq<char> {
    match p {
        IrTypePrimitive::U8 => "u8"@,
        IrTypePrimitive::I8 => "i8"@,
        IrTypePrimitive::U16 => "u16"@,
        IrTypePrimitive::I16 => "i16"@,
        IrTypePrimitive::U32 => "u32"@,
        IrTypePrimitive::I32 => "i32"@,
        IrTypePrimitive::U64 => "u64"@,
        IrTypePrimitive::I64 => "i64"@,
        IrTypePrimitive::Usize => "usize"@,
        IrTypePrimitive::Bool => "bool"@,
    }
}

/// A flat label for a type shape, usable inside an identifier; gives list
/// wire structs distinct names for distinct element shapes.
pub open spec fn spec_mangled(t: IrType) -> Seq<char>
    decreases t,
{
    match t {
        IrType::Primitive(p) => spec_primitive_rust(p),
        IrType::Delegate(i) => spec_mangled(*i),
        IrType::StructRef(n) => n.name@,
        IrType::EnumRef(n) => n.name@,
        IrType::Boxed(i) => "box_"@ + spec_mangled(*i),
        IrType::Optional(i) => "opt_"@ + spec_mangled(*i),
        IrType::List(e) => "list_"@ + spec_mangled(*e),
        IrType::SyncReturn(i) => spec_mangled(*i),
    }
}

/// Whether the wire form of this shape is an indirection (a raw pointer).
/// Chosen per variant, never per call site.
pub open spec fn spec_wire_is_pointer(t: IrType) -> bool
    decreases t,
{
    match t {
        IrType::Primitive(_) => false,
        IrType::Delegate(i) => spec_wire_is_pointer(*i),
        IrType::StructRef(_) => false,
        IrType::EnumRef(_) => true,
        IrType::Boxed(_) => true,
        IrType::Optional(_) => true,
        IrType::List(_) => true,
        IrType::SyncReturn(i) => spec_wire_is_pointer(*i),
    }
}

/// The ABI-level type name of this shape's wire form.
pub open spec fn spec_wire_type(t: IrType) -> Seq<char>
    decreases t,
{
    match t {
        IrType::Primitive(p) => spec_primitive_rust(p),
        IrType::Delegate(i) => spec_wire_type(*i),
        IrType::StructRef(n) => "wire_"@ + n.name@,
        IrType::EnumRef(n) => "wire_"@ + n.name@,
        IrType::Boxed(i) => spec_wire_type(*i),
        IrType::Optional(i) => spec_wire_type(*i),
        IrType::List(e) => "wire_list_"@ + spec_mangled(*e),
        IrType::SyncReturn(i) => spec_wire_type(*i),
    }
}

/// The indirection modifier written before the wire type name.
pub open spec fn spec_wire_modifier(t: IrType) -> Seq<char> {
    if spec_wire_is_pointer(t) {
        "*mut "@
    } else {
        ""@
    }
}

/// The native-API spelling of this shape, as the user declaration sees it.
pub open spec fn spec_api_type(t: IrType) -> Seq<char>
    decreases t,
{
    match t {
        IrType::Primitive(p) => spec_primitive_rust(p),
        IrType::Delegate(i) => spec_api_type(*i),
        IrType::StructRef(n) => n.name@,
        IrType::EnumRef(n) => n.name@,
        IrType::Boxed(i) => "Box<"@ + spec_api_type(*i) + ">"@,
        IrType::Optional(i) => "Option<"@ + spec_api_type(*i) + ">"@,
        IrType::List(e) => "Vec<"@ + spec_api_type(*e) + ">"@,
        IrType::SyncReturn(i) => "SyncReturn<"@ + spec_api_type(*i) + ">"@,
    }
}

/// The safe default expression for a wire value of this shape: null for
/// indirections, the type's default otherwise. Used to pre-allocate buffers
/// the managed side fills before a native call completes.
pub open spec fn spec_zero_expr(t: IrType) -> Seq<char> {
    if spec_wire_is_pointer(t) {
        "core::ptr::null_mut()"@
    } else {
        "Default::default()"@
    }
}

/// The native-side spelling of a scalar kind.
pub fn primitive_rust(p: &IrTypePrimitive) -> (r: &'static str)
    ensures
        r@ == spec_primitive_rust(*p),
{
    match p {
        IrTypePrimitive::U8 => "u8",
        IrTypePrimitive::I8 => "i8",
        IrTypePrimitive::U16 => "u16",
        IrTypePrimitive::I16 => "i16",
        IrTypePrimitive::U32 => "u32",
        IrTypePrimitive::I32 => "i32",
        IrTypePrimitive::U64 => "u64",
        IrTypePrimitive::I64 => "i64",
        IrTypePrimitive::Usize => "usize",
        IrTypePrimitive::Bool => "bool",
    }
}

/// A flat identifier label for a type shape.
pub fn mangled(t: &IrType) -> (r: String)
    ensures
        r@ == spec_mangled(*t),
    decreases *t,
{
    match t {
        IrType::Primitive(p) => String::from_str(primitive_rust(p)),
        IrType::Delegate(i) => mangled(i),
        IrType::StructRef(n) => n.name.clone(),
        IrType::EnumRef(n) => n.name.clone(),
        IrType::Boxed(i) => String::from_str("box_").concat(mangled(i).as_str()),
        IrType::Optional(i) => String::from_str("opt_").concat(mangled(i).as_str()),
        IrType::List(e) => String::from_str("list_").concat(mangled(e).as_str()),
        IrType::SyncReturn(i) => mangled(i),
    }
}

/// Whether the wire form of this shape is a raw pointer.
pub fn rust_wire_is_pointer(t: &IrType) -> (r: bool)
    ensures
        r == spec_wire_is_pointer(*t),
    decreases *t,
{
    match t {
        IrType::Primitive(_) => false,
        IrType::Delegate(i) => rust_wire_is_pointer(i),
        IrType::StructRef(_) => false,
        IrType::EnumRef(_) => true,
        IrType::Boxed(_) => true,
        IrType::Optional(_) => true,
        IrType::List(_) => true,
        IrType::SyncReturn(i) => rust_wire_is_pointer(i),
    }
}

/// The ABI-level type name of this shape's wire form.
pub fn rust_wire_type(t: &IrType) -> (r: String)
    ensures
        r@ == spec_wire_type(*t),
    decreases *t,
{
    match t {
        IrType::Primitive(p) => String::from_str(primitive_rust(p)),
        IrType::Delegate(i) => rust_wire_type(i),
        IrType::StructRef(n) => String::from_str("wire_").concat(n.name.as_str()),
        IrType::EnumRef(n) => String::from_str("wire_").concat(n.name.as_str()),
        IrType::Boxed(i) => rust_wire_type(i),
        IrType::Optional(i) => rust_wire_type(i),
        IrType::List(e) => String::from_str("wire_list_").concat(mangled(e).as_str()),
        IrType::SyncReturn(i) => rust_wire_type(i),
    }
}

/// The indirection modifier written before the wire type name.
pub fn rust_wire_modifier(t: &IrType) -> (r: &'static str)
    ensures
        r@ == spec_wire_modifier(*t),
{
    if rust_wire_is_pointer(t) {
        "*mut "
    } else {
        ""
    }
}

/// The native-API spelling of this shape.
pub fn rust_api_type(t: &IrType) -> (r: String)
    ensures
        r@ == spec_api_type(*t),
    decreases *t,
{
    match t {
        IrType::Primitive(p) => String::from_str(primitive_rust(p)),
        IrType::Delegate(i) => rust_api_type(i),
        IrType::StructRef(n) => n.name.clone(),
        IrType::EnumRef(n) => n.name.clone(),
        IrType::Boxed(i) => String::from_str("Box<").concat(rust_api_type(i).as_str()).concat(">"),
        IrType::Optional(i) => String::from_str("Option<").concat(rust_api_type(i).as_str()).concat(
            ">",
        ),
        IrType::List(e) => String::from_str("Vec<").concat(rust_api_type(e).as_str()).concat(">"),
        IrType::SyncReturn(i) => String::from_str("SyncReturn<").concat(
            rust_api_type(i).as_str(),
        ).concat(">"),
    }
}

/// The safe default expression for a wire value of this shape.
pub fn zero_expr(t: &IrType) -> (r: &'static str)
    ensures
        r@ == spec_zero_expr(*t),
{
    if rust_wire_is_pointer(t) {
        "core::ptr::null_mut()"
    } else {
        "Default::default()"
    }
}

/// The registry's outputs are pure functions of the structural description:
/// two structurally equal shapes get identical wire type, modifier, API type
/// and zero expression, however the equal shapes were spelled, aliased or
/// allocated.
pub proof fn lemma_registry_structural(a: IrType, b: IrType)
    requires
        ty_eq(a, b),
    ensures
        spec_wire_type(a) == spec_wire_type(b),
        spec_wire_is_pointer(a) == spec_wire_is_pointer(b),
        spec_wire_modifier(a) == spec_wire_modifier(b),
        spec_api_type(a) == spec_api_type(b),
        spec_zero_expr(a) == spec_zero_expr(b),
        spec_mangled(a) == spec_mangled(b),
    decreases a, b,
{
    match a {
        IrType::Delegate(x) => lemma_registry_structural(*x, b),
        _ => match b {
            IrType::Delegate(y) => lemma_registry_structural(a, *y),
            _ => match (a, b) {
                (IrType::Boxed(x), IrType::Boxed(y)) => lemma_registry_structural(*x, *y),
                (IrType::Optional(x), IrType::Optional(y)) => lemma_registry_structural(*x, *y),
                (IrType::List(x), IrType::List(y)) => lemma_registry_structural(*x, *y),
                (IrType::SyncReturn(x), IrType::SyncReturn(y)) => lemma_registry_structural(
                    *x,
                    *y,
                ),
                _ => {},
            },
        },
    }
}

} // verus!
