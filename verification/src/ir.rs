//! The typed intermediate representation shared by every generator: a closed
//! set of type shapes, function signatures, and aggregate declarations.
//! Equality of types for deduplication purposes is structural, never nominal.

use vstd::prelude::*;

verus! {

/// The scalar kinds that cross the boundary by value.
#[derive(Clone, Copy, PartialEq, Eq, Structural, Debug)]
pub enum IrTypePrimitive {
    U8,
    I8,
    U16,
    I16,
    U32,
    I32,
    U64,
    I64,
    Usize,
    Bool,
}

/// A reference to a declared struct, by name.
#[derive(Debug, PartialEq)]
pub struct IrTypeStructRef {
    pub name: String,
}

/// A reference to a declared enum, by name.
#[derive(Debug, PartialEq)]
pub struct IrTypeEnumRef {
    pub name: String,
}

/// The closed set of type shapes the generator supports. Each variant's wire
/// representation is a pure function of its shape alone, never of call-site
/// context.
#[derive(Debug, PartialEq)]
pub enum IrType {
    /// A bare scalar.
    Primitive(IrTypePrimitive),
    /// A transparent alias: represented exactly as the type it delegates to.
    Delegate(Box<IrType>),
    /// A declared struct, by name.
    StructRef(IrTypeStructRef),
    /// A declared enum, by name.
    EnumRef(IrTypeEnumRef),
    /// A pointer to a heap-boxed value.
    Boxed(Box<IrType>),
    /// Pointer with a null sentinel for the absent case.
    Optional(Box<IrType>),
    /// Pointer plus length pair.
    List(Box<IrType>),
    /// A return value delivered directly from the call instead of through the
    /// transport envelope.
    SyncReturn(Box<IrType>),
}

/// A named, typed field; declared order is semantically significant. For a
/// positional (tuple) struct the builder stores the decimal position as the
/// name, so that `self.0` and `Self { 0: .. }` come out of the same text.
pub struct IrField {
    pub name: String,
    pub ty: IrType,
}

/// A declared struct: name, ordered fields, whether construction uses named
/// fields, and an optional source-module path for import emission.
pub struct IrStruct {
    pub name: String,
    pub fields: Vec<IrField>,
    pub is_fields_named: bool,
    pub path: Option<Vec<String>>,
}

/// One variant of a declared enum, with an optional payload.
pub struct IrVariant {
    pub name: String,
    pub fields: Vec<IrField>,
}

/// A declared enum: name and ordered variants.
pub struct IrEnum {
    pub name: String,
    pub variants: Vec<IrVariant>,
}

/// A function of the public surface: name, ordered parameters, return type,
/// and whether the result returns directly (`sync`) or is posted through the
/// transport envelope.
pub struct IrFunc {
    pub name: String,
    pub params: Vec<IrField>,
    pub output: IrType,
    pub sync: bool,
}

/// The canonical unit of work: every declaration extracted from one source
/// snapshot. Built once, canonicalized once, then read-only.
pub struct IrFile {
    pub funcs: Vec<IrFunc>,
    pub structs: Vec<IrStruct>,
    pub enums: Vec<IrEnum>,
}

/// Structural equality of two type shapes: the transparent alias is
/// invisible on either side, and otherwise the same variant, equal names by
/// text, equal inner shapes. This is the equality the distinct-types set is
/// deduplicated by: structural, never nominal.
pub open spec fn ty_eq(a: IrType, b: IrType) -> bool
    decreases a, b,
{
    match a {
        IrType::Delegate(x) => ty_eq(*x, b),
        _ => match b {
            IrType::Delegate(y) => ty_eq(a, *y),
            _ => match (a, b) {
                (IrType::Primitive(p), IrType::Primitive(q)) => p == q,
                (IrType::StructRef(n), IrType::StructRef(m)) => n.name@ == m.name@,
                (IrType::EnumRef(n), IrType::EnumRef(m)) => n.name@ == m.name@,
                (IrType::Boxed(x), IrType::Boxed(y)) => ty_eq(*x, *y),
                (IrType::Optional(x), IrType::Optional(y)) => ty_eq(*x, *y),
                (IrType::List(x), IrType::List(y)) => ty_eq(*x, *y),
                (IrType::SyncReturn(x), IrType::SyncReturn(y)) => ty_eq(*x, *y),
                _ => false,
            },
        },
    }
}

/// Decide structural equality of two type shapes.
pub fn ir_type_eq(a: &IrType, b: &IrType) -> (r: bool)
    ensures
        r == ty_eq(*a, *b),
    decreases *a, *b,
{
    match a {
        IrType::Delegate(x) => ir_type_eq(x, b),
        _ => match b {
            IrType::Delegate(y) => ir_type_eq(a, y),
            _ => match (a, b) {
                (IrType::Primitive(p), IrType::Primitive(q)) => p == q,
                (IrType::StructRef(n), IrType::StructRef(m)) => crate::text::str_eq(
                    n.name.as_str(),
                    m.name.as_str(),
                ),
                (IrType::EnumRef(n), IrType::EnumRef(m)) => crate::text::str_eq(
                    n.name.as_str(),
                    m.name.as_str(),
                ),
                (IrType::Boxed(x), IrType::Boxed(y)) => ir_type_eq(x, y),
                (IrType::Optional(x), IrType::Optional(y)) => ir_type_eq(x, y),
                (IrType::List(x), IrType::List(y)) => ir_type_eq(x, y),
                (IrType::SyncReturn(x), IrType::SyncReturn(y)) => ir_type_eq(x, y),
                _ => false,
            },
        },
    }
}

/// Wrapping the right side in the transparent alias changes nothing.
pub proof fn lemma_ty_eq_delegate_right(a: IrType, b: IrType)
    requires
        ty_eq(a, b),
    ensures
        ty_eq(a, IrType::Delegate(Box::new(b))),
    decreases a,
{
    match a {
        IrType::Delegate(x) => lemma_ty_eq_delegate_right(*x, b),
        _ => {},
    }
}

/// `ty_eq` is reflexive.
pub proof fn lemma_ty_eq_refl(a: IrType)
    ensures
        ty_eq(a, a),
    decreases a,
{
    match a {
        IrType::Delegate(x) => {
            lemma_ty_eq_refl(*x);
            lemma_ty_eq_delegate_right(*x, *x);
        },
        IrType::Boxed(x) => lemma_ty_eq_refl(*x),
        IrType::Optional(x) => lemma_ty_eq_refl(*x),
        IrType::List(x) => lemma_ty_eq_refl(*x),
        IrType::SyncReturn(x) => lemma_ty_eq_refl(*x),
        _ => {},
    }
}

/// `ty_eq` is transitive.
pub proof fn lemma_ty_eq_trans(a: IrType, b: IrType, c: IrType)
    requires
        ty_eq(a, b),
        ty_eq(b, c),
    ensures
        ty_eq(a, c),
    decreases a, b, c,
{
    match a {
        IrType::Delegate(x) => lemma_ty_eq_trans(*x, b, c),
        _ => match b {
            IrType::Delegate(y) => lemma_ty_eq_trans(a, *y, c),
            _ => match c {
                IrType::Delegate(z) => lemma_ty_eq_trans(a, b, *z),
                _ => match (a, b, c) {
                    (IrType::Boxed(x), IrType::Boxed(y), IrType::Boxed(z)) => lemma_ty_eq_trans(
                        *x,
                        *y,
                        *z,
                    ),
                    (
                        IrType::Optional(x),
                        IrType::Optional(y),
                        IrType::Optional(z),
                    ) => lemma_ty_eq_trans(*x, *y, *z),
                    (IrType::List(x), IrType::List(y), IrType::List(z)) => lemma_ty_eq_trans(
                        *x,
                        *y,
                        *z,
                    ),
                    (
                        IrType::SyncReturn(x),
                        IrType::SyncReturn(y),
                        IrType::SyncReturn(z),
                    ) => lemma_ty_eq_trans(*x, *y, *z),
                    _ => {},
                },
            },
        },
    }
}

/// Some declared struct carries this name.
pub open spec fn has_struct(file: IrFile, n: Seq<char>) -> bool {
    exists|i: int| 0 <= i < file.structs@.len() && file.structs@[i].name@ == n
}

/// Some declared enum carries this name.
pub open spec fn has_enum(file: IrFile, n: Seq<char>) -> bool {
    exists|i: int| 0 <= i < file.enums@.len() && file.enums@[i].name@ == n
}

/// The declared struct with this name; meaningful only under `wf`, which
/// makes it unique.
pub open spec fn struct_named(file: IrFile, n: Seq<char>) -> IrStruct {
    file.structs@[choose|i: int| 0 <= i < file.structs@.len() && file.structs@[i].name@ == n]
}

/// Well-formedness of the unit of work: type names are unique per file.
pub open spec fn wf(file: IrFile) -> bool {
    &&& forall|i: int, j: int|
        0 <= i < j < file.structs@.len() ==> file.structs@[i].name@ != file.structs@[j].name@
    &&& forall|i: int, j: int|
        0 <= i < j < file.enums@.len() ==> file.enums@[i].name@ != file.enums@[j].name@
    &&& forall|i: int, j: int|
        0 <= i < j < file.funcs@.len() ==> file.funcs@[i].name@ != file.funcs@[j].name@
}

/// Decide well-formedness: no two declarations of one kind share a name.
pub fn check_wf(file: &IrFile) -> (r: bool)
    ensures
        r == wf(*file),
{
    let ns = file.structs.len();
    let mut i: usize = 0;
    while i < ns
        invariant
            ns == file.structs@.len(),
            i <= ns,
            forall|a: int, b: int|
                0 <= a < b < ns && a < i ==> file.structs@[a].name@ != file.structs@[b].name@,
        decreases ns - i,
    {
        let mut j: usize = i + 1;
        while j < ns
            invariant
                ns == file.structs@.len(),
                i < ns,
                i < j <= ns,
                forall|b: int| i < b < j ==> file.structs@[i as int].name@ != file.structs@[b].name@,
            decreases ns - j,
        {
            if crate::text::str_eq(file.structs[i].name.as_str(), file.structs[j].name.as_str()) {
                return false;
            }
            j = j + 1;
        }
        i = i + 1;
    }
    let ne = file.enums.len();
    let mut i: usize = 0;
    while i < ne
        invariant
            ne == file.enums@.len(),
            i <= ne,
            ns == file.structs@.len(),
            forall|a: int, b: int|
                0 <= a < b < ns ==> file.structs@[a].name@ != file.structs@[b].name@,
            forall|a: int, b: int|
                0 <= a < b < ne && a < i ==> file.enums@[a].name@ != file.enums@[b].name@,
        decreases ne - i,
    {
        let mut j: usize = i + 1;
        while j < ne
            invariant
                ne == file.enums@.len(),
                i < ne,
                i < j <= ne,
                forall|b: int| i < b < j ==> file.enums@[i as int].name@ != file.enums@[b].name@,
            decreases ne - j,
        {
            if crate::text::str_eq(file.enums[i].name.as_str(), file.enums[j].name.as_str()) {
                return false;
            }
            j = j + 1;
        }
        i = i + 1;
    }
    let nf = file.funcs.len();
    let mut i: usize = 0;
    while i < nf
        invariant
            nf == file.funcs@.len(),
            i <= nf,
            ns == file.structs@.len(),
            ne == file.enums@.len(),
            forall|a: int, b: int|
                0 <= a < b < ns ==> file.structs@[a].name@ != file.structs@[b].name@,
            forall|a: int, b: int|
                0 <= a < b < ne ==> file.enums@[a].name@ != file.enums@[b].name@,
            forall|a: int, b: int|
                0 <= a < b < nf && a < i ==> file.funcs@[a].name@ != file.funcs@[b].name@,
        decreases nf - i,
    {
        let mut j: usize = i + 1;
        while j < nf
            invariant
                nf == file.funcs@.len(),
                i < nf,
                i < j <= nf,
                forall|b: int| i < b < j ==> file.funcs@[i as int].name@ != file.funcs@[b].name@,
            decreases nf - j,
        {
            if crate::text::str_eq(file.funcs[i].name.as_str(), file.funcs[j].name.as_str()) {
                return false;
            }
            j = j + 1;
        }
        i = i + 1;
    }
    true
}

/// Assemble the unit of work from extracted declarations, enforcing the
/// file invariant: no two declarations of one kind share a name. A
/// duplicate is an unsupported input and fatal, as every downstream
/// generator assumes a complete, internally consistent file.
pub fn build_ir_file(funcs: Vec<IrFunc>, structs: Vec<IrStruct>, enums: Vec<IrEnum>) -> (r: Result<
    IrFile,
    crate::errors::GenError,
>)
    ensures
        r matches Ok(out) ==> out.funcs == funcs && out.structs == structs && out.enums == enums
            && wf(out),
        r is Err <==> !wf(IrFile { funcs, structs, enums }),
        r matches Err(e) ==> e matches crate::errors::GenError::Parse(m) && m@
            == "duplicate declaration name"@,
{
    let file = IrFile { funcs, structs, enums };
    if check_wf(&file) {
        Ok(file)
    } else {
        Err(crate::errors::GenError::Parse(String::from_str("duplicate declaration name")))
    }
}

/// The scalar kind a type name spells, if any.
pub open spec fn spec_primitive_of_name(n: Seq<char>) -> Option<IrTypePrimitive> {
    if n == "u8"@ {
        Some(IrTypePrimitive::U8)
    } else if n == "i8"@ {
        Some(IrTypePrimitive::I8)
    } else if n == "u16"@ {
        Some(IrTypePrimitive::U16)
    } else if n == "i16"@ {
        Some(IrTypePrimitive::I16)
    } else if n == "u32"@ {
        Some(IrTypePrimitive::U32)
    } else if n == "i32"@ {
        Some(IrTypePrimitive::I32)
    } else if n == "u64"@ {
        Some(IrTypePrimitive::U64)
    } else if n == "i64"@ {
        Some(IrTypePrimitive::I64)
    } else if n == "usize"@ {
        Some(IrTypePrimitive::Usize)
    } else if n == "bool"@ {
        Some(IrTypePrimitive::Bool)
    } else {
        Option::None
    }
}

/// The type names that wrap one inner shape.
pub open spec fn spec_is_wrapper_name(n: Seq<char>) -> bool {
    n == "Box"@ || n == "Option"@ || n == "Vec"@ || n == "SyncReturn"@
}

/// Classify one type name, with its already-classified single argument when
/// it has one, into the shape it denotes: a scalar name is that scalar; the
/// four wrapper names demand an inner shape and wrap it; every other name
/// refers to a declared struct. A wrapper without its argument is an
/// unsupported declaration and fatal.
pub fn classify_type(name: String, inner: Option<IrType>) -> (r: Result<
    IrType,
    crate::errors::GenError,
>)
    ensures
        spec_primitive_of_name(name@) is Some ==> r is Ok && r->Ok_0 == IrType::Primitive(
            spec_primitive_of_name(name@)->Some_0,
        ),
        spec_primitive_of_name(name@) is None && spec_is_wrapper_name(name@) && inner is None
            ==> r is Err && r->Err_0 is Parse,
        spec_primitive_of_name(name@) is None && name@ == "Box"@ && inner is Some ==> r is Ok
            && r->Ok_0 is Boxed && *r->Ok_0->Boxed_0 == inner->Some_0,
        spec_primitive_of_name(name@) is None && name@ == "Option"@ && inner is Some ==> r is Ok
            && r->Ok_0 is Optional && *r->Ok_0->Optional_0 == inner->Some_0,
        spec_primitive_of_name(name@) is None && name@ == "Vec"@ && inner is Some ==> r is Ok
            && r->Ok_0 is List && *r->Ok_0->List_0 == inner->Some_0,
        spec_primitive_of_name(name@) is None && name@ == "SyncReturn"@ && inner is Some ==> r
            is Ok && r->Ok_0 is SyncReturn && *r->Ok_0->SyncReturn_0 == inner->Some_0,
        spec_primitive_of_name(name@) is None && !spec_is_wrapper_name(name@) ==> r is Ok
            && r->Ok_0 is StructRef && r->Ok_0->StructRef_0.name@ == name@,
{
    let prim = if crate::text::str_eq(name.as_str(), "u8") {
        Some(IrTypePrimitive::U8)
    } else if crate::text::str_eq(name.as_str(), "i8") {
        Some(IrTypePrimitive::I8)
    } else if crate::text::str_eq(name.as_str(), "u16") {
        Some(IrTypePrimitive::U16)
    } else if crate::text::str_eq(name.as_str(), "i16") {
        Some(IrTypePrimitive::I16)
    } else if crate::text::str_eq(name.as_str(), "u32") {
        Some(IrTypePrimitive::U32)
    } else if crate::text::str_eq(name.as_str(), "i32") {
        Some(IrTypePrimitive::I32)
    } else if crate::text::str_eq(name.as_str(), "u64") {
        Some(IrTypePrimitive::U64)
    } else if crate::text::str_eq(name.as_str(), "i64") {
        Some(IrTypePrimitive::I64)
    } else if crate::text::str_eq(name.as_str(), "usize") {
        Some(IrTypePrimitive::Usize)
    } else if crate::text::str_eq(name.as_str(), "bool") {
        Some(IrTypePrimitive::Bool)
    } else {
        None
    };
    match prim {
        Some(p) => Ok(IrType::Primitive(p)),
        None => {
            proof {
                reveal_strlit("Box");
                reveal_strlit("Option");
                reveal_strlit("Vec");
                reveal_strlit("SyncReturn");
                assert("Box"@.len() == 3 && "Option"@.len() == 6 && "Vec"@.len() == 3
                    && "SyncReturn"@.len() == 10);
                assert("Box"@[0] == 'B' && "Vec"@[0] == 'V');
                assert("Box"@ != "Vec"@);
            }
            let is_box = crate::text::str_eq(name.as_str(), "Box");
            let is_option = crate::text::str_eq(name.as_str(), "Option");
            let is_vec = crate::text::str_eq(name.as_str(), "Vec");
            let is_sync = crate::text::str_eq(name.as_str(), "SyncReturn");
            if is_box || is_option || is_vec || is_sync {
                match inner {
                    Some(i) => {
                        if is_box {
                            Ok(IrType::Boxed(Box::new(i)))
                        } else if is_option {
                            Ok(IrType::Optional(Box::new(i)))
                        } else if is_vec {
                            Ok(IrType::List(Box::new(i)))
                        } else {
                            Ok(IrType::SyncReturn(Box::new(i)))
                        }
                    },
                    None => Err(
                        crate::errors::GenError::Parse(
                            String::from_str("wrapper type without an argument"),
                        ),
                    ),
                }
            } else {
                Ok(IrType::StructRef(IrTypeStructRef { name }))
            }
        },
    }
}

/// Whether a function with this return shape returns directly from the
/// call instead of posting through the transport envelope.
pub fn is_direct_return(t: &IrType) -> (r: bool)
    ensures
        r == (*t is SyncReturn),
{
    match t {
        IrType::SyncReturn(_) => true,
        _ => false,
    }
}

impl IrFile {
    /// Look the named struct up, in declaration order.
    pub fn get_struct(&self, name: &str) -> (r: Option<&IrStruct>)
        ensures
            match r {
                Some(s) => has_struct(*self, name@) && s.name@ == name@ && (wf(*self) ==> *s
                    == struct_named(*self, name@)),
                None => !has_struct(*self, name@),
            },
    {
        let n = self.structs.len();
        let mut i: usize = 0;
        while i < n
            invariant
                n == self.structs@.len(),
                i <= n,
                forall|k: int| 0 <= k < i ==> self.structs@[k].name@ != name@,
            decreases n - i,
        {
            if crate::text::str_eq(self.structs[i].name.as_str(), name) {
                let s = &self.structs[i];
                proof {
                    if wf(*self) {
                        let j = choose|j: int|
                            0 <= j < self.structs@.len() && self.structs@[j].name@ == name@;
                        assert(j == i as int);
                    }
                }
                return Some(s);
            }
            i = i + 1;
        }
        None
    }

    /// Look the named enum up, in declaration order.
    pub fn get_enum(&self, name: &str) -> (r: Option<&IrEnum>)
        ensures
            match r {
                Some(e) => has_enum(*self, name@) && e.name@ == name@,
                None => !has_enum(*self, name@),
            },
    {
        let n = self.enums.len();
        let mut i: usize = 0;
        while i < n
            invariant
                n == self.enums@.len(),
                i <= n,
                forall|k: int| 0 <= k < i ==> self.enums@[k].name@ != name@,
            decreases n - i,
        {
            if crate::text::str_eq(self.enums[i].name.as_str(), name) {
                return Some(&self.enums[i]);
            }
            i = i + 1;
        }
        None
    }
}

} // verus!
