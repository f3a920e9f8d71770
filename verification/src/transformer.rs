//! Canonicalization of a raw IR file: resolve every named type reference to
//! its declaration, compute the deduplicated set of structurally distinct
//! type shapes reachable from the public function surface, and fix a
//! deterministic emission order for the declared structs.

use vstd::prelude::*;

use crate::errors::GenError;
use crate::ir::{IrField, IrFile, IrStruct, IrType, IrTypeEnumRef, IrTypeStructRef, has_enum,
    has_struct, ir_type_eq, lemma_ty_eq_refl, lemma_ty_eq_trans, ty_eq};
use crate::registry::{spec_wire_type, rust_wire_type};
use crate::text::views_of;

verus! {

/// Every named reference inside this shape has a declaration in the file.
pub open spec fn ty_resolved(t: IrType, file: IrFile) -> bool
    decreases t,
{
    match t {
        IrType::Primitive(_) => true,
        IrType::Delegate(i) => ty_resolved(*i, file),
        IrType::StructRef(n) => has_struct(file, n.name@),
        IrType::EnumRef(n) => has_enum(file, n.name@),
        IrType::Boxed(i) => ty_resolved(*i, file),
        IrType::Optional(i) => ty_resolved(*i, file),
        IrType::List(e) => ty_resolved(*e, file),
        IrType::SyncReturn(i) => ty_resolved(*i, file),
    }
}

/// Every named reference in every function signature, struct field and enum
/// variant payload of the file resolves.
pub open spec fn file_resolved(file: IrFile) -> bool {
    &&& forall|i: int, j: int|
        0 <= i < file.funcs@.len() && 0 <= j < file.funcs@[i].params@.len() ==> ty_resolved(
            file.funcs@[i].params@[j].ty,
            file,
        )
    &&& forall|i: int|
        0 <= i < file.funcs@.len() ==> ty_resolved(file.funcs@[i].output, file)
    &&& forall|i: int, j: int|
        0 <= i < file.structs@.len() && 0 <= j < file.structs@[i].fields@.len() ==> ty_resolved(
            file.structs@[i].fields@[j].ty,
            file,
        )
    &&& forall|i: int, j: int, k: int|
        0 <= i < file.enums@.len() && 0 <= j < file.enums@[i].variants@.len() && 0 <= k
            < file.enums@[i].variants@[j].fields@.len() ==> ty_resolved(
            file.enums@[i].variants@[j].fields@[k].ty,
            file,
        )
}

/// Decide whether every named reference inside this shape resolves.
pub fn check_ty_resolved(t: &IrType, file: &IrFile) -> (r: bool)
    ensures
        r == ty_resolved(*t, *file),
    decreases *t,
{
    match t {
        IrType::Primitive(_) => true,
        IrType::Delegate(i) => check_ty_resolved(i, file),
        IrType::StructRef(n) => file.get_struct(n.name.as_str()).is_some(),
        IrType::EnumRef(n) => file.get_enum(n.name.as_str()).is_some(),
        IrType::Boxed(i) => check_ty_resolved(i, file),
        IrType::Optional(i) => check_ty_resolved(i, file),
        IrType::List(e) => check_ty_resolved(e, file),
        IrType::SyncReturn(i) => check_ty_resolved(i, file),
    }
}

/// Check a whole field list.
fn check_fields_resolved(fields: &Vec<IrField>, file: &IrFile) -> (r: bool)
    ensures
        r ==> forall|j: int| 0 <= j < fields@.len() ==> ty_resolved(fields@[j].ty, *file),
        !r ==> exists|j: int| 0 <= j < fields@.len() && !ty_resolved(#[trigger] fields@[j].ty, *file),
{
    let n = fields.len();
    let mut j: usize = 0;
    while j < n
        invariant
            n == fields@.len(),
            j <= n,
            forall|k: int| 0 <= k < j ==> ty_resolved(fields@[k].ty, *file),
        decreases n - j,
    {
        if !check_ty_resolved(&fields[j].ty, file) {
            return false;
        }
        j = j + 1;
    }
    true
}

/// The named declaration owns a type reference that does not resolve: it is
/// a function with an unresolved parameter or return shape, a struct with an
/// unresolved field, or an enum with an unresolved variant payload.
pub open spec fn owner_unresolved(file: IrFile, n: Seq<char>) -> bool {
    ||| exists|i: int|
        0 <= i < file.funcs@.len() && file.funcs@[i].name@ == n && ((exists|j: int|
            0 <= j < file.funcs@[i].params@.len() && !ty_resolved(
                #[trigger] file.funcs@[i].params@[j].ty,
                file,
            )) || !ty_resolved(file.funcs@[i].output, file))
    ||| exists|i: int, j: int|
        0 <= i < file.structs@.len() && file.structs@[i].name@ == n && 0 <= j
            < file.structs@[i].fields@.len() && !ty_resolved(
            #[trigger] file.structs@[i].fields@[j].ty,
            file,
        )
    ||| exists|i: int, j: int, k: int|
        0 <= i < file.enums@.len() && file.enums@[i].name@ == n && 0 <= j
            < file.enums@[i].variants@.len() && 0 <= k < file.enums@[i].variants@[j].fields@.len()
            && !ty_resolved(#[trigger] file.enums@[i].variants@[j].fields@[k].ty, file)
}

/// Resolve every named type reference of the file against its declarations.
/// A dangling reference is fatal: the run aborts with a resolution error
/// naming the unresolved declaration's owner.
pub fn resolve(file: &IrFile) -> (r: Result<(), GenError>)
    ensures
        r is Ok <==> file_resolved(*file),
        r matches Err(e) ==> e matches GenError::Resolution(n) && owner_unresolved(*file, n@),
{
    let nf = file.funcs.len();
    let mut i: usize = 0;
    while i < nf
        invariant
            nf == file.funcs@.len(),
            i <= nf,
            forall|a: int, b: int|
                0 <= a < i && 0 <= b < file.funcs@[a].params@.len() ==> ty_resolved(
                    file.funcs@[a].params@[b].ty,
                    *file,
                ),
            forall|a: int| 0 <= a < i ==> ty_resolved(file.funcs@[a].output, *file),
        decreases nf - i,
    {
        let f = &file.funcs[i];
        if !check_fields_resolved(&f.params, file) {
            return Err(GenError::Resolution(f.name.clone()));
        }
        if !check_ty_resolved(&f.output, file) {
            return Err(GenError::Resolution(f.name.clone()));
        }
        i = i + 1;
    }
    let ns = file.structs.len();
    let mut i: usize = 0;
    while i < ns
        invariant
            ns == file.structs@.len(),
            i <= ns,
            forall|a: int, b: int|
                0 <= a < i && 0 <= b < file.structs@[a].fields@.len() ==> ty_resolved(
                    file.structs@[a].fields@[b].ty,
                    *file,
                ),
        decreases ns - i,
    {
        let s = &file.structs[i];
        if !check_fields_resolved(&s.fields, file) {
            return Err(GenError::Resolution(s.name.clone()));
        }
        i = i + 1;
    }
    let ne = file.enums.len();
    let mut i: usize = 0;
    while i < ne
        invariant
            ne == file.enums@.len(),
            i <= ne,
            nf == file.funcs@.len(),
            ns == file.structs@.len(),
            forall|a: int, b: int, c: int|
                0 <= a < i && 0 <= b < file.enums@[a].variants@.len() && 0 <= c
                    < file.enums@[a].variants@[b].fields@.len() ==> ty_resolved(
                    file.enums@[a].variants@[b].fields@[c].ty,
                    *file,
                ),
            forall|a: int, b: int|
                0 <= a < nf && 0 <= b < file.funcs@[a].params@.len() ==> ty_resolved(
                    file.funcs@[a].params@[b].ty,
                    *file,
                ),
            forall|a: int| 0 <= a < nf ==> ty_resolved(file.funcs@[a].output, *file),
            forall|a: int, b: int|
                0 <= a < ns && 0 <= b < file.structs@[a].fields@.len() ==> ty_resolved(
                    file.structs@[a].fields@[b].ty,
                    *file,
                ),
        decreases ne - i,
    {
        let e = &file.enums[i];
        let nv = e.variants.len();
        let mut j: usize = 0;
        while j < nv
            invariant
                0 <= i < file.enums@.len(),
                *e == file.enums@[i as int],
                nv == e.variants@.len(),
                j <= nv,
                forall|b: int, c: int|
                    0 <= b < j && 0 <= c < e.variants@[b].fields@.len() ==> ty_resolved(
                        e.variants@[b].fields@[c].ty,
                        *file,
                    ),
            decreases nv - j,
        {
            let vfields = &e.variants[j].fields;
            if !check_fields_resolved(vfields, file) {
                proof {
                    let c = choose|c: int|
                        0 <= c < vfields@.len() && !ty_resolved(#[trigger] vfields@[c].ty, *file);
                    assert(vfields@ == file.enums@[i as int].variants@[j as int].fields@);
                    assert(!ty_resolved(file.enums@[i as int].variants@[j as int].fields@[c].ty, *file));
                }
                return Err(GenError::Resolution(e.name.clone()));
            }
            j = j + 1;
        }
        i = i + 1;
    }
    Ok(())
}

/// Deep copy of a type shape, equal to the original as a value.
pub fn clone_ty(t: &IrType) -> (r: IrType)
    ensures
        r == *t,
    decreases *t,
{
    match t {
        IrType::Primitive(p) => IrType::Primitive(*p),
        IrType::Delegate(i) => IrType::Delegate(Box::new(clone_ty(i))),
        IrType::StructRef(n) => IrType::StructRef(IrTypeStructRef { name: n.name.clone() }),
        IrType::EnumRef(n) => IrType::EnumRef(IrTypeEnumRef { name: n.name.clone() }),
        IrType::Boxed(i) => IrType::Boxed(Box::new(clone_ty(i))),
        IrType::Optional(i) => IrType::Optional(Box::new(clone_ty(i))),
        IrType::List(e) => IrType::List(Box::new(clone_ty(e))),
        IrType::SyncReturn(i) => IrType::SyncReturn(Box::new(clone_ty(i))),
    }
}

/// `u` occurs, modulo structural equality, within the shape `t`.
pub open spec fn is_subterm(t: IrType, u: IrType) -> bool
    decreases t,
{
    ty_eq(t, u) || match t {
        IrType::Delegate(i) => is_subterm(*i, u),
        IrType::Boxed(i) => is_subterm(*i, u),
        IrType::Optional(i) => is_subterm(*i, u),
        IrType::List(e) => is_subterm(*e, u),
        IrType::SyncReturn(i) => is_subterm(*i, u),
        _ => false,
    }
}

/// No two entries share a structural shape.
pub open spec fn pairwise_distinct(s: Seq<IrType>) -> bool {
    forall|i: int, j: int| 0 <= i < j < s.len() ==> !ty_eq(s[i], s[j])
}

/// Some entry is structurally equal to `u`.
pub open spec fn covers(s: Seq<IrType>, u: IrType) -> bool {
    exists|k: int| 0 <= k < s.len() && ty_eq(s[k], u)
}

/// A cover survives extension that leaves the existing entries in place.
pub proof fn lemma_covers_extend(s1: Seq<IrType>, s2: Seq<IrType>, u: IrType)
    requires
        s1.len() <= s2.len(),
        forall|k: int| 0 <= k < s1.len() ==> s2[k] == s1[k],
        covers(s1, u),
    ensures
        covers(s2, u),
{
    let k = choose|k: int| 0 <= k < s1.len() && ty_eq(s1[k], u);
    assert(0 <= k < s2.len() && ty_eq(s2[k], u));
}

/// Append the shape to the set unless a structurally equal entry is already
/// there.
fn add_distinct(acc: &mut Vec<IrType>, t: &IrType)
    requires
        pairwise_distinct(old(acc)@),
    ensures
        pairwise_distinct(final(acc)@),
        old(acc)@.len() <= final(acc)@.len(),
        forall|k: int| 0 <= k < old(acc)@.len() ==> final(acc)@[k] == old(acc)@[k],
        covers(final(acc)@, *t),
        forall|k: int| old(acc)@.len() <= k < final(acc)@.len() ==> final(acc)@[k] == *t,
{
    let n = acc.len();
    let mut j: usize = 0;
    while j < n
        invariant
            acc@ == old(acc)@,
            pairwise_distinct(acc@),
            n == acc@.len(),
            j <= n,
            forall|k: int| 0 <= k < j ==> !ty_eq(#[trigger] acc@[k], *t),
        decreases n - j,
    {
        if ir_type_eq(&acc[j], t) {
            return ;
        }
        j = j + 1;
    }
    let c = clone_ty(t);
    acc.push(c);
    proof {
        lemma_ty_eq_refl(*t);
        assert(acc@[n as int] == *t);
        assert(ty_eq(acc@[n as int], *t));
        assert forall|a: int, b: int| 0 <= a < b < acc@.len() implies !ty_eq(
            acc@[a],
            acc@[b],
        ) by {
            if b == n {
                assert(acc@[a] == old(acc)@[a]);
            }
        }
    }
}

/// Add every shape occurring within `t` to the set, deduplicated.
pub fn collect_types(acc: &mut Vec<IrType>, t: &IrType)
    requires
        pairwise_distinct(old(acc)@),
    ensures
        pairwise_distinct(final(acc)@),
        old(acc)@.len() <= final(acc)@.len(),
        forall|k: int| 0 <= k < old(acc)@.len() ==> final(acc)@[k] == old(acc)@[k],
        forall|u: IrType| is_subterm(*t, u) ==> covers(final(acc)@, u),
        forall|k: int|
            old(acc)@.len() <= k < final(acc)@.len() ==> is_subterm(*t, final(acc)@[k]),
    decreases *t,
{
    add_distinct(acc, t);
    let ghost mid = acc@;
    match t {
        IrType::Delegate(i) => collect_types(acc, i),
        IrType::Boxed(i) => collect_types(acc, i),
        IrType::Optional(i) => collect_types(acc, i),
        IrType::List(e) => collect_types(acc, e),
        IrType::SyncReturn(i) => collect_types(acc, i),
        _ => {},
    }
    proof {
        assert forall|k: int|
            #![trigger acc@[k]]
            old(acc)@.len() <= k < acc@.len() implies is_subterm(*t, acc@[k]) by {
            if k < mid.len() {
                assert(acc@[k] == mid[k]);
                assert(mid[k] == *t);
                lemma_ty_eq_refl(*t);
            }
        }
        assert forall|u: IrType| is_subterm(*t, u) implies covers(acc@, u) by {
            if ty_eq(*t, u) {
                let k = choose|k: int| 0 <= k < mid.len() && #[trigger] ty_eq(mid[k], *t);
                lemma_ty_eq_trans(mid[k], *t, u);
                assert(acc@[k] == mid[k]);
                assert(0 <= k < acc@.len() && ty_eq(acc@[k], u));
            } else {
                match *t {
                    IrType::Delegate(i) => assert(is_subterm(*i, u)),
                    IrType::Boxed(i) => assert(is_subterm(*i, u)),
                    IrType::Optional(i) => assert(is_subterm(*i, u)),
                    IrType::List(e) => assert(is_subterm(*e, u)),
                    IrType::SyncReturn(i) => assert(is_subterm(*i, u)),
                    _ => assert(false),
                }
            }
        }
        assert forall|k: int|
            old(acc)@.len() <= k < acc@.len() implies is_subterm(*t, acc@[k]) by {
            if k < mid.len() {
                lemma_ty_eq_refl(*t);
            }
        }
    }
}

/// The shape occurs within some field of the list.
pub open spec fn is_subterm_in_fields(fields: Seq<IrField>, u: IrType) -> bool {
    exists|j: int| 0 <= j < fields.len() && #[trigger] is_subterm(fields[j].ty, u)
}

/// Add every shape occurring in a field list to the set.
fn collect_from_fields(acc: &mut Vec<IrType>, fields: &Vec<IrField>)
    requires
        pairwise_distinct(old(acc)@),
    ensures
        pairwise_distinct(final(acc)@),
        old(acc)@.len() <= final(acc)@.len(),
        forall|k: int| 0 <= k < old(acc)@.len() ==> final(acc)@[k] == old(acc)@[k],
        forall|j: int, u: IrType|
            0 <= j < fields@.len() && #[trigger] is_subterm(fields@[j].ty, u) ==> covers(
                final(acc)@,
                u,
            ),
        forall|k: int|
            #![trigger final(acc)@[k]]
            old(acc)@.len() <= k < final(acc)@.len() ==> is_subterm_in_fields(
                fields@,
                final(acc)@[k],
            ),
{
    let ghost orig = acc@;
    let n = fields.len();
    let mut j: usize = 0;
    while j < n
        invariant
            n == fields@.len(),
            j <= n,
            pairwise_distinct(acc@),
            orig.len() <= acc@.len(),
            forall|k: int| 0 <= k < orig.len() ==> acc@[k] == orig[k],
            forall|j2: int, u: IrType|
                0 <= j2 < j && #[trigger] is_subterm(fields@[j2].ty, u) ==> covers(acc@, u),
            forall|k: int|
                #![trigger acc@[k]]
                orig.len() <= k < acc@.len() ==> is_subterm_in_fields(fields@, acc@[k]),
        decreases n - j,
    {
        let ghost prev = acc@;
        collect_types(acc, &fields[j].ty);
        proof {
            assert forall|j2: int, u: IrType|
                0 <= j2 < j + 1 && #[trigger] is_subterm(fields@[j2].ty, u) implies covers(
                acc@,
                u,
            ) by {
                if j2 < j {
                    lemma_covers_extend(prev, acc@, u);
                }
            }
            assert forall|k: int|
                #![trigger acc@[k]]
                orig.len() <= k < acc@.len() implies is_subterm_in_fields(fields@, acc@[k]) by {
                if k < prev.len() {
                    assert(acc@[k] == prev[k]);
                    assert(is_subterm_in_fields(fields@, prev[k]));
                } else {
                    assert(is_subterm(fields@[j as int].ty, acc@[k]));
                    assert(is_subterm_in_fields(fields@, acc@[k]));
                }
            }
        }
        j = j + 1;
    }
}

/// The shape occurs within the public function surface or within a declared
/// aggregate of the file.
pub open spec fn in_surface(file: IrFile, u: IrType) -> bool {
    ||| exists|i: int, j: int|
        0 <= i < file.funcs@.len() && 0 <= j < file.funcs@[i].params@.len() && #[trigger] is_subterm(
            file.funcs@[i].params@[j].ty,
            u,
        )
    ||| exists|i: int|
        0 <= i < file.funcs@.len() && #[trigger] is_subterm(file.funcs@[i].output, u)
    ||| exists|i: int, j: int|
        0 <= i < file.structs@.len() && 0 <= j < file.structs@[i].fields@.len()
            && #[trigger] is_subterm(file.structs@[i].fields@[j].ty, u)
    ||| exists|i: int, j: int, k: int|
        0 <= i < file.enums@.len() && 0 <= j < file.enums@[i].variants@.len() && 0 <= k
            < file.enums@[i].variants@[j].fields@.len() && #[trigger] is_subterm(
            file.enums@[i].variants@[j].fields@[k].ty,
            u,
        )
}

/// A shape found inside some parameter of a declared function is on the
/// surface.
proof fn lemma_surface_from_params(file: IrFile, i: int, u: IrType)
    requires
        0 <= i < file.funcs@.len(),
        is_subterm_in_fields(file.funcs@[i].params@, u),
    ensures
        in_surface(file, u),
{
    let j = choose|j: int|
        0 <= j < file.funcs@[i].params@.len() && #[trigger] is_subterm(
            file.funcs@[i].params@[j].ty,
            u,
        );
    assert(is_subterm(file.funcs@[i].params@[j].ty, u));
}

/// A shape found inside a declared function's return shape is on the
/// surface.
proof fn lemma_surface_from_output(file: IrFile, i: int, u: IrType)
    requires
        0 <= i < file.funcs@.len(),
        is_subterm(file.funcs@[i].output, u),
    ensures
        in_surface(file, u),
{
}

/// A shape found inside some field of a declared struct is on the surface.
proof fn lemma_surface_from_struct(file: IrFile, i: int, u: IrType)
    requires
        0 <= i < file.structs@.len(),
        is_subterm_in_fields(file.structs@[i].fields@, u),
    ensures
        in_surface(file, u),
{
    let j = choose|j: int|
        0 <= j < file.structs@[i].fields@.len() && #[trigger] is_subterm(
            file.structs@[i].fields@[j].ty,
            u,
        );
    assert(is_subterm(file.structs@[i].fields@[j].ty, u));
}

/// A shape found inside some payload field of a declared enum variant is on
/// the surface.
proof fn lemma_surface_from_enum(file: IrFile, i: int, j: int, u: IrType)
    requires
        0 <= i < file.enums@.len(),
        0 <= j < file.enums@[i].variants@.len(),
        is_subterm_in_fields(file.enums@[i].variants@[j].fields@, u),
    ensures
        in_surface(file, u),
{
    let k = choose|k: int|
        0 <= k < file.enums@[i].variants@[j].fields@.len() && #[trigger] is_subterm(
            file.enums@[i].variants@[j].fields@[k].ty,
            u,
        );
    assert(is_subterm(file.enums@[i].variants@[j].fields@[k].ty, u));
}

/// The deduplicated set of structurally distinct shapes reachable from the
/// public function surface and the declared aggregates: no two entries share
/// a shape, and every reachable shape has a representative. The collection
/// only ever adds shapes it finds inside those declarations.
pub fn distinct_types(file: &IrFile) -> (r: Vec<IrType>)
    ensures
        pairwise_distinct(r@),
        forall|u: IrType| in_surface(*file, u) ==> covers(r@, u),
        forall|k: int| #![trigger r@[k]] 0 <= k < r@.len() ==> in_surface(*file, r@[k]),
{
    let mut acc: Vec<IrType> = Vec::new();
    let nf = file.funcs.len();
    let mut i: usize = 0;
    while i < nf
        invariant
            nf == file.funcs@.len(),
            i <= nf,
            pairwise_distinct(acc@),
            forall|a: int, b: int, u: IrType|
                0 <= a < i && 0 <= b < file.funcs@[a].params@.len() && #[trigger] is_subterm(
                    file.funcs@[a].params@[b].ty,
                    u,
                ) ==> covers(acc@, u),
            forall|a: int, u: IrType|
                0 <= a < i && #[trigger] is_subterm(file.funcs@[a].output, u) ==> covers(acc@, u),
            forall|k: int| #![trigger acc@[k]] 0 <= k < acc@.len() ==> in_surface(*file, acc@[k]),
        decreases nf - i,
    {
        let f = &file.funcs[i];
        let ghost prev1 = acc@;
        collect_from_fields(&mut acc, &f.params);
        let ghost prev2 = acc@;
        collect_types(&mut acc, &f.output);
        proof {
            assert forall|a: int, b: int, u: IrType|
                0 <= a < i + 1 && 0 <= b < file.funcs@[a].params@.len() && #[trigger] is_subterm(
                    file.funcs@[a].params@[b].ty,
                    u,
                ) implies covers(acc@, u) by {
                if a < i {
                    lemma_covers_extend(prev1, prev2, u);
                    lemma_covers_extend(prev2, acc@, u);
                } else {
                    lemma_covers_extend(prev2, acc@, u);
                }
            }
            assert forall|a: int, u: IrType|
                0 <= a < i + 1 && #[trigger] is_subterm(file.funcs@[a].output, u) implies covers(
                acc@,
                u,
            ) by {
                if a < i {
                    lemma_covers_extend(prev1, prev2, u);
                    lemma_covers_extend(prev2, acc@, u);
                }
            }
            assert forall|k: int| #![trigger acc@[k]] 0 <= k < acc@.len() implies in_surface(
                *file,
                acc@[k],
            ) by {
                if k < prev1.len() {
                    assert(acc@[k] == prev1[k]);
                    assert(in_surface(*file, prev1[k]));
                } else if k < prev2.len() {
                    assert(acc@[k] == prev2[k]);
                    assert(is_subterm_in_fields(f.params@, prev2[k]));
                    assert(f.params@ == file.funcs@[i as int].params@);
                    lemma_surface_from_params(*file, i as int, acc@[k]);
                } else {
                    assert(is_subterm(f.output, acc@[k]));
                    assert(f.output == file.funcs@[i as int].output);
                    lemma_surface_from_output(*file, i as int, acc@[k]);
                }
            }
        }
        i = i + 1;
    }
    let ns = file.structs.len();
    let mut i: usize = 0;
    while i < ns
        invariant
            ns == file.structs@.len(),
            nf == file.funcs@.len(),
            i <= ns,
            pairwise_distinct(acc@),
            forall|a: int, b: int, u: IrType|
                0 <= a < nf && 0 <= b < file.funcs@[a].params@.len() && #[trigger] is_subterm(
                    file.funcs@[a].params@[b].ty,
                    u,
                ) ==> covers(acc@, u),
            forall|a: int, u: IrType|
                0 <= a < nf && #[trigger] is_subterm(file.funcs@[a].output, u) ==> covers(acc@, u),
            forall|a: int, b: int, u: IrType|
                0 <= a < i && 0 <= b < file.structs@[a].fields@.len() && #[trigger] is_subterm(
                    file.structs@[a].fields@[b].ty,
                    u,
                ) ==> covers(acc@, u),
            forall|k: int| #![trigger acc@[k]] 0 <= k < acc@.len() ==> in_surface(*file, acc@[k]),
        decreases ns - i,
    {
        let s = &file.structs[i];
        let ghost prev = acc@;
        collect_from_fields(&mut acc, &s.fields);
        proof {
            assert forall|a: int, b: int, u: IrType|
                0 <= a < nf && 0 <= b < file.funcs@[a].params@.len() && #[trigger] is_subterm(
                    file.funcs@[a].params@[b].ty,
                    u,
                ) implies covers(acc@, u) by {
                lemma_covers_extend(prev, acc@, u);
            }
            assert forall|a: int, u: IrType|
                0 <= a < nf && #[trigger] is_subterm(file.funcs@[a].output, u) implies covers(
                acc@,
                u,
            ) by {
                lemma_covers_extend(prev, acc@, u);
            }
            assert forall|a: int, b: int, u: IrType|
                0 <= a < i + 1 && 0 <= b < file.structs@[a].fields@.len() && #[trigger] is_subterm(
                    file.structs@[a].fields@[b].ty,
                    u,
                ) implies covers(acc@, u) by {
                if a < i {
                    lemma_covers_extend(prev, acc@, u);
                }
            }
            assert forall|k: int| #![trigger acc@[k]] 0 <= k < acc@.len() implies in_surface(
                *file,
                acc@[k],
            ) by {
                if k < prev.len() {
                    assert(acc@[k] == prev[k]);
                    assert(in_surface(*file, prev[k]));
                } else {
                    assert(is_subterm_in_fields(s.fields@, acc@[k]));
                    assert(s.fields@ == file.structs@[i as int].fields@);
                    lemma_surface_from_struct(*file, i as int, acc@[k]);
                }
            }
        }
        i = i + 1;
    }
    let ne = file.enums.len();
    let mut i: usize = 0;
    while i < ne
        invariant
            ne == file.enums@.len(),
            nf == file.funcs@.len(),
            ns == file.structs@.len(),
            i <= ne,
            pairwise_distinct(acc@),
            forall|a: int, b: int, u: IrType|
                0 <= a < nf && 0 <= b < file.funcs@[a].params@.len() && #[trigger] is_subterm(
                    file.funcs@[a].params@[b].ty,
                    u,
                ) ==> covers(acc@, u),
            forall|a: int, u: IrType|
                0 <= a < nf && #[trigger] is_subterm(file.funcs@[a].output, u) ==> covers(acc@, u),
            forall|a: int, b: int, u: IrType|
                0 <= a < ns && 0 <= b < file.structs@[a].fields@.len() && #[trigger] is_subterm(
                    file.structs@[a].fields@[b].ty,
                    u,
                ) ==> covers(acc@, u),
            forall|a: int, b: int, c: int, u: IrType|
                0 <= a < i && 0 <= b < file.enums@[a].variants@.len() && 0 <= c
                    < file.enums@[a].variants@[b].fields@.len() && #[trigger] is_subterm(
                    file.enums@[a].variants@[b].fields@[c].ty,
                    u,
                ) ==> covers(acc@, u),
            forall|k: int| #![trigger acc@[k]] 0 <= k < acc@.len() ==> in_surface(*file, acc@[k]),
        decreases ne - i,
    {
        let e = &file.enums[i];
        let nv = e.variants.len();
        let mut j: usize = 0;
        while j < nv
            invariant
                0 <= i < file.enums@.len(),
                *e == file.enums@[i as int],
                nv == e.variants@.len(),
                j <= nv,
                ne == file.enums@.len(),
                nf == file.funcs@.len(),
                ns == file.structs@.len(),
                pairwise_distinct(acc@),
                forall|a: int, b: int, u: IrType|
                    0 <= a < nf && 0 <= b < file.funcs@[a].params@.len() && #[trigger] is_subterm(
                        file.funcs@[a].params@[b].ty,
                        u,
                    ) ==> covers(acc@, u),
                forall|a: int, u: IrType|
                    0 <= a < nf && #[trigger] is_subterm(file.funcs@[a].output, u) ==> covers(
                        acc@,
                        u,
                    ),
                forall|a: int, b: int, u: IrType|
                    0 <= a < ns && 0 <= b < file.structs@[a].fields@.len() && #[trigger] is_subterm(
                        file.structs@[a].fields@[b].ty,
                        u,
                    ) ==> covers(acc@, u),
                forall|a: int, b: int, c: int, u: IrType|
                    0 <= a < i && 0 <= b < file.enums@[a].variants@.len() && 0 <= c
                        < file.enums@[a].variants@[b].fields@.len() && #[trigger] is_subterm(
                        file.enums@[a].variants@[b].fields@[c].ty,
                        u,
                    ) ==> covers(acc@, u),
                forall|b: int, c: int, u: IrType|
                    0 <= b < j && 0 <= c < e.variants@[b].fields@.len() && #[trigger] is_subterm(
                        e.variants@[b].fields@[c].ty,
                        u,
                    ) ==> covers(acc@, u),
                forall|k: int|
                    #![trigger acc@[k]]
                    0 <= k < acc@.len() ==> in_surface(*file, acc@[k]),
                decreases nv - j,
        {
            let v = &e.variants[j];
            let ghost prev = acc@;
            collect_from_fields(&mut acc, &v.fields);
            proof {
                assert forall|a: int, b: int, u: IrType|
                    0 <= a < nf && 0 <= b < file.funcs@[a].params@.len() && #[trigger] is_subterm(
                        file.funcs@[a].params@[b].ty,
                        u,
                    ) implies covers(acc@, u) by {
                    lemma_covers_extend(prev, acc@, u);
                }
                assert forall|a: int, u: IrType|
                    0 <= a < nf && #[trigger] is_subterm(file.funcs@[a].output, u) implies covers(
                    acc@,
                    u,
                ) by {
                    lemma_covers_extend(prev, acc@, u);
                }
                assert forall|a: int, b: int, u: IrType|
                    0 <= a < ns && 0 <= b < file.structs@[a].fields@.len() && #[trigger] is_subterm(
                        file.structs@[a].fields@[b].ty,
                        u,
                    ) implies covers(acc@, u) by {
                    lemma_covers_extend(prev, acc@, u);
                }
                assert forall|a: int, b: int, c: int, u: IrType|
                    0 <= a < i && 0 <= b < file.enums@[a].variants@.len() && 0 <= c
                        < file.enums@[a].variants@[b].fields@.len() && #[trigger] is_subterm(
                        file.enums@[a].variants@[b].fields@[c].ty,
                        u,
                    ) implies covers(acc@, u) by {
                    lemma_covers_extend(prev, acc@, u);
                }
                assert forall|b: int, c: int, u: IrType|
                    0 <= b < j + 1 && 0 <= c < e.variants@[b].fields@.len() && #[trigger] is_subterm(
                        e.variants@[b].fields@[c].ty,
                        u,
                    ) implies covers(acc@, u) by {
                    if b < j {
                        lemma_covers_extend(prev, acc@, u);
                    }
                }
                assert forall|k: int| #![trigger acc@[k]] 0 <= k < acc@.len() implies in_surface(
                    *file,
                    acc@[k],
                ) by {
                    if k < prev.len() {
                        assert(acc@[k] == prev[k]);
                        assert(in_surface(*file, prev[k]));
                    } else {
                        assert(is_subterm_in_fields(v.fields@, acc@[k]));
                        assert(v.fields@ == file.enums@[i as int].variants@[j as int].fields@);
                        lemma_surface_from_enum(*file, i as int, j as int, acc@[k]);
                    }
                }
            }
            j = j + 1;
        }
        i = i + 1;
    }
    acc
}

/// The shape mentions the named struct by value: not behind a pointer
/// indirection, so its declaration must already stand when this shape's wire
/// struct is declared.
pub open spec fn ty_value_dep(t: IrType, n: Seq<char>) -> bool
    decreases t,
{
    match t {
        IrType::StructRef(m) => m.name@ == n,
        IrType::Delegate(i) => ty_value_dep(*i, n),
        IrType::SyncReturn(i) => ty_value_dep(*i, n),
        _ => false,
    }
}

/// Decide whether the shape depends on the named struct by value.
fn check_ty_value_dep(t: &IrType, n: &str) -> (r: bool)
    ensures
        r == ty_value_dep(*t, n@),
    decreases *t,
{
    match t {
        IrType::StructRef(m) => crate::text::str_eq(m.name.as_str(), n),
        IrType::Delegate(i) => check_ty_value_dep(i, n),
        IrType::SyncReturn(i) => check_ty_value_dep(i, n),
        _ => false,
    }
}

/// Some field of the struct nests the named struct by value.
pub open spec fn struct_dep_on(s: IrStruct, n: Seq<char>) -> bool {
    exists|j: int| 0 <= j < s.fields@.len() && ty_value_dep(#[trigger] s.fields@[j].ty, n)
}

/// Decide whether some field of the struct nests the named struct by value.
fn struct_depends_on(s: &IrStruct, n: &str) -> (r: bool)
    ensures
        r == struct_dep_on(*s, n@),
{
    let m = s.fields.len();
    let mut j: usize = 0;
    while j < m
        invariant
            m == s.fields@.len(),
            j <= m,
            forall|k: int| 0 <= k < j ==> !ty_value_dep(#[trigger] s.fields@[k].ty, n@),
        decreases m - j,
    {
        if check_ty_value_dep(&s.fields[j].ty, n) {
            return true;
        }
        j = j + 1;
    }
    false
}

/// Up to the cut, no struct nests by value a struct that stands anywhere
/// after it.
pub open spec fn ordered_prefix(r: Seq<IrStruct>, cut: int) -> bool {
    forall|i: int, j: int|
        #![trigger r[i], r[j]]
        0 <= i < j < r.len() && i < cut ==> !struct_dep_on(r[i], r[j].name@)
}

/// The map `wit` points every member of the sequence at some other member
/// it nests by value.
pub open spec fn is_blocked_witness(s: Seq<IrStruct>, wit: Seq<int>) -> bool {
    &&& wit.len() == s.len()
    &&& forall|a: int|
        #![trigger wit[a]]
        0 <= a < s.len() ==> 0 <= wit[a] < s.len() && wit[a] != a && struct_dep_on(
            s[a],
            s[wit[a]].name@,
        )
}

/// Every struct of the sequence nests by value some other struct of the
/// sequence: no dependency-respecting order exists among them.
pub open spec fn blocked_all(s: Seq<IrStruct>) -> bool {
    exists|wit: Seq<int>| #[trigger] is_blocked_witness(s, wit)
}

/// Find a struct that nests no other remaining struct by value, scanning in
/// declaration order; none exists exactly when the remaining structs block
/// each other in a dependency cycle.
fn find_unblocked(rest: &Vec<IrStruct>) -> (r: Option<usize>)
    ensures
        r matches Some(p) ==> p < rest@.len() && forall|k: int|
            0 <= k < rest@.len() && k != p ==> !struct_dep_on(
                rest@[p as int],
                #[trigger] rest@[k].name@,
            ),
        r is None ==> blocked_all(rest@),
{
    let n = rest.len();
    let mut j: usize = 0;
    let ghost mut wit: Seq<int> = Seq::empty();
    while j < n
        invariant
            n == rest@.len(),
            j <= n,
            wit.len() == j,
            forall|j2: int|
                #![trigger wit[j2]]
                0 <= j2 < j ==> 0 <= wit[j2] < n && wit[j2] != j2 && struct_dep_on(
                    rest@[j2],
                    rest@[wit[j2]].name@,
                ),
        decreases n - j,
    {
        let mut blocked = false;
        let ghost mut bw: int = 0;
        let mut k: usize = 0;
        while k < n
            invariant
                n == rest@.len(),
                k <= n,
                j < n,
                blocked ==> 0 <= bw < n && bw != j && struct_dep_on(
                    rest@[j as int],
                    rest@[bw].name@,
                ),
                !blocked ==> forall|k2: int|
                    0 <= k2 < k && k2 != j ==> !struct_dep_on(
                        rest@[j as int],
                        #[trigger] rest@[k2].name@,
                    ),
            decreases n - k,
        {
            if k != j && struct_depends_on(&rest[j], rest[k].name.as_str()) {
                blocked = true;
                proof {
                    bw = k as int;
                }
            }
            k = k + 1;
        }
        if !blocked {
            return Some(j);
        }
        proof {
            wit = wit.push(bw);
        }
        j = j + 1;
    }
    proof {
        assert(is_blocked_witness(rest@, wit));
        assert(blocked_all(rest@));
    }
    None
}

/// Reorder the declared structs so that a struct stands after every struct
/// it nests by value, as far as the dependency graph allows: up to some cut
/// the order respects dependencies, and from the cut on every remaining
/// struct nests another remaining one (a dependency cycle), so they keep
/// their declaration order. The result holds exactly the declared structs,
/// as a permutation.
#[verifier::rlimit(100)]
pub fn emission_order(structs: Vec<IrStruct>) -> (r: Vec<IrStruct>)
    ensures
        r@.to_multiset() == structs@.to_multiset(),
        r@.len() == structs@.len(),
        exists|cut: int|
            0 <= cut <= r@.len() && #[trigger] ordered_prefix(r@, cut) && blocked_all(
                r@.skip(cut),
            ),
{
    let ghost orig = structs@;
    let mut rest = structs;
    let mut out: Vec<IrStruct> = Vec::new();
    let mut fell_back = false;
    let ghost mut cut: int = 0;
    proof {
        broadcast use vstd::seq_lib::group_to_multiset_ensures;
        broadcast use vstd::multiset::group_multiset_axioms;

        assert(out@.to_multiset().len() == 0);
        assert(out@.to_multiset() =~= vstd::multiset::Multiset::<IrStruct>::empty());
        assert(out@.to_multiset().add(rest@.to_multiset()) =~= orig.to_multiset());
    }
    while rest.len() > 0
        invariant
            out@.to_multiset().add(rest@.to_multiset()) =~= orig.to_multiset(),
            out@.len() + rest@.len() == orig.len(),
            0 <= cut <= out@.len(),
            !fell_back ==> cut == out@.len(),
            ordered_prefix(out@, cut),
            forall|p: int, k: int|
                #![trigger out@[p], rest@[k]]
                0 <= p < cut && 0 <= k < rest@.len() ==> !struct_dep_on(out@[p], rest@[k].name@),
            fell_back ==> blocked_all(out@.skip(cut) + rest@),
        decreases rest@.len(),
    {
        if !fell_back {
            match find_unblocked(&rest) {
                Some(pick) => {
                    let ghost before = rest@;
                    let ghost out_before = out@;
                    let chosen = rest.remove(pick);
                    out.push(chosen);
                    proof {
                        broadcast use vstd::seq_lib::group_to_multiset_ensures;
                        broadcast use vstd::multiset::group_multiset_axioms;

                        cut = cut + 1;
                        assert(before.contains(before[pick as int]));
                        assert(before.to_multiset().count(before[pick as int]) > 0);
                        assert(rest@.to_multiset() == before.to_multiset().remove(
                            before[pick as int],
                        ));
                        assert(out@.to_multiset() == out_before.to_multiset().insert(chosen));
                        assert(out@.to_multiset().add(rest@.to_multiset())
                            =~= orig.to_multiset());
                        assert(out@[out_before.len() as int] == chosen);
                        assert forall|p: int, k: int|
                            #![trigger out@[p], rest@[k]]
                            0 <= p < cut && 0 <= k < rest@.len() implies !struct_dep_on(
                            out@[p],
                            rest@[k].name@,
                        ) by {
                            let elem = if k < pick {
                                before[k]
                            } else {
                                before[k + 1]
                            };
                            assert(rest@[k] == elem);
                            if p < out_before.len() {
                                assert(out@[p] == out_before[p]);
                            } else {
                                assert(out@[p] == chosen);
                            }
                        }
                        assert forall|i: int, j2: int|
                            #![trigger out@[i], out@[j2]]
                            0 <= i < j2 < out@.len() && i < cut implies !struct_dep_on(
                            out@[i],
                            out@[j2].name@,
                        ) by {
                            if j2 < out_before.len() {
                                assert(out@[i] == out_before[i] && out@[j2] == out_before[j2]);
                            } else {
                                assert(out@[j2] == chosen);
                                if i < out_before.len() {
                                    assert(out@[i] == out_before[i]);
                                    assert(!struct_dep_on(
                                        out_before[i],
                                        before[pick as int].name@,
                                    ));
                                }
                            }
                        }
                    }
                    continue ;
                },
                None => {
                    fell_back = true;
                    proof {
                        assert(out@.skip(cut) =~= Seq::<IrStruct>::empty());
                        assert(out@.skip(cut) + rest@ =~= rest@);
                    }
                },
            }
        }
        let ghost out_before = out@;
        let ghost rest_before = rest@;
        let moved = rest.remove(0);
        out.push(moved);
        proof {
            broadcast use vstd::seq_lib::group_to_multiset_ensures;
            broadcast use vstd::multiset::group_multiset_axioms;

            assert(rest_before.contains(rest_before[0]));
            assert(rest_before.to_multiset().count(rest_before[0]) > 0);
            assert(rest@.to_multiset() == rest_before.to_multiset().remove(rest_before[0]));
            assert(out@.to_multiset() == out_before.to_multiset().insert(moved));
            assert(out@.to_multiset().add(rest@.to_multiset()) =~= orig.to_multiset());
            assert(out@.skip(cut) + rest@ =~= out_before.skip(cut) + rest_before);
            assert(out@[out_before.len() as int] == moved);
            assert forall|p: int, k: int|
                #![trigger out@[p], rest@[k]]
                0 <= p < cut && 0 <= k < rest@.len() implies !struct_dep_on(
                out@[p],
                rest@[k].name@,
            ) by {
                assert(rest@[k] == rest_before[k + 1]);
                assert(out@[p] == out_before[p]);
            }
            assert forall|i: int, j2: int|
                #![trigger out@[i], out@[j2]]
                0 <= i < j2 < out@.len() && i < cut implies !struct_dep_on(
                out@[i],
                out@[j2].name@,
            ) by {
                assert(out@[i] == out_before[i]);
                if j2 < out_before.len() {
                    assert(out@[j2] == out_before[j2]);
                } else {
                    assert(out@[j2] == moved);
                    assert(!struct_dep_on(out_before[i], rest_before[0].name@));
                }
            }
        }
    }
    proof {
        broadcast use vstd::seq_lib::group_to_multiset_ensures;
        broadcast use vstd::multiset::group_multiset_axioms;

        assert(rest@.to_multiset() =~= vstd::multiset::Multiset::<IrStruct>::empty());
        assert(out@.to_multiset() =~= out@.to_multiset().add(rest@.to_multiset()));
        if fell_back {
            assert(out@.skip(cut) =~= out@.skip(cut) + rest@);
        } else {
            assert(out@.skip(cut) =~= Seq::<IrStruct>::empty());
            assert(is_blocked_witness(out@.skip(cut), Seq::<int>::empty()));
            assert(blocked_all(out@.skip(cut)));
        }
        assert(0 <= cut <= out@.len() && ordered_prefix(out@, cut) && blocked_all(
            out@.skip(cut),
        ));
    }
    out
}

/// The wire struct names among a set of shapes, in order: one for each
/// struct-reference entry, skipping every other shape.
pub open spec fn spec_c_struct_names(s: Seq<IrType>) -> Seq<Seq<char>>
    decreases s.len(),
{
    if s.len() == 0 {
        Seq::empty()
    } else {
        spec_c_struct_names(s.drop_last()) + (if s.last() is StructRef {
            seq![spec_wire_type(s.last())]
        } else {
            Seq::empty()
        })
    }
}

/// Collect the wire struct name of every struct-reference shape in the set,
/// in order; the external binder is told exactly these type names.
pub fn c_struct_names(types: &Vec<IrType>) -> (r: Vec<String>)
    ensures
        views_of(r@) == spec_c_struct_names(types@),
{
    let mut out: Vec<String> = Vec::new();
    let n = types.len();
    let mut i: usize = 0;
    while i < n
        invariant
            n == types@.len(),
            i <= n,
            views_of(out@) == spec_c_struct_names(types@.subrange(0, i as int)),
        decreases n - i,
    {
        let is_sr = match &types[i] {
            IrType::StructRef(_) => true,
            _ => false,
        };
        if is_sr {
            let w = rust_wire_type(&types[i]);
            out.push(w);
        }
        proof {
            let pfx = types@.subrange(0, i + 1 as int);
            assert(pfx.drop_last() =~= types@.subrange(0, i as int));
            assert(pfx.last() == types@[i as int]);
            assert(views_of(out@) =~~= spec_c_struct_names(pfx));
        }
        i = i + 1;
    }
    proof {
        assert(types@.subrange(0, n as int) =~= types@);
    }
    out
}

/// A permutation of the declared structs keeps their names unique: every
/// value of the reordered sequence already occurs in the original, where no
/// name repeats.
proof fn lemma_permutation_keeps_names_unique(a: Seq<IrStruct>, b: Seq<IrStruct>)
    requires
        a.to_multiset() == b.to_multiset(),
        forall|i: int, j: int| 0 <= i < j < a.len() ==> a[i].name@ != a[j].name@,
    ensures
        forall|i: int, j: int| 0 <= i < j < b.len() ==> b[i].name@ != b[j].name@,
{
    broadcast use vstd::seq_lib::group_to_multiset_ensures;
    broadcast use vstd::multiset::group_multiset_axioms;

    assert forall|i: int, j: int| 0 <= i < j < b.len() implies b[i].name@ != b[j].name@ by {
        if b[i].name@ == b[j].name@ {
            assert(b.contains(b[i]));
            assert(b.to_multiset().count(b[i]) > 0);
            assert(a.to_multiset().count(b[i]) > 0);
            assert(a.contains(b[i]));
            let k = choose|k: int| 0 <= k < a.len() && a[k] == b[i];
            if b[i] == b[j] {
                assert(b.remove(i).to_multiset() == b.to_multiset().remove(b[i]));
                assert(b.remove(i)[j - 1] == b[j]);
                assert(b.remove(i).contains(b[j]));
                assert(b.remove(i).to_multiset().count(b[j]) > 0);
                assert(a.to_multiset().count(b[i]) >= 2);
                assert(a.remove(k).to_multiset() == a.to_multiset().remove(a[k]));
                assert(a.remove(k).to_multiset().count(b[i]) > 0);
                assert(a.remove(k).contains(b[i]));
                let l = choose|l: int| 0 <= l < a.remove(k).len() && a.remove(k)[l] == b[i];
                if l < k {
                    assert(a[l] == b[i]);
                    assert(a[l].name@ == a[k].name@);
                } else {
                    assert(a[l + 1] == b[i]);
                    assert(a[l + 1].name@ == a[k].name@);
                }
            } else {
                assert(b.contains(b[j]));
                assert(b.to_multiset().count(b[j]) > 0);
                assert(a.to_multiset().count(b[j]) > 0);
                assert(a.contains(b[j]));
                let l = choose|l: int| 0 <= l < a.len() && a[l] == b[j];
                assert(k != l);
                assert(a[k].name@ == a[l].name@);
            }
        }
    }
}

/// Canonicalize a raw IR file: resolve every reference, then fix the
/// emission order of the declared structs. The canonical file holds the
/// same functions and enums, and the same structs as a permutation; after
/// this pass the file is read-only.
pub fn transform(file: IrFile) -> (r: Result<IrFile, GenError>)
    ensures
        r is Ok <==> file_resolved(file),
        r matches Err(e) ==> e is Resolution,
        r matches Ok(out) ==> out.funcs == file.funcs && out.enums == file.enums
            && out.structs@.to_multiset() == file.structs@.to_multiset() && out.structs@.len()
            == file.structs@.len(),
        r matches Ok(out) ==> (crate::ir::wf(file) ==> crate::ir::wf(out)),
{
    match resolve(&file) {
        Err(e) => Err(e),
        Ok(()) => {
            let IrFile { funcs, structs, enums } = file;
            let ghost before = structs@;
            let ordered = emission_order(structs);
            proof {
                if crate::ir::wf(file) {
                    lemma_permutation_keeps_names_unique(before, ordered@);
                }
            }
            Ok(IrFile { funcs, structs: ordered, enums })
        },
    }
}

/// Decide that no two entries of a set share a structural shape.
pub fn ir_types_pairwise_distinct(s: &Vec<IrType>) -> (r: bool)
    ensures
        r == pairwise_distinct(s@),
{
    let n = s.len();
    let mut i: usize = 0;
    while i < n
        invariant
            n == s@.len(),
            i <= n,
            forall|a: int, b: int| 0 <= a < b < n && a < i ==> !ty_eq(s@[a], s@[b]),
        decreases n - i,
    {
        let mut j: usize = i + 1;
        while j < n
            invariant
                n == s@.len(),
                i < n,
                i < j <= n,
                forall|b: int| i < b < j ==> !ty_eq(s@[i as int], s@[b]),
            decreases n - j,
        {
            if ir_type_eq(&s[i], &s[j]) {
                return false;
            }
            j = j + 1;
        }
        i = i + 1;
    }
    true
}

} // verus!
