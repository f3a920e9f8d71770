use frb_codegen::ir::{
    IrField, IrFile, IrFunc, IrStruct, IrType, IrTypeEnumRef, IrTypePrimitive, IrTypeStructRef,
    check_wf, ir_type_eq,
};
use frb_codegen::registry::{rust_api_type, rust_wire_is_pointer, rust_wire_modifier, rust_wire_type, zero_expr};
use frb_codegen::ty_struct::TypeStructRefGenerator;
use frb_codegen::rust_gen::{ExportFuncCollector, effective_func_names, generate_rust, generate_wire_func, generate_wire_struct};

fn i64_ty() -> IrType {
    IrType::Primitive(IrTypePrimitive::I64)
}

fn point_struct() -> IrStruct {
    IrStruct {
        name: "Point".to_string(),
        fields: vec![
            IrField { name: "x".to_string(), ty: i64_ty() },
            IrField { name: "y".to_string(), ty: i64_ty() },
        ],
        is_fields_named: true,
        path: None,
    }
}

fn point_file() -> IrFile {
    IrFile {
        funcs: vec![IrFunc {
            name: "translate".to_string(),
            params: vec![IrField {
                name: "p".to_string(),
                ty: IrType::StructRef(IrTypeStructRef { name: "Point".to_string() }),
            }],
            output: IrType::StructRef(IrTypeStructRef { name: "Point".to_string() }),
            sync: false,
        }],
        structs: vec![point_struct()],
        enums: vec![],
    }
}

#[test]
fn registry_wire_types() {
    assert_eq!(rust_wire_type(&i64_ty()), "i64");
    let sref = IrType::StructRef(IrTypeStructRef { name: "Point".to_string() });
    assert_eq!(rust_wire_type(&sref), "wire_Point");
    assert!(!rust_wire_is_pointer(&sref));
    let opt = IrType::Optional(Box::new(sref));
    assert!(rust_wire_is_pointer(&opt));
    assert_eq!(rust_wire_modifier(&opt), "*mut ");
    assert_eq!(rust_wire_type(&opt), "wire_Point");
    assert_eq!(zero_expr(&opt), "core::ptr::null_mut()");
    assert_eq!(zero_expr(&i64_ty()), "Default::default()");
    let list = IrType::List(Box::new(i64_ty()));
    assert_eq!(rust_wire_type(&list), "wire_list_i64");
    assert_eq!(rust_api_type(&list), "Vec<i64>");
    let eref = IrType::EnumRef(IrTypeEnumRef { name: "Shape".to_string() });
    assert_eq!(rust_wire_type(&eref), "wire_Shape");
    assert!(rust_wire_is_pointer(&eref));
}

#[test]
fn registry_output_is_deterministic() {
    let a = IrType::Optional(Box::new(IrType::StructRef(IrTypeStructRef {
        name: "Point".to_string(),
    })));
    let b = IrType::Optional(Box::new(IrType::StructRef(IrTypeStructRef {
        name: "Point".to_string(),
    })));
    assert!(ir_type_eq(&a, &b));
    assert_eq!(rust_wire_type(&a), rust_wire_type(&b));
    assert_eq!(rust_wire_type(&a), rust_wire_type(&a));
    assert_eq!(rust_wire_modifier(&a), rust_wire_modifier(&b));
    assert_eq!(rust_api_type(&a), rust_api_type(&b));
}

#[test]
fn point_wire_struct_fields_in_order() {
    let file = point_file();
    assert!(check_wf(&file));
    let gen = TypeStructRefGenerator {
        ir: IrTypeStructRef { name: "Point".to_string() },
        ir_file: &file,
    };
    let fields = gen.wire_struct_fields().unwrap();
    assert_eq!(fields, vec!["x: i64".to_string(), "y: i64".to_string()]);
}

#[test]
fn point_zero_constructor_sets_defaults() {
    let file = point_file();
    let gen = TypeStructRefGenerator {
        ir: IrTypeStructRef { name: "Point".to_string() },
        ir_file: &file,
    };
    let mut collector = ExportFuncCollector::new();
    let text = gen.new_with_nullptr(&mut collector);
    assert_eq!(
        text,
        "impl NewWithNullPtr for wire_Point {\n    fn new_with_null_ptr() -> Self {\n        Self {\n\
         x: Default::default(),\ny: Default::default(),\n        }\n    }\n}\n"
    );
    let x_at = text.find("x: Default::default()").unwrap();
    let y_at = text.find("y: Default::default()").unwrap();
    assert!(x_at < y_at);
    assert!(collector.names.is_empty());
}

#[test]
fn point_wire2api_body_in_order() {
    let file = point_file();
    let gen = TypeStructRefGenerator {
        ir: IrTypeStructRef { name: "Point".to_string() },
        ir_file: &file,
    };
    let body = gen.wire2api_body().unwrap();
    assert_eq!(body, "Point{x: self.x.wire2api(),y: self.y.wire2api()}");
}

#[test]
fn positional_struct_uses_parens_and_no_labels() {
    let file = IrFile {
        funcs: vec![],
        structs: vec![IrStruct {
            name: "Pair".to_string(),
            fields: vec![
                IrField { name: "0".to_string(), ty: i64_ty() },
                IrField { name: "1".to_string(), ty: i64_ty() },
            ],
            is_fields_named: false,
            path: None,
        }],
        enums: vec![],
    };
    let gen = TypeStructRefGenerator {
        ir: IrTypeStructRef { name: "Pair".to_string() },
        ir_file: &file,
    };
    let body = gen.wire2api_body().unwrap();
    assert_eq!(body, "Pair(self.0.wire2api(),self.1.wire2api())");
}

#[test]
fn intodart_walks_fields_in_order() {
    let file = point_file();
    let gen = TypeStructRefGenerator {
        ir: IrTypeStructRef { name: "Point".to_string() },
        ir_file: &file,
    };
    let text = gen.impl_intodart();
    assert!(text.contains("impl support::IntoDart for Point"));
    let x_at = text.find("self.x.into_dart()").unwrap();
    let y_at = text.find("self.y.into_dart()").unwrap();
    assert!(x_at < y_at);
    assert!(text.contains("impl support::IntoDartExceptPrimitive for Point {}"));
}

#[test]
fn imports_come_from_the_declared_path() {
    let mut s = point_struct();
    s.path = Some(vec!["crate".to_string(), "api".to_string()]);
    let file = IrFile { funcs: vec![], structs: vec![s], enums: vec![] };
    let gen = TypeStructRefGenerator {
        ir: IrTypeStructRef { name: "Point".to_string() },
        ir_file: &file,
    };
    assert_eq!(gen.imports().unwrap(), "use crate::api;");
    let file2 = point_file();
    let gen2 = TypeStructRefGenerator {
        ir: IrTypeStructRef { name: "Point".to_string() },
        ir_file: &file2,
    };
    assert!(gen2.imports().is_none());
}

#[test]
fn wire_struct_declaration_lists_fields_in_order() {
    let file = point_file();
    let gen = TypeStructRefGenerator {
        ir: IrTypeStructRef { name: "Point".to_string() },
        ir_file: &file,
    };
    let text = generate_wire_struct(&gen);
    assert_eq!(text, "#[repr(C)]\npub struct wire_Point {\n    x: i64,\n    y: i64,\n}\n");
}

#[test]
fn sync_return_boundary_returns_directly_without_transport_post() {
    let f = IrFunc {
        name: "area".to_string(),
        params: vec![IrField {
            name: "p".to_string(),
            ty: IrType::StructRef(IrTypeStructRef { name: "Point".to_string() }),
        }],
        output: IrType::SyncReturn(Box::new(i64_ty())),
        sync: true,
    };
    let mut collector = ExportFuncCollector::new();
    let text = generate_wire_func(&f, &mut collector);
    assert!(!text.contains("support::post"));
    assert!(text.contains("-> support::WireSyncReturnStruct"));
    assert!(text.contains("support::wire_sync_result(area(p.wire2api()))"));
    assert_eq!(collector.names, vec!["wire_area".to_string()]);
}

#[test]
fn posted_boundary_goes_through_transport() {
    let f = IrFunc {
        name: "translate".to_string(),
        params: vec![IrField { name: "p".to_string(), ty: i64_ty() }],
        output: i64_ty(),
        sync: false,
    };
    let mut collector = ExportFuncCollector::new();
    let text = generate_wire_func(&f, &mut collector);
    assert!(text.contains("support::post(port_, translate(p.wire2api()))"));
    assert!(text.contains("wire_translate(port_: i64, p: i64)"));
}

#[test]
fn generate_rust_tracks_every_exported_name() {
    let file = point_file();
    assert!(check_wf(&file));
    let (code, collector) = generate_rust(&file);
    assert_eq!(collector.names, vec!["wire_translate".to_string()]);
    assert!(code.contains("pub struct wire_Point"));
    assert!(code.contains("wire_translate"));
}

#[test]
fn effective_names_keep_generated_then_extra_order() {
    let generated = vec!["wire_translate".to_string()];
    let extra = vec!["frb_dummy_entry".to_string()];
    let all = effective_func_names(&generated, &extra);
    assert_eq!(all, vec!["wire_translate".to_string(), "frb_dummy_entry".to_string()]);
}
