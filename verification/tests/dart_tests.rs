use frb_codegen::dart_gen::{dart_type, generate_dart_class, generate_dart_decl, generate_dart_impl, DartBasicCode};
use frb_codegen::ir::{IrField, IrFunc, IrStruct, IrType, IrTypePrimitive, IrTypeStructRef};

fn i64_ty() -> IrType {
    IrType::Primitive(IrTypePrimitive::I64)
}

#[test]
fn dart_type_spelling() {
    assert_eq!(dart_type(&i64_ty()), "int");
    assert_eq!(dart_type(&IrType::Primitive(IrTypePrimitive::Bool)), "bool");
    assert_eq!(dart_type(&IrType::Optional(Box::new(i64_ty()))), "int?");
    assert_eq!(dart_type(&IrType::List(Box::new(i64_ty()))), "List<int>");
    assert_eq!(dart_type(&IrType::SyncReturn(Box::new(i64_ty()))), "int");
}

#[test]
fn point_data_class_decodes_x_then_y() {
    let s = IrStruct {
        name: "Point".to_string(),
        fields: vec![
            IrField { name: "x".to_string(), ty: i64_ty() },
            IrField { name: "y".to_string(), ty: i64_ty() },
        ],
        is_fields_named: true,
        path: None,
    };
    let text = generate_dart_class(&s);
    assert_eq!(
        text,
        "class Point {\n  final int x;\n  final int y;\n  factory Point.decode(List<dynamic> raw) \
         => Point(raw[0] as int, raw[1] as int);\n}\n"
    );
    let x_read = text.find("raw[0]").unwrap();
    let y_read = text.find("raw[1]").unwrap();
    assert!(x_read < y_read);
}

#[test]
fn declaration_and_implementation_streams() {
    let f = IrFunc {
        name: "translate".to_string(),
        params: vec![
            IrField {
                name: "p".to_string(),
                ty: IrType::StructRef(IrTypeStructRef { name: "Point".to_string() }),
            },
            IrField { name: "dx".to_string(), ty: i64_ty() },
        ],
        output: IrType::StructRef(IrTypeStructRef { name: "Point".to_string() }),
        sync: false,
    };
    assert_eq!(generate_dart_decl(&f), "Future<Point> translate(Point p, int dx);");
    assert_eq!(
        generate_dart_impl(&f),
        "Future<Point> translate(Point p, int dx) => \
         wire_translate(_api2wire(p), _api2wire(dx)).then((raw) => Point.decode(raw));"
    );
    let sync_f = IrFunc { sync: true, output: IrType::SyncReturn(Box::new(i64_ty())), ..f };
    assert_eq!(generate_dart_decl(&sync_f), "int translate(Point p, int dx);");
    assert_eq!(
        generate_dart_impl(&sync_f),
        "int translate(Point p, int dx) => wire_translate(_api2wire(p), _api2wire(dx)) as int;"
    );
}

#[test]
fn streams_concatenate_section_by_section() {
    let a = DartBasicCode {
        import: "import \"dart:ffi\";".to_string(),
        part: String::new(),
        body: "class A {}".to_string(),
    };
    let b = DartBasicCode {
        import: String::new(),
        part: String::new(),
        body: "class B {}".to_string(),
    };
    let merged = a.concat_with(&b);
    assert_eq!(merged.to_text(), "import \"dart:ffi\";\n\nclass A {}class B {}");
    let empty = DartBasicCode::new();
    assert_eq!(empty.to_text(), "\n\n");
}
