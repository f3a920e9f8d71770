use frb_codegen::bridge::{
    BridgeAction, BridgeEvent, BridgeState, binder_outcome, bridge_step, decl_file_import,
    generate_dummy, import_line, may_write_outputs, merge_header, modify_dart_wire_content,
    sanity_check,
};
use frb_codegen::codec::{NativeValue, WireValue, decode_value, encode_value};
use frb_codegen::errors::GenError;
use frb_codegen::ir::{classify_type, is_direct_return, IrField, IrFile, IrFunc, IrStruct, IrType,
    IrTypePrimitive, IrTypeStructRef};
use frb_codegen::text::{contains_str, join_strings, replace_all, str_eq, usize_to_string};
use frb_codegen::transformer::{c_struct_names, distinct_types, ir_types_pairwise_distinct, resolve, transform};

fn i64_ty() -> IrType {
    IrType::Primitive(IrTypePrimitive::I64)
}

fn named_struct(name: &str, fields: Vec<(&str, IrType)>) -> IrStruct {
    IrStruct {
        name: name.to_string(),
        fields: fields
            .into_iter()
            .map(|(n, t)| IrField { name: n.to_string(), ty: t })
            .collect(),
        is_fields_named: true,
        path: None,
    }
}

fn sref(name: &str) -> IrType {
    IrType::StructRef(IrTypeStructRef { name: name.to_string() })
}

#[test]
fn text_helpers() {
    assert!(str_eq("abc", "abc"));
    assert!(!str_eq("abc", "abd"));
    assert_eq!(usize_to_string(0), "0");
    assert_eq!(usize_to_string(10), "10");
    assert_eq!(usize_to_string(90217), "90217");
    let items = vec!["a".to_string(), "b".to_string(), "c".to_string()];
    assert_eq!(join_strings(&items, ", "), "a, b, c");
    assert_eq!(join_strings(&Vec::new(), ", "), "");
    assert!(contains_str("hello world", "o wo"));
    assert!(!contains_str("hello world", "worlds"));
    assert!(contains_str("x", ""));
    assert_eq!(replace_all("aXbXc", "X", "--"), "a--b--c");
}

#[test]
fn resolution_fails_on_dangling_reference() {
    let file = IrFile {
        funcs: vec![IrFunc {
            name: "f".to_string(),
            params: vec![IrField { name: "p".to_string(), ty: sref("Missing") }],
            output: i64_ty(),
            sync: false,
        }],
        structs: vec![],
        enums: vec![],
    };
    match resolve(&file) {
        Err(GenError::Resolution(who)) => assert_eq!(who, "f"),
        _ => panic!("dangling reference must be a resolution error"),
    }
    assert!(transform(file).is_err());
}

#[test]
fn resolution_accepts_a_closed_file() {
    let file = IrFile {
        funcs: vec![IrFunc {
            name: "f".to_string(),
            params: vec![IrField { name: "p".to_string(), ty: sref("Point") }],
            output: i64_ty(),
            sync: false,
        }],
        structs: vec![named_struct("Point", vec![("x", i64_ty()), ("y", i64_ty())])],
        enums: vec![],
    };
    assert!(resolve(&file).is_ok());
}

#[test]
fn distinct_types_deduplicates_structurally() {
    // The same struct shape reaches the surface from two functions and from
    // inside an optional; the set holds it once.
    let file = IrFile {
        funcs: vec![
            IrFunc {
                name: "f".to_string(),
                params: vec![IrField { name: "p".to_string(), ty: sref("Point") }],
                output: sref("Point"),
                sync: false,
            },
            IrFunc {
                name: "g".to_string(),
                params: vec![IrField {
                    name: "q".to_string(),
                    ty: IrType::Optional(Box::new(sref("Point"))),
                }],
                output: i64_ty(),
                sync: false,
            },
        ],
        structs: vec![named_struct("Point", vec![("x", i64_ty()), ("y", i64_ty())])],
        enums: vec![],
    };
    let tys = distinct_types(&file);
    assert!(ir_types_pairwise_distinct(&tys));
    let wire_names = c_struct_names(&tys);
    assert_eq!(wire_names, vec!["wire_Point".to_string()]);
}

#[test]
fn emission_order_is_a_permutation_with_dependencies_first() {
    // Outer nests Inner by value but is declared first; the order flips.
    let file = IrFile {
        funcs: vec![],
        structs: vec![
            named_struct("Outer", vec![("i", sref("Inner"))]),
            named_struct("Inner", vec![("x", i64_ty())]),
        ],
        enums: vec![],
    };
    let out = transform(file).unwrap();
    let names: Vec<&str> = out.structs.iter().map(|s| s.name.as_str()).collect();
    assert_eq!(names, vec!["Inner", "Outer"]);
}

#[test]
fn round_trip_recovers_a_struct_field_for_field() {
    let v = NativeValue::Struct(vec![
        NativeValue::Int(7),
        NativeValue::Truth(true),
        NativeValue::Opt(Some(Box::new(NativeValue::Int(-3)))),
        NativeValue::List(vec![NativeValue::Int(1), NativeValue::Int(2)]),
    ]);
    let w = encode_value(&v);
    let back = decode_value(&w);
    assert_eq!(back, v);
}

#[test]
fn null_wire_value_decodes_to_the_absent_optional() {
    assert_eq!(decode_value(&WireValue::Null), NativeValue::Opt(None));
    // The inner conversion is unreachable: a null inside a struct decodes
    // without touching the other fields' kinds.
    let w = WireValue::Fields(vec![WireValue::Null, WireValue::Scalar(5)]);
    assert_eq!(
        decode_value(&w),
        NativeValue::Struct(vec![NativeValue::Opt(None), NativeValue::Int(5)])
    );
}

#[test]
fn binder_failure_aborts_and_restores() {
    let (s, a) = bridge_step(BridgeState::Idle, BridgeEvent::Acquire);
    assert_eq!((s, a), (BridgeState::Swapped, BridgeAction::OverwriteSource));
    let (s, a) = bridge_step(BridgeState::Swapped, BridgeEvent::BinderExit(3));
    assert_eq!(a, BridgeAction::RestoreSource);
    assert_eq!(s, BridgeState::Failed);
    assert!(!may_write_outputs(&s));
    match binder_outcome(3) {
        Err(GenError::ToolInvocation(code)) => assert_eq!(code, 3),
        _ => panic!("non-zero exit must be a tool invocation error"),
    }
}

#[test]
fn binder_success_restores_then_allows_writes() {
    let (s, a) = bridge_step(BridgeState::Swapped, BridgeEvent::BinderExit(0));
    assert_eq!(a, BridgeAction::RestoreSource);
    assert_eq!(s, BridgeState::Restored);
    assert!(may_write_outputs(&s));
    assert!(binder_outcome(0).is_ok());
}

#[test]
fn sanity_check_fails_before_any_write_when_a_name_is_missing() {
    let names = vec!["wire_translate".to_string(), "wire_area".to_string()];
    let merged = "void wire_translate(int64_t port_);";
    match sanity_check(&names, merged) {
        Err(GenError::SanityCheck(missing)) => assert_eq!(missing, "wire_area"),
        _ => panic!("a missing exported name must fail the sanity check"),
    }
    let merged_ok = "void wire_translate(int64_t port_);\nvoid wire_area(void);";
    assert!(sanity_check(&names, merged_ok).is_ok());
}

#[test]
fn header_is_binder_output_plus_dummy_declarations() {
    let names = vec!["wire_a".to_string(), "wire_b".to_string()];
    let dummy = generate_dummy(&names);
    assert_eq!(dummy, "void wire_a(void);\nvoid wire_b(void);");
    let header = merge_header("typedef int64_t DartPort;", &dummy);
    assert_eq!(header, "typedef int64_t DartPort;\nvoid wire_a(void);\nvoid wire_b(void);");
}

#[test]
fn binder_boilerplate_is_renamed() {
    let out = modify_dart_wire_content("class NativeLibrary { NativeLibrary(); }", "FrbWire");
    assert_eq!(out, "class FrbWire { FrbWire(); }");
}

#[test]
fn decl_import_uses_the_relative_path() {
    assert_eq!(import_line("bridge_definitions.dart"), "import \"bridge_definitions.dart\";");
    let line = decl_file_import("/out/api/bridge_definitions.dart", "/out/api").unwrap();
    assert_eq!(line, "import \"bridge_definitions.dart\";");
    let up = decl_file_import("/out/defs.dart", "/out/impl").unwrap();
    assert_eq!(up, "import \"../defs.dart\";");
}

#[test]
fn error_messages_name_the_phase_and_entity() {
    assert_eq!(
        GenError::Parse("yield".to_string()).message(),
        "parse error: unsupported declaration yield"
    );
    assert_eq!(
        GenError::Resolution("Missing".to_string()).message(),
        "resolution error: unknown type Missing"
    );
    assert_eq!(GenError::ToolInvocation(1).message(), "tool invocation error: external binder failed");
    assert_eq!(
        GenError::SanityCheck("wire_f".to_string()).message(),
        "sanity check error: exported symbol missing from merged output: wire_f"
    );
}

#[test]
fn type_names_classify_into_shapes() {
    assert_eq!(classify_type("i64".to_string(), None).unwrap(), i64_ty());
    assert_eq!(
        classify_type("bool".to_string(), None).unwrap(),
        IrType::Primitive(IrTypePrimitive::Bool)
    );
    match classify_type("Option".to_string(), Some(i64_ty())).unwrap() {
        IrType::Optional(i) => assert_eq!(*i, i64_ty()),
        other => panic!("wrong shape: {:?}", other),
    }
    match classify_type("Vec".to_string(), Some(i64_ty())).unwrap() {
        IrType::List(i) => assert_eq!(*i, i64_ty()),
        other => panic!("wrong shape: {:?}", other),
    }
    match classify_type("Point".to_string(), None).unwrap() {
        IrType::StructRef(m) => assert_eq!(m.name, "Point"),
        other => panic!("wrong shape: {:?}", other),
    }
    assert!(classify_type("Box".to_string(), None).is_err());
    let sync = classify_type("SyncReturn".to_string(), Some(i64_ty())).unwrap();
    assert!(is_direct_return(&sync));
    assert!(!is_direct_return(&i64_ty()));
}
