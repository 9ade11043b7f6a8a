use roam::shapes::{
    extract_result_types, format_handler_return_type, is_stream, rust_scalar_type,
    rust_type_base, rust_type_server_arg, rust_type_server_return, ts_field_access,
    ts_scalar_type, ts_type, ts_type_base_named, ts_type_client_arg, ts_type_client_return,
    ts_type_server_arg, ts_type_server_return, RustCodegenOptions, ScalarType, TypeShape,
    VariantKind,
};

fn sc(s: ScalarType) -> TypeShape {
    TypeShape::Scalar(s)
}

fn bx(t: TypeShape) -> Box<TypeShape> {
    Box::new(t)
}

fn field(name: &str, t: TypeShape) -> (String, TypeShape) {
    (name.to_string(), t)
}

fn make_struct(name: &str, fields: Vec<(String, TypeShape)>) -> TypeShape {
    TypeShape::Struct(Some(name.to_string()), fields)
}

fn result_enum(ok: TypeShape, err: TypeShape) -> TypeShape {
    TypeShape::Enum(
        None,
        vec![
            ("Ok".to_string(), VariantKind::Newtype(ok)),
            ("Err".to_string(), VariantKind::Newtype(err)),
        ],
    )
}

#[test]
fn bool_type() {
    assert_eq!(rust_type_base(&sc(ScalarType::Bool)), "bool");
}

#[test]
fn unsigned_integers() {
    assert_eq!(rust_type_base(&sc(ScalarType::U8)), "u8");
    assert_eq!(rust_type_base(&sc(ScalarType::U16)), "u16");
    assert_eq!(rust_type_base(&sc(ScalarType::U32)), "u32");
    assert_eq!(rust_type_base(&sc(ScalarType::U64)), "u64");
    assert_eq!(rust_type_base(&sc(ScalarType::U128)), "u128");
}

#[test]
fn signed_integers() {
    assert_eq!(rust_type_base(&sc(ScalarType::I8)), "i8");
    assert_eq!(rust_type_base(&sc(ScalarType::I16)), "i16");
    assert_eq!(rust_type_base(&sc(ScalarType::I32)), "i32");
    assert_eq!(rust_type_base(&sc(ScalarType::I64)), "i64");
    assert_eq!(rust_type_base(&sc(ScalarType::I128)), "i128");
}

#[test]
fn floats() {
    assert_eq!(rust_type_base(&sc(ScalarType::F32)), "f32");
    assert_eq!(rust_type_base(&sc(ScalarType::F64)), "f64");
}

#[test]
fn char_type() {
    assert_eq!(rust_type_base(&sc(ScalarType::Char)), "char");
}

#[test]
fn string_type() {
    assert_eq!(rust_type_base(&sc(ScalarType::String)), "::std::string::String");
}

#[test]
fn unit_type() {
    assert_eq!(rust_type_base(&sc(ScalarType::Unit)), "()");
}

#[test]
fn bytes_type() {
    assert_eq!(
        rust_type_base(&TypeShape::List(bx(sc(ScalarType::U8)))),
        "::std::vec::Vec<u8>"
    );
}

#[test]
fn list_of_primitives() {
    assert_eq!(
        rust_type_base(&TypeShape::List(bx(sc(ScalarType::I32)))),
        "::std::vec::Vec<i32>"
    );
}

#[test]
fn list_of_strings() {
    assert_eq!(
        rust_type_base(&TypeShape::List(bx(sc(ScalarType::String)))),
        "::std::vec::Vec<::std::string::String>"
    );
}

#[test]
fn option_of_primitive() {
    assert_eq!(
        rust_type_base(&TypeShape::Option(bx(sc(ScalarType::U64)))),
        "::std::option::Option<u64>"
    );
}

#[test]
fn option_of_string() {
    assert_eq!(
        rust_type_base(&TypeShape::Option(bx(sc(ScalarType::String)))),
        "::std::option::Option<::std::string::String>"
    );
}

#[test]
fn array_type() {
    assert_eq!(
        rust_type_base(&TypeShape::Array(bx(sc(ScalarType::U8)), 32)),
        "[u8; 32]"
    );
}

#[test]
fn map_type() {
    assert_eq!(
        rust_type_base(&TypeShape::MapOf(bx(sc(ScalarType::String)), bx(sc(ScalarType::I32)))),
        "::std::collections::HashMap<::std::string::String, i32>"
    );
}

#[test]
fn set_type() {
    assert_eq!(
        rust_type_base(&TypeShape::SetOf(bx(sc(ScalarType::String)))),
        "::std::collections::HashSet<::std::string::String>"
    );
}

#[test]
fn tuple_type() {
    let t = TypeShape::Tuple(vec![
        sc(ScalarType::U32),
        sc(ScalarType::String),
        sc(ScalarType::Bool),
    ]);
    assert_eq!(rust_type_base(&t), "(u32, ::std::string::String, bool)");
}

#[test]
fn empty_tuple() {
    assert_eq!(rust_type_base(&TypeShape::Tuple(vec![])), "()");
}

#[test]
fn single_element_tuple() {
    assert_eq!(rust_type_base(&TypeShape::Tuple(vec![sc(ScalarType::I32)])), "(i32)");
}

#[test]
fn named_struct() {
    let t = make_struct(
        "MyStruct",
        vec![field("x", sc(ScalarType::I32)), field("y", sc(ScalarType::I32))],
    );
    assert_eq!(rust_type_base(&t), "super::MyStruct");
}

#[test]
fn named_enum() {
    let t = TypeShape::Enum(
        Some("MyEnum".to_string()),
        vec![
            ("A".to_string(), VariantKind::Unit),
            ("B".to_string(), VariantKind::Newtype(sc(ScalarType::I32))),
        ],
    );
    assert_eq!(rust_type_base(&t), "super::MyEnum");
}

#[test]
fn result_pattern_recognized() {
    let t = result_enum(sc(ScalarType::String), sc(ScalarType::I32));
    assert_eq!(
        rust_type_base(&t),
        "::std::result::Result<::std::string::String, i32>"
    );
}

#[test]
fn result_with_complex_types() {
    let t = TypeShape::Result(
        bx(TypeShape::List(bx(sc(ScalarType::U8)))),
        bx(sc(ScalarType::String)),
    );
    assert_eq!(
        rust_type_base(&t),
        "::std::result::Result<::std::vec::Vec<u8>, ::std::string::String>"
    );
}

#[test]
fn result_with_named_error_type() {
    let my_error = make_struct("MyError", vec![field("message", sc(ScalarType::String))]);
    let t = result_enum(sc(ScalarType::Unit), my_error);
    assert_eq!(rust_type_base(&t), "::std::result::Result<(), super::MyError>");
}

#[test]
fn vec_of_option() {
    let t = TypeShape::List(bx(TypeShape::Option(bx(sc(ScalarType::I32)))));
    assert_eq!(
        rust_type_base(&t),
        "::std::vec::Vec<::std::option::Option<i32>>"
    );
}

#[test]
fn option_of_vec() {
    let t = TypeShape::Option(bx(TypeShape::List(bx(sc(ScalarType::String)))));
    assert_eq!(
        rust_type_base(&t),
        "::std::option::Option<::std::vec::Vec<::std::string::String>>"
    );
}

#[test]
fn map_of_vec_to_option() {
    let t = TypeShape::MapOf(
        bx(sc(ScalarType::String)),
        bx(TypeShape::Option(bx(TypeShape::List(bx(sc(ScalarType::U8)))))),
    );
    assert_eq!(
        rust_type_base(&t),
        "::std::collections::HashMap<::std::string::String, ::std::option::Option<::std::vec::Vec<u8>>>"
    );
}

#[test]
fn vec_of_named_struct() {
    let item = make_struct("Item", vec![field("id", sc(ScalarType::U32))]);
    let t = TypeShape::List(bx(item));
    assert_eq!(rust_type_base(&t), "::std::vec::Vec<super::Item>");
}

#[test]
fn option_of_named_enum() {
    let status = TypeShape::Enum(
        Some("Status".to_string()),
        vec![
            ("Active".to_string(), VariantKind::Unit),
            ("Inactive".to_string(), VariantKind::Unit),
        ],
    );
    let t = TypeShape::Option(bx(status));
    assert_eq!(rust_type_base(&t), "::std::option::Option<super::Status>");
}

#[test]
fn tuple_of_mixed_types() {
    let point = make_struct(
        "Point",
        vec![field("x", sc(ScalarType::I32)), field("y", sc(ScalarType::I32))],
    );
    let t = TypeShape::Tuple(vec![
        sc(ScalarType::U32),
        TypeShape::Option(bx(sc(ScalarType::String))),
        point,
    ]);
    assert_eq!(
        rust_type_base(&t),
        "(u32, ::std::option::Option<::std::string::String>, super::Point)"
    );
}

#[test]
fn rust_remaining_shapes() {
    assert_eq!(rust_type_base(&TypeShape::Slice(bx(sc(ScalarType::U16)))), "&[u16]");
    assert_eq!(rust_type_base(&TypeShape::Tx(bx(sc(ScalarType::U32)))), "Tx<u32>");
    assert_eq!(rust_type_base(&TypeShape::Rx(bx(sc(ScalarType::Str)))), "Rx<&str>");
    assert_eq!(rust_type_base(&TypeShape::Pointer(bx(sc(ScalarType::USize)))), "usize");
    assert_eq!(rust_type_base(&TypeShape::Opaque), "/* opaque */");
    assert_eq!(rust_scalar_type(ScalarType::Other), "/* unknown scalar */");
    assert_eq!(rust_scalar_type(ScalarType::CowStr), "&str");
    let anon = TypeShape::Struct(
        None,
        vec![field("a", sc(ScalarType::I8)), field("b", sc(ScalarType::ISize))],
    );
    assert_eq!(rust_type_base(&anon), "(i8, isize)");
}

#[test]
fn rust_anonymous_enum_that_is_not_a_result() {
    let t = TypeShape::Enum(
        None,
        vec![
            ("Red".to_string(), VariantKind::Unit),
            ("Green".to_string(), VariantKind::Unit),
            ("Blue".to_string(), VariantKind::Unit),
        ],
    );
    assert_eq!(rust_type_base(&t), "/* enum(Red|Green|Blue) */");
    let unit_ok = TypeShape::Enum(
        None,
        vec![
            ("Ok".to_string(), VariantKind::Unit),
            ("Err".to_string(), VariantKind::Newtype(sc(ScalarType::U8))),
        ],
    );
    assert_eq!(rust_type_base(&unit_ok), "/* enum(Ok|Err) */");
    let swapped = result_enum(sc(ScalarType::U8), sc(ScalarType::Bool));
    assert_eq!(rust_type_base(&swapped), "::std::result::Result<u8, bool>");
}

#[test]
fn server_types_keep_channel_direction() {
    let tx = TypeShape::Tx(bx(sc(ScalarType::I32)));
    let rx = TypeShape::Rx(bx(TypeShape::List(bx(sc(ScalarType::String)))));
    assert_eq!(rust_type_server_arg(&tx), "Tx<i32>");
    assert_eq!(rust_type_server_return(&rx), "Rx<::std::vec::Vec<::std::string::String>>");
    assert_eq!(rust_type_server_arg(&sc(ScalarType::U64)), "u64");
    assert!(is_stream(&tx));
    assert!(is_stream(&rx));
    assert!(!is_stream(&sc(ScalarType::U64)));
}

#[test]
fn handler_return_types() {
    assert_eq!(
        format_handler_return_type(&sc(ScalarType::U32)),
        "Result<u32, RoamError<Never>>"
    );
    let fallible = result_enum(sc(ScalarType::F64), make_struct("DivideError", vec![]));
    assert_eq!(
        format_handler_return_type(&fallible),
        "Result<f64, RoamError<super::DivideError>>"
    );
    let (ok, err) = extract_result_types(&fallible);
    assert_eq!(rust_type_base(ok), "f64");
    assert_eq!(rust_type_base(err.unwrap()), "super::DivideError");
    let plain = sc(ScalarType::Bool);
    let (ok, err) = extract_result_types(&plain);
    assert_eq!(rust_type_base(ok), "bool");
    assert!(err.is_none());
}

#[test]
fn codegen_options_default_without_tracing() {
    let o = RustCodegenOptions::default();
    assert!(!o.tracing);
}

#[test]
fn ts_scalars() {
    assert_eq!(ts_scalar_type(ScalarType::Bool), "boolean");
    assert_eq!(ts_scalar_type(ScalarType::U32), "number");
    assert_eq!(ts_scalar_type(ScalarType::F64), "number");
    assert_eq!(ts_scalar_type(ScalarType::U64), "bigint");
    assert_eq!(ts_scalar_type(ScalarType::ISize), "bigint");
    assert_eq!(ts_scalar_type(ScalarType::Char), "string");
    assert_eq!(ts_scalar_type(ScalarType::String), "string");
    assert_eq!(ts_scalar_type(ScalarType::Unit), "void");
    assert_eq!(ts_scalar_type(ScalarType::Other), "unknown");
}

#[test]
fn ts_containers_and_named_types() {
    assert_eq!(ts_type_base_named(&TypeShape::List(bx(sc(ScalarType::U8)))), "Uint8Array");
    assert_eq!(ts_type_base_named(&TypeShape::List(bx(sc(ScalarType::I32)))), "number[]");
    assert_eq!(
        ts_type_base_named(&TypeShape::Option(bx(sc(ScalarType::String)))),
        "string | null"
    );
    assert_eq!(ts_type_base_named(&TypeShape::Array(bx(sc(ScalarType::U16)), 4)), "[number; 4]");
    assert_eq!(
        ts_type_base_named(&TypeShape::MapOf(bx(sc(ScalarType::String)), bx(sc(ScalarType::U64)))),
        "Map<string, bigint>"
    );
    assert_eq!(ts_type_base_named(&TypeShape::SetOf(bx(sc(ScalarType::Bool)))), "Set<boolean>");
    let tuple = TypeShape::Tuple(vec![sc(ScalarType::U8), sc(ScalarType::String)]);
    assert_eq!(ts_type_base_named(&tuple), "[number, string]");
    let point = make_struct("Point", vec![field("x", sc(ScalarType::I32))]);
    assert_eq!(ts_type(&point), "Point");
    let anon = TypeShape::Struct(
        None,
        vec![field("x", sc(ScalarType::I32)), field("label", sc(ScalarType::String))],
    );
    assert_eq!(ts_type(&anon), "{ x: number; label: string }");
    assert_eq!(ts_type(&TypeShape::Slice(bx(sc(ScalarType::U8)))), "number[]");
    assert_eq!(ts_type(&TypeShape::Pointer(bx(sc(ScalarType::Bool)))), "boolean");
    assert_eq!(ts_type(&TypeShape::Opaque), "unknown");
    let result = TypeShape::Result(bx(sc(ScalarType::U32)), bx(sc(ScalarType::String)));
    assert_eq!(
        ts_type(&result),
        "{ ok: true; value: number } | { ok: false; error: string }"
    );
}

#[test]
fn ts_anonymous_enums() {
    let e = TypeShape::Enum(
        None,
        vec![
            ("Idle".to_string(), VariantKind::Unit),
            ("Count".to_string(), VariantKind::Newtype(sc(ScalarType::U32))),
            (
                "Pair".to_string(),
                VariantKind::Tuple(vec![field("0", sc(ScalarType::U8)), field("1", sc(ScalarType::Bool))]),
            ),
            (
                "Named".to_string(),
                VariantKind::Struct(vec![field("name", sc(ScalarType::String))]),
            ),
        ],
    );
    assert_eq!(
        ts_type(&e),
        "{ tag: 'Idle' } | { tag: 'Count'; value: number } | { tag: 'Pair'; 0: number; 1: boolean } | { tag: 'Named'; name: string }"
    );
    let list = TypeShape::List(bx(TypeShape::Enum(
        None,
        vec![("A".to_string(), VariantKind::Unit)],
    )));
    assert_eq!(ts_type(&list), "({ tag: 'A' })[]");
}

#[test]
fn ts_directional_types() {
    let t = TypeShape::Tx(bx(TypeShape::Rx(bx(sc(ScalarType::String)))));
    assert_eq!(ts_type_client_arg(&t), "Tx<Rx<string>>");
    assert_eq!(ts_type_client_return(&t), "Tx<Rx<string>>");
    assert_eq!(ts_type_server_arg(&t), "Tx<Rx<string>>");
    assert_eq!(ts_type_server_return(&t), "Tx<Rx<string>>");
    assert_eq!(ts_type_base_named(&t), "Tx<Rx<string>>");
    assert_eq!(ts_type_client_arg(&sc(ScalarType::I64)), "bigint");
}

#[test]
fn ts_field_access_forms() {
    assert_eq!(ts_field_access("value", "0"), "value[0]");
    assert_eq!(ts_field_access("value", "12"), "value[12]");
    assert_eq!(ts_field_access("value", "name"), "value.name");
    assert_eq!(ts_field_access("v", ""), "v.");
}
