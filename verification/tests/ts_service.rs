use roam::shapes::{ScalarType, TypeShape, VariantKind};
use roam::ts_service::{
    caller_method_decl, collect_named_types, generate_caller_interface, generate_named_types,
    generate_types, has_streaming, method_type_defs, ArgDetail, MethodDetail, ServiceDetail,
};

fn sc(s: ScalarType) -> TypeShape {
    TypeShape::Scalar(s)
}

fn arg(name: &str, ty: TypeShape) -> ArgDetail {
    ArgDetail { name: name.to_string(), ty }
}

fn method(name: &str, args: Vec<ArgDetail>, ret: TypeShape, doc: Option<&str>) -> MethodDetail {
    MethodDetail {
        method_name: name.to_string(),
        args,
        return_type: ret,
        doc: doc.map(|d| d.to_string()),
    }
}

fn calculator() -> ServiceDetail {
    ServiceDetail {
        name: "calculator".to_string(),
        methods: vec![
            method(
                "add",
                vec![arg("a", sc(ScalarType::I32)), arg("b", sc(ScalarType::I32))],
                sc(ScalarType::I32),
                Some("Adds two numbers."),
            ),
            method("ping", vec![], sc(ScalarType::Unit), None),
            method("echo_text", vec![arg("first_value", sc(ScalarType::String))], sc(ScalarType::String), None),
        ],
        doc: None,
    }
}

#[test]
fn request_and_response_types() {
    assert_eq!(
        generate_types(&calculator()),
        "// Type definitions\n\
export type AddRequest = [\n  number, // a\n  number, // b\n];\nexport type AddResponse = number;\n\n\
export type PingRequest = [];\nexport type PingResponse = void;\n\n\
export type EchoTextRequest = [string];\nexport type EchoTextResponse = string;\n\n"
    );
    let m = method("x", vec![], sc(ScalarType::Bool), None);
    assert_eq!(
        method_type_defs("Given", &m),
        "export type GivenRequest = [];\nexport type GivenResponse = boolean;\n\n"
    );
}

#[test]
fn caller_interface() {
    assert_eq!(
        generate_caller_interface(&calculator()),
        "// Caller interface for Calculator\nexport interface CalculatorCaller {\n  /** Adds two numbers. */\n  add(a: number, b: number): Promise<number>;\n  ping(): Promise<void>;\n  echoText(firstValue: string): Promise<string>;\n}\n\n"
    );
    let m = method("m", vec![arg("q", sc(ScalarType::U64))], sc(ScalarType::Unit), None);
    assert_eq!(
        caller_method_decl("given", &vec!["renamed".to_string()], &m),
        "  given(renamed: bigint): Promise<void>;\n"
    );
}

fn point_and_friends() -> ServiceDetail {
    let inner = TypeShape::Struct(Some("Inner".to_string()), vec![("v".to_string(), sc(ScalarType::U8))]);
    let point = || {
        TypeShape::Struct(
            Some("Point".to_string()),
            vec![
                ("x".to_string(), sc(ScalarType::I32)),
                (
                    "inner".to_string(),
                    TypeShape::Struct(Some("Inner".to_string()), vec![("v".to_string(), sc(ScalarType::U8))]),
                ),
            ],
        )
    };
    let item = TypeShape::Struct(Some("Item".to_string()), vec![("id".to_string(), sc(ScalarType::U32))]);
    let status = TypeShape::Enum(
        Some("Status".to_string()),
        vec![
            ("Active".to_string(), VariantKind::Unit),
            ("Count".to_string(), VariantKind::Newtype(sc(ScalarType::U32))),
        ],
    );
    let _ = inner;
    ServiceDetail {
        name: "shapes".to_string(),
        methods: vec![
            method(
                "f",
                vec![arg("p", point()), arg("items", TypeShape::List(Box::new(item)))],
                TypeShape::Option(Box::new(status)),
                None,
            ),
            method("g", vec![arg("again", point())], sc(ScalarType::Unit), None),
        ],
        doc: None,
    }
}

#[test]
fn named_types_are_collected_once_dependencies_first() {
    let s = point_and_friends();
    let named = collect_named_types(&s);
    let names: Vec<&str> = named.iter().map(|(n, _)| n.as_str()).collect();
    assert_eq!(names, vec!["Inner", "Point", "Item", "Status"]);
    assert_eq!(
        generate_named_types(&named),
        "// Named type definitions\n\
export interface Inner {\n  v: number;\n}\n\n\
export interface Point {\n  x: number;\n  inner: Inner;\n}\n\n\
export interface Item {\n  id: number;\n}\n\n\
export type Status =\n  | { tag: 'Active' }\n  | { tag: 'Count'; value: number };\n\n"
    );
    assert_eq!(generate_named_types(&Vec::new()), "");
    assert!(collect_named_types(&calculator()).is_empty());
}

#[test]
fn streaming_detection() {
    assert!(!has_streaming(&calculator()));
    let s = ServiceDetail {
        name: "s".to_string(),
        methods: vec![method(
            "sum",
            vec![arg("numbers", TypeShape::Rx(Box::new(sc(ScalarType::I32))))],
            sc(ScalarType::I64),
            None,
        )],
        doc: None,
    };
    assert!(has_streaming(&s));
    let r = ServiceDetail {
        name: "r".to_string(),
        methods: vec![method("range", vec![], TypeShape::Tx(Box::new(sc(ScalarType::U32))), None)],
        doc: None,
    };
    assert!(has_streaming(&r));
}
