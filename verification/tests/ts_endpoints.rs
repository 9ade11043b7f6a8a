use roam::shapes::{ScalarType, TypeShape};
use roam::ts_endpoints::{
    client_method_text, generate_client_impl, generate_handler_interface, generate_service,
};
use roam::ts_service::{ArgDetail, MethodDetail, ServiceDetail};

fn sc(s: ScalarType) -> TypeShape {
    TypeShape::Scalar(s)
}

fn arg(name: &str, ty: TypeShape) -> ArgDetail {
    ArgDetail { name: name.to_string(), ty }
}

fn method(name: &str, args: Vec<ArgDetail>, ret: TypeShape, doc: Option<&str>) -> MethodDetail {
    MethodDetail {
        method_name: name.to_string(),
        args,
        return_type: ret,
        doc: doc.map(|d| d.to_string()),
    }
}

fn calculator() -> ServiceDetail {
    ServiceDetail {
        name: "calculator".to_string(),
        methods: vec![
            method(
                "add",
                vec![arg("a", sc(ScalarType::I32)), arg("b", sc(ScalarType::I32))],
                sc(ScalarType::I32),
                Some("Adds two numbers."),
            ),
            method("ping", vec![], sc(ScalarType::Unit), None),
            method(
                "echo_text",
                vec![arg("first_value", sc(ScalarType::String))],
                sc(ScalarType::String),
                None,
            ),
        ],
        doc: None,
    }
}

fn ids() -> Vec<String> {
    vec!["0x1".to_string(), "0x2".to_string(), "0x3".to_string()]
}

const CLIENT: &str = "// Client implementation for Calculator
export class CalculatorClient<T extends MessageTransport = MessageTransport> implements CalculatorCaller {
  private conn: Connection<T>;

  constructor(conn: Connection<T>) {
    this.conn = conn;
  }

  /** Adds two numbers. */
  async add(a: number, b: number): Promise<number> {
    const payload = concat(encodeI32(a), encodeI32(b));
    const response = await this.conn.call(0x1n, payload);
    const buf = response;
    let offset = decodeRpcResult(buf, 0);
    const _result_r = decodeI32(buf, offset); const result = _result_r.value; offset = _result_r.next;
    return result;
  }

  async ping(): Promise<void> {
    const payload = new Uint8Array(0);
    const response = await this.conn.call(0x2n, payload);
    const buf = response;
    let offset = decodeRpcResult(buf, 0);
    const result = undefined;
    return result;
  }

  async echoText(firstValue: string): Promise<string> {
    const payload = encodeString(firstValue);
    const response = await this.conn.call(0x3n, payload);
    const buf = response;
    let offset = decodeRpcResult(buf, 0);
    const _result_r = decodeString(buf, offset); const result = _result_r.value; offset = _result_r.next;
    return result;
  }

}

";

const HANDLER: &str = "// Handler interface for Calculator
export interface CalculatorHandler {
  add(a: number, b: number): Promise<number> | number;
  ping(): Promise<void> | void;
  echoText(firstValue: string): Promise<string> | string;
}

// Method handlers for Calculator
export const calculator_methodHandlers = new Map<bigint, MethodHandler<CalculatorHandler>>([
  [0x1n, async (handler, payload) => {
    try {
      const buf = payload;
      let offset = 0;
      const _a_r = decodeI32(buf, offset); const a = _a_r.value; offset = _a_r.next;
      const _b_r = decodeI32(buf, offset); const b = _b_r.value; offset = _b_r.next;
      if (offset !== buf.length) throw new Error(\"args: trailing bytes\");
      const result = await handler.add(a, b);
      return encodeResultOk(encodeI32(result));
    } catch (e) {
      return encodeResultErr(encodeInvalidPayload());
    }
  }],
  [0x2n, async (handler, payload) => {
    try {
      const buf = payload;
      let offset = 0;
      if (offset !== buf.length) throw new Error(\"args: trailing bytes\");
      const result = await handler.ping();
      return encodeResultOk(new Uint8Array(0));
    } catch (e) {
      return encodeResultErr(encodeInvalidPayload());
    }
  }],
  [0x3n, async (handler, payload) => {
    try {
      const buf = payload;
      let offset = 0;
      const _firstValue_r = decodeString(buf, offset); const firstValue = _firstValue_r.value; offset = _firstValue_r.next;
      if (offset !== buf.length) throw new Error(\"args: trailing bytes\");
      const result = await handler.echoText(firstValue);
      return encodeResultOk(encodeString(result));
    } catch (e) {
      return encodeResultErr(encodeInvalidPayload());
    }
  }],
]);
";

#[test]
fn client_class() {
    assert_eq!(generate_client_impl(&calculator(), &ids()), CLIENT);
}

#[test]
fn handler_interface_and_table() {
    assert_eq!(generate_handler_interface(&calculator(), &ids()), HANDLER);
}

#[test]
fn unsupported_types_are_not_encoded() {
    let m = method("peek", vec![arg("x", TypeShape::Opaque)], sc(ScalarType::U8), None);
    assert_eq!(
        client_method_text("peek", &vec!["x".to_string()], "0x9", &m),
        "  async peek(x: unknown): Promise<number> {\n    throw new Error(\"Not yet implemented: encoding/decoding for this method\");\n  }\n\n"
    );
    let s = ServiceDetail {
        name: "odd".to_string(),
        methods: vec![method("bad", vec![], TypeShape::Opaque, None)],
        doc: None,
    };
    let h = generate_handler_interface(&s, &vec!["0x7".to_string()]);
    assert!(h.contains("  [0x7n, async (handler, payload) => {\n    try {\n      // TODO: implement encoding/decoding for streaming types\n      return encodeResultErr(encodeInvalidPayload());\n    } catch (e) {"));
    assert!(h.contains("  bad(): Promise<unknown> | unknown;\n"));
}

#[test]
fn whole_module() {
    let out = generate_service(&calculator(), &ids());
    assert!(out.starts_with("// @generated by roam-codegen\n// DO NOT EDIT - regenerate with `cargo xtask codegen --typescript`\n\nimport type { MethodHandler, Connection, MessageTransport, DecodeResult } from \"@bearcove/roam-core\";\nimport {\n"));
    assert!(out.contains("} from \"@bearcove/roam-core\";\n\nexport const METHOD_ID = {\n  add: 0x1n,\n  ping: 0x2n,\n  echoText: 0x3n,\n} as const;\n\n// Type definitions\n"));
    assert!(!out.contains("import { Tx, Rx }"));
    assert!(!out.contains("// Named type definitions"));
    assert!(out.contains("export interface CalculatorCaller {\n"));
    assert!(out.contains(CLIENT));
    assert!(out.ends_with(HANDLER));

    let streaming = ServiceDetail {
        name: "feed".to_string(),
        methods: vec![method(
            "subscribe",
            vec![arg("sink", TypeShape::Tx(Box::new(sc(ScalarType::U32))))],
            sc(ScalarType::Unit),
            None,
        )],
        doc: None,
    };
    let out = generate_service(&streaming, &vec!["0x10".to_string()]);
    assert!(out.contains("} from \"@bearcove/roam-core\";\nimport { Tx, Rx } from \"@bearcove/roam-core\";\nimport type { StreamId } from \"@bearcove/roam-core\";\n\nexport const METHOD_ID = {\n  subscribe: 0x10n,\n"));
}
