use roam::rust_dispatch::{
    dispatch_match_lines, generate_dispatch_method_fn, generate_dispatch_streaming,
    generate_dispatch_streaming_body, generate_dispatch_unary, generate_service_dispatcher_impl,
};
use roam::rust_generator::{
    generate_service, generate_service_with_options, rust_service_items, ScopeItem,
};
use roam::shapes::{RustCodegenOptions, ScalarType, TypeShape};
use roam::ts_service::{ArgDetail, MethodDetail, ServiceDetail};

fn sc(s: ScalarType) -> TypeShape {
    TypeShape::Scalar(s)
}

fn arg(name: &str, ty: TypeShape) -> ArgDetail {
    ArgDetail { name: name.to_string(), ty }
}

fn method(name: &str, args: Vec<ArgDetail>, ret: TypeShape, doc: Option<&str>) -> MethodDetail {
    MethodDetail {
        method_name: name.to_string(),
        args,
        return_type: ret,
        doc: doc.map(|d| d.to_string()),
    }
}

fn sample_service() -> ServiceDetail {
    ServiceDetail {
        name: "Calculator".to_string(),
        doc: Some("A simple calculator service.".to_string()),
        methods: vec![method(
            "add",
            vec![arg("a", sc(ScalarType::I32)), arg("b", sc(ScalarType::I32))],
            sc(ScalarType::I32),
            Some("Add two numbers."),
        )],
    }
}

fn streamer() -> ServiceDetail {
    ServiceDetail {
        name: "streamer".to_string(),
        doc: None,
        methods: vec![
            method(
                "sum",
                vec![arg("numbers", TypeShape::Rx(Box::new(sc(ScalarType::U32))))],
                sc(ScalarType::U64),
                None,
            ),
            method(
                "range",
                vec![
                    arg("count", sc(ScalarType::U32)),
                    arg("output", TypeShape::Tx(Box::new(sc(ScalarType::U32)))),
                ],
                sc(ScalarType::Unit),
                None,
            ),
            method("ping", vec![], sc(ScalarType::U8), None),
        ],
    }
}

#[test]
fn test_generate_service() {
    let service = sample_service();
    let code = generate_service(&service, &vec!["0x1234".to_string()]);

    assert!(code.contains("pub trait Calculator"));
    assert!(code.contains("CalculatorDispatcher"));
    assert!(code.contains("fn add("));
    assert!(code.contains("pub mod method_id"));
    assert!(code.contains("pub const ADD: u64"));
}

#[test]
fn test_multiline_doc_comments() {
    let service = ServiceDetail {
        name: "MultiDoc".to_string(),
        doc: Some("First line.\nSecond line.\nThird line.".to_string()),
        methods: vec![method(
            "test_method",
            vec![],
            sc(ScalarType::Unit),
            Some("Method first line.\nMethod second line."),
        )],
    };

    let code = generate_service(&service, &vec!["0x1".to_string()]);

    assert!(code.contains("First line"), "Service doc should be present");
}

#[test]
fn unary_dispatch_body() {
    let m = &sample_service().methods[0];
    let lines = generate_dispatch_unary(m, &RustCodegenOptions { tracing: false });
    assert_eq!(
        lines,
        vec![
            "// Decode arguments (encoded as tuple)",
            "let (a, b) = match facet_postcard::from_slice::<(i32, i32)>(payload) {",
            "    Ok(args) => args,",
            "    Err(_) => return vec![1, 2], // Result::Err, RoamError::InvalidPayload",
            "};",
            "match self.handler.add(a, b).await {",
            "    Ok(result) => {",
            "        let mut out = vec![0u8]; // Success marker",
            "        out.extend(facet_postcard::to_vec(&result).expect(\"encode\"));",
            "        out",
            "    }",
            "    Err(_e) => {",
            "        // Encode RoamError - for now just return error marker",
            "        vec![1, 1] // Result::Err, RoamError::UnknownMethod placeholder",
            "    }",
            "}",
        ]
    );
    let ping = &streamer().methods[2];
    let traced = generate_dispatch_unary(ping, &RustCodegenOptions { tracing: true });
    assert_eq!(traced[0], "// No arguments to decode");
    assert_eq!(
        traced[1],
        "let _span = tracing::debug_span!(\"dispatch\", method = \"ping\").entered();"
    );
    assert_eq!(traced[2], "match self.handler.ping().await {");
    assert_eq!(traced.len(), 13);
}

#[test]
fn streaming_dispatch_bodies() {
    let s = streamer();
    let lines = generate_dispatch_streaming(&s.methods[1]);
    assert_eq!(lines[0], "// Decode arguments (streams encoded as u64 stream IDs)");
    assert_eq!(
        lines[1],
        "let (count, output) = match facet_postcard::from_slice::<(u32, u64)>(payload) {"
    );
    assert_eq!(
        lines[5],
        "let (output_tx, _output_rx) = tokio::sync::mpsc::channel::<Vec<u8>>(64);"
    );
    assert_eq!(lines[6], "registry.register_outgoing_credit(output);");
    assert_eq!(lines[7], "let output = Tx::<u32>::new(output, output_tx);");
    assert_eq!(lines[8], "match self.handler.range(count, output).await {");
    let (name, body) = generate_dispatch_method_fn(&s.methods[0], &RustCodegenOptions { tracing: true });
    assert_eq!(name, "dispatch_sum");
    assert_eq!(body[6], "registry.register_incoming(numbers, numbers_tx);");
    assert_eq!(body[7], "let numbers = Rx::<u32>::new(numbers, numbers_rx);");
    let (name, body) = generate_dispatch_method_fn(&s.methods[2], &RustCodegenOptions { tracing: false });
    assert_eq!(name, "dispatch_ping");
    assert_eq!(body[0], "// No arguments to decode");
}

#[test]
fn streaming_dispatch_match() {
    let body = generate_dispatch_streaming_body(&streamer());
    let expected_sum = "            match method_id {
            method_id::SUM => {
                let (numbers) = match facet_postcard::from_slice::<(u64)>(&payload) {
                    Ok(args) => args,
                    Err(_) => return Box::pin(async {{ Ok(vec![1, 2]) }}), // InvalidPayload
                };
                let (numbers_tx, numbers_rx) = tokio::sync::mpsc::channel::<Vec<u8>>(64);
                registry.register_incoming(numbers, numbers_tx);
                let numbers = Rx::<u32>::new(numbers, numbers_rx);
                let handler = self.handler.clone();
                Box::pin(async move {
                    match handler.sum(numbers).await {
                        Ok(result) => {
                            let mut out = vec![0u8];
                            out.extend(facet_postcard::to_vec(&result).map_err(|e| e.to_string())?);
                            Ok(out)
                        }
                        Err(_e) => Ok(vec![1, 1]),
                    }
                })
            }
            method_id::RANGE => {
";
    assert!(body.starts_with(expected_sum));
    assert!(!body.contains("method_id::PING"));
    assert!(body.ends_with(
        "            }\n            _ => Box::pin(async move { Err(format!(\"unknown streaming method {}\", method_id)) })\n            }"
    ));
    let empty = ServiceDetail { name: "e".to_string(), doc: None, methods: vec![] };
    assert_eq!(
        generate_dispatch_streaming_body(&empty),
        "            match method_id {\n            _ => Box::pin(async move { Err(format!(\"unknown streaming method {}\", method_id)) })\n            }"
    );
}

#[test]
fn dispatcher_match_and_impl() {
    assert_eq!(
        dispatch_match_lines(&streamer()),
        vec![
            "method_id::SUM => vec![1, 1], // Streaming: use ServiceDispatcher",
            "method_id::RANGE => vec![1, 1], // Streaming: use ServiceDispatcher",
            "method_id::PING => self.dispatch_ping(payload).await,",
            "_ => Self::unknown_method_response(method_id),",
        ]
    );
    let text = generate_service_dispatcher_impl(&streamer(), "StreamerDispatcher", "Streamer");
    assert!(text.starts_with(
        "\n    impl<H> ::roam::session::ServiceDispatcher for StreamerDispatcher<H>\n    where\n        H: Streamer + 'static + Clone,\n    {\n        fn is_streaming(&self, method_id: u64) -> bool {\n            match method_id {\n            method_id::SUM => true,\n            method_id::RANGE => true,\n            method_id::PING => false,\n                _ => false,\n"
    ));
    assert!(text.contains(
        "                match method_id {\n                method_id::PING => Ok(self.dispatch_ping(&payload).await),\n                _ => Ok(vec![1, 1]), // Result::Err(RoamError::UnknownMethod)\n                }\n"
    ));
    assert!(text.ends_with("\n            }\n        }\n    }"));
    let plain = generate_service_dispatcher_impl(&sample_service(), "CalculatorDispatcher", "Calculator");
    assert!(plain.contains("        H: Calculator + 'static,\n"));
}

#[test]
fn module_items() {
    let items = rust_service_items(
        &streamer(),
        &RustCodegenOptions { tracing: false },
        &vec!["0x1".to_string(), "0x2".to_string(), "0x3".to_string()],
    );
    assert_eq!(items.len(), 15);
    match &items[2] {
        ScopeItem::Raw(r) => assert_eq!(r, "#[allow(clippy::all, unused)]\npub mod streamer {"),
        _ => panic!("expected the module line"),
    }
    match &items[6] {
        ScopeItem::Raw(r) => assert_eq!(r, "        pub const SUM: u64 = 0x1;"),
        _ => panic!("expected a method id"),
    }
    match &items[10] {
        ScopeItem::Trait(t) => {
            assert_eq!(t.name, "Streamer");
            assert_eq!(t.fns.len(), 3);
            assert_eq!(t.fns[0].args, vec![("numbers".to_string(), "Rx<u32>".to_string())]);
            assert_eq!(
                t.fns[1].ret.as_deref(),
                Some("impl std::future::Future<Output = Result<(), RoamError<Never>>> + Send")
            );
        }
        _ => panic!("expected the trait"),
    }
    match &items[12] {
        ScopeItem::Impl(i) => {
            assert_eq!(i.target, "StreamerDispatcher");
            let names: Vec<&str> = i.fns.iter().map(|f| f.name.as_str()).collect();
            assert_eq!(names, vec!["new", "dispatch", "unknown_method_response", "dispatch_ping"]);
        }
        _ => panic!("expected the impl"),
    }
    let code = generate_service_with_options(
        &streamer(),
        &RustCodegenOptions { tracing: true },
        &vec!["0x1".to_string(), "0x2".to_string(), "0x3".to_string()],
    );
    assert!(code.contains("tracing::debug_span!(\"dispatch\", method = \"ping\")"));
    assert!(code.contains("pub struct StreamerDispatcher<H>"));
}

#[test]
fn names_are_snake_cased() {
    let m = method(
        "EchoText",
        vec![arg("firstValue", sc(ScalarType::String))],
        sc(ScalarType::String),
        None,
    );
    let (name, body) = generate_dispatch_method_fn(&m, &RustCodegenOptions { tracing: false });
    assert_eq!(name, "dispatch_echo_text");
    assert_eq!(
        body[1],
        "let (first_value) = match facet_postcard::from_slice::<(::std::string::String)>(payload) {"
    );
    let s = ServiceDetail { name: "my_service".to_string(), doc: None, methods: vec![m] };
    assert_eq!(
        dispatch_match_lines(&s)[0],
        "method_id::ECHO_TEXT => self.dispatch_echo_text(payload).await,"
    );
}
