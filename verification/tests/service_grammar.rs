use roam::service_grammar::{
    extract_doc, parse_service, parse_tokens, verbatim_to_ts, vis_to_ts, Attribute, Delim,
    MethodParam, ParseError, ReturnTyKind, Tok, Vis,
};

fn named(params: &[MethodParam]) -> Vec<(&String, &Vec<Tok>)> {
    params
        .iter()
        .filter_map(|p| match p {
            MethodParam::Named(n, t) => Some((n, t)),
            _ => None,
        })
        .collect()
}

#[test]
fn parse_simple_infallible() {
    let input = "pub trait Adder {
        /// Add two numbers.
        async fn add(&self, l: u32, r: u32) -> u32;
    }";

    let svc = parse_service(input).expect("parse failed");
    assert_eq!(svc.name.to_string(), "Adder");
    assert!(matches!(svc.vis, Some(Vis::Pub)));

    let methods: Vec<_> = svc.methods.iter().collect();
    assert_eq!(methods.len(), 1);

    let add = methods[0];
    assert_eq!(add.name.to_string(), "add");

    let doc = extract_doc(&add.attributes);
    assert_eq!(doc, vec![" Add two numbers."]);

    let named = named(&add.params);
    assert_eq!(named.len(), 2);
    assert_eq!(named[0].0.to_string(), "l");
    assert_eq!(verbatim_to_ts(named[0].1).to_string(), "u32");
    assert_eq!(named[1].0.to_string(), "r");
    assert_eq!(verbatim_to_ts(named[1].1).to_string(), "u32");

    assert!(matches!(add.return_ty.as_ref().unwrap(), ReturnTyKind::Plain(_)));
}

#[test]
fn parse_fallible() {
    let input = "trait Calculator {
        async fn divide(&self, a: f64, b: f64) -> Result<f64, DivideError>;
    }";

    let svc = parse_service(input).expect("parse failed");
    let method = &svc.methods[0];

    match method.return_ty.as_ref().unwrap() {
        ReturnTyKind::Result(ok, err) => {
            assert_eq!(verbatim_to_ts(ok).to_string(), "f64");
            assert_eq!(verbatim_to_ts(err).to_string(), "DivideError");
        }
        _ => panic!("expected Result return type"),
    }
}

#[test]
fn parse_unit_return() {
    let input = "trait Notifier {
        async fn notify(&self, msg: String);
    }";

    let svc = parse_service(input).expect("parse failed");
    let method = &svc.methods[0];
    assert!(method.return_ty.is_none());
}

#[test]
fn parse_generic_arg() {
    let input = "trait Streamer {
        async fn stream(&self, items: Vec<String>) -> Option<u64>;
    }";

    let svc = parse_service(input).expect("parse failed");
    let method = &svc.methods[0];

    let named = named(&method.params);
    assert_eq!(named.len(), 1);
    assert_eq!(named[0].0.to_string(), "items");
    let ty = verbatim_to_ts(named[0].1).to_string();
    assert_eq!(ty, "Vec < String >");

    match method.return_ty.as_ref().unwrap() {
        ReturnTyKind::Plain(p) => {
            assert_eq!(verbatim_to_ts(p).to_string(), "Option < u64 >");
        }
        _ => panic!("expected plain return type"),
    }
}

#[test]
fn parse_multiple_methods() {
    let input = "pub trait Echo {
        async fn ping(&self) -> u64;
        async fn echo(&self, msg: String) -> String;
        async fn close(&self);
    }";

    let svc = parse_service(input).expect("parse failed");
    assert_eq!(svc.methods.len(), 3);
    assert_eq!(svc.methods[0].name.to_string(), "ping");
    assert_eq!(svc.methods[1].name.to_string(), "echo");
    assert_eq!(svc.methods[2].name.to_string(), "close");
}

#[test]
fn receiver_forms() {
    let svc = parse_service("trait T { async fn a(&mut self, x: (u8, u16),); }").unwrap();
    let m = &svc.methods[0];
    assert!(matches!(m.params[0], MethodParam::SelfParam(true)));
    match &m.params[1] {
        MethodParam::Named(n, t) => {
            assert_eq!(n, "x");
            assert_eq!(verbatim_to_ts(t), "(u8 , u16)");
        }
        _ => panic!("expected a named argument"),
    }
    assert_eq!(m.params.len(), 2);
}

#[test]
fn nested_generics_and_result_of_generics() {
    let src = "trait T { async fn f(&self, m: HashMap<String, Vec<u8>>) -> Result<Vec<u8>, E<X, Y>>; }";
    let svc = parse_service(src).unwrap();
    let m = &svc.methods[0];
    assert_eq!(verbatim_to_ts(named(&m.params)[0].1), "HashMap < String , Vec < u8 >>");
    match m.return_ty.as_ref().unwrap() {
        ReturnTyKind::Result(ok, err) => {
            assert_eq!(verbatim_to_ts(ok), "Vec < u8 >");
            assert_eq!(verbatim_to_ts(err), "E < X , Y >");
        }
        _ => panic!("expected Result"),
    }
}

#[test]
fn result_without_error_type_is_plain() {
    let svc = parse_service("trait T { async fn f(&self) -> Result<u8>; }").unwrap();
    match svc.methods[0].return_ty.as_ref().unwrap() {
        ReturnTyKind::Plain(t) => assert_eq!(verbatim_to_ts(t), "Result < u8 >"),
        _ => panic!("expected a plain type"),
    }
}

#[test]
fn visibility_and_attributes() {
    let svc = parse_service("#[allow(dead_code)] pub(crate) trait T {}").unwrap();
    assert_eq!(vis_to_ts(&svc.vis), "pub (crate)");
    assert!(svc.methods.is_empty());
    assert_eq!(svc.attributes.len(), 1);
    assert!(matches!(svc.attributes[0], Attribute::Any(_)));
    assert!(extract_doc(&svc.attributes).is_empty());
    assert_eq!(vis_to_ts(&None), "");
    assert_eq!(vis_to_ts(&Some(Vis::Pub)), "pub");
    let svc = parse_service("/// One\n/// Two\ntrait T {}").unwrap();
    assert!(svc.vis.is_none());
    assert_eq!(extract_doc(&svc.attributes), vec![" One", " Two"]);
}

#[test]
fn trailing_tokens_are_left_alone() {
    assert!(parse_service("trait T {} struct S;").is_ok());
}

#[test]
fn rejected_definitions() {
    assert_eq!(parse_service("trait T { fn f(&self); }").unwrap_err(), ParseError::Grammar);
    assert_eq!(parse_service("trait T { async fn f(&self) }").unwrap_err(), ParseError::Grammar);
    assert_eq!(parse_service("trait T { async fn f(&self, x:); }").unwrap_err(), ParseError::Grammar);
    assert_eq!(parse_service("struct T {}").unwrap_err(), ParseError::Grammar);
    assert_eq!(parse_service("trait T { async fn f(&self) -> ; }").unwrap_err(), ParseError::Grammar);
    assert_eq!(parse_service("trait T { (").unwrap_err(), ParseError::Lex);
}

#[test]
fn tokens_are_read_directly() {
    let ts = vec![
        Tok::Ident("trait".to_string()),
        Tok::Ident("Empty".to_string()),
        Tok::Open(Delim::Brace),
        Tok::Close(Delim::Brace),
    ];
    let svc = parse_tokens(&ts).unwrap();
    assert_eq!(svc.name, "Empty");
    assert!(parse_tokens(&ts[..3].to_vec()).is_none());
}

#[test]
fn rendering_follows_spacing() {
    let ts = vec![
        Tok::Punct('-', true),
        Tok::Punct('>', false),
        Tok::Open(Delim::Brace),
        Tok::Close(Delim::Brace),
        Tok::Open(Delim::Brace),
        Tok::Lit("1".to_string()),
        Tok::Close(Delim::Brace),
        Tok::Open(Delim::Bracket),
        Tok::Ident("a".to_string()),
        Tok::Close(Delim::Bracket),
    ];
    assert_eq!(verbatim_to_ts(&ts), "-> { } { 1 } [a]");
}
