use roam::ts_method_ids::{generate_method_ids, sort_by_name, str_lt};

fn e(name: &str, id: &str) -> (String, String) {
    (name.to_string(), id.to_string())
}

#[test]
fn text_order() {
    assert!(str_lt("a", "b"));
    assert!(str_lt("ab", "abc"));
    assert!(!str_lt("abc", "ab"));
    assert!(!str_lt("x", "x"));
    assert!(str_lt("Z", "a"));
    assert!(str_lt("a", "é"));
    assert!(!str_lt("", ""));
    assert!(str_lt("", "a"));
}

#[test]
fn sorted_stably_by_name() {
    let items = vec![e("b.x", "1"), e("a.y", "2"), e("b.x", "3"), e("a.a", "4")];
    assert_eq!(
        sort_by_name(&items),
        vec![e("a.a", "4"), e("a.y", "2"), e("b.x", "1"), e("b.x", "3")]
    );
    assert!(sort_by_name(&vec![]).is_empty());
}

#[test]
fn method_id_module() {
    let out = generate_method_ids(&vec![e("Testbed.echo", "0x2"), e("Testbed.add", "0x1")]);
    assert_eq!(
        out,
        "// @generated by roam-codegen\n// This file defines canonical roam method IDs.\n\nexport const METHOD_ID: Record<string, bigint> = {\n  \"Testbed.add\": 0x1n,\n  \"Testbed.echo\": 0x2n,\n} as const;\n"
    );
}

#[test]
fn method_id_module_ignores_input_order() {
    let a = vec![e("svc.b", "0x2"), e("svc.a", "0x1"), e("other.z", "0x3")];
    let b = vec![e("other.z", "0x3"), e("svc.b", "0x2"), e("svc.a", "0x1")];
    assert_eq!(generate_method_ids(&a), generate_method_ids(&b));
}
