use roam::code_writer::CodeWriter;

#[test]
fn test_basic_writing() {
    let mut w = CodeWriter::with_indent_spaces(String::new(), 2);

    w.writeln("hello").unwrap();
    w.writeln("world").unwrap();

    assert_eq!(w.into_inner(), "hello\nworld\n");
}

#[test]
fn test_indentation() {
    let mut w = CodeWriter::with_indent_spaces(String::new(), 2);

    w.writeln("level 0").unwrap();
    {
        let outer = w.indent();
        w.writeln("level 1").unwrap();
        {
            let inner = w.indent();
            w.writeln("level 2").unwrap();
            w.dedent(inner);
        }
        w.writeln("level 1 again").unwrap();
        w.dedent(outer);
    }
    w.writeln("level 0 again").unwrap();

    assert_eq!(
        w.into_inner(),
        "level 0\n  level 1\n    level 2\n  level 1 again\nlevel 0 again\n"
    );
}

#[test]
fn test_block_helper() {
    let mut w = CodeWriter::with_indent_spaces(String::new(), 2);

    w.block("class Foo", |mut w| {
        if let Err(e) = w.writeln("let x = 42") {
            return (w, Err(e));
        }
        let r = w.block("func bar()", |mut w| {
            let r = w.writeln("return x");
            (w, r)
        });
        (w, r)
    })
    .unwrap();

    assert_eq!(
        w.into_inner(),
        "class Foo {\n  let x = 42\n  func bar() {\n    return x\n  }\n}\n"
    );
}

#[test]
fn test_begin_end_block() {
    let mut w = CodeWriter::with_indent_spaces(String::new(), 2);

    w.writeln("before").unwrap();
    {
        let guard = w.begin_block("if true").unwrap();
        w.writeln("inside").unwrap();
        w.dedent(guard);
    }
    w.end_block().unwrap();
    w.writeln("after").unwrap();

    assert_eq!(w.into_inner(), "before\nif true {\n  inside\n}\nafter\n");
}

#[test]
fn test_comments() {
    let mut w = CodeWriter::with_indent_spaces(String::new(), 2);

    w.comment("//", "Single line comment").unwrap();
    w.doc_comment("///", "Doc comment\nwith multiple lines")
        .unwrap();

    assert_eq!(
        w.into_inner(),
        "// Single line comment\n/// Doc comment\n/// with multiple lines\n"
    );
}

#[test]
fn test_blank_lines() {
    let mut w = CodeWriter::with_indent_spaces(String::new(), 2);

    w.writeln("line 1").unwrap();
    w.blank_line().unwrap();
    w.writeln("line 2").unwrap();

    assert_eq!(w.into_inner(), "line 1\n\nline 2\n");
}

#[test]
fn blank_text_at_line_start_defers_indentation() {
    let mut w = CodeWriter::new(String::new(), "\t".to_string());
    let g = w.indent();
    w.write("   ").unwrap();
    w.writeln("x").unwrap();
    w.writeln("y").unwrap();
    w.dedent(g);
    assert_eq!(w.indent_level(), 0);
    assert_eq!(w.inner(), "   \tx\n\ty\n");
}

#[test]
fn dedent_never_goes_below_zero() {
    let mut w = CodeWriter::with_indent_spaces(String::new(), 4);
    let g1 = w.indent();
    let g2 = w.indent();
    assert_eq!(w.indent_level(), 2);
    w.dedent(g1);
    w.dedent(g2);
    let g3 = w.indent();
    w.dedent(g3);
    assert_eq!(w.indent_level(), 0);
}

#[test]
fn doc_comment_splits_like_str_lines() {
    let mut w = CodeWriter::with_indent_spaces(String::new(), 2);
    w.doc_comment("//", "a\r\n\nb\n").unwrap();
    w.doc_comment("//", "").unwrap();
    assert_eq!(w.into_inner(), "// a\n// \n// b\n");
}

#[test]
fn inner_mut_writes_through() {
    let mut w = CodeWriter::with_indent_spaces(String::from("x"), 2);
    w.inner_mut().push_str("yz");
    w.write("").unwrap();
    assert_eq!(w.inner(), "xyz");
}

#[test]
fn failing_block_body_leaves_block_open() {
    let mut w = CodeWriter::with_indent_spaces(String::new(), 2);
    let r = w.block("fn f()", |w| (w, Err(std::fmt::Error)));
    assert!(r.is_err());
    assert_eq!(w.indent_level(), 0);
    assert_eq!(w.into_inner(), "fn f() {\n");
}

#[test]
fn dedent_restores_the_level() {
    let mut w = CodeWriter::with_indent_spaces(String::new(), 2);
    let g = w.indent();
    assert_eq!(w.indent_level(), 1);
    w.dedent(g);
    assert_eq!(w.indent_level(), 0);
    w.writeln("x").unwrap();
    assert_eq!(w.into_inner(), "x\n");
}
