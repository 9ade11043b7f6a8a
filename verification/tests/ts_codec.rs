use roam::shapes::{ScalarType, TypeShape, VariantKind};
use roam::ts_codec::{
    decode_scalar_fn, decode_scalar_stmt, encode_scalar_expr, generate_decode_fn,
    generate_decode_stmt, generate_decode_stmt_client, generate_decode_stmt_server,
    generate_encode_expr, is_fully_supported,
};

fn sc(s: ScalarType) -> TypeShape {
    TypeShape::Scalar(s)
}

fn bx(t: TypeShape) -> Box<TypeShape> {
    Box::new(t)
}

fn f(name: &str, t: TypeShape) -> (String, TypeShape) {
    (name.to_string(), t)
}

fn point() -> TypeShape {
    TypeShape::Struct(
        Some("Point".to_string()),
        vec![f("x", sc(ScalarType::I32)), f("y", sc(ScalarType::I32))],
    )
}

#[test]
fn encode_scalars_and_containers() {
    assert_eq!(generate_encode_expr(&sc(ScalarType::U32), "x"), "encodeU32(x)");
    assert_eq!(encode_scalar_expr(ScalarType::U128, "x"), "encodeU64(x)");
    assert_eq!(encode_scalar_expr(ScalarType::ISize, "x"), "encodeI64(x)");
    assert_eq!(encode_scalar_expr(ScalarType::Unit, "x"), "new Uint8Array(0)");
    assert_eq!(
        encode_scalar_expr(ScalarType::Other, "x"),
        "/* unsupported scalar */ new Uint8Array(0)"
    );
    assert_eq!(
        generate_encode_expr(&TypeShape::List(bx(sc(ScalarType::U8))), "data"),
        "encodeBytes(data)"
    );
    assert_eq!(
        generate_encode_expr(&TypeShape::List(bx(sc(ScalarType::I32))), "xs"),
        "encodeVec(xs, (item) => encodeI32(item))"
    );
    assert_eq!(
        generate_encode_expr(&TypeShape::Option(bx(sc(ScalarType::String))), "o"),
        "encodeOption(o, (v) => encodeString(v))"
    );
    assert_eq!(
        generate_encode_expr(
            &TypeShape::MapOf(bx(sc(ScalarType::String)), bx(sc(ScalarType::U64))),
            "m"
        ),
        "encodeVec(Array.from(m.entries()), ([k, v]) => concat(encodeString(k), encodeU64(v)))"
    );
    assert_eq!(
        generate_encode_expr(&TypeShape::SetOf(bx(sc(ScalarType::Bool))), "s"),
        "encodeVec(Array.from(s), (item) => encodeBool(item))"
    );
    assert_eq!(
        generate_encode_expr(&TypeShape::Array(bx(sc(ScalarType::U16)), 3), "a"),
        "encodeVec(a, (item) => encodeU16(item))"
    );
}

#[test]
fn encode_tuples_structs_and_enums() {
    let t = TypeShape::Tuple(vec![sc(ScalarType::U8), sc(ScalarType::String)]);
    assert_eq!(generate_encode_expr(&t, "t"), "concat(encodeU8(t[0]), encodeString(t[1]))");
    assert_eq!(generate_encode_expr(&TypeShape::Tuple(vec![]), "t"), "new Uint8Array(0)");
    let one = TypeShape::Tuple(vec![sc(ScalarType::I32)]);
    assert_eq!(generate_encode_expr(&one, "t"), "concat(encodeI32(t[0]))");
    assert_eq!(
        generate_encode_expr(&point(), "p"),
        "concat(encodeI32(p.x), encodeI32(p.y))"
    );
    let pair = TypeShape::Struct(
        None,
        vec![f("0", sc(ScalarType::U8)), f("1", sc(ScalarType::U8))],
    );
    assert_eq!(generate_encode_expr(&pair, "p"), "concat(encodeU8(p[0]), encodeU8(p[1]))");
    let shape = TypeShape::Enum(
        Some("Shape".to_string()),
        vec![
            ("Circle".to_string(), VariantKind::Newtype(sc(ScalarType::F64))),
            (
                "Rect".to_string(),
                VariantKind::Struct(vec![f("w", sc(ScalarType::U32)), f("h", sc(ScalarType::U32))]),
            ),
            ("Empty".to_string(), VariantKind::Unit),
        ],
    );
    assert_eq!(
        generate_encode_expr(&shape, "s"),
        "(() => { switch (s.tag) {\n      case 'Circle': return concat(encodeEnumVariant(0), encodeF64(s.value));\n      case 'Rect': return concat(encodeEnumVariant(1), encodeU32(s.w), encodeU32(s.h));\n      case 'Empty': return encodeEnumVariant(2);\n      default: throw new Error('unknown enum variant'); } })()"
    );
}

#[test]
fn encode_channels_and_unsupported() {
    assert_eq!(
        generate_encode_expr(&TypeShape::Tx(bx(sc(ScalarType::U32))), "tx"),
        "encodeU64(tx.streamId)"
    );
    assert_eq!(
        generate_encode_expr(&TypeShape::Rx(bx(sc(ScalarType::U32))), "rx"),
        "encodeU64(rx.streamId)"
    );
    assert_eq!(
        generate_encode_expr(&TypeShape::Pointer(bx(sc(ScalarType::Char))), "c"),
        "encodeString(c)"
    );
    assert_eq!(
        generate_encode_expr(
            &TypeShape::Result(bx(sc(ScalarType::U8)), bx(sc(ScalarType::U8))),
            "r"
        ),
        "/* Result type encoding not yet implemented */ new Uint8Array(0)"
    );
    assert_eq!(
        generate_encode_expr(&TypeShape::Opaque, "x"),
        "/* unsupported type */ new Uint8Array(0)"
    );
}

#[test]
fn decode_scalar_statements() {
    assert_eq!(
        decode_scalar_stmt(ScalarType::U32, "a", "offset"),
        "const _a_r = decodeU32(buf, offset); const a = _a_r.value; offset = _a_r.next;"
    );
    assert_eq!(
        generate_decode_stmt(&sc(ScalarType::CowStr), "s", "o"),
        "const _s_r = decodeString(buf, o); const s = _s_r.value; o = _s_r.next;"
    );
    assert_eq!(decode_scalar_stmt(ScalarType::Unit, "u", "o"), "const u = undefined;");
    assert_eq!(
        decode_scalar_stmt(ScalarType::Other, "u", "o"),
        "const u = undefined; /* unsupported scalar */"
    );
    assert_eq!(decode_scalar_fn(ScalarType::I128), "(buf, off) => decodeI64(buf, off)");
    assert_eq!(
        decode_scalar_fn(ScalarType::Unit),
        "(buf, off) => ({ value: undefined, next: off })"
    );
    assert_eq!(
        decode_scalar_fn(ScalarType::Other),
        "(buf, off) => { throw new Error('unsupported scalar'); }"
    );
}

#[test]
fn decode_container_statements() {
    assert_eq!(
        generate_decode_stmt(&TypeShape::List(bx(sc(ScalarType::U8))), "b", "o"),
        "const _b_r = decodeBytes(buf, o); const b = _b_r.value; o = _b_r.next;"
    );
    assert_eq!(
        generate_decode_stmt(&TypeShape::List(bx(sc(ScalarType::String))), "xs", "o"),
        "const _xs_r = decodeVec(buf, o, (buf, off) => decodeString(buf, off)); const xs = _xs_r.value; o = _xs_r.next;"
    );
    assert_eq!(
        generate_decode_stmt(&TypeShape::SetOf(bx(sc(ScalarType::U8))), "s", "o"),
        "const _s_r = decodeVec(buf, o, (buf, off) => decodeU8(buf, off)); const s = new Set(_s_r.value); o = _s_r.next;"
    );
    assert_eq!(
        generate_decode_stmt(
            &TypeShape::MapOf(bx(sc(ScalarType::String)), bx(sc(ScalarType::U32))),
            "m",
            "o"
        ),
        "const _m_r = decodeVec(buf, o, (buf, off) => { const kr = ((buf, off) => decodeString(buf, off))(buf, off); const vr = ((buf, off) => decodeU32(buf, off))(buf, kr.next); return { value: [kr.value, vr.value] as [any, any], next: vr.next }; }); const m = new Map(_m_r.value); o = _m_r.next;"
    );
    assert_eq!(
        generate_decode_stmt(&TypeShape::Tx(bx(sc(ScalarType::I32))), "t", "o"),
        "const _t_r = decodeU64(buf, o); const t = { streamId: _t_r.value } as Tx<number>; o = _t_r.next;"
    );
    let pair = TypeShape::Tuple(vec![sc(ScalarType::U8), sc(ScalarType::String)]);
    assert_eq!(
        generate_decode_stmt(&pair, "t", "o"),
        "const _t_r = decodeTuple2(buf, o, (buf, off) => decodeU8(buf, off), (buf, off) => decodeString(buf, off)); const t = _t_r.value; o = _t_r.next;"
    );
    assert_eq!(generate_decode_stmt(&TypeShape::Tuple(vec![]), "t", "o"), "const t = undefined;");
    assert_eq!(
        generate_decode_stmt(&TypeShape::Opaque, "x", "o"),
        "const x = undefined; /* unsupported type */"
    );
}

#[test]
fn decode_struct_and_long_tuple_statements() {
    assert_eq!(
        generate_decode_stmt(&point(), "p", "o"),
        "const _p_f0_r = decodeI32(buf, o); const p_f0 = _p_f0_r.value; o = _p_f0_r.next;\nconst _p_f1_r = decodeI32(buf, o); const p_f1 = _p_f1_r.value; o = _p_f1_r.next;\nconst p = { x: p_f0, y: p_f1 };"
    );
    let t = TypeShape::Tuple(vec![
        sc(ScalarType::U8),
        sc(ScalarType::U8),
        sc(ScalarType::U8),
        sc(ScalarType::Bool),
    ]);
    assert_eq!(
        generate_decode_stmt(&t, "t", "o"),
        "const t: [number, number, number, boolean] = [] as any;\n\
const _t_0_r = decodeU8(buf, o); const t_0 = _t_0_r.value; o = _t_0_r.next; t[0] = t_0;\n\
const _t_1_r = decodeU8(buf, o); const t_1 = _t_1_r.value; o = _t_1_r.next; t[1] = t_1;\n\
const _t_2_r = decodeU8(buf, o); const t_2 = _t_2_r.value; o = _t_2_r.next; t[2] = t_2;\n\
const _t_3_r = decodeBool(buf, o); const t_3 = _t_3_r.value; o = _t_3_r.next; t[3] = t_3;\n"
    );
}

#[test]
fn decode_enum_statement() {
    let status = TypeShape::Enum(
        Some("Status".to_string()),
        vec![
            ("Active".to_string(), VariantKind::Unit),
            ("Count".to_string(), VariantKind::Newtype(sc(ScalarType::U32))),
            (
                "Pair".to_string(),
                VariantKind::Tuple(vec![f("0", sc(ScalarType::U8)), f("1", sc(ScalarType::Bool))]),
            ),
        ],
    );
    assert_eq!(
        generate_decode_stmt(&status, "st", "o"),
        "const _st_disc = decodeEnumVariant(buf, o); o = _st_disc.next;\n\
let st: Status;\n\
switch (_st_disc.value) {\n  case 0: {\n    st = { tag: 'Active' };\n    break;\n  }\n  case 1: {\n    const _st_inner_r = decodeU32(buf, o); const st_inner = _st_inner_r.value; o = _st_inner_r.next;\n    st = { tag: 'Count', value: st_inner };\n    break;\n  }\n  case 2: {\n    const _st_f0_r = decodeU8(buf, o); const st_f0 = _st_f0_r.value; o = _st_f0_r.next;\n    const _st_f1_r = decodeBool(buf, o); const st_f1 = _st_f1_r.value; o = _st_f1_r.next;\n    st = { tag: 'Pair', 0: st_f0, 1: st_f1 };\n    break;\n  }\n  default: throw new Error(`unknown enum variant ${_st_disc.value}`);\n}"
    );
}

#[test]
fn decode_functions() {
    assert_eq!(
        generate_decode_fn(&point()),
        "(buf: Uint8Array, off: number) => { let o = off;\n  const _f0_r = decodeI32(buf, o); const f0 = _f0_r.value; o = _f0_r.next;\n  const _f1_r = decodeI32(buf, o); const f1 = _f1_r.value; o = _f1_r.next;\n  return { value: { x: f0, y: f1 }, next: o };\n}"
    );
    let e = TypeShape::Enum(
        None,
        vec![
            ("A".to_string(), VariantKind::Unit),
            ("B".to_string(), VariantKind::Newtype(sc(ScalarType::U8))),
        ],
    );
    assert_eq!(
        generate_decode_fn(&e),
        "(buf: Uint8Array, off: number): DecodeResult<any> => { let o = off;\n  const disc = decodeEnumVariant(buf, o); o = disc.next;\n  switch (disc.value) {\n    case 0: return { value: { tag: 'A' }, next: o };\n    case 1: {\n      const _val_r = decodeU8(buf, o); const val = _val_r.value; o = _val_r.next;\n      return { value: { tag: 'B', value: val }, next: o };\n    }\n    default: throw new Error(`unknown enum variant: ${disc.value}`);\n  }\n}"
    );
    assert_eq!(
        generate_decode_fn(&TypeShape::Option(bx(TypeShape::List(bx(sc(ScalarType::U8)))))),
        "(buf, off) => decodeOption(buf, off, (buf, off) => decodeBytes(buf, off))"
    );
    let four = TypeShape::Tuple(vec![
        sc(ScalarType::U8),
        sc(ScalarType::U8),
        sc(ScalarType::U8),
        sc(ScalarType::U8),
    ]);
    assert_eq!(
        generate_decode_fn(&four),
        "(buf, off) => { throw new Error('unsupported type'); }"
    );
    assert_eq!(
        generate_decode_fn(&TypeShape::Tuple(vec![])),
        "(buf, off) => ({ value: undefined, next: off })"
    );
    let three = TypeShape::Tuple(vec![sc(ScalarType::U8), sc(ScalarType::I8), sc(ScalarType::F32)]);
    assert_eq!(
        generate_decode_fn(&three),
        "(buf, off) => decodeTuple3(buf, off, (buf, off) => decodeU8(buf, off), (buf, off) => decodeI8(buf, off), (buf, off) => decodeF32(buf, off))"
    );
}

#[test]
fn directional_decode_statements() {
    let tx = TypeShape::Tx(bx(sc(ScalarType::String)));
    let expected = "const _t_r = decodeU64(buf, o); const t = { streamId: _t_r.value } as Tx<string>; o = _t_r.next; /* TODO: create real Tx handle */";
    assert_eq!(generate_decode_stmt_client(&tx, "t", "o"), expected);
    assert_eq!(generate_decode_stmt_server(&tx, "t", "o"), expected);
    let rx = TypeShape::Rx(bx(sc(ScalarType::U64)));
    assert_eq!(
        generate_decode_stmt_server(&rx, "r", "o"),
        "const _r_r = decodeU64(buf, o); const r = { streamId: _r_r.value } as Rx<bigint>; o = _r_r.next; /* TODO: create real Rx handle */"
    );
    assert_eq!(
        generate_decode_stmt_client(&sc(ScalarType::Bool), "b", "o"),
        "const _b_r = decodeBool(buf, o); const b = _b_r.value; o = _b_r.next;"
    );
}

#[test]
fn support_of_shapes() {
    assert!(is_fully_supported(&point()));
    assert!(is_fully_supported(&TypeShape::Tx(bx(sc(ScalarType::U8)))));
    assert!(!is_fully_supported(&TypeShape::Result(
        bx(sc(ScalarType::U8)),
        bx(sc(ScalarType::U8))
    )));
    assert!(!is_fully_supported(&TypeShape::List(bx(TypeShape::Opaque))));
    let e = TypeShape::Enum(
        None,
        vec![
            ("A".to_string(), VariantKind::Unit),
            ("B".to_string(), VariantKind::Newtype(TypeShape::Opaque)),
        ],
    );
    assert!(!is_fully_supported(&e));
    let t = TypeShape::Tuple(vec![sc(ScalarType::U8), TypeShape::Opaque]);
    assert!(!is_fully_supported(&t));
    let m = TypeShape::MapOf(bx(sc(ScalarType::String)), bx(sc(ScalarType::I64)));
    assert!(is_fully_supported(&m));
}
