//! Generation of the TypeScript code that encodes values to, and decodes
//! them from, the postcard wire format.
//!
//! Each function renders a piece of TypeScript from a [`TypeShape`]: an
//! expression that encodes a value, a statement that decodes one from a
//! buffer at an offset, or a decoder function for the containers' helpers.
use vstd::prelude::*;

use vstd::string::StringExecFns;

use crate::shapes::{
    field_access, is_bytes_shape, ts_field_access, ts_scalar, ts_ty, ts_type_base_named, ScalarType,
    TypeShape, VariantKind,
};
use crate::text::{decimal, push_decimal};

verus! {

// ---------------------------------------------------------------------------
// Encoding
// ---------------------------------------------------------------------------

/// The encoding helper of a scalar applied to `x`.
pub open spec fn encode_scalar(s: ScalarType, x: Seq<char>) -> Seq<char> {
    match s {
        ScalarType::Bool => "encodeBool("@ + x + ")"@,
        ScalarType::U8 => "encodeU8("@ + x + ")"@,
        ScalarType::I8 => "encodeI8("@ + x + ")"@,
        ScalarType::U16 => "encodeU16("@ + x + ")"@,
        ScalarType::I16 => "encodeI16("@ + x + ")"@,
        ScalarType::U32 => "encodeU32("@ + x + ")"@,
        ScalarType::I32 => "encodeI32("@ + x + ")"@,
        ScalarType::U64 | ScalarType::USize | ScalarType::U128 => "encodeU64("@ + x + ")"@,
        ScalarType::I64 | ScalarType::ISize | ScalarType::I128 => "encodeI64("@ + x + ")"@,
        ScalarType::F32 => "encodeF32("@ + x + ")"@,
        ScalarType::F64 => "encodeF64("@ + x + ")"@,
        ScalarType::Char | ScalarType::Str | ScalarType::String | ScalarType::CowStr =>
            "encodeString("@ + x + ")"@,
        ScalarType::Unit => "new Uint8Array(0)"@,
        ScalarType::Other => "/* unsupported scalar */ new Uint8Array(0)"@,
    }
}

/// The expression for element `i` of the tuple `x`.
pub open spec fn element_expr(x: Seq<char>, i: nat) -> Seq<char> {
    x + "["@ + decimal(i) + "]"@
}

/// The expression that encodes `x`, a value of shape `t`.
pub open spec fn ts_encode(t: TypeShape, x: Seq<char>) -> Seq<char>
    decreases t, 1int,
{
    if is_bytes_shape(t) {
        "encodeBytes("@ + x + ")"@
    } else {
        match t {
            TypeShape::Scalar(s) => encode_scalar(s, x),
            TypeShape::List(e) => "encodeVec("@ + x + ", (item) => "@ + ts_encode(*e, "item"@)
                + ")"@,
            TypeShape::Option(e) => "encodeOption("@ + x + ", (v) => "@ + ts_encode(*e, "v"@)
                + ")"@,
            TypeShape::Array(e, _) => "encodeVec("@ + x + ", (item) => "@ + ts_encode(
                *e,
                "item"@,
            ) + ")"@,
            TypeShape::Slice(e) => "encodeVec("@ + x + ", (item) => "@ + ts_encode(*e, "item"@)
                + ")"@,
            TypeShape::MapOf(k, v) => "encodeVec(Array.from("@ + x
                + ".entries()), ([k, v]) => concat("@ + ts_encode(*k, "k"@) + ", "@ + ts_encode(
                *v,
                "v"@,
            ) + "))"@,
            TypeShape::SetOf(e) => "encodeVec(Array.from("@ + x + "), (item) => "@ + ts_encode(
                *e,
                "item"@,
            ) + ")"@,
            TypeShape::Tuple(es) => if es@.len() == 0 {
                "new Uint8Array(0)"@
            } else {
                "concat("@ + encode_elements(es@, x) + ")"@
            },
            TypeShape::Struct(_, fs) => if fs@.len() == 0 {
                "new Uint8Array(0)"@
            } else {
                "concat("@ + encode_fields(fs@, x) + ")"@
            },
            TypeShape::Enum(_, vs) => "(() => { switch ("@ + x + ".tag) {\n"@ + encode_cases(
                vs@,
                x,
            ) + "      default: throw new Error('unknown enum variant'); } })()"@,
            TypeShape::Tx(_) => "encodeU64("@ + x + ".streamId)"@,
            TypeShape::Rx(_) => "encodeU64("@ + x + ".streamId)"@,
            TypeShape::Pointer(p) => ts_encode(*p, x),
            TypeShape::Result(_, _) => "/* Result type encoding not yet implemented */ new Uint8Array(0)"@,
            TypeShape::Opaque => "/* unsupported type */ new Uint8Array(0)"@,
        }
    }
}

/// The encodings of a tuple's elements, joined with `, `.
pub open spec fn encode_elements(es: Seq<TypeShape>, x: Seq<char>) -> Seq<char>
    decreases es, 0int,
{
    if es.len() == 0 {
        Seq::empty()
    } else if es.len() == 1 {
        ts_encode(es[0], element_expr(x, 0))
    } else {
        encode_elements(es.drop_last(), x) + ", "@ + ts_encode(
            es.last(),
            element_expr(x, (es.len() - 1) as nat),
        )
    }
}

/// The encodings of a value's fields, joined with `, `.
pub open spec fn encode_fields(fs: Seq<(String, TypeShape)>, x: Seq<char>) -> Seq<char>
    decreases fs, 0int,
{
    if fs.len() == 0 {
        Seq::empty()
    } else if fs.len() == 1 {
        ts_encode(fs[0].1, field_access(x, fs[0].0@))
    } else {
        encode_fields(fs.drop_last(), x) + ", "@ + ts_encode(
            fs.last().1,
            field_access(x, fs.last().0@),
        )
    }
}

/// The `case` of the encoding switch for variant number `i`.
pub open spec fn encode_case(v: (String, VariantKind), i: nat, x: Seq<char>) -> Seq<char>
    decreases v, 0int,
{
    "      case '"@ + v.0@ + "': "@ + match v.1 {
        VariantKind::Unit => "return encodeEnumVariant("@ + decimal(i) + ");\n"@,
        VariantKind::Newtype(inner) => "return concat(encodeEnumVariant("@ + decimal(i) + "), "@
            + ts_encode(inner, x + ".value"@) + ");\n"@,
        VariantKind::Tuple(fs) => "return concat(encodeEnumVariant("@ + decimal(i) + "), "@
            + encode_fields(fs@, x) + ");\n"@,
        VariantKind::Struct(fs) => "return concat(encodeEnumVariant("@ + decimal(i) + "), "@
            + encode_fields(fs@, x) + ");\n"@,
    }
}

/// The cases of the encoding switch, one per variant, in order.
pub open spec fn encode_cases(vs: Seq<(String, VariantKind)>, x: Seq<char>) -> Seq<char>
    decreases vs, 0int,
{
    if vs.len() == 0 {
        Seq::empty()
    } else {
        encode_cases(vs.drop_last(), x) + encode_case(vs.last(), (vs.len() - 1) as nat, x)
    }
}

/// The encoding helper of a scalar applied to `x`.
pub fn encode_scalar_expr(s: ScalarType, x: &str) -> (r: String)
    ensures
        r@ == encode_scalar(s, x@),
{
    let name: &str = match s {
        ScalarType::Bool => "encodeBool(",
        ScalarType::U8 => "encodeU8(",
        ScalarType::I8 => "encodeI8(",
        ScalarType::U16 => "encodeU16(",
        ScalarType::I16 => "encodeI16(",
        ScalarType::U32 => "encodeU32(",
        ScalarType::I32 => "encodeI32(",
        ScalarType::U64 | ScalarType::USize | ScalarType::U128 => "encodeU64(",
        ScalarType::I64 | ScalarType::ISize | ScalarType::I128 => "encodeI64(",
        ScalarType::F32 => "encodeF32(",
        ScalarType::F64 => "encodeF64(",
        ScalarType::Char | ScalarType::Str | ScalarType::String | ScalarType::CowStr =>
            "encodeString(",
        ScalarType::Unit => {
            return "new Uint8Array(0)".to_string();
        },
        ScalarType::Other => {
            return "/* unsupported scalar */ new Uint8Array(0)".to_string();
        },
    };
    let mut r = name.to_string();
    r.append(x);
    r.append(")");
    r
}

/// `open` + `inner` + `close`.
fn around(open: &str, inner: &str, close: &str) -> (r: String)
    ensures
        r@ == open@ + inner@ + close@,
{
    let mut r = open.to_string();
    r.append(inner);
    r.append(close);
    r
}

/// The expression for element `i` of the tuple `x`.
fn element_expression(x: &str, i: usize) -> (r: String)
    ensures
        r@ == element_expr(x@, i as nat),
{
    let mut r = x.to_string();
    r.append("[");
    push_decimal(&mut r, i as u64);
    r.append("]");
    r
}

/// The encodings of a tuple's elements, joined with `, `.
fn encode_elements_joined(es: &Vec<TypeShape>, x: &str) -> (s: String)
    ensures
        s@ == encode_elements(es@, x@),
    decreases es, 0int,
{
    let mut s = String::new();
    let mut i: usize = 0;
    while i < es.len()
        invariant
            i <= es@.len(),
            s@ == encode_elements(es@.subrange(0, i as int), x@),
        decreases es.len() - i,
    {
        let ghost sub = es@.subrange(0, i + 1);
        assert(sub.drop_last() == es@.subrange(0, i as int));
        if i > 0 {
            s.append(", ");
        }
        let e = element_expression(x, i);
        let t = generate_encode_expr(&es[i], e.as_str());
        s.append(t.as_str());
        i = i + 1;
    }
    assert(es@.subrange(0, es@.len() as int) == es@);
    s
}

/// The encodings of a value's fields, joined with `, `.
fn encode_fields_joined(fs: &Vec<(String, TypeShape)>, x: &str) -> (s: String)
    ensures
        s@ == encode_fields(fs@, x@),
    decreases fs, 0int,
{
    let mut s = String::new();
    let mut i: usize = 0;
    while i < fs.len()
        invariant
            i <= fs@.len(),
            s@ == encode_fields(fs@.subrange(0, i as int), x@),
        decreases fs.len() - i,
    {
        let ghost sub = fs@.subrange(0, i + 1);
        assert(sub.drop_last() == fs@.subrange(0, i as int));
        assert(sub.last() == fs@[i as int]);
        if i > 0 {
            s.append(", ");
        }
        let e = ts_field_access(x, fs[i].0.as_str());
        let t = generate_encode_expr(&fs[i].1, e.as_str());
        s.append(t.as_str());
        i = i + 1;
    }
    assert(fs@.subrange(0, fs@.len() as int) == fs@);
    s
}

/// The `case` of the encoding switch for variant number `i`.
fn encode_case_text(v: &(String, VariantKind), i: usize, x: &str) -> (s: String)
    ensures
        s@ == encode_case(*v, i as nat, x@),
    decreases v, 0int,
{
    let mut tail = String::new();
    match &v.1 {
        VariantKind::Unit => {
            tail.append("return encodeEnumVariant(");
            push_decimal(&mut tail, i as u64);
            tail.append(");\n");
        },
        VariantKind::Newtype(inner) => {
            tail.append("return concat(encodeEnumVariant(");
            push_decimal(&mut tail, i as u64);
            tail.append("), ");
            let mut value = x.to_string();
            value.append(".value");
            let enc = generate_encode_expr(inner, value.as_str());
            tail.append(enc.as_str());
            tail.append(");\n");
        },
        VariantKind::Tuple(fs) | VariantKind::Struct(fs) => {
            tail.append("return concat(encodeEnumVariant(");
            push_decimal(&mut tail, i as u64);
            tail.append("), ");
            let enc = encode_fields_joined(fs, x);
            tail.append(enc.as_str());
            tail.append(");\n");
        },
    }
    let mut s = "      case '".to_string();
    s.append(v.0.as_str());
    s.append("': ");
    s.append(tail.as_str());
    s
}

/// The cases of the encoding switch, one per variant, in order.
fn encode_cases_joined(vs: &Vec<(String, VariantKind)>, x: &str) -> (s: String)
    ensures
        s@ == encode_cases(vs@, x@),
    decreases vs, 0int,
{
    let mut s = String::new();
    let mut i: usize = 0;
    while i < vs.len()
        invariant
            i <= vs@.len(),
            s@ == encode_cases(vs@.subrange(0, i as int), x@),
        decreases vs.len() - i,
    {
        let ghost sub = vs@.subrange(0, i + 1);
        assert(sub.drop_last() == vs@.subrange(0, i as int));
        assert(sub.last() == vs@[i as int]);
        let c = encode_case_text(&vs[i], i, x);
        s.append(c.as_str());
        i = i + 1;
    }
    assert(vs@.subrange(0, vs@.len() as int) == vs@);
    s
}

/// The TypeScript expression that encodes `x`, a value of shape `t`.
pub fn generate_encode_expr(t: &TypeShape, x: &str) -> (s: String)
    ensures
        s@ == ts_encode(*t, x@),
    decreases t, 1int,
{
    if let TypeShape::List(e) = t {
        if let TypeShape::Scalar(ScalarType::U8) = &**e {
            return around("encodeBytes(", x, ")");
        }
    }
    match t {
        TypeShape::Scalar(sc) => encode_scalar_expr(*sc, x),
        TypeShape::List(e) | TypeShape::Array(e, _) | TypeShape::Slice(e) => {
            let mut s = "encodeVec(".to_string();
            s.append(x);
            s.append(", (item) => ");
            let inner = generate_encode_expr(e, "item");
            s.append(inner.as_str());
            s.append(")");
            s
        },
        TypeShape::Option(e) => {
            let mut s = "encodeOption(".to_string();
            s.append(x);
            s.append(", (v) => ");
            let inner = generate_encode_expr(e, "v");
            s.append(inner.as_str());
            s.append(")");
            s
        },
        TypeShape::MapOf(k, v) => {
            let mut s = "encodeVec(Array.from(".to_string();
            s.append(x);
            s.append(".entries()), ([k, v]) => concat(");
            let ke = generate_encode_expr(k, "k");
            s.append(ke.as_str());
            s.append(", ");
            let ve = generate_encode_expr(v, "v");
            s.append(ve.as_str());
            s.append("))");
            s
        },
        TypeShape::SetOf(e) => {
            let mut s = "encodeVec(Array.from(".to_string();
            s.append(x);
            s.append("), (item) => ");
            let inner = generate_encode_expr(e, "item");
            s.append(inner.as_str());
            s.append(")");
            s
        },
        TypeShape::Tuple(es) => {
            if es.len() == 0 {
                "new Uint8Array(0)".to_string()
            } else {
                let parts = encode_elements_joined(es, x);
                around("concat(", parts.as_str(), ")")
            }
        },
        TypeShape::Struct(_, fs) => {
            if fs.len() == 0 {
                "new Uint8Array(0)".to_string()
            } else {
                let parts = encode_fields_joined(fs, x);
                around("concat(", parts.as_str(), ")")
            }
        },
        TypeShape::Enum(_, vs) => {
            let mut s = "(() => { switch (".to_string();
            s.append(x);
            s.append(".tag) {\n");
            let cases = encode_cases_joined(vs, x);
            s.append(cases.as_str());
            s.append("      default: throw new Error('unknown enum variant'); } })()");
            s
        },
        TypeShape::Tx(_) | TypeShape::Rx(_) => around("encodeU64(", x, ".streamId)"),
        TypeShape::Pointer(p) => generate_encode_expr(p, x),
        TypeShape::Result(_, _) => "/* Result type encoding not yet implemented */ new Uint8Array(0)".to_string(),
        TypeShape::Opaque => "/* unsupported type */ new Uint8Array(0)".to_string(),
    }
}

// ---------------------------------------------------------------------------
// Decoding
// ---------------------------------------------------------------------------

/// `v` followed by `infix` and the decimal index `i` (a derived variable).
pub open spec fn indexed(v: Seq<char>, infix: Seq<char>, i: nat) -> Seq<char> {
    v + infix + decimal(i)
}

/// The statement that runs `call`, binds its value (wrapped between `open`
/// and `close`) to `v` and advances the offset variable `o`.
pub open spec fn bind_result(
    v: Seq<char>,
    o: Seq<char>,
    call: Seq<char>,
    open: Seq<char>,
    close: Seq<char>,
) -> Seq<char> {
    "const _"@ + v + "_r = "@ + call + "; const "@ + v + " = "@ + open + "_"@ + v + "_r.value"@
        + close + "; "@ + o + " = _"@ + v + "_r.next;"@
}

/// The runtime decoder of a scalar, if it has one.
pub open spec fn scalar_decoder(s: ScalarType) -> Option<Seq<char>> {
    match s {
        ScalarType::Bool => Some("decodeBool"@),
        ScalarType::U8 => Some("decodeU8"@),
        ScalarType::I8 => Some("decodeI8"@),
        ScalarType::U16 => Some("decodeU16"@),
        ScalarType::I16 => Some("decodeI16"@),
        ScalarType::U32 => Some("decodeU32"@),
        ScalarType::I32 => Some("decodeI32"@),
        ScalarType::U64 | ScalarType::USize | ScalarType::U128 => Some("decodeU64"@),
        ScalarType::I64 | ScalarType::ISize | ScalarType::I128 => Some("decodeI64"@),
        ScalarType::F32 => Some("decodeF32"@),
        ScalarType::F64 => Some("decodeF64"@),
        ScalarType::Char | ScalarType::Str | ScalarType::String | ScalarType::CowStr => Some(
            "decodeString"@,
        ),
        ScalarType::Unit => None,
        ScalarType::Other => None,
    }
}

/// The statement that decodes a scalar into `v`.
pub open spec fn decode_scalar(s: ScalarType, v: Seq<char>, o: Seq<char>) -> Seq<char> {
    match scalar_decoder(s) {
        Some(name) => bind_result(v, o, name + "(buf, "@ + o + ")"@, ""@, ""@),
        None => if s == ScalarType::Unit {
            "const "@ + v + " = undefined;"@
        } else {
            "const "@ + v + " = undefined; /* unsupported scalar */"@
        },
    }
}

/// The decoder function of a scalar.
pub open spec fn decode_scalar_fn_text(s: ScalarType) -> Seq<char> {
    match scalar_decoder(s) {
        Some(name) => "(buf, off) => "@ + name + "(buf, off)"@,
        None => if s == ScalarType::Unit {
            "(buf, off) => ({ value: undefined, next: off })"@
        } else {
            "(buf, off) => { throw new Error('unsupported scalar'); }"@
        },
    }
}

/// Field assignments `name: <prefix>i`, joined with `, `.
pub open spec fn field_assigns(fs: Seq<(String, TypeShape)>, prefix: Seq<char>) -> Seq<char>
    decreases fs.len(),
{
    if fs.len() == 0 {
        Seq::empty()
    } else if fs.len() == 1 {
        fs[0].0@ + ": "@ + indexed(prefix, ""@, 0)
    } else {
        field_assigns(fs.drop_last(), prefix) + ", "@ + fs.last().0@ + ": "@ + indexed(
            prefix,
            ""@,
            (fs.len() - 1) as nat,
        )
    }
}

/// Field assignments `, name: <v>_f<i>`, each with its leading separator.
pub open spec fn variant_assigns(fs: Seq<(String, TypeShape)>, v: Seq<char>) -> Seq<char>
    decreases fs.len(),
{
    if fs.len() == 0 {
        Seq::empty()
    } else {
        variant_assigns(fs.drop_last(), v) + ", "@ + fs.last().0@ + ": "@ + indexed(
            v,
            "_f"@,
            (fs.len() - 1) as nat,
        )
    }
}

/// The call of the map decoder, whose entries decode with `dk` and `dv`.
pub open spec fn map_call(o: Seq<char>, dk: Seq<char>, dv: Seq<char>) -> Seq<char> {
    "decodeVec(buf, "@ + o + ", (buf, off) => { const kr = ("@ + dk
        + ")(buf, off); const vr = ("@ + dv
        + ")(buf, kr.next); return { value: [kr.value, vr.value] as [any, any], next: vr.next }; })"@
}

/// The decoder function (`(buf, off) => result`) of a shape.
pub open spec fn ts_decode_fn(t: TypeShape) -> Seq<char>
    decreases t, 1int,
{
    if is_bytes_shape(t) {
        "(buf, off) => decodeBytes(buf, off)"@
    } else {
        match t {
            TypeShape::Scalar(s) => decode_scalar_fn_text(s),
            TypeShape::List(e) => "(buf, off) => decodeVec(buf, off, "@ + ts_decode_fn(*e) + ")"@,
            TypeShape::Array(e, _) => "(buf, off) => decodeVec(buf, off, "@ + ts_decode_fn(*e)
                + ")"@,
            TypeShape::Slice(e) => "(buf, off) => decodeVec(buf, off, "@ + ts_decode_fn(*e) + ")"@,
            TypeShape::Option(e) => "(buf, off) => decodeOption(buf, off, "@ + ts_decode_fn(*e)
                + ")"@,
            TypeShape::Tuple(es) => if es@.len() == 2 {
                "(buf, off) => decodeTuple2(buf, off, "@ + ts_decode_fn(es@[0]) + ", "@
                    + ts_decode_fn(es@[1]) + ")"@
            } else if es@.len() == 3 {
                "(buf, off) => decodeTuple3(buf, off, "@ + ts_decode_fn(es@[0]) + ", "@
                    + ts_decode_fn(es@[1]) + ", "@ + ts_decode_fn(es@[2]) + ")"@
            } else if es@.len() == 0 {
                "(buf, off) => ({ value: undefined, next: off })"@
            } else {
                "(buf, off) => { throw new Error('unsupported type'); }"@
            },
            TypeShape::Struct(_, fs) => if fs@.len() == 0 {
                "(buf, off) => ({ value: undefined, next: off })"@
            } else {
                "(buf: Uint8Array, off: number) => { let o = off;\n"@ + fn_field_stmts(fs@)
                    + "  return { value: { "@ + field_assigns(fs@, "f"@) + " }, next: o };\n}"@
            },
            TypeShape::Enum(_, vs) => "(buf: Uint8Array, off: number): DecodeResult<any> => { let o = off;\n"@
                + "  const disc = decodeEnumVariant(buf, o); o = disc.next;\n"@
                + "  switch (disc.value) {\n"@ + fn_cases(vs@)
                + "    default: throw new Error(`unknown enum variant: ${disc.value}`);\n  }\n}"@,
            TypeShape::Pointer(p) => ts_decode_fn(*p),
            _ => "(buf, off) => { throw new Error('unsupported type'); }"@,
        }
    }
}

/// Inside a struct decoder: one statement per field, decoding field `i`
/// into `f<i>`, each indented and on its own line.
pub open spec fn fn_field_stmts(fs: Seq<(String, TypeShape)>) -> Seq<char>
    decreases fs, 0int,
{
    if fs.len() == 0 {
        Seq::empty()
    } else {
        fn_field_stmts(fs.drop_last()) + "  "@ + ts_decode_stmt(
            fs.last().1,
            indexed("f"@, ""@, (fs.len() - 1) as nat),
            "o"@,
        ) + "\n"@
    }
}

/// Inside an enum decoder: one statement per field of a variant.
pub open spec fn fn_variant_stmts(fs: Seq<(String, TypeShape)>) -> Seq<char>
    decreases fs, 0int,
{
    if fs.len() == 0 {
        Seq::empty()
    } else {
        fn_variant_stmts(fs.drop_last()) + "      "@ + ts_decode_stmt(
            fs.last().1,
            indexed("f"@, ""@, (fs.len() - 1) as nat),
            "o"@,
        ) + "\n"@
    }
}

/// Inside an enum decoder: the `case` of variant number `i`.
pub open spec fn fn_case(v: (String, VariantKind), i: nat) -> Seq<char>
    decreases v, 0int,
{
    "    case "@ + decimal(i) + ": "@ + match v.1 {
        VariantKind::Unit => "return { value: { tag: '"@ + v.0@ + "' }, next: o };\n"@,
        VariantKind::Newtype(inner) => "{\n"@ + "      "@ + ts_decode_stmt(inner, "val"@, "o"@)
            + "\n"@ + "      return { value: { tag: '"@ + v.0@ + "', value: val }, next: o };\n"@
            + "    }\n"@,
        VariantKind::Tuple(fs) => "{\n"@ + fn_variant_stmts(fs@) + "      return { value: { tag: '"@
            + v.0@ + "', "@ + field_assigns(fs@, "f"@) + " }, next: o };\n    }\n"@,
        VariantKind::Struct(fs) => "{\n"@ + fn_variant_stmts(fs@) + "      return { value: { tag: '"@
            + v.0@ + "', "@ + field_assigns(fs@, "f"@) + " }, next: o };\n    }\n"@,
    }
}

/// Inside an enum decoder: the cases of all variants, in order.
pub open spec fn fn_cases(vs: Seq<(String, VariantKind)>) -> Seq<char>
    decreases vs, 0int,
{
    if vs.len() == 0 {
        Seq::empty()
    } else {
        fn_cases(vs.drop_last()) + fn_case(vs.last(), (vs.len() - 1) as nat)
    }
}

/// The statement that decodes a value of shape `t` into the variable `v`,
/// reading at and advancing the offset variable `o`.
pub open spec fn ts_decode_stmt(t: TypeShape, v: Seq<char>, o: Seq<char>) -> Seq<char>
    decreases t, 1int,
{
    if is_bytes_shape(t) {
        bind_result(v, o, "decodeBytes(buf, "@ + o + ")"@, ""@, ""@)
    } else {
        match t {
            TypeShape::Scalar(s) => decode_scalar(s, v, o),
            TypeShape::List(e) => bind_result(
                v,
                o,
                "decodeVec(buf, "@ + o + ", "@ + ts_decode_fn(*e) + ")"@,
                ""@,
                ""@,
            ),
            TypeShape::Array(e, _) => bind_result(
                v,
                o,
                "decodeVec(buf, "@ + o + ", "@ + ts_decode_fn(*e) + ")"@,
                ""@,
                ""@,
            ),
            TypeShape::Slice(e) => bind_result(
                v,
                o,
                "decodeVec(buf, "@ + o + ", "@ + ts_decode_fn(*e) + ")"@,
                ""@,
                ""@,
            ),
            TypeShape::Option(e) => bind_result(
                v,
                o,
                "decodeOption(buf, "@ + o + ", "@ + ts_decode_fn(*e) + ")"@,
                ""@,
                ""@,
            ),
            TypeShape::Tuple(es) => if es@.len() == 2 {
                bind_result(
                    v,
                    o,
                    "decodeTuple2(buf, "@ + o + ", "@ + ts_decode_fn(es@[0]) + ", "@ + ts_decode_fn(
                        es@[1],
                    ) + ")"@,
                    ""@,
                    ""@,
                )
            } else if es@.len() == 3 {
                bind_result(
                    v,
                    o,
                    "decodeTuple3(buf, "@ + o + ", "@ + ts_decode_fn(es@[0]) + ", "@ + ts_decode_fn(
                        es@[1],
                    ) + ", "@ + ts_decode_fn(es@[2]) + ")"@,
                    ""@,
                    ""@,
                )
            } else if es@.len() == 0 {
                "const "@ + v + " = undefined;"@
            } else {
                "const "@ + v + ": ["@ + crate::shapes::ts_tys(es@) + "] = [] as any;\n"@
                    + tuple_stmts(es@, v, o)
            },
            TypeShape::Struct(_, fs) => if fs@.len() == 0 {
                "const "@ + v + " = undefined;"@
            } else {
                struct_stmts(fs@, v, o) + "const "@ + v + " = { "@ + field_assigns(
                    fs@,
                    v + "_f"@,
                ) + " };"@
            },
            TypeShape::Enum(_, vs) => "const _"@ + v + "_disc = decodeEnumVariant(buf, "@ + o
                + "); "@ + o + " = _"@ + v + "_disc.next;\n"@ + "let "@ + v + ": "@ + ts_ty(t)
                + ";\n"@ + "switch (_"@ + v + "_disc.value) {\n"@ + stmt_cases(vs@, v, o)
                + "  default: throw new Error(`unknown enum variant ${_"@ + v
                + "_disc.value}`);\n}"@,
            TypeShape::MapOf(k, val) => bind_result(
                v,
                o,
                map_call(o, ts_decode_fn(*k), ts_decode_fn(*val)),
                "new Map("@,
                ")"@,
            ),
            TypeShape::SetOf(e) => bind_result(
                v,
                o,
                "decodeVec(buf, "@ + o + ", "@ + ts_decode_fn(*e) + ")"@,
                "new Set("@,
                ")"@,
            ),
            TypeShape::Tx(inner) => bind_result(
                v,
                o,
                "decodeU64(buf, "@ + o + ")"@,
                "{ streamId: "@,
                " } as Tx<"@ + ts_ty(*inner) + ">"@,
            ),
            TypeShape::Rx(inner) => bind_result(
                v,
                o,
                "decodeU64(buf, "@ + o + ")"@,
                "{ streamId: "@,
                " } as Rx<"@ + ts_ty(*inner) + ">"@,
            ),
            TypeShape::Pointer(p) => ts_decode_stmt(*p, v, o),
            TypeShape::Result(_, _) => "const "@ + v
                + " = undefined; /* Result type decoding not yet implemented */"@,
            TypeShape::Opaque => "const "@ + v + " = undefined; /* unsupported type */"@,
        }
    }
}

/// The statements of a tuple's elements: element `i` is decoded into
/// `<v>_<i>` and stored at index `i` of `v`.
pub open spec fn tuple_stmts(es: Seq<TypeShape>, v: Seq<char>, o: Seq<char>) -> Seq<char>
    decreases es, 0int,
{
    if es.len() == 0 {
        Seq::empty()
    } else {
        let i = (es.len() - 1) as nat;
        tuple_stmts(es.drop_last(), v, o) + ts_decode_stmt(es.last(), indexed(v, "_"@, i), o)
            + " "@ + v + "["@ + decimal(i) + "] = "@ + indexed(v, "_"@, i) + ";\n"@
    }
}

/// The statements of a struct's fields: field `i` is decoded into
/// `<v>_f<i>`, each on its own line.
pub open spec fn struct_stmts(fs: Seq<(String, TypeShape)>, v: Seq<char>, o: Seq<char>) -> Seq<
    char,
>
    decreases fs, 0int,
{
    if fs.len() == 0 {
        Seq::empty()
    } else {
        struct_stmts(fs.drop_last(), v, o) + ts_decode_stmt(
            fs.last().1,
            indexed(v, "_f"@, (fs.len() - 1) as nat),
            o,
        ) + "\n"@
    }
}

/// The statements of a variant's fields, indented inside its case.
pub open spec fn variant_stmts(fs: Seq<(String, TypeShape)>, v: Seq<char>, o: Seq<char>) -> Seq<
    char,
>
    decreases fs, 0int,
{
    if fs.len() == 0 {
        Seq::empty()
    } else {
        variant_stmts(fs.drop_last(), v, o) + "    "@ + ts_decode_stmt(
            fs.last().1,
            indexed(v, "_f"@, (fs.len() - 1) as nat),
            o,
        ) + "\n"@
    }
}

/// The `case` of variant number `i` in the decoding switch.
pub open spec fn stmt_case(var: (String, VariantKind), i: nat, v: Seq<char>, o: Seq<char>) -> Seq<
    char,
>
    decreases var, 0int,
{
    "  case "@ + decimal(i) + ": {\n"@ + match var.1 {
        VariantKind::Unit => "    "@ + v + " = { tag: '"@ + var.0@ + "' };\n"@,
        VariantKind::Newtype(inner) => "    "@ + ts_decode_stmt(inner, v + "_inner"@, o) + "\n"@
            + "    "@ + v + " = { tag: '"@ + var.0@ + "', value: "@ + v + "_inner };\n"@,
        VariantKind::Tuple(fs) => variant_stmts(fs@, v, o) + "    "@ + v + " = { tag: '"@ + var.0@
            + "'"@ + variant_assigns(fs@, v) + " };\n"@,
        VariantKind::Struct(fs) => variant_stmts(fs@, v, o) + "    "@ + v + " = { tag: '"@
            + var.0@ + "'"@ + variant_assigns(fs@, v) + " };\n"@,
    } + "    break;\n  }\n"@
}

/// The cases of all variants in the decoding switch, in order.
pub open spec fn stmt_cases(vs: Seq<(String, VariantKind)>, v: Seq<char>, o: Seq<char>) -> Seq<
    char,
>
    decreases vs, 0int,
{
    if vs.len() == 0 {
        Seq::empty()
    } else {
        stmt_cases(vs.drop_last(), v, o) + stmt_case(vs.last(), (vs.len() - 1) as nat, v, o)
    }
}

/// `v` followed by `infix` and the decimal index `i`.
fn indexed_name(v: &str, infix: &str, i: usize) -> (r: String)
    ensures
        r@ == indexed(v@, infix@, i as nat),
{
    let mut r = v.to_string();
    r.append(infix);
    push_decimal(&mut r, i as u64);
    r
}

/// The statement that runs `call` and binds its (wrapped) value to `v`.
fn bind_result_text(v: &str, o: &str, call: &str, open: &str, close: &str) -> (r: String)
    ensures
        r@ == bind_result(v@, o@, call@, open@, close@),
{
    let mut r = "const _".to_string();
    r.append(v);
    r.append("_r = ");
    r.append(call);
    r.append("; const ");
    r.append(v);
    r.append(" = ");
    r.append(open);
    r.append("_");
    r.append(v);
    r.append("_r.value");
    r.append(close);
    r.append("; ");
    r.append(o);
    r.append(" = _");
    r.append(v);
    r.append("_r.next;");
    r
}

/// The runtime decoder of a scalar, if it has one.
fn scalar_decoder_name(s: ScalarType) -> (r: Option<&'static str>)
    ensures
        r is None <==> scalar_decoder(s) is None,
        r matches Some(n) ==> scalar_decoder(s) == Some(n@),
{
    match s {
        ScalarType::Bool => Some("decodeBool"),
        ScalarType::U8 => Some("decodeU8"),
        ScalarType::I8 => Some("decodeI8"),
        ScalarType::U16 => Some("decodeU16"),
        ScalarType::I16 => Some("decodeI16"),
        ScalarType::U32 => Some("decodeU32"),
        ScalarType::I32 => Some("decodeI32"),
        ScalarType::U64 | ScalarType::USize | ScalarType::U128 => Some("decodeU64"),
        ScalarType::I64 | ScalarType::ISize | ScalarType::I128 => Some("decodeI64"),
        ScalarType::F32 => Some("decodeF32"),
        ScalarType::F64 => Some("decodeF64"),
        ScalarType::Char | ScalarType::Str | ScalarType::String | ScalarType::CowStr => Some(
            "decodeString",
        ),
        ScalarType::Unit => None,
        ScalarType::Other => None,
    }
}

/// The statement that decodes a scalar into `v`.
pub fn decode_scalar_stmt(s: ScalarType, v: &str, o: &str) -> (r: String)
    ensures
        r@ == decode_scalar(s, v@, o@),
{
    match scalar_decoder_name(s) {
        Some(name) => {
            let mut call = name.to_string();
            call.append("(buf, ");
            call.append(o);
            call.append(")");
            bind_result_text(v, o, call.as_str(), "", "")
        },
        None => {
            if let ScalarType::Unit = s {
                around("const ", v, " = undefined;")
            } else {
                around("const ", v, " = undefined; /* unsupported scalar */")
            }
        },
    }
}

/// The decoder function of a scalar.
pub fn decode_scalar_fn(s: ScalarType) -> (r: String)
    ensures
        r@ == decode_scalar_fn_text(s),
{
    match scalar_decoder_name(s) {
        Some(name) => around("(buf, off) => ", name, "(buf, off)"),
        None => {
            if let ScalarType::Unit = s {
                "(buf, off) => ({ value: undefined, next: off })".to_string()
            } else {
                "(buf, off) => { throw new Error('unsupported scalar'); }".to_string()
            }
        },
    }
}

/// Field assignments `name: <prefix>i`, joined with `, `.
fn field_assigns_text(fs: &Vec<(String, TypeShape)>, prefix: &str) -> (s: String)
    ensures
        s@ == field_assigns(fs@, prefix@),
{
    let mut s = String::new();
    let mut i: usize = 0;
    while i < fs.len()
        invariant
            i <= fs@.len(),
            s@ == field_assigns(fs@.subrange(0, i as int), prefix@),
        decreases fs.len() - i,
    {
        let ghost sub = fs@.subrange(0, i + 1);
        assert(sub.drop_last() == fs@.subrange(0, i as int));
        assert(sub.last() == fs@[i as int]);
        if i > 0 {
            s.append(", ");
        }
        s.append(fs[i].0.as_str());
        s.append(": ");
        let name = indexed_name(prefix, "", i);
        s.append(name.as_str());
        i = i + 1;
    }
    assert(fs@.subrange(0, fs@.len() as int) == fs@);
    s
}

/// Field assignments `, name: <v>_f<i>`.
fn variant_assigns_text(fs: &Vec<(String, TypeShape)>, v: &str) -> (s: String)
    ensures
        s@ == variant_assigns(fs@, v@),
{
    let mut s = String::new();
    let mut i: usize = 0;
    while i < fs.len()
        invariant
            i <= fs@.len(),
            s@ == variant_assigns(fs@.subrange(0, i as int), v@),
        decreases fs.len() - i,
    {
        let ghost sub = fs@.subrange(0, i + 1);
        assert(sub.drop_last() == fs@.subrange(0, i as int));
        assert(sub.last() == fs@[i as int]);
        s.append(", ");
        s.append(fs[i].0.as_str());
        s.append(": ");
        let name = indexed_name(v, "_f", i);
        s.append(name.as_str());
        i = i + 1;
    }
    assert(fs@.subrange(0, fs@.len() as int) == fs@);
    s
}

/// The call of the map decoder.
fn map_call_text(o: &str, dk: &str, dv: &str) -> (r: String)
    ensures
        r@ == map_call(o@, dk@, dv@),
{
    let mut r = "decodeVec(buf, ".to_string();
    r.append(o);
    r.append(", (buf, off) => { const kr = (");
    r.append(dk);
    r.append(")(buf, off); const vr = (");
    r.append(dv);
    r.append(
        ")(buf, kr.next); return { value: [kr.value, vr.value] as [any, any], next: vr.next }; })",
    );
    r
}

/// The decoder function (`(buf, off) => result`) of a shape, for the
/// containers' decoding helpers.
pub fn generate_decode_fn(t: &TypeShape) -> (s: String)
    ensures
        s@ == ts_decode_fn(*t),
    decreases t, 1int,
{
    if let TypeShape::List(e) = t {
        if let TypeShape::Scalar(ScalarType::U8) = &**e {
            return "(buf, off) => decodeBytes(buf, off)".to_string();
        }
    }
    match t {
        TypeShape::Scalar(sc) => decode_scalar_fn(*sc),
        TypeShape::List(e) | TypeShape::Array(e, _) | TypeShape::Slice(e) => {
            let inner = generate_decode_fn(e);
            around("(buf, off) => decodeVec(buf, off, ", inner.as_str(), ")")
        },
        TypeShape::Option(e) => {
            let inner = generate_decode_fn(e);
            around("(buf, off) => decodeOption(buf, off, ", inner.as_str(), ")")
        },
        TypeShape::Tuple(es) => {
            if es.len() == 2 {
                let mut s = "(buf, off) => decodeTuple2(buf, off, ".to_string();
                let a = generate_decode_fn(&es[0]);
                s.append(a.as_str());
                s.append(", ");
                let b = generate_decode_fn(&es[1]);
                s.append(b.as_str());
                s.append(")");
                s
            } else if es.len() == 3 {
                let mut s = "(buf, off) => decodeTuple3(buf, off, ".to_string();
                let a = generate_decode_fn(&es[0]);
                s.append(a.as_str());
                s.append(", ");
                let b = generate_decode_fn(&es[1]);
                s.append(b.as_str());
                s.append(", ");
                let c = generate_decode_fn(&es[2]);
                s.append(c.as_str());
                s.append(")");
                s
            } else if es.len() == 0 {
                "(buf, off) => ({ value: undefined, next: off })".to_string()
            } else {
                "(buf, off) => { throw new Error('unsupported type'); }".to_string()
            }
        },
        TypeShape::Struct(_, fs) => {
            if fs.len() == 0 {
                "(buf, off) => ({ value: undefined, next: off })".to_string()
            } else {
                let mut s = "(buf: Uint8Array, off: number) => { let o = off;\n".to_string();
                let stmts = fn_field_stmts_text(fs);
                s.append(stmts.as_str());
                s.append("  return { value: { ");
                let assigns = field_assigns_text(fs, "f");
                s.append(assigns.as_str());
                s.append(" }, next: o };\n}");
                s
            }
        },
        TypeShape::Enum(_, vs) => {
            let mut s = "(buf: Uint8Array, off: number): DecodeResult<any> => { let o = off;\n".to_string();
            s.append("  const disc = decodeEnumVariant(buf, o); o = disc.next;\n");
            s.append("  switch (disc.value) {\n");
            let cases = fn_cases_text(vs);
            s.append(cases.as_str());
            s.append("    default: throw new Error(`unknown enum variant: ${disc.value}`);\n  }\n}");
            s
        },
        TypeShape::Pointer(p) => generate_decode_fn(p),
        _ => "(buf, off) => { throw new Error('unsupported type'); }".to_string(),
    }
}

/// Inside a struct decoder: one statement per field.
fn fn_field_stmts_text(fs: &Vec<(String, TypeShape)>) -> (s: String)
    ensures
        s@ == fn_field_stmts(fs@),
    decreases fs, 0int,
{
    let mut s = String::new();
    let mut i: usize = 0;
    while i < fs.len()
        invariant
            i <= fs@.len(),
            s@ == fn_field_stmts(fs@.subrange(0, i as int)),
        decreases fs.len() - i,
    {
        let ghost sub = fs@.subrange(0, i + 1);
        assert(sub.drop_last() == fs@.subrange(0, i as int));
        assert(sub.last() == fs@[i as int]);
        s.append("  ");
        let name = indexed_name("f", "", i);
        let stmt = generate_decode_stmt(&fs[i].1, name.as_str(), "o");
        s.append(stmt.as_str());
        s.append("\n");
        i = i + 1;
    }
    assert(fs@.subrange(0, fs@.len() as int) == fs@);
    s
}

/// Inside an enum decoder: one statement per field of a variant.
fn fn_variant_stmts_text(fs: &Vec<(String, TypeShape)>) -> (s: String)
    ensures
        s@ == fn_variant_stmts(fs@),
    decreases fs, 0int,
{
    let mut s = String::new();
    let mut i: usize = 0;
    while i < fs.len()
        invariant
            i <= fs@.len(),
            s@ == fn_variant_stmts(fs@.subrange(0, i as int)),
        decreases fs.len() - i,
    {
        let ghost sub = fs@.subrange(0, i + 1);
        assert(sub.drop_last() == fs@.subrange(0, i as int));
        assert(sub.last() == fs@[i as int]);
        s.append("      ");
        let name = indexed_name("f", "", i);
        let stmt = generate_decode_stmt(&fs[i].1, name.as_str(), "o");
        s.append(stmt.as_str());
        s.append("\n");
        i = i + 1;
    }
    assert(fs@.subrange(0, fs@.len() as int) == fs@);
    s
}

/// Inside an enum decoder: the `case` of variant number `i`.
fn fn_case_text(v: &(String, VariantKind), i: usize) -> (s: String)
    ensures
        s@ == fn_case(*v, i as nat),
    decreases v, 0int,
{
    let mut tail = String::new();
    match &v.1 {
        VariantKind::Unit => {
            tail.append("return { value: { tag: '");
            tail.append(v.0.as_str());
            tail.append("' }, next: o };\n");
        },
        VariantKind::Newtype(inner) => {
            tail.append("{\n");
            tail.append("      ");
            let stmt = generate_decode_stmt(inner, "val", "o");
            tail.append(stmt.as_str());
            tail.append("\n");
            tail.append("      return { value: { tag: '");
            tail.append(v.0.as_str());
            tail.append("', value: val }, next: o };\n");
            tail.append("    }\n");
        },
        VariantKind::Tuple(fs) | VariantKind::Struct(fs) => {
            tail.append("{\n");
            let stmts = fn_variant_stmts_text(fs);
            tail.append(stmts.as_str());
            tail.append("      return { value: { tag: '");
            tail.append(v.0.as_str());
            tail.append("', ");
            let assigns = field_assigns_text(fs, "f");
            tail.append(assigns.as_str());
            tail.append(" }, next: o };\n    }\n");
        },
    }
    let mut s = "    case ".to_string();
    push_decimal(&mut s, i as u64);
    s.append(": ");
    s.append(tail.as_str());
    s
}

/// Inside an enum decoder: the cases of all variants, in order.
fn fn_cases_text(vs: &Vec<(String, VariantKind)>) -> (s: String)
    ensures
        s@ == fn_cases(vs@),
    decreases vs, 0int,
{
    let mut s = String::new();
    let mut i: usize = 0;
    while i < vs.len()
        invariant
            i <= vs@.len(),
            s@ == fn_cases(vs@.subrange(0, i as int)),
        decreases vs.len() - i,
    {
        let ghost sub = vs@.subrange(0, i + 1);
        assert(sub.drop_last() == vs@.subrange(0, i as int));
        assert(sub.last() == vs@[i as int]);
        let c = fn_case_text(&vs[i], i);
        s.append(c.as_str());
        i = i + 1;
    }
    assert(vs@.subrange(0, vs@.len() as int) == vs@);
    s
}

/// The statement that decodes a value of shape `t` into the variable `v`,
/// reading at and advancing the offset variable `o`.
pub fn generate_decode_stmt(t: &TypeShape, v: &str, o: &str) -> (s: String)
    ensures
        s@ == ts_decode_stmt(*t, v@, o@),
    decreases t, 1int,
{
    if let TypeShape::List(e) = t {
        if let TypeShape::Scalar(ScalarType::U8) = &**e {
            let call = around("decodeBytes(buf, ", o, ")");
            return bind_result_text(v, o, call.as_str(), "", "");
        }
    }
    match t {
        TypeShape::Scalar(sc) => decode_scalar_stmt(*sc, v, o),
        TypeShape::List(e) | TypeShape::Array(e, _) | TypeShape::Slice(e) => {
            let mut call = "decodeVec(buf, ".to_string();
            call.append(o);
            call.append(", ");
            let f = generate_decode_fn(e);
            call.append(f.as_str());
            call.append(")");
            bind_result_text(v, o, call.as_str(), "", "")
        },
        TypeShape::Option(e) => {
            let mut call = "decodeOption(buf, ".to_string();
            call.append(o);
            call.append(", ");
            let f = generate_decode_fn(e);
            call.append(f.as_str());
            call.append(")");
            bind_result_text(v, o, call.as_str(), "", "")
        },
        TypeShape::Tuple(es) => {
            if es.len() == 2 {
                let mut call = "decodeTuple2(buf, ".to_string();
                call.append(o);
                call.append(", ");
                let a = generate_decode_fn(&es[0]);
                call.append(a.as_str());
                call.append(", ");
                let b = generate_decode_fn(&es[1]);
                call.append(b.as_str());
                call.append(")");
                bind_result_text(v, o, call.as_str(), "", "")
            } else if es.len() == 3 {
                let mut call = "decodeTuple3(buf, ".to_string();
                call.append(o);
                call.append(", ");
                let a = generate_decode_fn(&es[0]);
                call.append(a.as_str());
                call.append(", ");
                let b = generate_decode_fn(&es[1]);
                call.append(b.as_str());
                call.append(", ");
                let c = generate_decode_fn(&es[2]);
                call.append(c.as_str());
                call.append(")");
                bind_result_text(v, o, call.as_str(), "", "")
            } else if es.len() == 0 {
                around("const ", v, " = undefined;")
            } else {
                let mut s = "const ".to_string();
                s.append(v);
                s.append(": [");
                let tys = crate::shapes::ts_types_of(es);
                s.append(tys.as_str());
                s.append("] = [] as any;\n");
                let items = tuple_stmts_text(es, v, o);
                s.append(items.as_str());
                s
            }
        },
        TypeShape::Struct(_, fs) => {
            if fs.len() == 0 {
                around("const ", v, " = undefined;")
            } else {
                let mut s = struct_stmts_text(fs, v, o);
                s.append("const ");
                s.append(v);
                s.append(" = { ");
                let mut prefix = v.to_string();
                prefix.append("_f");
                let assigns = field_assigns_text(fs, prefix.as_str());
                s.append(assigns.as_str());
                s.append(" };");
                s
            }
        },
        TypeShape::Enum(_, vs) => {
            let mut s = "const _".to_string();
            s.append(v);
            s.append("_disc = decodeEnumVariant(buf, ");
            s.append(o);
            s.append("); ");
            s.append(o);
            s.append(" = _");
            s.append(v);
            s.append("_disc.next;\n");
            s.append("let ");
            s.append(v);
            s.append(": ");
            let ty = ts_type_base_named(t);
            s.append(ty.as_str());
            s.append(";\n");
            s.append("switch (_");
            s.append(v);
            s.append("_disc.value) {\n");
            let cases = stmt_cases_text(vs, v, o);
            s.append(cases.as_str());
            s.append("  default: throw new Error(`unknown enum variant ${_");
            s.append(v);
            s.append("_disc.value}`);\n}");
            s
        },
        TypeShape::MapOf(k, val) => {
            let dk = generate_decode_fn(k);
            let dv = generate_decode_fn(val);
            let call = map_call_text(o, dk.as_str(), dv.as_str());
            bind_result_text(v, o, call.as_str(), "new Map(", ")")
        },
        TypeShape::SetOf(e) => {
            let mut call = "decodeVec(buf, ".to_string();
            call.append(o);
            call.append(", ");
            let f = generate_decode_fn(e);
            call.append(f.as_str());
            call.append(")");
            bind_result_text(v, o, call.as_str(), "new Set(", ")")
        },
        TypeShape::Tx(inner) => {
            let call = around("decodeU64(buf, ", o, ")");
            let ty = ts_type_base_named(inner);
            let close = around(" } as Tx<", ty.as_str(), ">");
            bind_result_text(v, o, call.as_str(), "{ streamId: ", close.as_str())
        },
        TypeShape::Rx(inner) => {
            let call = around("decodeU64(buf, ", o, ")");
            let ty = ts_type_base_named(inner);
            let close = around(" } as Rx<", ty.as_str(), ">");
            bind_result_text(v, o, call.as_str(), "{ streamId: ", close.as_str())
        },
        TypeShape::Pointer(p) => generate_decode_stmt(p, v, o),
        TypeShape::Result(_, _) => around(
            "const ",
            v,
            " = undefined; /* Result type decoding not yet implemented */",
        ),
        TypeShape::Opaque => around("const ", v, " = undefined; /* unsupported type */"),
    }
}

/// The statements of a tuple's elements.
fn tuple_stmts_text(es: &Vec<TypeShape>, v: &str, o: &str) -> (s: String)
    ensures
        s@ == tuple_stmts(es@, v@, o@),
    decreases es, 0int,
{
    let mut s = String::new();
    let mut i: usize = 0;
    while i < es.len()
        invariant
            i <= es@.len(),
            s@ == tuple_stmts(es@.subrange(0, i as int), v@, o@),
        decreases es.len() - i,
    {
        let ghost sub = es@.subrange(0, i + 1);
        assert(sub.drop_last() == es@.subrange(0, i as int));
        assert(sub.last() == es@[i as int]);
        let item = indexed_name(v, "_", i);
        let stmt = generate_decode_stmt(&es[i], item.as_str(), o);
        s.append(stmt.as_str());
        s.append(" ");
        s.append(v);
        s.append("[");
        push_decimal(&mut s, i as u64);
        s.append("] = ");
        s.append(item.as_str());
        s.append(";\n");
        i = i + 1;
    }
    assert(es@.subrange(0, es@.len() as int) == es@);
    s
}

/// The statements of a struct's fields.
fn struct_stmts_text(fs: &Vec<(String, TypeShape)>, v: &str, o: &str) -> (s: String)
    ensures
        s@ == struct_stmts(fs@, v@, o@),
    decreases fs, 0int,
{
    let mut s = String::new();
    let mut i: usize = 0;
    while i < fs.len()
        invariant
            i <= fs@.len(),
            s@ == struct_stmts(fs@.subrange(0, i as int), v@, o@),
        decreases fs.len() - i,
    {
        let ghost sub = fs@.subrange(0, i + 1);
        assert(sub.drop_last() == fs@.subrange(0, i as int));
        assert(sub.last() == fs@[i as int]);
        let name = indexed_name(v, "_f", i);
        let stmt = generate_decode_stmt(&fs[i].1, name.as_str(), o);
        s.append(stmt.as_str());
        s.append("\n");
        i = i + 1;
    }
    assert(fs@.subrange(0, fs@.len() as int) == fs@);
    s
}

/// The statements of a variant's fields.
fn variant_stmts_text(fs: &Vec<(String, TypeShape)>, v: &str, o: &str) -> (s: String)
    ensures
        s@ == variant_stmts(fs@, v@, o@),
    decreases fs, 0int,
{
    let mut s = String::new();
    let mut i: usize = 0;
    while i < fs.len()
        invariant
            i <= fs@.len(),
            s@ == variant_stmts(fs@.subrange(0, i as int), v@, o@),
        decreases fs.len() - i,
    {
        let ghost sub = fs@.subrange(0, i + 1);
        assert(sub.drop_last() == fs@.subrange(0, i as int));
        assert(sub.last() == fs@[i as int]);
        s.append("    ");
        let name = indexed_name(v, "_f", i);
        let stmt = generate_decode_stmt(&fs[i].1, name.as_str(), o);
        s.append(stmt.as_str());
        s.append("\n");
        i = i + 1;
    }
    assert(fs@.subrange(0, fs@.len() as int) == fs@);
    s
}

/// The `case` of variant number `i` in the decoding switch.
fn stmt_case_text(var: &(String, VariantKind), i: usize, v: &str, o: &str) -> (s: String)
    ensures
        s@ == stmt_case(*var, i as nat, v@, o@),
    decreases var, 0int,
{
    let mut body = String::new();
    match &var.1 {
        VariantKind::Unit => {
            body.append("    ");
            body.append(v);
            body.append(" = { tag: '");
            body.append(var.0.as_str());
            body.append("' };\n");
        },
        VariantKind::Newtype(inner) => {
            body.append("    ");
            let mut inner_var = v.to_string();
            inner_var.append("_inner");
            let stmt = generate_decode_stmt(inner, inner_var.as_str(), o);
            body.append(stmt.as_str());
            body.append("\n");
            body.append("    ");
            body.append(v);
            body.append(" = { tag: '");
            body.append(var.0.as_str());
            body.append("', value: ");
            body.append(v);
            body.append("_inner };\n");
        },
        VariantKind::Tuple(fs) | VariantKind::Struct(fs) => {
            let stmts = variant_stmts_text(fs, v, o);
            body.append(stmts.as_str());
            body.append("    ");
            body.append(v);
            body.append(" = { tag: '");
            body.append(var.0.as_str());
            body.append("'");
            let assigns = variant_assigns_text(fs, v);
            body.append(assigns.as_str());
            body.append(" };\n");
        },
    }
    let mut s = "  case ".to_string();
    push_decimal(&mut s, i as u64);
    s.append(": {\n");
    s.append(body.as_str());
    s.append("    break;\n  }\n");
    s
}

/// The cases of all variants in the decoding switch, in order.
fn stmt_cases_text(vs: &Vec<(String, VariantKind)>, v: &str, o: &str) -> (s: String)
    ensures
        s@ == stmt_cases(vs@, v@, o@),
    decreases vs, 0int,
{
    let mut s = String::new();
    let mut i: usize = 0;
    while i < vs.len()
        invariant
            i <= vs@.len(),
            s@ == stmt_cases(vs@.subrange(0, i as int), v@, o@),
        decreases vs.len() - i,
    {
        let ghost sub = vs@.subrange(0, i + 1);
        assert(sub.drop_last() == vs@.subrange(0, i as int));
        assert(sub.last() == vs@[i as int]);
        let c = stmt_case_text(&vs[i], i, v, o);
        s.append(c.as_str());
        i = i + 1;
    }
    assert(vs@.subrange(0, vs@.len() as int) == vs@);
    s
}

/// The decoding statement of a value a client receives: a channel handle
/// is rebuilt from its channel id.
pub open spec fn ts_decode_stmt_directional(t: TypeShape, v: Seq<char>, o: Seq<char>) -> Seq<
    char,
> {
    match t {
        TypeShape::Tx(inner) => bind_result(
            v,
            o,
            "decodeU64(buf, "@ + o + ")"@,
            "{ streamId: "@,
            " } as Tx<"@ + ts_ty(*inner) + ">"@,
        ) + " /* TODO: create real Tx handle */"@,
        TypeShape::Rx(inner) => bind_result(
            v,
            o,
            "decodeU64(buf, "@ + o + ")"@,
            "{ streamId: "@,
            " } as Rx<"@ + ts_ty(*inner) + ">"@,
        ) + " /* TODO: create real Rx handle */"@,
        _ => ts_decode_stmt(t, v, o),
    }
}

/// The decoding statement of a channel handle with its direction.
fn channel_decode_stmt(inner: &TypeShape, v: &str, o: &str, tx: bool) -> (s: String)
    ensures
        tx ==> s@ == bind_result(
            v@,
            o@,
            "decodeU64(buf, "@ + o@ + ")"@,
            "{ streamId: "@,
            " } as Tx<"@ + ts_ty(*inner) + ">"@,
        ) + " /* TODO: create real Tx handle */"@,
        !tx ==> s@ == bind_result(
            v@,
            o@,
            "decodeU64(buf, "@ + o@ + ")"@,
            "{ streamId: "@,
            " } as Rx<"@ + ts_ty(*inner) + ">"@,
        ) + " /* TODO: create real Rx handle */"@,
{
    let call = around("decodeU64(buf, ", o, ")");
    let ty = crate::shapes::ts_type_client_return(inner);
    let close = if tx {
        around(" } as Tx<", ty.as_str(), ">")
    } else {
        around(" } as Rx<", ty.as_str(), ">")
    };
    let mut s = bind_result_text(v, o, call.as_str(), "{ streamId: ", close.as_str());
    if tx {
        s.append(" /* TODO: create real Tx handle */");
    } else {
        s.append(" /* TODO: create real Rx handle */");
    }
    s
}

/// The statement that decodes a value on the client side.
pub fn generate_decode_stmt_client(t: &TypeShape, v: &str, o: &str) -> (s: String)
    ensures
        s@ == ts_decode_stmt_directional(*t, v@, o@),
{
    match t {
        TypeShape::Tx(inner) => channel_decode_stmt(inner, v, o, true),
        TypeShape::Rx(inner) => channel_decode_stmt(inner, v, o, false),
        _ => generate_decode_stmt(t, v, o),
    }
}

/// The statement that decodes a value on the server side.
pub fn generate_decode_stmt_server(t: &TypeShape, v: &str, o: &str) -> (s: String)
    ensures
        s@ == ts_decode_stmt_directional(*t, v@, o@),
{
    match t {
        TypeShape::Tx(inner) => channel_decode_stmt(inner, v, o, true),
        TypeShape::Rx(inner) => channel_decode_stmt(inner, v, o, false),
        _ => generate_decode_stmt(t, v, o),
    }
}

/// Whether values of a shape can be fully encoded and decoded: everything
/// but `Result` and opaque types, wherever they occur.
pub open spec fn fully_supported(t: TypeShape) -> bool
    decreases t, 1int,
{
    match t {
        TypeShape::Tx(e) => fully_supported(*e),
        TypeShape::Rx(e) => fully_supported(*e),
        TypeShape::List(e) => fully_supported(*e),
        TypeShape::Option(e) => fully_supported(*e),
        TypeShape::SetOf(e) => fully_supported(*e),
        TypeShape::Array(e, _) => fully_supported(*e),
        TypeShape::Slice(e) => fully_supported(*e),
        TypeShape::MapOf(k, v) => fully_supported(*k) && fully_supported(*v),
        TypeShape::Tuple(es) => all_supported(es@),
        TypeShape::Struct(_, fs) => fields_supported(fs@),
        TypeShape::Enum(_, vs) => variants_supported(vs@),
        TypeShape::Pointer(p) => fully_supported(*p),
        TypeShape::Scalar(_) => true,
        TypeShape::Result(_, _) => false,
        TypeShape::Opaque => false,
    }
}

/// Whether every shape of a list is fully supported.
pub open spec fn all_supported(ts: Seq<TypeShape>) -> bool
    decreases ts, 0int,
{
    ts.len() == 0 || (all_supported(ts.drop_last()) && fully_supported(ts.last()))
}

/// Whether every field of a list is fully supported.
pub open spec fn fields_supported(fs: Seq<(String, TypeShape)>) -> bool
    decreases fs, 0int,
{
    fs.len() == 0 || (fields_supported(fs.drop_last()) && fully_supported(fs.last().1))
}

/// Whether every variant's payload is fully supported.
pub open spec fn variants_supported(vs: Seq<(String, VariantKind)>) -> bool
    decreases vs, 0int,
{
    vs.len() == 0 || (variants_supported(vs.drop_last()) && match vs.last().1 {
        VariantKind::Unit => true,
        VariantKind::Newtype(inner) => fully_supported(inner),
        VariantKind::Tuple(fs) => fields_supported(fs@),
        VariantKind::Struct(fs) => fields_supported(fs@),
    })
}

/// Whether values of a shape can be fully encoded and decoded.
pub fn is_fully_supported(t: &TypeShape) -> (b: bool)
    ensures
        b == fully_supported(*t),
    decreases t, 1int,
{
    match t {
        TypeShape::Tx(e) | TypeShape::Rx(e) | TypeShape::List(e) | TypeShape::Option(e)
        | TypeShape::SetOf(e) | TypeShape::Array(e, _) | TypeShape::Slice(e) => is_fully_supported(
            e,
        ),
        TypeShape::MapOf(k, v) => is_fully_supported(k) && is_fully_supported(v),
        TypeShape::Tuple(es) => all_types_supported(es),
        TypeShape::Struct(_, fs) => all_fields_supported(fs),
        TypeShape::Enum(_, vs) => all_variants_supported(vs),
        TypeShape::Pointer(p) => is_fully_supported(p),
        TypeShape::Scalar(_) => true,
        TypeShape::Result(_, _) => false,
        TypeShape::Opaque => false,
    }
}

fn all_types_supported(ts: &Vec<TypeShape>) -> (b: bool)
    ensures
        b == all_supported(ts@),
    decreases ts, 0int,
{
    let mut i: usize = 0;
    while i < ts.len()
        invariant
            i <= ts@.len(),
            all_supported(ts@.subrange(0, i as int)),
        decreases ts.len() - i,
    {
        let ghost sub = ts@.subrange(0, i + 1);
        assert(sub.drop_last() == ts@.subrange(0, i as int));
        if !is_fully_supported(&ts[i]) {
            proof {
                lemma_all_supported_prefix(ts@, i as int);
            }
            return false;
        }
        i = i + 1;
    }
    assert(ts@.subrange(0, ts@.len() as int) == ts@);
    true
}

fn all_fields_supported(fs: &Vec<(String, TypeShape)>) -> (b: bool)
    ensures
        b == fields_supported(fs@),
    decreases fs, 0int,
{
    let mut i: usize = 0;
    while i < fs.len()
        invariant
            i <= fs@.len(),
            fields_supported(fs@.subrange(0, i as int)),
        decreases fs.len() - i,
    {
        let ghost sub = fs@.subrange(0, i + 1);
        assert(sub.drop_last() == fs@.subrange(0, i as int));
        if !is_fully_supported(&fs[i].1) {
            proof {
                lemma_fields_supported_prefix(fs@, i as int);
            }
            return false;
        }
        i = i + 1;
    }
    assert(fs@.subrange(0, fs@.len() as int) == fs@);
    true
}

fn variant_supported(v: &(String, VariantKind)) -> (b: bool)
    ensures
        b == match v.1 {
            VariantKind::Unit => true,
            VariantKind::Newtype(inner) => fully_supported(inner),
            VariantKind::Tuple(fs) => fields_supported(fs@),
            VariantKind::Struct(fs) => fields_supported(fs@),
        },
    decreases v, 0int,
{
    match &v.1 {
        VariantKind::Unit => true,
        VariantKind::Newtype(inner) => is_fully_supported(inner),
        VariantKind::Tuple(fs) | VariantKind::Struct(fs) => all_fields_supported(fs),
    }
}

fn all_variants_supported(vs: &Vec<(String, VariantKind)>) -> (b: bool)
    ensures
        b == variants_supported(vs@),
    decreases vs, 0int,
{
    let mut i: usize = 0;
    while i < vs.len()
        invariant
            i <= vs@.len(),
            variants_supported(vs@.subrange(0, i as int)),
        decreases vs.len() - i,
    {
        let ghost sub = vs@.subrange(0, i + 1);
        assert(sub.drop_last() == vs@.subrange(0, i as int));
        if !variant_supported(&vs[i]) {
            proof {
                lemma_variants_supported_prefix(vs@, i as int);
            }
            return false;
        }
        i = i + 1;
    }
    assert(vs@.subrange(0, vs@.len() as int) == vs@);
    true
}

/// A list with an unsupported element at `i` is not fully supported.
proof fn lemma_all_supported_prefix(ts: Seq<TypeShape>, i: int)
    requires
        0 <= i < ts.len(),
        !fully_supported(ts[i]),
    ensures
        !all_supported(ts),
    decreases ts.len(),
{
    if i < ts.len() - 1 {
        lemma_all_supported_prefix(ts.drop_last(), i);
    }
}

/// A field list with an unsupported field at `i` is not fully supported.
proof fn lemma_fields_supported_prefix(fs: Seq<(String, TypeShape)>, i: int)
    requires
        0 <= i < fs.len(),
        !fully_supported(fs[i].1),
    ensures
        !fields_supported(fs),
    decreases fs.len(),
{
    if i < fs.len() - 1 {
        lemma_fields_supported_prefix(fs.drop_last(), i);
    }
}

/// A variant list with an unsupported variant at `i` is not fully supported.
proof fn lemma_variants_supported_prefix(vs: Seq<(String, VariantKind)>, i: int)
    requires
        0 <= i < vs.len(),
        !(match vs[i].1 {
            VariantKind::Unit => true,
            VariantKind::Newtype(inner) => fully_supported(inner),
            VariantKind::Tuple(fs) => fields_supported(fs@),
            VariantKind::Struct(fs) => fields_supported(fs@),
        }),
    ensures
        !variants_supported(vs),
    decreases vs.len(),
{
    if i < vs.len() - 1 {
        lemma_variants_supported_prefix(vs.drop_last(), i);
    }
}


/// Whether a scalar is a signed integer.
pub open spec fn is_signed_integer(s: ScalarType) -> bool {
    s is I8 || s is I16 || s is I32 || s is I64 || s is ISize || s is I128
}

/// Whether a scalar is an unsigned integer.
pub open spec fn is_unsigned_integer(s: ScalarType) -> bool {
    s is U8 || s is U16 || s is U32 || s is U64 || s is USize || s is U128
}

/// The encoder a scalar gets is the counterpart of its decoder
/// (`encodeX` for `decodeX`), so what one side writes the other reads back;
/// in particular signed integers are written with the signed (zigzag)
/// encoders `encodeI..` and unsigned ones with the unsigned `encodeU..`.
pub proof fn law_encoder_matches_decoder(s: ScalarType, x: Seq<char>)
    ensures
        scalar_decoder(s) matches Some(d) ==> encode_scalar(s, x) == "encode"@ + d.skip(6) + "("@
            + x + ")"@,
        is_signed_integer(s) ==> encode_scalar(s, x).take(7) == "encodeI"@,
        is_unsigned_integer(s) ==> encode_scalar(s, x).take(7) == "encodeU"@,
{
    match s {
        ScalarType::Bool => {
            reveal_strlit("decodeBool");
            reveal_strlit("encodeBool(");
            reveal_strlit("encode");
            reveal_strlit("encodeI");
            reveal_strlit("encodeU");
            reveal_strlit("(");
            reveal_strlit("decodeU64");
            reveal_strlit("decodeI64");
            assert(encode_scalar(s, x) =~= "encode"@ + ("decodeBool"@).skip(6) + "("@ + x + ")"@);
        },
        ScalarType::U8 => {
            reveal_strlit("decodeU8");
            reveal_strlit("encodeU8(");
            reveal_strlit("encode");
            reveal_strlit("encodeI");
            reveal_strlit("encodeU");
            reveal_strlit("(");
            reveal_strlit("decodeU64");
            reveal_strlit("decodeI64");
            assert(encode_scalar(s, x) =~= "encode"@ + ("decodeU8"@).skip(6) + "("@ + x + ")"@);
        },
        ScalarType::I8 => {
            reveal_strlit("decodeI8");
            reveal_strlit("encodeI8(");
            reveal_strlit("encode");
            reveal_strlit("encodeI");
            reveal_strlit("encodeU");
            reveal_strlit("(");
            reveal_strlit("decodeU64");
            reveal_strlit("decodeI64");
            assert(encode_scalar(s, x) =~= "encode"@ + ("decodeI8"@).skip(6) + "("@ + x + ")"@);
        },
        ScalarType::U16 => {
            reveal_strlit("decodeU16");
            reveal_strlit("encodeU16(");
            reveal_strlit("encode");
            reveal_strlit("encodeI");
            reveal_strlit("encodeU");
            reveal_strlit("(");
            reveal_strlit("decodeU64");
            reveal_strlit("decodeI64");
            assert(encode_scalar(s, x) =~= "encode"@ + ("decodeU16"@).skip(6) + "("@ + x + ")"@);
        },
        ScalarType::I16 => {
            reveal_strlit("decodeI16");
            reveal_strlit("encodeI16(");
            reveal_strlit("encode");
            reveal_strlit("encodeI");
            reveal_strlit("encodeU");
            reveal_strlit("(");
            reveal_strlit("decodeU64");
            reveal_strlit("decodeI64");
            assert(encode_scalar(s, x) =~= "encode"@ + ("decodeI16"@).skip(6) + "("@ + x + ")"@);
        },
        ScalarType::U32 => {
            reveal_strlit("decodeU32");
            reveal_strlit("encodeU32(");
            reveal_strlit("encode");
            reveal_strlit("encodeI");
            reveal_strlit("encodeU");
            reveal_strlit("(");
            reveal_strlit("decodeU64");
            reveal_strlit("decodeI64");
            assert(encode_scalar(s, x) =~= "encode"@ + ("decodeU32"@).skip(6) + "("@ + x + ")"@);
        },
        ScalarType::I32 => {
            reveal_strlit("decodeI32");
            reveal_strlit("encodeI32(");
            reveal_strlit("encode");
            reveal_strlit("encodeI");
            reveal_strlit("encodeU");
            reveal_strlit("(");
            reveal_strlit("decodeU64");
            reveal_strlit("decodeI64");
            assert(encode_scalar(s, x) =~= "encode"@ + ("decodeI32"@).skip(6) + "("@ + x + ")"@);
        },
        ScalarType::U64 => {
            reveal_strlit("decodeU64");
            reveal_strlit("encodeU64(");
            reveal_strlit("encode");
            reveal_strlit("encodeI");
            reveal_strlit("encodeU");
            reveal_strlit("(");
            reveal_strlit("decodeU64");
            reveal_strlit("decodeI64");
            assert(encode_scalar(s, x) =~= "encode"@ + ("decodeU64"@).skip(6) + "("@ + x + ")"@);
        },
        ScalarType::USize => {
            reveal_strlit("decodeU64");
            reveal_strlit("encodeU64(");
            reveal_strlit("encode");
            reveal_strlit("encodeI");
            reveal_strlit("encodeU");
            reveal_strlit("(");
            reveal_strlit("decodeU64");
            reveal_strlit("decodeI64");
            assert(encode_scalar(s, x) =~= "encode"@ + ("decodeU64"@).skip(6) + "("@ + x + ")"@);
        },
        ScalarType::U128 => {
            reveal_strlit("decodeU64");
            reveal_strlit("encodeU64(");
            reveal_strlit("encode");
            reveal_strlit("encodeI");
            reveal_strlit("encodeU");
            reveal_strlit("(");
            reveal_strlit("decodeU64");
            reveal_strlit("decodeI64");
            assert(encode_scalar(s, x) =~= "encode"@ + ("decodeU64"@).skip(6) + "("@ + x + ")"@);
        },
        ScalarType::I64 => {
            reveal_strlit("decodeI64");
            reveal_strlit("encodeI64(");
            reveal_strlit("encode");
            reveal_strlit("encodeI");
            reveal_strlit("encodeU");
            reveal_strlit("(");
            reveal_strlit("decodeU64");
            reveal_strlit("decodeI64");
            assert(encode_scalar(s, x) =~= "encode"@ + ("decodeI64"@).skip(6) + "("@ + x + ")"@);
        },
        ScalarType::ISize => {
            reveal_strlit("decodeI64");
            reveal_strlit("encodeI64(");
            reveal_strlit("encode");
            reveal_strlit("encodeI");
            reveal_strlit("encodeU");
            reveal_strlit("(");
            reveal_strlit("decodeU64");
            reveal_strlit("decodeI64");
            assert(encode_scalar(s, x) =~= "encode"@ + ("decodeI64"@).skip(6) + "("@ + x + ")"@);
        },
        ScalarType::I128 => {
            reveal_strlit("decodeI64");
            reveal_strlit("encodeI64(");
            reveal_strlit("encode");
            reveal_strlit("encodeI");
            reveal_strlit("encodeU");
            reveal_strlit("(");
            reveal_strlit("decodeU64");
            reveal_strlit("decodeI64");
            assert(encode_scalar(s, x) =~= "encode"@ + ("decodeI64"@).skip(6) + "("@ + x + ")"@);
        },
        ScalarType::F32 => {
            reveal_strlit("decodeF32");
            reveal_strlit("encodeF32(");
            reveal_strlit("encode");
            reveal_strlit("encodeI");
            reveal_strlit("encodeU");
            reveal_strlit("(");
            reveal_strlit("decodeU64");
            reveal_strlit("decodeI64");
            assert(encode_scalar(s, x) =~= "encode"@ + ("decodeF32"@).skip(6) + "("@ + x + ")"@);
        },
        ScalarType::F64 => {
            reveal_strlit("decodeF64");
            reveal_strlit("encodeF64(");
            reveal_strlit("encode");
            reveal_strlit("encodeI");
            reveal_strlit("encodeU");
            reveal_strlit("(");
            reveal_strlit("decodeU64");
            reveal_strlit("decodeI64");
            assert(encode_scalar(s, x) =~= "encode"@ + ("decodeF64"@).skip(6) + "("@ + x + ")"@);
        },
        ScalarType::Char => {
            reveal_strlit("decodeString");
            reveal_strlit("encodeString(");
            reveal_strlit("encode");
            reveal_strlit("encodeI");
            reveal_strlit("encodeU");
            reveal_strlit("(");
            reveal_strlit("decodeU64");
            reveal_strlit("decodeI64");
            assert(encode_scalar(s, x) =~= "encode"@ + ("decodeString"@).skip(6) + "("@ + x + ")"@);
        },
        ScalarType::Str => {
            reveal_strlit("decodeString");
            reveal_strlit("encodeString(");
            reveal_strlit("encode");
            reveal_strlit("encodeI");
            reveal_strlit("encodeU");
            reveal_strlit("(");
            reveal_strlit("decodeU64");
            reveal_strlit("decodeI64");
            assert(encode_scalar(s, x) =~= "encode"@ + ("decodeString"@).skip(6) + "("@ + x + ")"@);
        },
        ScalarType::String => {
            reveal_strlit("decodeString");
            reveal_strlit("encodeString(");
            reveal_strlit("encode");
            reveal_strlit("encodeI");
            reveal_strlit("encodeU");
            reveal_strlit("(");
            reveal_strlit("decodeU64");
            reveal_strlit("decodeI64");
            assert(encode_scalar(s, x) =~= "encode"@ + ("decodeString"@).skip(6) + "("@ + x + ")"@);
        },
        ScalarType::CowStr => {
            reveal_strlit("decodeString");
            reveal_strlit("encodeString(");
            reveal_strlit("encode");
            reveal_strlit("encodeI");
            reveal_strlit("encodeU");
            reveal_strlit("(");
            reveal_strlit("decodeU64");
            reveal_strlit("decodeI64");
            assert(encode_scalar(s, x) =~= "encode"@ + ("decodeString"@).skip(6) + "("@ + x + ")"@);
        },
        _ => {},
    }
}

/// The TypeScript type of a scalar is the type its decoder yields: the
/// 64-bit decoders yield `bigint`, every other numeric decoder `number`.
pub proof fn law_ts_type_matches_decoder(s: ScalarType)
    ensures
        (scalar_decoder(s) == Some("decodeU64"@) || scalar_decoder(s) == Some("decodeI64"@)) <==> ts_scalar(s) == "bigint"@,
        (is_signed_integer(s) || is_unsigned_integer(s) || s is F32 || s is F64) && ts_scalar(s) != "bigint"@ ==> ts_scalar(s) == "number"@,
{
    reveal_strlit("decodeU64");
    reveal_strlit("decodeI64");
    reveal_strlit("bigint");
    reveal_strlit("number");
    reveal_strlit("boolean");
    reveal_strlit("string");
    reveal_strlit("void");
    reveal_strlit("unknown");
    reveal_strlit("decodeBool");
    reveal_strlit("decodeU8");
    reveal_strlit("decodeI8");
    reveal_strlit("decodeU16");
    reveal_strlit("decodeI16");
    reveal_strlit("decodeU32");
    reveal_strlit("decodeI32");
    reveal_strlit("decodeF32");
    reveal_strlit("decodeF64");
    reveal_strlit("decodeString");
    match s {
        ScalarType::Bool => {
            assert("decodeBool"@ != "decodeU64"@ && "decodeBool"@ != "decodeI64"@) by { if "decodeBool"@.len() == 9 { assert("decodeBool"@[6] != "decodeU64"@[6] || "decodeBool"@[7] != "decodeU64"@[7] || "decodeBool"@[8] != "decodeU64"@[8]); assert("decodeBool"@[6] != "decodeI64"@[6] || "decodeBool"@[7] != "decodeI64"@[7] || "decodeBool"@[8] != "decodeI64"@[8]); } }
            assert("boolean"@ != "bigint"@) by { if "boolean"@.len() == 6 { assert("boolean"@[0] != "bigint"@[0] || "boolean"@[1] != "bigint"@[1]); } }
        },
        ScalarType::U8 => {
            assert("decodeU8"@ != "decodeU64"@ && "decodeU8"@ != "decodeI64"@) by { if "decodeU8"@.len() == 9 { assert("decodeU8"@[6] != "decodeU64"@[6] || "decodeU8"@[7] != "decodeU64"@[7] || "decodeU8"@[8] != "decodeU64"@[8]); assert("decodeU8"@[6] != "decodeI64"@[6] || "decodeU8"@[7] != "decodeI64"@[7] || "decodeU8"@[8] != "decodeI64"@[8]); } }
            assert("number"@ != "bigint"@) by { if "number"@.len() == 6 { assert("number"@[0] != "bigint"@[0] || "number"@[1] != "bigint"@[1]); } }
        },
        ScalarType::U16 => {
            assert("decodeU16"@ != "decodeU64"@ && "decodeU16"@ != "decodeI64"@) by { if "decodeU16"@.len() == 9 { assert("decodeU16"@[6] != "decodeU64"@[6] || "decodeU16"@[7] != "decodeU64"@[7] || "decodeU16"@[8] != "decodeU64"@[8]); assert("decodeU16"@[6] != "decodeI64"@[6] || "decodeU16"@[7] != "decodeI64"@[7] || "decodeU16"@[8] != "decodeI64"@[8]); } }
            assert("number"@ != "bigint"@) by { if "number"@.len() == 6 { assert("number"@[0] != "bigint"@[0] || "number"@[1] != "bigint"@[1]); } }
        },
        ScalarType::U32 => {
            assert("decodeU32"@ != "decodeU64"@ && "decodeU32"@ != "decodeI64"@) by { if "decodeU32"@.len() == 9 { assert("decodeU32"@[6] != "decodeU64"@[6] || "decodeU32"@[7] != "decodeU64"@[7] || "decodeU32"@[8] != "decodeU64"@[8]); assert("decodeU32"@[6] != "decodeI64"@[6] || "decodeU32"@[7] != "decodeI64"@[7] || "decodeU32"@[8] != "decodeI64"@[8]); } }
            assert("number"@ != "bigint"@) by { if "number"@.len() == 6 { assert("number"@[0] != "bigint"@[0] || "number"@[1] != "bigint"@[1]); } }
        },
        ScalarType::U64 => {},
        ScalarType::U128 => {},
        ScalarType::USize => {},
        ScalarType::I8 => {
            assert("decodeI8"@ != "decodeU64"@ && "decodeI8"@ != "decodeI64"@) by { if "decodeI8"@.len() == 9 { assert("decodeI8"@[6] != "decodeU64"@[6] || "decodeI8"@[7] != "decodeU64"@[7] || "decodeI8"@[8] != "decodeU64"@[8]); assert("decodeI8"@[6] != "decodeI64"@[6] || "decodeI8"@[7] != "decodeI64"@[7] || "decodeI8"@[8] != "decodeI64"@[8]); } }
            assert("number"@ != "bigint"@) by { if "number"@.len() == 6 { assert("number"@[0] != "bigint"@[0] || "number"@[1] != "bigint"@[1]); } }
        },
        ScalarType::I16 => {
            assert("decodeI16"@ != "decodeU64"@ && "decodeI16"@ != "decodeI64"@) by { if "decodeI16"@.len() == 9 { assert("decodeI16"@[6] != "decodeU64"@[6] || "decodeI16"@[7] != "decodeU64"@[7] || "decodeI16"@[8] != "decodeU64"@[8]); assert("decodeI16"@[6] != "decodeI64"@[6] || "decodeI16"@[7] != "decodeI64"@[7] || "decodeI16"@[8] != "decodeI64"@[8]); } }
            assert("number"@ != "bigint"@) by { if "number"@.len() == 6 { assert("number"@[0] != "bigint"@[0] || "number"@[1] != "bigint"@[1]); } }
        },
        ScalarType::I32 => {
            assert("decodeI32"@ != "decodeU64"@ && "decodeI32"@ != "decodeI64"@) by { if "decodeI32"@.len() == 9 { assert("decodeI32"@[6] != "decodeU64"@[6] || "decodeI32"@[7] != "decodeU64"@[7] || "decodeI32"@[8] != "decodeU64"@[8]); assert("decodeI32"@[6] != "decodeI64"@[6] || "decodeI32"@[7] != "decodeI64"@[7] || "decodeI32"@[8] != "decodeI64"@[8]); } }
            assert("number"@ != "bigint"@) by { if "number"@.len() == 6 { assert("number"@[0] != "bigint"@[0] || "number"@[1] != "bigint"@[1]); } }
        },
        ScalarType::I64 => {},
        ScalarType::I128 => {},
        ScalarType::ISize => {},
        ScalarType::F32 => {
            assert("decodeF32"@ != "decodeU64"@ && "decodeF32"@ != "decodeI64"@) by { if "decodeF32"@.len() == 9 { assert("decodeF32"@[6] != "decodeU64"@[6] || "decodeF32"@[7] != "decodeU64"@[7] || "decodeF32"@[8] != "decodeU64"@[8]); assert("decodeF32"@[6] != "decodeI64"@[6] || "decodeF32"@[7] != "decodeI64"@[7] || "decodeF32"@[8] != "decodeI64"@[8]); } }
            assert("number"@ != "bigint"@) by { if "number"@.len() == 6 { assert("number"@[0] != "bigint"@[0] || "number"@[1] != "bigint"@[1]); } }
        },
        ScalarType::F64 => {
            assert("decodeF64"@ != "decodeU64"@ && "decodeF64"@ != "decodeI64"@) by { if "decodeF64"@.len() == 9 { assert("decodeF64"@[6] != "decodeU64"@[6] || "decodeF64"@[7] != "decodeU64"@[7] || "decodeF64"@[8] != "decodeU64"@[8]); assert("decodeF64"@[6] != "decodeI64"@[6] || "decodeF64"@[7] != "decodeI64"@[7] || "decodeF64"@[8] != "decodeI64"@[8]); } }
            assert("number"@ != "bigint"@) by { if "number"@.len() == 6 { assert("number"@[0] != "bigint"@[0] || "number"@[1] != "bigint"@[1]); } }
        },
        ScalarType::Char => {
            assert("decodeString"@ != "decodeU64"@ && "decodeString"@ != "decodeI64"@) by { if "decodeString"@.len() == 9 { assert("decodeString"@[6] != "decodeU64"@[6] || "decodeString"@[7] != "decodeU64"@[7] || "decodeString"@[8] != "decodeU64"@[8]); assert("decodeString"@[6] != "decodeI64"@[6] || "decodeString"@[7] != "decodeI64"@[7] || "decodeString"@[8] != "decodeI64"@[8]); } }
            assert("string"@ != "bigint"@) by { if "string"@.len() == 6 { assert("string"@[0] != "bigint"@[0] || "string"@[1] != "bigint"@[1]); } }
        },
        ScalarType::Str => {
            assert("decodeString"@ != "decodeU64"@ && "decodeString"@ != "decodeI64"@) by { if "decodeString"@.len() == 9 { assert("decodeString"@[6] != "decodeU64"@[6] || "decodeString"@[7] != "decodeU64"@[7] || "decodeString"@[8] != "decodeU64"@[8]); assert("decodeString"@[6] != "decodeI64"@[6] || "decodeString"@[7] != "decodeI64"@[7] || "decodeString"@[8] != "decodeI64"@[8]); } }
            assert("string"@ != "bigint"@) by { if "string"@.len() == 6 { assert("string"@[0] != "bigint"@[0] || "string"@[1] != "bigint"@[1]); } }
        },
        ScalarType::CowStr => {
            assert("decodeString"@ != "decodeU64"@ && "decodeString"@ != "decodeI64"@) by { if "decodeString"@.len() == 9 { assert("decodeString"@[6] != "decodeU64"@[6] || "decodeString"@[7] != "decodeU64"@[7] || "decodeString"@[8] != "decodeU64"@[8]); assert("decodeString"@[6] != "decodeI64"@[6] || "decodeString"@[7] != "decodeI64"@[7] || "decodeString"@[8] != "decodeI64"@[8]); } }
            assert("string"@ != "bigint"@) by { if "string"@.len() == 6 { assert("string"@[0] != "bigint"@[0] || "string"@[1] != "bigint"@[1]); } }
        },
        ScalarType::String => {
            assert("decodeString"@ != "decodeU64"@ && "decodeString"@ != "decodeI64"@) by { if "decodeString"@.len() == 9 { assert("decodeString"@[6] != "decodeU64"@[6] || "decodeString"@[7] != "decodeU64"@[7] || "decodeString"@[8] != "decodeU64"@[8]); assert("decodeString"@[6] != "decodeI64"@[6] || "decodeString"@[7] != "decodeI64"@[7] || "decodeString"@[8] != "decodeI64"@[8]); } }
            assert("string"@ != "bigint"@) by { if "string"@.len() == 6 { assert("string"@[0] != "bigint"@[0] || "string"@[1] != "bigint"@[1]); } }
        },
        ScalarType::Unit => {
            assert("void"@ != "bigint"@) by { if "void"@.len() == 6 { assert("void"@[0] != "bigint"@[0] || "void"@[1] != "bigint"@[1]); } }
        },
        ScalarType::Other => {
            assert("unknown"@ != "bigint"@) by { if "unknown"@.len() == 6 { assert("unknown"@[0] != "bigint"@[0] || "unknown"@[1] != "bigint"@[1]); } }
        },
    }
}

} // verus!
