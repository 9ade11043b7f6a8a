//! Type rendering for the code generators.
//!
//! A [`TypeShape`] is the classification of a type as the schema reports it
//! (scalar, list, option, tuple, named or anonymous struct and enum, ...).
//! The generators render a shape as the type expression of the target
//! language: Rust types for the service traits and dispatchers, TypeScript
//! types for the clients and handlers.
use vstd::prelude::*;

use vstd::string::StringExecFns;

use crate::text::{chars_of, decimal, push_decimal};

verus! {

/// The scalar types a schema knows.
#[derive(Debug, Clone, Copy, PartialEq, Eq, Structural)]
pub enum ScalarType {
    Bool,
    U8,
    U16,
    U32,
    U64,
    U128,
    USize,
    I8,
    I16,
    I32,
    I64,
    I128,
    ISize,
    F32,
    F64,
    Char,
    Str,
    CowStr,
    String,
    Unit,
    /// A scalar the generators do not know.
    Other,
}

/// The payload of an enum variant.
#[derive(Debug)]
pub enum VariantKind {
    /// No payload.
    Unit,
    /// A single unnamed field.
    Newtype(TypeShape),
    /// Several unnamed fields (named `0`, `1`, ...).
    Tuple(Vec<(String, TypeShape)>),
    /// Named fields.
    Struct(Vec<(String, TypeShape)>),
}

/// The classification of a type.
#[derive(Debug)]
pub enum TypeShape {
    Scalar(ScalarType),
    List(Box<TypeShape>),
    Slice(Box<TypeShape>),
    Option(Box<TypeShape>),
    Array(Box<TypeShape>, u64),
    MapOf(Box<TypeShape>, Box<TypeShape>),
    SetOf(Box<TypeShape>),
    Tuple(Vec<TypeShape>),
    /// A channel handle through which the holder sends.
    Tx(Box<TypeShape>),
    /// A channel handle through which the holder receives.
    Rx(Box<TypeShape>),
    /// A struct: its name (none for an anonymous one) and its fields.
    Struct(Option<String>, Vec<(String, TypeShape)>),
    /// An enum: its name (none for an anonymous one) and its variants.
    Enum(Option<String>, Vec<(String, VariantKind)>),
    Result(Box<TypeShape>, Box<TypeShape>),
    Pointer(Box<TypeShape>),
    Opaque,
}

/// Options for Rust code generation.
#[derive(Debug, Clone, Copy, Default)]
pub struct RustCodegenOptions {
    /// Generate tracing spans and events for RPC calls.
    pub tracing: bool,
}

// ---------------------------------------------------------------------------
// Rust
// ---------------------------------------------------------------------------

/// The Rust spelling of a scalar.
pub open spec fn rust_scalar(s: ScalarType) -> Seq<char> {
    match s {
        ScalarType::Bool => "bool"@,
        ScalarType::U8 => "u8"@,
        ScalarType::U16 => "u16"@,
        ScalarType::U32 => "u32"@,
        ScalarType::U64 => "u64"@,
        ScalarType::U128 => "u128"@,
        ScalarType::USize => "usize"@,
        ScalarType::I8 => "i8"@,
        ScalarType::I16 => "i16"@,
        ScalarType::I32 => "i32"@,
        ScalarType::I64 => "i64"@,
        ScalarType::I128 => "i128"@,
        ScalarType::ISize => "isize"@,
        ScalarType::F32 => "f32"@,
        ScalarType::F64 => "f64"@,
        ScalarType::Char => "char"@,
        ScalarType::Str => "&str"@,
        ScalarType::CowStr => "&str"@,
        ScalarType::String => "::std::string::String"@,
        ScalarType::Unit => "()"@,
        ScalarType::Other => "/* unknown scalar */"@,
    }
}

/// Of a two-variant list, the index of the variant with the given name
/// (the first one if both have it), or -1.
pub open spec fn pick(vs: Seq<(String, VariantKind)>, name: Seq<char>) -> int {
    if vs[0].0@ == name {
        0
    } else if vs[1].0@ == name {
        1
    } else {
        -1
    }
}

/// Whether an anonymous enum is the `Result` pattern: two variants, `Ok`
/// and `Err`, each with a single unnamed field.
pub open spec fn is_result_pattern(vs: Seq<(String, VariantKind)>) -> bool {
    &&& vs.len() == 2
    &&& 0 <= pick(vs, "Ok"@)
    &&& 0 <= pick(vs, "Err"@)
    &&& vs[pick(vs, "Ok"@)].1 is Newtype
    &&& vs[pick(vs, "Err"@)].1 is Newtype
}

/// The variant names joined with `|`.
pub open spec fn variant_names(vs: Seq<(String, VariantKind)>) -> Seq<char>
    decreases vs.len(),
{
    if vs.len() == 0 {
        Seq::empty()
    } else if vs.len() == 1 {
        vs[0].0@
    } else {
        variant_names(vs.drop_last()) + "|"@ + vs.last().0@
    }
}

/// The Rust type expression of a shape, as seen from inside the generated
/// service module (named types are reached through `super::`).
pub open spec fn rust_ty(t: TypeShape) -> Seq<char>
    decreases t, 1int,
{
    match t {
        TypeShape::Scalar(s) => rust_scalar(s),
        TypeShape::List(e) => "::std::vec::Vec<"@ + rust_ty(*e) + ">"@,
        TypeShape::Slice(e) => "&["@ + rust_ty(*e) + "]"@,
        TypeShape::Option(e) => "::std::option::Option<"@ + rust_ty(*e) + ">"@,
        TypeShape::Array(e, n) => "["@ + rust_ty(*e) + "; "@ + decimal(n as nat) + "]"@,
        TypeShape::MapOf(k, v) => "::std::collections::HashMap<"@ + rust_ty(*k) + ", "@ + rust_ty(*v)
            + ">"@,
        TypeShape::SetOf(e) => "::std::collections::HashSet<"@ + rust_ty(*e) + ">"@,
        TypeShape::Tuple(es) => "("@ + rust_tys(es@) + ")"@,
        TypeShape::Tx(e) => "Tx<"@ + rust_ty(*e) + ">"@,
        TypeShape::Rx(e) => "Rx<"@ + rust_ty(*e) + ">"@,
        TypeShape::Struct(Some(name), _) => "super::"@ + name@,
        TypeShape::Struct(None, fs) => "("@ + rust_field_tys(fs@) + ")"@,
        TypeShape::Enum(Some(name), _) => "super::"@ + name@,
        TypeShape::Result(ok, err) => "::std::result::Result<"@ + rust_ty(*ok) + ", "@ + rust_ty(
            *err,
        ) + ">"@,
        TypeShape::Enum(None, vs) => if is_result_pattern(vs@) {
            "::std::result::Result<"@ + rust_ty(vs@[pick(vs@, "Ok"@)].1->Newtype_0) + ", "@
                + rust_ty(vs@[pick(vs@, "Err"@)].1->Newtype_0) + ">"@
        } else {
            "/* enum("@ + variant_names(vs@) + ") */"@
        },
        TypeShape::Pointer(p) => rust_ty(*p),
        TypeShape::Opaque => "/* opaque */"@,
    }
}

/// The Rust types of a list of shapes, joined with `, `.
pub open spec fn rust_tys(ts: Seq<TypeShape>) -> Seq<char>
    decreases ts, 0int,
{
    if ts.len() == 0 {
        Seq::empty()
    } else if ts.len() == 1 {
        rust_ty(ts[0])
    } else {
        rust_tys(ts.drop_last()) + ", "@ + rust_ty(ts.last())
    }
}

/// The Rust types of a list of fields, joined with `, `.
pub open spec fn rust_field_tys(fs: Seq<(String, TypeShape)>) -> Seq<char>
    decreases fs, 0int,
{
    if fs.len() == 0 {
        Seq::empty()
    } else if fs.len() == 1 {
        rust_ty(fs[0].1)
    } else {
        rust_field_tys(fs.drop_last()) + ", "@ + rust_ty(fs.last().1)
    }
}

/// Whether a shape is a channel handle.
pub open spec fn is_stream_shape(t: TypeShape) -> bool {
    t is Tx || t is Rx
}

/// Whether a shape is a channel handle (`Tx` or `Rx`).
pub fn is_stream(t: &TypeShape) -> (b: bool)
    ensures
        b == is_stream_shape(*t),
{
    match t {
        TypeShape::Tx(_) | TypeShape::Rx(_) => true,
        _ => false,
    }
}

/// The Rust spelling of a scalar.
pub fn rust_scalar_type(s: ScalarType) -> (r: String)
    ensures
        r@ == rust_scalar(s),
{
    let text: &str = match s {
        ScalarType::Bool => "bool",
        ScalarType::U8 => "u8",
        ScalarType::U16 => "u16",
        ScalarType::U32 => "u32",
        ScalarType::U64 => "u64",
        ScalarType::U128 => "u128",
        ScalarType::USize => "usize",
        ScalarType::I8 => "i8",
        ScalarType::I16 => "i16",
        ScalarType::I32 => "i32",
        ScalarType::I64 => "i64",
        ScalarType::I128 => "i128",
        ScalarType::ISize => "isize",
        ScalarType::F32 => "f32",
        ScalarType::F64 => "f64",
        ScalarType::Char => "char",
        ScalarType::Str => "&str",
        ScalarType::CowStr => "&str",
        ScalarType::String => "::std::string::String",
        ScalarType::Unit => "()",
        ScalarType::Other => "/* unknown scalar */",
    };
    text.to_string()
}

/// Appends `inner` between `open` and `close`.
fn wrap(open: &str, inner: String, close: &str) -> (r: String)
    ensures
        r@ == open@ + inner@ + close@,
{
    let mut r = open.to_string();
    r.append(inner.as_str());
    r.append(close);
    r
}

/// The variant names joined with `|`.
fn variant_names_joined(vs: &Vec<(String, VariantKind)>) -> (s: String)
    ensures
        s@ == variant_names(vs@),
{
    let mut s = String::new();
    let mut i: usize = 0;
    while i < vs.len()
        invariant
            i <= vs@.len(),
            s@ == variant_names(vs@.subrange(0, i as int)),
        decreases vs.len() - i,
    {
        let ghost sub = vs@.subrange(0, i + 1);
        assert(sub.drop_last() == vs@.subrange(0, i as int));
        if i > 0 {
            s.append("|");
        }
        s.append(vs[i].0.as_str());
        i = i + 1;
    }
    assert(vs@.subrange(0, vs@.len() as int) == vs@);
    s
}

/// The Rust types of a list of shapes, joined with `, `.
fn rust_types_joined(ts: &Vec<TypeShape>) -> (s: String)
    ensures
        s@ == rust_tys(ts@),
    decreases ts, 0int,
{
    let mut s = String::new();
    let mut i: usize = 0;
    while i < ts.len()
        invariant
            i <= ts@.len(),
            s@ == rust_tys(ts@.subrange(0, i as int)),
        decreases ts.len() - i,
    {
        let ghost sub = ts@.subrange(0, i + 1);
        assert(sub.drop_last() == ts@.subrange(0, i as int));
        if i > 0 {
            s.append(", ");
        }
        let t = rust_type_base(&ts[i]);
        s.append(t.as_str());
        i = i + 1;
    }
    assert(ts@.subrange(0, ts@.len() as int) == ts@);
    s
}

/// The Rust types of a list of fields, joined with `, `.
fn rust_field_types_joined(fs: &Vec<(String, TypeShape)>) -> (s: String)
    ensures
        s@ == rust_field_tys(fs@),
    decreases fs, 0int,
{
    let mut s = String::new();
    let mut i: usize = 0;
    while i < fs.len()
        invariant
            i <= fs@.len(),
            s@ == rust_field_tys(fs@.subrange(0, i as int)),
        decreases fs.len() - i,
    {
        let ghost sub = fs@.subrange(0, i + 1);
        assert(sub.drop_last() == fs@.subrange(0, i as int));
        if i > 0 {
            s.append(", ");
        }
        let t = rust_type_base(&fs[i].1);
        s.append(t.as_str());
        i = i + 1;
    }
    assert(fs@.subrange(0, fs@.len() as int) == fs@);
    s
}

/// Of a two-variant list, the index of the variant with the given name.
fn pick_variant(vs: &Vec<(String, VariantKind)>, name: &String) -> (i: Option<usize>)
    requires
        vs@.len() == 2,
    ensures
        i is None <==> pick(vs@, name@) < 0,
        i matches Some(k) ==> k == pick(vs@, name@),
{
    if vs[0].0 == *name {
        Some(0)
    } else if vs[1].0 == *name {
        Some(1)
    } else {
        None
    }
}

/// The Rust type expression of a shape.
pub fn rust_type_base(t: &TypeShape) -> (s: String)
    ensures
        s@ == rust_ty(*t),
    decreases t, 1int,
{
    match t {
        TypeShape::Scalar(sc) => rust_scalar_type(*sc),
        TypeShape::List(e) => wrap("::std::vec::Vec<", rust_type_base(e), ">"),
        TypeShape::Slice(e) => wrap("&[", rust_type_base(e), "]"),
        TypeShape::Option(e) => wrap("::std::option::Option<", rust_type_base(e), ">"),
        TypeShape::Array(e, n) => {
            let mut s = "[".to_string();
            let inner = rust_type_base(e);
            s.append(inner.as_str());
            s.append("; ");
            push_decimal(&mut s, *n);
            s.append("]");
            s
        },
        TypeShape::MapOf(k, v) => {
            let mut s = "::std::collections::HashMap<".to_string();
            let key = rust_type_base(k);
            s.append(key.as_str());
            s.append(", ");
            let value = rust_type_base(v);
            s.append(value.as_str());
            s.append(">");
            s
        },
        TypeShape::SetOf(e) => wrap("::std::collections::HashSet<", rust_type_base(e), ">"),
        TypeShape::Tuple(es) => wrap("(", rust_types_joined(es), ")"),
        TypeShape::Tx(e) => wrap("Tx<", rust_type_base(e), ">"),
        TypeShape::Rx(e) => wrap("Rx<", rust_type_base(e), ">"),
        TypeShape::Struct(Some(name), _) => {
            let mut s = "super::".to_string();
            s.append(name.as_str());
            s
        },
        TypeShape::Struct(None, fs) => wrap("(", rust_field_types_joined(fs), ")"),
        TypeShape::Enum(Some(name), _) => {
            let mut s = "super::".to_string();
            s.append(name.as_str());
            s
        },
        TypeShape::Result(ok, err) => {
            let mut s = "::std::result::Result<".to_string();
            let o = rust_type_base(ok);
            s.append(o.as_str());
            s.append(", ");
            let e = rust_type_base(err);
            s.append(e.as_str());
            s.append(">");
            s
        },
        TypeShape::Enum(None, vs) => {
            if vs.len() == 2 {
                let ok_name = "Ok".to_string();
                let err_name = "Err".to_string();
                let oi = pick_variant(vs, &ok_name);
                let ei = pick_variant(vs, &err_name);
                if let (Some(a), Some(b)) = (oi, ei) {
                    if let (VariantKind::Newtype(ok_ty), VariantKind::Newtype(err_ty)) = (
                        &vs[a].1,
                        &vs[b].1,
                    ) {
                        let mut s = "::std::result::Result<".to_string();
                        let o = rust_type_base(ok_ty);
                        s.append(o.as_str());
                        s.append(", ");
                        let e = rust_type_base(err_ty);
                        s.append(e.as_str());
                        s.append(">");
                        return s;
                    }
                }
            }
            wrap("/* enum(", variant_names_joined(vs), ") */")
        },
        TypeShape::Pointer(p) => rust_type_base(p),
        TypeShape::Opaque => "/* opaque */".to_string(),
    }
}

/// The Rust type of a service-trait argument: channel handles keep their
/// direction (`Tx` sends, `Rx` receives) around the base type.
pub open spec fn rust_server_ty(t: TypeShape) -> Seq<char> {
    match t {
        TypeShape::Tx(e) => "Tx<"@ + rust_ty(*e) + ">"@,
        TypeShape::Rx(e) => "Rx<"@ + rust_ty(*e) + ">"@,
        _ => rust_ty(t),
    }
}

/// The Rust type of a service-trait argument.
pub fn rust_type_server_arg(t: &TypeShape) -> (s: String)
    ensures
        s@ == rust_server_ty(*t),
{
    match t {
        TypeShape::Tx(e) => wrap("Tx<", rust_type_base(e), ">"),
        TypeShape::Rx(e) => wrap("Rx<", rust_type_base(e), ">"),
        _ => rust_type_base(t),
    }
}

/// The Rust type of a service-trait return value.
pub fn rust_type_server_return(t: &TypeShape) -> (s: String)
    ensures
        s@ == rust_server_ty(*t),
{
    match t {
        TypeShape::Tx(e) => wrap("Tx<", rust_type_base(e), ">"),
        TypeShape::Rx(e) => wrap("Rx<", rust_type_base(e), ">"),
        _ => rust_type_base(t),
    }
}

/// Splits a `Result` shape (either the `Result` kind or an anonymous enum
/// of the `Result` pattern) into its `Ok` and `Err` types; any other shape
/// is its own `Ok` type with no `Err` type.
pub open spec fn result_parts(t: TypeShape) -> (TypeShape, Option<TypeShape>) {
    match t {
        TypeShape::Enum(None, vs) => if is_result_pattern(vs@) {
            (
                vs@[pick(vs@, "Ok"@)].1->Newtype_0,
                Some(vs@[pick(vs@, "Err"@)].1->Newtype_0),
            )
        } else {
            (t, None)
        },
        _ => (t, None),
    }
}

/// The `Ok` and `Err` types of a return shape.
pub fn extract_result_types(t: &TypeShape) -> (r: (&TypeShape, Option<&TypeShape>))
    ensures
        *r.0 == result_parts(*t).0,
        r.1 is Some <==> result_parts(*t).1 is Some,
        r.1 matches Some(e) ==> *e == result_parts(*t).1->0,
{
    if let TypeShape::Enum(None, vs) = t {
        if vs.len() == 2 {
            let ok_name = "Ok".to_string();
            let err_name = "Err".to_string();
            let oi = pick_variant(vs, &ok_name);
            let ei = pick_variant(vs, &err_name);
            if let (Some(a), Some(b)) = (oi, ei) {
                if let (VariantKind::Newtype(ok_ty), VariantKind::Newtype(err_ty)) = (
                    &vs[a].1,
                    &vs[b].1,
                ) {
                    return (ok_ty, Some(err_ty));
                }
            }
        }
    }
    (t, None)
}

/// The return type of a handler method: `Result<T, RoamError<E>>`, where
/// `E` is the user error type, or `Never` for an infallible method.
pub open spec fn handler_return_ty(t: TypeShape) -> Seq<char> {
    "Result<"@ + rust_server_ty(result_parts(t).0) + ", RoamError<"@ + match result_parts(t).1 {
        Some(e) => rust_ty(e),
        None => "Never"@,
    } + ">>"@
}

/// The return type of a handler method.
pub fn format_handler_return_type(t: &TypeShape) -> (s: String)
    ensures
        s@ == handler_return_ty(*t),
{
    let (ok_ty, err_ty) = extract_result_types(t);
    let mut s = "Result<".to_string();
    let ok_str = rust_type_server_return(ok_ty);
    s.append(ok_str.as_str());
    s.append(", RoamError<");
    let err_str = match err_ty {
        Some(e) => rust_type_base(e),
        None => "Never".to_string(),
    };
    s.append(err_str.as_str());
    s.append(">>");
    s
}

/// Rendering an argument for the service trait is rendering its type:
/// the channel directions already appear in the base rendering.
pub proof fn law_server_arg_is_base(t: TypeShape)
    ensures
        rust_server_ty(t) == rust_ty(t),
{
}


// ---------------------------------------------------------------------------
// TypeScript
// ---------------------------------------------------------------------------

/// The TypeScript spelling of a scalar.
pub open spec fn ts_scalar(s: ScalarType) -> Seq<char> {
    match s {
        ScalarType::Bool => "boolean"@,
        ScalarType::U8 | ScalarType::U16 | ScalarType::U32 | ScalarType::I8 | ScalarType::I16
        | ScalarType::I32 | ScalarType::F32 | ScalarType::F64 => "number"@,
        ScalarType::U64 | ScalarType::U128 | ScalarType::I64 | ScalarType::I128
        | ScalarType::USize | ScalarType::ISize => "bigint"@,
        ScalarType::Char | ScalarType::Str | ScalarType::String | ScalarType::CowStr => "string"@,
        ScalarType::Unit => "void"@,
        ScalarType::Other => "unknown"@,
    }
}

/// The width in bits of an integer scalar (the pointer-sized ones are taken
/// at 64 bits, their widest), `None` for the other scalars.
pub open spec fn integer_bits(s: ScalarType) -> Option<nat> {
    if s is U8 || s is I8 {
        Some(8)
    } else if s is U16 || s is I16 {
        Some(16)
    } else if s is U32 || s is I32 {
        Some(32)
    } else if s is U64 || s is I64 || s is USize || s is ISize {
        Some(64)
    } else if s is U128 || s is I128 {
        Some(128)
    } else {
        None
    }
}

/// The TypeScript type of a number is `number` exactly when every value
/// fits a JavaScript number: integers of at most 32 bits and the floats;
/// wider integers are `bigint`.
pub proof fn law_ts_numbers_fit_32_bits(s: ScalarType)
    ensures
        integer_bits(s) matches Some(b) ==> (ts_scalar(s) == "number"@ <==> b <= 32),
        integer_bits(s) matches Some(b) ==> (ts_scalar(s) == "bigint"@ <==> b >= 64),
        s is F32 || s is F64 ==> ts_scalar(s) == "number"@,
{
    reveal_strlit("number");
    reveal_strlit("bigint");
    assert("number"@ != "bigint"@) by {
        assert("number"@[0] != "bigint"@[0]);
    }
    match s {
        ScalarType::Bool => {},
        ScalarType::U8 => {},
        ScalarType::U16 => {},
        ScalarType::U32 => {},
        ScalarType::U64 => {},
        ScalarType::U128 => {},
        ScalarType::USize => {},
        ScalarType::I8 => {},
        ScalarType::I16 => {},
        ScalarType::I32 => {},
        ScalarType::I64 => {},
        ScalarType::I128 => {},
        ScalarType::ISize => {},
        ScalarType::F32 => {},
        ScalarType::F64 => {},
        ScalarType::Char => {},
        ScalarType::Str => {},
        ScalarType::CowStr => {},
        ScalarType::String => {},
        ScalarType::Unit => {},
        ScalarType::Other => {},
    }
}

/// Whether a shape is a byte buffer: a list of `u8`.
pub open spec fn is_bytes_shape(t: TypeShape) -> bool {
    t matches TypeShape::List(e) && (*e matches TypeShape::Scalar(ScalarType::U8))
}

/// Whether a shape is an anonymous enum.
pub open spec fn is_anonymous_enum(t: TypeShape) -> bool {
    t matches TypeShape::Enum(None, _)
}

/// The TypeScript type expression of a shape; named types are referred to
/// by their names.
pub open spec fn ts_ty(t: TypeShape) -> Seq<char>
    decreases t, 1int,
{
    match t {
        TypeShape::Struct(Some(name), _) => name@,
        TypeShape::Enum(Some(name), _) => name@,
        TypeShape::List(e) => if is_bytes_shape(t) {
            "Uint8Array"@
        } else if is_anonymous_enum(*e) {
            "("@ + ts_ty(*e) + ")[]"@
        } else {
            ts_ty(*e) + "[]"@
        },
        TypeShape::Option(e) => ts_ty(*e) + " | null"@,
        TypeShape::Array(e, n) => "["@ + ts_ty(*e) + "; "@ + decimal(n as nat) + "]"@,
        TypeShape::MapOf(k, v) => "Map<"@ + ts_ty(*k) + ", "@ + ts_ty(*v) + ">"@,
        TypeShape::SetOf(e) => "Set<"@ + ts_ty(*e) + ">"@,
        TypeShape::Tuple(es) => "["@ + ts_tys(es@) + "]"@,
        TypeShape::Tx(e) => "Tx<"@ + ts_ty(*e) + ">"@,
        TypeShape::Rx(e) => "Rx<"@ + ts_ty(*e) + ">"@,
        TypeShape::Struct(None, fs) => "{ "@ + ts_fields(fs@) + " }"@,
        TypeShape::Enum(None, vs) => ts_variants(vs@),
        TypeShape::Scalar(s) => ts_scalar(s),
        TypeShape::Slice(e) => ts_ty(*e) + "[]"@,
        TypeShape::Pointer(p) => ts_ty(*p),
        TypeShape::Result(ok, err) => "{ ok: true; value: "@ + ts_ty(*ok)
            + " } | { ok: false; error: "@ + ts_ty(*err) + " }"@,
        TypeShape::Opaque => "unknown"@,
    }
}

/// The TypeScript types of a list of shapes, joined with `, `.
pub open spec fn ts_tys(ts: Seq<TypeShape>) -> Seq<char>
    decreases ts, 0int,
{
    if ts.len() == 0 {
        Seq::empty()
    } else if ts.len() == 1 {
        ts_ty(ts[0])
    } else {
        ts_tys(ts.drop_last()) + ", "@ + ts_ty(ts.last())
    }
}

/// One field as `name: type`.
pub open spec fn ts_field(f: (String, TypeShape)) -> Seq<char>
    decreases f, 0int,
{
    f.0@ + ": "@ + ts_ty(f.1)
}

/// Fields as `name: type`, joined with `; `.
pub open spec fn ts_fields(fs: Seq<(String, TypeShape)>) -> Seq<char>
    decreases fs, 0int,
{
    if fs.len() == 0 {
        Seq::empty()
    } else if fs.len() == 1 {
        ts_field(fs[0])
    } else {
        ts_fields(fs.drop_last()) + "; "@ + ts_field(fs.last())
    }
}

/// One variant of an anonymous enum as a tagged object type.
pub open spec fn ts_variant(v: (String, VariantKind)) -> Seq<char>
    decreases v, 0int,
{
    match v.1 {
        VariantKind::Unit => "{ tag: '"@ + v.0@ + "' }"@,
        VariantKind::Newtype(inner) => "{ tag: '"@ + v.0@ + "'; value: "@ + ts_ty(inner) + " }"@,
        VariantKind::Tuple(fs) => "{ tag: '"@ + v.0@ + "'; "@ + ts_fields(fs@) + " }"@,
        VariantKind::Struct(fs) => "{ tag: '"@ + v.0@ + "'; "@ + ts_fields(fs@) + " }"@,
    }
}

/// The variants of an anonymous enum as a union, joined with ` | `.
pub open spec fn ts_variants(vs: Seq<(String, VariantKind)>) -> Seq<char>
    decreases vs, 0int,
{
    if vs.len() == 0 {
        Seq::empty()
    } else if vs.len() == 1 {
        ts_variant(vs[0])
    } else {
        ts_variants(vs.drop_last()) + " | "@ + ts_variant(vs.last())
    }
}

/// The TypeScript spelling of a scalar.
pub fn ts_scalar_type(s: ScalarType) -> (r: String)
    ensures
        r@ == ts_scalar(s),
{
    let text: &str = match s {
        ScalarType::Bool => "boolean",
        ScalarType::U8 | ScalarType::U16 | ScalarType::U32 | ScalarType::I8 | ScalarType::I16
        | ScalarType::I32 | ScalarType::F32 | ScalarType::F64 => "number",
        ScalarType::U64 | ScalarType::U128 | ScalarType::I64 | ScalarType::I128
        | ScalarType::USize | ScalarType::ISize => "bigint",
        ScalarType::Char | ScalarType::Str | ScalarType::String | ScalarType::CowStr => "string",
        ScalarType::Unit => "void",
        ScalarType::Other => "unknown",
    };
    text.to_string()
}

/// The TypeScript types of a list of shapes, joined with `, `.
fn ts_types_joined(ts: &Vec<TypeShape>) -> (s: String)
    ensures
        s@ == ts_tys(ts@),
    decreases ts, 0int,
{
    let mut s = String::new();
    let mut i: usize = 0;
    while i < ts.len()
        invariant
            i <= ts@.len(),
            s@ == ts_tys(ts@.subrange(0, i as int)),
        decreases ts.len() - i,
    {
        let ghost sub = ts@.subrange(0, i + 1);
        assert(sub.drop_last() == ts@.subrange(0, i as int));
        if i > 0 {
            s.append(", ");
        }
        let t = ts_type_base_named(&ts[i]);
        s.append(t.as_str());
        i = i + 1;
    }
    assert(ts@.subrange(0, ts@.len() as int) == ts@);
    s
}

/// The TypeScript types of a list of shapes, joined with `, `.
pub fn ts_types_of(ts: &Vec<TypeShape>) -> (s: String)
    ensures
        s@ == ts_tys(ts@),
{
    ts_types_joined(ts)
}

/// Fields as `name: type`, joined with `; `.
fn ts_fields_joined(fs: &Vec<(String, TypeShape)>) -> (s: String)
    ensures
        s@ == ts_fields(fs@),
    decreases fs, 0int,
{
    let mut s = String::new();
    let mut i: usize = 0;
    while i < fs.len()
        invariant
            i <= fs@.len(),
            s@ == ts_fields(fs@.subrange(0, i as int)),
        decreases fs.len() - i,
    {
        let ghost sub = fs@.subrange(0, i + 1);
        assert(sub.drop_last() == fs@.subrange(0, i as int));
        if i > 0 {
            s.append("; ");
        }
        let mut f = fs[i].0.clone();
        f.append(": ");
        let t = ts_type_base_named(&fs[i].1);
        f.append(t.as_str());
        assert(f@ == ts_field(fs@[i as int]));
        assert(sub.last() == fs@[i as int]);
        s.append(f.as_str());
        i = i + 1;
    }
    assert(fs@.subrange(0, fs@.len() as int) == fs@);
    s
}

/// One variant of an anonymous enum as a tagged object type.
fn ts_variant_text(v: &(String, VariantKind)) -> (s: String)
    ensures
        s@ == ts_variant(*v),
    decreases v, 0int,
{
    let mut s = "{ tag: '".to_string();
    s.append(v.0.as_str());
    match &v.1 {
        VariantKind::Unit => {
            s.append("' }");
        },
        VariantKind::Newtype(inner) => {
            s.append("'; value: ");
            let t = ts_type_base_named(inner);
            s.append(t.as_str());
            s.append(" }");
        },
        VariantKind::Tuple(fs) | VariantKind::Struct(fs) => {
            s.append("'; ");
            let t = ts_fields_joined(fs);
            s.append(t.as_str());
            s.append(" }");
        },
    }
    s
}

/// One variant of an enum as a tagged object type.
pub fn ts_variant_of(v: &(String, VariantKind)) -> (s: String)
    ensures
        s@ == ts_variant(*v),
{
    ts_variant_text(v)
}

/// The variants of an anonymous enum as a union, joined with ` | `.
fn ts_variants_joined(vs: &Vec<(String, VariantKind)>) -> (s: String)
    ensures
        s@ == ts_variants(vs@),
    decreases vs, 0int,
{
    let mut s = String::new();
    let mut i: usize = 0;
    while i < vs.len()
        invariant
            i <= vs@.len(),
            s@ == ts_variants(vs@.subrange(0, i as int)),
        decreases vs.len() - i,
    {
        let ghost sub = vs@.subrange(0, i + 1);
        assert(sub.drop_last() == vs@.subrange(0, i as int));
        if i > 0 {
            s.append(" | ");
        }
        let t = ts_variant_text(&vs[i]);
        s.append(t.as_str());
        i = i + 1;
    }
    assert(vs@.subrange(0, vs@.len() as int) == vs@);
    s
}

/// The TypeScript type expression of a shape.
pub fn ts_type_base_named(t: &TypeShape) -> (s: String)
    ensures
        s@ == ts_ty(*t),
    decreases t, 1int,
{
    match t {
        TypeShape::Struct(Some(name), _) => name.clone(),
        TypeShape::Enum(Some(name), _) => name.clone(),
        TypeShape::List(e) => {
            if let TypeShape::Scalar(ScalarType::U8) = &**e {
                return "Uint8Array".to_string();
            }
            if let TypeShape::Enum(None, _) = &**e {
                wrap("(", ts_type_base_named(e), ")[]")
            } else {
                let mut s = ts_type_base_named(e);
                s.append("[]");
                s
            }
        },
        TypeShape::Option(e) => {
            let mut s = ts_type_base_named(e);
            s.append(" | null");
            s
        },
        TypeShape::Array(e, n) => {
            let mut s = "[".to_string();
            let inner = ts_type_base_named(e);
            s.append(inner.as_str());
            s.append("; ");
            push_decimal(&mut s, *n);
            s.append("]");
            s
        },
        TypeShape::MapOf(k, v) => {
            let mut s = "Map<".to_string();
            let key = ts_type_base_named(k);
            s.append(key.as_str());
            s.append(", ");
            let value = ts_type_base_named(v);
            s.append(value.as_str());
            s.append(">");
            s
        },
        TypeShape::SetOf(e) => wrap("Set<", ts_type_base_named(e), ">"),
        TypeShape::Tuple(es) => wrap("[", ts_types_joined(es), "]"),
        TypeShape::Tx(e) => wrap("Tx<", ts_type_base_named(e), ">"),
        TypeShape::Rx(e) => wrap("Rx<", ts_type_base_named(e), ">"),
        TypeShape::Struct(None, fs) => wrap("{ ", ts_fields_joined(fs), " }"),
        TypeShape::Enum(None, vs) => ts_variants_joined(vs),
        TypeShape::Scalar(sc) => ts_scalar_type(*sc),
        TypeShape::Slice(e) => {
            let mut s = ts_type_base_named(e);
            s.append("[]");
            s
        },
        TypeShape::Pointer(p) => ts_type_base_named(p),
        TypeShape::Result(ok, err) => {
            let mut s = "{ ok: true; value: ".to_string();
            let o = ts_type_base_named(ok);
            s.append(o.as_str());
            s.append(" } | { ok: false; error: ");
            let e = ts_type_base_named(err);
            s.append(e.as_str());
            s.append(" }");
            s
        },
        TypeShape::Opaque => "unknown".to_string(),
    }
}

/// The TypeScript type for user-facing type definitions.
pub fn ts_type(t: &TypeShape) -> (s: String)
    ensures
        s@ == ts_ty(*t),
{
    ts_type_base_named(t)
}

/// The TypeScript type of a client argument: channel handles keep their
/// direction, around the type they carry.
pub fn ts_type_client_arg(t: &TypeShape) -> (s: String)
    ensures
        s@ == ts_ty(*t),
    decreases t,
{
    match t {
        TypeShape::Tx(e) => wrap("Tx<", ts_type_client_arg(e), ">"),
        TypeShape::Rx(e) => wrap("Rx<", ts_type_client_arg(e), ">"),
        _ => ts_type_base_named(t),
    }
}

/// The TypeScript type of a client return value.
pub fn ts_type_client_return(t: &TypeShape) -> (s: String)
    ensures
        s@ == ts_ty(*t),
    decreases t,
{
    match t {
        TypeShape::Tx(e) => wrap("Tx<", ts_type_client_return(e), ">"),
        TypeShape::Rx(e) => wrap("Rx<", ts_type_client_return(e), ">"),
        _ => ts_type_base_named(t),
    }
}

/// The TypeScript type of a handler argument.
pub fn ts_type_server_arg(t: &TypeShape) -> (s: String)
    ensures
        s@ == ts_ty(*t),
    decreases t,
{
    match t {
        TypeShape::Tx(e) => wrap("Tx<", ts_type_server_arg(e), ">"),
        TypeShape::Rx(e) => wrap("Rx<", ts_type_server_arg(e), ">"),
        _ => ts_type_base_named(t),
    }
}

/// The TypeScript type of a handler return value.
pub fn ts_type_server_return(t: &TypeShape) -> (s: String)
    ensures
        s@ == ts_ty(*t),
    decreases t,
{
    match t {
        TypeShape::Tx(e) => wrap("Tx<", ts_type_server_return(e), ">"),
        TypeShape::Rx(e) => wrap("Rx<", ts_type_server_return(e), ">"),
        _ => ts_type_base_named(t),
    }
}

/// Whether a field name starts with an ASCII digit (a tuple field).
pub open spec fn is_tuple_field(name: Seq<char>) -> bool {
    name.len() > 0 && '0' <= name[0] && name[0] <= '9'
}

/// The TypeScript access of a field: bracket notation for tuple fields,
/// dot notation otherwise.
pub open spec fn field_access(expr: Seq<char>, field_name: Seq<char>) -> Seq<char> {
    if is_tuple_field(field_name) {
        expr + "["@ + field_name + "]"@
    } else {
        expr + "."@ + field_name
    }
}

/// The TypeScript expression that reads a field of `expr`.
pub fn ts_field_access(expr: &str, field_name: &str) -> (s: String)
    ensures
        s@ == field_access(expr@, field_name@),
{
    let cs = chars_of(field_name);
    let mut s = expr.to_string();
    if cs.len() > 0 && '0' <= cs[0] && cs[0] <= '9' {
        s.append("[");
        s.append(field_name);
        s.append("]");
    } else {
        s.append(".");
        s.append(field_name);
    }
    s
}

} // verus!
