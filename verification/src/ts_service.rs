//! Generation of the TypeScript declarations of a service: the named types
//! its methods use, the request and response types of each method, and the
//! caller interface.
use vstd::prelude::*;

use heck::{ToLowerCamelCase, ToUpperCamelCase};
use vstd::string::StringExecFns;

use crate::shapes::{ts_ty, ts_type, ts_type_base_named, ts_variant, TypeShape, VariantKind};

verus! {

/// One argument of a method.
#[derive(Debug)]
pub struct ArgDetail {
    pub name: String,
    pub ty: TypeShape,
}

/// One method of a service.
#[derive(Debug)]
pub struct MethodDetail {
    pub method_name: String,
    pub args: Vec<ArgDetail>,
    pub return_type: TypeShape,
    pub doc: Option<String>,
}

/// A service: its name and methods.
#[derive(Debug)]
pub struct ServiceDetail {
    pub name: String,
    pub methods: Vec<MethodDetail>,
    pub doc: Option<String>,
}

/// What `heck` makes of a name in UpperCamelCase.
pub uninterp spec fn upper_camel(s: Seq<char>) -> Seq<char>;

/// What `heck` makes of a name in lowerCamelCase.
pub uninterp spec fn lower_camel(s: Seq<char>) -> Seq<char>;

/// `heck::ToUpperCamelCase::to_upper_camel_case`: the name in UpperCamelCase,
/// a function of the name alone. It is made of the case-mapped alphanumeric
/// runs of the name, with every other character dropped, so it holds no
/// `<`.
#[verifier::external_body]
pub(crate) fn to_upper_camel_case(s: &str) -> (r: String)
    ensures
        r@ == upper_camel(s@),
        !r@.contains('<'),
{
    s.to_upper_camel_case()
}

/// `heck::ToLowerCamelCase::to_lower_camel_case`: the name in lowerCamelCase,
/// a function of the name alone.
#[verifier::external_body]
pub(crate) fn to_lower_camel_case(s: &str) -> (r: String)
    ensures
        r@ == lower_camel(s@),
{
    s.to_lower_camel_case()
}

// ---------------------------------------------------------------------------
// Request and response types
// ---------------------------------------------------------------------------

/// The lines of a multi-argument request tuple: `  <type>, // <name>`.
pub open spec fn request_arg_lines(args: Seq<ArgDetail>) -> Seq<char>
    decreases args.len(),
{
    if args.len() == 0 {
        Seq::empty()
    } else {
        request_arg_lines(args.drop_last()) + "  "@ + ts_ty(args.last().ty) + ", // "@
            + args.last().name@ + "\n"@
    }
}

/// The request type declaration of a method whose (cased) name is `name`.
pub open spec fn request_type(name: Seq<char>, args: Seq<ArgDetail>) -> Seq<char> {
    if args.len() == 0 {
        "export type "@ + name + "Request = [];\n"@
    } else if args.len() == 1 {
        "export type "@ + name + "Request = ["@ + ts_ty(args[0].ty) + "];\n"@
    } else {
        "export type "@ + name + "Request = [\n"@ + request_arg_lines(args) + "];\n"@
    }
}

/// The request and response type declarations of a method whose (cased)
/// name is `name`.
pub open spec fn method_types(name: Seq<char>, m: MethodDetail) -> Seq<char> {
    request_type(name, m.args@) + "export type "@ + name + "Response = "@ + ts_ty(m.return_type)
        + ";\n\n"@
}

/// The type declarations of every method, in order.
pub open spec fn all_method_types(ms: Seq<MethodDetail>) -> Seq<char>
    decreases ms.len(),
{
    if ms.len() == 0 {
        Seq::empty()
    } else {
        all_method_types(ms.drop_last()) + method_types(
            upper_camel(ms.last().method_name@),
            ms.last(),
        )
    }
}

/// The request and response type declarations of a method, given its name
/// in UpperCamelCase.
pub fn method_type_defs(name: &str, m: &MethodDetail) -> (s: String)
    ensures
        s@ == method_types(name@, *m),
{
    let mut s = "export type ".to_string();
    s.append(name);
    if m.args.len() == 0 {
        s.append("Request = [];\n");
    } else if m.args.len() == 1 {
        s.append("Request = [");
        let t = ts_type(&m.args[0].ty);
        s.append(t.as_str());
        s.append("];\n");
    } else {
        s.append("Request = [\n");
        let mut i: usize = 0;
        while i < m.args.len()
            invariant
                i <= m.args@.len(),
                m.args@.len() > 1,
                s@ == "export type "@ + name@ + "Request = [\n"@ + request_arg_lines(
                    m.args@.subrange(0, i as int),
                ),
            decreases m.args.len() - i,
        {
            let ghost sub = m.args@.subrange(0, i + 1);
            assert(sub.drop_last() == m.args@.subrange(0, i as int));
            assert(sub.last() == m.args@[i as int]);
            s.append("  ");
            let t = ts_type(&m.args[i].ty);
            s.append(t.as_str());
            s.append(", // ");
            s.append(m.args[i].name.as_str());
            s.append("\n");
            i = i + 1;
        }
        assert(m.args@.subrange(0, m.args@.len() as int) == m.args@);
        s.append("];\n");
    }
    s.append("export type ");
    s.append(name);
    s.append("Response = ");
    let r = ts_type(&m.return_type);
    s.append(r.as_str());
    s.append(";\n\n");
    s
}

/// The type declarations of a service: each method's request tuple and
/// response type, under the method's name in UpperCamelCase.
pub fn generate_types(service: &ServiceDetail) -> (s: String)
    ensures
        s@ == "// Type definitions\n"@ + all_method_types(service.methods@),
{
    let mut s = "// Type definitions\n".to_string();
    let mut i: usize = 0;
    while i < service.methods.len()
        invariant
            i <= service.methods@.len(),
            s@ == "// Type definitions\n"@ + all_method_types(service.methods@.subrange(0, i as int)),
        decreases service.methods.len() - i,
    {
        let ghost sub = service.methods@.subrange(0, i + 1);
        assert(sub.drop_last() == service.methods@.subrange(0, i as int));
        assert(sub.last() == service.methods@[i as int]);
        let m = &service.methods[i];
        let name = to_upper_camel_case(m.method_name.as_str());
        let defs = method_type_defs(name.as_str(), m);
        s.append(defs.as_str());
        i = i + 1;
    }
    assert(service.methods@.subrange(0, service.methods@.len() as int) == service.methods@);
    s
}

// ---------------------------------------------------------------------------
// Caller interface
// ---------------------------------------------------------------------------

/// The parameters of a caller method: `name: type`, joined with `, `, where
/// `names` are the argument names as they appear in TypeScript.
pub open spec fn caller_params(names: Seq<Seq<char>>, args: Seq<ArgDetail>) -> Seq<char>
    decreases args.len(),
{
    if args.len() == 0 {
        Seq::empty()
    } else if args.len() == 1 {
        names[0] + ": "@ + ts_ty(args[0].ty)
    } else {
        caller_params(names, args.drop_last()) + ", "@ + names[args.len() - 1] + ": "@ + ts_ty(
            args.last().ty,
        )
    }
}

/// The doc comment line of a caller method, if it has a doc.
pub open spec fn doc_line(doc: Option<String>) -> Seq<char> {
    match doc {
        Some(d) => "  /** "@ + d@ + " */\n"@,
        None => Seq::empty(),
    }
}

/// The declaration of one caller method named `name` (in lowerCamelCase),
/// with its doc comment when it has one.
pub open spec fn caller_method(name: Seq<char>, arg_names: Seq<Seq<char>>, m: MethodDetail) -> Seq<
    char,
> {
    doc_line(m.doc) + "  "@ + name + "("@ + caller_params(arg_names, m.args@) + "): Promise<"@ + ts_ty(
        m.return_type,
    ) + ">;\n"@
}

/// The argument names of a method in lowerCamelCase.
pub open spec fn lower_arg_names(args: Seq<ArgDetail>) -> Seq<Seq<char>> {
    Seq::new(args.len(), |i: int| lower_camel(args[i].name@))
}

/// The caller methods of every method, in order.
pub open spec fn caller_methods(ms: Seq<MethodDetail>) -> Seq<char>
    decreases ms.len(),
{
    if ms.len() == 0 {
        Seq::empty()
    } else {
        caller_methods(ms.drop_last()) + caller_method(
            lower_camel(ms.last().method_name@),
            lower_arg_names(ms.last().args@),
            ms.last(),
        )
    }
}

/// The caller interface of a service named `name` (in UpperCamelCase).
pub open spec fn caller_interface(name: Seq<char>, ms: Seq<MethodDetail>) -> Seq<char> {
    "// Caller interface for "@ + name + "\n"@ + "export interface "@ + name + "Caller {\n"@
        + caller_methods(ms) + "}\n\n"@
}

/// The parameters `name: type`, joined with `, `, with the types as the
/// caller writes them (`server` false) or as the handler does.
pub(crate) fn params_text(arg_names: &Vec<String>, args: &Vec<ArgDetail>, server: bool) -> (s: String)
    requires
        arg_names@.len() == args@.len(),
    ensures
        s@ == caller_params(arg_names@.map_values(|a: String| a@), args@),
{
    let ghost names = arg_names@.map_values(|a: String| a@);
    let mut params = String::new();
    let mut i: usize = 0;
    while i < args.len()
        invariant
            i <= args@.len(),
            arg_names@.len() == args@.len(),
            names == arg_names@.map_values(|a: String| a@),
            params@ == caller_params(names, args@.subrange(0, i as int)),
        decreases args.len() - i,
    {
        let ghost sub = args@.subrange(0, i + 1);
        assert(sub.drop_last() == args@.subrange(0, i as int));
        assert(sub.last() == args@[i as int]);
        if i > 0 {
            params.append(", ");
        }
        params.append(arg_names[i].as_str());
        params.append(": ");
        let t = if server {
            crate::shapes::ts_type_server_arg(&args[i].ty)
        } else {
            crate::shapes::ts_type_client_arg(&args[i].ty)
        };
        params.append(t.as_str());
        i = i + 1;
    }
    assert(args@.subrange(0, args@.len() as int) == args@);
    params
}

/// The declaration of one caller method, given the method's name and its
/// argument names as they appear in TypeScript.
pub fn caller_method_decl(name: &str, arg_names: &Vec<String>, m: &MethodDetail) -> (s: String)
    requires
        arg_names@.len() == m.args@.len(),
    ensures
        s@ == caller_method(name@, arg_names@.map_values(|a: String| a@), *m),
{
    let mut s = String::new();
    match &m.doc {
        Some(d) => {
            s.append("  /** ");
            s.append(d.as_str());
            s.append(" */\n");
        },
        None => {},
    }
    s.append("  ");
    s.append(name);
    s.append("(");
    let params = params_text(arg_names, &m.args, false);
    s.append(params.as_str());
    s.append("): Promise<");
    let r = crate::shapes::ts_type_client_return(&m.return_type);
    s.append(r.as_str());
    s.append(">;\n");
    s
}

/// The argument names of a method in lowerCamelCase.
pub(crate) fn lowered_arg_names(args: &Vec<ArgDetail>) -> (v: Vec<String>)
    ensures
        v@.len() == args@.len(),
        v@.map_values(|a: String| a@) == lower_arg_names(args@),
{
    let mut v: Vec<String> = Vec::new();
    let mut i: usize = 0;
    while i < args.len()
        invariant
            i <= args@.len(),
            v@.len() == i,
            forall|k: int| 0 <= k < i ==> (#[trigger] v@[k])@ == lower_camel(args@[k].name@),
        decreases args.len() - i,
    {
        let n = to_lower_camel_case(args[i].name.as_str());
        v.push(n);
        i = i + 1;
    }
    assert(v@.map_values(|a: String| a@) =~= lower_arg_names(args@));
    v
}

/// The caller interface of a service: one promise-returning method per
/// service method, named in lowerCamelCase.
pub fn generate_caller_interface(service: &ServiceDetail) -> (s: String)
    ensures
        s@ == caller_interface(upper_camel(service.name@), service.methods@),
{
    let name = to_upper_camel_case(service.name.as_str());
    let mut s = "// Caller interface for ".to_string();
    s.append(name.as_str());
    s.append("\n");
    s.append("export interface ");
    s.append(name.as_str());
    s.append("Caller {\n");
    let mut body = String::new();
    let mut i: usize = 0;
    while i < service.methods.len()
        invariant
            i <= service.methods@.len(),
            body@ == caller_methods(service.methods@.subrange(0, i as int)),
        decreases service.methods.len() - i,
    {
        let ghost sub = service.methods@.subrange(0, i + 1);
        assert(sub.drop_last() == service.methods@.subrange(0, i as int));
        assert(sub.last() == service.methods@[i as int]);
        let m = &service.methods[i];
        let method_name = to_lower_camel_case(m.method_name.as_str());
        let arg_names = lowered_arg_names(&m.args);
        let line = caller_method_decl(method_name.as_str(), &arg_names, m);
        body.append(line.as_str());
        i = i + 1;
    }
    assert(service.methods@.subrange(0, service.methods@.len() as int) == service.methods@);
    s.append(body.as_str());
    s.append("}\n\n");
    s
}

/// Whether a method takes or returns a channel handle.
pub open spec fn method_streams(m: MethodDetail) -> bool {
    ||| exists|j: int| 0 <= j < m.args@.len() && (m.args@[j].ty is Tx || m.args@[j].ty is Rx)
    ||| m.return_type is Tx
    ||| m.return_type is Rx
}

/// Whether any method takes or returns a channel handle.
pub open spec fn service_streams(ms: Seq<MethodDetail>) -> bool {
    exists|i: int| 0 <= i < ms.len() && method_streams(#[trigger] ms[i])
}

/// Whether a method takes or returns a channel handle.
pub(crate) fn method_has_streaming(m: &MethodDetail) -> (b: bool)
    ensures
        b == method_streams(*m),
{
    let mut j: usize = 0;
    while j < m.args.len()
        invariant
            j <= m.args@.len(),
            forall|l: int| 0 <= l < j ==> !(m.args@[l].ty is Tx || m.args@[l].ty is Rx),
        decreases m.args.len() - j,
    {
        match &m.args[j].ty {
            TypeShape::Tx(_) | TypeShape::Rx(_) => {
                return true;
            },
            _ => {},
        }
        j = j + 1;
    }
    match &m.return_type {
        TypeShape::Tx(_) | TypeShape::Rx(_) => true,
        _ => false,
    }
}

/// Whether any method of the service takes or returns a channel handle (the
/// generated module then imports the channel types).
pub fn has_streaming(service: &ServiceDetail) -> (b: bool)
    ensures
        b == service_streams(service.methods@),
{
    let mut i: usize = 0;
    while i < service.methods.len()
        invariant
            i <= service.methods@.len(),
            forall|k: int| 0 <= k < i ==> !method_streams(#[trigger] service.methods@[k]),
        decreases service.methods.len() - i,
    {
        if method_has_streaming(&service.methods[i]) {
            return true;
        }
        i = i + 1;
    }
    false
}


// ---------------------------------------------------------------------------
// Named types
// ---------------------------------------------------------------------------

/// The names seen so far and the named types collected so far, in order.
pub type Collected = (Seq<Seq<char>>, Seq<(Seq<char>, TypeShape)>);

/// Visits a shape: a named struct or enum not seen yet is recorded after
/// the named types it contains (dependencies come first); containers are
/// looked into; other shapes hold no named type.
pub open spec fn visit(t: TypeShape, c: Collected) -> Collected
    decreases t, 1int,
{
    match t {
        TypeShape::Struct(Some(n), fs) => if c.0.contains(n@) {
            c
        } else {
            let r = visit_fields(fs@, (c.0.push(n@), c.1));
            (r.0, r.1.push((n@, t)))
        },
        TypeShape::Enum(Some(n), vs) => if c.0.contains(n@) {
            c
        } else {
            let r = visit_variants(vs@, (c.0.push(n@), c.1));
            (r.0, r.1.push((n@, t)))
        },
        TypeShape::List(e) => visit(*e, c),
        TypeShape::Option(e) => visit(*e, c),
        TypeShape::Array(e, _) => visit(*e, c),
        TypeShape::SetOf(e) => visit(*e, c),
        TypeShape::Tx(e) => visit(*e, c),
        TypeShape::Rx(e) => visit(*e, c),
        TypeShape::Pointer(e) => visit(*e, c),
        TypeShape::MapOf(k, v) => visit(*v, visit(*k, c)),
        TypeShape::Tuple(es) => visit_all(es@, c),
        _ => c,
    }
}

/// Visits shapes in order.
pub open spec fn visit_all(ts: Seq<TypeShape>, c: Collected) -> Collected
    decreases ts, 0int,
{
    if ts.len() == 0 {
        c
    } else {
        visit(ts.last(), visit_all(ts.drop_last(), c))
    }
}

/// Visits the shapes of fields in order.
pub open spec fn visit_fields(fs: Seq<(String, TypeShape)>, c: Collected) -> Collected
    decreases fs, 0int,
{
    if fs.len() == 0 {
        c
    } else {
        visit(fs.last().1, visit_fields(fs.drop_last(), c))
    }
}

/// Visits the payloads of variants in order.
pub open spec fn visit_variants(vs: Seq<(String, VariantKind)>, c: Collected) -> Collected
    decreases vs, 0int,
{
    if vs.len() == 0 {
        c
    } else {
        let r = visit_variants(vs.drop_last(), c);
        match vs.last().1 {
            VariantKind::Unit => r,
            VariantKind::Newtype(inner) => visit(inner, r),
            VariantKind::Tuple(fs) => visit_fields(fs@, r),
            VariantKind::Struct(fs) => visit_fields(fs@, r),
        }
    }
}

/// Visits the argument types of a method in order.
pub open spec fn visit_args(args: Seq<ArgDetail>, c: Collected) -> Collected
    decreases args.len(),
{
    if args.len() == 0 {
        c
    } else {
        visit(args.last().ty, visit_args(args.drop_last(), c))
    }
}

/// Visits every method: its arguments, then its return type.
pub open spec fn visit_methods(ms: Seq<MethodDetail>, c: Collected) -> Collected
    decreases ms.len(),
{
    if ms.len() == 0 {
        c
    } else {
        visit(ms.last().return_type, visit_args(ms.last().args@, visit_methods(ms.drop_last(), c)))
    }
}

/// The names seen, as character sequences.
pub open spec fn names_view(v: Seq<String>) -> Seq<Seq<char>> {
    v.map_values(|s: String| s@)
}

/// The collected named types, as name and shape.
pub open spec fn named_view(v: Seq<(String, &TypeShape)>) -> Seq<(Seq<char>, TypeShape)> {
    v.map_values(|p: (String, &TypeShape)| (p.0@, *p.1))
}

/// Whether a name was seen.
fn seen_contains(seen: &Vec<String>, name: &String) -> (b: bool)
    ensures
        b == names_view(seen@).contains(name@),
{
    let mut i: usize = 0;
    while i < seen.len()
        invariant
            i <= seen@.len(),
            forall|k: int| 0 <= k < i ==> names_view(seen@)[k] != name@,
        decreases seen.len() - i,
    {
        if seen[i] == *name {
            assert(names_view(seen@)[i as int] == name@);
            return true;
        }
        i = i + 1;
    }
    false
}

/// Records a named type after visiting what it contains.
fn visit_shape<'a>(t: &'a TypeShape, seen: &mut Vec<String>, types: &mut Vec<(String, &'a TypeShape)>)
    ensures
        (names_view(final(seen)@), named_view(final(types)@)) == visit(
            *t,
            (names_view(old(seen)@), named_view(old(types)@)),
        ),
    decreases t, 1int,
{
    match t {
        TypeShape::Struct(Some(n), fs) => {
            if !seen_contains(seen, n) {
                seen.push(n.clone());
                assert(names_view(seen@) =~= names_view(old(seen)@).push(n@));
                visit_field_shapes(fs, seen, types);
                let ghost before = types@;
                types.push((n.clone(), t));
                assert(named_view(types@) =~= named_view(before).push((n@, *t)));
            }
        },
        TypeShape::Enum(Some(n), vs) => {
            if !seen_contains(seen, n) {
                seen.push(n.clone());
                assert(names_view(seen@) =~= names_view(old(seen)@).push(n@));
                visit_variant_shapes(vs, seen, types);
                let ghost before = types@;
                types.push((n.clone(), t));
                assert(named_view(types@) =~= named_view(before).push((n@, *t)));
            }
        },
        TypeShape::List(e) | TypeShape::Option(e) | TypeShape::Array(e, _) | TypeShape::SetOf(e)
        | TypeShape::Tx(e) | TypeShape::Rx(e) | TypeShape::Pointer(e) => {
            visit_shape(e, seen, types);
        },
        TypeShape::MapOf(k, v) => {
            visit_shape(k, seen, types);
            visit_shape(v, seen, types);
        },
        TypeShape::Tuple(es) => {
            visit_shapes(es, seen, types);
        },
        _ => {},
    }
}

/// Visits shapes in order.
fn visit_shapes<'a>(ts: &'a Vec<TypeShape>, seen: &mut Vec<String>, types: &mut Vec<(String, &'a TypeShape)>)
    ensures
        (names_view(final(seen)@), named_view(final(types)@)) == visit_all(
            ts@,
            (names_view(old(seen)@), named_view(old(types)@)),
        ),
    decreases ts, 0int,
{
    let mut i: usize = 0;
    while i < ts.len()
        invariant
            i <= ts@.len(),
            (names_view(seen@), named_view(types@)) == visit_all(
                ts@.subrange(0, i as int),
                (names_view(old(seen)@), named_view(old(types)@)),
            ),
        decreases ts.len() - i,
    {
        let ghost sub = ts@.subrange(0, i + 1);
        assert(sub.drop_last() == ts@.subrange(0, i as int));
        assert(sub.last() == ts@[i as int]);
        visit_shape(&ts[i], seen, types);
        i = i + 1;
    }
    assert(ts@.subrange(0, ts@.len() as int) == ts@);
}

/// Visits the shapes of fields in order.
fn visit_field_shapes<'a>(
    fs: &'a Vec<(String, TypeShape)>,
    seen: &mut Vec<String>,
    types: &mut Vec<(String, &'a TypeShape)>,
)
    ensures
        (names_view(final(seen)@), named_view(final(types)@)) == visit_fields(
            fs@,
            (names_view(old(seen)@), named_view(old(types)@)),
        ),
    decreases fs, 0int,
{
    let mut i: usize = 0;
    while i < fs.len()
        invariant
            i <= fs@.len(),
            (names_view(seen@), named_view(types@)) == visit_fields(
                fs@.subrange(0, i as int),
                (names_view(old(seen)@), named_view(old(types)@)),
            ),
        decreases fs.len() - i,
    {
        let ghost sub = fs@.subrange(0, i + 1);
        assert(sub.drop_last() == fs@.subrange(0, i as int));
        assert(sub.last() == fs@[i as int]);
        visit_shape(&fs[i].1, seen, types);
        i = i + 1;
    }
    assert(fs@.subrange(0, fs@.len() as int) == fs@);
}

/// Visits the payloads of variants in order.
fn visit_variant_shapes<'a>(
    vs: &'a Vec<(String, VariantKind)>,
    seen: &mut Vec<String>,
    types: &mut Vec<(String, &'a TypeShape)>,
)
    ensures
        (names_view(final(seen)@), named_view(final(types)@)) == visit_variants(
            vs@,
            (names_view(old(seen)@), named_view(old(types)@)),
        ),
    decreases vs, 0int,
{
    let mut i: usize = 0;
    while i < vs.len()
        invariant
            i <= vs@.len(),
            (names_view(seen@), named_view(types@)) == visit_variants(
                vs@.subrange(0, i as int),
                (names_view(old(seen)@), named_view(old(types)@)),
            ),
        decreases vs.len() - i,
    {
        let ghost sub = vs@.subrange(0, i + 1);
        assert(sub.drop_last() == vs@.subrange(0, i as int));
        assert(sub.last() == vs@[i as int]);
        match &vs[i].1 {
            VariantKind::Unit => {},
            VariantKind::Newtype(inner) => {
                visit_shape(inner, seen, types);
            },
            VariantKind::Tuple(fs) | VariantKind::Struct(fs) => {
                visit_field_shapes(fs, seen, types);
            },
        }
        i = i + 1;
    }
    assert(vs@.subrange(0, vs@.len() as int) == vs@);
}

/// The named structs and enums a service's methods use, each once, every
/// one after the named types it contains, in the order the methods (their
/// arguments, then their return types) reach them.
pub fn collect_named_types(service: &ServiceDetail) -> (v: Vec<(String, &TypeShape)>)
    ensures
        named_view(v@) == visit_methods(service.methods@, (Seq::empty(), Seq::empty())).1,
{
    let mut seen: Vec<String> = Vec::new();
    let mut types: Vec<(String, &TypeShape)> = Vec::new();
    assert(names_view(seen@) =~= Seq::<Seq<char>>::empty());
    assert(named_view(types@) =~= Seq::<(Seq<char>, TypeShape)>::empty());
    let mut i: usize = 0;
    while i < service.methods.len()
        invariant
            i <= service.methods@.len(),
            (names_view(seen@), named_view(types@)) == visit_methods(
                service.methods@.subrange(0, i as int),
                (Seq::empty(), Seq::empty()),
            ),
        decreases service.methods.len() - i,
    {
        let ghost sub = service.methods@.subrange(0, i + 1);
        assert(sub.drop_last() == service.methods@.subrange(0, i as int));
        assert(sub.last() == service.methods@[i as int]);
        let m = &service.methods[i];
        let ghost start = (names_view(seen@), named_view(types@));
        let mut j: usize = 0;
        while j < m.args.len()
            invariant
                j <= m.args@.len(),
                (names_view(seen@), named_view(types@)) == visit_args(
                    m.args@.subrange(0, j as int),
                    start,
                ),
            decreases m.args.len() - j,
        {
            let ghost asub = m.args@.subrange(0, j + 1);
            assert(asub.drop_last() == m.args@.subrange(0, j as int));
            assert(asub.last() == m.args@[j as int]);
            visit_shape(&m.args[j].ty, &mut seen, &mut types);
            j = j + 1;
        }
        assert(m.args@.subrange(0, m.args@.len() as int) == m.args@);
        visit_shape(&m.return_type, &mut seen, &mut types);
        i = i + 1;
    }
    assert(service.methods@.subrange(0, service.methods@.len() as int) == service.methods@);
    types
}

/// The fields of an interface: `  name: type;` lines.
pub open spec fn interface_fields(fs: Seq<(String, TypeShape)>) -> Seq<char>
    decreases fs.len(),
{
    if fs.len() == 0 {
        Seq::empty()
    } else {
        interface_fields(fs.drop_last()) + "  "@ + fs.last().0@ + ": "@ + ts_ty(fs.last().1)
            + ";\n"@
    }
}

/// The lines of a union type: `  | variant` each, the last one ending the
/// declaration with `;`.
pub open spec fn union_lines(vs: Seq<(String, VariantKind)>, total: nat) -> Seq<char>
    decreases vs.len(),
{
    if vs.len() == 0 {
        Seq::empty()
    } else {
        union_lines(vs.drop_last(), total) + "  | "@ + ts_variant(vs.last()) + (if vs.len() < total {
            ""@
        } else {
            ";"@
        }) + "\n"@
    }
}

/// The declaration of one named type.
pub open spec fn named_def(name: Seq<char>, t: TypeShape) -> Seq<char> {
    match t {
        TypeShape::Struct(_, fs) => "export interface "@ + name + " {\n"@ + interface_fields(fs@)
            + "}\n\n"@,
        TypeShape::Enum(_, vs) => "export type "@ + name + " =\n"@ + union_lines(vs@, vs@.len())
            + "\n"@,
        _ => Seq::empty(),
    }
}

/// The declarations of named types, in order.
pub open spec fn named_defs(ns: Seq<(Seq<char>, TypeShape)>) -> Seq<char>
    decreases ns.len(),
{
    if ns.len() == 0 {
        Seq::empty()
    } else {
        named_defs(ns.drop_last()) + named_def(ns.last().0, ns.last().1)
    }
}

/// The declaration of one named type.
fn named_type_def(name: &String, t: &TypeShape) -> (s: String)
    ensures
        s@ == named_def(name@, *t),
{
    match t {
        TypeShape::Struct(_, fs) => {
            let mut s = "export interface ".to_string();
            s.append(name.as_str());
            s.append(" {\n");
            let mut i: usize = 0;
            while i < fs.len()
                invariant
                    i <= fs@.len(),
                    s@ == "export interface "@ + name@ + " {\n"@ + interface_fields(
                        fs@.subrange(0, i as int),
                    ),
                decreases fs.len() - i,
            {
                let ghost sub = fs@.subrange(0, i + 1);
                assert(sub.drop_last() == fs@.subrange(0, i as int));
                assert(sub.last() == fs@[i as int]);
                s.append("  ");
                s.append(fs[i].0.as_str());
                s.append(": ");
                let ty = ts_type_base_named(&fs[i].1);
                s.append(ty.as_str());
                s.append(";\n");
                i = i + 1;
            }
            assert(fs@.subrange(0, fs@.len() as int) == fs@);
            s.append("}\n\n");
            s
        },
        TypeShape::Enum(_, vs) => {
            let mut s = "export type ".to_string();
            s.append(name.as_str());
            s.append(" =\n");
            let mut i: usize = 0;
            while i < vs.len()
                invariant
                    i <= vs@.len(),
                    s@ == "export type "@ + name@ + " =\n"@ + union_lines(
                        vs@.subrange(0, i as int),
                        vs@.len(),
                    ),
                decreases vs.len() - i,
            {
                let ghost sub = vs@.subrange(0, i + 1);
                assert(sub.drop_last() == vs@.subrange(0, i as int));
                assert(sub.last() == vs@[i as int]);
                s.append("  | ");
                let v = crate::shapes::ts_variant_of(&vs[i]);
                s.append(v.as_str());
                if i < vs.len() - 1 {
                    s.append("");
                } else {
                    s.append(";");
                }
                s.append("\n");
                i = i + 1;
            }
            assert(vs@.subrange(0, vs@.len() as int) == vs@);
            s.append("\n");
            s
        },
        _ => String::new(),
    }
}

/// The declarations of the named types: an interface per struct, a union
/// type per enum, under a heading; nothing when there are none.
pub fn generate_named_types(named: &Vec<(String, &TypeShape)>) -> (s: String)
    ensures
        s@ == if named@.len() == 0 {
            Seq::empty()
        } else {
            "// Named type definitions\n"@ + named_defs(named_view(named@))
        },
{
    if named.len() == 0 {
        return String::new();
    }
    let mut s = "// Named type definitions\n".to_string();
    let ghost nv = named_view(named@);
    let mut i: usize = 0;
    while i < named.len()
        invariant
            i <= named@.len(),
            nv == named_view(named@),
            s@ == "// Named type definitions\n"@ + named_defs(nv.subrange(0, i as int)),
        decreases named.len() - i,
    {
        let ghost sub = nv.subrange(0, i + 1);
        assert(sub.drop_last() == nv.subrange(0, i as int));
        assert(sub.last() == nv[i as int]);
        let d = named_type_def(&named[i].0, named[i].1);
        s.append(d.as_str());
        i = i + 1;
    }
    assert(nv.subrange(0, named@.len() as int) == nv);
    s
}

} // verus!
