//! The pieces of the generated Rust module of a service: the method id
//! constants, the service trait's method signatures, the dispatcher's
//! `match` over method ids, the bodies of the per-method dispatch functions
//! and the `ServiceDispatcher` impl with its streaming arms.
//!
//! Names are written in snake_case (constants in upper case); method ids
//! reach the generator already written as Rust literals, one per method.
use vstd::prelude::*;

use heck::ToSnakeCase;
use vstd::string::StringExecFns;

use crate::shapes::{
    rust_server_ty, rust_ty, rust_type_base, rust_type_server_arg, RustCodegenOptions, TypeShape,
};
use crate::ts_endpoints::{joined, joined_text};
use crate::ts_service::{
    method_has_streaming, method_streams, service_streams, ArgDetail, MethodDetail, ServiceDetail,
};

verus! {

/// What `heck` makes of a name in snake_case.
pub uninterp spec fn snake(s: Seq<char>) -> Seq<char>;

/// What `str::to_uppercase` makes of a text.
pub uninterp spec fn upper(s: Seq<char>) -> Seq<char>;

/// `heck::ToSnakeCase::to_snake_case`: the name in snake_case, a function of
/// the name alone.
#[verifier::external_body]
pub(crate) fn to_snake_case(s: &str) -> (r: String)
    ensures
        r@ == snake(s@),
{
    s.to_snake_case()
}

/// `str::to_uppercase`: the upper-case equivalent of the text (by the
/// Unicode `Uppercase` property), a function of the text alone.
#[verifier::external_body]
pub(crate) fn to_uppercase(s: &str) -> (r: String)
    ensures
        r@ == upper(s@),
{
    s.to_uppercase()
}

/// A sequence of lines as character sequences.
pub open spec fn lines_view(v: Seq<String>) -> Seq<Seq<char>> {
    v.map_values(|s: String| s@)
}

fn push_line(v: &mut Vec<String>, s: String)
    ensures
        lines_view(final(v)@) == lines_view(old(v)@).push(s@),
{
    v.push(s);
    assert(lines_view(v@) =~= lines_view(old(v)@).push(s@));
}

/// Appends lines to a vector of lines.
fn push_lines(v: &mut Vec<String>, more: &Vec<String>)
    ensures
        lines_view(final(v)@) == lines_view(old(v)@) + lines_view(more@),
{
    let ghost start = lines_view(v@);
    let mut i: usize = 0;
    while i < more.len()
        invariant
            i <= more@.len(),
            lines_view(v@) == start + lines_view(more@).subrange(0, i as int),
        decreases more.len() - i,
    {
        push_line(v, more[i].clone());
        assert(lines_view(more@).subrange(0, i + 1) =~= lines_view(more@).subrange(0, i as int).push(
            more@[i as int]@,
        ));
        i = i + 1;
    }
    assert(lines_view(more@).subrange(0, more@.len() as int) =~= lines_view(more@));
}

/// The constant name of a method: its snake_case name in upper case.
pub open spec fn const_name(m: MethodDetail) -> Seq<char> {
    upper(snake(m.method_name@))
}

/// The argument names in snake_case.
pub open spec fn snake_names(args: Seq<ArgDetail>) -> Seq<Seq<char>> {
    Seq::new(args.len(), |i: int| snake(args[i].name@))
}

/// The argument types as the handler takes them.
pub open spec fn server_types(args: Seq<ArgDetail>) -> Seq<Seq<char>> {
    Seq::new(args.len(), |i: int| rust_server_ty(args[i].ty))
}

/// The argument types as they travel: a channel as its `u64` id.
pub open spec fn wire_types(args: Seq<ArgDetail>) -> Seq<Seq<char>> {
    Seq::new(
        args.len(),
        |i: int|
            if args[i].ty is Tx || args[i].ty is Rx {
                "u64"@
            } else {
                rust_server_ty(args[i].ty)
            },
    )
}

fn snake_arg_names(args: &Vec<ArgDetail>) -> (v: Vec<String>)
    ensures
        lines_view(v@) == snake_names(args@),
{
    let mut v: Vec<String> = Vec::new();
    let mut i: usize = 0;
    while i < args.len()
        invariant
            i <= args@.len(),
            lines_view(v@) == snake_names(args@).subrange(0, i as int),
        decreases args.len() - i,
    {
        let n = to_snake_case(args[i].name.as_str());
        push_line(&mut v, n);
        assert(snake_names(args@).subrange(0, i + 1) =~= snake_names(args@).subrange(
            0,
            i as int,
        ).push(snake(args@[i as int].name@)));
        i = i + 1;
    }
    assert(snake_names(args@).subrange(0, args@.len() as int) =~= snake_names(args@));
    v
}

fn arg_types(args: &Vec<ArgDetail>, wire: bool) -> (v: Vec<String>)
    ensures
        lines_view(v@) == if wire {
            wire_types(args@)
        } else {
            server_types(args@)
        },
{
    let ghost target = if wire {
        wire_types(args@)
    } else {
        server_types(args@)
    };
    let mut v: Vec<String> = Vec::new();
    let mut i: usize = 0;
    while i < args.len()
        invariant
            i <= args@.len(),
            target == (if wire {
                wire_types(args@)
            } else {
                server_types(args@)
            }),
            target.len() == args@.len(),
            lines_view(v@) == target.subrange(0, i as int),
        decreases args.len() - i,
    {
        let channel = match &args[i].ty {
            TypeShape::Tx(_) | TypeShape::Rx(_) => true,
            _ => false,
        };
        let t = if wire && channel {
            "u64".to_string()
        } else {
            rust_type_server_arg(&args[i].ty)
        };
        push_line(&mut v, t);
        assert(target.subrange(0, i + 1) =~= target.subrange(0, i as int).push(target[i as int]));
        i = i + 1;
    }
    assert(target.subrange(0, args@.len() as int) =~= target);
    v
}

// ---------------------------------------------------------------------------
// Channel set-up
// ---------------------------------------------------------------------------

/// The lines that set up the channel behind a channel argument named `n`:
/// an incoming channel is registered for the data the peer sends, an
/// outgoing one for the credit it grants.
pub open spec fn channel_setup(n: Seq<char>, t: TypeShape) -> Seq<Seq<char>> {
    match t {
        TypeShape::Rx(inner) => seq![
            "let ("@ + n + "_tx, "@ + n + "_rx) = tokio::sync::mpsc::channel::<Vec<u8>>(64);"@,
            "registry.register_incoming("@ + n + ", "@ + n + "_tx);"@,
            "let "@ + n + " = Rx::<"@ + rust_ty(*inner) + ">::new("@ + n + ", "@ + n + "_rx);"@,
        ],
        TypeShape::Tx(inner) => seq![
            "let ("@ + n + "_tx, _"@ + n + "_rx) = tokio::sync::mpsc::channel::<Vec<u8>>(64);"@,
            "registry.register_outgoing_credit("@ + n + ");"@,
            "let "@ + n + " = Tx::<"@ + rust_ty(*inner) + ">::new("@ + n + ", "@ + n + "_tx);"@,
        ],
        _ => Seq::empty(),
    }
}

/// The channel set-up lines of every argument, in order.
pub open spec fn channel_lines(args: Seq<ArgDetail>) -> Seq<Seq<char>>
    decreases args.len(),
{
    if args.len() == 0 {
        Seq::empty()
    } else {
        channel_lines(args.drop_last()) + channel_setup(snake(args.last().name@), args.last().ty)
    }
}

fn channel_setup_lines(n: &str, t: &TypeShape) -> (v: Vec<String>)
    ensures
        lines_view(v@) == channel_setup(n@, *t),
{
    let mut v: Vec<String> = Vec::new();
    match t {
        TypeShape::Rx(inner) => {
            let ty = rust_type_base(inner);
            let mut a = "let (".to_string();
            a.append(n);
            a.append("_tx, ");
            a.append(n);
            a.append("_rx) = tokio::sync::mpsc::channel::<Vec<u8>>(64);");
            push_line(&mut v, a);
            let mut b = "registry.register_incoming(".to_string();
            b.append(n);
            b.append(", ");
            b.append(n);
            b.append("_tx);");
            push_line(&mut v, b);
            let mut c = "let ".to_string();
            c.append(n);
            c.append(" = Rx::<");
            c.append(ty.as_str());
            c.append(">::new(");
            c.append(n);
            c.append(", ");
            c.append(n);
            c.append("_rx);");
            push_line(&mut v, c);
        },
        TypeShape::Tx(inner) => {
            let ty = rust_type_base(inner);
            let mut a = "let (".to_string();
            a.append(n);
            a.append("_tx, _");
            a.append(n);
            a.append("_rx) = tokio::sync::mpsc::channel::<Vec<u8>>(64);");
            push_line(&mut v, a);
            let mut b = "registry.register_outgoing_credit(".to_string();
            b.append(n);
            b.append(");");
            push_line(&mut v, b);
            let mut c = "let ".to_string();
            c.append(n);
            c.append(" = Tx::<");
            c.append(ty.as_str());
            c.append(">::new(");
            c.append(n);
            c.append(", ");
            c.append(n);
            c.append("_tx);");
            push_line(&mut v, c);
        },
        _ => {},
    }
    assert(lines_view(v@) =~= channel_setup(n@, *t));
    v
}

fn all_channel_lines(args: &Vec<ArgDetail>) -> (v: Vec<String>)
    ensures
        lines_view(v@) == channel_lines(args@),
{
    let mut v: Vec<String> = Vec::new();
    let mut i: usize = 0;
    while i < args.len()
        invariant
            i <= args@.len(),
            lines_view(v@) == channel_lines(args@.subrange(0, i as int)),
        decreases args.len() - i,
    {
        let ghost sub = args@.subrange(0, i + 1);
        assert(sub.drop_last() == args@.subrange(0, i as int));
        assert(sub.last() == args@[i as int]);
        let n = to_snake_case(args[i].name.as_str());
        let more = channel_setup_lines(n.as_str(), &args[i].ty);
        push_lines(&mut v, &more);
        i = i + 1;
    }
    assert(args@.subrange(0, args@.len() as int) == args@);
    v
}

/// Lines, each after the indentation `ind` and before a newline.
pub open spec fn indented(lines: Seq<Seq<char>>, ind: Seq<char>) -> Seq<char>
    decreases lines.len(),
{
    if lines.len() == 0 {
        Seq::empty()
    } else {
        indented(lines.drop_last(), ind) + ind + lines.last() + "\n"@
    }
}

/// Lines joined with newlines (none after the last).
pub open spec fn nl_joined(lines: Seq<Seq<char>>) -> Seq<char>
    decreases lines.len(),
{
    if lines.len() == 0 {
        Seq::empty()
    } else if lines.len() == 1 {
        lines[0]
    } else {
        nl_joined(lines.drop_last()) + "\n"@ + lines.last()
    }
}

fn indented_text(lines: &Vec<String>, ind: &str) -> (s: String)
    ensures
        s@ == indented(lines_view(lines@), ind@),
{
    let ghost all = lines_view(lines@);
    let mut s = String::new();
    let mut i: usize = 0;
    while i < lines.len()
        invariant
            i <= lines@.len(),
            all == lines_view(lines@),
            s@ == indented(all.subrange(0, i as int), ind@),
        decreases lines.len() - i,
    {
        let ghost sub = all.subrange(0, i + 1);
        assert(sub.drop_last() == all.subrange(0, i as int));
        s.append(ind);
        s.append(lines[i].as_str());
        s.append("\n");
        i = i + 1;
    }
    assert(all.subrange(0, all.len() as int) == all);
    s
}

fn nl_joined_text(lines: &Vec<String>) -> (s: String)
    ensures
        s@ == nl_joined(lines_view(lines@)),
{
    let ghost all = lines_view(lines@);
    let mut s = String::new();
    let mut i: usize = 0;
    while i < lines.len()
        invariant
            i <= lines@.len(),
            all == lines_view(lines@),
            s@ == nl_joined(all.subrange(0, i as int)),
        decreases lines.len() - i,
    {
        let ghost sub = all.subrange(0, i + 1);
        assert(sub.drop_last() == all.subrange(0, i as int));
        if i > 0 {
            s.append("\n");
        }
        s.append(lines[i].as_str());
        i = i + 1;
    }
    assert(all.subrange(0, all.len() as int) == all);
    s
}

// ---------------------------------------------------------------------------
// Streaming dispatch
// ---------------------------------------------------------------------------

/// How a streaming arm decodes its arguments (channels as their ids).
pub open spec fn streaming_decode(m: MethodDetail) -> Seq<char> {
    if m.args@.len() == 0 {
        "                // No arguments to decode\n"@
    } else {
        "                let ("@ + joined(snake_names(m.args@))
            + ") = match facet_postcard::from_slice::<("@ + joined(wire_types(m.args@))
            + ")>(&payload) {\n"@ + "                    Ok(args) => args,\n"@
            + "                    Err(_) => return Box::pin(async {{ Ok(vec![1, 2]) }}), // InvalidPayload\n"@
            + "                };\n"@
    }
}

/// The end of a streaming arm: run the handler on a clone of it and encode
/// its result (`[0]` and the result, or `[1, 1]` on an error).
pub open spec fn streaming_call(name: Seq<char>, args: Seq<char>) -> Seq<char> {
    "                let handler = self.handler.clone();\n"@
        + "                Box::pin(async move {\n"@ + "                    match handler."@ + name + "("@
        + args + ").await {\n"@ + "                        Ok(result) => {\n"@
        + "                            let mut out = vec![0u8];\n"@
        + "                            out.extend(facet_postcard::to_vec(&result).map_err(|e| e.to_string())?);\n"@
        + "                            Ok(out)\n"@ + "                        }\n"@
        + "                        Err(_e) => Ok(vec![1, 1]),\n"@ + "                    }\n"@
        + "                })\n"@ + "            }"@
}

/// The arm of a streaming method in `dispatch_streaming`: decode, set up
/// the channels, then call.
pub open spec fn streaming_arm(m: MethodDetail) -> Seq<char> {
    "            method_id::"@ + const_name(m) + " => {\n"@ + streaming_decode(m) + indented(
        channel_lines(m.args@),
        "                "@,
    ) + streaming_call(snake(m.method_name@), joined(snake_names(m.args@)))
}

/// The arms of the streaming methods, each before a newline.
pub open spec fn streaming_arms(ms: Seq<MethodDetail>) -> Seq<char>
    decreases ms.len(),
{
    if ms.len() == 0 {
        Seq::empty()
    } else {
        streaming_arms(ms.drop_last()) + if method_streams(ms.last()) {
            streaming_arm(ms.last()) + "\n"@
        } else {
            Seq::empty()
        }
    }
}

/// The body of `dispatch_streaming`: a `match` with one arm per streaming
/// method and an error for any other id.
pub open spec fn streaming_dispatch_body(ms: Seq<MethodDetail>) -> Seq<char> {
    "            match method_id {\n"@ + streaming_arms(ms)
        + "            _ => Box::pin(async move { Err(format!(\"unknown streaming method {}\", method_id)) })"@
        + "\n            }"@
}

fn streaming_decode_text(m: &MethodDetail, joined_names: &str) -> (s: String)
    requires
        joined_names@ == joined(snake_names(m.args@)),
    ensures
        s@ == streaming_decode(*m),
{
    if m.args.len() == 0 {
        return "                // No arguments to decode\n".to_string();
    }
    let types = arg_types(&m.args, true);
    let joined_types = joined_text(&types);
    let mut s = "                let (".to_string();
    s.append(joined_names);
    s.append(") = match facet_postcard::from_slice::<(");
    s.append(joined_types.as_str());
    s.append(")>(&payload) {\n");
    s.append("                    Ok(args) => args,\n");
    s.append(
        "                    Err(_) => return Box::pin(async {{ Ok(vec![1, 2]) }}), // InvalidPayload\n",
    );
    s.append("                };\n");
    s
}

fn streaming_call_text(name: &str, args: &str) -> (s: String)
    ensures
        s@ == streaming_call(name@, args@),
{
    let mut s = "                let handler = self.handler.clone();\n".to_string();
    s.append("                Box::pin(async move {\n");
    s.append("                    match handler.");
    s.append(name);
    s.append("(");
    s.append(args);
    s.append(").await {\n");
    s.append("                        Ok(result) => {\n");
    s.append("                            let mut out = vec![0u8];\n");
    s.append(
        "                            out.extend(facet_postcard::to_vec(&result).map_err(|e| e.to_string())?);\n",
    );
    s.append("                            Ok(out)\n");
    s.append("                        }\n");
    s.append("                        Err(_e) => Ok(vec![1, 1]),\n");
    s.append("                    }\n");
    s.append("                })\n");
    s.append("            }");
    s
}

fn streaming_arm_text(m: &MethodDetail) -> (s: String)
    ensures
        s@ == streaming_arm(*m),
{
    let name = to_snake_case(m.method_name.as_str());
    let upper_name = to_uppercase(name.as_str());
    let names = snake_arg_names(&m.args);
    let joined_names = joined_text(&names);
    let mut s = "            method_id::".to_string();
    s.append(upper_name.as_str());
    s.append(" => {\n");
    let d = streaming_decode_text(m, joined_names.as_str());
    s.append(d.as_str());
    let channels = all_channel_lines(&m.args);
    let c = indented_text(&channels, "                ");
    s.append(c.as_str());
    let call = streaming_call_text(name.as_str(), joined_names.as_str());
    s.append(call.as_str());
    s
}

/// The body of the generated `dispatch_streaming`: one arm per streaming
/// method (in method order) and a fallback error for unknown ids.
pub fn generate_dispatch_streaming_body(service: &ServiceDetail) -> (s: String)
    ensures
        s@ == streaming_dispatch_body(service.methods@),
{
    let mut arms = String::new();
    let mut i: usize = 0;
    while i < service.methods.len()
        invariant
            i <= service.methods@.len(),
            arms@ == streaming_arms(service.methods@.subrange(0, i as int)),
        decreases service.methods.len() - i,
    {
        let ghost sub = service.methods@.subrange(0, i + 1);
        assert(sub.drop_last() == service.methods@.subrange(0, i as int));
        assert(sub.last() == service.methods@[i as int]);
        if method_has_streaming(&service.methods[i]) {
            let a = streaming_arm_text(&service.methods[i]);
            arms.append(a.as_str());
            arms.append("\n");
        }
        i = i + 1;
    }
    assert(service.methods@.subrange(0, service.methods@.len() as int) == service.methods@);
    let mut s = "            match method_id {\n".to_string();
    s.append(arms.as_str());
    s.append(
        "            _ => Box::pin(async move { Err(format!(\"unknown streaming method {}\", method_id)) })",
    );
    s.append("\n            }");
    s
}

// ---------------------------------------------------------------------------
// Per-method dispatch functions
// ---------------------------------------------------------------------------

/// The lines that decode the argument tuple, refusing a bad payload with
/// `[1, 2]`.
pub open spec fn decode_tuple_lines(
    comment: Seq<char>,
    names: Seq<Seq<char>>,
    types: Seq<Seq<char>>,
) -> Seq<Seq<char>> {
    seq![
        comment,
        "let ("@ + joined(names) + ") = match facet_postcard::from_slice::<("@ + joined(types)
            + ")>(payload) {"@,
        "    Ok(args) => args,"@,
        "    Err(_) => return vec![1, 2], // Result::Err, RoamError::InvalidPayload"@,
        "};"@,
    ]
}

/// The lines that call the handler and encode its outcome.
pub open spec fn call_lines(name: Seq<char>, names: Seq<Seq<char>>) -> Seq<Seq<char>> {
    seq![
        "match self.handler."@ + name + "("@ + joined(names) + ").await {"@,
        "    Ok(result) => {"@,
        "        let mut out = vec![0u8]; // Success marker"@,
        "        out.extend(facet_postcard::to_vec(&result).expect(\"encode\"));"@,
        "        out"@,
        "    }"@,
        "    Err(_e) => {"@,
        "        // Encode RoamError - for now just return error marker"@,
        "        vec![1, 1] // Result::Err, RoamError::UnknownMethod placeholder"@,
        "    }"@,
        "}"@,
    ]
}

/// The body of the dispatch function of a unary method.
pub open spec fn unary_lines(m: MethodDetail, tracing: bool) -> Seq<Seq<char>> {
    (if m.args@.len() == 0 {
        seq!["// No arguments to decode"@]
    } else {
        decode_tuple_lines(
            "// Decode arguments (encoded as tuple)"@,
            snake_names(m.args@),
            server_types(m.args@),
        )
    }) + (if tracing {
        seq![
            "let _span = tracing::debug_span!(\"dispatch\", method = \""@ + snake(m.method_name@)
                + "\").entered();"@,
        ]
    } else {
        Seq::empty()
    }) + call_lines(snake(m.method_name@), snake_names(m.args@))
}

/// The body of the dispatch function of a streaming method: channels
/// travel as their ids and are set up before the call.
pub open spec fn streaming_lines(m: MethodDetail) -> Seq<Seq<char>> {
    (if m.args@.len() == 0 {
        seq!["// No arguments to decode"@]
    } else {
        decode_tuple_lines(
            "// Decode arguments (streams encoded as u64 stream IDs)"@,
            snake_names(m.args@),
            wire_types(m.args@),
        )
    }) + channel_lines(m.args@) + call_lines(snake(m.method_name@), snake_names(m.args@))
}

fn decode_tuple(comment: &str, names: &Vec<String>, types: &Vec<String>) -> (v: Vec<String>)
    ensures
        lines_view(v@) == decode_tuple_lines(comment@, lines_view(names@), lines_view(types@)),
{
    let mut v: Vec<String> = Vec::new();
    push_line(&mut v, comment.to_string());
    let mut l = "let (".to_string();
    let n = joined_text(names);
    l.append(n.as_str());
    l.append(") = match facet_postcard::from_slice::<(");
    let t = joined_text(types);
    l.append(t.as_str());
    l.append(")>(payload) {");
    push_line(&mut v, l);
    push_line(&mut v, "    Ok(args) => args,".to_string());
    push_line(
        &mut v,
        "    Err(_) => return vec![1, 2], // Result::Err, RoamError::InvalidPayload".to_string(),
    );
    push_line(&mut v, "};".to_string());
    assert(lines_view(v@) =~= decode_tuple_lines(
        comment@,
        lines_view(names@),
        lines_view(types@),
    ));
    v
}

fn call(name: &str, names: &Vec<String>) -> (v: Vec<String>)
    ensures
        lines_view(v@) == call_lines(name@, lines_view(names@)),
{
    let mut v: Vec<String> = Vec::new();
    let mut l = "match self.handler.".to_string();
    l.append(name);
    l.append("(");
    let n = joined_text(names);
    l.append(n.as_str());
    l.append(").await {");
    push_line(&mut v, l);
    push_line(&mut v, "    Ok(result) => {".to_string());
    push_line(&mut v, "        let mut out = vec![0u8]; // Success marker".to_string());
    push_line(
        &mut v,
        "        out.extend(facet_postcard::to_vec(&result).expect(\"encode\"));".to_string(),
    );
    push_line(&mut v, "        out".to_string());
    push_line(&mut v, "    }".to_string());
    push_line(&mut v, "    Err(_e) => {".to_string());
    push_line(&mut v, "        // Encode RoamError - for now just return error marker".to_string());
    push_line(
        &mut v,
        "        vec![1, 1] // Result::Err, RoamError::UnknownMethod placeholder".to_string(),
    );
    push_line(&mut v, "    }".to_string());
    push_line(&mut v, "}".to_string());
    assert(lines_view(v@) =~= call_lines(name@, lines_view(names@)));
    v
}

/// The body of the dispatch function of a unary method: decode the
/// argument tuple, call the handler (within a tracing span when asked) and
/// encode the outcome.
pub fn generate_dispatch_unary(m: &MethodDetail, options: &RustCodegenOptions) -> (v: Vec<String>)
    ensures
        lines_view(v@) == unary_lines(*m, options.tracing),
{
    let name = to_snake_case(m.method_name.as_str());
    let names = snake_arg_names(&m.args);
    let mut v: Vec<String> = Vec::new();
    if m.args.len() == 0 {
        push_line(&mut v, "// No arguments to decode".to_string());
    } else {
        let types = arg_types(&m.args, false);
        let d = decode_tuple("// Decode arguments (encoded as tuple)", &names, &types);
        push_lines(&mut v, &d);
    }
    if options.tracing {
        let mut l = "let _span = tracing::debug_span!(\"dispatch\", method = \"".to_string();
        l.append(name.as_str());
        l.append("\").entered();");
        push_line(&mut v, l);
    }
    let c = call(name.as_str(), &names);
    push_lines(&mut v, &c);
    assert(lines_view(v@) =~= unary_lines(*m, options.tracing));
    v
}

/// The body of the dispatch function of a streaming method: decode the
/// argument tuple (channels as ids), set up the channels, call the handler
/// and encode the outcome.
pub fn generate_dispatch_streaming(m: &MethodDetail) -> (v: Vec<String>)
    ensures
        lines_view(v@) == streaming_lines(*m),
{
    let name = to_snake_case(m.method_name.as_str());
    let names = snake_arg_names(&m.args);
    let mut v: Vec<String> = Vec::new();
    if m.args.len() == 0 {
        push_line(&mut v, "// No arguments to decode".to_string());
    } else {
        let types = arg_types(&m.args, true);
        let d = decode_tuple("// Decode arguments (streams encoded as u64 stream IDs)", &names, &types);
        push_lines(&mut v, &d);
    }
    let ch = all_channel_lines(&m.args);
    push_lines(&mut v, &ch);
    let c = call(name.as_str(), &names);
    push_lines(&mut v, &c);
    assert(lines_view(v@) =~= streaming_lines(*m));
    v
}

/// A dispatch function of the dispatcher: its name (`dispatch_` and the
/// method's snake_case name) and the lines of its body.
pub fn generate_dispatch_method_fn(m: &MethodDetail, options: &RustCodegenOptions) -> (r: (
    String,
    Vec<String>,
))
    ensures
        r.0@ == "dispatch_"@ + snake(m.method_name@),
        lines_view(r.1@) == if method_streams(*m) {
            streaming_lines(*m)
        } else {
            unary_lines(*m, options.tracing)
        },
{
    let name = to_snake_case(m.method_name.as_str());
    let mut f = "dispatch_".to_string();
    f.append(name.as_str());
    if method_has_streaming(m) {
        (f, generate_dispatch_streaming(m))
    } else {
        (f, generate_dispatch_unary(m, options))
    }
}

// ---------------------------------------------------------------------------
// The dispatcher
// ---------------------------------------------------------------------------

/// The arms of the dispatcher's `match` over method ids: a unary method
/// goes to its dispatch function, a streaming one answers `[1, 1]`, and an
/// unknown id gets the unknown-method response.
pub open spec fn dispatch_match(ms: Seq<MethodDetail>) -> Seq<Seq<char>>
    decreases ms.len(),
{
    if ms.len() == 0 {
        seq!["_ => Self::unknown_method_response(method_id),"@]
    } else {
        let prev = dispatch_match(ms.drop_last());
        let m = ms.last();
        let arm = if method_streams(m) {
            "method_id::"@ + const_name(m) + " => vec![1, 1], // Streaming: use ServiceDispatcher"@
        } else {
            "method_id::"@ + const_name(m) + " => self.dispatch_"@ + snake(m.method_name@)
                + "(payload).await,"@
        };
        prev.drop_last().push(arm).push(prev.last())
    }
}

/// The lines of the dispatcher's `match method_id` block.
pub fn dispatch_match_lines(service: &ServiceDetail) -> (v: Vec<String>)
    ensures
        lines_view(v@) == dispatch_match(service.methods@),
{
    let mut v: Vec<String> = Vec::new();
    let mut i: usize = 0;
    while i < service.methods.len()
        invariant
            i <= service.methods@.len(),
            lines_view(v@).push("_ => Self::unknown_method_response(method_id),"@)
                == dispatch_match(service.methods@.subrange(0, i as int)),
        decreases service.methods.len() - i,
    {
        let ghost sub = service.methods@.subrange(0, i + 1);
        assert(sub.drop_last() == service.methods@.subrange(0, i as int));
        assert(sub.last() == service.methods@[i as int]);
        let m = &service.methods[i];
        let name = to_snake_case(m.method_name.as_str());
        let c = to_uppercase(name.as_str());
        let mut arm = "method_id::".to_string();
        arm.append(c.as_str());
        if method_has_streaming(m) {
            arm.append(" => vec![1, 1], // Streaming: use ServiceDispatcher");
        } else {
            arm.append(" => self.dispatch_");
            arm.append(name.as_str());
            arm.append("(payload).await,");
        }
        let ghost before = lines_view(v@);
        push_line(&mut v, arm);
        assert(before.push("_ => Self::unknown_method_response(method_id),"@).drop_last() =~= before);
        i = i + 1;
    }
    assert(service.methods@.subrange(0, service.methods@.len() as int) == service.methods@);
    push_line(&mut v, "_ => Self::unknown_method_response(method_id),".to_string());
    v
}

/// The arms of `is_streaming`, one per method.
pub open spec fn is_streaming_arms(ms: Seq<MethodDetail>) -> Seq<Seq<char>>
    decreases ms.len(),
{
    if ms.len() == 0 {
        Seq::empty()
    } else {
        is_streaming_arms(ms.drop_last()).push(
            "            method_id::"@ + const_name(ms.last()) + " => "@ + if method_streams(
                ms.last(),
            ) {
                "true"@
            } else {
                "false"@
            } + ","@,
        )
    }
}

/// The arms of `dispatch_unary`, one per unary method.
pub open spec fn unary_arms(ms: Seq<MethodDetail>) -> Seq<Seq<char>>
    decreases ms.len(),
{
    if ms.len() == 0 {
        Seq::empty()
    } else if method_streams(ms.last()) {
        unary_arms(ms.drop_last())
    } else {
        unary_arms(ms.drop_last()).push(
            "                method_id::"@ + const_name(ms.last()) + " => Ok(self.dispatch_"@
                + snake(ms.last().method_name@) + "(&payload).await),"@,
        )
    }
}

/// The `ServiceDispatcher` impl of a dispatcher named `d` for the service
/// trait `t`: which ids stream, the unary dispatch (unknown ids answered
/// with `[1, 1]`) and the streaming dispatch. A streaming service asks its
/// handler to be `Clone`.
pub open spec fn dispatcher_impl(d: Seq<char>, t: Seq<char>, ms: Seq<MethodDetail>) -> Seq<char> {
    "\n    impl<H> ::roam::session::ServiceDispatcher for "@ + d + "<H>\n    where\n        H: "@ + t
        + " + 'static"@ + (if service_streams(ms) {
        " + Clone"@
    } else {
        Seq::empty()
    }) + ",\n    {\n        fn is_streaming(&self, method_id: u64) -> bool {\n            match method_id {\n"@
        + nl_joined(is_streaming_arms(ms))
        + "\n                _ => false,\n            }\n        }\n\n        fn dispatch_unary(\n            &self,\n            method_id: u64,\n            payload: &[u8],\n        ) -> impl std::future::Future<Output = Result<Vec<u8>, String>> + Send {\n            let payload = payload.to_vec();\n            async move {\n                match method_id {\n"@
        + nl_joined(
        unary_arms(ms).push(
            "                _ => Ok(vec![1, 1]), // Result::Err(RoamError::UnknownMethod)"@,
        ),
    )
        + "\n                }\n            }\n        }\n\n        fn dispatch_streaming(\n            &self,\n            method_id: u64,\n            payload: Vec<u8>,\n            registry: &mut ::roam::session::StreamRegistry,\n        ) -> std::pin::Pin<\n            Box<dyn std::future::Future<Output = Result<Vec<u8>, String>> + Send + 'static>,\n        > {\n"@
        + streaming_dispatch_body(ms) + "\n        }\n    }"@
}

/// The `ServiceDispatcher` impl of the dispatcher `dispatcher_name` for the
/// service trait `service_trait`.
pub fn generate_service_dispatcher_impl(
    service: &ServiceDetail,
    dispatcher_name: &str,
    service_trait: &str,
) -> (s: String)
    ensures
        s@ == dispatcher_impl(dispatcher_name@, service_trait@, service.methods@),
{
    let mut streaming_arms: Vec<String> = Vec::new();
    let mut unary: Vec<String> = Vec::new();
    let mut any_streaming = false;
    let mut i: usize = 0;
    while i < service.methods.len()
        invariant
            i <= service.methods@.len(),
            lines_view(streaming_arms@) == is_streaming_arms(service.methods@.subrange(0, i as int)),
            lines_view(unary@) == unary_arms(service.methods@.subrange(0, i as int)),
            any_streaming == exists|k: int| 0 <= k < i && method_streams(#[trigger] service.methods@[k]),
        decreases service.methods.len() - i,
    {
        let ghost sub = service.methods@.subrange(0, i + 1);
        assert(sub.drop_last() == service.methods@.subrange(0, i as int));
        assert(sub.last() == service.methods@[i as int]);
        let m = &service.methods[i];
        let name = to_snake_case(m.method_name.as_str());
        let c = to_uppercase(name.as_str());
        let streams = method_has_streaming(m);
        let mut arm = "            method_id::".to_string();
        arm.append(c.as_str());
        arm.append(" => ");
        arm.append(if streams { "true" } else { "false" });
        arm.append(",");
        push_line(&mut streaming_arms, arm);
        if !streams {
            let mut u = "                method_id::".to_string();
            u.append(c.as_str());
            u.append(" => Ok(self.dispatch_");
            u.append(name.as_str());
            u.append("(&payload).await),");
            push_line(&mut unary, u);
        }
        any_streaming = any_streaming || streams;
        i = i + 1;
    }
    assert(service.methods@.subrange(0, service.methods@.len() as int) == service.methods@);
    push_line(&mut unary, "                _ => Ok(vec![1, 1]), // Result::Err(RoamError::UnknownMethod)".to_string());
    let is_streaming_match = nl_joined_text(&streaming_arms);
    let dispatch_unary_match = nl_joined_text(&unary);
    let body = generate_dispatch_streaming_body(service);
    let mut s = "\n    impl<H> ::roam::session::ServiceDispatcher for ".to_string();
    s.append(dispatcher_name);
    s.append("<H>\n    where\n        H: ");
    s.append(service_trait);
    s.append(" + 'static");
    if any_streaming {
        s.append(" + Clone");
    }
    s.append(
        ",\n    {\n        fn is_streaming(&self, method_id: u64) -> bool {\n            match method_id {\n",
    );
    s.append(is_streaming_match.as_str());
    s.append(
        "\n                _ => false,\n            }\n        }\n\n        fn dispatch_unary(\n            &self,\n            method_id: u64,\n            payload: &[u8],\n        ) -> impl std::future::Future<Output = Result<Vec<u8>, String>> + Send {\n            let payload = payload.to_vec();\n            async move {\n                match method_id {\n",
    );
    s.append(dispatch_unary_match.as_str());
    s.append(
        "\n                }\n            }\n        }\n\n        fn dispatch_streaming(\n            &self,\n            method_id: u64,\n            payload: Vec<u8>,\n            registry: &mut ::roam::session::StreamRegistry,\n        ) -> std::pin::Pin<\n            Box<dyn std::future::Future<Output = Result<Vec<u8>, String>> + Send + 'static>,\n        > {\n",
    );
    s.append(body.as_str());
    s.append("\n        }\n    }");
    s
}

} // verus!
