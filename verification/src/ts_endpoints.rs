//! Generation of the TypeScript endpoints of a service: the client class
//! that encodes calls and decodes replies, the handler interface with the
//! table of method handlers that decode arguments and encode results, and
//! the whole generated module.
//!
//! Method ids are computed by the schema and reach the generators already
//! written as TypeScript literals, one per method, in method order.
use vstd::prelude::*;

use vstd::string::StringExecFns;

use crate::shapes::ts_ty;
use crate::ts_codec::{
    fully_supported, generate_decode_stmt_client, generate_decode_stmt_server,
    generate_encode_expr, is_fully_supported, ts_decode_stmt_directional, ts_encode,
};
use crate::ts_service::{
    all_method_types, caller_interface, caller_params, collect_named_types, doc_line,
    generate_caller_interface, generate_named_types, generate_types, has_streaming,
    lower_arg_names, lower_camel, lowered_arg_names, named_defs, params_text, service_streams,
    to_lower_camel_case, to_upper_camel_case, upper_camel, visit_methods, ArgDetail,
    MethodDetail, ServiceDetail,
};

verus! {

/// Whether every argument type can be encoded and decoded.
pub open spec fn args_supported(args: Seq<ArgDetail>) -> bool {
    forall|j: int| 0 <= j < args.len() ==> fully_supported(#[trigger] args[j].ty)
}

/// Whether a method's arguments and return type can all be encoded and
/// decoded.
pub open spec fn method_supported(m: MethodDetail) -> bool {
    args_supported(m.args@) && fully_supported(m.return_type)
}

/// The ids as character sequences.
pub open spec fn ids_view(ids: Seq<String>) -> Seq<Seq<char>> {
    ids.map_values(|s: String| s@)
}

fn all_supported(args: &Vec<ArgDetail>) -> (b: bool)
    ensures
        b == args_supported(args@),
{
    let mut j: usize = 0;
    while j < args.len()
        invariant
            j <= args@.len(),
            forall|l: int| 0 <= l < j ==> fully_supported(#[trigger] args@[l].ty),
        decreases args.len() - j,
    {
        if !is_fully_supported(&args[j].ty) {
            return false;
        }
        j = j + 1;
    }
    true
}

// ---------------------------------------------------------------------------
// Client class
// ---------------------------------------------------------------------------

/// The encodings of the arguments, joined with `, `.
pub open spec fn encoded_args(names: Seq<Seq<char>>, args: Seq<ArgDetail>) -> Seq<char>
    decreases args.len(),
{
    if args.len() == 0 {
        Seq::empty()
    } else if args.len() == 1 {
        ts_encode(args[0].ty, names[0])
    } else {
        encoded_args(names, args.drop_last()) + ", "@ + ts_encode(
            args.last().ty,
            names[args.len() - 1],
        )
    }
}

/// The line that builds a call's payload from its arguments.
pub open spec fn payload_line(names: Seq<Seq<char>>, args: Seq<ArgDetail>) -> Seq<char> {
    if args.len() == 0 {
        "    const payload = new Uint8Array(0);\n"@
    } else if args.len() == 1 {
        "    const payload = "@ + ts_encode(args[0].ty, names[0]) + ";\n"@
    } else {
        "    const payload = concat("@ + encoded_args(names, args) + ");\n"@
    }
}

/// The body of a client method: encode, call, decode the reply; or a throw
/// when some type cannot be encoded or decoded yet.
pub open spec fn client_body(names: Seq<Seq<char>>, id: Seq<char>, m: MethodDetail) -> Seq<char> {
    if method_supported(m) {
        payload_line(names, m.args@) + "    const response = await this.conn.call("@ + id
            + "n, payload);\n"@ + "    const buf = response;\n"@
            + "    let offset = decodeRpcResult(buf, 0);\n"@ + "    "@
            + ts_decode_stmt_directional(m.return_type, "result"@, "offset"@) + "\n"@
            + "    return result;\n"@
    } else {
        "    throw new Error(\"Not yet implemented: encoding/decoding for this method\");\n"@
    }
}

/// One client method named `name`, with argument names `names` and the
/// method id literal `id`.
pub open spec fn client_method(
    name: Seq<char>,
    names: Seq<Seq<char>>,
    id: Seq<char>,
    m: MethodDetail,
) -> Seq<char> {
    doc_line(m.doc) + "  async "@ + name + "("@ + caller_params(names, m.args@) + "): Promise<"@
        + ts_ty(m.return_type) + "> {\n"@ + client_body(names, id, m) + "  }\n\n"@
}

/// The client methods of every method, in order.
pub open spec fn client_methods(ms: Seq<MethodDetail>, ids: Seq<Seq<char>>) -> Seq<char>
    decreases ms.len(),
{
    if ms.len() == 0 {
        Seq::empty()
    } else {
        client_methods(ms.drop_last(), ids) + client_method(
            lower_camel(ms.last().method_name@),
            lower_arg_names(ms.last().args@),
            ids[ms.len() - 1],
            ms.last(),
        )
    }
}

/// The client class of a service named `name` (in UpperCamelCase).
pub open spec fn client_impl(name: Seq<char>, ms: Seq<MethodDetail>, ids: Seq<Seq<char>>) -> Seq<
    char,
> {
    "// Client implementation for "@ + name + "\n"@ + "export class "@ + name
        + "Client<T extends MessageTransport = MessageTransport> implements "@ + name
        + "Caller {\n"@ + "  private conn: Connection<T>;\n\n"@
        + "  constructor(conn: Connection<T>) {\n"@ + "    this.conn = conn;\n"@ + "  }\n\n"@
        + client_methods(ms, ids) + "}\n\n"@
}

fn encoded_args_text(arg_names: &Vec<String>, args: &Vec<ArgDetail>) -> (s: String)
    requires
        arg_names@.len() == args@.len(),
    ensures
        s@ == encoded_args(arg_names@.map_values(|a: String| a@), args@),
{
    let ghost names = arg_names@.map_values(|a: String| a@);
    let mut s = String::new();
    let mut i: usize = 0;
    while i < args.len()
        invariant
            i <= args@.len(),
            arg_names@.len() == args@.len(),
            names == arg_names@.map_values(|a: String| a@),
            s@ == encoded_args(names, args@.subrange(0, i as int)),
        decreases args.len() - i,
    {
        let ghost sub = args@.subrange(0, i + 1);
        assert(sub.drop_last() == args@.subrange(0, i as int));
        assert(sub.last() == args@[i as int]);
        if i > 0 {
            s.append(", ");
        }
        let e = generate_encode_expr(&args[i].ty, arg_names[i].as_str());
        s.append(e.as_str());
        i = i + 1;
    }
    assert(args@.subrange(0, args@.len() as int) == args@);
    s
}

fn client_body_text(arg_names: &Vec<String>, id: &str, m: &MethodDetail) -> (s: String)
    requires
        arg_names@.len() == m.args@.len(),
    ensures
        s@ == client_body(arg_names@.map_values(|a: String| a@), id@, *m),
{
    let supported = all_supported(&m.args) && is_fully_supported(&m.return_type);
    if !supported {
        return "    throw new Error(\"Not yet implemented: encoding/decoding for this method\");\n".to_string();
    }
    let mut s = String::new();
    if m.args.len() == 0 {
        s.append("    const payload = new Uint8Array(0);\n");
    } else if m.args.len() == 1 {
        s.append("    const payload = ");
        let e = generate_encode_expr(&m.args[0].ty, arg_names[0].as_str());
        s.append(e.as_str());
        s.append(";\n");
    } else {
        s.append("    const payload = concat(");
        let e = encoded_args_text(arg_names, &m.args);
        s.append(e.as_str());
        s.append(");\n");
    }
    s.append("    const response = await this.conn.call(");
    s.append(id);
    s.append("n, payload);\n");
    s.append("    const buf = response;\n");
    s.append("    let offset = decodeRpcResult(buf, 0);\n");
    s.append("    ");
    let d = generate_decode_stmt_client(&m.return_type, "result", "offset");
    s.append(d.as_str());
    s.append("\n");
    s.append("    return result;\n");
    s
}

/// One client method, given the method's name and argument names in
/// lowerCamelCase and its id literal.
pub fn client_method_text(name: &str, arg_names: &Vec<String>, id: &str, m: &MethodDetail) -> (s:
    String)
    requires
        arg_names@.len() == m.args@.len(),
    ensures
        s@ == client_method(name@, arg_names@.map_values(|a: String| a@), id@, *m),
{
    let mut s = String::new();
    match &m.doc {
        Some(d) => {
            s.append("  /** ");
            s.append(d.as_str());
            s.append(" */\n");
        },
        None => {},
    }
    s.append("  async ");
    s.append(name);
    s.append("(");
    let params = params_text(arg_names, &m.args, false);
    s.append(params.as_str());
    s.append("): Promise<");
    let r = crate::shapes::ts_type_client_return(&m.return_type);
    s.append(r.as_str());
    s.append("> {\n");
    let body = client_body_text(arg_names, id, m);
    s.append(body.as_str());
    s.append("  }\n\n");
    s
}

/// The client class of a service: one async method per service method,
/// which encodes the arguments, calls the method by its id and decodes the
/// reply. `ids` holds the id literal of each method, in order.
pub fn generate_client_impl(service: &ServiceDetail, ids: &Vec<String>) -> (s: String)
    requires
        ids@.len() == service.methods@.len(),
    ensures
        s@ == client_impl(upper_camel(service.name@), service.methods@, ids_view(ids@)),
{
    let name = to_upper_camel_case(service.name.as_str());
    let mut s = "// Client implementation for ".to_string();
    s.append(name.as_str());
    s.append("\n");
    s.append("export class ");
    s.append(name.as_str());
    s.append("Client<T extends MessageTransport = MessageTransport> implements ");
    s.append(name.as_str());
    s.append("Caller {\n");
    s.append("  private conn: Connection<T>;\n\n");
    s.append("  constructor(conn: Connection<T>) {\n");
    s.append("    this.conn = conn;\n");
    s.append("  }\n\n");
    let mut body = String::new();
    let mut i: usize = 0;
    while i < service.methods.len()
        invariant
            i <= service.methods@.len(),
            ids@.len() == service.methods@.len(),
            body@ == client_methods(service.methods@.subrange(0, i as int), ids_view(ids@)),
        decreases service.methods.len() - i,
    {
        let ghost sub = service.methods@.subrange(0, i + 1);
        assert(sub.drop_last() == service.methods@.subrange(0, i as int));
        assert(sub.last() == service.methods@[i as int]);
        let m = &service.methods[i];
        let method_name = to_lower_camel_case(m.method_name.as_str());
        let arg_names = lowered_arg_names(&m.args);
        let text = client_method_text(method_name.as_str(), &arg_names, ids[i].as_str(), m);
        body.append(text.as_str());
        i = i + 1;
    }
    assert(service.methods@.subrange(0, service.methods@.len() as int) == service.methods@);
    s.append(body.as_str());
    s.append("}\n\n");
    s
}

// ---------------------------------------------------------------------------
// Handler interface and method handlers
// ---------------------------------------------------------------------------

/// The declaration of one handler method: it may answer at once or later.
pub open spec fn handler_decl(name: Seq<char>, names: Seq<Seq<char>>, m: MethodDetail) -> Seq<
    char,
> {
    "  "@ + name + "("@ + caller_params(names, m.args@) + "): Promise<"@ + ts_ty(m.return_type)
        + "> | "@ + ts_ty(m.return_type) + ";\n"@
}

pub open spec fn handler_decls(ms: Seq<MethodDetail>) -> Seq<char>
    decreases ms.len(),
{
    if ms.len() == 0 {
        Seq::empty()
    } else {
        handler_decls(ms.drop_last()) + handler_decl(
            lower_camel(ms.last().method_name@),
            lower_arg_names(ms.last().args@),
            ms.last(),
        )
    }
}

/// The statements that decode each argument in turn.
pub open spec fn decode_lines(names: Seq<Seq<char>>, args: Seq<ArgDetail>) -> Seq<char>
    decreases args.len(),
{
    if args.len() == 0 {
        Seq::empty()
    } else {
        decode_lines(names, args.drop_last()) + "      "@ + ts_decode_stmt_directional(
            args.last().ty,
            names[args.len() - 1],
            "offset"@,
        ) + "\n"@
    }
}

/// Names joined with `, `.
pub open spec fn joined(names: Seq<Seq<char>>) -> Seq<char>
    decreases names.len(),
{
    if names.len() == 0 {
        Seq::empty()
    } else if names.len() == 1 {
        names[0]
    } else {
        joined(names.drop_last()) + ", "@ + names.last()
    }
}

/// The body of a method handler: decode every argument, refuse trailing
/// bytes, call the handler and encode its result; or an error reply when
/// some type cannot be encoded or decoded yet.
pub open spec fn handler_body(name: Seq<char>, names: Seq<Seq<char>>, m: MethodDetail) -> Seq<
    char,
> {
    if method_supported(m) {
        "      const buf = payload;\n"@ + "      let offset = 0;\n"@ + decode_lines(names, m.args@)
            + "      if (offset !== buf.length) throw new Error(\"args: trailing bytes\");\n"@
            + "      const result = await handler."@ + name + "("@ + joined(names) + ");\n"@
            + "      return encodeResultOk("@ + ts_encode(m.return_type, "result"@) + ");\n"@
    } else {
        "      // TODO: implement encoding/decoding for streaming types\n"@
            + "      return encodeResultErr(encodeInvalidPayload());\n"@
    }
}

/// The entry of one method in the handler table.
pub open spec fn handler_entry(
    name: Seq<char>,
    names: Seq<Seq<char>>,
    id: Seq<char>,
    m: MethodDetail,
) -> Seq<char> {
    "  ["@ + id + "n, async (handler, payload) => {\n"@ + "    try {\n"@ + handler_body(
        name,
        names,
        m,
    ) + "    } catch (e) {\n"@ + "      return encodeResultErr(encodeInvalidPayload());\n"@
        + "    }\n"@ + "  }],\n"@
}

pub open spec fn handler_entries(ms: Seq<MethodDetail>, ids: Seq<Seq<char>>) -> Seq<char>
    decreases ms.len(),
{
    if ms.len() == 0 {
        Seq::empty()
    } else {
        handler_entries(ms.drop_last(), ids) + handler_entry(
            lower_camel(ms.last().method_name@),
            lower_arg_names(ms.last().args@),
            ids[ms.len() - 1],
            ms.last(),
        )
    }
}

/// The handler interface of a service named `name` (in UpperCamelCase) and
/// its table of method handlers, keyed by method id.
pub open spec fn handler_interface(
    name: Seq<char>,
    ms: Seq<MethodDetail>,
    ids: Seq<Seq<char>>,
) -> Seq<char> {
    "// Handler interface for "@ + name + "\n"@ + "export interface "@ + name + "Handler {\n"@
        + handler_decls(ms) + "}\n\n"@ + "// Method handlers for "@ + name + "\n"@
        + "export const "@ + lower_camel(name) + "_methodHandlers = new Map<bigint, MethodHandler<"@
        + name + "Handler>>([\n"@ + handler_entries(ms, ids) + "]);\n"@
}

fn decode_lines_text(arg_names: &Vec<String>, args: &Vec<ArgDetail>) -> (s: String)
    requires
        arg_names@.len() == args@.len(),
    ensures
        s@ == decode_lines(arg_names@.map_values(|a: String| a@), args@),
{
    let ghost names = arg_names@.map_values(|a: String| a@);
    let mut s = String::new();
    let mut i: usize = 0;
    while i < args.len()
        invariant
            i <= args@.len(),
            arg_names@.len() == args@.len(),
            names == arg_names@.map_values(|a: String| a@),
            s@ == decode_lines(names, args@.subrange(0, i as int)),
        decreases args.len() - i,
    {
        let ghost sub = args@.subrange(0, i + 1);
        assert(sub.drop_last() == args@.subrange(0, i as int));
        assert(sub.last() == args@[i as int]);
        s.append("      ");
        let d = generate_decode_stmt_server(&args[i].ty, arg_names[i].as_str(), "offset");
        s.append(d.as_str());
        s.append("\n");
        i = i + 1;
    }
    assert(args@.subrange(0, args@.len() as int) == args@);
    s
}

pub(crate) fn joined_text(names: &Vec<String>) -> (s: String)
    ensures
        s@ == joined(names@.map_values(|a: String| a@)),
{
    let ghost all = names@.map_values(|a: String| a@);
    let mut s = String::new();
    let mut i: usize = 0;
    while i < names.len()
        invariant
            i <= names@.len(),
            all == names@.map_values(|a: String| a@),
            s@ == joined(all.subrange(0, i as int)),
        decreases names.len() - i,
    {
        let ghost sub = all.subrange(0, i + 1);
        assert(sub.drop_last() == all.subrange(0, i as int));
        if i > 0 {
            s.append(", ");
        }
        s.append(names[i].as_str());
        i = i + 1;
    }
    assert(all.subrange(0, all.len() as int) == all);
    s
}

fn handler_body_text(name: &str, arg_names: &Vec<String>, m: &MethodDetail) -> (s: String)
    requires
        arg_names@.len() == m.args@.len(),
    ensures
        s@ == handler_body(name@, arg_names@.map_values(|a: String| a@), *m),
{
    let supported = all_supported(&m.args) && is_fully_supported(&m.return_type);
    if !supported {
        let mut s = "      // TODO: implement encoding/decoding for streaming types\n".to_string();
        s.append("      return encodeResultErr(encodeInvalidPayload());\n");
        return s;
    }
    let mut s = "      const buf = payload;\n".to_string();
    s.append("      let offset = 0;\n");
    let d = decode_lines_text(arg_names, &m.args);
    s.append(d.as_str());
    s.append("      if (offset !== buf.length) throw new Error(\"args: trailing bytes\");\n");
    s.append("      const result = await handler.");
    s.append(name);
    s.append("(");
    let j = joined_text(arg_names);
    s.append(j.as_str());
    s.append(");\n");
    s.append("      return encodeResultOk(");
    let e = generate_encode_expr(&m.return_type, "result");
    s.append(e.as_str());
    s.append(");\n");
    s
}

fn handler_decl_text(name: &str, arg_names: &Vec<String>, m: &MethodDetail) -> (s: String)
    requires
        arg_names@.len() == m.args@.len(),
    ensures
        s@ == handler_decl(name@, arg_names@.map_values(|a: String| a@), *m),
{
    let mut s = "  ".to_string();
    s.append(name);
    s.append("(");
    let params = params_text(arg_names, &m.args, true);
    s.append(params.as_str());
    s.append("): Promise<");
    let r = crate::shapes::ts_type_server_return(&m.return_type);
    s.append(r.as_str());
    s.append("> | ");
    s.append(r.as_str());
    s.append(";\n");
    s
}

fn handler_entry_text(name: &str, arg_names: &Vec<String>, id: &str, m: &MethodDetail) -> (s:
    String)
    requires
        arg_names@.len() == m.args@.len(),
    ensures
        s@ == handler_entry(name@, arg_names@.map_values(|a: String| a@), id@, *m),
{
    let mut s = "  [".to_string();
    s.append(id);
    s.append("n, async (handler, payload) => {\n");
    s.append("    try {\n");
    let body = handler_body_text(name, arg_names, m);
    s.append(body.as_str());
    s.append("    } catch (e) {\n");
    s.append("      return encodeResultErr(encodeInvalidPayload());\n");
    s.append("    }\n");
    s.append("  }],\n");
    s
}

/// The handler interface of a service (each method answers with a value or
/// a promise of it) and the table that maps each method id to a function
/// that decodes the arguments, calls the handler and encodes the result.
/// `ids` holds the id literal of each method, in order.
pub fn generate_handler_interface(service: &ServiceDetail, ids: &Vec<String>) -> (s: String)
    requires
        ids@.len() == service.methods@.len(),
    ensures
        s@ == handler_interface(upper_camel(service.name@), service.methods@, ids_view(ids@)),
{
    let name = to_upper_camel_case(service.name.as_str());
    let mut decls = String::new();
    let mut entries = String::new();
    let mut i: usize = 0;
    while i < service.methods.len()
        invariant
            i <= service.methods@.len(),
            ids@.len() == service.methods@.len(),
            decls@ == handler_decls(service.methods@.subrange(0, i as int)),
            entries@ == handler_entries(service.methods@.subrange(0, i as int), ids_view(ids@)),
        decreases service.methods.len() - i,
    {
        let ghost sub = service.methods@.subrange(0, i + 1);
        assert(sub.drop_last() == service.methods@.subrange(0, i as int));
        assert(sub.last() == service.methods@[i as int]);
        let m = &service.methods[i];
        let method_name = to_lower_camel_case(m.method_name.as_str());
        let arg_names = lowered_arg_names(&m.args);
        let d = handler_decl_text(method_name.as_str(), &arg_names, m);
        decls.append(d.as_str());
        let e = handler_entry_text(method_name.as_str(), &arg_names, ids[i].as_str(), m);
        entries.append(e.as_str());
        i = i + 1;
    }
    assert(service.methods@.subrange(0, service.methods@.len() as int) == service.methods@);
    let lower = to_lower_camel_case(name.as_str());
    let mut s = "// Handler interface for ".to_string();
    s.append(name.as_str());
    s.append("\n");
    s.append("export interface ");
    s.append(name.as_str());
    s.append("Handler {\n");
    s.append(decls.as_str());
    s.append("}\n\n");
    s.append("// Method handlers for ");
    s.append(name.as_str());
    s.append("\n");
    s.append("export const ");
    s.append(lower.as_str());
    s.append("_methodHandlers = new Map<bigint, MethodHandler<");
    s.append(name.as_str());
    s.append("Handler>>([\n");
    s.append(entries.as_str());
    s.append("]);\n");
    s
}

// ---------------------------------------------------------------------------
// The whole module
// ---------------------------------------------------------------------------

/// The header of a generated module and its imports of the runtime.
pub open spec fn module_prelude() -> Seq<char> {
    "// @generated by roam-codegen\n"@
        + "// DO NOT EDIT - regenerate with `cargo xtask codegen --typescript`\n\n"@
        + "import type { MethodHandler, Connection, MessageTransport, DecodeResult } from \"@bearcove/roam-core\";\n"@
        + "import {\n"@ + "  encodeResultOk, encodeResultErr, encodeInvalidPayload,\n"@
        + "  concat, encodeVarint, decodeVarintNumber, decodeRpcResult,\n"@
        + "  encodeBool, decodeBool,\n"@ + "  encodeU8, decodeU8, encodeI8, decodeI8,\n"@
        + "  encodeU16, decodeU16, encodeI16, decodeI16,\n"@
        + "  encodeU32, decodeU32, encodeI32, decodeI32,\n"@
        + "  encodeU64, decodeU64, encodeI64, decodeI64,\n"@
        + "  encodeF32, decodeF32, encodeF64, decodeF64,\n"@ + "  encodeString, decodeString,\n"@
        + "  encodeBytes, decodeBytes,\n"@ + "  encodeOption, decodeOption,\n"@
        + "  encodeVec, decodeVec,\n"@
        + "  encodeTuple2, decodeTuple2, encodeTuple3, decodeTuple3,\n"@
        + "  encodeEnumVariant, decodeEnumVariant,\n"@ + "} from \"@bearcove/roam-core\";\n"@
}

/// The imports of the channel types, for a service that streams.
pub open spec fn streaming_imports() -> Seq<char> {
    "import { Tx, Rx } from \"@bearcove/roam-core\";\n"@
        + "import type { StreamId } from \"@bearcove/roam-core\";\n"@
}

/// One line of the method id table per method.
pub open spec fn id_lines(ms: Seq<MethodDetail>, ids: Seq<Seq<char>>) -> Seq<char>
    decreases ms.len(),
{
    if ms.len() == 0 {
        Seq::empty()
    } else {
        id_lines(ms.drop_last(), ids) + "  "@ + lower_camel(ms.last().method_name@) + ": "@
            + ids[ms.len() - 1] + "n,\n"@
    }
}

/// The named type definitions of a module, when there are any.
pub open spec fn named_block(ms: Seq<MethodDetail>) -> Seq<char> {
    let named = visit_methods(ms, (Seq::empty(), Seq::empty())).1;
    if named.len() == 0 {
        Seq::empty()
    } else {
        "// Named type definitions\n"@ + named_defs(named)
    }
}

/// The head of a module: header and imports (the channel types for a
/// service that streams) and the method id table.
pub open spec fn module_head(ms: Seq<MethodDetail>, ids: Seq<Seq<char>>) -> Seq<char> {
    module_prelude() + (if service_streams(ms) {
        streaming_imports()
    } else {
        Seq::empty()
    }) + "\n"@ + "export const METHOD_ID = {\n"@ + id_lines(ms, ids) + "} as const;\n\n"@
}

/// The TypeScript module of a service: its head, the named types, the
/// request and response types, the caller interface, the client class and
/// the handler interface and table.
pub open spec fn service_module(name: Seq<char>, ms: Seq<MethodDetail>, ids: Seq<Seq<char>>) -> Seq<
    char,
> {
    module_head(ms, ids) + named_block(ms) + "// Type definitions\n"@ + all_method_types(ms)
        + caller_interface(upper_camel(name), ms) + client_impl(upper_camel(name), ms, ids)
        + handler_interface(upper_camel(name), ms, ids)
}

fn module_prelude_text() -> (s: String)
    ensures
        s@ == module_prelude(),
{
    let mut s = "// @generated by roam-codegen\n".to_string();
    s.append("// DO NOT EDIT - regenerate with `cargo xtask codegen --typescript`\n\n");
    s.append(
        "import type { MethodHandler, Connection, MessageTransport, DecodeResult } from \"@bearcove/roam-core\";\n",
    );
    s.append("import {\n");
    s.append("  encodeResultOk, encodeResultErr, encodeInvalidPayload,\n");
    s.append("  concat, encodeVarint, decodeVarintNumber, decodeRpcResult,\n");
    s.append("  encodeBool, decodeBool,\n");
    s.append("  encodeU8, decodeU8, encodeI8, decodeI8,\n");
    s.append("  encodeU16, decodeU16, encodeI16, decodeI16,\n");
    s.append("  encodeU32, decodeU32, encodeI32, decodeI32,\n");
    s.append("  encodeU64, decodeU64, encodeI64, decodeI64,\n");
    s.append("  encodeF32, decodeF32, encodeF64, decodeF64,\n");
    s.append("  encodeString, decodeString,\n");
    s.append("  encodeBytes, decodeBytes,\n");
    s.append("  encodeOption, decodeOption,\n");
    s.append("  encodeVec, decodeVec,\n");
    s.append("  encodeTuple2, decodeTuple2, encodeTuple3, decodeTuple3,\n");
    s.append("  encodeEnumVariant, decodeEnumVariant,\n");
    s.append("} from \"@bearcove/roam-core\";\n");
    s
}

fn module_head_text(service: &ServiceDetail, ids: &Vec<String>) -> (s: String)
    requires
        ids@.len() == service.methods@.len(),
    ensures
        s@ == module_head(service.methods@, ids_view(ids@)),
{
    let mut s = module_prelude_text();
    if has_streaming(service) {
        s.append("import { Tx, Rx } from \"@bearcove/roam-core\";\n");
        s.append("import type { StreamId } from \"@bearcove/roam-core\";\n");
    }
    s.append("\n");
    s.append("export const METHOD_ID = {\n");
    let mut lines = String::new();
    let mut i: usize = 0;
    while i < service.methods.len()
        invariant
            i <= service.methods@.len(),
            ids@.len() == service.methods@.len(),
            lines@ == id_lines(service.methods@.subrange(0, i as int), ids_view(ids@)),
        decreases service.methods.len() - i,
    {
        let ghost sub = service.methods@.subrange(0, i + 1);
        assert(sub.drop_last() == service.methods@.subrange(0, i as int));
        assert(sub.last() == service.methods@[i as int]);
        let method_name = to_lower_camel_case(service.methods[i].method_name.as_str());
        lines.append("  ");
        lines.append(method_name.as_str());
        lines.append(": ");
        lines.append(ids[i].as_str());
        lines.append("n,\n");
        i = i + 1;
    }
    assert(service.methods@.subrange(0, service.methods@.len() as int) == service.methods@);
    s.append(lines.as_str());
    s.append("} as const;\n\n");
    s
}

/// Generates the complete TypeScript module of a service. `ids` holds the
/// id literal of each method, in order.
pub fn generate_service(service: &ServiceDetail, ids: &Vec<String>) -> (s: String)
    requires
        ids@.len() == service.methods@.len(),
    ensures
        s@ == service_module(service.name@, service.methods@, ids_view(ids@)),
{
    let mut s = module_head_text(service, ids);
    let named = collect_named_types(service);
    let n = generate_named_types(&named);
    s.append(n.as_str());
    let t = generate_types(service);
    s.append(t.as_str());
    let c = generate_caller_interface(service);
    s.append(c.as_str());
    let ci = generate_client_impl(service, ids);
    s.append(ci.as_str());
    let h = generate_handler_interface(service, ids);
    s.append(h.as_str());
    s
}

} // verus!
