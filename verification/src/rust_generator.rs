//! The generated Rust module of a service, as a list of items: raw text,
//! the service trait and the dispatcher impl. The items are written out by
//! the `codegen` crate's `Scope`.
use vstd::prelude::*;

use codegen::{Block, Function, Impl, Scope, Trait};
use vstd::string::StringExecFns;

use crate::rust_dispatch::{
    const_name, dispatch_match, dispatch_match_lines, dispatcher_impl, generate_dispatch_unary,
    generate_service_dispatcher_impl, lines_view, snake, to_snake_case, to_uppercase,
    unary_lines,
};
use crate::shapes::{
    format_handler_return_type, handler_return_ty, rust_server_ty, rust_type_server_arg,
    RustCodegenOptions,
};
use crate::ts_service::{
    method_has_streaming, method_streams, to_upper_camel_case, upper_camel, ArgDetail,
    MethodDetail, ServiceDetail,
};

verus! {

#[verifier::external_type_specification]
#[verifier::external_body]
pub struct ExTrait(Trait);

#[verifier::external_type_specification]
#[verifier::external_body]
pub struct ExImpl(Impl);

#[verifier::external_type_specification]
#[verifier::external_body]
pub struct ExFunction(Function);

/// One piece of a function body.
#[derive(Debug)]
pub enum BodyPart {
    Line(String),
    /// A block: its header (`match x`) and its lines.
    Block(String, Vec<String>),
}

/// A function of a trait or an impl.
#[derive(Debug)]
pub struct FnDecl {
    pub name: String,
    pub vis: Option<String>,
    pub is_async: bool,
    /// Whether it takes `&self`.
    pub ref_self: bool,
    /// Argument names and types.
    pub args: Vec<(String, String)>,
    pub ret: Option<String>,
    pub doc: Option<String>,
    pub body: Vec<BodyPart>,
}

/// A trait definition.
#[derive(Debug)]
pub struct TraitDecl {
    pub name: String,
    pub vis: String,
    /// `where` bounds: the bounded name and the bound.
    pub bounds: Vec<(String, String)>,
    pub doc: Option<String>,
    pub fns: Vec<FnDecl>,
}

/// An inherent impl block.
#[derive(Debug)]
pub struct ImplDecl {
    pub target: String,
    pub generics: Vec<String>,
    pub target_generics: Vec<String>,
    pub bounds: Vec<(String, String)>,
    pub fns: Vec<FnDecl>,
}

/// An item of the generated module.
#[derive(Debug)]
pub enum ScopeItem {
    Raw(String),
    Trait(TraitDecl),
    Impl(ImplDecl),
}

pub ghost enum BodyView {
    Line(Seq<char>),
    Block(Seq<char>, Seq<Seq<char>>),
}

pub ghost struct FnView {
    pub name: Seq<char>,
    pub vis: Option<Seq<char>>,
    pub is_async: bool,
    pub ref_self: bool,
    pub args: Seq<(Seq<char>, Seq<char>)>,
    pub ret: Option<Seq<char>>,
    pub doc: Option<Seq<char>>,
    pub body: Seq<BodyView>,
}

pub ghost enum ItemView {
    Raw(Seq<char>),
    Trait(Seq<char>, Seq<char>, Seq<(Seq<char>, Seq<char>)>, Option<Seq<char>>, Seq<FnView>),
    Impl(Seq<char>, Seq<Seq<char>>, Seq<Seq<char>>, Seq<(Seq<char>, Seq<char>)>, Seq<FnView>),
}

pub open spec fn opt_text(o: Option<String>) -> Option<Seq<char>> {
    match o {
        Some(s) => Some(s@),
        None => None,
    }
}

pub open spec fn pairs_view(v: Seq<(String, String)>) -> Seq<(Seq<char>, Seq<char>)> {
    v.map_values(|p: (String, String)| (p.0@, p.1@))
}

pub open spec fn body_view(b: BodyPart) -> BodyView {
    match b {
        BodyPart::Line(l) => BodyView::Line(l@),
        BodyPart::Block(h, ls) => BodyView::Block(h@, lines_view(ls@)),
    }
}

pub open spec fn fn_view(f: FnDecl) -> FnView {
    FnView {
        name: f.name@,
        vis: opt_text(f.vis),
        is_async: f.is_async,
        ref_self: f.ref_self,
        args: pairs_view(f.args@),
        ret: opt_text(f.ret),
        doc: opt_text(f.doc),
        body: f.body@.map_values(|b: BodyPart| body_view(b)),
    }
}

pub open spec fn fns_view(v: Seq<FnDecl>) -> Seq<FnView> {
    v.map_values(|f: FnDecl| fn_view(f))
}

pub open spec fn item_view(i: ScopeItem) -> ItemView {
    match i {
        ScopeItem::Raw(r) => ItemView::Raw(r@),
        ScopeItem::Trait(t) => ItemView::Trait(
            t.name@,
            t.vis@,
            pairs_view(t.bounds@),
            opt_text(t.doc),
            fns_view(t.fns@),
        ),
        ScopeItem::Impl(i) => ItemView::Impl(
            i.target@,
            lines_view(i.generics@),
            lines_view(i.target_generics@),
            pairs_view(i.bounds@),
            fns_view(i.fns@),
        ),
    }
}

pub open spec fn items_view(v: Seq<ScopeItem>) -> Seq<ItemView> {
    v.map_values(|i: ScopeItem| item_view(i))
}

/// What `codegen` can write out without panicking: a trait's functions
/// carry no visibility, and an impl whose target takes generics names its
/// target without any of its own (no `<`).
pub open spec fn item_renderable(i: ItemView) -> bool {
    match i {
        ItemView::Raw(_) => true,
        ItemView::Trait(_, _, _, _, fns) => forall|k: int|
            0 <= k < fns.len() ==> (#[trigger] fns[k]).vis is None,
        ItemView::Impl(target, _, target_generics, _, _) => target_generics.len() > 0
            ==> !target.contains('<'),
    }
}

pub open spec fn items_renderable(items: Seq<ItemView>) -> bool {
    forall|k: int| 0 <= k < items.len() ==> item_renderable(#[trigger] items[k])
}

// ---------------------------------------------------------------------------
// The items of a service's module
// ---------------------------------------------------------------------------

/// The module header: the generated-code notice, the module named after
/// the service (snake_case) and its imports.
pub open spec fn header_items(name: Seq<char>) -> Seq<ItemView> {
    seq![
        ItemView::Raw("// @generated by roam-codegen"@),
        ItemView::Raw("// DO NOT EDIT - regenerate with build.rs\n"@),
        ItemView::Raw("#[allow(clippy::all, unused)]\npub mod "@ + snake(name) + " {"@),
        ItemView::Raw(
            "    pub use ::roam::session::{Tx, Rx, StreamId, RoamError, CallResult, Never};"@,
        ),
        ItemView::Raw("    #[allow(unused_imports)]\n    use ::roam::__private::facet_postcard;"@),
    ]
}

/// One constant per method in the `method_id` module.
pub open spec fn method_id_raws(ms: Seq<MethodDetail>, ids: Seq<Seq<char>>) -> Seq<ItemView>
    decreases ms.len(),
{
    if ms.len() == 0 {
        Seq::empty()
    } else {
        method_id_raws(ms.drop_last(), ids).push(
            ItemView::Raw(
                "        pub const "@ + const_name(ms.last()) + ": u64 = "@ + ids[ms.len() - 1]
                    + ";"@,
            ),
        )
    }
}

/// The method id constants are raw text.
proof fn lemma_method_id_raws_raw(ms: Seq<MethodDetail>, ids: Seq<Seq<char>>)
    ensures
        method_id_raws(ms, ids).len() == ms.len(),
        forall|k: int|
            0 <= k < ms.len() ==> (#[trigger] method_id_raws(ms, ids)[k]) is Raw,
    decreases ms.len(),
{
    if ms.len() > 0 {
        lemma_method_id_raws_raw(ms.drop_last(), ids);
    }
}

/// The arguments of a trait method: snake_case names and handler types.
pub open spec fn trait_args(args: Seq<ArgDetail>) -> Seq<(Seq<char>, Seq<char>)> {
    Seq::new(args.len(), |i: int| (snake(args[i].name@), rust_server_ty(args[i].ty)))
}

/// The service trait's method for `m`: `&self`, the arguments, and a
/// future of `Result<T, RoamError<E>>`.
pub open spec fn trait_fn(m: MethodDetail) -> FnView {
    FnView {
        name: snake(m.method_name@),
        vis: None,
        is_async: false,
        ref_self: true,
        args: trait_args(m.args@),
        ret: Some(
            "impl std::future::Future<Output = "@ + handler_return_ty(m.return_type) + "> + Send"@,
        ),
        doc: opt_text(m.doc),
        body: Seq::empty(),
    }
}

pub open spec fn trait_fns(ms: Seq<MethodDetail>) -> Seq<FnView> {
    Seq::new(ms.len(), |i: int| trait_fn(ms[i]))
}

/// The dispatch function of a unary method.
pub open spec fn dispatch_fn(m: MethodDetail, tracing: bool) -> FnView {
    FnView {
        name: "dispatch_"@ + snake(m.method_name@),
        vis: None,
        is_async: true,
        ref_self: true,
        args: seq![("payload"@, "&[u8]"@)],
        ret: Some("::std::vec::Vec<u8>"@),
        doc: None,
        body: Seq::new(unary_lines(m, tracing).len(), |i: int| BodyView::Line(unary_lines(m, tracing)[i])),
    }
}

/// The dispatch functions of the unary methods, in order.
pub open spec fn dispatch_fns(ms: Seq<MethodDetail>, tracing: bool) -> Seq<FnView>
    decreases ms.len(),
{
    if ms.len() == 0 {
        Seq::empty()
    } else if method_streams(ms.last()) {
        dispatch_fns(ms.drop_last(), tracing)
    } else {
        dispatch_fns(ms.drop_last(), tracing).push(dispatch_fn(ms.last(), tracing))
    }
}

/// The functions of the dispatcher: `new`, `dispatch` (a `match` over the
/// method id), `unknown_method_response`, and one dispatch function per
/// unary method.
pub open spec fn impl_fns(ms: Seq<MethodDetail>, tracing: bool) -> Seq<FnView> {
    seq![
        FnView {
            name: "new"@,
            vis: Some("pub"@),
            is_async: false,
            ref_self: false,
            args: seq![("handler"@, "H"@)],
            ret: Some("Self"@),
            doc: None,
            body: seq![BodyView::Line("Self { handler }"@)],
        },
        FnView {
            name: "dispatch"@,
            vis: Some("pub"@),
            is_async: true,
            ref_self: true,
            args: seq![("method_id"@, "u64"@), ("payload"@, "&[u8]"@)],
            ret: Some("::std::vec::Vec<u8>"@),
            doc: None,
            body: seq![BodyView::Block("match method_id"@, dispatch_match(ms))],
        },
        FnView {
            name: "unknown_method_response"@,
            vis: None,
            is_async: false,
            ref_self: false,
            args: seq![("_method_id"@, "u64"@)],
            ret: Some("::std::vec::Vec<u8>"@),
            doc: None,
            body: seq![
                BodyView::Line("// Return error response for unknown method"@),
                BodyView::Line("vec![1] // Error marker"@),
            ],
        },
    ] + dispatch_fns(ms, tracing)
}

/// The dispatcher struct of a service named `s` (UpperCamelCase).
pub open spec fn dispatcher_struct(s: Seq<char>) -> Seq<char> {
    "\n    /// Dispatcher for "@ + s + " service.\n    pub struct "@ + s
        + "Dispatcher<H> {\n        handler: H,\n    }"@
}

/// The items of a service's module, in order: the header, the method id
/// constants, the service trait, the dispatcher struct and its impl, the
/// `ServiceDispatcher` impl, and the closing brace of the module.
pub open spec fn rust_items(
    name: Seq<char>,
    doc: Option<Seq<char>>,
    ms: Seq<MethodDetail>,
    tracing: bool,
    ids: Seq<Seq<char>>,
) -> Seq<ItemView> {
    let s = upper_camel(name);
    header_items(name) + seq![
        ItemView::Raw("    /// Method IDs for this service.\n    pub mod method_id {"@),
    ] + method_id_raws(ms, ids) + seq![
        ItemView::Raw("    }"@),
        ItemView::Trait(s, "pub"@, seq![("Self"@, "Send + Sync"@)], doc, trait_fns(ms)),
        ItemView::Raw(dispatcher_struct(s)),
        ItemView::Impl(
            s + "Dispatcher"@,
            seq!["H"@],
            seq!["H"@],
            seq![("H"@, s + " + 'static"@)],
            impl_fns(ms, tracing),
        ),
        ItemView::Raw(dispatcher_impl(s + "Dispatcher"@, s, ms)),
        ItemView::Raw("}"@),
    ]
}

fn push_item(v: &mut Vec<ScopeItem>, x: ScopeItem)
    ensures
        items_view(final(v)@) == items_view(old(v)@).push(item_view(x)),
{
    let ghost xv = item_view(x);
    v.push(x);
    assert(items_view(v@) =~= items_view(old(v)@).push(xv));
}

fn push_raw(v: &mut Vec<ScopeItem>, s: &str)
    ensures
        items_view(final(v)@) == items_view(old(v)@).push(ItemView::Raw(s@)),
{
    push_item(v, ScopeItem::Raw(s.to_string()));
}

fn push_fn(v: &mut Vec<FnDecl>, f: FnDecl)
    ensures
        fns_view(final(v)@) == fns_view(old(v)@).push(fn_view(f)),
{
    let ghost fv = fn_view(f);
    v.push(f);
    assert(fns_view(v@) =~= fns_view(old(v)@).push(fv));
}

fn pair(a: &str, b: &str) -> (p: (String, String))
    ensures
        p.0@ == a@,
        p.1@ == b@,
{
    (a.to_string(), b.to_string())
}

fn copy_doc(d: &Option<String>) -> (r: Option<String>)
    ensures
        opt_text(r) == opt_text(*d),
{
    match d {
        Some(s) => Some(s.clone()),
        None => None,
    }
}

fn trait_fn_decl(m: &MethodDetail) -> (f: FnDecl)
    ensures
        fn_view(f) == trait_fn(*m),
{
    let mut args: Vec<(String, String)> = Vec::new();
    let mut i: usize = 0;
    while i < m.args.len()
        invariant
            i <= m.args@.len(),
            pairs_view(args@) == trait_args(m.args@).subrange(0, i as int),
        decreases m.args.len() - i,
    {
        let n = to_snake_case(m.args[i].name.as_str());
        let t = rust_type_server_arg(&m.args[i].ty);
        let ghost pv = (n@, t@);
        let ghost before = pairs_view(args@);
        args.push((n, t));
        assert(pairs_view(args@) =~= before.push(pv));
        assert(trait_args(m.args@).subrange(0, i + 1) =~= trait_args(m.args@).subrange(
            0,
            i as int,
        ).push(pv));
        i = i + 1;
    }
    assert(trait_args(m.args@).subrange(0, m.args@.len() as int) =~= trait_args(m.args@));
    let mut ret = "impl std::future::Future<Output = ".to_string();
    let r = format_handler_return_type(&m.return_type);
    ret.append(r.as_str());
    ret.append("> + Send");
    let f = FnDecl {
        name: to_snake_case(m.method_name.as_str()),
        vis: None,
        is_async: false,
        ref_self: true,
        args,
        ret: Some(ret),
        doc: copy_doc(&m.doc),
        body: Vec::new(),
    };
    assert(fn_view(f).body =~= Seq::<BodyView>::empty());
    f
}

fn dispatch_fn_decl(m: &MethodDetail, options: &RustCodegenOptions) -> (f: FnDecl)
    ensures
        fn_view(f) == dispatch_fn(*m, options.tracing),
{
    let lines = generate_dispatch_unary(m, options);
    let mut body: Vec<BodyPart> = Vec::new();
    let mut i: usize = 0;
    while i < lines.len()
        invariant
            i <= lines@.len(),
            lines_view(lines@) == unary_lines(*m, options.tracing),
            body@.map_values(|b: BodyPart| body_view(b)) =~= Seq::new(
                i as nat,
                |k: int| BodyView::Line(lines@[k]@),
            ),
        decreases lines.len() - i,
    {
        let l = lines[i].clone();
        let ghost before = body@.map_values(|b: BodyPart| body_view(b));
        let ghost lv = BodyView::Line(l@);
        body.push(BodyPart::Line(l));
        assert(body@.map_values(|b: BodyPart| body_view(b)) =~= before.push(lv));
        i = i + 1;
    }
    let mut name = "dispatch_".to_string();
    let n = to_snake_case(m.method_name.as_str());
    name.append(n.as_str());
    let mut args: Vec<(String, String)> = Vec::new();
    args.push(pair("payload", "&[u8]"));
    let f = FnDecl {
        name,
        vis: None,
        is_async: true,
        ref_self: true,
        args,
        ret: Some("::std::vec::Vec<u8>".to_string()),
        doc: None,
        body,
    };
    assert(fn_view(f).args =~= seq![("payload"@, "&[u8]"@)]);
    assert(fn_view(f).body =~= dispatch_fn(*m, options.tracing).body);
    f
}

fn impl_fn_decls(service: &ServiceDetail, options: &RustCodegenOptions) -> (v: Vec<FnDecl>)
    ensures
        fns_view(v@) == impl_fns(service.methods@, options.tracing),
{
    let mut v: Vec<FnDecl> = Vec::new();
    let mut new_args: Vec<(String, String)> = Vec::new();
    new_args.push(pair("handler", "H"));
    let mut new_body: Vec<BodyPart> = Vec::new();
    new_body.push(BodyPart::Line("Self { handler }".to_string()));
    let new_fn = FnDecl {
        name: "new".to_string(),
        vis: Some("pub".to_string()),
        is_async: false,
        ref_self: false,
        args: new_args,
        ret: Some("Self".to_string()),
        doc: None,
        body: new_body,
    };
    assert(fn_view(new_fn).args =~= seq![("handler"@, "H"@)]);
    assert(fn_view(new_fn).body =~= seq![BodyView::Line("Self { handler }"@)]);
    push_fn(&mut v, new_fn);
    let mut dispatch_args: Vec<(String, String)> = Vec::new();
    dispatch_args.push(pair("method_id", "u64"));
    dispatch_args.push(pair("payload", "&[u8]"));
    let arms = dispatch_match_lines(service);
    let mut dispatch_body: Vec<BodyPart> = Vec::new();
    dispatch_body.push(BodyPart::Block("match method_id".to_string(), arms));
    let dispatch = FnDecl {
        name: "dispatch".to_string(),
        vis: Some("pub".to_string()),
        is_async: true,
        ref_self: true,
        args: dispatch_args,
        ret: Some("::std::vec::Vec<u8>".to_string()),
        doc: None,
        body: dispatch_body,
    };
    assert(fn_view(dispatch).args =~= seq![("method_id"@, "u64"@), ("payload"@, "&[u8]"@)]);
    assert(fn_view(dispatch).body =~= seq![
        BodyView::Block("match method_id"@, dispatch_match(service.methods@)),
    ]);
    push_fn(&mut v, dispatch);
    let mut unknown_args: Vec<(String, String)> = Vec::new();
    unknown_args.push(pair("_method_id", "u64"));
    let mut unknown_body: Vec<BodyPart> = Vec::new();
    unknown_body.push(BodyPart::Line("// Return error response for unknown method".to_string()));
    unknown_body.push(BodyPart::Line("vec![1] // Error marker".to_string()));
    let unknown = FnDecl {
        name: "unknown_method_response".to_string(),
        vis: None,
        is_async: false,
        ref_self: false,
        args: unknown_args,
        ret: Some("::std::vec::Vec<u8>".to_string()),
        doc: None,
        body: unknown_body,
    };
    assert(fn_view(unknown).args =~= seq![("_method_id"@, "u64"@)]);
    assert(fn_view(unknown).body =~= seq![
        BodyView::Line("// Return error response for unknown method"@),
        BodyView::Line("vec![1] // Error marker"@),
    ]);
    push_fn(&mut v, unknown);
    let ghost head = fns_view(v@);
    let mut i: usize = 0;
    while i < service.methods.len()
        invariant
            i <= service.methods@.len(),
            head.len() == 3,
            fns_view(v@) == head + dispatch_fns(service.methods@.subrange(0, i as int), options.tracing),
        decreases service.methods.len() - i,
    {
        let ghost sub = service.methods@.subrange(0, i + 1);
        assert(sub.drop_last() == service.methods@.subrange(0, i as int));
        assert(sub.last() == service.methods@[i as int]);
        if !method_has_streaming(&service.methods[i]) {
            let f = dispatch_fn_decl(&service.methods[i], options);
            push_fn(&mut v, f);
            assert(head + dispatch_fns(sub, options.tracing) =~= (head + dispatch_fns(
                service.methods@.subrange(0, i as int),
                options.tracing,
            )).push(dispatch_fn(service.methods@[i as int], options.tracing)));
        }
        i = i + 1;
    }
    assert(service.methods@.subrange(0, service.methods@.len() as int) == service.methods@);
    v
}

/// The items of a service's module. `ids` holds the id literal of each
/// method, in order.
pub fn rust_service_items(service: &ServiceDetail, options: &RustCodegenOptions, ids: &Vec<String>) -> (v: Vec<
    ScopeItem,
>)
    requires
        ids@.len() == service.methods@.len(),
    ensures
        items_view(v@) == rust_items(
            service.name@,
            opt_text(service.doc),
            service.methods@,
            options.tracing,
            ids@.map_values(|s: String| s@),
        ),
        items_renderable(items_view(v@)),
{
    let ghost idv = ids@.map_values(|s: String| s@);
    let mut v: Vec<ScopeItem> = Vec::new();
    push_raw(&mut v, "// @generated by roam-codegen");
    push_raw(&mut v, "// DO NOT EDIT - regenerate with build.rs\n");
    let mod_name = to_snake_case(service.name.as_str());
    let mut m = "#[allow(clippy::all, unused)]\npub mod ".to_string();
    m.append(mod_name.as_str());
    m.append(" {");
    push_item(&mut v, ScopeItem::Raw(m));
    push_raw(&mut v, "    pub use ::roam::session::{Tx, Rx, StreamId, RoamError, CallResult, Never};");
    push_raw(&mut v, "    #[allow(unused_imports)]\n    use ::roam::__private::facet_postcard;");
    push_raw(&mut v, "    /// Method IDs for this service.\n    pub mod method_id {");
    let ghost head = items_view(v@);
    assert(head =~= header_items(service.name@) + seq![
        ItemView::Raw("    /// Method IDs for this service.\n    pub mod method_id {"@),
    ]);
    let mut i: usize = 0;
    while i < service.methods.len()
        invariant
            i <= service.methods@.len(),
            ids@.len() == service.methods@.len(),
            idv == ids@.map_values(|s: String| s@),
            items_view(v@) == head + method_id_raws(service.methods@.subrange(0, i as int), idv),
        decreases service.methods.len() - i,
    {
        let ghost sub = service.methods@.subrange(0, i + 1);
        assert(sub.drop_last() == service.methods@.subrange(0, i as int));
        assert(sub.last() == service.methods@[i as int]);
        let n = to_snake_case(service.methods[i].method_name.as_str());
        let c = to_uppercase(n.as_str());
        let mut line = "        pub const ".to_string();
        line.append(c.as_str());
        line.append(": u64 = ");
        line.append(ids[i].as_str());
        line.append(";");
        push_item(&mut v, ScopeItem::Raw(line));
        assert(head + method_id_raws(sub, idv) =~= (head + method_id_raws(
            service.methods@.subrange(0, i as int),
            idv,
        )).push(items_view(v@).last()));
        i = i + 1;
    }
    assert(service.methods@.subrange(0, service.methods@.len() as int) == service.methods@);
    push_raw(&mut v, "    }");
    let s = to_upper_camel_case(service.name.as_str());
    let mut fns: Vec<FnDecl> = Vec::new();
    let mut j: usize = 0;
    while j < service.methods.len()
        invariant
            j <= service.methods@.len(),
            fns_view(fns@) == trait_fns(service.methods@).subrange(0, j as int),
        decreases service.methods.len() - j,
    {
        let f = trait_fn_decl(&service.methods[j]);
        push_fn(&mut fns, f);
        assert(fns_view(fns@) =~= trait_fns(service.methods@).subrange(0, j + 1));
        j = j + 1;
    }
    assert(trait_fns(service.methods@).subrange(0, service.methods@.len() as int) =~= trait_fns(
        service.methods@,
    ));
    let mut bounds: Vec<(String, String)> = Vec::new();
    bounds.push(pair("Self", "Send + Sync"));
    let t = TraitDecl {
        name: s.clone(),
        vis: "pub".to_string(),
        bounds,
        doc: copy_doc(&service.doc),
        fns,
    };
    assert(pairs_view(t.bounds@) =~= seq![("Self"@, "Send + Sync"@)]);
    push_item(&mut v, ScopeItem::Trait(t));
    let mut st = "\n    /// Dispatcher for ".to_string();
    st.append(s.as_str());
    st.append(" service.\n    pub struct ");
    st.append(s.as_str());
    st.append("Dispatcher<H> {\n        handler: H,\n    }");
    push_item(&mut v, ScopeItem::Raw(st));
    let mut dispatcher = s.clone();
    dispatcher.append("Dispatcher");
    let mut bound = s.clone();
    bound.append(" + 'static");
    let mut generics: Vec<String> = Vec::new();
    generics.push("H".to_string());
    let mut target_generics: Vec<String> = Vec::new();
    target_generics.push("H".to_string());
    let mut impl_bounds: Vec<(String, String)> = Vec::new();
    impl_bounds.push(("H".to_string(), bound));
    let ghost bound_view = impl_bounds@[0].1@;
    let imp = ImplDecl {
        target: dispatcher.clone(),
        generics,
        target_generics,
        bounds: impl_bounds,
        fns: impl_fn_decls(service, options),
    };
    assert(lines_view(imp.generics@) =~= seq!["H"@]);
    assert(lines_view(imp.target_generics@) =~= seq!["H"@]);
    assert(pairs_view(imp.bounds@) =~= seq![("H"@, s@ + " + 'static"@)]);
    push_item(&mut v, ScopeItem::Impl(imp));
    let di = generate_service_dispatcher_impl(service, dispatcher.as_str(), s.as_str());
    push_item(&mut v, ScopeItem::Raw(di));
    push_raw(&mut v, "}");
    assert(items_view(v@) =~= rust_items(
        service.name@,
        opt_text(service.doc),
        service.methods@,
        options.tracing,
        idv,
    ));
    proof {
        let items = items_view(v@);
        let n = service.methods@.len();
        lemma_method_id_raws_raw(service.methods@, idv);
        assert(!(s@ + "Dispatcher"@).contains('<')) by {
            let t = s@ + "Dispatcher"@;
            if t.contains('<') {
                let k = choose|k: int| 0 <= k < t.len() && t[k] == '<';
                if k < s@.len() {
                    assert(s@[k] == '<');
                    assert(s@.contains('<'));
                } else {
                    assert(("Dispatcher"@)[k - s@.len()] == '<') by {
                        reveal_strlit("Dispatcher");
                    }
                    reveal_strlit("Dispatcher");
                }
            }
        }
        assert forall|k: int| 0 <= k < items.len() implies item_renderable(#[trigger] items[k]) by {
            if 6 <= k < 6 + n {
                assert(items[k] == method_id_raws(service.methods@, idv)[k - 6]);
            }
        }
    }
    v
}

/// Generates the Rust module of a service: the method id constants, the
/// service trait and its dispatcher. `ids` holds the id literal of each
/// method, in order.
pub fn generate_service_with_options(
    service: &ServiceDetail,
    options: &RustCodegenOptions,
    ids: &Vec<String>,
) -> (s: String)
    requires
        ids@.len() == service.methods@.len(),
    ensures
        s@ == scope_text(
            rust_items(
                service.name@,
                opt_text(service.doc),
                service.methods@,
                options.tracing,
                ids@.map_values(|s: String| s@),
            ),
        ),
{
    let items = rust_service_items(service, options, ids);
    render_scope(&items)
}

/// Generates the Rust module of a service with the default options (no
/// tracing).
pub fn generate_service(service: &ServiceDetail, ids: &Vec<String>) -> (s: String)
    requires
        ids@.len() == service.methods@.len(),
    ensures
        s@ == scope_text(
            rust_items(
                service.name@,
                opt_text(service.doc),
                service.methods@,
                false,
                ids@.map_values(|s: String| s@),
            ),
        ),
{
    generate_service_with_options(service, &RustCodegenOptions { tracing: false }, ids)
}

// ---------------------------------------------------------------------------
// Writing the items out
// ---------------------------------------------------------------------------

/// What `codegen::Scope::to_string` writes for a scope that received these
/// items in order.
pub uninterp spec fn scope_text(items: Seq<ItemView>) -> Seq<char>;

/// `codegen::Scope`: a scope that receives the items in order (raw text
/// with `raw`, traits with `push_trait`, impls with `push_impl`), written
/// out with `to_string`; what that writes is named by `scope_text`, a
/// function of the items alone. `codegen` panics on a trait function with
/// a visibility and on generics added to a target that already names some,
/// hence the requirement.
#[verifier::external_body]
fn render_scope(items: &Vec<ScopeItem>) -> (s: String)
    requires
        items_renderable(items_view(items@)),
    ensures
        s@ == scope_text(items_view(items@)),
{
    let mut scope = Scope::new();
    for item in items {
        match item {
            ScopeItem::Raw(r) => scope.raw(r),
            ScopeItem::Trait(t) => scope.push_trait(trait_of(t)),
            ScopeItem::Impl(i) => scope.push_impl(impl_of(i)),
        };
    }
    scope.to_string()
}

/// A `TraitDecl` as a `codegen::Trait`, field for field: the converting
/// part of `render_scope`.
#[verifier::external_body]
fn trait_of(t: &TraitDecl) -> Trait
    requires
        forall|k: int| 0 <= k < t.fns@.len() ==> (#[trigger] t.fns@[k]).vis is None,
{
    let mut out = Trait::new(&t.name);
    out.vis(&t.vis);
    for (name, bound) in &t.bounds {
        out.bound(name, bound);
    }
    if let Some(d) = &t.doc {
        out.doc(d);
    }
    for f in &t.fns {
        out.push_fn(fn_of(f));
    }
    out
}

/// An `ImplDecl` as a `codegen::Impl`, field for field: the converting
/// part of `render_scope`.
#[verifier::external_body]
fn impl_of(i: &ImplDecl) -> Impl
    requires
        i.target_generics@.len() > 0 ==> !i.target@.contains('<'),
{
    let mut out = Impl::new(&i.target);
    for g in &i.generics {
        out.generic(g);
    }
    for g in &i.target_generics {
        out.target_generic(g);
    }
    for (name, bound) in &i.bounds {
        out.bound(name, bound);
    }
    for f in &i.fns {
        out.push_fn(fn_of(f));
    }
    out
}

/// A `FnDecl` as a `codegen::Function`, field for field: the converting
/// part of `render_scope`.
#[verifier::external_body]
fn fn_of(f: &FnDecl) -> Function {
    let mut out = Function::new(&f.name);
    out.set_async(f.is_async);
    if let Some(v) = &f.vis { out.vis(v); }
    if f.ref_self { out.arg_ref_self(); }
    for (name, ty) in &f.args { out.arg(name, ty); }
    if let Some(r) = &f.ret { out.ret(r); }
    if let Some(d) = &f.doc { out.doc(d); }
    for part in &f.body { push_part(&mut out, part); }
    out
}

/// Appends a body part to a `codegen::Function`: a line with `line`, a
/// block (its header and lines) with `push_block`. The converting part of
/// `render_scope`.
#[verifier::external_body]
fn push_part(out: &mut Function, part: &BodyPart) {
    match part {
        BodyPart::Line(l) => { out.line(l); },
        BodyPart::Block(head, lines) => {
            let mut b = Block::new(head);
            for l in lines { b.line(l); }
            out.push_block(b);
        },
    }
}

} // verus!
