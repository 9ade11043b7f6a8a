//! The grammar of a service trait definition, as the `#[roam::service]`
//! attribute reads it.
//!
//! A definition is read from its token stream: attributes (doc comments
//! among them), an optional visibility, `trait`, the service name and a
//! braced body of `async fn` declarations. Each method has attributes, a
//! parenthesised parameter list (the `&self` receiver or `name: Type`
//! arguments, comma separated) and an optional return type after `->`,
//! where `Result<Ok, Err>` is told apart from any other type.
//!
//! Tokens are held flat: a delimited group is its opening marker, its
//! contents and its closing marker. Types are taken verbatim, up to the
//! next `,` (or `>` or `;`) at their own nesting level, where a balanced
//! `<...>` counts as one unit.
use vstd::prelude::*;

use proc_macro2::{Delimiter, Spacing, TokenStream, TokenTree};
use vstd::string::StringExecFns;

verus! {

#[verifier::external_type_specification]
#[verifier::external_body]
pub struct ExTokenStream(TokenStream);

#[verifier::external_type_specification]
#[verifier::external_body]
pub struct ExDelimiter(Delimiter);

/// The delimiters of a token group.
#[derive(Debug, Clone, Copy, PartialEq, Eq, Structural)]
pub enum Delim {
    Parenthesis,
    Brace,
    Bracket,
    /// An invisible group.
    Invisible,
}

/// One token of a flat token stream.
#[derive(Debug, Clone, PartialEq, Eq)]
pub enum Tok {
    /// An identifier or keyword, as written (`r#` included).
    Ident(String),
    /// A punctuation character, and whether it is joined to the next one.
    Punct(char, bool),
    /// A literal, as written (a string literal with its quotes).
    Lit(String),
    /// The start of a group.
    Open(Delim),
    /// The end of a group.
    Close(Delim),
}

/// Whether a token is the punctuation character `c`, joined or not.
pub open spec fn is_punct(t: Tok, c: char) -> bool {
    t matches Tok::Punct(ch, _) && ch == c
}

/// Whether a token is the identifier `kw`.
pub open spec fn is_kw(t: Tok, kw: Seq<char>) -> bool {
    t matches Tok::Ident(s) && s@ == kw
}

/// Whether `i` is a position of the range `[.., end)` of `ts`.
pub open spec fn in_range(ts: Seq<Tok>, i: int, end: int) -> bool {
    0 <= i < end && end <= ts.len()
}

pub open spec fn punct_at(ts: Seq<Tok>, i: int, end: int, c: char) -> bool {
    in_range(ts, i, end) && is_punct(ts[i], c)
}

pub open spec fn kw_at(ts: Seq<Tok>, i: int, end: int, kw: Seq<char>) -> bool {
    in_range(ts, i, end) && is_kw(ts[i], kw)
}

pub open spec fn ident_at(ts: Seq<Tok>, i: int, end: int) -> bool {
    in_range(ts, i, end) && ts[i] is Ident
}

/// The text of an identifier token.
pub open spec fn ident_text(t: Tok) -> Seq<char> {
    match t {
        Tok::Ident(s) => s@,
        _ => Seq::empty(),
    }
}

/// The position of the marker that closes the group opened before `k`,
/// `depth` groups deep; the length of `ts` when there is none.
pub open spec fn close_from(ts: Seq<Tok>, k: int, depth: nat) -> int
    decreases ts.len() - k,
{
    if k < 0 || k >= ts.len() {
        ts.len() as int
    } else {
        match ts[k] {
            Tok::Open(_) => close_from(ts, k + 1, depth + 1),
            Tok::Close(_) => if depth <= 1 {
                k
            } else {
                close_from(ts, k + 1, (depth - 1) as nat)
            },
            _ => close_from(ts, k + 1, depth),
        }
    }
}

/// The closing position of the group of delimiter `d` that opens at `i`,
/// when it closes before `end`.
pub open spec fn group_close(ts: Seq<Tok>, i: int, end: int, d: Delim) -> Option<int> {
    if in_range(ts, i, end) && ts[i] == Tok::Open(d) && close_from(ts, i + 1, 1) < end {
        Some(close_from(ts, i + 1, 1))
    } else {
        None
    }
}

/// The end of the token tree at `i` (a single token, or a whole group).
pub open spec fn tree_end(ts: Seq<Tok>, i: int, end: int) -> Option<int> {
    if in_range(ts, i, end) {
        match ts[i] {
            Tok::Open(_) => if close_from(ts, i + 1, 1) < end {
                Some(close_from(ts, i + 1, 1) + 1)
            } else {
                None
            },
            Tok::Close(_) => None,
            _ => Some(i + 1),
        }
    } else {
        None
    }
}

/// The end of the unit at `i` where a balanced `<...>` counts as one: a
/// `<`, the units up to the next `>` at this level, and that `>`; and any
/// other token tree (a `<` without its `>` among them) alone.
pub open spec fn angle_end(ts: Seq<Tok>, i: int, end: int) -> Option<int>
    decreases end - i, 0int,
{
    if in_range(ts, i, end) && is_punct(ts[i], '<') {
        let j = angle_body_end(ts, i + 1, end);
        if punct_at(ts, j, end, '>') {
            Some(j + 1)
        } else {
            tree_end(ts, i, end)
        }
    } else {
        tree_end(ts, i, end)
    }
}

/// Where the units inside a `<...>` stop: before a `>` at this level, or
/// where no unit can be read.
pub open spec fn angle_body_end(ts: Seq<Tok>, i: int, end: int) -> int
    decreases end - i, 1int,
{
    if in_range(ts, i, end) && !is_punct(ts[i], '>') {
        match angle_end(ts, i, end) {
            Some(k) => if i < k <= end {
                angle_body_end(ts, k, end)
            } else {
                i
            },
            None => i,
        }
    } else {
        i
    }
}

/// Where a verbatim run of units from `i` stops: before a `c` at this
/// level, or where no unit can be read.
pub open spec fn verbatim_end(ts: Seq<Tok>, i: int, end: int, c: char) -> int
    decreases end - i,
{
    if in_range(ts, i, end) && !is_punct(ts[i], c) {
        match angle_end(ts, i, end) {
            Some(k) => if i < k <= end {
                verbatim_end(ts, k, end, c)
            } else {
                i
            },
            None => i,
        }
    } else {
        i
    }
}

/// A verbatim run of at least one unit from `i`, up to a `c`.
pub open spec fn verbatim(ts: Seq<Tok>, i: int, end: int, c: char) -> Option<int> {
    if verbatim_end(ts, i, end, c) > i {
        Some(verbatim_end(ts, i, end, c))
    } else {
        None
    }
}

/// Where a run of token trees from `i` stops.
pub open spec fn trees_end(ts: Seq<Tok>, i: int, end: int) -> int
    decreases end - i,
{
    match tree_end(ts, i, end) {
        Some(k) => if i < k <= end {
            trees_end(ts, k, end)
        } else {
            i
        },
        None => i,
    }
}

/// An `Option<usize>` as an `Option<int>`.
pub open spec fn opt_pos(r: Option<usize>) -> Option<int> {
    match r {
        Some(k) => Some(k as int),
        None => None,
    }
}

/// The closing position lies at or after the start of the scan.
proof fn lemma_close_from_bounds(ts: Seq<Tok>, k: int, depth: nat)
    requires
        0 <= k <= ts.len(),
    ensures
        k <= close_from(ts, k, depth) <= ts.len(),
    decreases ts.len() - k,
{
    if k < ts.len() {
        match ts[k] {
            Tok::Open(_) => lemma_close_from_bounds(ts, k + 1, depth + 1),
            Tok::Close(_) => if depth > 1 {
                lemma_close_from_bounds(ts, k + 1, (depth - 1) as nat);
            },
            _ => lemma_close_from_bounds(ts, k + 1, depth),
        }
    }
}

/// A verbatim run stays inside its range.
proof fn lemma_verbatim_end_bounds(ts: Seq<Tok>, i: int, end: int, c: char)
    requires
        0 <= i <= end,
    ensures
        i <= verbatim_end(ts, i, end, c) <= end,
    decreases end - i,
{
    if in_range(ts, i, end) && !is_punct(ts[i], c) {
        match angle_end(ts, i, end) {
            Some(k) => if i < k <= end {
                lemma_verbatim_end_bounds(ts, k, end, c);
            },
            None => {},
        }
    }
}

fn is_punct_at(ts: &Vec<Tok>, i: usize, end: usize, c: char) -> (b: bool)
    requires
        end <= ts@.len(),
    ensures
        b == punct_at(ts@, i as int, end as int, c),
{
    if i < end {
        match &ts[i] {
            Tok::Punct(ch, _) => *ch == c,
            _ => false,
        }
    } else {
        false
    }
}

fn is_kw_at(ts: &Vec<Tok>, i: usize, end: usize, kw: &str) -> (b: bool)
    requires
        end <= ts@.len(),
    ensures
        b == kw_at(ts@, i as int, end as int, kw@),
{
    if i < end {
        match &ts[i] {
            Tok::Ident(s) => *s == kw.to_string(),
            _ => false,
        }
    } else {
        false
    }
}

fn is_ident_at(ts: &Vec<Tok>, i: usize, end: usize) -> (b: bool)
    requires
        end <= ts@.len(),
    ensures
        b == ident_at(ts@, i as int, end as int),
{
    i < end && matches!(ts[i], Tok::Ident(_))
}

/// The position of the marker that closes the group opened before `start`.
fn close_index(ts: &Vec<Tok>, start: usize) -> (c: usize)
    requires
        1 <= start,
    ensures
        c as int == close_from(ts@, start as int, 1),
{
    if start >= ts.len() {
        return ts.len();
    }
    let mut k = start;
    let mut depth: usize = 1;
    while k < ts.len()
        invariant
            1 <= start <= k <= ts@.len(),
            1 <= depth <= k - start + 1,
            close_from(ts@, k as int, depth as nat) == close_from(ts@, start as int, 1),
        decreases ts.len() - k,
    {
        match &ts[k] {
            Tok::Open(_) => {
                depth = depth + 1;
            },
            Tok::Close(_) => {
                if depth <= 1 {
                    return k;
                }
                depth = depth - 1;
            },
            _ => {},
        }
        k = k + 1;
    }
    k
}

fn group_close_at(ts: &Vec<Tok>, i: usize, end: usize, d: Delim) -> (r: Option<usize>)
    requires
        end <= ts@.len(),
    ensures
        opt_pos(r) == group_close(ts@, i as int, end as int, d),
        r matches Some(c) ==> i < c < end,
{
    if i < end {
        proof {
            lemma_close_from_bounds(ts@, i + 1, 1);
        }
    }
    if i < end {
        match &ts[i] {
            Tok::Open(o) => {
                if *o == d {
                    let c = close_index(ts, i + 1);
                    if c < end {
                        return Some(c);
                    }
                }
                None
            },
            _ => None,
        }
    } else {
        None
    }
}

fn tree_end_at(ts: &Vec<Tok>, i: usize, end: usize) -> (r: Option<usize>)
    requires
        end <= ts@.len(),
    ensures
        opt_pos(r) == tree_end(ts@, i as int, end as int),
{
    if i < end {
        match &ts[i] {
            Tok::Open(_) => {
                let c = close_index(ts, i + 1);
                if c < end {
                    Some(c + 1)
                } else {
                    None
                }
            },
            Tok::Close(_) => None,
            _ => Some(i + 1),
        }
    } else {
        None
    }
}

fn angle_end_at(ts: &Vec<Tok>, i: usize, end: usize) -> (r: Option<usize>)
    requires
        end <= ts@.len(),
    ensures
        opt_pos(r) == angle_end(ts@, i as int, end as int),
    decreases end - i, 0int,
{
    if i < end && is_punct_at(ts, i, end, '<') {
        let j = angle_body_end_at(ts, i + 1, end);
        if is_punct_at(ts, j, end, '>') {
            Some(j + 1)
        } else {
            tree_end_at(ts, i, end)
        }
    } else {
        tree_end_at(ts, i, end)
    }
}

fn angle_body_end_at(ts: &Vec<Tok>, i: usize, end: usize) -> (j: usize)
    requires
        end <= ts@.len(),
    ensures
        j as int == angle_body_end(ts@, i as int, end as int),
    decreases end - i, 1int,
{
    let mut k = i;
    loop
        invariant
            end <= ts@.len(),
            i <= k,
            angle_body_end(ts@, k as int, end as int) == angle_body_end(ts@, i as int, end as int),
        decreases end - k,
    {
        if k >= end || is_punct_at(ts, k, end, '>') {
            return k;
        }
        match angle_end_at(ts, k, end) {
            Some(n) => {
                if k < n && n <= end {
                    k = n;
                } else {
                    return k;
                }
            },
            None => {
                return k;
            },
        }
    }
}

fn verbatim_end_at(ts: &Vec<Tok>, i: usize, end: usize, c: char) -> (j: usize)
    requires
        end <= ts@.len(),
    ensures
        j as int == verbatim_end(ts@, i as int, end as int, c),
        i <= end ==> i <= j <= end,
{
    if i <= end {
        proof {
            lemma_verbatim_end_bounds(ts@, i as int, end as int, c);
        }
    }
    let mut k = i;
    loop
        invariant
            end <= ts@.len(),
            i <= k,
            verbatim_end(ts@, k as int, end as int, c) == verbatim_end(
                ts@,
                i as int,
                end as int,
                c,
            ),
            i <= end ==> i <= verbatim_end(ts@, i as int, end as int, c) <= end,
        decreases end - k,
    {
        if k >= end || is_punct_at(ts, k, end, c) {
            return k;
        }
        match angle_end_at(ts, k, end) {
            Some(n) => {
                if k < n && n <= end {
                    k = n;
                } else {
                    return k;
                }
            },
            None => {
                return k;
            },
        }
    }
}

fn trees_end_at(ts: &Vec<Tok>, i: usize, end: usize) -> (j: usize)
    requires
        end <= ts@.len(),
    ensures
        j as int == trees_end(ts@, i as int, end as int),
{
    let mut k = i;
    loop
        invariant
            end <= ts@.len(),
            i <= k,
            trees_end(ts@, k as int, end as int) == trees_end(ts@, i as int, end as int),
        decreases end - k,
    {
        match tree_end_at(ts, k, end) {
            Some(n) => {
                if k < n && n <= end {
                    k = n;
                } else {
                    return k;
                }
            },
            None => {
                return k;
            },
        }
    }
}

// ---------------------------------------------------------------------------
// What a definition is read into
// ---------------------------------------------------------------------------

/// An outer attribute `#[...]`.
#[derive(Debug)]
pub enum Attribute {
    /// `#[doc = "..."]`: the string literal as written, quotes included.
    Doc(String),
    /// Any other attribute: the tokens inside the brackets.
    Any(Vec<Tok>),
}

/// A visibility modifier.
#[derive(Debug)]
pub enum Vis {
    /// `pub(...)`: the parenthesised group, delimiters included.
    PubGroup(Vec<Tok>),
    /// A bare `pub`.
    Pub,
}

/// One parameter of a method.
#[derive(Debug)]
pub enum MethodParam {
    /// The receiver `&self`, or `&mut self`.
    SelfParam(bool),
    /// A named argument and the tokens of its type.
    Named(String, Vec<Tok>),
}

/// The return type of a method.
#[derive(Debug)]
pub enum ReturnTyKind {
    /// `Result<Ok, Err>`: the tokens of the two types.
    Result(Vec<Tok>, Vec<Tok>),
    /// Any other type.
    Plain(Vec<Tok>),
}

/// One `async fn` declaration of a service.
#[derive(Debug)]
pub struct ServiceMethod {
    pub attributes: Vec<Attribute>,
    pub name: String,
    pub params: Vec<MethodParam>,
    /// `None` when the method returns `()` implicitly.
    pub return_ty: Option<ReturnTyKind>,
}

/// A service trait definition.
#[derive(Debug)]
pub struct ServiceTrait {
    pub attributes: Vec<Attribute>,
    pub vis: Option<Vis>,
    pub name: String,
    pub methods: Vec<ServiceMethod>,
}

/// An attribute, over character and token sequences.
pub ghost enum AttrView {
    Doc(Seq<char>),
    Any(Seq<Tok>),
}

pub ghost enum VisView {
    PubGroup(Seq<Tok>),
    Pub,
}

pub ghost enum ParamView {
    SelfParam(bool),
    Named(Seq<char>, Seq<Tok>),
}

pub ghost enum ReturnView {
    Result(Seq<Tok>, Seq<Tok>),
    Plain(Seq<Tok>),
}

pub ghost struct MethodView {
    pub attrs: Seq<AttrView>,
    pub name: Seq<char>,
    pub params: Seq<ParamView>,
    pub ret: Option<ReturnView>,
}

pub ghost struct TraitView {
    pub attrs: Seq<AttrView>,
    pub vis: Option<VisView>,
    pub name: Seq<char>,
    pub methods: Seq<MethodView>,
}

pub open spec fn attr_view(a: Attribute) -> AttrView {
    match a {
        Attribute::Doc(s) => AttrView::Doc(s@),
        Attribute::Any(v) => AttrView::Any(v@),
    }
}

pub open spec fn attrs_view(v: Seq<Attribute>) -> Seq<AttrView> {
    v.map_values(|a: Attribute| attr_view(a))
}

pub open spec fn vis_view(v: Option<Vis>) -> Option<VisView> {
    match v {
        Some(Vis::PubGroup(g)) => Some(VisView::PubGroup(g@)),
        Some(Vis::Pub) => Some(VisView::Pub),
        None => None,
    }
}

pub open spec fn param_view(p: MethodParam) -> ParamView {
    match p {
        MethodParam::SelfParam(m) => ParamView::SelfParam(m),
        MethodParam::Named(n, t) => ParamView::Named(n@, t@),
    }
}

pub open spec fn params_view(v: Seq<MethodParam>) -> Seq<ParamView> {
    v.map_values(|p: MethodParam| param_view(p))
}

pub open spec fn return_view(r: ReturnTyKind) -> ReturnView {
    match r {
        ReturnTyKind::Result(o, e) => ReturnView::Result(o@, e@),
        ReturnTyKind::Plain(t) => ReturnView::Plain(t@),
    }
}

pub open spec fn method_view(m: ServiceMethod) -> MethodView {
    MethodView {
        attrs: attrs_view(m.attributes@),
        name: m.name@,
        params: params_view(m.params@),
        ret: match m.return_ty {
            Some(r) => Some(return_view(r)),
            None => None,
        },
    }
}

pub open spec fn methods_view(v: Seq<ServiceMethod>) -> Seq<MethodView> {
    v.map_values(|m: ServiceMethod| method_view(m))
}

pub open spec fn trait_view(t: ServiceTrait) -> TraitView {
    TraitView {
        attrs: attrs_view(t.attributes@),
        vis: vis_view(t.vis),
        name: t.name@,
        methods: methods_view(t.methods@),
    }
}

// ---------------------------------------------------------------------------
// The grammar
// ---------------------------------------------------------------------------

/// Whether a token is a string literal (`"..."`).
pub open spec fn is_string_lit(t: Tok) -> bool {
    t matches Tok::Lit(l) && l@.len() > 0 && l@[0] == '"'
}

pub open spec fn lit_text(t: Tok) -> Seq<char> {
    match t {
        Tok::Lit(l) => l@,
        _ => Seq::empty(),
    }
}

/// An attribute at `i`: `#` and a bracketed group holding either exactly
/// `doc = "..."`, or anything that does not start with `doc = "..."`.
pub open spec fn attribute(ts: Seq<Tok>, i: int, end: int) -> Option<(AttrView, int)> {
    if punct_at(ts, i, end, '#') {
        match group_close(ts, i + 1, end, Delim::Bracket) {
            Some(c) => {
                let s = i + 2;
                if kw_at(ts, s, c, "doc"@) && punct_at(ts, s + 1, c, '=') && in_range(ts, s + 2, c)
                    && is_string_lit(ts[s + 2]) {
                    if s + 3 == c {
                        Some((AttrView::Doc(lit_text(ts[s + 2])), c + 1))
                    } else {
                        None
                    }
                } else if trees_end(ts, s, c) == c {
                    Some((AttrView::Any(ts.subrange(s, c)), c + 1))
                } else {
                    None
                }
            },
            None => None,
        }
    } else {
        None
    }
}

/// The attributes from `i`, and where they stop.
pub open spec fn attrs(ts: Seq<Tok>, i: int, end: int) -> (Seq<AttrView>, int)
    decreases end - i,
{
    match attribute(ts, i, end) {
        Some((a, k)) => if i < k <= end {
            (seq![a] + attrs(ts, k, end).0, attrs(ts, k, end).1)
        } else {
            (Seq::empty(), i)
        },
        None => (Seq::empty(), i),
    }
}

/// An optional visibility at `i`: `pub` with a parenthesised group, or a
/// bare `pub`.
pub open spec fn vis(ts: Seq<Tok>, i: int, end: int) -> (Option<VisView>, int) {
    if kw_at(ts, i, end, "pub"@) {
        match group_close(ts, i + 1, end, Delim::Parenthesis) {
            Some(c) => (Some(VisView::PubGroup(ts.subrange(i + 1, c + 1))), c + 1),
            None => (Some(VisView::Pub), i + 1),
        }
    } else {
        (None, i)
    }
}

/// The receiver at `i`: `&`, an optional `mut`, and `self`.
pub open spec fn self_param(ts: Seq<Tok>, i: int, end: int) -> Option<(ParamView, int)> {
    if punct_at(ts, i, end, '&') {
        if kw_at(ts, i + 1, end, "mut"@) {
            if kw_at(ts, i + 2, end, "self"@) {
                Some((ParamView::SelfParam(true), i + 3))
            } else {
                None
            }
        } else if kw_at(ts, i + 1, end, "self"@) {
            Some((ParamView::SelfParam(false), i + 2))
        } else {
            None
        }
    } else {
        None
    }
}

/// A named argument at `i`: an identifier, `:`, and its type up to a `,`.
pub open spec fn named_param(ts: Seq<Tok>, i: int, end: int) -> Option<(ParamView, int)> {
    if ident_at(ts, i, end) && punct_at(ts, i + 1, end, ':') {
        match verbatim(ts, i + 2, end, ',') {
            Some(e) => Some((ParamView::Named(ident_text(ts[i]), ts.subrange(i + 2, e)), e)),
            None => None,
        }
    } else {
        None
    }
}

pub open spec fn param(ts: Seq<Tok>, i: int, end: int) -> Option<(ParamView, int)> {
    match self_param(ts, i, end) {
        Some(p) => Some(p),
        None => named_param(ts, i, end),
    }
}

/// The comma separated parameters from `i` (a trailing comma allowed), and
/// where they stop.
pub open spec fn params(ts: Seq<Tok>, i: int, end: int) -> (Seq<ParamView>, int)
    decreases end - i,
{
    match param(ts, i, end) {
        Some((p, k)) => if i < k <= end {
            if punct_at(ts, k, end, ',') {
                (seq![p] + params(ts, k + 1, end).0, params(ts, k + 1, end).1)
            } else {
                (seq![p], k)
            }
        } else {
            (Seq::empty(), i)
        },
        None => (Seq::empty(), i),
    }
}

/// `Result`, `<`, the ok type up to a `,`, `,`, the error type up to a
/// `>`, and `>`.
pub open spec fn result_ty(ts: Seq<Tok>, q: int, end: int) -> Option<(ReturnView, int)> {
    if kw_at(ts, q, end, "Result"@) && punct_at(ts, q + 1, end, '<') {
        match verbatim(ts, q + 2, end, ',') {
            Some(e1) => if punct_at(ts, e1, end, ',') {
                match verbatim(ts, e1 + 1, end, '>') {
                    Some(e2) => if punct_at(ts, e2, end, '>') {
                        Some(
                            (
                                ReturnView::Result(
                                    ts.subrange(q + 2, e1),
                                    ts.subrange(e1 + 1, e2),
                                ),
                                e2 + 1,
                            ),
                        )
                    } else {
                        None
                    },
                    None => None,
                }
            } else {
                None
            },
            None => None,
        }
    } else {
        None
    }
}

/// The return type after `->`: a `Result`, or else any type up to a `;`.
pub open spec fn return_kind(ts: Seq<Tok>, q: int, end: int) -> Option<(ReturnView, int)> {
    match result_ty(ts, q, end) {
        Some(r) => Some(r),
        None => match verbatim(ts, q, end, ';') {
            Some(e) => Some((ReturnView::Plain(ts.subrange(q, e)), e)),
            None => None,
        },
    }
}

/// `->` (a `-` joined to a `>`) and a return type.
pub open spec fn return_type(ts: Seq<Tok>, i: int, end: int) -> Option<(ReturnView, int)> {
    if in_range(ts, i, end) && (ts[i] matches Tok::Punct(c, joint) && c == '-' && joint)
        && punct_at(ts, i + 1, end, '>') {
        return_kind(ts, i + 2, end)
    } else {
        None
    }
}

/// One method declaration at `i`: attributes, `async`, `fn`, the name, the
/// parenthesised parameters (all of the group), an optional return type and
/// `;`.
pub open spec fn method(ts: Seq<Tok>, i: int, end: int) -> Option<(MethodView, int)> {
    let p = attrs(ts, i, end).1;
    if kw_at(ts, p, end, "async"@) && kw_at(ts, p + 1, end, "fn"@) && ident_at(ts, p + 2, end) {
        match group_close(ts, p + 3, end, Delim::Parenthesis) {
            Some(c) => if params(ts, p + 4, c).1 == c {
                let ret = match return_type(ts, c + 1, end) {
                    Some((r, _)) => Some(r),
                    None => None,
                };
                let q = match return_type(ts, c + 1, end) {
                    Some((_, q)) => q,
                    None => c + 1,
                };
                if punct_at(ts, q, end, ';') {
                    Some(
                        (
                            MethodView {
                                attrs: attrs(ts, i, end).0,
                                name: ident_text(ts[p + 2]),
                                params: params(ts, p + 4, c).0,
                                ret,
                            },
                            q + 1,
                        ),
                    )
                } else {
                    None
                }
            } else {
                None
            },
            None => None,
        }
    } else {
        None
    }
}

/// The method declarations from `i`, and where they stop.
pub open spec fn methods(ts: Seq<Tok>, i: int, end: int) -> (Seq<MethodView>, int)
    decreases end - i,
{
    match method(ts, i, end) {
        Some((m, k)) => if i < k <= end {
            (seq![m] + methods(ts, k, end).0, methods(ts, k, end).1)
        } else {
            (Seq::empty(), i)
        },
        None => (Seq::empty(), i),
    }
}

/// A service trait definition at the start of `ts`: attributes, an
/// optional visibility, `trait`, the name, and a braced body made of method
/// declarations only. Tokens after the body are left alone.
pub open spec fn service(ts: Seq<Tok>) -> Option<TraitView> {
    let end = ts.len() as int;
    let p1 = attrs(ts, 0, end).1;
    let p2 = vis(ts, p1, end).1;
    if kw_at(ts, p2, end, "trait"@) && ident_at(ts, p2 + 1, end) {
        match group_close(ts, p2 + 2, end, Delim::Brace) {
            Some(c) => if methods(ts, p2 + 3, c).1 == c {
                Some(
                    TraitView {
                        attrs: attrs(ts, 0, end).0,
                        vis: vis(ts, p1, end).0,
                        name: ident_text(ts[p2 + 1]),
                        methods: methods(ts, p2 + 3, c).0,
                    },
                )
            } else {
                None
            },
            None => None,
        }
    } else {
        None
    }
}

// ---------------------------------------------------------------------------
// Reading
// ---------------------------------------------------------------------------

fn copy_tok(t: &Tok) -> (r: Tok)
    ensures
        r == *t,
{
    match t {
        Tok::Ident(s) => Tok::Ident(s.clone()),
        Tok::Punct(c, j) => Tok::Punct(*c, *j),
        Tok::Lit(s) => Tok::Lit(s.clone()),
        Tok::Open(d) => Tok::Open(*d),
        Tok::Close(d) => Tok::Close(*d),
    }
}

/// The tokens of `ts` in `[a, b)`.
fn copy_range(ts: &Vec<Tok>, a: usize, b: usize) -> (r: Vec<Tok>)
    requires
        a <= b <= ts@.len(),
    ensures
        r@ == ts@.subrange(a as int, b as int),
{
    let mut r: Vec<Tok> = Vec::new();
    let mut k = a;
    while k < b
        invariant
            a <= k <= b <= ts@.len(),
            r@ == ts@.subrange(a as int, k as int),
        decreases b - k,
    {
        let t = copy_tok(&ts[k]);
        r.push(t);
        k = k + 1;
    }
    r
}

fn ident_string(t: &Tok) -> (s: String)
    ensures
        s@ == ident_text(*t),
{
    match t {
        Tok::Ident(s) => s.clone(),
        _ => String::new(),
    }
}

fn is_string_lit_tok(t: &Tok) -> (b: bool)
    ensures
        b == is_string_lit(*t),
{
    match t {
        Tok::Lit(l) => {
            let v = l.as_str();
            v.unicode_len() > 0 && v.get_char(0) == '"'
        },
        _ => false,
    }
}

fn attribute_at(ts: &Vec<Tok>, i: usize, end: usize) -> (r: Option<(Attribute, usize)>)
    requires
        end <= ts@.len(),
    ensures
        match r {
            Some((a, k)) => attribute(ts@, i as int, end as int) == Some(
                (attr_view(a), k as int),
            ),
            None => attribute(ts@, i as int, end as int) is None,
        },
{
    if !is_punct_at(ts, i, end, '#') {
        return None;
    }
    let c = match group_close_at(ts, i + 1, end, Delim::Bracket) {
        Some(c) => c,
        None => {
            return None;
        },
    };
    let s = i + 2;
    if is_kw_at(ts, s, c, "doc") && is_punct_at(ts, s + 1, c, '=') && s + 2 < c
        && is_string_lit_tok(&ts[s + 2]) {
        if s + 3 == c {
            match &ts[s + 2] {
                Tok::Lit(l) => Some((Attribute::Doc(l.clone()), c + 1)),
                _ => None,
            }
        } else {
            None
        }
    } else if trees_end_at(ts, s, c) == c {
        Some((Attribute::Any(copy_range(ts, s, c)), c + 1))
    } else {
        None
    }
}

/// The attributes from `i`, and where they stop.
fn attrs_at(ts: &Vec<Tok>, i: usize, end: usize) -> (r: (Vec<Attribute>, usize))
    requires
        end <= ts@.len(),
    ensures
        attrs(ts@, i as int, end as int) == (attrs_view(r.0@), r.1 as int),
{
    let mut out: Vec<Attribute> = Vec::new();
    let mut k = i;
    loop
        invariant
            end <= ts@.len(),
            i <= k,
            attrs(ts@, i as int, end as int).0 == attrs_view(out@) + attrs(
                ts@,
                k as int,
                end as int,
            ).0,
            attrs(ts@, i as int, end as int).1 == attrs(ts@, k as int, end as int).1,
        decreases end - k,
    {
        match attribute_at(ts, k, end) {
            Some((a, n)) => {
                if k < n && n <= end {
                    proof {
                        assert(attrs_view(out@.push(a)) =~= attrs_view(out@).push(attr_view(a)));
                        assert(attrs_view(out@) + (seq![attr_view(a)] + attrs(
                            ts@,
                            n as int,
                            end as int,
                        ).0) =~= attrs_view(out@).push(attr_view(a)) + attrs(
                            ts@,
                            n as int,
                            end as int,
                        ).0);
                    }
                    out.push(a);
                    k = n;
                } else {
                    assert(attrs_view(out@) + Seq::<AttrView>::empty() =~= attrs_view(out@));
                    return (out, k);
                }
            },
            None => {
                assert(attrs_view(out@) + Seq::<AttrView>::empty() =~= attrs_view(out@));
                return (out, k);
            },
        }
    }
}

fn vis_at(ts: &Vec<Tok>, i: usize, end: usize) -> (r: (Option<Vis>, usize))
    requires
        end <= ts@.len(),
    ensures
        vis(ts@, i as int, end as int) == (vis_view(r.0), r.1 as int),
{
    if is_kw_at(ts, i, end, "pub") {
        match group_close_at(ts, i + 1, end, Delim::Parenthesis) {
            Some(c) => (Some(Vis::PubGroup(copy_range(ts, i + 1, c + 1))), c + 1),
            None => (Some(Vis::Pub), i + 1),
        }
    } else {
        (None, i)
    }
}

fn param_at(ts: &Vec<Tok>, i: usize, end: usize) -> (r: Option<(MethodParam, usize)>)
    requires
        end <= ts@.len(),
    ensures
        match r {
            Some((p, k)) => param(ts@, i as int, end as int) == Some((param_view(p), k as int)),
            None => param(ts@, i as int, end as int) is None,
        },
{
    if is_punct_at(ts, i, end, '&') {
        if is_kw_at(ts, i + 1, end, "mut") {
            if is_kw_at(ts, i + 2, end, "self") {
                return Some((MethodParam::SelfParam(true), i + 3));
            }
        } else if is_kw_at(ts, i + 1, end, "self") {
            return Some((MethodParam::SelfParam(false), i + 2));
        }
    }
    if is_ident_at(ts, i, end) && is_punct_at(ts, i + 1, end, ':') {
        let e = verbatim_end_at(ts, i + 2, end, ',');
        if e > i + 2 {
            let name = ident_string(&ts[i]);
            return Some((MethodParam::Named(name, copy_range(ts, i + 2, e)), e));
        }
    }
    None
}

/// The comma separated parameters from `i`, and where they stop.
fn params_at(ts: &Vec<Tok>, i: usize, end: usize) -> (r: (Vec<MethodParam>, usize))
    requires
        end <= ts@.len(),
    ensures
        params(ts@, i as int, end as int) == (params_view(r.0@), r.1 as int),
{
    let mut out: Vec<MethodParam> = Vec::new();
    let mut k = i;
    loop
        invariant
            end <= ts@.len(),
            i <= k,
            params(ts@, i as int, end as int).0 == params_view(out@) + params(
                ts@,
                k as int,
                end as int,
            ).0,
            params(ts@, i as int, end as int).1 == params(ts@, k as int, end as int).1,
        decreases end - k,
    {
        match param_at(ts, k, end) {
            Some((p, n)) => {
                if k < n && n <= end {
                    let ghost pv = param_view(p);
                    assert(params_view(out@.push(p)) =~= params_view(out@).push(pv));
                    if is_punct_at(ts, n, end, ',') {
                        assert(params_view(out@) + (seq![pv] + params(
                            ts@,
                            n + 1,
                            end as int,
                        ).0) =~= params_view(out@).push(pv) + params(ts@, n + 1, end as int).0);
                        out.push(p);
                        k = n + 1;
                    } else {
                        assert(params_view(out@) + seq![pv] =~= params_view(out@).push(pv));
                        out.push(p);
                        return (out, n);
                    }
                } else {
                    assert(params_view(out@) + Seq::<ParamView>::empty() =~= params_view(out@));
                    return (out, k);
                }
            },
            None => {
                assert(params_view(out@) + Seq::<ParamView>::empty() =~= params_view(out@));
                return (out, k);
            },
        }
    }
}

fn result_ty_at(ts: &Vec<Tok>, q: usize, end: usize) -> (r: Option<(ReturnTyKind, usize)>)
    requires
        end <= ts@.len(),
    ensures
        match r {
            Some((t, k)) => result_ty(ts@, q as int, end as int) == Some(
                (return_view(t), k as int),
            ),
            None => result_ty(ts@, q as int, end as int) is None,
        },
{
    if !(is_kw_at(ts, q, end, "Result") && is_punct_at(ts, q + 1, end, '<')) {
        return None;
    }
    let e1 = verbatim_end_at(ts, q + 2, end, ',');
    if !(e1 > q + 2 && is_punct_at(ts, e1, end, ',')) {
        return None;
    }
    let e2 = verbatim_end_at(ts, e1 + 1, end, '>');
    if !(e2 > e1 + 1 && is_punct_at(ts, e2, end, '>')) {
        return None;
    }
    let ok = copy_range(ts, q + 2, e1);
    let err = copy_range(ts, e1 + 1, e2);
    Some((ReturnTyKind::Result(ok, err), e2 + 1))
}

fn return_type_at(ts: &Vec<Tok>, i: usize, end: usize) -> (r: Option<(ReturnTyKind, usize)>)
    requires
        end <= ts@.len(),
    ensures
        match r {
            Some((t, k)) => return_type(ts@, i as int, end as int) == Some(
                (return_view(t), k as int),
            ),
            None => return_type(ts@, i as int, end as int) is None,
        },
{
    let arrow = i < end && match &ts[i] {
        Tok::Punct(c, joint) => *c == '-' && *joint,
        _ => false,
    };
    if !(arrow && is_punct_at(ts, i + 1, end, '>')) {
        return None;
    }
    let q = i + 2;
    match result_ty_at(ts, q, end) {
        Some(r) => Some(r),
        None => {
            let e = verbatim_end_at(ts, q, end, ';');
            if e > q {
                Some((ReturnTyKind::Plain(copy_range(ts, q, e)), e))
            } else {
                None
            }
        },
    }
}

fn method_at(ts: &Vec<Tok>, i: usize, end: usize) -> (r: Option<(ServiceMethod, usize)>)
    requires
        end <= ts@.len(),
    ensures
        match r {
            Some((m, k)) => method(ts@, i as int, end as int) == Some((method_view(m), k as int)),
            None => method(ts@, i as int, end as int) is None,
        },
{
    let (attributes, p) = attrs_at(ts, i, end);
    if !(is_kw_at(ts, p, end, "async") && is_kw_at(ts, p + 1, end, "fn") && is_ident_at(
        ts,
        p + 2,
        end,
    )) {
        return None;
    }
    let c = match group_close_at(ts, p + 3, end, Delim::Parenthesis) {
        Some(c) => c,
        None => {
            return None;
        },
    };
    let (ps, pe) = params_at(ts, p + 4, c);
    if pe != c {
        return None;
    }
    let (ret, q) = match return_type_at(ts, c + 1, end) {
        Some((r, q)) => (Some(r), q),
        None => (None, c + 1),
    };
    if !is_punct_at(ts, q, end, ';') {
        return None;
    }
    let name = ident_string(&ts[p + 2]);
    Some((ServiceMethod { attributes, name, params: ps, return_ty: ret }, q + 1))
}

/// The method declarations from `i`, and where they stop.
fn methods_at(ts: &Vec<Tok>, i: usize, end: usize) -> (r: (Vec<ServiceMethod>, usize))
    requires
        end <= ts@.len(),
    ensures
        methods(ts@, i as int, end as int) == (methods_view(r.0@), r.1 as int),
{
    let mut out: Vec<ServiceMethod> = Vec::new();
    let mut k = i;
    loop
        invariant
            end <= ts@.len(),
            i <= k,
            methods(ts@, i as int, end as int).0 == methods_view(out@) + methods(
                ts@,
                k as int,
                end as int,
            ).0,
            methods(ts@, i as int, end as int).1 == methods(ts@, k as int, end as int).1,
        decreases end - k,
    {
        match method_at(ts, k, end) {
            Some((m, n)) => {
                if k < n && n <= end {
                    let ghost mv = method_view(m);
                    proof {
                        assert(methods_view(out@.push(m)) =~= methods_view(out@).push(mv));
                        assert(methods_view(out@) + (seq![mv] + methods(
                            ts@,
                            n as int,
                            end as int,
                        ).0) =~= methods_view(out@).push(mv) + methods(
                            ts@,
                            n as int,
                            end as int,
                        ).0);
                    }
                    out.push(m);
                    k = n;
                } else {
                    assert(methods_view(out@) + Seq::<MethodView>::empty() =~= methods_view(
                        out@,
                    ));
                    return (out, k);
                }
            },
            None => {
                assert(methods_view(out@) + Seq::<MethodView>::empty() =~= methods_view(out@));
                return (out, k);
            },
        }
    }
}

/// Reads a service trait definition from its tokens: `None` when they do
/// not start with one.
pub fn parse_tokens(ts: &Vec<Tok>) -> (r: Option<ServiceTrait>)
    ensures
        match r {
            Some(t) => service(ts@) == Some(trait_view(t)),
            None => service(ts@) is None,
        },
{
    let end = ts.len();
    let (attributes, p1) = attrs_at(ts, 0, end);
    let (vis, p2) = vis_at(ts, p1, end);
    if !(is_kw_at(ts, p2, end, "trait") && is_ident_at(ts, p2 + 1, end)) {
        return None;
    }
    let c = match group_close_at(ts, p2 + 2, end, Delim::Brace) {
        Some(c) => c,
        None => {
            return None;
        },
    };
    let (ms, me) = methods_at(ts, p2 + 3, c);
    if me != c {
        return None;
    }
    let name = ident_string(&ts[p2 + 1]);
    Some(ServiceTrait { attributes, vis, name, methods: ms })
}

// ---------------------------------------------------------------------------
// From text
// ---------------------------------------------------------------------------

/// Why a definition could not be read.
#[derive(Debug, Clone, Copy, PartialEq, Eq, Structural)]
pub enum ParseError {
    /// The text is not a sequence of Rust tokens.
    Lex,
    /// The tokens do not start with a service trait definition.
    Grammar,
}

/// The tokens that `proc_macro2`'s own (fallback) lexer reads from a text
/// (groups flattened into their markers), or `None` when it refuses the
/// text.
pub uninterp spec fn lexed(src: Seq<char>) -> Option<Seq<Tok>>;

/// `proc_macro2`'s `TokenStream::from_str`, with `proc_macro2`'s own lexer
/// (`fallback::force` is called first, so the compiler's lexer, which a
/// procedural macro would otherwise get, is never used): the tokens of
/// `src`, each token tree converted one for one (a group into its opening
/// marker, its contents and its closing marker). What it returns is named
/// by `lexed`, a function of the text alone.
#[verifier::external_body]
fn lex(src: &str) -> (r: Option<Vec<Tok>>)
    ensures
        match r {
            Some(v) => lexed(src@) == Some(v@),
            None => lexed(src@) is None,
        },
{
    proc_macro2::fallback::force();
    let ts: TokenStream = src.parse().ok()?;
    let mut out = Vec::new();
    push_trees(ts, &mut out);
    Some(out)
}

/// Appends the token trees of a `proc_macro2` stream to `out`, converted one
/// for one; a group becomes its markers around its own trees. The converting
/// half of `lex`.
#[verifier::external_body]
fn push_trees(ts: TokenStream, out: &mut Vec<Tok>) {
    for tt in ts {
        match tt {
            TokenTree::Ident(i) => out.push(Tok::Ident(i.to_string())),
            TokenTree::Literal(l) => out.push(Tok::Lit(l.to_string())),
            TokenTree::Punct(p) => out.push(
                Tok::Punct(p.as_char(), matches!(p.spacing(), Spacing::Joint)),
            ),
            TokenTree::Group(g) => {
                let d = delim_of(g.delimiter());
                out.push(Tok::Open(d));
                push_trees(g.stream(), out);
                out.push(Tok::Close(d));
            },
        }
    }
}

/// A `proc_macro2` delimiter as a `Delim`, variant for variant.
#[verifier::external_body]
fn delim_of(d: Delimiter) -> Delim {
    match d {
        Delimiter::Parenthesis => Delim::Parenthesis,
        Delimiter::Brace => Delim::Brace,
        Delimiter::Bracket => Delim::Bracket,
        Delimiter::None => Delim::Invisible,
    }
}

/// Parses a `#[roam::service]` trait definition from its source text.
pub fn parse_service(src: &str) -> (r: Result<ServiceTrait, ParseError>)
    ensures
        match lexed(src@) {
            None => r matches Err(e) && e == ParseError::Lex,
            Some(ts) => match service(ts) {
                Some(v) => r matches Ok(t) && trait_view(t) == v,
                None => r matches Err(e) && e == ParseError::Grammar,
            },
        },
{
    match lex(src) {
        None => Err(ParseError::Lex),
        Some(ts) => match parse_tokens(&ts) {
            Some(t) => Ok(t),
            None => Err(ParseError::Grammar),
        },
    }
}

// ---------------------------------------------------------------------------
// Helpers for the code generators
// ---------------------------------------------------------------------------

/// A string literal's text without its surrounding quotes.
pub open spec fn unquote(l: Seq<char>) -> Seq<char> {
    if l.len() >= 2 {
        l.subrange(1, l.len() - 1)
    } else {
        Seq::empty()
    }
}

/// The doc strings of a list of attributes, in order.
pub open spec fn docs(v: Seq<AttrView>) -> Seq<Seq<char>>
    decreases v.len(),
{
    if v.len() == 0 {
        Seq::empty()
    } else {
        match v.last() {
            AttrView::Doc(l) => docs(v.drop_last()).push(unquote(l)),
            AttrView::Any(_) => docs(v.drop_last()),
        }
    }
}

/// The doc strings of the `#[doc = "..."]` attributes, in order: each the
/// literal's text without its quotes (no leading space removed).
pub fn extract_doc(attributes: &Vec<Attribute>) -> (r: Vec<String>)
    ensures
        r@.map_values(|s: String| s@) == docs(attrs_view(attributes@)),
{
    let mut r: Vec<String> = Vec::new();
    let mut i: usize = 0;
    while i < attributes.len()
        invariant
            i <= attributes@.len(),
            r@.map_values(|s: String| s@) == docs(attrs_view(attributes@.subrange(0, i as int))),
        decreases attributes.len() - i,
    {
        let ghost sub = attributes@.subrange(0, i + 1);
        assert(sub.drop_last() == attributes@.subrange(0, i as int));
        assert(attrs_view(sub).drop_last() =~= attrs_view(sub.drop_last()));
        match &attributes[i] {
            Attribute::Doc(l) => {
                let v = l.as_str();
                let n = v.unicode_len();
                let text = if n >= 2 {
                    String::from_str(v.substring_char(1, n - 1))
                } else {
                    String::new()
                };
                assert(r@.push(text).map_values(|s: String| s@) =~= r@.map_values(
                    |s: String| s@,
                ).push(text@));
                r.push(text);
            },
            Attribute::Any(_) => {},
        }
        i = i + 1;
    }
    assert(attributes@.subrange(0, attributes@.len() as int) == attributes@);
    r
}

/// What stands between the token before `k` and the token at `k` when a
/// stream is written out: a space, except after an opening marker or a
/// joined punctuation character, and before a closing marker.
pub open spec fn gap(ts: Seq<Tok>, k: int) -> Seq<char> {
    if k > 0 && !(ts[k - 1] is Open) && !(ts[k] is Close) && !(ts[k - 1] matches Tok::Punct(
        _,
        joint,
    ) && joint) {
        " "@
    } else {
        Seq::empty()
    }
}

/// How a token is written: a brace group as `{ ... }` (`{ }` when empty),
/// the other groups without inner padding.
pub open spec fn token_text(ts: Seq<Tok>, k: int) -> Seq<char> {
    match ts[k] {
        Tok::Ident(s) => s@,
        Tok::Punct(c, _) => seq![c],
        Tok::Lit(s) => s@,
        Tok::Open(Delim::Parenthesis) => "("@,
        Tok::Open(Delim::Brace) => "{ "@,
        Tok::Open(Delim::Bracket) => "["@,
        Tok::Open(Delim::Invisible) => Seq::empty(),
        Tok::Close(Delim::Parenthesis) => ")"@,
        Tok::Close(Delim::Brace) => if k > 0 && ts[k - 1] is Open {
            "}"@
        } else {
            " }"@
        },
        Tok::Close(Delim::Bracket) => "]"@,
        Tok::Close(Delim::Invisible) => Seq::empty(),
    }
}

/// A token stream written out as `proc_macro2` displays it.
pub open spec fn rendered(ts: Seq<Tok>) -> Seq<char>
    decreases ts.len(),
{
    if ts.len() == 0 {
        Seq::empty()
    } else {
        rendered(ts.drop_last()) + gap(ts, ts.len() - 1) + token_text(ts, ts.len() - 1)
    }
}

/// The text of a verbatim type.
pub fn verbatim_to_ts(v: &Vec<Tok>) -> (s: String)
    ensures
        s@ == rendered(v@),
{
    let mut s = String::new();
    let mut k: usize = 0;
    while k < v.len()
        invariant
            k <= v@.len(),
            s@ == rendered(v@.subrange(0, k as int)),
        decreases v.len() - k,
    {
        let ghost sub = v@.subrange(0, k + 1);
        assert(sub.drop_last() == v@.subrange(0, k as int));
        assert(gap(sub, k as int) == gap(v@, k as int));
        assert(token_text(sub, k as int) == token_text(v@, k as int));
        let prev_open = k > 0 && matches!(v[k - 1], Tok::Open(_));
        let prev_joint = k > 0 && match &v[k - 1] {
            Tok::Punct(_, j) => *j,
            _ => false,
        };
        let closing = matches!(v[k], Tok::Close(_));
        if k > 0 && !prev_open && !closing && !prev_joint {
            s.append(" ");
        }
        match &v[k] {
            Tok::Ident(t) => s.append(t.as_str()),
            Tok::Punct(c, _) => crate::text::push_char(&mut s, *c),
            Tok::Lit(t) => s.append(t.as_str()),
            Tok::Open(Delim::Parenthesis) => s.append("("),
            Tok::Open(Delim::Brace) => s.append("{ "),
            Tok::Open(Delim::Bracket) => s.append("["),
            Tok::Open(Delim::Invisible) => {},
            Tok::Close(Delim::Parenthesis) => s.append(")"),
            Tok::Close(Delim::Brace) => {
                if prev_open {
                    s.append("}");
                } else {
                    s.append(" }");
                }
            },
            Tok::Close(Delim::Bracket) => s.append("]"),
            Tok::Close(Delim::Invisible) => {},
        }
        k = k + 1;
    }
    assert(v@.subrange(0, v@.len() as int) == v@);
    s
}

/// The text of a visibility: empty, `pub`, or `pub` and its group.
pub open spec fn vis_text(v: Option<VisView>) -> Seq<char> {
    match v {
        None => Seq::empty(),
        Some(VisView::Pub) => "pub"@,
        Some(VisView::PubGroup(g)) => "pub "@ + rendered(g),
    }
}

/// The visibility modifier as text.
pub fn vis_to_ts(vis: &Option<Vis>) -> (s: String)
    ensures
        s@ == vis_text(vis_view(*vis)),
{
    match vis {
        None => String::new(),
        Some(Vis::Pub) => "pub".to_string(),
        Some(Vis::PubGroup(g)) => {
            let mut s = "pub ".to_string();
            let t = verbatim_to_ts(g);
            s.append(t.as_str());
            s
        },
    }
}

} // verus!
