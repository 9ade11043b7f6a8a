//! Middleware that runs before a request reaches its dispatcher.
//!
//! A middleware sees the request context (metadata, extensions) and either
//! lets the request through or rejects it. Layers run in the order in which
//! they were added, and the first rejection ends the run.
use vstd::prelude::*;

use crate::dispatch::Context;
use crate::envelope::{encode, ResponseMessage, ResponseView};
use vstd::utf8::encode_utf8;

verus! {

/// Standard rejection codes.
#[derive(Debug, Clone, Copy, PartialEq, Eq, Structural)]
#[non_exhaustive]
pub enum RejectionCode {
    /// Request lacks required authentication.
    Unauthenticated,
    /// Caller is authenticated but not authorized for this operation.
    PermissionDenied,
    /// Rate limit exceeded.
    RateLimited,
    /// Request is invalid (bad metadata, etc.).
    InvalidRequest,
    /// Internal middleware error.
    Internal,
}

/// Reason for rejecting a request.
#[derive(Debug, Clone)]
pub struct Rejection {
    /// Error code for programmatic handling.
    pub code: RejectionCode,
    /// Human-readable message.
    pub message: String,
}

impl Rejection {
    /// Create an "unauthenticated" rejection.
    pub fn unauthenticated(message: &str) -> (r: Rejection)
        ensures
            r.code == RejectionCode::Unauthenticated,
            r.message@ == message@,
    {
        Rejection { code: RejectionCode::Unauthenticated, message: message.to_string() }
    }

    /// Create a "permission denied" rejection.
    pub fn permission_denied(message: &str) -> (r: Rejection)
        ensures
            r.code == RejectionCode::PermissionDenied,
            r.message@ == message@,
    {
        Rejection { code: RejectionCode::PermissionDenied, message: message.to_string() }
    }

    /// Create a "rate limited" rejection.
    pub fn rate_limited(message: &str) -> (r: Rejection)
        ensures
            r.code == RejectionCode::RateLimited,
            r.message@ == message@,
    {
        Rejection { code: RejectionCode::RateLimited, message: message.to_string() }
    }

    /// Create an "invalid request" rejection.
    pub fn invalid_request(message: &str) -> (r: Rejection)
        ensures
            r.code == RejectionCode::InvalidRequest,
            r.message@ == message@,
    {
        Rejection { code: RejectionCode::InvalidRequest, message: message.to_string() }
    }

    /// Create an "internal" rejection.
    pub fn internal(message: &str) -> (r: Rejection)
        ensures
            r.code == RejectionCode::Internal,
            r.message@ == message@,
    {
        Rejection { code: RejectionCode::Internal, message: message.to_string() }
    }
}

/// Middleware that can intercept requests before dispatch.
///
/// Return `Ok(())` to continue to the dispatcher, `Err(rejection)` to
/// reject the request. The middleware may add values to the context's
/// extensions for the handler.
pub trait Middleware {
    /// Intercept a request before dispatch.
    fn intercept(&self, ctx: &mut Context) -> Result<(), Rejection>;
}

/// Middleware that does nothing (passes all requests through).
#[derive(Debug, Clone, Copy, Default)]
pub struct NoopMiddleware;

impl NoopMiddleware {
    /// Lets every request through and leaves the context as it was.
    pub fn pass(&self, ctx: &mut Context) -> (r: Result<(), Rejection>)
        ensures
            r is Ok,
            *final(ctx) == *old(ctx),
    {
        Ok(())
    }
}

impl Middleware for NoopMiddleware {
    fn intercept(&self, ctx: &mut Context) -> (r: Result<(), Rejection>)
        ensures
            r is Ok,
            *final(ctx) == *old(ctx),
    {
        self.pass(ctx)
    }
}

/// Compose several middleware into one: layers run in the order added.
pub struct MiddlewareStack<M> {
    layers: Vec<M>,
}

impl<M> MiddlewareStack<M> {
    /// Create a new empty middleware stack.
    pub fn new() -> (s: Self)
        ensures
            s.layers() == Seq::<M>::empty(),
    {
        MiddlewareStack { layers: Vec::new() }
    }

    /// Add middleware to the stack; it runs after every layer added before it.
    pub fn with(self, middleware: M) -> (s: Self)
        ensures
            s.layers() == self.layers().push(middleware),
    {
        let mut layers = self.layers;
        layers.push(middleware);
        MiddlewareStack { layers }
    }

    /// The layers, in the order they run.
    pub closed spec fn layers(&self) -> Seq<M> {
        self.layers@
    }

    /// The number of layers, as the spec sees it.
    pub open spec fn len(&self) -> nat {
        self.layers().len()
    }

    /// The number of layers.
    pub fn layer_count(&self) -> (n: usize)
        ensures
            n == self.len(),
    {
        self.layers.len()
    }
}

impl<M: Middleware> MiddlewareStack<M> {
    /// Runs every layer in order and stops at the first rejection, which is
    /// returned; `Ok(())` when every layer let the request through.
    pub fn run(&self, ctx: &mut Context) -> (r: Result<(), Rejection>)
        ensures
            self.len() == 0 ==> r is Ok && *final(ctx) == *old(ctx),
            // Passing: every layer ran in order, each on the context the one
            // before it left, and let the request through.
            r is Ok ==> exists|st: Seq<Context>|
                st.len() == self.len() + 1 && st[0] == *old(ctx) && st.last() == *final(ctx)
                && forall|k: int| 0 <= k < self.len() ==> exists|c: &mut Context|
                    *c == #[trigger] st[k] && *final(c) == st[k + 1]
                    && call_ensures(M::intercept, (&self.layers()[k], c), Ok(())),
            // Rejected: the layers before layer `j` let the request through,
            // and layer `j` rejected it with the rejection returned.
            r is Err ==> exists|j: int, st: Seq<Context>| #![trigger st[j]]
                0 <= j < self.len() && st.len() == j + 2 && st[0] == *old(ctx)
                && st.last() == *final(ctx)
                && (forall|k: int| 0 <= k < j ==> exists|c: &mut Context|
                    *c == #[trigger] st[k] && *final(c) == st[k + 1]
                    && call_ensures(M::intercept, (&self.layers()[k], c), Ok(())))
                && exists|c: &mut Context| *c == st[j] && *final(c) == st[j + 1]
                    && call_ensures(M::intercept, (&self.layers()[j], c), r),
    {
        let ghost st: Seq<Context> = seq![*ctx];
        let mut i: usize = 0;
        while i < self.layers.len()
            invariant
                i <= self.len(),
                self.layers@ == self.layers(),
                st.len() == i + 1,
                st[0] == *old(ctx),
                st.last() == *ctx,
                forall|k: int| 0 <= k < i ==> exists|c: &mut Context|
                    *c == #[trigger] st[k] && *final(c) == st[k + 1]
                    && call_ensures(M::intercept, (&self.layers()[k], c), Ok(())),
            decreases self.layers.len() - i,
        {
            let ghost before = *ctx;
            let res = self.layers[i].intercept(ctx);
            let ghost layer = self.layers()[i as int];
            assert(exists|c: &mut Context| #![trigger call_ensures(M::intercept, (&layer, c), res)]
                *c == before && *final(c) == *ctx && call_ensures(M::intercept, (&layer, c), res));
            match res {
                Ok(()) => {
                    proof {
                        let cw = choose|c: &mut Context| #![trigger call_ensures(M::intercept, (&layer, c), res)]
                            *c == before && *final(c) == *ctx && call_ensures(M::intercept, (&layer, c), res);
                        assert(res->Ok_0 == ());
                        assert(call_ensures(M::intercept, (&layer, cw), Ok(())));
                        let st2 = st.push(*ctx);
                        assert forall|k: int| 0 <= k < i + 1 implies exists|c: &mut Context|
                            *c == #[trigger] st2[k] && *final(c) == st2[k + 1]
                            && call_ensures(M::intercept, (&self.layers()[k], c), Ok(())) by {
                            if k < i {
                                assert(st2[k] == st[k] && st2[k + 1] == st[k + 1]);
                            } else {
                                assert(*cw == st2[k] && *final(cw) == st2[k + 1]);
                            }
                        }
                        st = st2;
                    }
                },
                Err(rejection) => {
                    proof {
                        let st2 = st.push(*ctx);
                        assert forall|k: int| 0 <= k < i implies exists|c: &mut Context|
                            *c == #[trigger] st2[k] && *final(c) == st2[k + 1]
                            && call_ensures(M::intercept, (&self.layers()[k], c), Ok(())) by {
                            assert(st2[k] == st[k] && st2[k + 1] == st[k + 1]);
                        }
                        assert(st2[i as int] == before && st2[i + 1] == *ctx);
                        st = st2;
                    }
                    return Err(rejection);
                },
            }
            i = i + 1;
        }
        Ok(())
    }
}

impl<M: Middleware> Middleware for MiddlewareStack<M> {
    fn intercept(&self, ctx: &mut Context) -> (r: Result<(), Rejection>)
        ensures
            self.len() == 0 ==> r is Ok && *final(ctx) == *old(ctx),
            // Passing: every layer ran in order, each on the context the one
            // before it left, and let the request through.
            r is Ok ==> exists|st: Seq<Context>|
                st.len() == self.len() + 1 && st[0] == *old(ctx) && st.last() == *final(ctx)
                && forall|k: int| 0 <= k < self.len() ==> exists|c: &mut Context|
                    *c == #[trigger] st[k] && *final(c) == st[k + 1]
                    && call_ensures(M::intercept, (&self.layers()[k], c), Ok(())),
            // Rejected: the layers before layer `j` let the request through,
            // and layer `j` rejected it with the rejection returned.
            r is Err ==> exists|j: int, st: Seq<Context>| #![trigger st[j]]
                0 <= j < self.len() && st.len() == j + 2 && st[0] == *old(ctx)
                && st.last() == *final(ctx)
                && (forall|k: int| 0 <= k < j ==> exists|c: &mut Context|
                    *c == #[trigger] st[k] && *final(c) == st[k + 1]
                    && call_ensures(M::intercept, (&self.layers()[k], c), Ok(())))
                && exists|c: &mut Context| *c == st[j] && *final(c) == st[j + 1]
                    && call_ensures(M::intercept, (&self.layers()[j], c), r),
    {
        self.run(ctx)
    }
}

/// The tag of a rejection code on the wire, in the order of the variants.
pub open spec fn code_tag(c: RejectionCode) -> u8 {
    match c {
        RejectionCode::Unauthenticated => 0u8,
        RejectionCode::PermissionDenied => 1u8,
        RejectionCode::RateLimited => 2u8,
        RejectionCode::InvalidRequest => 3u8,
        RejectionCode::Internal => 4u8,
    }
}

/// The postcard varint of `n`: seven bits per byte, least significant
/// first, the high bit set on every byte but the last.
pub open spec fn varint(n: nat) -> Seq<u8>
    decreases n,
{
    if n < 128 {
        seq![n as u8]
    } else {
        seq![(n % 128 + 128) as u8] + varint(n / 128)
    }
}

/// The encoded rejection: its code's tag, then its message as a postcard
/// string (the varint byte length and the UTF-8 bytes).
pub open spec fn rejection_body(code: RejectionCode, message: Seq<char>) -> Seq<u8> {
    seq![code_tag(code)] + varint(encode_utf8(message).len()) + encode_utf8(message)
}

/// Appends the varint of `n` to `out`.
fn push_varint(out: &mut Vec<u8>, n: usize)
    ensures
        final(out)@ == old(out)@ + varint(n as nat),
{
    let mut rest: usize = n;
    while rest >= 128
        invariant
            out@ + varint(rest as nat) == old(out)@ + varint(n as nat),
        decreases rest,
    {
        let ghost before = out@;
        out.push((rest % 128 + 128) as u8);
        assert(varint(rest as nat) == seq![(rest % 128 + 128) as u8] + varint((rest / 128) as nat));
        assert(before + varint(rest as nat) == out@ + varint((rest / 128) as nat));
        rest = rest / 128;
    }
    assert(varint(rest as nat) == seq![rest as u8]);
    out.push(rest as u8);
}

/// The encoded `Err(RoamError::Rejected(rejection))` of a rejection.
pub fn rejection_payload(rejection: &Rejection) -> (p: Vec<u8>)
    ensures
        p@ == encode(ResponseView::Rejected(rejection_body(rejection.code, rejection.message@))),
{
    let tag: u8 = match rejection.code {
        RejectionCode::Unauthenticated => 0u8,
        RejectionCode::PermissionDenied => 1u8,
        RejectionCode::RateLimited => 2u8,
        RejectionCode::InvalidRequest => 3u8,
        RejectionCode::Internal => 4u8,
    };
    let mut p = vec![1u8, 4u8, tag];
    let bytes = rejection.message.as_str().as_bytes();
    push_varint(&mut p, bytes.len());
    let ghost head = p@;
    let mut i: usize = 0;
    while i < bytes.len()
        invariant
            i <= bytes@.len(),
            p@ == head + bytes@.subrange(0, i as int),
        decreases bytes.len() - i,
    {
        p.push(bytes[i]);
        assert(bytes@.subrange(0, i + 1) == bytes@.subrange(0, i as int).push(bytes@[i as int]));
        i = i + 1;
    }
    assert(bytes@.subrange(0, bytes@.len() as int) == bytes@);
    assert(p@ =~= encode(ResponseView::Rejected(rejection_body(rejection.code, rejection.message@))));
    p
}

/// The response sent when middleware rejects a request: the rejection, its
/// code and message, encoded as `Err(RoamError::Rejected(..))` (tag `4`, an
/// extension of the four-variant wire format: see `envelope`), carrying no
/// channels.
pub fn rejection_response(conn_id: u64, request_id: u64, rejection: &Rejection) -> (m:
    ResponseMessage)
    ensures
        m.conn_id == conn_id,
        m.request_id == request_id,
        m.channels@ == Seq::<u64>::empty(),
        m.payload@ == encode(ResponseView::Rejected(rejection_body(rejection.code, rejection.message@))),
{
    ResponseMessage {
        conn_id,
        request_id,
        channels: Vec::new(),
        payload: rejection_payload(rejection),
    }
}

} // verus!
