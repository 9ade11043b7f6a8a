//! The request context seen by middleware and handlers, and the dispatch
//! runtime that prepares a request before its handler runs.
//!
//! Preparing a request decodes its arguments and then runs the middleware in
//! order; a decoding failure or the first rejection stops the preparation.
use std::any::{Any, TypeId};
use std::collections::HashMap;
use vstd::prelude::*;

verus! {

/// The values of an extension store, one per type: a map from each value's
/// `TypeId` to the boxed value. Verus cannot hold type-erased values (`dyn
/// Any`), so the map is hidden from it; the trusted functions below are the
/// only ones that touch it. (Verus takes no `dyn` type with more than one
/// trait, so the boxes are `dyn Any` without `Send + Sync`, and the store
/// does not cross threads.)
#[verifier::external_body]
#[derive(Debug, Default)]
pub struct ExtensionMap {
    map: HashMap<TypeId, Box<dyn Any>>,
}

/// How many values an extension map holds (one per type at most).
pub uninterp spec fn extension_count(m: ExtensionMap) -> nat;

/// `HashMap::new`: a map holding nothing.
#[verifier::external_body]
fn map_new() -> (m: ExtensionMap)
    ensures
        extension_count(m) == 0,
{
    ExtensionMap { map: HashMap::new() }
}

/// `HashMap::insert` under the `TypeId` of `T`, the value boxed: the value
/// replaces the one of the same type, if there was one, so the count grows
/// by one at most, and the map holds at least this value.
#[verifier::external_body]
fn map_insert<T: Send + Sync + 'static>(m: &mut ExtensionMap, val: T)
    ensures
        extension_count(*old(m)) <= extension_count(*final(m)) <= extension_count(*old(m)) + 1,
        extension_count(*final(m)) >= 1,
{
    m.map.insert(TypeId::of::<T>(), Box::new(val));
}

/// `HashMap::get` under the `TypeId` of `T`, the value downcast back to
/// `T`: the value last inserted with type `T`, if any. (Which value that is
/// is not stated: Verus has no name for a type's `TypeId`.) An empty map
/// finds nothing.
#[verifier::external_body]
fn map_get<T: Send + Sync + 'static>(m: &ExtensionMap) -> (r: Option<&T>)
    ensures
        extension_count(*m) == 0 ==> r is None,
{
    m.map.get(&TypeId::of::<T>()).and_then(|b| b.downcast_ref::<T>())
}

/// Type-safe extension storage (the pattern of the `http` crate): at most
/// one value per type, which middleware store for handlers.
#[derive(Debug, Default)]
pub struct Extensions {
    map: ExtensionMap,
}

impl Extensions {
    /// How many values the store holds.
    pub closed spec fn len(&self) -> nat {
        extension_count(self.map)
    }

    /// An empty store.
    pub fn new() -> (e: Extensions)
        ensures
            e.len() == 0,
    {
        Extensions { map: map_new() }
    }

    /// Stores `val` as the value of its type, replacing the previous value of
    /// that type.
    pub fn insert<T: Send + Sync + 'static>(&mut self, val: T)
        ensures
            old(self).len() <= final(self).len() <= old(self).len() + 1,
            final(self).len() >= 1,
    {
        map_insert(&mut self.map, val);
    }

    /// The value of type `T` last stored, or `None` when no value of that
    /// type was stored; nothing is found in an empty store.
    pub fn get<T: Send + Sync + 'static>(&self) -> (r: Option<&T>)
        ensures
            self.len() == 0 ==> r is None,
    {
        map_get(&self.map)
    }
}

/// Request context: what middleware and handlers see.
#[derive(Debug)]
pub struct Context {
    pub conn_id: u64,
    pub request_id: u64,
    pub method_id: u64,
    pub metadata: Vec<(String, String)>,
    pub extensions: Extensions,
}

/// Reason for rejecting a request.
#[derive(Debug)]
pub struct Rejection {
    pub message: String,
}

/// Why a request could not be prepared for its handler.
#[derive(Debug)]
pub enum DispatchError {
    /// The arguments could not be decoded; the decoder's message.
    Deserialize(String),
    /// A middleware rejected the request.
    Rejected(Rejection),
}

/// Middleware that can inspect a request before its handler runs.
pub trait Middleware {
    /// Return `Ok(())` to continue, `Err(rejection)` to reject.
    fn intercept(&self, ctx: &mut Context) -> Result<(), Rejection>;
}

/// The runtime that prepares requests for dispatch.
pub struct DispatchRuntime<M> {
    middleware: Vec<M>,
}

impl<M> DispatchRuntime<M> {
    /// A runtime without middleware.
    pub fn new() -> (r: Self)
        ensures
            r.middleware() == Seq::<M>::empty(),
    {
        DispatchRuntime { middleware: Vec::new() }
    }

    /// Adds a middleware; it runs after those added before it.
    pub fn with_middleware(self, m: M) -> (r: Self)
        ensures
            r.middleware() == self.middleware().push(m),
    {
        let mut middleware = self.middleware;
        middleware.push(m);
        DispatchRuntime { middleware }
    }

    /// The middleware, in the order they run.
    pub closed spec fn middleware(&self) -> Seq<M> {
        self.middleware@
    }

    /// The number of middleware, as the spec sees it.
    pub open spec fn middleware_len(&self) -> nat {
        self.middleware().len()
    }

    /// The number of middleware.
    pub fn middleware_count(&self) -> (n: usize)
        ensures
            n == self.middleware_len(),
    {
        self.middleware.len()
    }
}

impl<M: Middleware> DispatchRuntime<M> {
    /// Prepares a request whose arguments were decoded with outcome
    /// `decoded`: a decoding failure is reported as `Deserialize` without
    /// running any middleware; otherwise the middleware run in order and the
    /// first rejection is reported as `Rejected`.
    pub fn prepare(&self, decoded: Result<(), String>, ctx: &mut Context) -> (r: Result<
        (),
        DispatchError,
    >)
        ensures
            decoded is Err ==> *final(ctx) == *old(ctx),
            (decoded is Err) == (r matches Err(DispatchError::Deserialize(_))),
            decoded matches Err(m) ==> (r matches Err(DispatchError::Deserialize(n)) && n@ == m@),
            self.middleware_len() == 0 && decoded is Ok ==> r is Ok,
            // Prepared: every middleware ran in order, each on the context
            // the one before it left, and let the request through.
            r is Ok ==> exists|st: Seq<Context>|
                st.len() == self.middleware_len() + 1 && st[0] == *old(ctx) && st.last()
                    == *final(ctx) && forall|k: int|
                    0 <= k < self.middleware_len() ==> exists|c: &mut Context|
                        *c == #[trigger] st[k] && *final(c) == st[k + 1] && call_ensures(
                            M::intercept,
                            (&self.middleware()[k], c),
                            Ok(()),
                        ),
            // Rejected: the middleware before `j` let the request through,
            // and middleware `j` rejected it with the rejection reported.
            r matches Err(DispatchError::Rejected(x)) ==> exists|j: int, st: Seq<Context>|
                #![trigger st[j]]
                0 <= j < self.middleware_len() && st.len() == j + 2 && st[0] == *old(ctx)
                    && st.last() == *final(ctx) && (forall|k: int|
                    0 <= k < j ==> exists|c: &mut Context|
                        *c == #[trigger] st[k] && *final(c) == st[k + 1] && call_ensures(
                            M::intercept,
                            (&self.middleware()[k], c),
                            Ok(()),
                        )) && exists|c: &mut Context|
                    *c == st[j] && *final(c) == st[j + 1] && call_ensures(
                        M::intercept,
                        (&self.middleware()[j], c),
                        Err::<(), Rejection>(x),
                    ),
    {
        match decoded {
            Err(message) => {
                return Err(DispatchError::Deserialize(message));
            },
            Ok(()) => {},
        }
        let ghost st: Seq<Context> = seq![*ctx];
        let mut i: usize = 0;
        while i < self.middleware.len()
            invariant
                decoded is Ok,
                i <= self.middleware_len(),
                self.middleware@ == self.middleware(),
                st.len() == i + 1,
                st[0] == *old(ctx),
                st.last() == *ctx,
                forall|k: int|
                    0 <= k < i ==> exists|c: &mut Context|
                        *c == #[trigger] st[k] && *final(c) == st[k + 1] && call_ensures(
                            M::intercept,
                            (&self.middleware()[k], c),
                            Ok(()),
                        ),
            decreases self.middleware.len() - i,
        {
            let ghost before = *ctx;
            let res = self.middleware[i].intercept(ctx);
            let ghost layer = self.middleware()[i as int];
            assert(exists|c: &mut Context|
                #![trigger call_ensures(M::intercept, (&layer, c), res)]
                *c == before && *final(c) == *ctx && call_ensures(M::intercept, (&layer, c), res));
            match res {
                Ok(()) => {
                    proof {
                        let cw = choose|c: &mut Context|
                            #![trigger call_ensures(M::intercept, (&layer, c), res)]
                            *c == before && *final(c) == *ctx && call_ensures(
                                M::intercept,
                                (&layer, c),
                                res,
                            );
                        assert(res->Ok_0 == ());
                        assert(call_ensures(M::intercept, (&layer, cw), Ok(())));
                        let st2 = st.push(*ctx);
                        assert forall|k: int| 0 <= k < i + 1 implies exists|c: &mut Context|
                            *c == #[trigger] st2[k] && *final(c) == st2[k + 1] && call_ensures(
                                M::intercept,
                                (&self.middleware()[k], c),
                                Ok(()),
                            ) by {
                            if k < i {
                                assert(st2[k] == st[k] && st2[k + 1] == st[k + 1]);
                            } else {
                                assert(*cw == st2[k] && *final(cw) == st2[k + 1]);
                            }
                        }
                        st = st2;
                    }
                },
                Err(rejection) => {
                    proof {
                        let st2 = st.push(*ctx);
                        assert forall|k: int| 0 <= k < i implies exists|c: &mut Context|
                            *c == #[trigger] st2[k] && *final(c) == st2[k + 1] && call_ensures(
                                M::intercept,
                                (&self.middleware()[k], c),
                                Ok(()),
                            ) by {
                            assert(st2[k] == st[k] && st2[k + 1] == st[k + 1]);
                        }
                        assert(st2[i as int] == before && st2[i + 1] == *ctx);
                        st = st2;
                    }
                    return Err(DispatchError::Rejected(rejection));
                },
            }
            i = i + 1;
        }
        Ok(())
    }
}

} // verus!
