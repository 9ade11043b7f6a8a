use roam::dispatch::{
    Context, DispatchError, DispatchRuntime, Extensions, Middleware as ArgsMiddleware,
    Rejection as DispatchRejection,
};
use roam::middleware::{
    Middleware, MiddlewareStack, NoopMiddleware, Rejection, RejectionCode,
};

fn ctx() -> Context {
    Context {
        conn_id: 1,
        request_id: 2,
        method_id: 3,
        metadata: vec![("auth-token".to_string(), "secret".to_string())],
        extensions: Extensions::new(),
    }
}

struct TestMiddleware {
    should_reject: bool,
}

impl Middleware for TestMiddleware {
    fn intercept(&self, ctx: &mut Context) -> Result<(), Rejection> {
        if self.should_reject {
            Err(Rejection::unauthenticated("test rejection"))
        } else {
            ctx.extensions.insert(42i32);
            Ok(())
        }
    }
}

enum Layer {
    Noop(NoopMiddleware),
    Test(TestMiddleware),
}

impl Middleware for Layer {
    fn intercept(&self, ctx: &mut Context) -> Result<(), Rejection> {
        match self {
            Layer::Noop(m) => m.intercept(ctx),
            Layer::Test(m) => m.intercept(ctx),
        }
    }
}

#[test]
fn test_middleware_stack() {
    let stack = MiddlewareStack::new()
        .with(Layer::Noop(NoopMiddleware))
        .with(Layer::Test(TestMiddleware {
            should_reject: false,
        }));
    assert_eq!(stack.layer_count(), 2);
}

#[test]
fn rejection_constructors() {
    let cases = [
        (Rejection::unauthenticated("a"), RejectionCode::Unauthenticated, "a"),
        (Rejection::permission_denied("b"), RejectionCode::PermissionDenied, "b"),
        (Rejection::rate_limited("c"), RejectionCode::RateLimited, "c"),
        (Rejection::invalid_request("d"), RejectionCode::InvalidRequest, "d"),
        (Rejection::internal("e"), RejectionCode::Internal, "e"),
    ];
    for (r, code, msg) in cases {
        assert_eq!(r.code, code);
        assert_eq!(r.message, msg);
    }
}

#[test]
fn noop_lets_everything_through() {
    let mut c = ctx();
    assert!(NoopMiddleware.intercept(&mut c).is_ok());
    assert!(NoopMiddleware.pass(&mut c).is_ok());
    assert_eq!(c.request_id, 2);
}

#[test]
fn stack_stops_at_first_rejection() {
    let stack = MiddlewareStack::new()
        .with(Layer::Noop(NoopMiddleware))
        .with(Layer::Test(TestMiddleware { should_reject: true }))
        .with(Layer::Test(TestMiddleware { should_reject: false }));
    let mut c = ctx();
    let r = stack.run(&mut c).unwrap_err();
    assert_eq!(r.code, RejectionCode::Unauthenticated);
    assert_eq!(r.message, "test rejection");
    let passing = MiddlewareStack::new()
        .with(Layer::Noop(NoopMiddleware))
        .with(Layer::Test(TestMiddleware { should_reject: false }));
    assert!(passing.intercept(&mut c).is_ok());
    let empty: MiddlewareStack<Layer> = MiddlewareStack::new();
    assert!(empty.run(&mut c).is_ok());
}

struct Gate {
    open: bool,
}

impl ArgsMiddleware for Gate {
    fn intercept(&self, _ctx: &mut Context) -> Result<(), DispatchRejection> {
        if self.open {
            Ok(())
        } else {
            Err(DispatchRejection { message: "closed".to_string() })
        }
    }
}

#[test]
fn test_runtime_creation() {
    let runtime: DispatchRuntime<Gate> = DispatchRuntime::new();
    assert_eq!(runtime.middleware_count(), 0);
}

#[test]
fn prepare_reports_decode_failure_first() {
    let runtime = DispatchRuntime::new().with_middleware(Gate { open: false });
    assert_eq!(runtime.middleware_count(), 1);
    let mut c = ctx();
    match runtime.prepare(Err("bad payload".to_string()), &mut c) {
        Err(DispatchError::Deserialize(m)) => assert_eq!(m, "bad payload"),
        other => panic!("unexpected: {other:?}"),
    }
    match runtime.prepare(Ok(()), &mut c) {
        Err(DispatchError::Rejected(r)) => assert_eq!(r.message, "closed"),
        other => panic!("unexpected: {other:?}"),
    }
    let open = DispatchRuntime::new()
        .with_middleware(Gate { open: true })
        .with_middleware(Gate { open: true });
    assert!(open.prepare(Ok(()), &mut c).is_ok());
}

#[test]
fn extensions_keep_one_value_per_type() {
    let mut e = Extensions::new();
    assert!(e.get::<u32>().is_none());
    e.insert(5u32);
    e.insert(String::from("user"));
    assert_eq!(e.get::<u32>(), Some(&5u32));
    assert_eq!(e.get::<String>().map(|s| s.as_str()), Some("user"));
    assert!(e.get::<i64>().is_none());
    e.insert(9u32);
    assert_eq!(e.get::<u32>(), Some(&9u32));
    assert_eq!(e.get::<String>().map(|s| s.as_str()), Some("user"));
}

#[test]
fn middleware_values_reach_the_handler() {
    let stack = MiddlewareStack::new().with(Layer::Test(TestMiddleware { should_reject: false }));
    let mut c = ctx();
    assert!(stack.run(&mut c).is_ok());
    assert_eq!(c.extensions.get::<i32>(), Some(&42));
}
