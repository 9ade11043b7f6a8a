use roam::bridge::{BridgeMethod, BridgeRefusal, BridgeRoutes};

fn m(name: &str, id: u64, ch: bool) -> BridgeMethod {
    BridgeMethod { name: name.to_string(), method_id: id, has_channels: ch }
}

#[test]
fn routes_by_name() {
    let routes = BridgeRoutes::new(vec![m("echo", 10, false), m("stream", 11, true)]);
    assert_eq!(routes.route("echo"), Ok(10));
    assert_eq!(routes.route("stream"), Err(BridgeRefusal::ChannelsRequireWebSocket));
    let refused = routes.route("missing");
    assert_eq!(refused, Err(BridgeRefusal::UnknownMethod("missing".to_string())));
    assert_eq!(refused.unwrap_err().message(), "Unknown method: missing");
    assert_eq!(
        BridgeRefusal::ChannelsRequireWebSocket.message(),
        "Channel methods require WebSocket"
    );
}

#[test]
fn last_method_of_a_name_wins() {
    let routes = BridgeRoutes::new(vec![m("x", 1, true), m("x", 2, false)]);
    assert_eq!(routes.route("x"), Ok(2));
    let empty = BridgeRoutes::new(vec![]);
    assert!(matches!(empty.route("x"), Err(BridgeRefusal::UnknownMethod(_))));
}
