use tunnel_config::builder::{
    Builder, ForwarderBuilder, ListenerHandle, RpcError, SessionHandle, TunnelBuilder, TunnelInfo,
    TunnelInner,
};
use tunnel_config::endpoints::{HttpOpts, TcpOpts};

fn session() -> SessionHandle {
    SessionHandle { id: 1, identity: String::from("app://host/agent?pid=7") }
}

fn granted() -> TunnelInner {
    TunnelInner {
        listener: ListenerHandle { id: 99 },
        info: TunnelInfo { id: String::from("tun_1"), metadata: String::from("meta") },
    }
}

#[test]
fn bind_request_serializes_the_default_configuration() {
    let builder = Builder::from_session(session(), TcpOpts::new());
    let req = builder.bind_request();
    assert_eq!(req.proto, "tcp");
    assert_eq!(req.forwards_to, "app://host/agent?pid=7");
    assert_eq!(req.extra.metadata, "");
    assert!(req.labels.is_empty());
    let opts = req.opts.expect("tcp always sends bind options");
    assert!(opts.restriction.is_none());
    assert!(opts.oauth.is_none());
    assert!(opts.mutual_tls.is_none());
}

#[test]
fn forwards_to_override_wins_over_the_identity() {
    let mut opts = TcpOpts::new();
    opts.common.forwards_to = Some(String::from("my-service"));
    let builder = Builder::from_session(session(), opts);
    assert_eq!(builder.bind_request().forwards_to, "my-service");
}

#[test]
fn a_granted_bind_is_wrapped() {
    let builder = Builder::from_session(session(), TcpOpts::new());
    match builder.complete_listen(Ok(granted())) {
        Ok(tunnel) => {
            let (listener, info) = tunnel.split_listener();
            assert_eq!(listener.id, 99);
            assert_eq!(info.id, "tun_1");
            assert_eq!(info.metadata, "meta");
        },
        Err(_) => panic!("a granted bind must come back as a tunnel"),
    }
}

#[test]
fn every_remote_error_kind_is_forwarded_unchanged() {
    let builder = Builder::from_session(session(), TcpOpts::new());
    let rejected = builder.complete_listen(Err(RpcError::Rejected(String::from("bad opts"))));
    assert!(matches!(rejected, Err(RpcError::Rejected(m)) if m == "bad opts"));
    let auth = builder.complete_listen(Err(RpcError::AuthFailed(String::from("expired"))));
    assert!(matches!(auth, Err(RpcError::AuthFailed(m)) if m == "expired"));
    let transport = builder.complete_listen(Err(RpcError::Transport(String::from("closed"))));
    assert!(matches!(transport, Err(RpcError::Transport(m)) if m == "closed"));
}

#[test]
fn forward_plan_overrides_only_the_forwards_to_label() {
    let builder = Builder::from_session(session(), TcpOpts::new());
    let url = String::from("http://localhost:8080/");
    let plan = builder.forward_plan(&url);
    let req = plan.bind_request();
    assert_eq!(req.forwards_to, "http://localhost:8080/");
    assert_eq!(req.proto, "tcp");
    // the original builder is unaffected and reusable
    assert_eq!(builder.bind_request().forwards_to, "app://host/agent?pid=7");
}

#[test]
fn no_forwarder_exists_when_the_bind_fails() {
    let builder = Builder::from_session(session(), TcpOpts::new());
    let url = String::from("http://localhost:8080/");
    let plan = builder.forward_plan(&url);
    let outcome = plan.complete_forward(url, Err(RpcError::Transport(String::from("down"))));
    assert!(matches!(outcome, Err(RpcError::Transport(m)) if m == "down"));
}

#[test]
fn a_successful_forward_owns_the_listener() {
    let builder = Builder::from_session(session(), TcpOpts::new());
    let url = String::from("tcp://10.0.0.5:5432/");
    let plan = builder.forward_plan(&url);
    match plan.complete_forward(url, Ok(granted())) {
        Ok(forwarder) => {
            assert_eq!(forwarder.listener.id, 99);
            assert_eq!(forwarder.info.id, "tun_1");
            assert_eq!(forwarder.proto, "tcp");
            assert_eq!(forwarder.to_url, "tcp://10.0.0.5:5432/");
        },
        Err(_) => panic!("a granted bind must start the forwarder"),
    }
}

#[test]
fn builders_for_different_protocols_differ_only_in_the_identifier() {
    let tcp = Builder::from_session(session(), TcpOpts::new());
    let http = Builder::from_session(session(), HttpOpts::new());
    let tcp_req = tcp.bind_request();
    let http_req = http.bind_request();
    assert_eq!(tcp_req.proto, "tcp");
    assert_eq!(http_req.proto, "http");
    assert_eq!(tcp_req.forwards_to, http_req.forwards_to);
    assert_eq!(tcp_req.extra.metadata, http_req.extra.metadata);
    assert_eq!(tcp_req.labels, http_req.labels);
    let tcp_opts = tcp_req.opts.expect("always present");
    let http_opts = http_req.opts.expect("always present");
    assert_eq!(tcp_opts.proxy_proto, http_opts.proxy_proto);
    assert!(tcp_opts.restriction.is_none() && http_opts.restriction.is_none());
    assert!(tcp_opts.oauth.is_none() && http_opts.oauth.is_none());
    assert!(tcp_opts.mutual_tls.is_none() && http_opts.mutual_tls.is_none());
}
