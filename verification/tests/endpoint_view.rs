use tunnel_config::common::TunnelConfig;
use tunnel_config::endpoints::{HttpOpts, TcpOpts};
use tunnel_config::oauth::{OauthOptions, OauthProvider};
use tunnel_config::proto::ProxyProto;

#[test]
fn middleware_flows_into_the_http_bind_options() {
    let mut http = HttpOpts::new();
    http.common.proxy_proto = ProxyProto::V2;
    http.common.metadata = Some(String::from("my metadata"));
    http.common.cidr_restrictions.allow(String::from("10.0.0.0/8"));
    http.common.cidr_restrictions.deny(String::from("10.1.0.0/16"));
    http.oauth = Some(OauthOptions::new(OauthProvider::GitLab).allow_domain(String::from("example.com")));

    assert_eq!(http.proto(), "http");
    assert_eq!(http.extra().metadata, "my metadata");
    assert!(http.labels().is_empty());
    let opts = http.opts().expect("http always sends bind options");
    assert_eq!(opts.proxy_proto, ProxyProto::V2);
    let restriction = opts.restriction.expect("a non-empty sequence was accumulated");
    assert_eq!(restriction.allow_cidrs, vec![String::from("10.0.0.0/8")]);
    assert_eq!(restriction.deny_cidrs, vec![String::from("10.1.0.0/16")]);
    let oauth = opts.oauth.expect("oauth was configured");
    assert_eq!(oauth.provider, "gitlab");
    assert_eq!(oauth.allow_domains, vec![String::from("example.com")]);
}

#[test]
fn the_default_tcp_bundle_is_all_defaults() {
    let tcp = TcpOpts::new();
    assert_eq!(tcp.proto(), "tcp");
    assert!(tcp.forwards_to().is_none());
    assert_eq!(tcp.extra().metadata, "");
    let opts = tcp.opts().expect("tcp always sends bind options");
    assert_eq!(opts.proxy_proto, ProxyProto::Disabled);
    assert!(opts.restriction.is_none());
}

#[test]
fn the_capability_reads_the_same_through_a_reference() {
    let mut tcp = TcpOpts::new();
    tcp.common.forwards_to = Some(String::from("svc"));
    tcp.common.metadata = Some(String::from("m"));
    let by_ref = &tcp;
    assert_eq!(<&TcpOpts as TunnelConfig>::proto(&by_ref), tcp.proto());
    assert_eq!(<&TcpOpts as TunnelConfig>::forwards_to(&by_ref), tcp.forwards_to());
    assert_eq!(<&TcpOpts as TunnelConfig>::extra(&by_ref).metadata, tcp.extra().metadata);
    assert_eq!(<&TcpOpts as TunnelConfig>::labels(&by_ref), tcp.labels());
}
