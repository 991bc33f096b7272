use bytes::Bytes;
use tunnel_config::builder::{Builder, ForwarderBuilder, SessionHandle, TunnelBuilder};
use tunnel_config::common::TunnelConfig;
use tunnel_config::endpoints::HttpOpts;
use tunnel_config::proto::MutualTls;

#[test]
fn concatenation_in_input_order() {
    let certs = vec![Bytes::from_static(b"AA"), Bytes::from_static(b"BB")];
    let mtls = MutualTls::from_cas(&certs);
    assert_eq!(mtls.mutual_tls_ca, b"AABB".to_vec());
}

#[test]
fn reordering_the_input_changes_the_result() {
    let certs = vec![Bytes::from_static(b"BB"), Bytes::from_static(b"AA")];
    let mtls = MutualTls::from_cas(&certs);
    assert_eq!(mtls.mutual_tls_ca, b"BBAA".to_vec());
}

#[test]
fn empty_input_gives_an_empty_buffer() {
    let certs: Vec<Bytes> = Vec::new();
    let mtls = MutualTls::from_cas(&certs);
    assert_eq!(mtls.mutual_tls_ca, Vec::<u8>::new());
}

#[test]
fn three_buffers_concatenate_associatively() {
    let certs = vec![
        Bytes::from_static(b"one-"),
        Bytes::from_static(b"two-"),
        Bytes::from_static(b"three"),
    ];
    let mtls = MutualTls::from_cas(&certs);
    assert_eq!(mtls.mutual_tls_ca, b"one-two-three".to_vec());
}

#[test]
fn mutual_tls_reaches_the_bind_options() {
    let mut http = HttpOpts::new();
    http.mutual_tls_cas.push(Bytes::from_static(b"cert-a"));
    http.mutual_tls_cas.push(Bytes::from_static(b"cert-b"));
    let opts = http.opts().expect("http always sends bind options");
    let mtls = opts.mutual_tls.expect("certificates were provided");
    assert_eq!(mtls.mutual_tls_ca, b"cert-acert-b".to_vec());
}

#[test]
fn forward_planning_keeps_the_certificates() {
    let mut http = HttpOpts::new();
    http.mutual_tls_cas.push(Bytes::from_static(b"ca-one"));
    http.mutual_tls_cas.push(Bytes::from_static(b"ca-two"));
    let session = SessionHandle { id: 3, identity: String::from("app://h/e?pid=1") };
    let builder = Builder::from_session(session, http);
    let plan = builder.forward_plan(&String::from("https://internal/"));
    let req = plan.bind_request();
    let opts = req.opts.expect("http always sends bind options");
    let mtls = opts.mutual_tls.expect("certificates were provided");
    assert_eq!(mtls.mutual_tls_ca, b"ca-oneca-two".to_vec());
}

#[test]
fn no_certificates_means_no_mutual_tls_object() {
    let http = HttpOpts::new();
    let opts = http.opts().expect("http always sends bind options");
    assert!(opts.mutual_tls.is_none());
}
