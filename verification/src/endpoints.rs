//! The per-protocol option bundles fed to the generation mechanism: each one
//! embeds the common bundle, reports its own protocol identifier, and yields
//! its own builder/tunnel pair as [`Builder`]`<C>` / `TunnelHandle<C>`.

use vstd::prelude::*;

use crate::builder::ForwardsTo;
use crate::common::{
    clone_opt_string, common_metadata_view, common_restriction_view, CommonOpts, ConfigView,
    TunnelConfig,
};
use crate::oauth::{oauth_wire_view, OauthOptions};
use crate::proto::{
    cas_view, clone_bytes_vec, lemma_cas_prefix_congruence, BindExtra, BindOpts, BindOptsView,
    MutualTls, Oauth,
};

verus! {

/// Options for a tunnel carrying plain TCP connections.
pub struct TcpOpts {
    pub common: CommonOpts,
}

impl TcpOpts {
    /// A bundle with every option at its default.
    pub fn new() -> (r: TcpOpts)
        ensures
            r.cfg().forwards_to is None,
            r.cfg().extra_metadata =~= Seq::<char>::empty(),
            r.cfg().opts matches Some(o) && o.restriction is None && o.oauth is None
                && o.mutual_tls is None,
    {
        TcpOpts { common: CommonOpts::new() }
    }
}

impl TunnelConfig for TcpOpts {
    open spec fn cfg(&self) -> ConfigView {
        ConfigView {
            forwards_to: self.common.forwards_to.deep_view(),
            extra_metadata: common_metadata_view(self.common),
            proto: "tcp"@,
            opts: Some(
                BindOptsView {
                    proxy_proto: self.common.proxy_proto,
                    restriction: common_restriction_view(self.common),
                    mutual_tls: None,
                    oauth: None,
                },
            ),
            labels: Seq::empty(),
        }
    }

    fn forwards_to(&self) -> (r: Option<String>) {
        clone_opt_string(&self.common.forwards_to)
    }

    fn extra(&self) -> (r: BindExtra) {
        let metadata = match clone_opt_string(&self.common.metadata) {
            Some(m) => m,
            None => String::new(),
        };
        BindExtra { metadata }
    }

    fn proto(&self) -> (r: String) {
        String::from_str("tcp")
    }

    fn opts(&self) -> (r: Option<BindOpts>) {
        let o = BindOpts {
            proxy_proto: self.common.proxy_proto,
            restriction: self.common.ip_restriction(),
            mutual_tls: None,
            oauth: None,
        };
        proof {
            match &o.restriction {
                Some(ip) => {
                    assert(ip.allow_cidrs.deep_view() =~= self.common.cidr_restrictions.allowed.deep_view());
                    assert(ip.deny_cidrs.deep_view() =~= self.common.cidr_restrictions.denied.deep_view());
                },
                None => {},
            }
            assert(o@ =~= self.cfg().opts->Some_0);
        }
        Some(o)
    }

    fn labels(&self) -> (r: Vec<(String, String)>) {
        let r: Vec<(String, String)> = Vec::new();
        proof {
            assert(r.deep_view() =~= Seq::<(Seq<char>, Seq<char>)>::empty());
        }
        r
    }
}

impl ForwardsTo for TcpOpts {
    fn with_forwards_to(&self, to: &String) -> (r: Self) {
        let mut common = self.common.clone();
        common.forwards_to = Some(to.clone());
        let r = TcpOpts { common };
        proof {
            lemma_common_middleware_congruence(self.common, r.common);
            assert(r.cfg() =~= (ConfigView { forwards_to: Some(to@), ..self.cfg() }));
        }
        r
    }
}

/// Options for a tunnel carrying HTTP connections: the common bundle plus
/// the OAuth and mutual-TLS middleware.
pub struct HttpOpts {
    pub common: CommonOpts,
    /// OAuth middleware, if configured.
    pub oauth: Option<OauthOptions>,
    /// CA certificates whose concatenation validates client certificates;
    /// empty when mutual TLS is not used.
    pub mutual_tls_cas: Vec<bytes::Bytes>,
}

impl HttpOpts {
    /// A bundle with every option at its default.
    pub fn new() -> (r: HttpOpts)
        ensures
            r.cfg().forwards_to is None,
            r.cfg().extra_metadata =~= Seq::<char>::empty(),
            r.cfg().opts matches Some(o) && o.restriction is None && o.oauth is None
                && o.mutual_tls is None,
    {
        HttpOpts { common: CommonOpts::new(), oauth: None, mutual_tls_cas: Vec::new() }
    }
}

impl TunnelConfig for HttpOpts {
    open spec fn cfg(&self) -> ConfigView {
        ConfigView {
            forwards_to: self.common.forwards_to.deep_view(),
            extra_metadata: common_metadata_view(self.common),
            proto: "http"@,
            opts: Some(
                BindOptsView {
                    proxy_proto: self.common.proxy_proto,
                    restriction: common_restriction_view(self.common),
                    mutual_tls: if self.mutual_tls_cas@.len() == 0 {
                        None
                    } else {
                        Some(cas_view(self.mutual_tls_cas@))
                    },
                    oauth: match self.oauth {
                        Some(o) => Some(oauth_wire_view(o@)),
                        None => None,
                    },
                },
            ),
            labels: Seq::empty(),
        }
    }

    fn forwards_to(&self) -> (r: Option<String>) {
        clone_opt_string(&self.common.forwards_to)
    }

    fn extra(&self) -> (r: BindExtra) {
        let metadata = match clone_opt_string(&self.common.metadata) {
            Some(m) => m,
            None => String::new(),
        };
        BindExtra { metadata }
    }

    fn proto(&self) -> (r: String) {
        String::from_str("http")
    }

    fn opts(&self) -> (r: Option<BindOpts>) {
        let mutual_tls = if self.mutual_tls_cas.len() == 0 {
            None
        } else {
            Some(MutualTls::from_cas(&self.mutual_tls_cas))
        };
        let oauth = match &self.oauth {
            Some(o) => Some(Oauth::from_options(o.clone())),
            None => None,
        };
        let o = BindOpts {
            proxy_proto: self.common.proxy_proto,
            restriction: self.common.ip_restriction(),
            mutual_tls,
            oauth,
        };
        proof {
            match &o.restriction {
                Some(ip) => {
                    assert(ip.allow_cidrs.deep_view() =~= self.common.cidr_restrictions.allowed.deep_view());
                    assert(ip.deny_cidrs.deep_view() =~= self.common.cidr_restrictions.denied.deep_view());
                },
                None => {},
            }
            assert(o@ =~= self.cfg().opts->Some_0);
        }
        Some(o)
    }

    fn labels(&self) -> (r: Vec<(String, String)>) {
        let r: Vec<(String, String)> = Vec::new();
        proof {
            assert(r.deep_view() =~= Seq::<(Seq<char>, Seq<char>)>::empty());
        }
        r
    }
}

impl ForwardsTo for HttpOpts {
    fn with_forwards_to(&self, to: &String) -> (r: Self) {
        let mut common = self.common.clone();
        common.forwards_to = Some(to.clone());
        let oauth = match &self.oauth {
            Some(o) => Some(o.clone()),
            None => None,
        };
        let mutual_tls_cas = clone_bytes_vec(&self.mutual_tls_cas);
        let r = HttpOpts { common, oauth, mutual_tls_cas };
        proof {
            lemma_common_middleware_congruence(self.common, r.common);
            if self.mutual_tls_cas@.len() > 0 {
                lemma_cas_prefix_congruence(
                    self.mutual_tls_cas@,
                    r.mutual_tls_cas@,
                    self.mutual_tls_cas@.len() as int,
                );
            }
            assert(r.cfg() =~= (ConfigView { forwards_to: Some(to@), ..self.cfg() }));
        }
        r
    }
}

/// Common bundles whose accumulated sequences hold the same strings denote
/// the same restriction object and metadata.
proof fn lemma_common_middleware_congruence(a: CommonOpts, b: CommonOpts)
    requires
        a.cidr_restrictions.allowed@ == b.cidr_restrictions.allowed@,
        a.cidr_restrictions.denied@ == b.cidr_restrictions.denied@,
        a.metadata == b.metadata,
    ensures
        common_restriction_view(a) == common_restriction_view(b),
        common_metadata_view(a) == common_metadata_view(b),
{
    assert(a.cidr_restrictions.allowed.deep_view() =~= b.cidr_restrictions.allowed.deep_view());
    assert(a.cidr_restrictions.denied.deep_view() =~= b.cidr_restrictions.denied.deep_view());
}

} // verus!
