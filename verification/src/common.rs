//! Option bundles shared by every tunnel type: CIDR restrictions, the common
//! fields every per-protocol configuration embeds, and the uniform read-only
//! configuration view a builder serializes when binding.

use vstd::prelude::*;

use crate::proto::{BindExtra, BindOpts, BindOptsView, IpRestriction, IpRestrictionView, ProxyProto};

verus! {

/// Clone a vector of strings; the result holds the same string values.
pub(crate) fn clone_string_vec(v: &Vec<String>) -> (r: Vec<String>)
    ensures
        r@ == v@,
{
    let mut r: Vec<String> = Vec::new();
    let mut i: usize = 0;
    while i < v.len()
        invariant
            i <= v.len(),
            r@ == v@.subrange(0, i as int),
        decreases v.len() - i,
    {
        r.push(v[i].clone());
        proof {
            assert(v@.subrange(0, i + 1) =~= v@.subrange(0, i as int).push(v@[i as int]));
        }
        i += 1;
    }
    proof {
        assert(v@.subrange(0, v@.len() as int) =~= v@);
    }
    r
}

/// Clone an optional string; the result holds the same value.
pub(crate) fn clone_opt_string(v: &Option<String>) -> (r: Option<String>)
    ensures
        r == *v,
{
    match v {
        Some(s) => Some(s.clone()),
        None => None,
    }
}

/// Restrictions placed on the origin of incoming connections to the edge.
///
/// Two ordered sequences of CIDR strings; duplicates are permitted, insertion
/// order is kept, and no syntax validation happens at this layer.
pub struct CidrRestrictions {
    /// Rejects connections that do not match the given CIDRs.
    pub allowed: Vec<String>,
    /// Rejects connections that match the given CIDRs and allows all others.
    pub denied: Vec<String>,
}

impl CidrRestrictions {
    /// A restriction set with both sequences empty.
    pub fn new() -> (r: CidrRestrictions)
        ensures
            r.allowed@ =~= Seq::<String>::empty(),
            r.denied@ =~= Seq::<String>::empty(),
    {
        CidrRestrictions { allowed: Vec::new(), denied: Vec::new() }
    }

    /// Append a CIDR string to the allowed sequence, verbatim.
    pub fn allow(&mut self, cidr: String)
        ensures
            final(self).allowed@ == old(self).allowed@.push(cidr),
            final(self).denied@ == old(self).denied@,
    {
        self.allowed.push(cidr);
    }

    /// Append a CIDR string to the denied sequence, verbatim.
    pub fn deny(&mut self, cidr: String)
        ensures
            final(self).denied@ == old(self).denied@.push(cidr),
            final(self).allowed@ == old(self).allowed@,
    {
        self.denied.push(cidr);
    }
}

impl Default for CidrRestrictions {
    fn default() -> (r: Self)
        ensures
            r.allowed@ =~= Seq::<String>::empty(),
            r.denied@ =~= Seq::<String>::empty(),
    {
        CidrRestrictions::new()
    }
}

impl Clone for CidrRestrictions {
    fn clone(&self) -> (r: Self)
        ensures
            r.allowed@ == self.allowed@,
            r.denied@ == self.denied@,
    {
        CidrRestrictions {
            allowed: clone_string_vec(&self.allowed),
            denied: clone_string_vec(&self.denied),
        }
    }
}

impl From<CidrRestrictions> for IpRestriction {
    fn from(cr: CidrRestrictions) -> (r: Self) {
        IpRestriction { allow_cidrs: cr.allowed, deny_cidrs: cr.denied }
    }
}

impl vstd::std_specs::convert::FromSpecImpl<CidrRestrictions> for IpRestriction {
    open spec fn obeys_from_spec() -> bool {
        true
    }

    open spec fn from_spec(cr: CidrRestrictions) -> Self {
        IpRestriction { allow_cidrs: cr.allowed, deny_cidrs: cr.denied }
    }
}

/// The fields every per-protocol option bundle embeds.
pub struct CommonOpts {
    /// Restrictions placed on the origin of incoming connections.
    pub cidr_restrictions: CidrRestrictions,
    /// The version of the PROXY protocol to use, `Disabled` when none.
    pub proxy_proto: ProxyProto,
    /// Opaque, tunnel-specific metadata.
    pub metadata: Option<String>,
    /// An override of the forwards-to label; when absent, the caller falls
    /// back to the default identity of this agent instance.
    pub forwards_to: Option<String>,
}

impl CommonOpts {
    /// A bundle with every field at its default.
    pub fn new() -> (r: CommonOpts)
        ensures
            r.cidr_restrictions.allowed@ =~= Seq::<String>::empty(),
            r.cidr_restrictions.denied@ =~= Seq::<String>::empty(),
            r.proxy_proto == ProxyProto::Disabled,
            r.metadata is None,
            r.forwards_to is None,
    {
        CommonOpts {
            cidr_restrictions: CidrRestrictions::new(),
            proxy_proto: ProxyProto::Disabled,
            metadata: None,
            forwards_to: None,
        }
    }

    /// The restriction object for the wire, present exactly when at least one
    /// of the two accumulated sequences is non-empty; its lists then equal the
    /// accumulated sequences verbatim, in insertion order.
    pub fn ip_restriction(&self) -> (r: Option<IpRestriction>)
        ensures
            r is Some <==> (self.cidr_restrictions.allowed@.len() > 0
                || self.cidr_restrictions.denied@.len() > 0),
            match r {
                Some(ip) => ip.allow_cidrs@ == self.cidr_restrictions.allowed@
                    && ip.deny_cidrs@ == self.cidr_restrictions.denied@,
                None => true,
            },
    {
        if !self.cidr_restrictions.allowed.is_empty() || !self.cidr_restrictions.denied.is_empty() {
            Some(IpRestriction::from(self.cidr_restrictions.clone()))
        } else {
            None
        }
    }
}

impl Default for CommonOpts {
    fn default() -> (r: Self)
        ensures
            r.cidr_restrictions.allowed@ =~= Seq::<String>::empty(),
            r.cidr_restrictions.denied@ =~= Seq::<String>::empty(),
            r.proxy_proto == ProxyProto::Disabled,
            r.metadata is None,
            r.forwards_to is None,
    {
        CommonOpts::new()
    }
}

impl Clone for CommonOpts {
    fn clone(&self) -> (r: Self)
        ensures
            r.cidr_restrictions.allowed@ == self.cidr_restrictions.allowed@,
            r.cidr_restrictions.denied@ == self.cidr_restrictions.denied@,
            r.proxy_proto == self.proxy_proto,
            r.metadata == self.metadata,
            r.forwards_to == self.forwards_to,
    {
        CommonOpts {
            cidr_restrictions: self.cidr_restrictions.clone(),
            proxy_proto: self.proxy_proto,
            metadata: clone_opt_string(&self.metadata),
            forwards_to: clone_opt_string(&self.forwards_to),
        }
    }
}

/// The restriction object a common bundle denotes: present exactly when at
/// least one accumulated sequence is non-empty.
pub open spec fn common_restriction_view(c: CommonOpts) -> Option<IpRestrictionView> {
    if c.cidr_restrictions.allowed@.len() > 0 || c.cidr_restrictions.denied@.len() > 0 {
        Some(
            IpRestrictionView {
                allow_cidrs: c.cidr_restrictions.allowed.deep_view(),
                deny_cidrs: c.cidr_restrictions.denied.deep_view(),
            },
        )
    } else {
        None
    }
}

/// The metadata a common bundle sends as extra bind data: what was set, or
/// empty.
pub open spec fn common_metadata_view(c: CommonOpts) -> Seq<char> {
    match c.metadata {
        Some(m) => m@,
        None => Seq::empty(),
    }
}

/// The uniform, read-only projection of an option bundle: everything a bind
/// request carries, at the spec level.
#[verifier::ext_equal]
pub struct ConfigView {
    /// The forwards-to label, absent when the default identity applies.
    pub forwards_to: Option<Seq<char>>,
    /// The metadata sent as extra bind data, empty when none was set.
    pub extra_metadata: Seq<char>,
    /// The wire protocol this configuration binds.
    pub proto: Seq<char>,
    /// The middleware options, absent when the protocol sends none.
    pub opts: Option<BindOptsView>,
    /// The label map, as ordered key/value pairs.
    pub labels: Seq<(Seq<char>, Seq<char>)>,
}

/// Tunnel configuration capability: the uniform read-only view every concrete
/// per-protocol option bundle exposes.
pub trait TunnelConfig {
    /// The configuration this bundle denotes.
    spec fn cfg(&self) -> ConfigView;

    /// The forwards-to override, if one was set.
    fn forwards_to(&self) -> (r: Option<String>)
        ensures
            r.deep_view() == self.cfg().forwards_to,
    ;

    /// Extra data sent when binding.
    fn extra(&self) -> (r: BindExtra)
        ensures
            r@ == self.cfg().extra_metadata,
    ;

    /// The wire protocol for this tunnel.
    fn proto(&self) -> (r: String)
        ensures
            r@ == self.cfg().proto,
    ;

    /// The middleware and other options for this tunnel.
    fn opts(&self) -> (r: Option<BindOpts>)
        ensures
            match r {
                Some(o) => self.cfg().opts == Some(o@),
                None => self.cfg().opts is None,
            },
    ;

    /// The labels for this tunnel.
    fn labels(&self) -> (r: Vec<(String, String)>)
        ensures
            r.deep_view() == self.cfg().labels,
    ;
}

impl<T: TunnelConfig> TunnelConfig for &T {
    open spec fn cfg(&self) -> ConfigView {
        (**self).cfg()
    }

    fn forwards_to(&self) -> (r: Option<String>)
        ensures
            r.deep_view() == self.cfg().forwards_to,
    {
        (**self).forwards_to()
    }

    fn extra(&self) -> (r: BindExtra)
        ensures
            r@ == self.cfg().extra_metadata,
    {
        (**self).extra()
    }

    fn proto(&self) -> (r: String)
        ensures
            r@ == self.cfg().proto,
    {
        (**self).proto()
    }

    fn opts(&self) -> (r: Option<BindOpts>)
        ensures
            match r {
                Some(o) => self.cfg().opts == Some(o@),
                None => self.cfg().opts is None,
            },
    {
        (**self).opts()
    }

    fn labels(&self) -> (r: Vec<(String, String)>)
        ensures
            r.deep_view() == self.cfg().labels,
    {
        (**self).labels()
    }
}

} // verus!
