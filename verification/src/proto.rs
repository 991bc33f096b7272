//! Wire-protocol structures produced by the option translations: the
//! restriction, OAuth and mutual-TLS objects, the proxy-protocol selection,
//! and the write-protected secret wrapper.

use vstd::prelude::*;

verus! {

/// The version of the PROXY protocol to prepend to forwarded connections,
/// `Disabled` when none is used.
#[derive(Clone, Copy, Debug, PartialEq, Eq, Structural)]
pub enum ProxyProto {
    Disabled,
    V1,
    V2,
}

impl Default for ProxyProto {
    fn default() -> (r: Self)
        ensures
            r == ProxyProto::Disabled,
    {
        ProxyProto::Disabled
    }
}

/// A write-protected secret: the value leaves the wrapper only through
/// [`SecretString::transmission_value`], never through a textual rendering.
pub struct SecretString {
    secret: String,
}

impl View for SecretString {
    type V = Seq<char>;

    closed spec fn view(&self) -> Seq<char> {
        self.secret@
    }
}

impl SecretString {
    /// Wrap a secret value.
    pub fn new(secret: String) -> (r: SecretString)
        ensures
            r@ == secret@,
    {
        SecretString { secret }
    }

    /// The underlying value, for transmission to the remote edge only.
    pub fn transmission_value(&self) -> (r: &str)
        ensures
            r@ == self@,
    {
        self.secret.as_str()
    }
}

impl Clone for SecretString {
    fn clone(&self) -> (r: Self)
        ensures
            r@ == self@,
    {
        SecretString { secret: self.secret.clone() }
    }
}

impl Default for SecretString {
    fn default() -> (r: Self)
        ensures
            r@ == Seq::<char>::empty(),
    {
        SecretString { secret: String::new() }
    }
}

/// Wire restriction object: the two CIDR lists, verbatim.
pub struct IpRestriction {
    pub allow_cidrs: Vec<String>,
    pub deny_cidrs: Vec<String>,
}

/// Spec-level shape of [`IpRestriction`].
#[verifier::ext_equal]
pub struct IpRestrictionView {
    pub allow_cidrs: Seq<Seq<char>>,
    pub deny_cidrs: Seq<Seq<char>>,
}

impl View for IpRestriction {
    type V = IpRestrictionView;

    open spec fn view(&self) -> IpRestrictionView {
        IpRestrictionView { allow_cidrs: self.allow_cidrs.deep_view(), deny_cidrs: self.deny_cidrs.deep_view() }
    }
}

/// Wire mutual-TLS object: one buffer holding every CA certificate,
/// concatenated in input order.
pub struct MutualTls {
    pub mutual_tls_ca: Vec<u8>,
}

/// `bytes::Bytes`, the cheaply cloneable byte buffer certificates arrive in,
/// declared so it can stand in signatures; its content is [`bytes_content`].
#[verifier::external_type_specification]
#[verifier::external_body]
pub struct ExBytes(bytes::Bytes);

/// The bytes a `bytes::Bytes` buffer holds, in order.
pub uninterp spec fn bytes_content(b: bytes::Bytes) -> Seq<u8>;

/// Relies on `bytes::Bytes::as_ref` (its `AsRef<[u8]>` impl): it hands out
/// exactly the bytes the buffer holds, in order.
#[verifier::external_body]
fn bytes_to_vec(b: &bytes::Bytes) -> (v: Vec<u8>)
    ensures
        v@ == bytes_content(*b),
{
    let mut out = Vec::new();
    out.extend_from_slice(b.as_ref());
    out
}

/// Relies on `bytes::Bytes::clone`: the copy is a handle to the same bytes,
/// so its content equals the original's.
pub assume_specification[ <bytes::Bytes as Clone>::clone ](b: &bytes::Bytes) -> (r: bytes::Bytes)
    ensures
        bytes_content(r) == bytes_content(*b),
;

/// Clone a vector of byte buffers; each copy holds the same bytes.
pub(crate) fn clone_bytes_vec(v: &Vec<bytes::Bytes>) -> (r: Vec<bytes::Bytes>)
    ensures
        r@.len() == v@.len(),
        forall|i: int| 0 <= i < v@.len() ==> bytes_content(#[trigger] r@[i]) == bytes_content(v@[i]),
{
    let mut r: Vec<bytes::Bytes> = Vec::new();
    let mut i: usize = 0;
    while i < v.len()
        invariant
            i <= v.len(),
            r@.len() == i,
            forall|k: int| 0 <= k < i ==> bytes_content(#[trigger] r@[k]) == bytes_content(v@[k]),
        decreases v.len() - i,
    {
        r.push(v[i].clone());
        i += 1;
    }
    r
}

/// The concatenation of the contents of the first `n` buffers, in order.
pub open spec fn cas_prefix_view(bufs: Seq<bytes::Bytes>, n: int) -> Seq<u8>
    decreases n,
{
    if n <= 0 {
        Seq::empty()
    } else {
        cas_prefix_view(bufs, n - 1) + bytes_content(bufs[n - 1])
    }
}

/// The concatenation of the contents of every buffer, in input order.
pub open spec fn cas_view(bufs: Seq<bytes::Bytes>) -> Seq<u8> {
    cas_prefix_view(bufs, bufs.len() as int)
}

/// Buffer sequences whose first `n` elements hold the same bytes
/// concatenate those elements to the same result.
pub proof fn lemma_cas_prefix_congruence(a: Seq<bytes::Bytes>, b: Seq<bytes::Bytes>, n: int)
    requires
        n <= a.len(),
        n <= b.len(),
        forall|i: int| 0 <= i < n ==> bytes_content(#[trigger] b[i]) == bytes_content(a[i]),
    ensures
        cas_prefix_view(a, n) == cas_prefix_view(b, n),
    decreases n,
{
    if n > 0 {
        lemma_cas_prefix_congruence(a, b, n - 1);
    }
}

/// Mutual-TLS translation is concatenation in input order, so it distributes
/// over concatenation of the input lists: the buffer for `a + b` is the
/// buffer for `a` followed by the buffer for `b`.
pub proof fn lemma_cas_view_append(a: Seq<bytes::Bytes>, b: Seq<bytes::Bytes>)
    ensures
        cas_view(a + b) == cas_view(a) + cas_view(b),
    decreases b.len(),
{
    if b.len() == 0 {
        assert(a + b =~= a);
        assert(cas_view(a) + cas_view(b) =~= cas_view(a));
    } else {
        let bp = b.drop_last();
        let l = a.len() + b.len();
        lemma_cas_view_append(a, bp);
        assert(forall|i: int| 0 <= i < l - 1 ==> (a + bp)[i] == (a + b)[i]);
        lemma_cas_prefix_congruence(a + b, a + bp, l - 1);
        assert(cas_view(a + b) == cas_prefix_view(a + b, l - 1) + bytes_content((a + b)[l - 1]));
        assert((a + b)[l - 1] == b.last());
        assert(forall|i: int| 0 <= i < b.len() - 1 ==> bp[i] == b[i]);
        lemma_cas_prefix_congruence(b, bp, b.len() - 1);
        assert(cas_view(b) == cas_prefix_view(b, b.len() - 1) + bytes_content(b.last()));
        assert(cas_view(a + b) =~= cas_view(a) + cas_view(b));
    }
}

impl MutualTls {
    /// Build the wire object from CA certificate buffers: the result buffer is
    /// the concatenation, in input order, of every provided buffer.
    pub fn from_cas(certs: &Vec<bytes::Bytes>) -> (r: MutualTls)
        ensures
            r.mutual_tls_ca@ == cas_view(certs@),
    {
        let mut aggregated: Vec<u8> = Vec::new();
        let mut i: usize = 0;
        while i < certs.len()
            invariant
                i <= certs.len(),
                aggregated@ == cas_prefix_view(certs@, i as int),
            decreases certs.len() - i,
        {
            let chunk = bytes_to_vec(&certs[i]);
            let mut j: usize = 0;
            while j < chunk.len()
                invariant
                    j <= chunk.len(),
                    i < certs.len(),
                    chunk@ == bytes_content(certs@[i as int]),
                    aggregated@ == cas_prefix_view(certs@, i as int) + chunk@.subrange(0, j as int),
                decreases chunk.len() - j,
            {
                aggregated.push(chunk[j]);
                proof {
                    assert(chunk@.subrange(0, j + 1) =~= chunk@.subrange(0, j as int).push(chunk@[j as int]));
                    assert(aggregated@ =~= cas_prefix_view(certs@, i as int) + chunk@.subrange(0, j + 1));
                }
                j += 1;
            }
            proof {
                assert(chunk@.subrange(0, chunk@.len() as int) =~= chunk@);
                assert(aggregated@ =~= cas_prefix_view(certs@, i + 1));
            }
            i += 1;
        }
        MutualTls { mutual_tls_ca: aggregated }
    }
}

/// Wire OAuth object, a pure structural image of the accumulated options.
pub struct Oauth {
    pub provider: String,
    pub client_id: String,
    pub client_secret: SecretString,
    /// Reserved for an alternate provisioning path that supplies already
    /// sealed secrets; left at its default here.
    pub sealed_client_secret: String,
    pub allow_emails: Vec<String>,
    pub allow_domains: Vec<String>,
    pub scopes: Vec<String>,
}

/// Spec-level shape of [`Oauth`].
#[verifier::ext_equal]
pub struct OauthView {
    pub provider: Seq<char>,
    pub client_id: Seq<char>,
    pub client_secret: Seq<char>,
    pub sealed_client_secret: Seq<char>,
    pub allow_emails: Seq<Seq<char>>,
    pub allow_domains: Seq<Seq<char>>,
    pub scopes: Seq<Seq<char>>,
}

impl View for Oauth {
    type V = OauthView;

    open spec fn view(&self) -> OauthView {
        OauthView {
            provider: self.provider@,
            client_id: self.client_id@,
            client_secret: self.client_secret@,
            sealed_client_secret: self.sealed_client_secret@,
            allow_emails: self.allow_emails.deep_view(),
            allow_domains: self.allow_domains.deep_view(),
            scopes: self.scopes.deep_view(),
        }
    }
}

/// Extra data sent when binding a tunnel, beyond the per-protocol options.
pub struct BindExtra {
    pub metadata: String,
}

impl View for BindExtra {
    type V = Seq<char>;

    open spec fn view(&self) -> Seq<char> {
        self.metadata@
    }
}

/// The middleware configuration sent with a bind request.
pub struct BindOpts {
    pub proxy_proto: ProxyProto,
    pub restriction: Option<IpRestriction>,
    pub mutual_tls: Option<MutualTls>,
    pub oauth: Option<Oauth>,
}

/// Spec-level shape of [`BindOpts`].
#[verifier::ext_equal]
pub struct BindOptsView {
    pub proxy_proto: ProxyProto,
    pub restriction: Option<IpRestrictionView>,
    pub mutual_tls: Option<Seq<u8>>,
    pub oauth: Option<OauthView>,
}

impl View for BindOpts {
    type V = BindOptsView;

    open spec fn view(&self) -> BindOptsView {
        BindOptsView {
            proxy_proto: self.proxy_proto,
            restriction: match self.restriction {
                Some(r) => Some(r@),
                None => None,
            },
            mutual_tls: match self.mutual_tls {
                Some(m) => Some(m.mutual_tls_ca@),
                None => None,
            },
            oauth: match self.oauth {
                Some(o) => Some(o@),
                None => None,
            },
        }
    }
}

} // verus!
