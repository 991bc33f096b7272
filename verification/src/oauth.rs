//! OAuth options: a provider from a closed set, optional custom credentials,
//! and three ordered authorization lists, with their pure translation into
//! the wire OAuth object.

use vstd::prelude::*;

use crate::common::clone_string_vec;
use crate::proto::{Oauth, OauthView, SecretString};

verus! {

/// OAuth provider to be used with [`OauthOptions`].
#[derive(Clone, Copy, PartialEq, Eq, Structural)]
pub enum OauthProvider {
    Amazon,
    Facebook,
    GitHub,
    GitLab,
    Google,
    LinkedIn,
    Microsoft,
    Twitch,
}

/// The fixed lowercase identifier the wire protocol uses for a provider.
pub open spec fn provider_name(p: OauthProvider) -> Seq<char> {
    match p {
        OauthProvider::Amazon => "amazon"@,
        OauthProvider::Facebook => "facebook"@,
        OauthProvider::GitHub => "github"@,
        OauthProvider::GitLab => "gitlab"@,
        OauthProvider::Google => "google"@,
        OauthProvider::LinkedIn => "linkedin"@,
        OauthProvider::Microsoft => "microsoft"@,
        OauthProvider::Twitch => "twitch"@,
    }
}

impl OauthProvider {
    /// The provider's fixed lowercase identifier string.
    pub fn name(&self) -> (r: String)
        ensures
            r@ == provider_name(*self),
    {
        match self {
            OauthProvider::Amazon => String::from_str("amazon"),
            OauthProvider::Facebook => String::from_str("facebook"),
            OauthProvider::GitHub => String::from_str("github"),
            OauthProvider::GitLab => String::from_str("gitlab"),
            OauthProvider::Google => String::from_str("google"),
            OauthProvider::LinkedIn => String::from_str("linkedin"),
            OauthProvider::Microsoft => String::from_str("microsoft"),
            OauthProvider::Twitch => String::from_str("twitch"),
        }
    }
}

/// OAuth options configuration.
pub struct OauthOptions {
    /// The OAuth provider to use; fixed at construction.
    pub provider: OauthProvider,
    /// The client ID, if a custom one is being used.
    pub client_id: String,
    /// The client secret, if a custom one is being used.
    pub client_secret: SecretString,
    /// Email addresses of users to authorize.
    pub allow_emails: Vec<String>,
    /// Email domains of users to authorize.
    pub allow_domains: Vec<String>,
    /// OAuth scopes to request from the provider.
    pub scopes: Vec<String>,
}

/// Spec-level shape of [`OauthOptions`].
#[verifier::ext_equal]
pub struct OauthOptionsView {
    pub provider: OauthProvider,
    pub client_id: Seq<char>,
    pub client_secret: Seq<char>,
    pub allow_emails: Seq<Seq<char>>,
    pub allow_domains: Seq<Seq<char>>,
    pub scopes: Seq<Seq<char>>,
}

impl View for OauthOptions {
    type V = OauthOptionsView;

    open spec fn view(&self) -> OauthOptionsView {
        OauthOptionsView {
            provider: self.provider,
            client_id: self.client_id@,
            client_secret: self.client_secret@,
            allow_emails: self.allow_emails.deep_view(),
            allow_domains: self.allow_domains.deep_view(),
            scopes: self.scopes.deep_view(),
        }
    }
}

impl OauthOptions {
    /// Create a new [`OauthOptions`] for the given provider; every other
    /// field starts empty.
    pub fn new(provider: OauthProvider) -> (r: Self)
        ensures
            r@ == (OauthOptionsView {
                provider,
                client_id: Seq::empty(),
                client_secret: Seq::empty(),
                allow_emails: Seq::empty(),
                allow_domains: Seq::empty(),
                scopes: Seq::empty(),
            }),
    {
        let r = OauthOptions {
            provider,
            client_id: String::new(),
            client_secret: SecretString::default(),
            allow_emails: Vec::new(),
            allow_domains: Vec::new(),
            scopes: Vec::new(),
        };
        proof {
            assert(r@ =~= (OauthOptionsView {
                provider,
                client_id: Seq::empty(),
                client_secret: Seq::empty(),
                allow_emails: Seq::empty(),
                allow_domains: Seq::empty(),
                scopes: Seq::empty(),
            }));
        }
        r
    }

    /// Provide an OAuth client ID for custom apps; last write wins.
    pub fn client_id(self, id: String) -> (r: Self)
        ensures
            r@ == (OauthOptionsView { client_id: id@, ..self@ }),
    {
        let r = OauthOptions { client_id: id, ..self };
        proof {
            assert(r@ =~= (OauthOptionsView { client_id: r.client_id@, ..self@ }));
        }
        r
    }

    /// Provide an OAuth client secret for custom apps; last write wins.
    pub fn client_secret(self, secret: String) -> (r: Self)
        ensures
            r@ == (OauthOptionsView { client_secret: secret@, ..self@ }),
    {
        let r = OauthOptions { client_secret: SecretString::new(secret), ..self };
        proof {
            assert(r@ =~= (OauthOptionsView { client_secret: r.client_secret@, ..self@ }));
        }
        r
    }

    /// Append an email address to the list of allowed emails.
    pub fn allow_email(self, email: String) -> (r: Self)
        ensures
            r@ == (OauthOptionsView { allow_emails: self@.allow_emails.push(email@), ..self@ }),
    {
        let mut r = self;
        r.allow_emails.push(email);
        proof {
            assert(r.allow_emails.deep_view() =~= r@.allow_emails);
        }
        r
    }

    /// Append an email domain to the list of allowed domains.
    pub fn allow_domain(self, domain: String) -> (r: Self)
        ensures
            r@ == (OauthOptionsView { allow_domains: self@.allow_domains.push(domain@), ..self@ }),
    {
        let mut r = self;
        r.allow_domains.push(domain);
        proof {
            assert(r.allow_domains.deep_view() =~= r@.allow_domains);
        }
        r
    }

    /// Append a scope to the list of scopes to request.
    pub fn scope(self, scope: String) -> (r: Self)
        ensures
            r@ == (OauthOptionsView { scopes: self@.scopes.push(scope@), ..self@ }),
    {
        let mut r = self;
        r.scopes.push(scope);
        proof {
            assert(r.scopes.deep_view() =~= r@.scopes);
        }
        r
    }
}

impl Clone for OauthOptions {
    fn clone(&self) -> (r: Self)
        ensures
            r@ == self@,
    {
        let r = OauthOptions {
            provider: self.provider,
            client_id: self.client_id.clone(),
            client_secret: self.client_secret.clone(),
            allow_emails: clone_string_vec(&self.allow_emails),
            allow_domains: clone_string_vec(&self.allow_domains),
            scopes: clone_string_vec(&self.scopes),
        };
        proof {
            assert(r@ =~= self@);
        }
        r
    }
}

/// The wire image of accumulated OAuth options: the provider rendered as its
/// fixed identifier, credentials and lists copied verbatim, and the sealed
/// secret left at its default.
pub open spec fn oauth_wire_view(o: OauthOptionsView) -> OauthView {
    OauthView {
        provider: provider_name(o.provider),
        client_id: o.client_id,
        client_secret: o.client_secret,
        sealed_client_secret: Seq::empty(),
        allow_emails: o.allow_emails,
        allow_domains: o.allow_domains,
        scopes: o.scopes,
    }
}

impl Oauth {
    /// Translate accumulated options into the wire OAuth object: a pure
    /// structural copy.
    pub fn from_options(o: OauthOptions) -> (r: Oauth)
        ensures
            r@ == oauth_wire_view(o@),
    {
        let r = Oauth {
            provider: o.provider.name(),
            client_id: o.client_id,
            client_secret: o.client_secret,
            sealed_client_secret: String::new(),
            allow_emails: o.allow_emails,
            allow_domains: o.allow_domains,
            scopes: o.scopes,
        };
        proof {
            assert(r@ =~= oauth_wire_view(o@));
        }
        r
    }
}

} // verus!
