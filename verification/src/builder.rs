//! The tunnel-builder and forwarder-builder capabilities, and the single
//! generic implementation that produces a builder/tunnel pair per wire
//! protocol, parameterized by the option-bundle type.
//!
//! Binding is an exchange with the session collaborator, which owns the
//! transport: the builder serializes its option bundle into a uniform
//! [`BindRequest`], the caller performs the round trip, and the builder
//! interprets the session's reply. The builder's own state is never touched
//! by a bind attempt, so a failed bind leaves it reusable as it stands.

use core::marker::PhantomData;
use vstd::prelude::*;

use crate::common::{ConfigView, TunnelConfig};
use crate::proto::{BindExtra, BindOpts, BindOptsView};

verus! {

/// Handle to the session collaborator that multiplexes bind exchanges, as the
/// caller registered it, together with the resolved default identity of this
/// agent instance (the forwards-to fallback).
pub struct SessionHandle {
    /// Identifies the session object the caller holds.
    pub id: u64,
    /// The default forwards-to identity, resolved once by the caller.
    pub identity: String,
}

impl Clone for SessionHandle {
    fn clone(&self) -> (r: Self)
        ensures
            r == *self,
    {
        SessionHandle { id: self.id, identity: self.identity.clone() }
    }
}

/// Handle to a bound listener; the connection-copying data plane behind it is
/// the forwarding collaborator's business.
#[derive(Clone, Copy, PartialEq, Eq, Structural)]
pub struct ListenerHandle {
    pub id: u64,
}

/// Metadata of an established tunnel, as the remote edge reported it.
pub struct TunnelInfo {
    pub id: String,
    pub metadata: String,
}

/// What the session hands back when the remote edge grants a bind.
pub struct TunnelInner {
    pub listener: ListenerHandle,
    pub info: TunnelInfo,
}

/// The remote-bind error this core propagates: whichever of the three kinds
/// the session collaborator reported, forwarded opaquely and without retries.
pub enum RpcError {
    /// The remote edge rejected the configuration.
    Rejected(String),
    /// Authentication or authorization failed.
    AuthFailed(String),
    /// The transport failed during the exchange.
    Transport(String),
}

/// The uniform serialized form of an option bundle, as sent with a bind
/// request.
pub struct BindRequest {
    pub forwards_to: String,
    pub extra: BindExtra,
    pub proto: String,
    pub opts: Option<BindOpts>,
    pub labels: Vec<(String, String)>,
}

/// Spec-level shape of [`BindRequest`].
#[verifier::ext_equal]
pub struct BindRequestView {
    pub forwards_to: Seq<char>,
    pub extra_metadata: Seq<char>,
    pub proto: Seq<char>,
    pub opts: Option<BindOptsView>,
    pub labels: Seq<(Seq<char>, Seq<char>)>,
}

impl View for BindRequest {
    type V = BindRequestView;

    open spec fn view(&self) -> BindRequestView {
        BindRequestView {
            forwards_to: self.forwards_to@,
            extra_metadata: self.extra@,
            proto: self.proto@,
            opts: match self.opts {
                Some(o) => Some(o@),
                None => None,
            },
            labels: self.labels.deep_view(),
        }
    }
}

/// The request a configuration resolves to, once the absent forwards-to label
/// has fallen back to the agent identity.
pub open spec fn resolved_request(cfg: ConfigView, identity: Seq<char>) -> BindRequestView {
    BindRequestView {
        forwards_to: match cfg.forwards_to {
            Some(f) => f,
            None => identity,
        },
        extra_metadata: cfg.extra_metadata,
        proto: cfg.proto,
        opts: cfg.opts,
        labels: cfg.labels,
    }
}

/// The identity carried by an optional session handle.
pub open spec fn session_identity(s: Option<SessionHandle>) -> Seq<char> {
    match s {
        Some(handle) => handle.identity@,
        None => Seq::empty(),
    }
}

/// Capability of being built into a tunnel: serialize the current options
/// into a bind request, and wrap what the session's bind exchange returned.
pub trait TunnelBuilder: Sized {
    /// The tunnel type this builder produces.
    type Tunnel;

    /// Whether a session handle is present; binding requires one.
    spec fn has_session(&self) -> bool;

    /// The request this builder binds with.
    spec fn bind_view(&self) -> BindRequestView;

    /// The wrapper this builder puts around a granted tunnel.
    spec fn wrapped(&self, inner: TunnelInner) -> Self::Tunnel;

    /// Serialize the current option bundle into the uniform request the
    /// session sends to the remote edge. Purely local: the builder is not
    /// changed by it.
    fn bind_request(&self) -> (r: BindRequest)
        requires
            self.has_session(),
        ensures
            r@ == self.bind_view(),
    ;

    /// Interpret the session's reply to the bind exchange: wrap a granted
    /// tunnel in the protocol-specific wrapper, forward a remote-bind error
    /// unchanged. No local validation can fail.
    fn complete_listen(&self, outcome: Result<TunnelInner, RpcError>) -> (r: Result<
        Self::Tunnel,
        RpcError,
    >)
        requires
            self.has_session(),
        ensures
            match outcome {
                Ok(inner) => r == Ok::<Self::Tunnel, RpcError>(self.wrapped(inner)),
                Err(e) => r == Err::<Self::Tunnel, RpcError>(e),
            },
    ;
}

/// A forwarding collaborator description: the listener and metadata of a
/// bound tunnel, handed off together with the protocol identifier and the
/// destination. From this point the collaborator owns the listener.
pub struct Forwarder<T> {
    pub listener: ListenerHandle,
    pub info: TunnelInfo,
    pub proto: String,
    pub to_url: String,
    pub marker: PhantomData<T>,
}

/// Capability of being built into a tunnel whose connections are then
/// forwarded to a destination URL (given here in its textual form).
pub trait ForwarderBuilder: TunnelBuilder {
    /// A copy of this builder whose forwards-to label is the destination's
    /// textual form; the builder itself is left unmodified.
    fn forward_plan(&self, to_url: &String) -> (b: Self)
        ensures
            b.has_session() == self.has_session(),
            b.bind_view() == (BindRequestView { forwards_to: to_url@, ..self.bind_view() }),
    ;

    /// Interpret the bind reply for bind-and-forward: only when the bind
    /// succeeded is a forwarding collaborator description created, owning the
    /// tunnel's listener; a bind failure is reported exactly as a plain
    /// listen failure, and no forwarding state exists.
    fn complete_forward(&self, to_url: String, outcome: Result<TunnelInner, RpcError>) -> (r:
        Result<Forwarder<Self::Tunnel>, RpcError>)
        requires
            self.has_session(),
        ensures
            match outcome {
                Ok(inner) => match r {
                    Ok(f) => f.listener == inner.listener && f.info == inner.info && f.proto@
                        == self.bind_view().proto && f.to_url@ == to_url@,
                    Err(_) => false,
                },
                Err(e) => r == Err::<Forwarder<Self::Tunnel>, RpcError>(e),
            },
    ;
}

/// Option bundles that can take a forwards-to override: the forward-binding
/// path sets the destination's textual form on a copy of the bundle.
pub trait ForwardsTo: TunnelConfig + Sized {
    /// A copy of this bundle whose forwards-to label is `to`; every other
    /// part of the configuration is kept.
    fn with_forwards_to(&self, to: &String) -> (r: Self)
        ensures
            r.cfg() == (ConfigView { forwards_to: Some(to@), ..self.cfg() }),
    ;
}

/// One builder for every wire protocol: the option-bundle type `C` decides
/// the protocol identifier and middleware (through [`TunnelConfig`]), and the
/// produced wrapper type is [`TunnelHandle`]`<C>`. Construction, binding and
/// forward-binding are implemented once, here.
pub struct Builder<C> {
    /// The option bundle; owned, configured by the caller between binds.
    pub options: C,
    /// The owning session; only absent in test contexts.
    pub session: Option<SessionHandle>,
}

/// The protocol-specific tunnel wrapper produced by [`Builder`]`<C>`.
pub struct TunnelHandle<C> {
    pub inner: TunnelInner,
    pub marker: PhantomData<C>,
}

impl<C> TunnelHandle<C> {
    /// Hand the bound listener and the tunnel's metadata off; the wrapper is
    /// consumed, as the listener has exactly one owner from here on.
    pub fn split_listener(self) -> (r: (ListenerHandle, TunnelInfo))
        ensures
            r.0 == self.inner.listener,
            r.1 == self.inner.info,
    {
        (self.inner.listener, self.inner.info)
    }
}

impl<C: TunnelConfig> Builder<C> {
    /// A builder bound to the given session, with the given options (callers
    /// start from the bundle's default and configure it fluently).
    pub fn from_session(session: SessionHandle, options: C) -> (r: Builder<C>)
        ensures
            r.options == options,
            r.session == Some(session),
    {
        Builder { options, session: Some(session) }
    }
}

impl<C: TunnelConfig> TunnelBuilder for Builder<C> {
    type Tunnel = TunnelHandle<C>;

    open spec fn has_session(&self) -> bool {
        self.session is Some
    }

    open spec fn bind_view(&self) -> BindRequestView {
        resolved_request(self.options.cfg(), session_identity(self.session))
    }

    open spec fn wrapped(&self, inner: TunnelInner) -> TunnelHandle<C> {
        TunnelHandle { inner, marker: PhantomData }
    }

    fn bind_request(&self) -> (r: BindRequest) {
        let forwards_to = match self.options.forwards_to() {
            Some(f) => f,
            None => {
                let session = self.session.as_ref().unwrap();
                session.identity.clone()
            },
        };
        let r = BindRequest {
            forwards_to,
            extra: self.options.extra(),
            proto: self.options.proto(),
            opts: self.options.opts(),
            labels: self.options.labels(),
        };
        proof {
            assert(r@ =~= self.bind_view());
        }
        r
    }

    fn complete_listen(&self, outcome: Result<TunnelInner, RpcError>) -> (r: Result<
        TunnelHandle<C>,
        RpcError,
    >) {
        match outcome {
            Ok(inner) => Ok(TunnelHandle { inner, marker: PhantomData }),
            Err(e) => Err(e),
        }
    }
}

impl<C: ForwardsTo> ForwarderBuilder for Builder<C> {
    fn forward_plan(&self, to_url: &String) -> (b: Self) {
        let b = Builder {
            options: self.options.with_forwards_to(to_url),
            session: match &self.session {
                Some(s) => Some(s.clone()),
                None => None,
            },
        };
        proof {
            assert(b.bind_view() =~= (BindRequestView {
                forwards_to: to_url@,
                ..self.bind_view()
            }));
        }
        b
    }

    fn complete_forward(&self, to_url: String, outcome: Result<TunnelInner, RpcError>) -> (r:
        Result<Forwarder<TunnelHandle<C>>, RpcError>) {
        match self.complete_listen(outcome) {
            Ok(tunnel) => {
                let (listener, info) = tunnel.split_listener();
                Ok(
                    Forwarder {
                        listener,
                        info,
                        proto: self.options.proto(),
                        to_url,
                        marker: PhantomData,
                    },
                )
            },
            Err(e) => Err(e),
        }
    }
}

/// Two builders generated by the mechanism for different protocols, given
/// equivalent option contents and the same agent identity, bind with requests
/// that differ only in the reported protocol identifier. Everything else
/// about their bind and forward transitions is the one shared implementation
/// above; only the wrapper's type parameter differs.
pub proof fn lemma_protocol_independence<C1: TunnelConfig, C2: TunnelConfig>(
    b1: Builder<C1>,
    b2: Builder<C2>,
)
    requires
        b1.options.cfg().forwards_to == b2.options.cfg().forwards_to,
        b1.options.cfg().extra_metadata == b2.options.cfg().extra_metadata,
        b1.options.cfg().opts == b2.options.cfg().opts,
        b1.options.cfg().labels == b2.options.cfg().labels,
        session_identity(b1.session) == session_identity(b2.session),
    ensures
        b2.bind_view() == (BindRequestView { proto: b2.options.cfg().proto, ..b1.bind_view() }),
{
    assert(b2.bind_view() =~= (BindRequestView {
        proto: b2.options.cfg().proto,
        ..b1.bind_view()
    }));
}

} // verus!
