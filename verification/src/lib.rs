//! Configuration building for tunnels exposed through a remote tunneling
//! broker: option bundles, their translation into wire-protocol structures,
//! and the generic builder that binds a configuration to the remote edge.

pub mod builder;
pub mod common;
pub mod endpoints;
pub mod identity;
pub mod oauth;
pub mod proto;
