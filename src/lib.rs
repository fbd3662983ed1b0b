//! A Kubernetes operator core that exposes LoadBalancer services through
//! reverse tunnels to exit nodes, optionally provisioned on cloud providers.
//!
//! The crate holds the operator's decisions as verified functions over plain
//! values; talking to the API server and to cloud APIs is left to the caller.
pub mod address;
pub mod cloud;
pub mod daemon;
pub mod deployment;
pub mod error;
pub mod kv;
pub mod ops;
pub mod search;
pub mod service;
pub mod text;
