//! Edge request gateway for a streaming service that samples media segment
//! requests for per-session audio watermarking.
//!
//! The gateway authenticates every request with a signed token, forwards
//! manifests untouched, and sends a sampled share of media segments through a
//! watermarking backend. Any failure of the watermarking hop degrades to the
//! unmodified segment: watermarking is an enhancement, never a condition of
//! playback.
//!
//! The gateway is a machine ([`gateway`]): its host reports events (a request,
//! the result of a lookup or of a backend call) and performs the actions that
//! the gateway answers with. Lookups and backend calls are the host's; every
//! decision is the gateway's, and [`laws`] states what holds of every run.
//!
//! Tokens are signed with a key derived from the master secret and the API
//! key that the gateway's own store holds ([`secret`], [`token`]). A key that
//! a client sends along is never used to verify that client's token.
//!
//! [`provision`] and [`documents`] hold what the provisioning of a deployment
//! computes: its settings file, the entries of its stores, and what it reads
//! out of the deployment tool's output.

pub mod config;
pub mod documents;
pub mod gateway;
pub mod headers;
pub mod json;
pub mod laws;
pub mod message;
pub mod provision;
pub mod query;
pub mod route;
pub mod sampling;
pub mod secret;
pub mod text;
pub mod token;
