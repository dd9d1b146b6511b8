//! A minimal authenticated client for the Kubernetes HTTP API, without the
//! network: what to ask a cluster, and what its answer means.

pub mod endpoint;
pub mod error;
pub mod request;
pub mod kluster;
pub mod json;
pub mod instant;
pub mod decode;
pub mod objects;
pub mod trust;
