//! A backend-agnostic proxy layer for vector-similarity databases.
//!
//! The crate exposes one unified contract for creating collections, inserting
//! embedding records, querying by similarity and inspecting storage usage,
//! together with the decision logic of an adapter for a backend whose native
//! resource model is "index containing namespaces".  All backend network
//! traffic happens outside this crate; the adapter logic here is written over
//! plain values that mirror what the backend hands back, so every translation
//! rule, default-selection policy and error mapping is verified.

pub mod errors;
pub mod models;
pub mod backend;
pub mod pinecone;
pub mod chunking;
