//! Plain payloads of the memory/search service.
//!
//! The memory service is an outside collaborator reached over the network;
//! the gateway forwards store, search and query requests to it.  Search
//! answers carry scored results whose scores the gateway never reads, so
//! they stay with the transport, outside the library.

use vstd::prelude::*;

use std::collections::HashMap;

verus! {

#[derive(Debug, Clone)]
pub struct StoreRequest {
    pub namespace: String,
    pub content: String,
    pub metadata: HashMap<String, String>,
}

#[derive(Debug, Clone, PartialEq, Eq)]
pub struct StoreResponse {
    pub id: String,
    pub success: bool,
}

#[derive(Debug, Clone, PartialEq, Eq)]
pub struct SearchRequest {
    pub namespace: String,
    pub query: String,
    pub limit: i32,
}

#[derive(Debug, Clone, PartialEq, Eq)]
pub struct QueryRequest {
    pub namespace: String,
    pub omni_query: String,
}

/// Body of a request to store a memory record.
#[derive(Debug, Clone)]
pub struct StoreMemoryPayload {
    pub namespace: String,
    pub content: String,
    pub metadata: Option<HashMap<String, String>>,
}

/// Body of a search request; the result count falls back to a default
/// when absent.
#[derive(Debug, Clone, PartialEq, Eq)]
pub struct SearchMemoryPayload {
    pub namespace: String,
    pub query: String,
    pub limit: Option<i32>,
}

/// Body of a structured query request.
#[derive(Debug, Clone, PartialEq, Eq)]
pub struct QueryMemoryPayload {
    pub namespace: String,
    pub omni_query: String,
}

} // verus!
