//! Plain payloads of the execution control plane.
//!
//! The control plane is an outside collaborator reached over the network;
//! the gateway forwards execution requests to it and answers from it.
//! These are the values that cross that boundary, and the bodies the
//! execution routes accept and produce.

use vstd::prelude::*;

use std::collections::HashMap;

verus! {

#[derive(Debug, Clone)]
pub struct CreateExecutionRequest {
    pub code: String,
    pub language: String,
    pub environment: HashMap<String, String>,
}

#[derive(Debug, Clone, PartialEq, Eq)]
pub struct CreateExecutionResponse {
    pub execution_id: String,
}

#[derive(Debug, Clone, PartialEq, Eq)]
pub struct GetExecutionRequest {
    pub execution_id: String,
}

#[derive(Debug, Clone, PartialEq, Eq)]
pub struct GetExecutionResponse {
    pub execution_id: String,
    pub status: String,
    pub output: Option<String>,
    pub error: Option<String>,
}

#[derive(Debug, Clone, PartialEq, Eq)]
pub struct CancelExecutionRequest {
    pub execution_id: String,
}

#[derive(Debug, Clone, PartialEq, Eq)]
pub struct CancelExecutionResponse {
    pub success: bool,
}

/// Body of a request to start an execution.
#[derive(Debug, Clone)]
pub struct CreateExecutionPayload {
    pub code: String,
    pub language: String,
    pub environment: Option<HashMap<String, String>>,
}

/// Body answered when an execution is created.
#[derive(Debug, Clone, PartialEq, Eq)]
pub struct ExecutionResponse {
    pub id: String,
    pub status: String,
    pub created_at: String,
}

} // verus!
