//! The boundary between a client and the HTTP manager that performs its
//! requests: what is handed over, and what comes back.
//!
//! The manager itself (connections, signing, retries, rate limits, decoding)
//! lives outside this crate. A client describes a request completely before
//! it hands it over and never touches it afterwards.

use crate::endpoints::v5market::MarketEnum;
use std::collections::HashMap;
use vstd::prelude::*;

verus! {

/// `serde_json::Value`, the decoded body of a response: a tree of objects,
/// arrays and scalars without a schema. Nothing is claimed about what is
/// inside one; a client carries it from the manager to its caller.
#[verifier::external_type_specification]
#[verifier::external_body]
pub struct ExValue(serde_json::Value);

/// The HTTP verbs of the exchange's REST API: reads are `GET`, writes are
/// `POST`.
#[derive(Clone, Copy, Debug, PartialEq, Eq, Structural)]
pub enum HttpVerb {
    Get,
    Post,
}

/// A request as the HTTP manager takes it.
#[derive(Clone, Debug, PartialEq, Eq)]
pub struct DispatchRequest {
    /// The HTTP verb.
    pub verb: HttpVerb,
    /// The wire path, below the host.
    pub path: String,
    /// The query parameters, by name.
    pub params: HashMap<String, String>,
    /// Whether the manager has to sign the request.
    pub authenticated: bool,
}

impl DispatchRequest {
    /// Whether this is the read of `operation` with `params`: a signed `GET`
    /// of the operation's wire path that carries the very map `params`, so
    /// every parameter of it under its own name and no other.
    pub open spec fn is_read(&self, operation: MarketEnum, params: HashMap<String, String>) -> bool {
        &&& self.verb == HttpVerb::Get
        &&& self.path@ == operation.path()
        &&& self.params == params
        &&& self.authenticated
    }

    /// Describes the read of `operation` with `params`.
    ///
    /// No parameter is looked at: which names an operation demands is for
    /// the exchange to say.
    pub fn read(operation: MarketEnum, params: HashMap<String, String>) -> (request: Self)
        ensures
            request.is_read(operation, params),
    {
        DispatchRequest {
            verb: HttpVerb::Get,
            path: operation.to_string(),
            params,
            authenticated: true,
        }
    }
}

} // verus!
