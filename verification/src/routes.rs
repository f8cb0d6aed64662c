//! The route table: a stateless mapping from (HTTP method, path) pairs to
//! the four endpoints the service exposes.

use vstd::prelude::*;
use crate::text::str_eq;

verus! {

/// The four endpoints of the service.
#[derive(Clone, Copy, Debug, PartialEq, Eq, Structural)]
pub enum Endpoint {
    Hello,
    Health,
    ListUsers,
    CreateUser,
}

/// The fixed route table: which endpoint, if any, serves a given method
/// and path.
pub open spec fn route_of(method: Seq<char>, path: Seq<char>) -> Option<Endpoint> {
    if method == "GET"@ && path == "/"@ {
        Some(Endpoint::Hello)
    } else if method == "GET"@ && path == "/health"@ {
        Some(Endpoint::Health)
    } else if method == "GET"@ && path == "/users"@ {
        Some(Endpoint::ListUsers)
    } else if method == "POST"@ && path == "/users"@ {
        Some(Endpoint::CreateUser)
    } else {
        None
    }
}

/// Selects the endpoint that serves `method` and `path`, or `None` for a
/// request that no route matches.
pub fn route(method: &str, path: &str) -> (r: Option<Endpoint>)
    ensures
        r == route_of(method@, path@),
{
    if str_eq(method, "GET") {
        if str_eq(path, "/") {
            Some(Endpoint::Hello)
        } else if str_eq(path, "/health") {
            Some(Endpoint::Health)
        } else if str_eq(path, "/users") {
            Some(Endpoint::ListUsers)
        } else {
            None
        }
    } else if str_eq(method, "POST") && str_eq(path, "/users") {
        Some(Endpoint::CreateUser)
    } else {
        None
    }
}

} // verus!
