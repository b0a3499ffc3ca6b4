//! The request router: a deterministic mapping from (HTTP method, exact
//! path) to exactly one handler.

use vstd::prelude::*;
use crate::text::str_eq;

verus! {

/// The HTTP methods the router distinguishes.
#[derive(Clone, Copy, PartialEq, Eq, Structural, Debug)]
pub enum Method {
    Get,
    Post,
}

/// The handler a request is dispatched to. `NotFound` is the router's only
/// error path: no registered route matched.
#[derive(Clone, Copy, PartialEq, Eq, Structural, Debug)]
pub enum RouteTarget {
    IndexPage,
    ListJson,
    CreateTwit,
    ListHtml,
    NotFound,
}

/// The registered dispatch table: `GET /twits` lists the feed as JSON,
/// `POST /twits` creates a post, `GET /twits_html` lists the feed as HTML,
/// `GET /` serves the index page; anything else is unmatched.
pub open spec fn spec_route(m: Method, path: Seq<char>) -> RouteTarget {
    if m == Method::Get && path == "/twits"@ {
        RouteTarget::ListJson
    } else if m == Method::Post && path == "/twits"@ {
        RouteTarget::CreateTwit
    } else if m == Method::Get && path == "/twits_html"@ {
        RouteTarget::ListHtml
    } else if m == Method::Get && path == "/"@ {
        RouteTarget::IndexPage
    } else {
        RouteTarget::NotFound
    }
}

/// Selects the handler for a request: first exact match on method and path
/// wins. An unregistered (method, path) pair yields `NotFound`, never a
/// server error.
pub fn route(m: Method, path: &str) -> (t: RouteTarget)
    ensures
        t == spec_route(m, path@),
{
    if str_eq(path, "/twits") {
        if m == Method::Get {
            RouteTarget::ListJson
        } else {
            RouteTarget::CreateTwit
        }
    } else if str_eq(path, "/twits_html") && m == Method::Get {
        RouteTarget::ListHtml
    } else if str_eq(path, "/") && m == Method::Get {
        RouteTarget::IndexPage
    } else {
        RouteTarget::NotFound
    }
}

} // verus!
