//! Per-request handling: a request routed to a handler, the handler reading
//! or writing the store and producing one response. Every per-request error
//! becomes a response; none escapes the dispatch.

use vstd::prelude::*;
use vstd::string::StringExecFns;
use crate::html::{html_list_body, index_page, render_index, render_post_list};
use crate::json::{json_list_body, post_to_json, posts_to_json, row_json};
use crate::router::{route, spec_route, Method, RouteTarget};
use crate::store::Store;
use crate::text::contains_char;

verus! {

/// The media kind of a response body.
#[derive(Clone, Copy, PartialEq, Eq, Structural, Debug)]
pub enum BodyKind {
    Json,
    Html,
    Plain,
}

/// One HTTP response: status code, body kind, body text.
pub struct Response {
    pub status: u16,
    pub kind: BodyKind,
    pub body: String,
}

fn server_error() -> (resp: Response)
    ensures
        resp.status == 500,
        resp.body@ == "Internal Server Error"@,
{
    Response {
        status: 500,
        kind: BodyKind::Plain,
        body: String::from_str("Internal Server Error"),
    }
}

fn client_error() -> (resp: Response)
    ensures
        resp.status == 400,
        resp.body@ == "Bad Request"@,
{
    Response { status: 400, kind: BodyKind::Plain, body: String::from_str("Bad Request") }
}

/// Serves the index page under its fixed title, independent of request and
/// store state.
pub fn index_html() -> (resp: Response)
    ensures
        resp.status == 200,
        resp.kind == BodyKind::Html,
        resp.body@ == index_page("Test"@),
{
    Response { status: 200, kind: BodyKind::Html, body: render_index("Test") }
}

/// Lists the whole feed as a JSON array, in insertion order, without
/// changing it. A store failure surfaces as a server error.
pub fn list_twits(store: &mut Store) -> (resp: Response)
    requires
        old(store).wf(),
    ensures
        final(store).wf(),
        final(store).rows() == old(store).rows(),
        resp.status == 200 || resp.status == 500,
        resp.status == 200 ==> (resp.kind == BodyKind::Json && resp.body@ == json_list_body(
            old(store).rows(),
        )),
{
    match store.list_posts() {
        Ok(v) => {
            let body = posts_to_json(&v, Ghost(store.rows()));
            Response { status: 200, kind: BodyKind::Json, body }
        },
        Err(_) => server_error(),
    }
}

/// Lists the whole feed as a rendered HTML page, in insertion order, without
/// changing it. A store failure surfaces as a server error.
pub fn list_twit_html(store: &mut Store) -> (resp: Response)
    requires
        old(store).wf(),
    ensures
        final(store).wf(),
        final(store).rows() == old(store).rows(),
        resp.status == 200 || resp.status == 500,
        resp.status == 200 ==> (resp.kind == BodyKind::Html && resp.body@ == html_list_body(
            old(store).rows(),
        )),
{
    match store.list_posts() {
        Ok(v) => {
            let body = render_post_list(&v, Ghost(store.rows()));
            Response { status: 200, kind: BodyKind::Html, body }
        },
        Err(_) => server_error(),
    }
}

/// Creates one post. A missing `content` field, an unknown caller address,
/// or text holding a NUL character (which the engine cannot store exactly)
/// is a client error, rejected before the store is touched. Otherwise the
/// post is inserted with the caller's address as its author, and on success
/// the created row — id and creation time populated by the store — is
/// returned as JSON; a store failure surfaces as a server error with the
/// feed unchanged.
pub fn create_twit(
    store: &mut Store,
    remote_addr: Option<&str>,
    form_content: Option<&str>,
) -> (resp: Response)
    requires
        old(store).wf(),
    ensures
        final(store).wf(),
        (form_content is None || remote_addr is None) ==> (resp.status == 400 && final(store).rows() == old(store).rows() && resp.body@ == "Bad Request"@),
        form_content matches Some(c) ==> remote_addr matches Some(a) ==> {
            &&& ((c@.contains('\0') || a@.contains('\0')) ==> (resp.status == 400 && final(store).rows() == old(store).rows() && resp.body@ == "Bad Request"@))
            &&& ((!c@.contains('\0') && !a@.contains('\0')) ==> {
            &&& (resp.status == 200 || resp.status == 500)
            &&& (resp.status == 500 ==> final(store).rows() == old(store).rows())
            &&& (resp.status == 200 ==> {
                &&& resp.kind == BodyKind::Json
                &&& final(store).rows().len() == old(store).rows().len() + 1
                &&& final(store).rows().drop_last() == old(store).rows()
                &&& final(store).rows().last().user == a@
                &&& final(store).rows().last().content == c@
                &&& (forall|i: int|
                    0 <= i < old(store).rows().len() ==> old(store).rows()[i].id < final(store).rows().last().id)
                &&& resp.body@ == row_json(final(store).rows().last())
            })
            })
        },
{
    match (remote_addr, form_content) {
        (Some(addr), Some(content)) => {
            if contains_char(addr, '\0') || contains_char(content, '\0') {
                return client_error();
            }
            match store.insert_post(addr, content) {
                Ok(p) => {
                    let body = post_to_json(&p);
                    proof {
                        assert(p.matches_row(store.rows().last()));
                        assert(body@ == row_json(store.rows().last()));
                    }
                    Response { status: 200, kind: BodyKind::Json, body }
                },
                Err(_) => server_error(),
            }
        },
        _ => client_error(),
    }
}

/// Dispatches one request: exactly one handler runs, selected by `route`,
/// and its response is returned. An unregistered (method, path) pair yields
/// the not-found response, never a server error, and reads never change the
/// feed.
pub fn handle(
    store: &mut Store,
    method: Method,
    path: &str,
    remote_addr: Option<&str>,
    form_content: Option<&str>,
) -> (resp: Response)
    requires
        old(store).wf(),
    ensures
        final(store).wf(),
        resp.status == 200 || resp.status == 400 || resp.status == 404 || resp.status == 500,
        spec_route(method, path@) == RouteTarget::NotFound ==> (resp.status == 404 && final(store).rows() == old(store).rows() && resp.body@ == "Not Found"@),
        spec_route(method, path@) == RouteTarget::IndexPage ==> (resp.status == 200 && resp.kind
            == BodyKind::Html && resp.body@ == index_page("Test"@) && final(store).rows() == old(
            store,
        ).rows()),
        spec_route(method, path@) == RouteTarget::ListJson ==> (final(store).rows() == old(
            store,
        ).rows() && (resp.status == 200 || resp.status == 500) && (resp.status == 200 ==> (
        resp.kind == BodyKind::Json && resp.body@ == json_list_body(old(store).rows())))),
        spec_route(method, path@) == RouteTarget::ListHtml ==> (final(store).rows() == old(
            store,
        ).rows() && (resp.status == 200 || resp.status == 500) && (resp.status == 200 ==> (
        resp.kind == BodyKind::Html && resp.body@ == html_list_body(old(store).rows())))),
        spec_route(method, path@) == RouteTarget::CreateTwit ==> {
            &&& ((form_content is None || remote_addr is None) ==> (resp.status == 400 && final(store).rows() == old(store).rows() && resp.body@ == "Bad Request"@))
            &&& (form_content matches Some(c) ==> remote_addr matches Some(a) ==> {
                &&& ((c@.contains('\0') || a@.contains('\0')) ==> (resp.status == 400 && final(store).rows() == old(store).rows() && resp.body@ == "Bad Request"@))
                &&& ((!c@.contains('\0') && !a@.contains('\0')) ==> {
                &&& (resp.status == 200 || resp.status == 500)
                &&& (resp.status == 500 ==> final(store).rows() == old(store).rows())
                &&& (resp.status == 200 ==> {
                    &&& resp.kind == BodyKind::Json
                    &&& final(store).rows().len() == old(store).rows().len() + 1
                    &&& final(store).rows().drop_last() == old(store).rows()
                    &&& final(store).rows().last().user == a@
                    &&& final(store).rows().last().content == c@
                    &&& (forall|i: int|
                        0 <= i < old(store).rows().len() ==> old(store).rows()[i].id < final(store).rows().last().id)
                    &&& resp.body@ == row_json(final(store).rows().last())
                })
                })
            })
        },
{
    match route(method, path) {
        RouteTarget::IndexPage => index_html(),
        RouteTarget::ListJson => list_twits(store),
        RouteTarget::ListHtml => list_twit_html(store),
        RouteTarget::CreateTwit => create_twit(store, remote_addr, form_content),
        RouteTarget::NotFound => Response {
            status: 404,
            kind: BodyKind::Plain,
            body: String::from_str("Not Found"),
        },
    }
}

} // verus!
