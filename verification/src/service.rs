//! The whole path of a request: the router first, and the rejection mapper
//! for what the router turns down.

use vstd::prelude::*;
use crate::envelope::{Body, Reply};
use crate::envelope::{METHOD_NOT_ALLOWED, NOT_FOUND, OK};
use crate::rejection::{handle_rejection, Rejection, Signal};
use crate::router::{page_message, route, spec_allows, spec_match_path, text_of, Method, Route};
use crate::text::is_substring;

verus! {

/// The port that the service listens on.
pub const PORT: u16 = 3030;

/// The address that the service listens on: the loopback interface alone.
pub fn bind_address() -> (r: ([u8; 4], u16))
    ensures
        r.0@ == seq![127u8, 0u8, 0u8, 1u8],
        r.1 == PORT,
{
    ([127, 0, 0, 1], PORT)
}

/// The status that a request is answered with.
pub open spec fn reply_status(method: Method, path: Seq<char>) -> u16 {
    match spec_match_path(path) {
        None => NOT_FOUND,
        Some(_) => if spec_allows(method) {
            OK
        } else {
            METHOD_NOT_ALLOWED
        },
    }
}

/// The message that a request is answered with.
pub open spec fn reply_message(
    method: Method,
    path: Seq<char>,
    stored: Option<Seq<char>>,
) -> Seq<char> {
    match spec_match_path(path) {
        None => "Page not found."@,
        Some(found) => if spec_allows(method) {
            page_message(found, stored)
        } else {
            "METHOD_NOT_ALLOWED"@
        },
    }
}

/// The path that a page is registered for.
pub open spec fn route_path(route: Route) -> Seq<char> {
    match route {
        Route::Index => "/"@,
        Route::Channel => "/channel"@,
        Route::Example => "/example"@,
    }
}

/// Answers a request. A request that the router accepts gets status 200 and
/// the page's envelope; one that it turns down gets the reply of the
/// rejection mapper. Nothing is left for the diagnostic stream either way.
pub fn respond(method: Method, path: &str, stored: Option<&str>) -> (r: Reply)
    ensures
        r.well_formed(),
        r.status == reply_status(method, path@),
        r.body.spec_message() == reply_message(method, path@, text_of(stored)),
        r.diagnostic is None,
{
    match route(method, path, stored) {
        Ok(message) => Reply { status: message.code, body: Body::Success(message), diagnostic: None },
        Err(rejection) => handle_rejection(&rejection),
    }
}

/// Answers a failure signal of the HTTP framework: the reply of the
/// rejection mapper to the reason that the signal stands for.
pub fn recover(signal: Signal) -> (r: Reply)
    ensures
        r.well_formed(),
        r.body is Error,
        r.status == signal.spec_classify().spec_status(),
        r.body.spec_message() == signal.spec_classify().spec_message(),
        r.spec_diagnostic() == signal.spec_classify().spec_diagnostic(),
{
    let rejection = signal.classify();
    handle_rejection(&rejection)
}

/// The three paths are three different texts.
pub proof fn route_paths_differ(a: Route, b: Route)
    ensures
        route_path(a) == route_path(b) ==> a == b,
{
    reveal_strlit("/");
    reveal_strlit("/channel");
    reveal_strlit("/example");
    if a != b && route_path(a) == route_path(b) {
        assert(route_path(a).len() == route_path(b).len());
        assert(route_path(a)[1] == route_path(b)[1]);
    }
}

/// A `GET` request for the path of a page is answered with status 200 and
/// the message of that page; with no store configured the message is the
/// page's title.
pub proof fn fixed_routes_answer_ok(found: Route, stored: Option<Seq<char>>)
    ensures
        spec_match_path(route_path(found)) == Some(found),
        reply_status(Method::Get, route_path(found)) == 200,
        reply_message(Method::Get, route_path(found), stored) == page_message(found, stored),
        reply_message(Method::Get, route_path(found), None) == match found {
            Route::Index => "Index page"@,
            Route::Channel => "Channel page"@,
            Route::Example => "Example page"@,
        },
{
    route_paths_differ(found, Route::Index);
    route_paths_differ(found, Route::Channel);
    route_paths_differ(found, Route::Example);
}

/// A request is answered with one of three statuses: 200 where the path is
/// that of a page and the method is `GET`, 405 where the path is that of a
/// page and the method is another, 404 where the path is no page's.
pub proof fn requests_answer_known_statuses(method: Method, path: Seq<char>)
    ensures
        reply_status(method, path) == 200 || reply_status(method, path) == 404
            || reply_status(method, path) == 405,
        reply_status(method, path) == 200 <==> (exists|found: Route| path == route_path(found))
            && method == Method::Get,
        reply_status(method, path) == 405 <==> (exists|found: Route| path == route_path(found))
            && method != Method::Get,
{
    if path == "/"@ {
        assert(path == route_path(Route::Index));
    } else if path == "/channel"@ {
        assert(path == route_path(Route::Channel));
    } else if path == "/example"@ {
        assert(path == route_path(Route::Example));
    } else {
        assert forall|found: Route| path != route_path(found) by {}
    }
}

/// A request for any path other than the three of the pages is answered
/// with status 404 and the message `Page not found.`, whatever its method.
pub proof fn unknown_paths_answer_not_found(
    method: Method,
    path: Seq<char>,
    stored: Option<Seq<char>>,
)
    requires
        path != "/"@,
        path != "/channel"@,
        path != "/example"@,
    ensures
        reply_status(method, path) == 404,
        reply_message(method, path, stored) == "Page not found."@,
{
}

/// A request for the path of a page with any method but `GET` is answered
/// with status 405 and the message `METHOD_NOT_ALLOWED`.
pub proof fn other_methods_answer_not_allowed(
    method: Method,
    found: Route,
    stored: Option<Seq<char>>,
)
    requires
        method != Method::Get,
    ensures
        reply_status(method, route_path(found)) == 405,
        reply_message(method, route_path(found), stored) == "METHOD_NOT_ALLOWED"@,
{
    fixed_routes_answer_ok(found, stored);
}

/// A body that cannot be read is answered with status 400: with the message
/// `FIELD_ERROR: denom` where the description of the cause holds `denom`,
/// and with `BAD_REQUEST` where it does not or where there is no cause.
pub proof fn unreadable_bodies_answer_bad_request(cause: Option<String>)
    ensures
        (Rejection::BadRequestBody { cause }).spec_status() == 400,
        (Rejection::BadRequestBody { cause }).spec_message() == if cause is Some
            && is_substring(cause->0@, "denom"@) {
            "FIELD_ERROR: denom"@
        } else {
            "BAD_REQUEST"@
        },
        (Rejection::BadRequestBody { cause }).spec_diagnostic() is None,
{
}

/// Every rejection has one of the four error statuses, and only a rejection
/// of unknown kind has 500 and a line for the diagnostic stream.
pub proof fn rejections_answer_errors(err: Rejection)
    ensures
        err.spec_status() == 400 || err.spec_status() == 404 || err.spec_status() == 405
            || err.spec_status() == 500,
        err.spec_status() == 500 <==> err is Unclassified,
        err.spec_diagnostic() is Some <==> err is Unclassified,
{
}

} // verus!
