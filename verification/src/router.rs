//! The router: three fixed pages, found by their exact path.

use vstd::prelude::*;
use vstd::string::StringExecFns;
use crate::envelope::{ResponseMessage, OK};
use crate::rejection::Rejection;
use crate::text::same_text;

verus! {

/// The method of a request.
#[derive(Clone, Copy, Debug, PartialEq, Eq, Structural)]
pub enum Method {
    Get,
    Head,
    Post,
    Put,
    Delete,
    Connect,
    Options,
    Trace,
    Patch,
    /// A method that has no standard name.
    Other,
}

/// The pages that the service has.
#[derive(Clone, Copy, Debug, PartialEq, Eq, Structural)]
pub enum Route {
    /// `/`
    Index,
    /// `/channel`
    Channel,
    /// `/example`
    Example,
}

/// The page registered for a path: the path is matched whole and as it is
/// written, and the pages are tried in the order index, channel, example.
pub open spec fn spec_match_path(path: Seq<char>) -> Option<Route> {
    if path == "/"@ {
        Some(Route::Index)
    } else if path == "/channel"@ {
        Some(Route::Channel)
    } else if path == "/example"@ {
        Some(Route::Example)
    } else {
        None
    }
}

/// The method that a name stands for. Names are matched as they are
/// written, in upper case; any other name is an unknown method.
pub open spec fn spec_method_of(name: Seq<char>) -> Method {
    if name == "GET"@ {
        Method::Get
    } else if name == "HEAD"@ {
        Method::Head
    } else if name == "POST"@ {
        Method::Post
    } else if name == "PUT"@ {
        Method::Put
    } else if name == "DELETE"@ {
        Method::Delete
    } else if name == "CONNECT"@ {
        Method::Connect
    } else if name == "OPTIONS"@ {
        Method::Options
    } else if name == "TRACE"@ {
        Method::Trace
    } else if name == "PATCH"@ {
        Method::Patch
    } else {
        Method::Other
    }
}

/// The method is accepted by the pages: all of them answer to `GET` alone.
pub open spec fn spec_allows(method: Method) -> bool {
    method == Method::Get
}

/// The characters of an optional text.
pub open spec fn text_of(stored: Option<&str>) -> Option<Seq<char>> {
    match stored {
        Some(value) => Some(value@),
        None => None,
    }
}

/// The message of a page. The index page shows the value read back from the
/// store after a colon where a store is configured (`stored` is `Some`; the
/// value is empty where the store failed), and its bare title where none is.
pub open spec fn page_message(route: Route, stored: Option<Seq<char>>) -> Seq<char> {
    match route {
        Route::Index => match stored {
            Some(value) => "Index page: "@ + value,
            None => "Index page"@,
        },
        Route::Channel => "Channel page"@,
        Route::Example => "Example page"@,
    }
}

/// Reads a method from its name on the request line.
pub fn method_of(name: &str) -> (r: Method)
    ensures
        r == spec_method_of(name@),
{
    if same_text(name, "GET") {
        Method::Get
    } else if same_text(name, "HEAD") {
        Method::Head
    } else if same_text(name, "POST") {
        Method::Post
    } else if same_text(name, "PUT") {
        Method::Put
    } else if same_text(name, "DELETE") {
        Method::Delete
    } else if same_text(name, "CONNECT") {
        Method::Connect
    } else if same_text(name, "OPTIONS") {
        Method::Options
    } else if same_text(name, "TRACE") {
        Method::Trace
    } else if same_text(name, "PATCH") {
        Method::Patch
    } else {
        Method::Other
    }
}

/// Finds the page registered for a path.
pub fn match_path(path: &str) -> (r: Option<Route>)
    ensures
        r == spec_match_path(path@),
{
    if same_text(path, "/") {
        Some(Route::Index)
    } else if same_text(path, "/channel") {
        Some(Route::Channel)
    } else if same_text(path, "/example") {
        Some(Route::Example)
    } else {
        None
    }
}

/// Whether the pages accept a method.
pub fn allows(method: Method) -> (r: bool)
    ensures
        r == spec_allows(method),
{
    method == Method::Get
}

/// The success envelope of a page.
pub fn page(route: Route, stored: Option<&str>) -> (r: ResponseMessage)
    ensures
        r.code == OK,
        r.message@ == page_message(route, text_of(stored)),
{
    let message = match route {
        Route::Index => match stored {
            Some(value) => "Index page: ".to_owned().concat(value),
            None => "Index page".to_owned(),
        },
        Route::Channel => "Channel page".to_owned(),
        Route::Example => "Example page".to_owned(),
    };
    ResponseMessage { code: OK, message }
}

/// Routes a request: the envelope of the page registered for the path, where
/// there is one and the method is accepted; else the rejection, which is
/// `NotFound` for a path that has no page, whatever the method, and
/// `MethodNotAllowed` for a known path asked for with another method than
/// `GET`. `stored` is what the index page shows of the store.
pub fn route(method: Method, path: &str, stored: Option<&str>) -> (r: Result<
    ResponseMessage,
    Rejection,
>)
    ensures
        match spec_match_path(path@) {
            None => r is Err && r->Err_0 is NotFound,
            Some(found) => if spec_allows(method) {
                &&& r is Ok
                &&& r->Ok_0.code == OK
                &&& r->Ok_0.message@ == page_message(found, text_of(stored))
            } else {
                r is Err && r->Err_0 is MethodNotAllowed
            },
        },
{
    match match_path(path) {
        None => Err(Rejection::NotFound),
        Some(found) => if allows(method) {
            Ok(page(found, stored))
        } else {
            Err(Rejection::MethodNotAllowed)
        },
    }
}

} // verus!
