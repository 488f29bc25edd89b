//! The decisions of the static-page responder that runs as pool jobs: which
//! page a request line asks for, and the bytes of the reply.
use vstd::prelude::*;
use vstd::string::StringExecFns;

verus! {

/// What a request line asks for.
#[derive(PartialEq, Eq, Structural, Clone, Copy, Debug)]
pub enum Route {
    /// `GET /`: the greeting page.
    Hello,
    /// `GET /sleep`: the greeting page, after a pause.
    SlowHello,
    /// Anything else: the not-found page.
    NotFound,
}

/// The route of a request line: only an exact match selects a page.
pub open spec fn route_of(line: Seq<char>) -> Route {
    if line == "GET / HTTP/1.1"@ {
        Route::Hello
    } else if line == "GET /sleep HTTP/1.1"@ {
        Route::SlowHello
    } else {
        Route::NotFound
    }
}

/// The route of a request line, compared whole.
pub fn route(request_line: &String) -> (r: Route)
    ensures
        r == route_of(request_line@),
{
    let root = "GET / HTTP/1.1".to_owned();
    let slow = "GET /sleep HTTP/1.1".to_owned();
    if *request_line == root {
        Route::Hello
    } else if *request_line == slow {
        Route::SlowHello
    } else {
        Route::NotFound
    }
}

/// The status line of the reply to a route.
pub fn status_line(r: Route) -> (s: &'static str)
    ensures
        s@ == (if r == Route::NotFound {
            "HTTP/1.1 400 NOT FOUND"@
        } else {
            "HTTP/1.1 200 OK"@
        }),
{
    match r {
        Route::NotFound => "HTTP/1.1 400 NOT FOUND",
        _ => "HTTP/1.1 200 OK",
    }
}

/// The page that answers a route, as a path relative to the server's root.
pub fn page_file(r: Route) -> (s: &'static str)
    ensures
        s@ == (if r == Route::NotFound {
            "webpages/404.html"@
        } else {
            "webpages/hello.html"@
        }),
{
    match r {
        Route::NotFound => "webpages/404.html",
        _ => "webpages/hello.html",
    }
}

/// The decimal digits of `n`, most significant first, with no leading zero.
pub open spec fn decimal_of(n: nat) -> Seq<char>
    decreases n,
{
    if n < 10 {
        seq![digit_char(n)]
    } else {
        decimal_of(n / 10).push(digit_char(n % 10))
    }
}

/// The character of a decimal digit.
pub open spec fn digit_char(d: nat) -> char {
    (d + '0' as nat) as char
}

/// Relies on `usize`'s `Display`, through `ToString::to_string`: the number in
/// decimal, without sign or padding.
#[verifier::external_body]
fn decimal(n: usize) -> (r: String)
    ensures
        r@ == decimal_of(n as nat),
{
    n.to_string()
}

/// The full reply: the status line, a `Content-Length` header giving the
/// body's length in bytes, a blank line, then the body.
pub fn response(status: &str, contents: &str) -> (r: String)
    ensures
        r@ == status@ + "\r\nContent-Length: "@ + decimal_of(contents.len() as nat) + "\r\n\r\n"@
            + contents@,
{
    let mut r = String::new();
    r.append(status);
    assert(r@ =~= status@);
    r.append("\r\nContent-Length: ");
    let length = decimal(contents.len());
    r.append(length.as_str());
    r.append("\r\n\r\n");
    r.append(contents);
    r
}

} // verus!
