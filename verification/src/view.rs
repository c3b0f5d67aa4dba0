//! The server-rendered HTML views: a home page built by substituting a
//! title and a body into the base template, and a static login page. Each
//! render is a pure function from fixed input to HTML.

use vstd::prelude::*;
use vstd::string::StringExecFns;

verus! {

/// The base template with `title` and `body` substituted in.
pub fn render_page(title: &str, body: &str) -> (r: String)
    ensures
        r@ == "<!DOCTYPE html><html><head><title>"@ + title@ + "</title></head><body><h1>"@
            + title@ + "</h1><p>"@ + body@ + "</p></body></html>"@,
{
    String::from_str("<!DOCTYPE html><html><head><title>").concat(title).concat(
        "</title></head><body><h1>",
    ).concat(title).concat("</h1><p>").concat(body).concat("</p></body></html>")
}

/// The home page: the base template rendered with a fixed title and a
/// body placeholder; no dynamic data source.
pub fn home() -> (r: String)
    ensures
        r@ == "<!DOCTYPE html><html><head><title>"@ + "ZZZ"@ + "</title></head><body><h1>"@
            + "ZZZ"@ + "</h1><p>"@ + "====="@ + "</p></body></html>"@,
{
    render_page("ZZZ", "=====")
}

/// The static login page; it takes no parameters.
pub fn login() -> (r: String)
    ensures
        r@
            == "<!DOCTYPE html><html><head><title>Login</title></head><body><form method=\"post\"><input name=\"token\" type=\"password\"/><button type=\"submit\">Login</button></form></body></html>"@,
{
    String::from_str(
        "<!DOCTYPE html><html><head><title>Login</title></head><body><form method=\"post\"><input name=\"token\" type=\"password\"/><button type=\"submit\">Login</button></form></body></html>",
    )
}

} // verus!
