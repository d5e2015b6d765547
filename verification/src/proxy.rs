//! The proxy controller: the gated reverse-proxy decisions. An
//! authenticated request is turned into the upstream URL to fetch; an
//! anonymous one is answered locally with a bounce page and a flash.
//! The fetch itself happens outside the crate; its outcome comes back
//! through `upstream_response`.

use crate::session::{is_authenticated, spec_flash, Jar};
use vstd::prelude::*;
use vstd::string::StrSliceExecFns;
use vstd::string::StringExecFns;

verus! {

/// The flash text set when an anonymous request hits the proxy.
pub open spec fn please_login_msg() -> Seq<char> {
    "Please login"@
}

/// The self-contained bounce page served to anonymous requests: a page
/// the browser lands on (with a 200, so the user can read the flash)
/// that then sends it to the login view.
pub open spec fn redirect_page() -> Seq<char> {
    "<!DOCTYPE html><html><head><meta http-equiv=\"refresh\" content=\"0; url=/login-page\"></head><body><a href=\"/login-page\">Please login</a></body></html>"@
}

/// The generic body served when the upstream fetch fails: the gateway
/// never echoes upstream error detail.
pub open spec fn upstream_error_body() -> Seq<char> {
    "The internal website could not be reached"@
}

/// The upstream base with every trailing `/` removed.
pub open spec fn spec_trim_base(base: Seq<char>) -> Seq<char>
    decreases base.len(),
{
    if base.len() > 0 && base[base.len() - 1] == '/' {
        spec_trim_base(base.drop_last())
    } else {
        base
    }
}

/// The URL fetched for a request: the trimmed upstream base, one `/`,
/// and the inbound path verbatim (empty for the HTML root).
pub open spec fn spec_upstream_url(base: Seq<char>, path: Seq<char>) -> Seq<char> {
    spec_trim_base(base) + "/"@ + path
}

/// What the proxy decides for one request: answer locally with a page
/// body, or fetch this upstream URL.
#[derive(Debug, PartialEq, Eq)]
pub enum ProxyStep {
    Local(String),
    Fetch(String),
}

/// What the gateway returns once the upstream outcome is known.
#[derive(Debug, PartialEq, Eq)]
pub struct ProxyResponse {
    pub status: u16,
    pub body: String,
}

/// Remove every trailing `/` from the upstream base.
pub fn trim_trailing_slashes(base: &str) -> (r: String)
    ensures
        r@ == spec_trim_base(base@),
{
    let len = base.unicode_len();
    let mut end = len;
    proof {
        assert(base@.subrange(0, len as int) =~= base@);
    }
    while end > 0 && base.get_char(end - 1) == '/'
        invariant
            end <= len,
            len == base@.len(),
            spec_trim_base(base@) == spec_trim_base(base@.subrange(0, end as int)),
        decreases end,
    {
        proof {
            assert(base@.subrange(0, end as int).drop_last() =~= base@.subrange(0, end - 1));
        }
        end = end - 1;
    }
    let prefix = base.substring_char(0, end);
    prefix.to_owned()
}

/// Build the upstream URL for one request path.
fn upstream_url(base: &str, path: &str) -> (r: String)
    ensures
        r@ == spec_upstream_url(base@, path@),
{
    let mut url = trim_trailing_slashes(base);
    url.append("/");
    url.append(path);
    url
}

/// The HTML root of the gated proxy. Anonymous: flash `Please login`
/// and answer locally with the bounce page. Authenticated: fetch the
/// upstream root, touching no cookies.
pub fn proxy_html(jar: &mut Jar, base: &str) -> (r: ProxyStep)
    ensures
        old(jar)@.session is None ==> (final(jar)@ == spec_flash(old(jar)@, please_login_msg()) && (
        r matches ProxyStep::Local(body) && body@ == redirect_page())),
        old(jar)@.session is Some ==> (final(jar)@ == old(jar)@ && (r matches ProxyStep::Fetch(url)
            && url@ == spec_upstream_url(base@, Seq::empty()))),
{
    if !is_authenticated(jar) {
        crate::session::flash(jar, "Please login".to_owned());
        return ProxyStep::Local(redirect_page_text());
    }
    let url = upstream_url(base, "");
    proof {
        reveal_strlit("");
        assert(""@ =~= Seq::<char>::empty());
        assert(url@ =~= spec_upstream_url(base@, Seq::empty()));
    }
    ProxyStep::Fetch(url)
}

/// The catch-all of the gated proxy, serving static assets. Anonymous:
/// the same local bounce as the HTML root (the caller labels it as
/// CSS). Authenticated: fetch the upstream at the inbound path taken
/// verbatim, touching no cookies.
pub fn proxy_css(jar: &mut Jar, base: &str, path: &str) -> (r: ProxyStep)
    ensures
        old(jar)@.session is None ==> (final(jar)@ == spec_flash(old(jar)@, please_login_msg()) && (
        r matches ProxyStep::Local(body) && body@ == redirect_page())),
        old(jar)@.session is Some ==> (final(jar)@ == old(jar)@ && (r matches ProxyStep::Fetch(url)
            && url@ == spec_upstream_url(base@, path@))),
{
    if !is_authenticated(jar) {
        crate::session::flash(jar, "Please login".to_owned());
        return ProxyStep::Local(redirect_page_text());
    }
    ProxyStep::Fetch(upstream_url(base, path))
}

/// The bounce page body as a value.
pub fn redirect_page_text() -> (r: String)
    ensures
        r@ == redirect_page(),
{
    "<!DOCTYPE html><html><head><meta http-equiv=\"refresh\" content=\"0; url=/login-page\"></head><body><a href=\"/login-page\">Please login</a></body></html>".to_owned()
}

/// Turn the upstream outcome into the client response: a 2xx upstream
/// answer is propagated with its body and a 200; a connection failure
/// (`None`) or a non-2xx upstream status becomes a 500 with the generic
/// body.
pub fn upstream_response(fetched: Option<(u16, String)>) -> (r: ProxyResponse)
    ensures
        fetched matches Some(p) ==> (200 <= p.0 < 300 ==> (r.status == 200 && r.body@ == p.1@)),
        (match fetched {
            Some(p) => !(200 <= p.0 < 300),
            None => true,
        }) ==> (r.status == 500 && r.body@ == upstream_error_body()),
{
    match fetched {
        Some((status, body)) => {
            if 200 <= status && status < 300 {
                ProxyResponse { status: 200, body }
            } else {
                ProxyResponse {
                    status: 500,
                    body: "The internal website could not be reached".to_owned(),
                }
            }
        },
        None => ProxyResponse {
            status: 500,
            body: "The internal website could not be reached".to_owned(),
        },
    }
}

} // verus!
