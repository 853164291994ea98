//! The favicon-lookup flow: which URL to try, in what order, and what each
//! network outcome leads to.
//!
//! The fetches themselves happen outside this crate; each decision between
//! them stands here.  The flow tries the given URL first; on failure it
//! builds a `www.`-prefixed variant and tries that, falling back to that
//! variant's `/favicon.ico`; and where no variant can be built it falls
//! back to the original URL's default favicon location.

use vstd::prelude::*;
use crate::text::{dec_digits_of, is_prefix_of, str_starts_with, u64_to_decimal};

verus! {

/// The components of a parsed URL, as the flow reads them.
#[derive(Debug, Clone)]
pub struct UrlParts {
    pub scheme: String,
    pub host: Option<String>,
    pub port: Option<u16>,
    pub path: String,
    pub query: Option<String>,
    pub fragment: Option<String>,
}

/// The textual `www.` variant of a URL, rebuilt from its components.
pub open spec fn www_url_text(
    scheme: Seq<char>,
    host: Seq<char>,
    port: Option<u16>,
    path: Seq<char>,
    query: Option<Seq<char>>,
    fragment: Option<Seq<char>>,
) -> Seq<char> {
    let with_port = match port {
        Some(p) => scheme + "://www."@ + host + ":"@ + dec_digits_of(p as int),
        None => scheme + "://www."@ + host,
    };
    let with_query = match query {
        Some(q) => with_port + path + "?"@ + q,
        None => with_port + path,
    };
    match fragment {
        Some(f) => with_query + "#"@ + f,
        None => with_query,
    }
}

/// Builds the `www.` variant to try next: none where the URL has no host
/// or the host already begins with `www.`.
pub fn build_www_url(parts: &UrlParts) -> (r: Option<String>)
    ensures
        parts.host is None ==> r is None,
        parts.host matches Some(h) ==> (if is_prefix_of("www."@, h@) {
            r is None
        } else {
            r matches Some(u) && u@ == www_url_text(
                parts.scheme@,
                h@,
                parts.port,
                parts.path@,
                match parts.query {
                    Some(q) => Some(q@),
                    None => None,
                },
                match parts.fragment {
                    Some(f) => Some(f@),
                    None => None,
                },
            )
        }),
{
    let host = match &parts.host {
        Some(h) => h,
        None => {
            return None;
        },
    };
    if str_starts_with(host.as_str(), "www.") {
        return None;
    }
    let mut url = String::from_str(parts.scheme.as_str()).concat("://www.").concat(host.as_str());
    match parts.port {
        Some(p) => {
            url = url.concat(":").concat(u64_to_decimal(p as u64).as_str());
        },
        None => {},
    }
    url = url.concat(parts.path.as_str());
    match &parts.query {
        Some(q) => {
            url = url.concat("?").concat(q.as_str());
        },
        None => {},
    }
    match &parts.fragment {
        Some(f) => {
            url = url.concat("#").concat(f.as_str());
        },
        None => {},
    }
    Some(url)
}

/// How one fetched favicon listing is read: the first icon wins, and an
/// empty listing is the fixed error around the URL.
pub fn first_favicon_outcome(hrefs: &Vec<String>, url_text: &str) -> (r: Result<String, String>)
    ensures
        hrefs@.len() > 0 ==> (r matches Ok(icon) && icon == hrefs@[0]),
        hrefs@.len() == 0 ==> (r matches Err(m) && m@ == "No icons found by crate for "@
            + url_text@),
{
    if hrefs.len() > 0 {
        Ok(hrefs[0].clone())
    } else {
        Err(String::from_str("No icons found by crate for ").concat(url_text))
    }
}

/// The error text around a fetch that failed outright.
pub fn fetch_error_message(url_text: &str, detail: &str) -> (r: String)
    ensures
        r@ == "get_favicons_from_url failed for "@ + url_text@ + ": "@ + detail@,
{
    String::from_str("get_favicons_from_url failed for ").concat(url_text).concat(": ").concat(
        detail,
    )
}

/// The error text around a URL that could not be parsed at all.
pub fn url_parse_error_message(detail: &str) -> (r: String)
    ensures
        r@ == "Initial URL parse failed: "@ + detail@,
{
    String::from_str("Initial URL parse failed: ").concat(detail)
}

/// What the flow does after the first fetch.
pub enum FaviconStep {
    /// The first fetch succeeded: its icon is the answer.
    Done(String),
    /// Try the carried `www.` variant next.
    TryWww(String),
    /// No variant to try: fall back to the default favicon location.
    TryDefault,
}

/// Reads the first fetch's outcome: success is final, and failure moves to
/// the `www.` variant where one can be built, else to the default
/// location.
pub fn after_initial_attempt(result: Result<String, String>, parts: &UrlParts) -> (r: FaviconStep)
    ensures
        result matches Ok(icon) ==> (r matches FaviconStep::Done(d) && d == icon),
        result is Err ==> (match build_www_candidate(*parts) {
            Some(u) => r matches FaviconStep::TryWww(w) && w@ == u,
            None => r is TryDefault,
        }),
{
    match result {
        Ok(icon) => FaviconStep::Done(icon),
        Err(_) => match build_www_url(parts) {
            Some(u) => FaviconStep::TryWww(u),
            None => FaviconStep::TryDefault,
        },
    }
}

/// The `www.` variant's text, where the flow has one to try.
pub open spec fn build_www_candidate(parts: UrlParts) -> Option<Seq<char>> {
    match parts.host {
        Some(h) => if is_prefix_of("www."@, h@) {
            None
        } else {
            Some(
                www_url_text(
                    parts.scheme@,
                    h@,
                    parts.port,
                    parts.path@,
                    match parts.query {
                        Some(q) => Some(q@),
                        None => None,
                    },
                    match parts.fragment {
                        Some(f) => Some(f@),
                        None => None,
                    },
                ),
            )
        },
        None => None,
    }
}

/// Reads the `www.` fetch's outcome: its icon on success, and that
/// variant's `/favicon.ico` on failure — the flow never fails past this
/// point.
pub fn after_www_attempt(result: Result<String, String>, www_url: &str) -> (r: String)
    ensures
        result matches Ok(icon) ==> r == icon,
        result is Err ==> r@ == www_url@ + "/favicon.ico"@,
{
    match result {
        Ok(icon) => icon,
        Err(_) => String::from_str(www_url).concat("/favicon.ico"),
    }
}

/// Reads the default-location check: its URL where the check produced one,
/// and the summarizing error where even that failed.
pub fn after_default_attempt(
    default_url: Option<String>,
    base_url: &str,
    initial_error: &str,
) -> (r: Result<String, String>)
    ensures
        default_url matches Some(u) ==> (r matches Ok(icon) && icon == u),
        default_url is None ==> (r matches Err(m) && m@ == "All attempts failed for "@ + base_url@
            + ": initial error ("@ + initial_error@
            + "), www attempt failed or was skipped, and default icon path check failed."@),
{
    match default_url {
        Some(u) => Ok(u),
        None => Err(
            String::from_str("All attempts failed for ").concat(base_url).concat(
                ": initial error (",
            ).concat(initial_error).concat(
                "), www attempt failed or was skipped, and default icon path check failed.",
            ),
        ),
    }
}

} // verus!
