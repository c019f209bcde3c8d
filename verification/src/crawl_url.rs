use vstd::prelude::*;
use vstd::string::StrSliceExecFns;
use vstd::string::StringExecFns;

verus! {

/// An absolute HTTP or HTTPS location, held as its accessible parts:
/// scheme, host, path, and the query string if one is present. The scheme
/// is `http` or `https`, the host is non-empty, and the path begins with
/// `/`. Routing and deduplication read the host and the path alone; the
/// query only travels along so that a fetch asks for the full location.
#[derive(Debug, PartialEq, Eq)]
pub struct CrawlUrl {
    pub scheme: String,
    pub host: String,
    pub path: String,
    pub query: Option<String>,
}

impl CrawlUrl {
    /// A parsed absolute web location: http or https, a host, and a
    /// rooted path.
    pub open spec fn wf(self) -> bool {
        &&& (self.scheme@ == "http"@ || self.scheme@ == "https"@)
        &&& self.host@.len() > 0
        &&& self.path@.len() > 0
        &&& self.path@[0] == '/'
    }

    /// Builds a URL without a query from its parts, accepting exactly the
    /// shapes that `wf` describes and rejecting every other.
    pub fn from_parts(scheme: String, host: String, path: String) -> (r: Option<CrawlUrl>)
        ensures
            match r {
                Some(u) => ({
                    &&& u.wf()
                    &&& u.scheme == scheme
                    &&& u.host == host
                    &&& u.path == path
                    &&& u.query is None
                }),
                None => !(CrawlUrl { scheme, host, path, query: Option::None }).wf(),
            },
    {
        let http = String::from_str("http");
        let https = String::from_str("https");
        let scheme_ok = scheme == http || scheme == https;
        let host_ok = host.as_str().unicode_len() > 0;
        let path_ok = path.as_str().unicode_len() > 0 && path.as_str().get_char(0) == '/';
        if scheme_ok && host_ok && path_ok {
            Some(CrawlUrl { scheme, host, path, query: None })
        } else {
            None
        }
    }
}

/// The view of an optional query string.
pub open spec fn query_view(q: Option<String>) -> Option<Seq<char>> {
    match q {
        Some(s) => Some(s@),
        None => Option::None,
    }
}

/// The parts — scheme, host, path and query — that parsing an absolute URL
/// yields, or nothing where the text does not parse to a URL with a host;
/// parsing depends on the text alone.
pub uninterp spec fn url_parts(text: Seq<char>) -> Option<
    (Seq<char>, Seq<char>, Seq<char>, Option<Seq<char>>),
>;

/// The parts — scheme, host, path and query — that resolving a reference
/// against a base URL yields, or nothing where the base does not parse, the
/// join fails, or the result has no host; resolution depends on the two
/// texts alone.
pub uninterp spec fn url_join_parts(base: Seq<char>, href: Seq<char>) -> Option<
    (Seq<char>, Seq<char>, Seq<char>, Option<Seq<char>>),
>;

/// Relies on url::Url::parse and the scheme, host_str, path and query
/// accessors: the parts of the parsed URL, or absence where parsing fails
/// or the URL has no host.
#[verifier::external_body]
fn parse_url_parts(text: &str) -> (r: Option<(String, String, String, Option<String>)>)
    ensures
        (r matches Some(p) ==> url_parts(text@) == Some((p.0@, p.1@, p.2@, query_view(p.3)))),
        (r is None ==> url_parts(text@) is None),
{
    let u = url::Url::parse(text).ok()?;
    let host = u.host_str()?.to_string();
    let query = u.query().map(|q| q.to_string());
    Some((u.scheme().to_string(), host, u.path().to_string(), query))
}

/// Relies on url::Url::parse and url::Url::join: the parts of the reference
/// resolved against the base, or absence where the base does not parse, the
/// join fails, or the result has no host.
#[verifier::external_body]
fn join_url_parts(base: &str, href: &str) -> (r: Option<(String, String, String, Option<String>)>)
    ensures
        (r matches Some(p) ==> url_join_parts(base@, href@) == Some(
            (p.0@, p.1@, p.2@, query_view(p.3)),
        )),
        (r is None ==> url_join_parts(base@, href@) is None),
{
    let u = url::Url::parse(base).ok()?.join(href).ok()?;
    let host = u.host_str()?.to_string();
    let query = u.query().map(|q| q.to_string());
    Some((u.scheme().to_string(), host, u.path().to_string(), query))
}

/// Whether parsed parts make a well-formed crawl URL; the query takes any
/// shape.
pub open spec fn parts_wf(parts: (Seq<char>, Seq<char>, Seq<char>, Option<Seq<char>>)) -> bool {
    &&& (parts.0 == "http"@ || parts.0 == "https"@)
    &&& parts.1.len() > 0
    &&& parts.2.len() > 0
    &&& parts.2[0] == '/'
}

impl CrawlUrl {
    /// The URL written back as text.
    pub open spec fn text(self) -> Seq<char> {
        let base = self.scheme@ + "://"@ + self.host@ + self.path@;
        match self.query {
            Some(q) => base + "?"@ + q@,
            None => base,
        }
    }

    /// Parses an absolute URL, accepting exactly the texts that parse to an
    /// http or https location with a host and a rooted path.
    pub fn parse(text: &str) -> (r: Option<CrawlUrl>)
        ensures
            match r {
                Some(u) => ({
                    &&& u.wf()
                    &&& url_parts(text@) == Some(
                        (u.scheme@, u.host@, u.path@, query_view(u.query)),
                    )
                }),
                None => !(url_parts(text@) matches Some(p) && parts_wf(p)),
            },
    {
        let parts = match parse_url_parts(text) {
            Some(p) => p,
            None => return None,
        };
        let (scheme, host, path, query) = parts;
        match CrawlUrl::from_parts(scheme, host, path) {
            Some(u) => Some(CrawlUrl { scheme: u.scheme, host: u.host, path: u.path, query }),
            None => None,
        }
    }

    /// Resolves a possibly relative reference against this URL, accepting
    /// exactly the references that resolve to an http or https location
    /// with a host and a rooted path.
    pub fn join(&self, href: &str) -> (r: Option<CrawlUrl>)
        ensures
            match r {
                Some(u) => ({
                    &&& u.wf()
                    &&& url_join_parts(self.text(), href@) == Some(
                        (u.scheme@, u.host@, u.path@, query_view(u.query)),
                    )
                }),
                None => !(url_join_parts(self.text(), href@) matches Some(p) && parts_wf(p)),
            },
    {
        let mut base = self.scheme.clone().concat("://").concat(self.host.as_str()).concat(
            self.path.as_str(),
        );
        match &self.query {
            Some(q) => {
                base = base.concat("?").concat(q.as_str());
            },
            None => {},
        }
        let parts = match join_url_parts(base.as_str(), href) {
            Some(p) => p,
            None => return None,
        };
        let (scheme, host, path, query) = parts;
        match CrawlUrl::from_parts(scheme, host, path) {
            Some(u) => Some(CrawlUrl { scheme: u.scheme, host: u.host, path: u.path, query }),
            None => None,
        }
    }
}

impl Clone for CrawlUrl {
    fn clone(&self) -> (r: Self)
        ensures
            r == *self,
    {
        CrawlUrl {
            scheme: self.scheme.clone(),
            host: self.host.clone(),
            path: self.path.clone(),
            query: match &self.query {
                Some(q) => Some(q.clone()),
                None => None,
            },
        }
    }
}

} // verus!
