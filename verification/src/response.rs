use vstd::prelude::*;

use crate::crawl_url::CrawlUrl;
use crate::error::Error;
use crate::json::{json_from_bytes, json_value_of, json_value_ok};

verus! {

/// The carrier of one fetched page: the body bytes and the final URL the
/// request resolved to, after redirects. Immutable once built; shared by all
/// handlers on the same fetch.
#[derive(Debug)]
pub struct Response {
    pub bytes: Vec<u8>,
    pub url: CrawlUrl,
}

impl Response {
    /// Builds the response a fetch produced.
    pub fn new(bytes: Vec<u8>, url: CrawlUrl) -> (r: Response)
        ensures
            r.bytes == bytes,
            r.url == url,
    {
        Response { bytes, url }
    }

    /// Decodes the body as JSON. Succeeds exactly when the body is
    /// well-formed JSON, yielding the value the bytes decode to; any
    /// decoding failure is the JSON error.
    pub fn json(&self) -> (r: core::result::Result<serde_json::Value, Error>)
        ensures
            r.is_ok() == json_value_ok(self.bytes@),
            (r matches Ok(v) ==> v == json_value_of(self.bytes@)),
            (r matches Err(e) ==> e == Error::JsonError),
    {
        match json_from_bytes(&self.bytes) {
            Some(v) => Ok(v),
            None => Err(Error::JsonError),
        }
    }
}

/// The extractor protocol: a typed projection from a response and the
/// per-fetch context to a value, or to absence. Absence means "this handler
/// cannot run on this response" and is a clean no-op for the dispatcher.
pub trait FromResponse<Ctx>: Sized {
    fn from_response(resp: &Response, ctx: &Ctx) -> Option<Self>;
}

} // verus!
