use vstd::prelude::*;
use vstd::pervasive::cloned;
use vstd::string::StringSliceAdditionalSpecFns;
use vstd::utf8::decode_utf8;
use vstd::utf8::valid_utf8;

use crate::crawl_url::CrawlUrl;
use crate::json::{json_value_of, json_value_ok};
use crate::response::{FromResponse, Response};
use crate::selector::{doc_of, parse_document, SearchSelectors};

verus! {

/// The URL extractor: always succeeds, yielding the final URL of the
/// response.
#[derive(Debug, PartialEq, Eq)]
pub struct Url(pub CrawlUrl);

impl<Ctx> FromResponse<Ctx> for Url {
    fn from_response(resp: &Response, _ctx: &Ctx) -> (r: Option<Url>)
        ensures
            r == Some(Url(resp.url)),
    {
        Some(Url(resp.url.clone()))
    }
}

/// The context extractor: always succeeds, yielding a clone of the
/// per-fetch context value, in the site's own context type.
#[derive(Debug, PartialEq, Eq)]
pub struct Context<Ctx>(pub Ctx);

impl<Ctx: Clone> FromResponse<Ctx> for Context<Ctx> {
    fn from_response(_resp: &Response, ctx: &Ctx) -> (r: Option<Context<Ctx>>)
        ensures
            r is Some,
            (r matches Some(c) ==> cloned(*ctx, c.0)),
    {
        Some(Context(ctx.clone()))
    }
}

/// The JSON extractor: attempts to decode the body as JSON; any decoding
/// failure is absence, which skips the handler cleanly. It yields the
/// generic JSON value; a handler that wants its own record type decodes
/// that value itself.
#[derive(Debug)]
pub struct Json(pub serde_json::Value);

impl<Ctx> FromResponse<Ctx> for Json {
    fn from_response(resp: &Response, _ctx: &Ctx) -> (r: Option<Json>)
        ensures
            r.is_some() == json_value_ok(resp.bytes@),
            (r matches Some(j) ==> j.0 == json_value_of(resp.bytes@)),
    {
        match resp.json() {
            Ok(v) => Some(Json(v)),
            Err(_) => None,
        }
    }
}

/// Relies on std's str::from_utf8: succeeds exactly on valid UTF-8, viewing
/// the same bytes.
#[verifier::external_body]
fn bytes_as_str(bytes: &Vec<u8>) -> (r: Option<&str>)
    ensures
        r.is_some() == valid_utf8(bytes@),
        (r matches Some(s) ==> s.spec_bytes() == bytes@),
{
    core::str::from_utf8(bytes).ok()
}

/// The selector extractor: parses the body as HTML and runs the selector
/// program of the target type over it. A body that is not text, a selector
/// that does not parse, or a missing required field is absence.
#[derive(Debug, PartialEq, Eq)]
pub struct Selector<T: SearchSelectors>(pub T);

impl<T: SearchSelectors, Ctx> FromResponse<Ctx> for Selector<T> {
    fn from_response(resp: &Response, _ctx: &Ctx) -> (r: Option<Selector<T>>)
        ensures
            (!valid_utf8(resp.bytes@) ==> r is None),
            (valid_utf8(resp.bytes@) ==> r == match T::spec_search(
                doc_of(decode_utf8(resp.bytes@)),
            ) {
                Some(t) => Some(Selector(t)),
                None => None,
            }),
    {
        let source = match bytes_as_str(&resp.bytes) {
            Some(s) => s,
            None => return None,
        };
        let dom = parse_document(source);
        proof {
            vstd::utf8::encode_utf8_decode_utf8(source@);
        }
        match T::search(&dom) {
            Some(t) => Some(Selector(t)),
            None => None,
        }
    }
}

} // verus!
