use syphon::crawl_url::CrawlUrl;
use syphon::handler::{Handler, HandlerBox, HandlerPair, HandlerWrapper};
use syphon::next_action::{NextAction, NextUrl, WebsiteOutput};
use syphon::response::Response;

#[derive(Debug, PartialEq, Eq, Clone)]
struct Rec {
    title: String,
}

impl WebsiteOutput for Rec {
    fn spec_should_process(&self) -> bool {
        !self.title.is_empty()
    }

    fn should_process(&self) -> bool {
        !self.title.is_empty()
    }
}

fn url(host: &str, path: &str) -> CrawlUrl {
    CrawlUrl::from_parts("http".to_string(), host.to_string(), path.to_string()).unwrap()
}

fn resp(body: &str) -> Response {
    Response::new(body.as_bytes().to_vec(), url("x.test", "/"))
}

/// Emits one record, whatever the response holds.
struct EmitTitle;

impl Handler<(), Rec> for EmitTitle {
    fn actions_spec(&self, _resp: Response, _ctx: ()) -> vstd::prelude::Seq<NextAction<(), Rec>> {
        unreachable!()
    }

    fn handle(&self, _resp: &Response, _ctx: &()) -> Vec<NextAction<(), Rec>> {
        vec![NextAction::PipeOutput(Rec { title: "Hello".to_string() })]
    }
}

/// Skips every response, as a handler whose extractor is absent does.
struct Skips;

impl Handler<(), Rec> for Skips {
    fn actions_spec(&self, _resp: Response, _ctx: ()) -> vstd::prelude::Seq<NextAction<(), Rec>> {
        unreachable!()
    }

    fn handle(&self, _resp: &Response, _ctx: &()) -> Vec<NextAction<(), Rec>> {
        Vec::new()
    }
}

/// Proposes one link.
struct FollowLink;

impl Handler<(), Rec> for FollowLink {
    fn actions_spec(&self, _resp: Response, _ctx: ()) -> vstd::prelude::Seq<NextAction<(), Rec>> {
        unreachable!()
    }

    fn handle(&self, _resp: &Response, _ctx: &()) -> Vec<NextAction<(), Rec>> {
        vec![NextAction::Visit(NextUrl::new(url("x.test", "/a"), ()))]
    }
}

#[test]
fn pair_concatenates_in_registration_order() {
    let pair = HandlerPair::pair(
        HandlerBox::from_handler(EmitTitle),
        HandlerBox::from_handler(FollowLink),
    );
    let actions = pair.handle(&resp("<html></html>"), &());
    assert_eq!(
        actions,
        vec![
            NextAction::PipeOutput(Rec { title: "Hello".to_string() }),
            NextAction::Visit(NextUrl::new(url("x.test", "/a"), ())),
        ]
    );
}

#[test]
fn skipping_handler_leaves_others_unaffected() {
    let pair = HandlerPair::pair(
        HandlerBox::from_handler(Skips),
        HandlerBox::from_handler(EmitTitle),
    );
    let actions = pair.handle(&resp("<html></html>"), &());
    assert_eq!(
        actions,
        vec![NextAction::PipeOutput(Rec { title: "Hello".to_string() })]
    );
}
