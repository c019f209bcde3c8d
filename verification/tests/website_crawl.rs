use syphon::crawl_url::CrawlUrl;
use syphon::handler::{Handler, HandlerWrapper};
use syphon::next_action::{NextAction, NextUrl, WebsiteOutput};
use syphon::response::Response;
use syphon::scheduler::{RouteDecision, SiteState};
use syphon::website::Website;

#[derive(Debug, PartialEq, Eq, Clone)]
struct Rec {
    title: String,
}

impl WebsiteOutput for Rec {
    fn spec_should_process(&self) -> bool {
        !self.title.is_empty()
    }

    fn should_process(&self) -> bool {
        !self.title.is_empty()
    }
}

fn url(host: &str, path: &str) -> CrawlUrl {
    CrawlUrl::from_parts("http".to_string(), host.to_string(), path.to_string()).unwrap()
}

/// Emits one record naming the visited page, then proposes every link the
/// body lists, resolved against the page's URL.
#[derive(Clone)]
struct FollowLinks;

impl Handler<(), Rec> for FollowLinks {
    fn actions_spec(&self, _resp: Response, _ctx: ()) -> vstd::prelude::Seq<NextAction<(), Rec>> {
        unreachable!()
    }

    fn handle(&self, resp: &Response, _ctx: &()) -> Vec<NextAction<(), Rec>> {
        let body = String::from_utf8(resp.bytes.clone()).unwrap_or_default();
        let mut actions =
            vec![NextAction::PipeOutput(Rec { title: format!("visited {}", resp.url.path) })];
        for href in body.split_whitespace() {
            if let Some(u) = resp.url.join(href) {
                actions.push(NextAction::Visit(NextUrl::new(u, ())));
            }
        }
        actions
    }
}

/// Emits a record that always fails the filter predicate.
#[derive(Clone)]
struct EmitEmpty;

impl Handler<(), Rec> for EmitEmpty {
    fn actions_spec(&self, _resp: Response, _ctx: ()) -> vstd::prelude::Seq<NextAction<(), Rec>> {
        unreachable!()
    }

    fn handle(&self, _resp: &Response, _ctx: &()) -> Vec<NextAction<(), Rec>> {
        vec![NextAction::PipeOutput(Rec { title: String::new() })]
    }
}

/// Drives one site to exhaustion over mock pages, fetching one URL at a
/// time: the single-threaded run of the fetch loop's decisions.
fn crawl<H: HandlerWrapper<(), Rec>>(
    site: &Website<H>,
    pages: &[(&str, &str)],
) -> (Vec<String>, Vec<Rec>) {
    let mut state: SiteState<()> = site.init_state();
    site.launch(&mut state);
    let mut fetched: Vec<String> = Vec::new();
    let mut outputs: Vec<Rec> = Vec::new();
    while let Some(n) = state.begin_fetch() {
        fetched.push(n.url.path.clone());
        let body = pages
            .iter()
            .find(|(p, _)| *p == n.url.path)
            .map(|(_, b)| *b)
            .unwrap_or("");
        let resp = Response::new(body.as_bytes().to_vec(), n.url);
        let actions = site.handler.handle(&resp, &n.data);
        state.release();
        let parent_host = resp.url.host.clone();
        for a in actions {
            match state.route(a, &parent_host) {
                RouteDecision::Deliver(o) => outputs.push(o),
                RouteDecision::Enqueue(v) => {
                    assert!(state.frontier.len() < state.frontier_capacity());
                    state.enqueue(v);
                }
                RouteDecision::Discard => {}
            }
        }
        assert!(state.frontier.len() <= state.frontier_capacity());
    }
    (fetched, outputs)
}

#[test]
fn builder_defaults_and_chaining() {
    let site = Website::handle(FollowLinks)
        .start_with(url("x.test", "/"))
        .start_with(url("x.test", "/other"))
        .parallel_limit(2)
        .build();
    assert_eq!(site.parallel_limit, 2);
    assert_eq!(
        site.starting_urls,
        vec![url("x.test", "/"), url("x.test", "/other")]
    );
    let state: SiteState<()> = site.init_state();
    assert_eq!(state.host, "x.test");
    assert_eq!(state.limit, 2);
}

#[test]
fn link_follow_fetches_each_path_once() {
    let site = Website::handle(FollowLinks)
        .start_with(url("x.test", "/"))
        .parallel_limit(2)
        .build();
    let pages = [("/", "/a /b /a"), ("/a", ""), ("/b", "/a")];
    let (fetched, outputs) = crawl(&site, &pages);
    assert_eq!(fetched, vec!["/", "/a", "/b"]);
    assert_eq!(
        outputs,
        vec![
            Rec { title: "visited /".to_string() },
            Rec { title: "visited /a".to_string() },
            Rec { title: "visited /b".to_string() },
        ]
    );
}

/// Emits one record naming the host.
#[derive(Clone)]
struct EmitHost;

impl Handler<(), Rec> for EmitHost {
    fn actions_spec(&self, _resp: Response, _ctx: ()) -> vstd::prelude::Seq<NextAction<(), Rec>> {
        unreachable!()
    }

    fn handle(&self, resp: &Response, _ctx: &()) -> Vec<NextAction<(), Rec>> {
        vec![NextAction::PipeOutput(Rec { title: format!("host {}", resp.url.host) })]
    }
}

#[test]
fn composed_handlers_run_in_registration_order() {
    let site = Website::handle(FollowLinks)
        .and(EmitHost)
        .start_with(url("x.test", "/"))
        .parallel_limit(1)
        .build();
    let pages = [("/", "")];
    let (fetched, outputs) = crawl(&site, &pages);
    assert_eq!(fetched, vec!["/"]);
    assert_eq!(
        outputs,
        vec![
            Rec { title: "visited /".to_string() },
            Rec { title: "host x.test".to_string() },
        ]
    );
}

#[test]
fn cross_host_link_never_fetched() {
    let site = Website::handle(FollowLinks)
        .start_with(url("x.test", "/"))
        .parallel_limit(2)
        .build();
    let pages = [("/", "http://y.test/z"), ("/z", "")];
    let (fetched, _) = crawl(&site, &pages);
    assert_eq!(fetched, vec!["/"]);
}

#[test]
fn filtered_outputs_never_reach_the_consumer() {
    let site = Website::handle(EmitEmpty)
        .start_with(url("x.test", "/"))
        .parallel_limit(2)
        .build();
    let pages = [("/", "ignored")];
    let (fetched, outputs) = crawl(&site, &pages);
    assert_eq!(fetched, vec!["/"]);
    assert_eq!(outputs, vec![]);
}

#[test]
fn reseeding_the_same_url_fetches_it_twice() {
    let site = Website::handle(EmitEmpty)
        .start_with(url("x.test", "/"))
        .start_with(url("x.test", "/"))
        .parallel_limit(2)
        .build();
    let pages = [("/", "")];
    let (fetched, _) = crawl(&site, &pages);
    assert_eq!(fetched, vec!["/", "/"]);
}

#[test]
fn launch_seeds_in_order_with_default_context() {
    let site = Website::handle(EmitEmpty)
        .start_with(url("x.test", "/1"))
        .start_with(url("x.test", "/2"))
        .parallel_limit(1)
        .build();
    let mut state: SiteState<()> = site.init_state();
    site.launch(&mut state);
    assert_eq!(state.frontier.len(), 2);
    assert_eq!(state.frontier[0], NextUrl::new(url("x.test", "/1"), ()));
    assert_eq!(state.frontier[1], NextUrl::new(url("x.test", "/2"), ()));
}

#[test]
fn frontier_stays_within_capacity_under_many_links() {
    let mut state: SiteState<()> = SiteState::new("x.test".to_string(), 1);
    let parent = "x.test".to_string();
    let cap = state.frontier_capacity();
    assert_eq!(cap, 4);
    let mut enqueued = 0;
    for i in 0..6 {
        let v = NextUrl::new(url("x.test", &format!("/{}", i)), ());
        if let RouteDecision::Enqueue(v) = state.route(NextAction::<(), Rec>::Visit(v), &parent) {
            if state.frontier.len() < cap {
                state.enqueue(v);
                enqueued += 1;
            }
        }
    }
    assert_eq!(enqueued, 4);
    assert_eq!(state.frontier.len(), cap);
}
