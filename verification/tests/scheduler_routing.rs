use syphon::crawl_url::CrawlUrl;
use syphon::next_action::{NextAction, NextUrl, WebsiteOutput};
use syphon::scheduler::{OutputChannel, RouteDecision, SiteState};

#[derive(Debug, PartialEq, Eq, Clone)]
struct Rec {
    title: String,
}

impl WebsiteOutput for Rec {
    fn spec_should_process(&self) -> bool {
        !self.title.is_empty()
    }

    fn should_process(&self) -> bool {
        !self.title.is_empty()
    }
}

fn url(host: &str, path: &str) -> CrawlUrl {
    CrawlUrl::from_parts("http".to_string(), host.to_string(), path.to_string()).unwrap()
}

fn visit(host: &str, path: &str) -> NextAction<(), Rec> {
    NextAction::Visit(NextUrl::new(url(host, path), ()))
}

#[test]
fn dedup_admits_each_path_once() {
    let mut state: SiteState<()> = SiteState::new("x.test".to_string(), 2);
    let parent = "x.test".to_string();
    assert!(matches!(
        state.route(visit("x.test", "/a"), &parent),
        RouteDecision::Enqueue(_)
    ));
    assert!(matches!(
        state.route(visit("x.test", "/b"), &parent),
        RouteDecision::Enqueue(_)
    ));
    assert!(matches!(
        state.route(visit("x.test", "/a"), &parent),
        RouteDecision::Discard
    ));
}

#[test]
fn cross_host_visit_discarded() {
    let mut state: SiteState<()> = SiteState::new("x.test".to_string(), 2);
    let parent = "x.test".to_string();
    assert!(matches!(
        state.route(visit("y.test", "/z"), &parent),
        RouteDecision::Discard
    ));
    // The path was not recorded: the same path on the right host is admitted.
    assert!(matches!(
        state.route(visit("x.test", "/z"), &parent),
        RouteDecision::Enqueue(_)
    ));
}

#[test]
fn output_filtered_by_should_process() {
    let mut state: SiteState<()> = SiteState::new("x.test".to_string(), 2);
    let parent = "x.test".to_string();
    let empty = Rec { title: String::new() };
    let full = Rec { title: "Hello".to_string() };
    assert_eq!(
        state.route(NextAction::PipeOutput(empty), &parent),
        RouteDecision::Discard
    );
    assert_eq!(
        state.route(NextAction::PipeOutput(full.clone()), &parent),
        RouteDecision::Deliver(full)
    );
}

#[test]
fn reserved_action_ignored() {
    let mut state: SiteState<()> = SiteState::new("x.test".to_string(), 2);
    let parent = "x.test".to_string();
    assert_eq!(
        state.route(NextAction::<(), Rec>::Ignore, &parent),
        RouteDecision::Discard
    );
}

#[test]
fn parallelism_capped_at_limit() {
    let mut state: SiteState<()> = SiteState::new("x.test".to_string(), 2);
    state.seed(NextUrl::new(url("x.test", "/1"), ()));
    state.seed(NextUrl::new(url("x.test", "/2"), ()));
    state.seed(NextUrl::new(url("x.test", "/3"), ()));
    assert!(state.begin_fetch().is_some());
    assert!(state.begin_fetch().is_some());
    // Two fetches hold the two permits: the third waits though work is queued.
    assert!(state.begin_fetch().is_none());
    state.release();
    let third = state.begin_fetch();
    assert_eq!(third.unwrap().url.path, "/3".to_string());
}

#[test]
fn frontier_drained_in_order() {
    let mut state: SiteState<()> = SiteState::new("x.test".to_string(), 4);
    state.seed(NextUrl::new(url("x.test", "/1"), ()));
    state.seed(NextUrl::new(url("x.test", "/2"), ()));
    assert_eq!(state.begin_fetch().unwrap().url.path, "/1".to_string());
    assert_eq!(state.begin_fetch().unwrap().url.path, "/2".to_string());
    assert!(state.begin_fetch().is_none());
}

#[test]
fn frontier_capacity_is_four_per_permit() {
    let state: SiteState<()> = SiteState::new("x.test".to_string(), 3);
    assert_eq!(state.frontier_capacity(), 12);
}

#[test]
fn largest_budget_accepted() {
    let state: SiteState<()> = SiteState::new("x.test".to_string(), usize::MAX / 4);
    assert_eq!(state.frontier_capacity(), (usize::MAX / 4) * 4);
}

#[test]
fn shared_output_channel_buffers_sixteen() {
    let ch: OutputChannel<Rec> = OutputChannel::new(syphon::scheduler::OUTPUT_CHANNEL_CAPACITY);
    assert_eq!(ch.cap, 16);
}

#[test]
fn output_channel_is_a_queue() {
    let mut ch: OutputChannel<Rec> = OutputChannel::new(16);
    assert_eq!(ch.recv(), None);
    ch.send(Rec { title: "a".to_string() });
    ch.send(Rec { title: "b".to_string() });
    assert_eq!(ch.recv(), Some(Rec { title: "a".to_string() }));
    assert_eq!(ch.recv(), Some(Rec { title: "b".to_string() }));
    assert_eq!(ch.recv(), None);
}
