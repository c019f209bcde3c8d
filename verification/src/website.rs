use vstd::prelude::*;

use crate::crawl_url::CrawlUrl;
use crate::handler::{Handler, HandlerBox, HandlerPair, HandlerWrapper};
use crate::next_action::NextUrl;
use crate::scheduler::{dedup_contents, SiteState};

verus! {

/// Builds a site's configuration: starting URLs, a parallelism budget, and
/// the composed handlers. The calls chain in any order and any number;
/// `build` freezes the configuration.
pub struct WebsiteBuilder<H> {
    pub starting_urls: Vec<CrawlUrl>,
    pub parallel_limit: usize,
    pub handler: H,
}

/// A site's configuration requires a positive parallelism budget whose
/// frontier capacity fits the machine, and well-formed starting URLs.
pub open spec fn config_wf(starting_urls: Seq<CrawlUrl>, parallel_limit: usize) -> bool {
    &&& 1 <= parallel_limit
    &&& 4 * parallel_limit <= usize::MAX
    &&& (forall|i: int| 0 <= i < starting_urls.len() ==> (#[trigger] starting_urls[i]).wf())
}

impl<H> WebsiteBuilder<H> {
    pub open spec fn wf(self) -> bool {
        config_wf(self.starting_urls@, self.parallel_limit)
    }

    /// Sets the site's parallelism budget: the bound on concurrent fetches.
    pub fn parallel_limit(self, limit: usize) -> (r: WebsiteBuilder<H>)
        requires
            self.wf(),
            1 <= limit,
            4 * limit <= usize::MAX,
        ensures
            r.wf(),
            r.parallel_limit == limit,
            r.starting_urls == self.starting_urls,
            r.handler == self.handler,
    {
        WebsiteBuilder {
            starting_urls: self.starting_urls,
            parallel_limit: limit,
            handler: self.handler,
        }
    }

    /// Appends a starting URL; at least one is needed before launch.
    pub fn start_with(self, url: CrawlUrl) -> (r: WebsiteBuilder<H>)
        requires
            self.wf(),
            url.wf(),
        ensures
            r.wf(),
            r.starting_urls@ == self.starting_urls@.push(url),
            r.parallel_limit == self.parallel_limit,
            r.handler == self.handler,
    {
        let mut starting_urls = self.starting_urls;
        starting_urls.push(url);
        WebsiteBuilder {
            starting_urls,
            parallel_limit: self.parallel_limit,
            handler: self.handler,
        }
    }

    /// Appends a handler; on each response it runs after the ones already
    /// registered, and its actions are concatenated after theirs.
    pub fn and<Ctx, Out, H2>(self, handler: H2) -> (r: WebsiteBuilder<
        HandlerPair<H, HandlerBox<H2>>,
    >) where H: HandlerWrapper<Ctx, Out>, H2: Handler<Ctx, Out>
        requires
            self.wf(),
        ensures
            r.wf(),
            r.starting_urls == self.starting_urls,
            r.parallel_limit == self.parallel_limit,
            r.handler.first == self.handler,
            r.handler.second.inner == handler,
    {
        WebsiteBuilder {
            starting_urls: self.starting_urls,
            parallel_limit: self.parallel_limit,
            handler: HandlerPair::pair(self.handler, HandlerBox::from_handler(handler)),
        }
    }

    /// Freezes the configuration into a runnable site.
    pub fn build(self) -> (r: Website<H>)
        requires
            self.wf(),
        ensures
            r.wf(),
            r.starting_urls == self.starting_urls,
            r.parallel_limit == self.parallel_limit,
            r.handler == self.handler,
    {
        Website {
            starting_urls: self.starting_urls,
            parallel_limit: self.parallel_limit,
            handler: self.handler,
        }
    }
}

/// One logical crawl: the frozen starting URLs, parallelism budget, and
/// composed handlers. The asynchronous shell binds it to an output channel,
/// spawns its fetch loop, and seeds its frontier.
pub struct Website<H> {
    pub starting_urls: Vec<CrawlUrl>,
    pub parallel_limit: usize,
    pub handler: H,
}

impl<H2> Website<HandlerBox<H2>> {
    /// Starts a builder from a first handler, with the defaults: no seed
    /// yet and a parallelism budget of 16.
    pub fn handle<Ctx, Out>(handler: H2) -> (r: WebsiteBuilder<HandlerBox<H2>>) where
        H2: Handler<Ctx, Out>

        ensures
            r.wf(),
            r.starting_urls@.len() == 0,
            r.parallel_limit == 16,
            r.handler.inner == handler,
    {
        WebsiteBuilder {
            starting_urls: Vec::new(),
            parallel_limit: 16,
            handler: HandlerBox::from_handler(handler),
        }
    }
}

impl<H> Website<H> {
    pub open spec fn wf(self) -> bool {
        config_wf(self.starting_urls@, self.parallel_limit)
    }

    /// Creates the site's scheduling state: an empty frontier with capacity
    /// four per unit of parallelism, a cleared dedup set, and the host of
    /// the first seed fixed as the site's own.
    pub fn init_state<Data>(&self) -> (r: SiteState<Data>)
        requires
            self.wf(),
            self.starting_urls@.len() >= 1,
        ensures
            r.wf(),
            r.host == self.starting_urls@[0].host,
            r.limit == self.parallel_limit,
            r.in_flight == 0,
            r.frontier@.len() == 0,
            dedup_contents(r.seen) == Set::<Seq<char>>::empty(),
            r.admitted@.len() == 0,
    {
        SiteState::new(self.starting_urls[0].host.clone(), self.parallel_limit)
    }

    /// Seeds the frontier with every starting URL, each carrying the
    /// default context. Seeds are admitted unconditionally; deduplication
    /// begins with handler-produced URLs, so re-seeding a URL fetches it
    /// again.
    pub fn launch<Data: Default>(&self, state: &mut SiteState<Data>)
        requires
            self.wf(),
            old(state).wf(),
            old(state).frontier@.len() + self.starting_urls@.len() <= old(state).capacity(),
        ensures
            final(state).wf(),
            final(state).frontier@.len() == old(state).frontier@.len()
                + self.starting_urls@.len(),
            (forall|i: int|
                0 <= i < self.starting_urls@.len() ==> (#[trigger] final(state).frontier@[old(
                    state,
                ).frontier@.len() + i]).url == self.starting_urls@[i]),
            (forall|i: int|
                0 <= i < self.starting_urls@.len() ==> call_ensures(
                    Data::default,
                    (),
                    (#[trigger] final(state).frontier@[old(state).frontier@.len() + i]).data,
                )),
            (forall|i: int|
                0 <= i < old(state).frontier@.len() ==> final(state).frontier@[i] == old(
                    state,
                ).frontier@[i]),
            final(state).host == old(state).host,
            final(state).limit == old(state).limit,
            final(state).in_flight == old(state).in_flight,
            final(state).seen == old(state).seen,
            final(state).admitted == old(state).admitted,
    {
        let ghost base = state.frontier@.len() as int;
        let mut i: usize = 0;
        while i < self.starting_urls.len()
            invariant
                base == old(state).frontier@.len(),
                0 <= i <= self.starting_urls@.len(),
                self.wf(),
                state.wf(),
                base + self.starting_urls@.len() <= state.capacity(),
                state.frontier@.len() == base + i,
                (forall|j: int|
                    0 <= j < i ==> (#[trigger] state.frontier@[base + j]).url
                        == self.starting_urls@[j]),
                (forall|j: int|
                    0 <= j < i ==> call_ensures(
                        Data::default,
                        (),
                        (#[trigger] state.frontier@[base + j]).data,
                    )),
                (forall|j: int|
                    0 <= j < base ==> state.frontier@[j] == old(state).frontier@[j]),
                state.host == old(state).host,
                state.limit == old(state).limit,
                state.in_flight == old(state).in_flight,
                state.seen == old(state).seen,
                state.admitted == old(state).admitted,
            decreases self.starting_urls@.len() - i,
        {
            let url = self.starting_urls[i].clone();
            let data = Data::default();
            let ghost pre = state.frontier@;
            let n = NextUrl::new(url, data);
            state.seed(n);
            proof {
                broadcast use vstd::seq::group_seq_axioms;

                assert(state.frontier@ == pre.push(n));
                assert forall|j: int|
                    0 <= j < i + 1 implies (#[trigger] state.frontier@[base + j]).url
                    == self.starting_urls@[j] by {
                    if j < i {
                        assert(state.frontier@[base + j] == pre[base + j]);
                    } else {
                        assert(state.frontier@[base + j] == n);
                    }
                }
                assert forall|j: int|
                    0 <= j < base implies state.frontier@[j] == old(state).frontier@[j] by {
                    assert(state.frontier@[j] == pre[j]);
                }
            }
            i = i + 1;
        }
    }
}

} // verus!
